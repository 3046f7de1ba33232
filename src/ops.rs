//! Backup, restore and delete, as decisions on what the filesystem reports.
//!
//! Each operation validates its names, looks at what was found on disk, and
//! answers with the work to do (a copy, or a confirmed removal) together with
//! the notice for the user and the audit record, or with an error.

use vstd::prelude::*;
use vstd::string::StrSliceExecFns;
use crate::error::{Failure, SafeBackupError};
use crate::path::{check_path, is_absolute, rejection_of, rejection_text, starts_at_root};
use crate::text::{join2, join3, lowercase_text, lowercased, same_text, trim_text, trimmed};

verus! {

/// What a path names on disk.
#[derive(Clone, Copy, Debug, PartialEq, Eq, Structural)]
pub enum FileKind {
    /// Nothing.
    Missing,
    /// A regular file.
    Regular,
    /// A directory or a special file.
    Other,
}

/// The error that validation gives `f` under `root`, if any.
pub open spec fn path_failure(root: Seq<char>, f: Seq<char>) -> Option<Failure> {
    match rejection_of(root, f, trimmed(f).len() == 0) {
        Some(k) => Some(Failure::InvalidPath(rejection_text(k))),
        None => None,
    }
}

/// The name of the backup of `f`.
pub open spec fn backup_name(f: Seq<char>) -> Seq<char> {
    f + seq!['.', 'b', 'a', 'k']
}

/// The name of the backup of `f`: `f` followed by `.bak`.
pub fn backup_name_of(f: &str) -> (r: String)
    ensures
        r@ == backup_name(f@),
{
    proof {
        reveal_strlit(".bak");
    }
    join2(f, ".bak")
}

/// The tool's settings: where the audit log goes, and the directory that
/// every filename is resolved against.
pub struct SafeBackup {
    pub log_file: String,
    pub root: String,
}

/// A copy of the whole of `source` over `target`, with what to tell the
/// user and what to record once it is done.
pub struct Transfer {
    pub source: String,
    pub target: String,
    pub notice: String,
    pub record: String,
}

/// The mathematical form of a `Transfer`.
pub struct TransferView {
    pub source: Seq<char>,
    pub target: Seq<char>,
    pub notice: Seq<char>,
    pub record: Seq<char>,
}

impl View for Transfer {
    type V = TransferView;

    open spec fn view(&self) -> TransferView {
        TransferView {
            source: self.source@,
            target: self.target@,
            notice: self.notice@,
            record: self.record@,
        }
    }
}

/// A removal that waits for the user's answer to `prompt`.
pub struct DeleteRequest {
    pub target: String,
    pub prompt: String,
}

/// The mathematical form of a `DeleteRequest`.
pub struct DeleteRequestView {
    pub target: Seq<char>,
    pub prompt: Seq<char>,
}

impl View for DeleteRequest {
    type V = DeleteRequestView;

    open spec fn view(&self) -> DeleteRequestView {
        DeleteRequestView { target: self.target@, prompt: self.prompt@ }
    }
}

/// The answer to a removal: whether `target` goes, with what to tell the
/// user and what to record.
pub struct DeleteOutcome {
    pub remove: bool,
    pub target: String,
    pub notice: String,
    pub record: String,
}

/// The mathematical form of a `DeleteOutcome`.
pub struct DeleteOutcomeView {
    pub remove: bool,
    pub target: Seq<char>,
    pub notice: Seq<char>,
    pub record: Seq<char>,
}

impl View for DeleteOutcome {
    type V = DeleteOutcomeView;

    open spec fn view(&self) -> DeleteOutcomeView {
        DeleteOutcomeView {
            remove: self.remove,
            target: self.target@,
            notice: self.notice@,
            record: self.record@,
        }
    }
}

/// The mathematical form of an operation's answer.
pub open spec fn transfer_result(r: Result<Transfer, SafeBackupError>) -> Result<TransferView, Failure> {
    match r {
        Ok(t) => Ok(t@),
        Err(e) => Err(e@),
    }
}

/// The mathematical form of a removal request's answer.
pub open spec fn request_result(r: Result<DeleteRequest, SafeBackupError>) -> Result<
    DeleteRequestView,
    Failure,
> {
    match r {
        Ok(d) => Ok(d@),
        Err(e) => Err(e@),
    }
}

/// The error for a name that is not a regular file.
pub open spec fn not_regular(f: Seq<char>) -> Failure {
    Failure::InvalidPath("'"@ + f + "' is not a regular file"@)
}

/// What a backup of `f` comes to, when `f` is found to be `source`.
pub open spec fn backup_outcome(root: Seq<char>, f: Seq<char>, source: FileKind) -> Result<
    TransferView,
    Failure,
> {
    match path_failure(root, f) {
        Some(e) => Err(e),
        None => match source {
            FileKind::Missing => Err(
                Failure::FileNotFound("Source file '"@ + f + "' does not exist"@),
            ),
            FileKind::Other => Err(not_regular(f)),
            FileKind::Regular => match path_failure(root, backup_name(f)) {
                Some(e) => Err(e),
                None => Ok(
                    TransferView {
                        source: f,
                        target: backup_name(f),
                        notice: "Backup created: "@ + backup_name(f),
                        record: "Performed backup of '"@ + f + "'"@,
                    },
                ),
            },
        },
    }
}

/// What a restore of `f` comes to, when its backup is found to be `backup`.
pub open spec fn restore_outcome(root: Seq<char>, f: Seq<char>, backup: FileKind) -> Result<
    TransferView,
    Failure,
> {
    match path_failure(root, f) {
        Some(e) => Err(e),
        None => match path_failure(root, backup_name(f)) {
            Some(e) => Err(e),
            None => match backup {
                FileKind::Missing => Err(
                    Failure::FileNotFound("Backup file '"@ + backup_name(f) + "' does not exist"@),
                ),
                FileKind::Other => Err(not_regular(backup_name(f))),
                FileKind::Regular => Ok(
                    TransferView {
                        source: backup_name(f),
                        target: f,
                        notice: "File restored from: "@ + backup_name(f),
                        record: "Performed restore to '"@ + f + "'"@,
                    },
                ),
            },
        },
    }
}

/// What a request to delete `f` comes to, when `f` is found to be `kind`.
pub open spec fn delete_outcome(root: Seq<char>, f: Seq<char>, kind: FileKind) -> Result<
    DeleteRequestView,
    Failure,
> {
    match path_failure(root, f) {
        Some(e) => Err(e),
        None => match kind {
            FileKind::Missing => Err(Failure::FileNotFound("File '"@ + f + "' does not exist"@)),
            FileKind::Other => Err(not_regular(f)),
            FileKind::Regular => Ok(
                DeleteRequestView {
                    target: f,
                    prompt: "Are you sure you want to delete '"@ + f + "'? (yes/no): "@,
                },
            ),
        },
    }
}

/// The answer `yes`, once trimmed and lowercased.
pub open spec fn is_yes(folded: Seq<char>) -> bool {
    folded == "yes"@
}

/// What happens to `target` once the user has answered.
pub open spec fn delete_decision(target: Seq<char>, yes: bool) -> DeleteOutcomeView {
    if yes {
        DeleteOutcomeView {
            remove: true,
            target,
            notice: "File deleted successfully."@,
            record: "Performed delete on '"@ + target + "'"@,
        }
    } else {
        DeleteOutcomeView {
            remove: false,
            target,
            notice: "File deletion cancelled."@,
            record: "Delete operation cancelled for '"@ + target + "'"@,
        }
    }
}

/// Whether an answer that was already trimmed and lowercased confirms.
pub fn accepts_confirmation(folded: &str) -> (r: bool)
    ensures
        r == is_yes(folded@),
{
    same_text(folded, "yes")
}

/// The decision on `request`, given the user's answer already trimmed and
/// lowercased.
pub fn decide_delete(request: &DeleteRequest, folded: &str) -> (r: DeleteOutcome)
    ensures
        r@ == delete_decision(request.target@, is_yes(folded@)),
{
    let target = request.target.as_str();
    if accepts_confirmation(folded) {
        DeleteOutcome {
            remove: true,
            target: target.to_owned(),
            notice: "File deleted successfully.".to_owned(),
            record: join3("Performed delete on '", target, "'"),
        }
    } else {
        DeleteOutcome {
            remove: false,
            target: target.to_owned(),
            notice: "File deletion cancelled.".to_owned(),
            record: join3("Delete operation cancelled for '", target, "'"),
        }
    }
}

/// The decision on `request`, given the user's raw answer: only `yes`, in
/// any case and with any surrounding whitespace, confirms.
pub fn confirm_delete(request: &DeleteRequest, answer: &str) -> (r: DeleteOutcome)
    ensures
        r@ == delete_decision(request.target@, is_yes(lowercased(trimmed(answer@)))),
{
    let folded = lowercase_text(trim_text(answer));
    decide_delete(request, folded.as_str())
}

impl SafeBackup {
    /// Settings for the given root directory, which must be absolute; the
    /// audit log is `logfile.txt`.
    pub fn new(root: &str) -> (r: Result<SafeBackup, SafeBackupError>)
        ensures
            is_absolute(root@) <==> r is Ok,
            r matches Ok(s) ==> s.root@ == root@ && s.log_file@ == "logfile.txt"@,
            r matches Err(e) ==> e@ == Failure::InvalidPath("Root directory must be absolute"@),
    {
        if starts_at_root(root) {
            Ok(SafeBackup { log_file: "logfile.txt".to_owned(), root: root.to_owned() })
        } else {
            Err(SafeBackupError::InvalidPath("Root directory must be absolute".to_owned()))
        }
    }

    /// `filename` itself when it is safe to act on under the root, else the
    /// first rule it breaks.
    pub fn validate_path(&self, filename: &str) -> (r: Result<String, SafeBackupError>)
        ensures
            match r {
                Ok(p) => path_failure(self.root@, filename@) is None && p@ == filename@,
                Err(e) => path_failure(self.root@, filename@) == Some(e@),
            },
    {
        let blank = trim_text(filename).unicode_len() == 0;
        match check_path(self.root.as_str(), filename, blank) {
            Some(k) => Err(SafeBackupError::InvalidPath(k.text().to_owned())),
            None => Ok(filename.to_owned()),
        }
    }

    /// A backup of `filename`, found on disk to be `source`: a copy of it
    /// over `filename.bak`.
    pub fn backup_file(&self, filename: &str, source: FileKind) -> (r: Result<Transfer, SafeBackupError>)
        ensures
            transfer_result(r) == backup_outcome(self.root@, filename@, source),
    {
        let file_path = match self.validate_path(filename) {
            Ok(p) => p,
            Err(e) => return Err(e),
        };
        match source {
            FileKind::Missing => {
                return Err(
                    SafeBackupError::FileNotFound(
                        join3("Source file '", filename, "' does not exist"),
                    ),
                );
            },
            FileKind::Other => {
                return Err(SafeBackupError::InvalidPath(join3("'", filename, "' is not a regular file")));
            },
            FileKind::Regular => {},
        }
        let backup_name = backup_name_of(filename);
        let backup_path = match self.validate_path(backup_name.as_str()) {
            Ok(p) => p,
            Err(e) => return Err(e),
        };
        Ok(
            Transfer {
                source: file_path,
                target: backup_path,
                notice: join2("Backup created: ", backup_name.as_str()),
                record: join3("Performed backup of '", filename, "'"),
            },
        )
    }

    /// A restore of `filename` from `filename.bak`, found on disk to be
    /// `backup`: a copy of the backup over the file.
    pub fn restore_file(&self, filename: &str, backup: FileKind) -> (r: Result<Transfer, SafeBackupError>)
        ensures
            transfer_result(r) == restore_outcome(self.root@, filename@, backup),
    {
        let file_path = match self.validate_path(filename) {
            Ok(p) => p,
            Err(e) => return Err(e),
        };
        let backup_name = backup_name_of(filename);
        let backup_path = match self.validate_path(backup_name.as_str()) {
            Ok(p) => p,
            Err(e) => return Err(e),
        };
        match backup {
            FileKind::Missing => {
                return Err(
                    SafeBackupError::FileNotFound(
                        join3("Backup file '", backup_name.as_str(), "' does not exist"),
                    ),
                );
            },
            FileKind::Other => {
                return Err(
                    SafeBackupError::InvalidPath(
                        join3("'", backup_name.as_str(), "' is not a regular file"),
                    ),
                );
            },
            FileKind::Regular => {},
        }
        Ok(
            Transfer {
                source: backup_path,
                target: file_path,
                notice: join2("File restored from: ", backup_name.as_str()),
                record: join3("Performed restore to '", filename, "'"),
            },
        )
    }

    /// A request to delete `filename`, found on disk to be `kind`: the
    /// question to put to the user.
    pub fn delete_file(&self, filename: &str, kind: FileKind) -> (r: Result<DeleteRequest, SafeBackupError>)
        ensures
            request_result(r) == delete_outcome(self.root@, filename@, kind),
    {
        let file_path = match self.validate_path(filename) {
            Ok(p) => p,
            Err(e) => return Err(e),
        };
        match kind {
            FileKind::Missing => {
                return Err(
                    SafeBackupError::FileNotFound(join3("File '", filename, "' does not exist")),
                );
            },
            FileKind::Other => {
                return Err(SafeBackupError::InvalidPath(join3("'", filename, "' is not a regular file")));
            },
            FileKind::Regular => {},
        }
        Ok(
            DeleteRequest {
                target: file_path,
                prompt: join3("Are you sure you want to delete '", filename, "'? (yes/no): "),
            },
        )
    }
}

} // verus!
