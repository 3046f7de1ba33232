//! What holds of every filename and every sequence of operations.
//!
//! Files are modelled as a map from names to contents; a transfer copies the
//! contents of its source over its target.

use vstd::prelude::*;
use crate::error::Failure;
use crate::ops::{
    backup_name, backup_outcome, delete_outcome, path_failure, restore_outcome, FileKind,
    TransferView,
};
use crate::path::{has_reserved, has_traversal, is_absolute, is_reserved, is_within, joined};
use crate::text::trimmed;

verus! {

/// The files once `t` has been carried out: the target holds what the
/// source held.
pub open spec fn after_transfer(files: Map<Seq<char>, Seq<u8>>, t: TransferView) -> Map<
    Seq<char>,
    Seq<u8>,
> {
    files.insert(t.target, files[t.source])
}

/// Some error, and of the invalid-path kind.
pub open spec fn is_invalid_path(e: Option<Failure>) -> bool {
    e matches Some(Failure::InvalidPath(_))
}

/// Every operation on `f` fails with an invalid path, whatever is on disk.
pub open spec fn refused_everywhere(root: Seq<char>, f: Seq<char>) -> bool {
    &&& is_invalid_path(path_failure(root, f))
    &&& forall|k: FileKind|
        #![trigger backup_outcome(root, f, k)]
        backup_outcome(root, f, k) is Err && backup_outcome(root, f, k)->Err_0 is InvalidPath
    &&& forall|k: FileKind|
        #![trigger restore_outcome(root, f, k)]
        restore_outcome(root, f, k) is Err && restore_outcome(root, f, k)->Err_0 is InvalidPath
    &&& forall|k: FileKind|
        #![trigger delete_outcome(root, f, k)]
        delete_outcome(root, f, k) is Err && delete_outcome(root, f, k)->Err_0 is InvalidPath
}

proof fn lemma_refused_by_validation(root: Seq<char>, f: Seq<char>)
    requires
        is_invalid_path(path_failure(root, f)),
    ensures
        refused_everywhere(root, f),
{
}

/// A filename that holds `..` is refused as an invalid path, by validation
/// and by every operation, whether or not it exists.
pub proof fn lemma_traversal_refused(root: Seq<char>, f: Seq<char>)
    requires
        has_traversal(f),
    ensures
        refused_everywhere(root, f),
{
    lemma_refused_by_validation(root, f);
}

/// A filename that starts at the filesystem root, or with a drive letter
/// and a colon, is refused as an invalid path by validation and by every
/// operation.
pub proof fn lemma_absolute_refused(root: Seq<char>, f: Seq<char>)
    requires
        is_absolute(f) || (f.len() >= 2 && f[1] == ':'),
    ensures
        refused_everywhere(root, f),
{
    if f.len() >= 2 && f[1] == ':' {
        assert(is_reserved(f[1]));
        assert(has_reserved(f));
    }
    lemma_refused_by_validation(root, f);
}

/// A filename that holds one of `< > : " | ? *` or a null character is
/// refused as an invalid path by validation and by every operation.
pub proof fn lemma_reserved_refused(root: Seq<char>, f: Seq<char>)
    requires
        has_reserved(f),
    ensures
        refused_everywhere(root, f),
{
    lemma_refused_by_validation(root, f);
}

/// A filename that passes validation holds no `..` and no reserved
/// character, is not absolute, is not blank, and joined to the root stays
/// below it.
pub proof fn lemma_validated_is_safe(root: Seq<char>, f: Seq<char>)
    requires
        path_failure(root, f) is None,
    ensures
        !has_traversal(f),
        !has_reserved(f),
        !is_absolute(f),
        trimmed(f).len() > 0,
        is_within(root, joined(root, f)),
{
}

/// A file and its backup are two different names.
pub proof fn lemma_backup_name_differs(f: Seq<char>)
    ensures
        backup_name(f) != f,
{
    assert(backup_name(f).len() == f.len() + 4);
}

/// A backup of a regular file, then a restore from that backup, leaves the
/// file's contents as they were, and all other files as the backup left
/// them; a restore after the file was changed brings back the backed-up
/// contents exactly.
pub proof fn lemma_backup_then_restore(
    root: Seq<char>,
    f: Seq<char>,
    files: Map<Seq<char>, Seq<u8>>,
    edited: Seq<u8>,
)
    requires
        backup_outcome(root, f, FileKind::Regular) is Ok,
        files.contains_key(f),
    ensures
        restore_outcome(root, f, FileKind::Regular) is Ok,
        ({
            let saved = after_transfer(files, backup_outcome(root, f, FileKind::Regular)->Ok_0);
            let back = restore_outcome(root, f, FileKind::Regular)->Ok_0;
            &&& after_transfer(saved, back)[f] == files[f]
            &&& after_transfer(saved, back) == saved
            &&& after_transfer(saved.insert(f, edited), back)[f] == files[f]
        }),
{
    lemma_backup_name_differs(f);
    let saved = after_transfer(files, backup_outcome(root, f, FileKind::Regular)->Ok_0);
    let back = restore_outcome(root, f, FileKind::Regular)->Ok_0;
    assert(after_transfer(saved, back) =~= saved);
}

/// Backing up an unchanged file a second time leaves the same files as
/// backing it up once.
pub proof fn lemma_backup_idempotent(root: Seq<char>, f: Seq<char>, files: Map<Seq<char>, Seq<u8>>)
    requires
        backup_outcome(root, f, FileKind::Regular) is Ok,
    ensures
        ({
            let t = backup_outcome(root, f, FileKind::Regular)->Ok_0;
            after_transfer(after_transfer(files, t), t) == after_transfer(files, t)
        }),
{
    lemma_backup_name_differs(f);
    let t = backup_outcome(root, f, FileKind::Regular)->Ok_0;
    assert(after_transfer(after_transfer(files, t), t) =~= after_transfer(files, t));
}

/// A restore whose backup is missing copies nothing; when both names are
/// valid it fails with a missing file that names the backup.
pub proof fn lemma_restore_without_backup(root: Seq<char>, f: Seq<char>)
    ensures
        restore_outcome(root, f, FileKind::Missing) is Err,
        path_failure(root, f) is None && path_failure(root, backup_name(f)) is None
            ==> restore_outcome(root, f, FileKind::Missing) == Err::<TransferView, Failure>(
            Failure::FileNotFound("Backup file '"@ + backup_name(f) + "' does not exist"@),
        ),
{
}

} // verus!
