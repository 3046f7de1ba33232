//! The rules that decide whether a filename is safe to act on.

use vstd::prelude::*;
use vstd::string::StrSliceExecFns;
use vstd::string::StringExecFns;

verus! {

/// Why a filename was refused, in the order the rules are checked.
#[derive(Clone, Copy, Debug, PartialEq, Eq, Structural)]
pub enum PathRejection {
    /// Empty, or whitespace only.
    Empty,
    /// Holds the two characters `..` somewhere.
    Traversal,
    /// Holds one of `< > : " | ? *` or a null character.
    InvalidCharacters,
    /// Starts at the filesystem root.
    Absolute,
    /// Joined to the root, it lands outside the root.
    EscapesRoot,
}

/// The characters that no filename may hold.
pub open spec fn is_reserved(c: char) -> bool {
    c == '<' || c == '>' || c == ':' || c == '"' || c == '|' || c == '?' || c == '*' || c
        == '\0'
}

/// `s` holds `..` at some position.
pub open spec fn has_traversal(s: Seq<char>) -> bool {
    exists|i: int| 0 <= i && i + 1 < s.len() && #[trigger] s[i] == '.' && s[i + 1] == '.'
}

/// `s` holds a reserved character.
pub open spec fn has_reserved(s: Seq<char>) -> bool {
    exists|i: int| 0 <= i < s.len() && is_reserved(#[trigger] s[i])
}

/// `s` names a path from the filesystem root.
pub open spec fn is_absolute(s: Seq<char>) -> bool {
    s.len() > 0 && s[0] == '/'
}

/// `root` ends with a separator.
pub open spec fn ends_with_separator(root: Seq<char>) -> bool {
    root.len() > 0 && root.last() == '/'
}

/// `f` appended to `root`, with one separator between them.
pub open spec fn joined(root: Seq<char>, f: Seq<char>) -> Seq<char> {
    if ends_with_separator(root) {
        root + f
    } else {
        root + seq!['/'] + f
    }
}

/// `p` is `root` itself or a path below it, compared segment by segment.
pub open spec fn is_within(root: Seq<char>, p: Seq<char>) -> bool {
    &&& root.len() <= p.len()
    &&& p.subrange(0, root.len() as int) == root
    &&& (p.len() == root.len() || ends_with_separator(root) || p[root.len() as int] == '/')
}

/// The description that goes with each rejection.
pub open spec fn rejection_text(k: PathRejection) -> Seq<char> {
    match k {
        PathRejection::Empty => "Filename cannot be empty"@,
        PathRejection::Traversal => "Path traversal sequences are not allowed"@,
        PathRejection::InvalidCharacters => "Filename contains invalid characters"@,
        PathRejection::Absolute => "Absolute paths are not allowed"@,
        PathRejection::EscapesRoot => "Path escapes current directory"@,
    }
}

impl PathRejection {
    /// The description of this rejection.
    pub fn text(&self) -> (r: &'static str)
        ensures
            r@ == rejection_text(*self),
    {
        match self {
            PathRejection::Empty => "Filename cannot be empty",
            PathRejection::Traversal => "Path traversal sequences are not allowed",
            PathRejection::InvalidCharacters => "Filename contains invalid characters",
            PathRejection::Absolute => "Absolute paths are not allowed",
            PathRejection::EscapesRoot => "Path escapes current directory",
        }
    }
}

/// The first rule that `f` breaks under `root`, if any; `blank` says whether
/// `f` is empty once trimmed.
pub open spec fn rejection_of(root: Seq<char>, f: Seq<char>, blank: bool) -> Option<PathRejection> {
    if blank {
        Some(PathRejection::Empty)
    } else if has_traversal(f) {
        Some(PathRejection::Traversal)
    } else if has_reserved(f) {
        Some(PathRejection::InvalidCharacters)
    } else if is_absolute(f) {
        Some(PathRejection::Absolute)
    } else if !is_within(root, joined(root, f)) {
        Some(PathRejection::EscapesRoot)
    } else {
        None
    }
}

/// Whether `s` holds `..`.
pub fn contains_traversal(s: &str) -> (r: bool)
    ensures
        r == has_traversal(s@),
{
    let n = s.unicode_len();
    let mut i: usize = 0;
    while i < n
        invariant
            n == s@.len(),
            i <= n,
            forall|j: int| 0 <= j < i && j + 1 < n ==> !(#[trigger] s@[j] == '.' && s@[j + 1] == '.'),
        decreases n - i,
    {
        if i + 1 < n && s.get_char(i) == '.' && s.get_char(i + 1) == '.' {
            return true;
        }
        i += 1;
    }
    false
}

/// Whether `c` is one of the reserved characters.
pub fn reserved_char(c: char) -> (r: bool)
    ensures
        r == is_reserved(c),
{
    c == '<' || c == '>' || c == ':' || c == '"' || c == '|' || c == '?' || c == '*' || c == '\0'
}

/// Whether `s` holds a reserved character.
pub fn contains_reserved(s: &str) -> (r: bool)
    ensures
        r == has_reserved(s@),
{
    let n = s.unicode_len();
    let mut i: usize = 0;
    while i < n
        invariant
            n == s@.len(),
            i <= n,
            forall|j: int| 0 <= j < i ==> !is_reserved(#[trigger] s@[j]),
        decreases n - i,
    {
        if reserved_char(s.get_char(i)) {
            return true;
        }
        i += 1;
    }
    false
}

/// Whether `s` starts at the filesystem root.
pub fn starts_at_root(s: &str) -> (r: bool)
    ensures
        r == is_absolute(s@),
{
    s.unicode_len() > 0 && s.get_char(0) == '/'
}

/// `f` joined to `root` with one separator between them.
pub fn join_path(root: &str, f: &str) -> (r: String)
    ensures
        r@ == joined(root@, f@),
{
    let n = root.unicode_len();
    let mut p = root.to_owned();
    if !(n > 0 && root.get_char(n - 1) == '/') {
        proof {
            reveal_strlit("/");
        }
        p.append("/");
    }
    p.append(f);
    p
}

/// Whether `p` is `root` or lies below it.
pub fn path_within(root: &str, p: &str) -> (r: bool)
    ensures
        r == is_within(root@, p@),
{
    let n = root.unicode_len();
    let m = p.unicode_len();
    if n > m {
        return false;
    }
    let mut i: usize = 0;
    while i < n
        invariant
            n == root@.len(),
            m == p@.len(),
            n <= m,
            i <= n,
            forall|j: int| 0 <= j < i ==> p@[j] == root@[j],
        decreases n - i,
    {
        if p.get_char(i) != root.get_char(i) {
            assert(p@.subrange(0, n as int)[i as int] != root@[i as int]);
            return false;
        }
        i += 1;
    }
    assert(p@.subrange(0, n as int) =~= root@);
    m == n || (n > 0 && root.get_char(n - 1) == '/') || p.get_char(n) == '/'
}

/// The first rule that `filename` breaks under `root`, if any, given
/// whether it is empty once trimmed.
pub fn check_path(root: &str, filename: &str, blank: bool) -> (r: Option<PathRejection>)
    ensures
        r == rejection_of(root@, filename@, blank),
{
    if blank {
        Some(PathRejection::Empty)
    } else if contains_traversal(filename) {
        Some(PathRejection::Traversal)
    } else if contains_reserved(filename) {
        Some(PathRejection::InvalidCharacters)
    } else if starts_at_root(filename) {
        Some(PathRejection::Absolute)
    } else {
        let full = join_path(root, filename);
        if !path_within(root, full.as_str()) {
            Some(PathRejection::EscapesRoot)
        } else {
            None
        }
    }
}

} // verus!
