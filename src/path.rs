//! Screening of path strings: a path is accepted only when it is non-empty
//! and holds neither a parent-directory token nor a doubled separator.
use vstd::prelude::*;
use vstd::string::StrSliceExecFns;

verus! {

/// The character that separates path components.
pub const SEPARATOR: char = '/';

/// The character that, doubled, asks to go up one level.
pub const DOT: char = '.';

/// Why a path was refused.
#[derive(Clone, Copy, Debug, PartialEq, Eq, Structural)]
pub enum RejectReason {
    /// The path has no characters.
    Empty,
    /// The path holds two dots in a row.
    ParentTraversal,
    /// The path holds two separators in a row.
    DoubledSeparator,
}

/// The verdict on a path.
#[derive(Clone, Copy, Debug, PartialEq, Eq, Structural)]
pub enum PathVerdict {
    Accept,
    Reject(RejectReason),
}

impl PathVerdict {
    /// Whether this verdict lets the path through.
    pub fn is_accept(&self) -> (r: bool)
        ensures
            r == (*self is Accept),
    {
        match self {
            PathVerdict::Accept => true,
            PathVerdict::Reject(_) => false,
        }
    }
}

/// `s` holds the character `c` twice in a row somewhere.
pub open spec fn has_doubled(s: Seq<char>, c: char) -> bool {
    exists|i: int| 0 <= i && i + 1 < s.len() && #[trigger] s[i] == c && s[i + 1] == c
}

/// The verdict on the path `s`: empty paths first, then traversal, then
/// doubled separators.
pub open spec fn path_verdict(s: Seq<char>) -> PathVerdict {
    if s.len() == 0 {
        PathVerdict::Reject(RejectReason::Empty)
    } else if has_doubled(s, DOT) {
        PathVerdict::Reject(RejectReason::ParentTraversal)
    } else if has_doubled(s, SEPARATOR) {
        PathVerdict::Reject(RejectReason::DoubledSeparator)
    } else {
        PathVerdict::Accept
    }
}

/// Whether `p` would be accepted as a path.
pub open spec fn path_accepted(p: Seq<char>) -> bool {
    path_verdict(p) is Accept
}

/// Looks for `c` twice in a row in `p`, whose length in characters is `len`.
fn find_doubled(p: &str, len: usize, c: char) -> (r: bool)
    requires
        len == p@.len(),
    ensures
        r == has_doubled(p@, c),
{
    let mut i: usize = 0;
    let mut prev_match = false;
    while i < len
        invariant
            i <= len,
            len == p@.len(),
            prev_match == (i > 0 && p@[i - 1] == c),
            forall|j: int| 0 <= j && j + 1 < i ==> !(#[trigger] p@[j] == c && p@[j + 1] == c),
        decreases len - i,
    {
        let ch = p.get_char(i);
        if ch == c && prev_match {
            assert(p@[i - 1] == c && p@[(i - 1) + 1] == c);
            return true;
        }
        prev_match = ch == c;
        i = i + 1;
    }
    false
}

/// Screens a path. The verdict depends on the characters of `p` alone.
pub fn validate_path(p: &str) -> (r: PathVerdict)
    ensures
        r == path_verdict(p@),
{
    let len = p.unicode_len();
    if len == 0 {
        PathVerdict::Reject(RejectReason::Empty)
    } else if find_doubled(p, len, DOT) {
        PathVerdict::Reject(RejectReason::ParentTraversal)
    } else if find_doubled(p, len, SEPARATOR) {
        PathVerdict::Reject(RejectReason::DoubledSeparator)
    } else {
        PathVerdict::Accept
    }
}

/// Any path with two dots in a row is rejected.
pub proof fn lemma_traversal_rejected(s: Seq<char>)
    requires
        has_doubled(s, DOT),
    ensures
        path_verdict(s) is Reject,
{
}

/// Any path with two separators in a row is rejected.
pub proof fn lemma_doubled_separator_rejected(s: Seq<char>)
    requires
        has_doubled(s, SEPARATOR),
    ensures
        path_verdict(s) is Reject,
{
}

/// Screening the same characters twice gives the same verdict.
pub proof fn lemma_verdict_repeatable(a: Seq<char>, b: Seq<char>)
    requires
        a == b,
    ensures
        path_verdict(a) == path_verdict(b),
{
}

} // verus!
