//! Finding the commit hash of a line with the pattern `(.* )([0-9a-f]{40})(.*)`.

use vstd::prelude::*;

verus! {

#[verifier::external_type_specification]
#[verifier::external_body]
pub struct ExRegex(regex::Regex);

/// A lowercase hexadecimal digit, as the class `[0-9a-f]` matches it.
pub open spec fn is_commit_hex(c: char) -> bool {
    ('0' <= c && c <= '9') || ('a' <= c && c <= 'f')
}

/// A 40-digit hash starts at `p`, right after a space.
pub open spec fn hash_at(s: Seq<char>, p: int) -> bool {
    &&& 1 <= p
    &&& p + 40 <= s.len()
    &&& s[p - 1] == ' '
    &&& forall|k: int| p <= k < p + 40 ==> is_commit_hex(#[trigger] s[k])
}

/// Some character in `[a, b)` is a newline, which `.` does not match.
pub open spec fn has_newline_in(s: Seq<char>, a: int, b: int) -> bool {
    exists|k: int| a <= k < b && s[k] == '\n'
}

/// The hash at `p` is the one the pattern captures: the leftmost match starts
/// on the first line (between newlines) that holds any hash, and the greedy
/// leading `.*` then takes the last hash of that line.
pub open spec fn captured_hash_at(s: Seq<char>, p: int) -> bool {
    &&& hash_at(s, p)
    &&& forall|q: int| q < p && #[trigger] hash_at(s, q) ==> !has_newline_in(s, q, p)
    &&& forall|q: int| p < q && #[trigger] hash_at(s, q) ==> has_newline_in(s, p, q)
}

/// At most one position is captured.
pub proof fn lemma_captured_unique(s: Seq<char>, p1: int, p2: int)
    requires
        captured_hash_at(s, p1),
        captured_hash_at(s, p2),
    ensures
        p1 == p2,
{
}

/// A line cut around its captured hash: `head` is everything before the hash,
/// `tail` everything after it.
pub struct CommitCaptures {
    pub head: String,
    pub commit: String,
    pub tail: String,
}

impl CommitCaptures {
    /// The captures split `line` at a captured hash.
    pub open spec fn splits(&self, line: Seq<char>) -> bool {
        let p = self.head@.len() as int;
        &&& captured_hash_at(line, p)
        &&& self.head@ == line.subrange(0, p)
        &&& self.commit@ == line.subrange(p, p + 40)
        &&& self.tail@ == line.subrange(p + 40, line.len() as int)
    }
}

/// The compiled commit-line pattern. Its field is private and `new` is the
/// only place that fills it, so `re` always holds that pattern.
pub struct CommitLineRegex {
    re: regex::Regex,
}

/// Relies on `regex::Regex::new`, which compiles this small, valid pattern
/// without error.
#[verifier::external_body]
fn compile_commit_line_regex(pattern: &str) -> (r: CommitLineRegex)
    requires
        pattern@ == "(.* )([0-9a-f]{40})(.*)"@,
{
    CommitLineRegex { re: regex::Regex::new(pattern).unwrap() }
}

impl CommitLineRegex {
    /// Compiles the commit-line pattern; a configuration builds it once and
    /// every line reuses it.
    pub fn new() -> (r: CommitLineRegex) {
        compile_commit_line_regex("(.* )([0-9a-f]{40})(.*)")
    }

    /// Relies on `regex::Regex::captures` (leftmost-first, greedy matching,
    /// `.` matching anything but a newline) on the pattern above: group 2 is
    /// the hash.
    #[verifier::external_body]
    pub(crate) fn captures(&self, line: &str) -> (r: Option<CommitCaptures>)
        ensures
            match r {
                Some(c) => c.splits(line@),
                None => forall|p: int| !hash_at(line@, p),
            },
    {
        match self.re.captures(line) {
            Some(caps) => {
                let hash = caps.get(2).unwrap();
                Some(CommitCaptures {
                    head: line[..hash.start()].to_string(),
                    commit: hash.as_str().to_string(),
                    tail: line[hash.end()..].to_string(),
                })
            },
            None => None,
        }
    }
}

} // verus!
