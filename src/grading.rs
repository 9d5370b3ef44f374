//! The operator's grade decision after a submitted program has run.
use vstd::prelude::*;
use vstd::string::*;

verus! {

/// What the operator decided for a submission.
#[derive(PartialEq, Eq, Structural, Clone, Copy, Debug)]
pub enum GradeDecision {
    Pass,
    Warn,
    MinimalPass,
    Skip,
}

impl GradeDecision {
    /// The numeric grade reported upstream; a skip reports nothing.
    pub open spec fn code_spec(self) -> Option<u8> {
        match self {
            GradeDecision::Pass => Some(3),
            GradeDecision::Warn => Some(2),
            GradeDecision::MinimalPass => Some(1),
            GradeDecision::Skip => None,
        }
    }

    pub fn code(&self) -> (r: Option<u8>)
        ensures
            r == self.code_spec(),
    {
        match self {
            GradeDecision::Pass => Some(3),
            GradeDecision::Warn => Some(2),
            GradeDecision::MinimalPass => Some(1),
            GradeDecision::Skip => None,
        }
    }
}

/// The decision that an already trimmed operator answer stands for, or
/// `None` for an answer that is not understood.
pub open spec fn decision_of(t: Seq<char>) -> Option<GradeDecision> {
    if t == seq!['P'] {
        Some(GradeDecision::Pass)
    } else if t == seq!['W'] {
        Some(GradeDecision::Warn)
    } else if t == seq!['M'] {
        Some(GradeDecision::MinimalPass)
    } else if t == seq!['-'] {
        Some(GradeDecision::Skip)
    } else {
        None
    }
}

/// What `str::trim` returns for `s`.
pub uninterp spec fn trimmed_of(s: Seq<char>) -> Seq<char>;

/// Relies on str::trim: leading and trailing whitespace removed; the result
/// depends on the characters alone.
#[verifier::external_body]
fn trim_line(s: &str) -> (r: &str)
    ensures
        r@ == trimmed_of(s@),
{
    s.trim()
}

/// Maps a trimmed operator answer to a decision.
pub fn parse_decision(t: &str) -> (r: Option<GradeDecision>)
    ensures
        r == decision_of(t@),
{
    if t.unicode_len() != 1 {
        proof {
            assert(seq!['P'].len() == 1);
        }
        return None;
    }
    let c = t.get_char(0);
    assert(t@ =~= seq![c]);
    if c == 'P' {
        Some(GradeDecision::Pass)
    } else if c == 'W' {
        Some(GradeDecision::Warn)
    } else if c == 'M' {
        Some(GradeDecision::MinimalPass)
    } else if c == '-' {
        Some(GradeDecision::Skip)
    } else {
        assert(seq![c] != seq!['P'] && seq![c] != seq!['W'] && seq![c] != seq!['M'] && seq![c]
            != seq!['-']) by {
            assert(seq![c][0] == c);
        }
        None
    }
}

/// Maps one line typed by the operator, surrounding whitespace ignored, to a
/// decision; `None` means the answer is not understood and the operator is
/// asked again.
pub fn read_decision(line: &str) -> (r: Option<GradeDecision>)
    ensures
        r == decision_of(trimmed_of(line@)),
{
    parse_decision(trim_line(line))
}

} // verus!
