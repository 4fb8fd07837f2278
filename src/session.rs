use vstd::prelude::*;

use crate::fibonacci::{fib, fibonacci_fits, nth_fibonacci};

verus! {

/// Where an interactive session stands between two input lines.
#[derive(Clone, Copy, Debug, PartialEq, Eq, Structural)]
pub enum Phase {
    /// The index prompt is shown; the next line should be an index.
    AwaitingIndex,
    /// A result was shown; the next line answers "keep going?".
    AwaitingContinuation,
    /// The session is over.
    Terminated,
}

/// What the console should do after a line was read.
#[derive(Clone, Copy, Debug, PartialEq, Eq, Structural)]
pub enum Action {
    /// Show the index prompt again.
    PromptIndex,
    /// Print this Fibonacci number, then ask whether to keep going.
    ShowResult(usize),
    /// The Fibonacci number of this index does not fit in a `usize`.
    Overflow(usize),
    /// End the session.
    Stop,
}

pub open spec fn is_digit(c: char) -> bool {
    '0' <= c && c <= '9'
}

pub open spec fn digit_value(c: char) -> nat {
    (c as u32 - '0' as u32) as nat
}

/// The number that a run of decimal digits denotes, most significant first.
pub open spec fn digits_value(s: Seq<char>) -> nat
    decreases s.len(),
{
    if s.len() == 0 {
        0
    } else {
        digits_value(s.drop_last()) * 10 + digit_value(s.last())
    }
}

pub open spec fn all_digits(s: Seq<char>) -> bool {
    forall|i: int| 0 <= i < s.len() ==> is_digit(#[trigger] s[i])
}

/// The text without one leading `+`, if it has one.
pub open spec fn unsigned_part(s: Seq<char>) -> Seq<char> {
    if s.len() > 0 && s[0] == '+' {
        s.skip(1)
    } else {
        s
    }
}

/// The index that a text denotes: an optional `+` followed by at least one
/// decimal digit, with a value that fits in a `usize`.
pub open spec fn index_of(s: Seq<char>) -> Option<usize> {
    let d = unsigned_part(s);
    if d.len() > 0 && all_digits(d) && digits_value(d) <= usize::MAX {
        Some(digits_value(d) as usize)
    } else {
        None
    }
}

/// The answer that continues a session: a single `y` or `Y`.
pub open spec fn is_yes(s: Seq<char>) -> bool {
    s == seq!['y'] || s == seq!['Y']
}

/// The next phase and the action to take, given the current phase and the
/// input line with surrounding whitespace removed.
pub open spec fn transition(phase: Phase, t: Seq<char>) -> (Phase, Action) {
    match phase {
        Phase::AwaitingIndex => match index_of(t) {
            None => (Phase::AwaitingIndex, Action::PromptIndex),
            Some(n) => if fib(n as nat) <= usize::MAX {
                (Phase::AwaitingContinuation, Action::ShowResult(fib(n as nat) as usize))
            } else {
                (Phase::Terminated, Action::Overflow(n))
            },
        },
        Phase::AwaitingContinuation => if is_yes(t) {
            (Phase::AwaitingIndex, Action::PromptIndex)
        } else {
            (Phase::Terminated, Action::Stop)
        },
        Phase::Terminated => (Phase::Terminated, Action::Stop),
    }
}

/// What `str::trim` makes of a text.
pub uninterp spec fn trim_of(s: Seq<char>) -> Seq<char>;

/// Relies on `str::trim`: the text without leading and trailing white space,
/// which depends on the text alone.
#[verifier::external_body]
fn trim_line<'a>(s: &'a str) -> (r: &'a str)
    ensures
        r@ == trim_of(s@),
{
    s.trim()
}

/// A prefix of a run of digits denotes no more than the whole run.
proof fn lemma_digits_prefix(s: Seq<char>, k: int)
    requires
        all_digits(s),
        0 <= k <= s.len(),
    ensures
        digits_value(s.take(k)) <= digits_value(s),
    decreases s.len(),
{
    if k == s.len() {
        assert(s.take(k) =~= s);
    } else {
        let t = s.drop_last();
        assert(all_digits(t)) by {
            assert forall|i: int| 0 <= i < t.len() implies is_digit(#[trigger] t[i]) by {
                assert(t[i] == s[i]);
            }
        }
        lemma_digits_prefix(t, k);
        assert(t.take(k) =~= s.take(k));
    }
}

/// Reads an index from text that has no surrounding white space: an optional
/// `+` and then decimal digits, as `usize`'s `FromStr` accepts them.
pub fn parse_index(text: &str) -> (r: Option<usize>)
    ensures
        r == index_of(text@),
{
    let len = text.unicode_len();
    let ghost s = text@;
    let mut start: usize = 0;
    if len > 0 && text.get_char(0) == '+' {
        start = 1;
    }
    let ghost d = unsigned_part(s);
    assert(d =~= s.subrange(start as int, len as int));
    if start == len {
        return None;
    }
    let mut i: usize = start;
    let mut acc: usize = 0;
    while i < len
        invariant
            len == s.len(),
            s == text@,
            d == unsigned_part(s),
            d == s.subrange(start as int, len as int),
            start <= i <= len,
            forall|j: int| start <= j < i ==> is_digit(#[trigger] s[j]),
            acc == digits_value(s.subrange(start as int, i as int)),
        decreases len - i,
    {
        let c = text.get_char(i);
        if !('0' <= c && c <= '9') {
            assert(d[i - start] == c);
            assert(!all_digits(d));
            return None;
        }
        let ghost next = s.subrange(start as int, i + 1);
        assert(next.drop_last() =~= s.subrange(start as int, i as int));
        let digit = (c as u32 - '0' as u32) as usize;
        let grown = match acc.checked_mul(10) {
            Some(m) => m.checked_add(digit),
            None => None,
        };
        match grown {
            Some(v) => {
                acc = v;
                i = i + 1;
            },
            None => {
                proof {
                    if all_digits(d) {
                        lemma_digits_prefix(d, i + 1 - start);
                        assert(d.take(i + 1 - start) =~= next);
                    }
                }
                return None;
            },
        }
    }
    assert(s.subrange(start as int, i as int) =~= d);
    Some(acc)
}

/// Whether an answer, with no surrounding white space, asks to keep going.
pub fn is_affirmative(text: &str) -> (r: bool)
    ensures
        r == is_yes(text@),
{
    if text.unicode_len() != 1 {
        return false;
    }
    let c = text.get_char(0);
    if c == 'y' {
        assert(text@ =~= seq!['y']);
        true
    } else if c == 'Y' {
        assert(text@ =~= seq!['Y']);
        true
    } else {
        false
    }
}

/// One step of a session on text that has no surrounding white space.
pub fn step_trimmed(phase: Phase, text: &str) -> (r: (Phase, Action))
    ensures
        r == transition(phase, text@),
{
    match phase {
        Phase::AwaitingIndex => match parse_index(text) {
            None => (Phase::AwaitingIndex, Action::PromptIndex),
            Some(n) => if fibonacci_fits(n) {
                (Phase::AwaitingContinuation, Action::ShowResult(nth_fibonacci(n)))
            } else {
                (Phase::Terminated, Action::Overflow(n))
            },
        },
        Phase::AwaitingContinuation => if is_affirmative(text) {
            (Phase::AwaitingIndex, Action::PromptIndex)
        } else {
            (Phase::Terminated, Action::Stop)
        },
        Phase::Terminated => (Phase::Terminated, Action::Stop),
    }
}

/// One step of a session: the line as read, surrounding white space
/// included, decides the next phase and what to show.
pub fn step(phase: Phase, line: &str) -> (r: (Phase, Action))
    ensures
        r == transition(phase, trim_of(line@)),
{
    step_trimmed(phase, trim_line(line))
}

} // verus!
