//! The reinitialization orchestrator's decisions: what follows the outcome of
//! `initialize`, how an operator's answer is read as a confirmation, and what
//! the final outcome of the protocol is. Reading the answer itself is the
//! world's business; the decisions are all here.

use vstd::prelude::*;

use crate::makers::ReInitializerResult;
use crate::runner::LifecycleError;

verus! {

/// The whitespace trimmed from an operator's answer: every character with the
/// Unicode White_Space property, the set that `str::trim` removes.
pub open spec fn is_space(c: char) -> bool {
    ||| c == '\t'
    ||| c == '\n'
    ||| c == '\u{000B}'
    ||| c == '\u{000C}'
    ||| c == '\r'
    ||| c == ' '
    ||| c == '\u{0085}'
    ||| c == '\u{00A0}'
    ||| c == '\u{1680}'
    ||| c == '\u{2000}'
    ||| c == '\u{2001}'
    ||| c == '\u{2002}'
    ||| c == '\u{2003}'
    ||| c == '\u{2004}'
    ||| c == '\u{2005}'
    ||| c == '\u{2006}'
    ||| c == '\u{2007}'
    ||| c == '\u{2008}'
    ||| c == '\u{2009}'
    ||| c == '\u{200A}'
    ||| c == '\u{2028}'
    ||| c == '\u{2029}'
    ||| c == '\u{202F}'
    ||| c == '\u{205F}'
    ||| c == '\u{3000}'
}

pub open spec fn trim_start(s: Seq<char>) -> Seq<char>
    decreases s.len(),
{
    if s.len() > 0 && is_space(s[0]) {
        trim_start(s.drop_first())
    } else {
        s
    }
}

pub open spec fn trim_end(s: Seq<char>) -> Seq<char>
    decreases s.len(),
{
    if s.len() > 0 && is_space(s.last()) {
        trim_end(s.drop_last())
    } else {
        s
    }
}

/// The answer with leading and trailing whitespace removed.
pub open spec fn trimmed(s: Seq<char>) -> Seq<char> {
    trim_end(trim_start(s))
}

/// Whether an answer counts as a confirmation: exactly `"y"` or `"yes"` after
/// trimming, letter case ignored. Anything else — an empty line included — is
/// a decline.
pub open spec fn is_yes(s: Seq<char>) -> bool {
    let t = trimmed(s);
    ||| (t.len() == 1 && (t[0] == 'y' || t[0] == 'Y'))
    ||| (t.len() == 3 && (t[0] == 'y' || t[0] == 'Y') && (t[1] == 'e' || t[1] == 'E') && (t[2]
        == 's' || t[2] == 'S'))
}

proof fn lemma_trim_start_skip(s: Seq<char>, a: int)
    requires
        0 <= a <= s.len(),
        forall|j: int| 0 <= j < a ==> is_space(s[j]),
        a < s.len() ==> !is_space(s[a]),
    ensures
        trim_start(s) =~= s.subrange(a, s.len() as int),
    decreases a,
{
    if a == 0 {
        assert(s.subrange(0, s.len() as int) =~= s);
    } else {
        let s1 = s.drop_first();
        assert(forall|j: int| 0 <= j < a - 1 ==> is_space(s1[j]));
        lemma_trim_start_skip(s1, a - 1);
        assert(s1.subrange(a - 1, s1.len() as int) =~= s.subrange(a, s.len() as int));
    }
}

proof fn lemma_trim_end_skip(s: Seq<char>, b: int)
    requires
        0 <= b <= s.len(),
        forall|j: int| b <= j < s.len() ==> is_space(s[j]),
        b > 0 ==> !is_space(s[b - 1]),
    ensures
        trim_end(s) =~= s.subrange(0, b),
    decreases s.len() - b,
{
    if b == s.len() {
        assert(s.subrange(0, s.len() as int) =~= s);
    } else {
        let s1 = s.drop_last();
        assert(forall|j: int| b <= j < s1.len() ==> is_space(s1[j]));
        lemma_trim_end_skip(s1, b);
        assert(s1.subrange(0, b) =~= s.subrange(0, b));
    }
}

fn is_space_char(c: char) -> (r: bool)
    ensures
        r == is_space(c),
{
    c == '\t' || c == '\n' || c == '\u{000B}' || c == '\u{000C}' || c == '\r' || c == ' '
        || c == '\u{0085}' || c == '\u{00A0}' || c == '\u{1680}' || c == '\u{2000}'
        || c == '\u{2001}' || c == '\u{2002}' || c == '\u{2003}' || c == '\u{2004}'
        || c == '\u{2005}' || c == '\u{2006}' || c == '\u{2007}' || c == '\u{2008}'
        || c == '\u{2009}' || c == '\u{200A}' || c == '\u{2028}' || c == '\u{2029}'
        || c == '\u{202F}' || c == '\u{205F}' || c == '\u{3000}'
}

/// Reads an operator's answer: trims it, ignores letter case, and accepts
/// exactly `"y"` or `"yes"` as confirmation.
pub fn is_confirmation(answer: &str) -> (r: bool)
    ensures
        r == is_yes(answer@),
{
    let n: usize = answer.unicode_len();
    let mut a: usize = 0;
    while a < n && is_space_char(answer.get_char(a))
        invariant
            a <= n,
            n == answer@.len(),
            forall|j: int| 0 <= j < a ==> is_space(answer@[j]),
        decreases n - a,
    {
        a = a + 1;
    }
    let mut b: usize = n;
    while b > a && is_space_char(answer.get_char(b - 1))
        invariant
            a <= b <= n,
            n == answer@.len(),
            forall|j: int| b <= j < n ==> is_space(answer@[j]),
        decreases b,
    {
        b = b - 1;
    }
    proof {
        lemma_trim_start_skip(answer@, a as int);
        let t = answer@.subrange(a as int, n as int);
        lemma_trim_end_skip(t, b - a);
        assert(t.subrange(0, b - a) =~= answer@.subrange(a as int, b as int));
        assert(trimmed(answer@) == answer@.subrange(a as int, b as int));
    }
    let len: usize = b - a;
    if len == 1 {
        let c = answer.get_char(a);
        c == 'y' || c == 'Y'
    } else if len == 3 {
        let c0 = answer.get_char(a);
        let c1 = answer.get_char(a + 1);
        let c2 = answer.get_char(a + 2);
        (c0 == 'y' || c0 == 'Y') && (c1 == 'e' || c1 == 'E') && (c2 == 's' || c2 == 'S')
    } else {
        false
    }
}

/// The orchestrator's next move after one decision point.
pub enum OrchestratorStep {
    /// The protocol is finished with this result.
    Done(Result<(), LifecycleError>),
    /// The resource already exists and the policy requires asking: show this
    /// warning and read the operator's answer.
    AskConfirmation(String),
    /// Destructive recreation is confirmed and must proceed.
    Reinitialize,
}

/// The move that follows the outcome of `initialize`: success and failure end
/// the protocol, a warning is auto-confirmed under the skip-confirmation
/// policy and otherwise becomes a question.
pub open spec fn spec_after_initialize(status: ReInitializerResult, no_input: bool) -> OrchestratorStep {
    match status {
        ReInitializerResult::Completed => OrchestratorStep::Done(Ok(())),
        ReInitializerResult::Warning(w) => if no_input {
            OrchestratorStep::Reinitialize
        } else {
            OrchestratorStep::AskConfirmation(w)
        },
        ReInitializerResult::Failed(e) => OrchestratorStep::Done(Err(e)),
    }
}

pub fn after_initialize(status: ReInitializerResult, no_input: bool) -> (r: OrchestratorStep)
    ensures
        r == spec_after_initialize(status, no_input),
{
    match status {
        ReInitializerResult::Completed => OrchestratorStep::Done(Ok(())),
        ReInitializerResult::Warning(w) => if no_input {
            OrchestratorStep::Reinitialize
        } else {
            OrchestratorStep::AskConfirmation(w)
        },
        ReInitializerResult::Failed(e) => OrchestratorStep::Done(Err(e)),
    }
}

/// The move that follows the operator's answer: a confirmation proceeds to
/// recreation, a decline ends the protocol successfully without touching the
/// resource.
pub open spec fn spec_on_confirmation(confirmed: bool) -> OrchestratorStep {
    if confirmed {
        OrchestratorStep::Reinitialize
    } else {
        OrchestratorStep::Done(Ok(()))
    }
}

pub fn on_confirmation(confirmed: bool) -> (r: OrchestratorStep)
    ensures
        r == spec_on_confirmation(confirmed),
{
    if confirmed {
        OrchestratorStep::Reinitialize
    } else {
        OrchestratorStep::Done(Ok(()))
    }
}

/// The final outcome of the protocol once `reinitialize` has run: only a
/// failure propagates; anything else is success.
pub open spec fn spec_after_reinitialize(status: ReInitializerResult) -> Result<
    (),
    LifecycleError,
> {
    match status {
        ReInitializerResult::Failed(e) => Err(e),
        _ => Ok(()),
    }
}

pub fn after_reinitialize(status: ReInitializerResult) -> (r: Result<(), LifecycleError>)
    ensures
        r == spec_after_reinitialize(status),
{
    match status {
        ReInitializerResult::Failed(e) => Err(e),
        _ => Ok(()),
    }
}

/// Under the skip-confirmation policy, a warning always leads directly to
/// reinitialization: no question is asked and no input is waited for.
pub proof fn lemma_skip_confirmation_reinitializes(w: String)
    ensures
        spec_after_initialize(ReInitializerResult::Warning(w), true)
            == OrchestratorStep::Reinitialize,
{
}

/// Without the skip-confirmation policy, a warning becomes a question, and a
/// declined question ends the protocol successfully without reinitialization.
pub proof fn lemma_decline_is_silent_success(w: String, answer: Seq<char>)
    requires
        !is_yes(answer),
    ensures
        spec_after_initialize(ReInitializerResult::Warning(w), false)
            == OrchestratorStep::AskConfirmation(w),
        spec_on_confirmation(is_yes(answer)) == OrchestratorStep::Done(Ok(())),
{
}

} // verus!
