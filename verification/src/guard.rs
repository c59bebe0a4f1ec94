//! Overwrite protection: decides, for a candidate destination that may
//! already exist, whether output may be produced there, from the `force`
//! flag and the operator's answer to a yes/no prompt.

use vstd::prelude::*;

verus! {

/// A whitespace character for the purpose of trimming an operator's answer.
pub open spec fn is_space(c: char) -> bool {
    c == ' ' || c == '\t' || c == '\n' || c == '\r'
}

/// Whether an operator's answer, after trimming leading whitespace, starts
/// with `y` or `Y`.
pub open spec fn affirmative(s: Seq<char>) -> bool
    decreases s.len(),
{
    if s.len() == 0 {
        false
    } else if is_space(s[0]) {
        affirmative(s.subrange(1, s.len() as int))
    } else {
        s[0] == 'y' || s[0] == 'Y'
    }
}

/// True exactly when the trimmed answer starts with `y` or `Y`.
pub fn is_affirmative(answer: &str) -> (r: bool)
    ensures
        r == affirmative(answer@),
{
    let n = answer.unicode_len();
    proof {
        assert(answer@.subrange(0, n as int) =~= answer@);
    }
    let mut i: usize = 0;
    while i < n
        invariant
            i <= n,
            n == answer@.len(),
            affirmative(answer@) == affirmative(answer@.subrange(i as int, n as int)),
        decreases n - i,
    {
        let c = answer.get_char(i);
        if !(c == ' ' || c == '\t' || c == '\n' || c == '\r') {
            return c == 'y' || c == 'Y';
        }
        proof {
            assert(answer@.subrange(i as int, n as int).subrange(1, n - i) =~= answer@.subrange(
                i + 1,
                n as int,
            ));
        }
        i = i + 1;
    }
    false
}

/// The guard's ruling on a candidate destination.
#[derive(Clone, Copy, Debug, PartialEq, Eq, Structural)]
pub enum GuardDecision {
    /// Output may be produced there; when `remove_existing` is set, a file
    /// already occupies the destination and must be removed first.
    Proceed { remove_existing: bool },
    /// The operator declined: the destination stays untouched.
    Decline,
}

/// The operator's answer as the guard's specification sees it: the line that
/// was read, or `None` where reading it failed.
pub open spec fn answer_view(answer: Option<String>) -> Option<Seq<char>> {
    match answer {
        Some(a) => Some(a@),
        None => None,
    }
}

/// The guard's ruling as a function of the `force` flag, whether the
/// destination exists, and the operator's answer (absent where no line could
/// be read, which counts as a refusal).
pub open spec fn decision_spec(force: bool, dest_exists: bool, answer: Option<Seq<char>>)
    -> GuardDecision {
    if !dest_exists {
        GuardDecision::Proceed { remove_existing: false }
    } else if force {
        GuardDecision::Proceed { remove_existing: true }
    } else {
        match answer {
            Some(a) => if affirmative(a) {
                GuardDecision::Proceed { remove_existing: true }
            } else {
                GuardDecision::Decline
            },
            None => GuardDecision::Decline,
        }
    }
}

/// Whether the guard must put its yes/no question to the operator at all:
/// only when the destination exists and `force` is not set.
pub open spec fn needs_prompt_spec(force: bool, dest_exists: bool) -> bool {
    dest_exists && !force
}

/// Gates destination paths against accidental data loss.
pub struct AskOverwrite {
    /// Overwrite without asking.
    pub force: bool,
}

impl AskOverwrite {
    /// A guard that prompts before overwriting unless `force` is set.
    pub fn new(force: bool) -> (r: AskOverwrite)
        ensures
            r.force == force,
    {
        AskOverwrite { force }
    }

    /// Whether authorizing this destination requires prompting the operator.
    pub fn needs_prompt(&self, dest_exists: bool) -> (r: bool)
        ensures
            r == needs_prompt_spec(self.force, dest_exists),
    {
        dest_exists && !self.force
    }

    /// The guard's ruling, given whether the destination exists and the
    /// answer the operator gave (`None` where no line could be read).
    pub fn decide(&self, dest_exists: bool, answer: &Option<String>) -> (r: GuardDecision)
        ensures
            r == decision_spec(self.force, dest_exists, answer_view(*answer)),
    {
        if !dest_exists {
            GuardDecision::Proceed { remove_existing: false }
        } else if self.force {
            GuardDecision::Proceed { remove_existing: true }
        } else {
            match answer {
                Some(a) => if is_affirmative(a.as_str()) {
                    GuardDecision::Proceed { remove_existing: true }
                } else {
                    GuardDecision::Decline
                },
                None => GuardDecision::Decline,
            }
        }
    }
}

/// With `force` set, an existing destination is authorized for removal and
/// replacement without any prompt, whatever the operator might answer.
pub proof fn lemma_force_always_overwrites(dest_exists: bool, answer: Option<Seq<char>>)
    ensures
        !needs_prompt_spec(true, dest_exists),
        dest_exists ==> decision_spec(true, dest_exists, answer) == (GuardDecision::Proceed {
            remove_existing: true,
        }),
{
}

/// Without `force`, a refusal — an answer that is not affirmative, or a
/// failed read — leaves an existing destination untouched: the guard
/// declines and authorizes no removal.
pub proof fn lemma_refusal_declines(answer: Option<Seq<char>>)
    requires
        match answer {
            Some(a) => !affirmative(a),
            None => true,
        },
    ensures
        decision_spec(false, true, answer) == GuardDecision::Decline,
{
}

} // verus!
