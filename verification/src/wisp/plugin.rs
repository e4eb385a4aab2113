use vstd::prelude::*;

verus! {

/// What a plugin answers to an event.
#[derive(Debug, Clone)]
pub enum HookResult {
    /// Go on as usual.
    Continue,
    /// Refuse the connection or stream, for this reason.
    Reject(String),
}

/// The reasons of a round of answers up to and including the first refusal:
/// the round stops at the first plugin that refuses, with its reason, and
/// passes when none does.
pub open spec fn round_outcome(answers: Seq<HookResult>) -> Option<Seq<char>>
    decreases answers.len(),
{
    if answers.len() == 0 {
        None
    } else {
        match answers[0] {
            HookResult::Reject(m) => Some(m@),
            HookResult::Continue => round_outcome(answers.drop_first()),
        }
    }
}

/// What a round of notification does after one plugin's answer: a refusal
/// ends the round with its reason, and the round goes on otherwise.
pub fn refusal_of(answer: HookResult) -> (r: Option<String>)
    ensures
        answer is Continue ==> r is None,
        answer matches HookResult::Reject(m) ==> (r matches Some(reason) && reason@ == m@),
{
    match answer {
        HookResult::Continue => None,
        HookResult::Reject(reason) => Some(reason),
    }
}

/// Going through a round answer by answer with `refusal_of`, stopping at the
/// first refusal, gives the round's outcome: a refusal ends it with that
/// reason, and after a plugin that lets the event through the outcome is that
/// of the remaining plugins.
pub proof fn lemma_round_step(answers: Seq<HookResult>)
    requires
        answers.len() > 0,
    ensures
        answers[0] matches HookResult::Reject(m) ==> round_outcome(answers) == Some(m@),
        answers[0] is Continue ==> round_outcome(answers) == round_outcome(answers.drop_first()),
{
}

} // verus!
