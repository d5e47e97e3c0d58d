//! The event loop's decisions: whether to poll again, from what the last
//! poll brought.
use crate::client::{ClientError, NextEventResponse};
use vstd::prelude::*;

verus! {

/// Where the event loop stands.
#[derive(PartialEq, Eq, Structural, Clone, Copy, Debug)]
pub enum LoopState {
    /// Another poll is due.
    Polling,
    /// A Shutdown event was observed; no poll may follow.
    Terminating,
    /// A poll failed; the loop has stopped and surfaces the error.
    Failed,
}

/// What the loop does next.
#[derive(PartialEq, Eq, Structural, Clone, Copy, Debug)]
pub enum Action {
    Poll,
    Stop,
}

/// What a poll brought, as far as the loop's decision goes.
#[derive(PartialEq, Eq, Structural, Clone, Copy, Debug)]
pub enum PollOutcome {
    Invoke,
    Shutdown,
    Error,
}

/// The kind of a poll's result.
pub open spec fn outcome_of(r: Result<NextEventResponse, ClientError>) -> PollOutcome {
    match r {
        Ok(NextEventResponse::Invoke(_)) => PollOutcome::Invoke,
        Ok(NextEventResponse::Shutdown(_)) => PollOutcome::Shutdown,
        Err(_) => PollOutcome::Error,
    }
}

/// The state after a poll's outcome: an Invoke keeps the loop polling, a
/// Shutdown ends it, an error stops it; a loop that stopped stays as it is.
pub open spec fn step(s: LoopState, o: PollOutcome) -> LoopState {
    match s {
        LoopState::Polling => match o {
            PollOutcome::Invoke => LoopState::Polling,
            PollOutcome::Shutdown => LoopState::Terminating,
            PollOutcome::Error => LoopState::Failed,
        },
        _ => s,
    }
}

/// The action that a state calls for.
pub open spec fn action_of(s: LoopState) -> Action {
    if s == LoopState::Polling {
        Action::Poll
    } else {
        Action::Stop
    }
}

/// How many polls a loop in state `s` issues when the host answers its polls
/// with `outcomes`, one by one.
pub open spec fn polls_issued(s: LoopState, outcomes: Seq<PollOutcome>) -> nat
    decreases outcomes.len(),
{
    if outcomes.len() == 0 || action_of(s) == Action::Stop {
        0
    } else {
        1 + polls_issued(step(s, outcomes[0]), outcomes.drop_first())
    }
}

/// The state that a loop in state `s` reaches when the host answers its polls
/// with `outcomes`.
pub open spec fn run(s: LoopState, outcomes: Seq<PollOutcome>) -> LoopState
    decreases outcomes.len(),
{
    if outcomes.len() == 0 || action_of(s) == Action::Stop {
        s
    } else {
        run(step(s, outcomes[0]), outcomes.drop_first())
    }
}

/// The event loop: its state and the decisions taken on it.
pub struct EventLoop {
    pub state: LoopState,
}

impl EventLoop {
    /// A loop that is about to make its first poll.
    pub fn new() -> (r: EventLoop)
        ensures
            r.state == LoopState::Polling,
    {
        EventLoop { state: LoopState::Polling }
    }

    /// Whether to poll again.
    pub fn next_action(&self) -> (a: Action)
        ensures
            a == action_of(self.state),
            a == Action::Poll <==> self.state == LoopState::Polling,
    {
        match self.state {
            LoopState::Polling => Action::Poll,
            _ => Action::Stop,
        }
    }

    /// Takes in what a poll brought.
    pub fn observe(&mut self, result: &Result<NextEventResponse, ClientError>)
        ensures
            final(self).state == step(old(self).state, outcome_of(*result)),
    {
        if self.state == LoopState::Polling {
            self.state = match result {
                Ok(NextEventResponse::Invoke(_)) => LoopState::Polling,
                Ok(NextEventResponse::Shutdown(_)) => LoopState::Terminating,
                Err(_) => LoopState::Failed,
            };
        }
    }

    /// Whether the loop has ended because the host announced its shutdown.
    pub fn is_terminated(&self) -> (r: bool)
        ensures
            r == (self.state == LoopState::Terminating),
    {
        self.state == LoopState::Terminating
    }
}

/// Once a Shutdown event has been observed, whatever the host would answer
/// afterwards, no further poll is issued and the loop stays where it is.
pub proof fn lemma_no_poll_after_shutdown(s: LoopState, outcomes: Seq<PollOutcome>)
    ensures
        polls_issued(step(s, PollOutcome::Shutdown), outcomes) == 0,
        run(step(s, PollOutcome::Shutdown), outcomes) == step(s, PollOutcome::Shutdown),
        s == LoopState::Polling ==> step(s, PollOutcome::Shutdown) == LoopState::Terminating,
{
    reveal_with_fuel(polls_issued, 1);
    reveal_with_fuel(run, 1);
}

/// Every poll answered by an Invoke is followed by another poll, and the loop
/// stops at the first answer that is no Invoke: a loop that starts polling
/// issues exactly one poll more than the Invokes that lead its answers.
pub proof fn lemma_polls_until_first_stop(k: nat, outcomes: Seq<PollOutcome>)
    requires
        k < outcomes.len(),
        forall|i: int| 0 <= i < k ==> outcomes[i] == PollOutcome::Invoke,
        outcomes[k as int] != PollOutcome::Invoke,
    ensures
        polls_issued(LoopState::Polling, outcomes) == k + 1,
        run(LoopState::Polling, outcomes) == step(LoopState::Polling, outcomes[k as int]),
    decreases k,
{
    if k == 0 {
        let next = step(LoopState::Polling, outcomes[0]);
        assert(next != LoopState::Polling);
        assert(polls_issued(next, outcomes.drop_first()) == 0);
        assert(run(next, outcomes.drop_first()) == next);
    } else {
        let rest = outcomes.drop_first();
        assert forall|i: int| 0 <= i < k - 1 implies rest[i] == PollOutcome::Invoke by {
            assert(rest[i] == outcomes[i + 1]);
        }
        assert(rest[k - 1] == outcomes[k as int]);
        lemma_polls_until_first_stop((k - 1) as nat, rest);
        assert(outcomes[0] == PollOutcome::Invoke);
    }
}

} // verus!
