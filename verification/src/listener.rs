//! The policy of the accept loop.
//!
//! The loop owns the bound socket. Every connection it accepts is handed to a
//! handler of its own, scheduled independently, so that no peer holds up the
//! others. The first failed accept ends the loop for good: a broken listener
//! does not spin, and nothing is accepted again until the proxy is started
//! anew.

use vstd::prelude::*;

verus! {

/// How long a new loop waits, in milliseconds, before it tells the host that
/// the proxy is usable and starts to accept.
pub const ANNOUNCE_DELAY_MS: u64 = 500;

/// What an accept returned.
#[derive(Clone, Copy, Debug, PartialEq, Eq, Structural)]
pub enum AcceptEvent {
    /// A connection came in.
    Accepted,
    /// The accept failed.
    Failed,
}

/// Where the loop stands.
#[derive(Clone, Copy, Debug, PartialEq, Eq, Structural)]
pub enum LoopState {
    Accepting,
    Exited,
}

/// What the loop does with the outcome of an accept.
#[derive(Clone, Copy, Debug, PartialEq, Eq, Structural)]
pub enum LoopAction {
    /// Hand the connection to a new handler and accept again.
    Dispatch,
    /// Leave the loop and drop the socket.
    Exit,
}

/// The transition function of the loop.
pub open spec fn accept_step(state: LoopState, event: AcceptEvent) -> (LoopState, LoopAction) {
    match state {
        LoopState::Accepting => match event {
            AcceptEvent::Accepted => (LoopState::Accepting, LoopAction::Dispatch),
            AcceptEvent::Failed => (LoopState::Exited, LoopAction::Exit),
        },
        LoopState::Exited => (LoopState::Exited, LoopAction::Exit),
    }
}

/// The state of the loop after all of `events`, in order.
pub open spec fn run(state: LoopState, events: Seq<AcceptEvent>) -> LoopState
    decreases events.len(),
{
    if events.len() == 0 {
        state
    } else {
        accept_step(run(state, events.drop_last()), events.last()).0
    }
}

/// The number of connections that the loop hands to handlers over `events`.
pub open spec fn dispatched(state: LoopState, events: Seq<AcceptEvent>) -> nat
    decreases events.len(),
{
    if events.len() == 0 {
        0
    } else {
        let before = dispatched(state, events.drop_last());
        if accept_step(run(state, events.drop_last()), events.last()).1 == LoopAction::Dispatch {
            before + 1
        } else {
            before
        }
    }
}

/// True when every one of `events` is an accepted connection.
pub open spec fn all_accepted(events: Seq<AcceptEvent>) -> bool {
    forall|i: int| 0 <= i < events.len() ==> events[i] == AcceptEvent::Accepted
}

/// A loop that has exited stays so, and dispatches nothing more.
pub proof fn lemma_exit_is_final(events: Seq<AcceptEvent>)
    ensures
        run(LoopState::Exited, events) == LoopState::Exited,
        dispatched(LoopState::Exited, events) == 0,
    decreases events.len(),
{
    if events.len() > 0 {
        lemma_exit_is_final(events.drop_last());
    }
}

/// While no accept fails, every connection is dispatched and the loop goes
/// on accepting.
pub proof fn lemma_accepts_all(events: Seq<AcceptEvent>)
    requires
        all_accepted(events),
    ensures
        run(LoopState::Accepting, events) == LoopState::Accepting,
        dispatched(LoopState::Accepting, events) == events.len(),
    decreases events.len(),
{
    if events.len() > 0 {
        lemma_accepts_all(events.drop_last());
    }
}

/// Once the loop has left `Accepting`, further events change neither its
/// state nor the number of connections dispatched.
pub proof fn lemma_nothing_after_exit(before: Seq<AcceptEvent>, after: Seq<AcceptEvent>)
    requires
        run(LoopState::Accepting, before) == LoopState::Exited,
    ensures
        run(LoopState::Accepting, before + after) == LoopState::Exited,
        dispatched(LoopState::Accepting, before + after) == dispatched(
            LoopState::Accepting,
            before,
        ),
    decreases after.len(),
{
    if after.len() == 0 {
        assert(before + after =~= before);
    } else {
        lemma_nothing_after_exit(before, after.drop_last());
        assert((before + after).drop_last() =~= before + after.drop_last());
        assert((before + after).last() == after.last());
    }
}

/// The first failed accept ends the loop: the connections accepted before it
/// are all dispatched, and none that comes after it is.
pub proof fn lemma_fail_fast(accepted: Seq<AcceptEvent>, after: Seq<AcceptEvent>)
    requires
        all_accepted(accepted),
    ensures
        run(LoopState::Accepting, accepted + seq![AcceptEvent::Failed] + after)
            == LoopState::Exited,
        dispatched(LoopState::Accepting, accepted + seq![AcceptEvent::Failed] + after)
            == accepted.len(),
{
    let upto = accepted + seq![AcceptEvent::Failed];
    lemma_accepts_all(accepted);
    assert(upto.drop_last() =~= accepted);
    assert(upto.last() == AcceptEvent::Failed);
    lemma_nothing_after_exit(upto, after);
}

/// The accept loop of one bound socket.
#[derive(Debug)]
pub struct AcceptLoop {
    state: LoopState,
}

impl View for AcceptLoop {
    type V = LoopState;

    closed spec fn view(&self) -> LoopState {
        self.state
    }
}

impl AcceptLoop {
    /// The loop of a socket that was just bound.
    pub fn new() -> (accept_loop: AcceptLoop)
        ensures
            accept_loop@ == LoopState::Accepting,
    {
        AcceptLoop { state: LoopState::Accepting }
    }

    /// Where the loop stands.
    pub fn state(&self) -> (state: LoopState)
        ensures
            state == self@,
    {
        self.state
    }

    /// Takes the outcome of an accept and says what to do with it.
    pub fn on_accept(&mut self, event: AcceptEvent) -> (action: LoopAction)
        ensures
            (final(self)@, action) == accept_step(old(self)@, event),
    {
        match self.state {
            LoopState::Accepting => match event {
                AcceptEvent::Accepted => LoopAction::Dispatch,
                AcceptEvent::Failed => {
                    self.state = LoopState::Exited;
                    LoopAction::Exit
                },
            },
            LoopState::Exited => LoopAction::Exit,
        }
    }
}

} // verus!
