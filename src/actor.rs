use vstd::prelude::*;
use crate::engine::{apply, EngineError, EngineState, RecordingEngine, Reply};
use crate::protocol::{is_query_spec, label_spec, PlayerCommand};

verus! {

/// The life of the player actor.
#[derive(Clone, Copy, PartialEq, Eq, Structural, Debug)]
pub enum ActorState {
    /// The engine is being constructed; no message is taken yet.
    Initializing,
    /// The engine is up; messages are taken in arrival order.
    Running,
    /// The actor has ended; the engine is released.
    Stopped,
}

/// What happens to the actor.
pub enum ActorEvent {
    /// Engine construction succeeded.
    EngineReady,
    /// Engine construction failed, with a description.
    EngineFailed(String),
    /// The next message was taken from the inbound queue.
    Received(PlayerCommand),
    /// Every sender is gone: the queue is closed.
    QueueClosed,
}

/// What the actor does in answer to an event.
pub enum ActorAction {
    /// Answer the bootstrap handshake with success.
    ReportReady,
    /// Answer the bootstrap handshake with this failure and end.
    ReportFailure(String),
    /// Run this command against the engine.
    Execute(PlayerCommand),
    /// Leave the loop and release the engine.
    Exit,
    /// Nothing: the event has no meaning in this state.
    Ignore,
}

/// The actor's transition for one event.
pub open spec fn step_spec(state: ActorState, event: ActorEvent) -> (ActorState, ActorAction) {
    match (state, event) {
        (ActorState::Initializing, ActorEvent::EngineReady) => (ActorState::Running, ActorAction::ReportReady),
        (ActorState::Initializing, ActorEvent::EngineFailed(m)) => (ActorState::Stopped, ActorAction::ReportFailure(m)),
        (ActorState::Running, ActorEvent::Received(c)) => (ActorState::Running, ActorAction::Execute(c)),
        (ActorState::Running, ActorEvent::QueueClosed) => (ActorState::Stopped, ActorAction::Exit),
        (s, _) => (s, ActorAction::Ignore),
    }
}

/// Decides the actor's next state and action.
pub fn step(state: ActorState, event: ActorEvent) -> (r: (ActorState, ActorAction))
    ensures
        r == step_spec(state, event),
{
    match (state, event) {
        (ActorState::Initializing, ActorEvent::EngineReady) => (ActorState::Running, ActorAction::ReportReady),
        (ActorState::Initializing, ActorEvent::EngineFailed(m)) => (ActorState::Stopped, ActorAction::ReportFailure(m)),
        (ActorState::Running, ActorEvent::Received(c)) => (ActorState::Running, ActorAction::Execute(c)),
        (ActorState::Running, ActorEvent::QueueClosed) => (ActorState::Stopped, ActorAction::Exit),
        (s, _) => (s, ActorAction::Ignore),
    }
}

/// What becomes of an executed command's outcome.
pub enum Disposition {
    /// Send this outcome back to the waiting caller.
    Reply(Result<u64, String>),
    /// Write this line to the error log; nobody waits.
    Log(String),
    /// Nothing to do: a command succeeded.
    Quiet,
}

/// The diagnostic line for a failed command.
pub open spec fn failure_line(c: PlayerCommand, e: Seq<char>) -> Seq<char> {
    label_spec(c) + " error: "@ + e
}

/// Settles the outcome of a command that the engine ran: a query's outcome goes
/// back to its caller; a failed fire-and-forget command is logged; nothing is
/// ever retried.
pub fn settle(cmd: &PlayerCommand, outcome: Result<u64, String>) -> (d: Disposition)
    ensures
        is_query_spec(*cmd) ==> d == Disposition::Reply(outcome),
        !is_query_spec(*cmd) && outcome is Ok ==> d is Quiet,
        !is_query_spec(*cmd) && outcome is Err ==> (d matches Disposition::Log(line)
            && line@ == failure_line(*cmd, outcome->Err_0@)),
{
    if cmd.is_query() {
        return Disposition::Reply(outcome);
    }
    match outcome {
        Ok(_) => Disposition::Quiet,
        Err(e) => {
            let mut line = String::from_str(cmd.label());
            line.append(" error: ");
            line.append(e.as_str());
            Disposition::Log(line)
        },
    }
}

/// The engine's state and the outcomes after the actor has taken every message
/// of `queue`, in order.
pub open spec fn run(s: EngineState, queue: Seq<PlayerCommand>) -> (EngineState, Seq<Result<Reply, EngineError>>)
    decreases queue.len(),
{
    if queue.len() == 0 {
        (s, Seq::empty())
    } else {
        let before = run(s, queue.drop_last());
        let after = apply(before.0, queue.last());
        (after.0, before.1.push(after.1))
    }
}

/// Takes every message of `queue` in arrival order and runs it against `engine`;
/// the outcomes come back in the same order.
pub fn drain(engine: &mut RecordingEngine, queue: Vec<PlayerCommand>) -> (r: Vec<Result<Reply, EngineError>>)
    ensures
        (final(engine)@, r@) == run(old(engine)@, queue@),
{
    let ghost q = queue@;
    let ghost s0 = engine@;
    let mut queue = queue;
    let n: usize = queue.len();
    let mut out: Vec<Result<Reply, EngineError>> = Vec::new();
    let mut i: usize = 0;
    while queue.len() > 0
        invariant
            i <= q.len() == n,
            queue@ == q.subrange(i as int, q.len() as int),
            (engine@, out@) == run(s0, q.take(i as int)),
        decreases queue.len(),
    {
        let c = queue.remove(0);
        proof {
            assert(q.take(i as int + 1).drop_last() == q.take(i as int));
            assert(q.take(i as int + 1).last() == c);
        }
        let r = engine.execute(c);
        out.push(r);
        i = i + 1;
    }
    proof {
        assert(q.take(i as int) == q);
    }
    out
}

} // verus!
