use vstd::prelude::*;
use crate::actor::{run, step_spec, ActorAction, ActorEvent, ActorState};
use crate::binding::{plan_spec, Action, Step};
use crate::engine::{apply, EngineCall, EngineState, Flag, Reply};
use crate::protocol::PlayerCommand;

verus! {

/// Running a queue in two parts leaves the engine as running it whole.
pub proof fn lemma_run_split(s: EngineState, a: Seq<PlayerCommand>, b: Seq<PlayerCommand>)
    ensures
        run(s, a + b).0 == run(run(s, a).0, b).0,
        run(s, a + b).1 == run(s, a).1 + run(run(s, a).0, b).1,
    decreases b.len(),
{
    if b.len() == 0 {
        assert(a + b == a);
    } else {
        lemma_run_split(s, a, b.drop_last());
        assert((a + b).drop_last() == a + b.drop_last());
        assert((a + b).last() == b.last());
    }
}

/// Each outcome of a run is the outcome of its message applied to the state
/// that every earlier message left.
pub proof fn lemma_run_outcome(s: EngineState, q: Seq<PlayerCommand>, j: int)
    requires
        0 <= j < q.len(),
    ensures
        run(s, q).1.len() == q.len(),
        run(s, q).1[j] == apply(run(s, q.take(j)).0, q[j]).1,
    decreases q.len(),
{
    if j == q.len() - 1 {
        assert(q.drop_last() == q.take(j));
        lemma_run_len(s, q.drop_last());
    } else {
        lemma_run_outcome(s, q.drop_last(), j);
        assert(q.drop_last().take(j) == q.take(j));
    }
}

/// A run gives one outcome per message.
pub proof fn lemma_run_len(s: EngineState, q: Seq<PlayerCommand>)
    ensures
        run(s, q).1.len() == q.len(),
    decreases q.len(),
{
    if q.len() > 0 {
        lemma_run_len(s, q.drop_last());
    }
}

/// The state in which message `j` is applied is reached from the state just
/// after message `i` (`i < j`) by the messages between them: every earlier
/// message has taken effect.
pub proof fn lemma_applied_after(s: EngineState, q: Seq<PlayerCommand>, i: int, j: int)
    requires
        0 <= i < j <= q.len(),
    ensures
        run(s, q.take(j)).0 == run(apply(run(s, q.take(i)).0, q[i]).0, q.subrange(i + 1, j)).0,
{
    lemma_run_split(s, q.take(i + 1), q.subrange(i + 1, j));
    assert(q.take(i + 1) + q.subrange(i + 1, j) == q.take(j));
    assert(q.take(i + 1).drop_last() == q.take(i));
    assert(q.take(i + 1).last() == q[i]);
}

/// Commands sent by many callers into the one queue are applied in the queue's
/// single order, and so each caller's commands in the order that caller sent
/// them: of two commands of one caller, the later is applied to a state that
/// the earlier has already changed. `sends` holds, in enqueue order, each
/// command with the caller that sent it.
pub proof fn lemma_caller_order(s: EngineState, sends: Seq<(u64, PlayerCommand)>, a: int, b: int)
    requires
        0 <= a < b < sends.len(),
        sends[a].0 == sends[b].0,
    ensures
        ({
            let q = sends.map_values(|p: (u64, PlayerCommand)| p.1);
            &&& run(s, q).1[b] == apply(run(s, q.take(b)).0, sends[b].1).1
            &&& run(s, q.take(b)).0 == run(apply(run(s, q.take(a)).0, sends[a].1).0, q.subrange(a + 1, b)).0
        }),
{
    let q = sends.map_values(|p: (u64, PlayerCommand)| p.1);
    lemma_run_outcome(s, q, b);
    lemma_applied_after(s, q, a, b);
}

/// A query enqueued after command `c` (at position `i`) is answered from a
/// state that `c` has already changed, never from one before it.
pub proof fn lemma_query_after_command(s: EngineState, q: Seq<PlayerCommand>, i: int, j: int)
    requires
        0 <= i < j < q.len(),
    ensures
        run(s, q).1[j] == apply(run(apply(run(s, q.take(i)).0, q[i]).0, q.subrange(i + 1, j)).0, q[j]).1,
{
    lemma_run_outcome(s, q, j);
    lemma_applied_after(s, q, i, j);
}

/// Setting the volume to `v` and reading it straight back gives `v`.
pub proof fn lemma_volume_round_trip(s: EngineState, v: u64)
    ensures
        apply(apply(s, PlayerCommand::SetVolume { volume: v }).0, PlayerCommand::GetVolume).1
            == Ok::<Reply, crate::engine::EngineError>(Reply::Value(v)),
{
}

/// Stop clears the pause flag whatever it was, so a toggle right after it
/// pauses.
pub proof fn lemma_stop_then_toggle(s: EngineState)
    ensures
        !apply(s, PlayerCommand::Stop).0.paused,
        apply(apply(s, PlayerCommand::Stop).0, PlayerCommand::PauseToggle).0.paused,
        apply(apply(s, PlayerCommand::Stop).0, PlayerCommand::PauseToggle).1 is Ok,
{
}

/// Loading with a start offset sets the offset first and then plays the
/// source: exactly these two calls, in this order.
pub proof fn lemma_start_before_play(s: EngineState, url: String, t: u64)
    ensures
        apply(s, PlayerCommand::Load { url: url, start_time: Some(t) }).0.calls
            == s.calls.push(EngineCall::SetStart(t)).push(EngineCall::LoadFile(url)),
{
}

/// Once stopped, the actor stays stopped and does nothing, whatever arrives.
pub proof fn lemma_stopped_is_final(e: ActorEvent)
    ensures
        step_spec(ActorState::Stopped, e).0 == ActorState::Stopped,
        step_spec(ActorState::Stopped, e).1 is Ignore,
{
}

/// A failed engine construction never reaches the running state.
pub proof fn lemma_failed_init_never_runs(m: String)
    ensures
        step_spec(ActorState::Initializing, ActorEvent::EngineFailed(m))
            == (ActorState::Stopped, ActorAction::ReportFailure(m)),
{
}

/// The binding sets a load's start offset before it plays the source, makes
/// no other request, and requires both to succeed.
pub proof fn lemma_plan_start_before_play(url: String, t: u64)
    ensures
        plan_spec(PlayerCommand::Load { url: url, start_time: Some(t) }) == seq![
            Step { action: Action::WriteStart(t), required: true },
            Step { action: Action::Play(url), required: true },
        ],
{
}

/// The binding's stop ends by clearing the pause flag, and its pause toggle
/// negates whatever it reads: after a stop, a toggle always pauses.
pub proof fn lemma_plan_stop_clears_pause()
    ensures
        plan_spec(PlayerCommand::Stop).last() == (Step { action: Action::WriteFlag(Flag::Pause, false), required: false }),
        plan_spec(PlayerCommand::PauseToggle) == seq![Step { action: Action::NegateFlag(Flag::Pause), required: true }],
{
}
/// The value a flag has in an engine state.
pub open spec fn flag_value(s: EngineState, f: Flag) -> bool {
    match f {
        Flag::Pause => s.paused,
        Flag::SubVisibility => s.sub_visible,
    }
}

/// The calls by which a recording engine in state `s` sees one request.
pub open spec fn step_calls(s: EngineState, st: Step) -> Seq<EngineCall> {
    match st.action {
        Action::Play(url) => seq![EngineCall::LoadFile(url)],
        Action::StopPlayback => seq![EngineCall::StopPlayback],
        Action::SeekBy(t) => seq![EngineCall::SeekRelative(t)],
        Action::NegateFlag(f) => seq![EngineCall::GetFlag(f), EngineCall::SetFlag(f, !flag_value(s, f))],
        Action::WriteFlag(f, b) => seq![EngineCall::SetFlag(f, b)],
        Action::WriteStart(t) => seq![EngineCall::SetStart(t)],
        Action::WritePosition(t) => seq![EngineCall::SetTimePos(t)],
        Action::WriteVolume(v) => seq![EngineCall::SetVolume(v)],
        Action::ReadVolume => seq![EngineCall::GetVolume],
        Action::ReadPosition => seq![EngineCall::GetTimePos],
        Action::ReadDuration => seq![EngineCall::GetDuration],
        Action::Cycle(t) => seq![EngineCall::CycleTrack(t)],
        Action::SelectTrack(t, id) => seq![EngineCall::SetTrack(t, id)],
        Action::Screenshot(f, b) => seq![EngineCall::Screenshot(f, b)],
    }
}

/// The calls by which a recording engine in state `s` sees a plan whose
/// requests read no state that an earlier one wrote.
pub open spec fn plan_calls(s: EngineState, p: Seq<Step>) -> Seq<EngineCall>
    decreases p.len(),
{
    if p.len() == 0 {
        Seq::empty()
    } else {
        step_calls(s, p[0]) + plan_calls(s, p.drop_first())
    }
}

/// When an operation succeeds on the recording engine, the engine has seen
/// exactly the requests of the binding's plan for it, in the plan's order.
pub proof fn lemma_engine_follows_plan(s: EngineState, c: PlayerCommand)
    requires
        apply(s, c).1 is Ok,
    ensures
        apply(s, c).0.calls == s.calls + plan_calls(s, plan_spec(c)),
{
    let p = plan_spec(c);
    let rest = p.drop_first();
    assert(plan_calls(s, p) == step_calls(s, p[0]) + plan_calls(s, rest));
    if p.len() == 2 {
        assert(plan_calls(s, rest) == step_calls(s, rest[0]) + plan_calls(s, rest.drop_first()));
        assert(rest.drop_first().len() == 0);
        assert(plan_calls(s, p) =~= step_calls(s, p[0]) + step_calls(s, p[1]));
    } else {
        assert(rest.len() == 0);
        assert(plan_calls(s, p) =~= step_calls(s, p[0]));
    }
    assert(apply(s, c).0.calls =~= s.calls + plan_calls(s, plan_spec(c)));
}
/// Commands that neither load, stop nor seek: they leave the loaded media and
/// the playback position as they are.
pub open spec fn keeps_position(c: PlayerCommand) -> bool {
    !(c is Load || c is Stop || c is SeekAbsolute || c is SeekRelative)
}

proof fn lemma_run_step(s: EngineState, q: Seq<PlayerCommand>, k: int)
    requires
        0 <= k < q.len(),
    ensures
        run(s, q.take(k + 1)).0 == apply(run(s, q.take(k)).0, q[k]).0,
{
    assert(q.take(k + 1).drop_last() == q.take(k));
    assert(q.take(k + 1).last() == q[k]);
}

proof fn lemma_position_held(s: EngineState, q: Seq<PlayerCommand>, i: int, k: int, t: u64)
    requires
        0 <= i < k <= q.len(),
        q[i] == (PlayerCommand::SeekAbsolute { seconds: t }),
        run(s, q.take(i)).0.media is Some,
        forall|m: int| i < m < k ==> keeps_position(#[trigger] q[m]),
    ensures
        run(s, q.take(k)).0.media is Some,
        run(s, q.take(k)).0.time_pos == t,
    decreases k - i,
{
    lemma_run_step(s, q, k - 1);
    if k - 1 > i {
        lemma_position_held(s, q, i, k - 1, t);
    }
}

/// A position query answers the position of the last absolute seek before
/// it, when media was loaded at that seek and no message between the two
/// loads, stops or seeks.
pub proof fn lemma_seek_then_position(s: EngineState, q: Seq<PlayerCommand>, i: int, j: int, t: u64)
    requires
        0 <= i < j < q.len(),
        q[i] == (PlayerCommand::SeekAbsolute { seconds: t }),
        run(s, q.take(i)).0.media is Some,
        q[j] is Position,
        forall|m: int| i < m < j ==> keeps_position(#[trigger] q[m]),
    ensures
        run(s, q).1[j] == Ok::<Reply, crate::engine::EngineError>(Reply::Value(t)),
{
    lemma_position_held(s, q, i, j, t);
    lemma_run_outcome(s, q, j);
}
} // verus!
