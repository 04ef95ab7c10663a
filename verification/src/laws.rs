//! What holds of every actor, whatever the requests and their order.

use crate::model::{next_state, observed, state_after, ActorModel, Phase};
use crate::protocol::{CommandView, ReplyView};
use crate::result::ErrorView;
use vstd::prelude::*;

verus! {

/// The reply that carries `state`.
pub open spec fn answer(state: Seq<char>) -> Option<ReplyView> {
    Some(Ok(state))
}

/// How far a phase is from the start of a driver's life.
pub open spec fn progress(phase: Phase) -> int {
    match phase {
        Phase::Running => 0,
        Phase::Terminating => 1,
        Phase::Stopped => 2,
    }
}

/// A driver's life only moves forward: no request and no outcome of a
/// delivery brings an earlier phase back, and none but a running actor
/// changes its state.
pub proof fn life_moves_forward(actor: ActorModel, cmd: CommandView, delivered: bool)
    ensures
        progress(actor.phase) <= progress(actor.step(cmd).0.phase),
        progress(actor.phase) <= progress(actor.settle(delivered).phase),
        progress(actor.phase) <= progress(actor.serve(cmd, delivered).phase),
        actor.settle(delivered).state == actor.state,
        !(actor.phase is Running) ==> actor.step(cmd) == (actor, None::<ReplyView>),
        !(actor.phase is Running) ==> actor.serve(cmd, delivered) == actor,
{
}

/// Handling one more request extends the run by one step.
pub proof fn run_unfolds(actor: ActorModel, cmds: Seq<CommandView>, k: int)
    requires
        0 <= k < cmds.len(),
    ensures
        actor.run(cmds.take(k + 1)) == actor.run(cmds.take(k)).serve(cmds[k], true),
        state_after(actor.state, cmds.take(k + 1)) == next_state(
            state_after(actor.state, cmds.take(k)),
            cmds[k],
        ),
{
    assert(cmds.take(k + 1).drop_last() =~= cmds.take(k));
}

/// An actor that has left the running phase never changes again.
pub proof fn stopped_is_final(actor: ActorModel, cmds: Seq<CommandView>)
    requires
        !(actor.phase is Running),
    ensures
        actor.run(cmds) == actor,
    decreases cmds.len(),
{
    if cmds.len() > 0 {
        stopped_is_final(actor, cmds.drop_last());
    }
}

/// As long as no request asks to terminate, the actor keeps running, and its
/// state is the one that the requests leave behind, applied in their order
/// of arrival.
pub proof fn running_follows_commands(actor: ActorModel, cmds: Seq<CommandView>)
    requires
        actor.phase is Running,
        forall|t: int| 0 <= t < cmds.len() ==> !(cmds[t] is Terminate),
    ensures
        actor.run(cmds) == ActorModel::start(state_after(actor.state, cmds)),
    decreases cmds.len(),
{
    if cmds.len() > 0 {
        running_follows_commands(actor, cmds.drop_last());
    }
}

/// One in, one out: a running actor owes exactly one reply to each request,
/// and the reply shows the state that the request leaves behind.
pub proof fn running_actor_always_replies(actor: ActorModel, cmd: CommandView)
    requires
        actor.phase is Running,
    ensures
        actor.step(cmd).1 == answer(next_state(actor.state, cmd)),
        actor.step(cmd).0.state == next_state(actor.state, cmd),
{
}

/// Replies follow the order of arrival: each one shows the state that the
/// requests which arrived up to and including its own leave behind, applied
/// first to last, and that is what the handle gets. Requests of several
/// handles arrive in some one order, and this is the order that counts.
pub proof fn replies_follow_arrival_order(actor: ActorModel, cmds: Seq<CommandView>, k: int)
    requires
        actor.phase is Running,
        0 <= k < cmds.len(),
        forall|t: int| 0 <= t < k ==> !(cmds[t] is Terminate),
    ensures
        actor.reply_at(cmds, k) == answer(state_after(actor.state, cmds.take(k + 1))),
        actor.outcome_at(cmds, k) == Ok::<Seq<char>, ErrorView>(
            state_after(actor.state, cmds.take(k + 1)),
        ),
{
    running_follows_commands(actor, cmds.take(k));
    run_unfolds(actor, cmds, k);
}

/// The state after two runs of commands, one after the other, is the state
/// after the second run begun where the first ended.
pub proof fn state_after_concat(state: Seq<char>, first: Seq<CommandView>, second: Seq<CommandView>)
    ensures
        state_after(state, first + second) == state_after(state_after(state, first), second),
    decreases second.len(),
{
    if second.len() == 0 {
        assert(first + second =~= first);
    } else {
        state_after_concat(state, first, second.drop_last());
        assert((first + second).drop_last() =~= first + second.drop_last());
    }
}

/// A later reply builds on what an earlier reply showed: it is the state
/// that the requests between the two leave behind, begun at the earlier
/// reply's state. So no reply shows a change applied out of order.
pub proof fn later_reply_builds_on_earlier(
    actor: ActorModel,
    cmds: Seq<CommandView>,
    p: int,
    q: int,
)
    requires
        actor.phase is Running,
        0 <= p < q < cmds.len(),
        forall|t: int| 0 <= t < q ==> !(cmds[t] is Terminate),
    ensures
        actor.reply_at(cmds, p) == answer(state_after(actor.state, cmds.take(p + 1))),
        actor.reply_at(cmds, q) == answer(
            state_after(state_after(actor.state, cmds.take(p + 1)), cmds.subrange(p + 1, q + 1)),
        ),
{
    replies_follow_arrival_order(actor, cmds, p);
    replies_follow_arrival_order(actor, cmds, q);
    state_after_concat(actor.state, cmds.take(p + 1), cmds.subrange(p + 1, q + 1));
    assert(cmds.take(p + 1) + cmds.subrange(p + 1, q + 1) =~= cmds.take(q + 1));
}

/// Reads leave the state to the latest update: after an update to `value`
/// and nothing but reads, the state is `value`.
pub proof fn reads_keep_update(state: Seq<char>, cmds: Seq<CommandView>, i: int, j: int)
    requires
        0 <= i <= j < cmds.len(),
        cmds[i] is UpdateState,
        forall|t: int| i < t <= j ==> cmds[t] is GetState,
    ensures
        state_after(state, cmds.take(j + 1)) == cmds[i]->UpdateState_0,
    decreases j - i,
{
    assert(cmds.take(j + 1).drop_last() =~= cmds.take(j));
    if i < j {
        reads_keep_update(state, cmds, i, j - 1);
    }
}

/// Read your writes: among reads and updates that one running actor
/// handles, every read that follows an update, with no other update in
/// between, returns the value of that update.
pub proof fn read_your_writes(actor: ActorModel, cmds: Seq<CommandView>, i: int, j: int)
    requires
        actor.phase is Running,
        forall|t: int| 0 <= t < cmds.len() ==> !(cmds[t] is Terminate),
        0 <= i < j < cmds.len(),
        cmds[i] is UpdateState,
        forall|t: int| i < t <= j ==> cmds[t] is GetState,
    ensures
        actor.reply_at(cmds, j) == answer(cmds[i]->UpdateState_0),
        actor.outcome_at(cmds, j) == Ok::<Seq<char>, ErrorView>(cmds[i]->UpdateState_0),
{
    replies_follow_arrival_order(actor, cmds, j);
    reads_keep_update(actor.state, cmds, i, j);
}

/// Round trip: an update is answered with its own value, and so is a read
/// that comes right after it. The handles that sent them get that value.
pub proof fn update_then_read(actor: ActorModel, value: Seq<char>)
    requires
        actor.phase is Running,
    ensures
        actor.step(CommandView::UpdateState(value)).1 == answer(value),
        actor.serve(CommandView::UpdateState(value), true).step(CommandView::GetState).1
            == answer(value),
        actor.outcome_at(seq![CommandView::UpdateState(value), CommandView::GetState], 0) == Ok::<
            Seq<char>,
            ErrorView,
        >(value),
        actor.outcome_at(seq![CommandView::UpdateState(value), CommandView::GetState], 1) == Ok::<
            Seq<char>,
            ErrorView,
        >(value),
{
    let cmds = seq![CommandView::UpdateState(value), CommandView::GetState];
    assert(cmds.take(0) =~= Seq::<CommandView>::empty());
    assert(cmds.take(1) =~= seq![CommandView::UpdateState(value)]);
    assert(cmds.take(1).drop_last() =~= Seq::<CommandView>::empty());
}

/// Reading changes nothing: however many reads a running actor handles,
/// with nothing else in between, each returns the same state, and the actor
/// is as it was.
pub proof fn reads_change_nothing(actor: ActorModel, cmds: Seq<CommandView>, k: int)
    requires
        actor.phase is Running,
        forall|t: int| 0 <= t < cmds.len() ==> cmds[t] is GetState,
        0 <= k < cmds.len(),
    ensures
        actor.run(cmds) == actor,
        actor.reply_at(cmds, k) == answer(actor.state),
        actor.outcome_at(cmds, k) == Ok::<Seq<char>, ErrorView>(actor.state),
{
    only_reads(actor.state, cmds);
    running_follows_commands(actor, cmds);
    only_reads(actor.state, cmds.take(k + 1));
    replies_follow_arrival_order(actor, cmds, k);
}

/// A sequence of reads leaves the state as it was.
pub proof fn only_reads(state: Seq<char>, cmds: Seq<CommandView>)
    requires
        forall|t: int| 0 <= t < cmds.len() ==> cmds[t] is GetState,
    ensures
        state_after(state, cmds) == state,
    decreases cmds.len(),
{
    if cmds.len() > 0 {
        only_reads(state, cmds.drop_last());
    }
}

/// Once a request to terminate has been handled, the actor does not run.
pub proof fn terminate_stops(actor: ActorModel, cmds: Seq<CommandView>, t: int, k: int)
    requires
        0 <= t < k <= cmds.len(),
        cmds[t] is Terminate,
    ensures
        !(actor.run(cmds.take(k)).phase is Running),
        actor.run(cmds.take(k)) == actor.run(cmds.take(t + 1)),
    decreases k - t,
{
    if k == t + 1 {
        run_unfolds(actor, cmds, t);
    } else {
        terminate_stops(actor, cmds, t, k - 1);
        run_unfolds(actor, cmds, k - 1);
    }
}

/// Terminate is final: a request that arrives after a request to terminate
/// gets no reply, and changes nothing. Its sender, left without a reply,
/// gets a failure, and whatever failure a wait reports is what the handle
/// returns.
pub proof fn nothing_after_terminate(actor: ActorModel, cmds: Seq<CommandView>, t: int, k: int)
    requires
        0 <= t < k < cmds.len(),
        cmds[t] is Terminate,
    ensures
        actor.reply_at(cmds, k) is None,
        actor.outcome_at(cmds, k) is Err,
        actor.run(cmds) == actor.run(cmds.take(t + 1)),
        forall|e: ErrorView| #[trigger] observed(Err(e)) == Err::<Seq<char>, ErrorView>(e),
{
    terminate_stops(actor, cmds, t, k);
    terminate_stops(actor, cmds, t, cmds.len() as int);
    assert(cmds.take(cmds.len() as int) =~= cmds);
}

/// A request to terminate is answered with the state as it stands, and the
/// actor that has delivered this reply is stopped.
pub proof fn terminate_replies_then_stops(actor: ActorModel)
    requires
        actor.phase is Running,
    ensures
        actor.step(CommandView::Terminate).1 == answer(actor.state),
        actor.step(CommandView::Terminate).0 == actor.at(Phase::Terminating),
        actor.serve(CommandView::Terminate, true) == actor.at(Phase::Stopped),
{
}

/// A reply that cannot be delivered is fatal: the actor stops, whatever the
/// request was.
pub proof fn lost_reply_stops(actor: ActorModel, cmd: CommandView)
    requires
        actor.phase is Running,
    ensures
        actor.serve(cmd, false).phase is Stopped,
        actor.serve(cmd, false).state == next_state(actor.state, cmd),
{
}

} // verus!
