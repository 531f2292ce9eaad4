//! What holds of the menu over a whole run: however the events arrive, the
//! phases only move forward, one action at most is carried out, and a
//! failed connection ends everything.

use vstd::prelude::*;

use crate::app::{
    initial, issued, next, outcome_log, AppView, EffectView, MsgView, Phase,
};
use crate::config::ConfigView;
use crate::error::ErrorView;
use crate::executor::action_task_spec;

verus! {

/// The state after the events of `messages` have arrived one by one,
/// starting in `start`.
pub open spec fn run<C>(start: AppView<C>, messages: Seq<MsgView<C>>) -> AppView<C>
    decreases messages.len(),
{
    if messages.len() == 0 {
        start
    } else {
        next(run(start, messages.drop_last()), messages.last())
    }
}

/// `message`, arriving in state `pre`, makes the menu carry out an action.
pub open spec fn starts_action<C>(pre: AppView<C>, message: MsgView<C>) -> bool {
    pre.phase is Ready && message is Selected
}

/// In `state` the connection is there exactly when the phase says so: not
/// yet while connecting, and always while ready or executing.
pub open spec fn consistent<C>(state: AppView<C>) -> bool {
    &&& state.phase is Connecting ==> state.connection is None
    &&& state.phase is Ready || state.phase is ExecutingAction ==> state.connection is Some
}

/// No event moves the menu to an earlier phase, and none touches the
/// configuration.
pub proof fn lemma_step_moves_forward<C>(pre: AppView<C>, message: MsgView<C>)
    ensures
        pre.phase.rank() <= next(pre, message).phase.rank(),
        next(pre, message).config == pre.config,
{
}

/// The connection changes in one way only: a connection attempt succeeds
/// before the menu has terminated, and its connection is the one held from
/// then on.
pub proof fn lemma_connection_changes_on_connect<C>(pre: AppView<C>, message: MsgView<C>)
    requires
        next(pre, message).connection != pre.connection,
    ensures
        !(pre.phase is Terminated),
        message matches MsgView::Connected(connection) && next(pre, message).connection == Some(
            connection,
        ),
{
}

/// A connection that comes about is stored in every phase but the last, and
/// only while connecting does it change the phase.
pub proof fn lemma_connection_is_stored<C: Clone>(
    pre: AppView<C>,
    connection: C,
    effect: EffectView<C>,
)
    requires
        !(pre.phase is Terminated),
        issued(pre, MsgView::Connected(connection), effect),
    ensures
        next(pre, MsgView::Connected(connection)).connection == Some(connection),
        next(pre, MsgView::Connected(connection)).phase == (if pre.phase is Connecting {
            Phase::Ready
        } else {
            pre.phase
        }),
        effect is Wait,
{
}

/// A failed connection attempt ends the menu from every phase, with the
/// error's own line in the log, and starts nothing.
pub proof fn lemma_connect_failure_terminates<C: Clone>(
    pre: AppView<C>,
    error: ErrorView,
    effect: EffectView<C>,
)
    requires
        issued(pre, MsgView::ConnectFailed(error), effect),
    ensures
        next(pre, MsgView::ConnectFailed(error)).phase is Terminated,
        next(pre, MsgView::ConnectFailed(error)).connection == pre.connection,
        !(pre.phase is Terminated) ==> effect == (EffectView::<C>::Exit {
            log: Some(error.message()),
        }),
{
}

/// The menu becomes ready in one way only: the connection attempt succeeds
/// while it is connecting.
pub proof fn lemma_ready_follows_connection<C>(pre: AppView<C>, message: MsgView<C>)
    requires
        !(pre.phase is Ready),
        next(pre, message).phase is Ready,
    ensures
        pre.phase is Connecting,
        message is Connected,
        next(pre, message).connection is Some,
{
}

/// After termination nothing changes and nothing is asked for.
pub proof fn lemma_terminated_is_final<C: Clone>(
    pre: AppView<C>,
    message: MsgView<C>,
    effect: EffectView<C>,
)
    requires
        pre.phase is Terminated,
        issued(pre, message, effect),
    ensures
        next(pre, message) == pre,
        effect is Wait,
{
}

/// A request to quit ends the menu from every phase, and no action is
/// carried out on its account.
pub proof fn lemma_quit_terminates<C: Clone>(pre: AppView<C>, effect: EffectView<C>)
    requires
        issued(pre, MsgView::Quit, effect),
    ensures
        next(pre, MsgView::Quit).phase is Terminated,
        !(effect is Execute),
        !(pre.phase is Terminated) ==> effect == (EffectView::<C>::Exit { log: None }),
{
}

/// An action is started by a choice made while ready, and by nothing else;
/// the menu then leaves the ready phase.
pub proof fn lemma_action_starts_when_ready<C: Clone>(
    pre: AppView<C>,
    message: MsgView<C>,
    effect: EffectView<C>,
)
    requires
        issued(pre, message, effect),
    ensures
        effect is Execute <==> starts_action(pre, message),
        starts_action(pre, message) ==> next(pre, message).phase is ExecutingAction,
{
}

/// The end of an action ends the menu, whether the action succeeded or
/// failed and whatever the phase: nothing is started, the connection stays
/// what it was, and a failure leaves its line in the log.
pub proof fn lemma_outcome_terminates<C: Clone>(
    pre: AppView<C>,
    outcome: Result<(), ErrorView>,
    effect: EffectView<C>,
)
    requires
        issued(pre, MsgView::Finished(outcome), effect),
    ensures
        next(pre, MsgView::Finished(outcome)).phase is Terminated,
        next(pre, MsgView::Finished(outcome)).connection == pre.connection,
        !(effect is Execute) && !(effect is Connect),
        !(pre.phase is Terminated) ==> effect == (EffectView::<C>::Exit {
            log: outcome_log(outcome),
        }),
{
}

/// The menu asks to exit exactly when it terminates: on the one step that
/// takes it into the last phase, and on no other.
pub proof fn lemma_exit_marks_termination<C: Clone>(
    pre: AppView<C>,
    message: MsgView<C>,
    effect: EffectView<C>,
)
    requires
        issued(pre, message, effect),
    ensures
        effect is Exit <==> !(pre.phase is Terminated) && next(pre, message).phase is Terminated,
{
}

/// The state after the first `k + 1` events is the state after the first
/// `k`, moved on by the event at `k`.
pub proof fn lemma_run_unfolds<C>(start: AppView<C>, messages: Seq<MsgView<C>>, k: int)
    requires
        0 <= k < messages.len(),
    ensures
        run(start, messages.take(k + 1)) == next(run(start, messages.take(k)), messages[k]),
{
    assert(messages.take(k + 1).drop_last() =~= messages.take(k));
    assert(messages.take(k + 1).last() == messages[k]);
}

/// Over a run the phase never goes back and the configuration stays what
/// it was.
pub proof fn lemma_run_moves_forward<C>(
    start: AppView<C>,
    messages: Seq<MsgView<C>>,
    i: int,
    j: int,
)
    requires
        0 <= i <= j <= messages.len(),
    ensures
        run(start, messages.take(i)).phase.rank() <= run(start, messages.take(j)).phase.rank(),
        run(start, messages.take(j)).config == run(start, messages.take(i)).config,
    decreases j - i,
{
    if i < j {
        lemma_run_moves_forward(start, messages, i, j - 1);
        lemma_run_unfolds(start, messages, j - 1);
        lemma_step_moves_forward(run(start, messages.take(j - 1)), messages[j - 1]);
    }
}

/// In one run at most one action is carried out: of two events, the later
/// one cannot start an action if the earlier one did.
pub proof fn lemma_at_most_one_action<C>(
    start: AppView<C>,
    messages: Seq<MsgView<C>>,
    i: int,
    j: int,
)
    requires
        0 <= i < j < messages.len(),
        starts_action(run(start, messages.take(i)), messages[i]),
    ensures
        !starts_action(run(start, messages.take(j)), messages[j]),
{
    lemma_run_unfolds(start, messages, i);
    lemma_run_moves_forward(start, messages, i + 1, j);
}

/// Every state that the menu can reach from its start is consistent, and
/// holds the configuration that it was started with.
pub proof fn lemma_reachable_is_consistent<C>(config: ConfigView, messages: Seq<MsgView<C>>)
    ensures
        consistent(run(initial::<C>(config), messages)),
        run(initial::<C>(config), messages).config == config,
    decreases messages.len(),
{
    if messages.len() > 0 {
        lemma_reachable_is_consistent::<C>(config, messages.drop_last());
    }
}

/// The executor is never started without a connection: whatever the menu
/// asks to be carried out, it hands the connection along, so the guard of
/// the bus path does not fire.
pub proof fn lemma_executor_has_connection<C: Clone>(
    config: ConfigView,
    messages: Seq<MsgView<C>>,
    message: MsgView<C>,
    effect: EffectView<C>,
)
    requires
        issued(run(initial::<C>(config), messages), message, effect),
        effect is Execute,
    ensures
        effect->connection is Some,
        action_task_spec(effect->action, effect->method, effect->connection) != Err::<
            crate::executor::DispatchView<C>,
            ErrorView,
        >(ErrorView::NoConnection),
{
    lemma_reachable_is_consistent::<C>(config, messages);
}

/// A failed connection attempt is the end: the menu terminates at once,
/// never becomes ready, and no later event starts an action.
pub proof fn lemma_connect_failure_is_final<C>(
    config: ConfigView,
    messages: Seq<MsgView<C>>,
    k: int,
)
    requires
        0 < k <= messages.len(),
        messages[0] is ConnectFailed,
    ensures
        run(initial::<C>(config), messages.take(k)).phase is Terminated,
        k < messages.len() ==> !starts_action(
            run(initial::<C>(config), messages.take(k)),
            messages[k],
        ),
        !starts_action(run(initial::<C>(config), messages.take(0)), messages[0]),
{
    let start = initial::<C>(config);
    assert(messages.take(0) =~= Seq::<MsgView<C>>::empty());
    assert(run(start, messages.take(0)) == start);
    lemma_run_unfolds(start, messages, 0);
    lemma_run_moves_forward(start, messages, 1, k);
}

} // verus!
