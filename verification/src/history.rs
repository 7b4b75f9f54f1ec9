//! What holds of whole runs of the engine, whatever events arrive.

use vstd::prelude::*;
use crate::engine::{EngineState, ends_session};
use crate::event::{ActionView, MessageView};
use crate::options::DataChannelOptions;

verus! {

/// The state that a list of events, applied in order, leads to.
pub open spec fn run_state(start: EngineState, events: Seq<MessageView>) -> EngineState
    decreases events.len(),
{
    if events.len() == 0 {
        start
    } else {
        run_state(start, events.drop_last()).step_state(events.last())
    }
}

/// Every action that a list of events, applied in order, gives rise to.
pub open spec fn run_actions(start: EngineState, events: Seq<MessageView>) -> Seq<ActionView>
    decreases events.len(),
{
    if events.len() == 0 {
        Seq::empty()
    } else {
        run_actions(start, events.drop_last()) + run_state(
            start,
            events.drop_last(),
        ).step_actions(events.last())
    }
}

/// How often `wanted` stands in `actions`.
pub open spec fn count(actions: Seq<ActionView>, wanted: ActionView) -> nat
    decreases actions.len(),
{
    if actions.len() == 0 {
        0
    } else {
        count(actions.drop_last(), wanted) + if actions.last() == wanted {
            1nat
        } else {
            0nat
        }
    }
}

/// 1 where `action` is `wanted`, else 0.
pub open spec fn hit(action: ActionView, wanted: ActionView) -> nat {
    if action == wanted {
        1
    } else {
        0
    }
}

/// A step gives at most three actions; this counts in so short a list.
pub proof fn lemma_count_short(actions: Seq<ActionView>, wanted: ActionView)
    requires
        actions.len() <= 3,
    ensures
        count(actions, wanted) == (if actions.len() > 0 {
            hit(actions[0], wanted)
        } else {
            0
        }) + (if actions.len() > 1 {
            hit(actions[1], wanted)
        } else {
            0
        }) + (if actions.len() > 2 {
            hit(actions[2], wanted)
        } else {
            0
        }),
    decreases actions.len(),
{
    if actions.len() > 0 {
        lemma_count_short(actions.drop_last(), wanted);
    }
}

/// Counting in two lists, one after the other, adds up.
pub proof fn lemma_count_add(left: Seq<ActionView>, right: Seq<ActionView>, wanted: ActionView)
    ensures
        count(left + right, wanted) == count(left, wanted) + count(right, wanted),
    decreases right.len(),
{
    if right.len() == 0 {
        assert(left + right =~= left);
    } else {
        assert((left + right).drop_last() =~= left + right.drop_last());
        lemma_count_add(left, right.drop_last(), wanted);
    }
}

/// How often one step creates, opens, tells and releases session `id`.
pub proof fn lemma_step_counts(state: EngineState, event: MessageView, id: u64)
    ensures
        count(state.step_actions(event), ActionView::CreatePeer(id, state.options)) == (if event
            == MessageView::OnWebsocketOpen(id) && state.is_fresh(id) {
            1nat
        } else {
            0nat
        }),
        count(state.step_actions(event), ActionView::OpenChannel(id)) == (if event
            == MessageView::OnDataChannelOpen(id) && state.awaits_transport(id) {
            1nat
        } else {
            0nat
        }),
        count(state.step_actions(event), ActionView::HandlerClose(id)) == (if ends_session(
            event,
            id,
        ) && state.has_handler(id) {
            1nat
        } else {
            0nat
        }),
        count(state.step_actions(event), ActionView::DestroyPeer(id)) == (if ends_session(
            event,
            id,
        ) && state.is_live(id) {
            1nat
        } else {
            0nat
        }),
{
    let actions = state.step_actions(event);
    lemma_count_short(actions, ActionView::CreatePeer(id, state.options));
    lemma_count_short(actions, ActionView::OpenChannel(id));
    lemma_count_short(actions, ActionView::HandlerClose(id));
    lemma_count_short(actions, ActionView::DestroyPeer(id));
}

/// What holds of session `id` between any two events, given the actions so
/// far: it was created at most once, its transport opened at most once and
/// not before it was created, its handler was told of the end at most once
/// and only if the transport had opened; a live session has been created and
/// neither told nor released; a session that is gone has been released as
/// often as it was created.
pub open spec fn session_history_ok(state: EngineState, actions: Seq<ActionView>, id: u64) -> bool {
    let created = count(actions, ActionView::CreatePeer(id, state.options));
    let opened = count(actions, ActionView::OpenChannel(id));
    let told = count(actions, ActionView::HandlerClose(id));
    let released = count(actions, ActionView::DestroyPeer(id));
    &&& told <= opened <= created <= 1
    &&& created >= 1 ==> !state.is_fresh(id)
    &&& state.is_live(id) ==> created == 1 && told == 0 && released == 0
    &&& state.is_live(id) ==> (state.has_handler(id) <==> opened == 1)
    &&& !state.is_live(id) ==> released == created
}

/// One step keeps what `session_history_ok` says.
pub proof fn lemma_step_keeps_history(
    state: EngineState,
    actions: Seq<ActionView>,
    event: MessageView,
    id: u64,
)
    requires
        session_history_ok(state, actions, id),
    ensures
        session_history_ok(state.step_state(event), actions + state.step_actions(event), id),
{
    let next = state.step_actions(event);
    lemma_step_counts(state, event, id);
    lemma_count_add(actions, next, ActionView::CreatePeer(id, state.options));
    lemma_count_add(actions, next, ActionView::OpenChannel(id));
    lemma_count_add(actions, next, ActionView::HandlerClose(id));
    lemma_count_add(actions, next, ActionView::DestroyPeer(id));
}

/// From the start on, `session_history_ok` holds after every list of events.
pub proof fn lemma_run_history(options: DataChannelOptions, events: Seq<MessageView>, id: u64)
    ensures
        session_history_ok(
            run_state(EngineState::initial(options), events),
            run_actions(EngineState::initial(options), events),
            id,
        ),
        run_state(EngineState::initial(options), events).options == options,
    decreases events.len(),
{
    let start = EngineState::initial(options);
    if events.len() > 0 {
        lemma_run_history(options, events.drop_last(), id);
        lemma_step_keeps_history(
            run_state(start, events.drop_last()),
            run_actions(start, events.drop_last()),
            events.last(),
            id,
        );
    }
}

/// Whatever events arrive, and at every point of the run, the application
/// is given the data channel of session `id` at most once, and never before
/// the session was created, which also happens at most once.
pub proof fn theorem_transport_opens_once_after_creation(
    options: DataChannelOptions,
    events: Seq<MessageView>,
    id: u64,
)
    ensures
        forall|n: int|
            0 <= n <= events.len() ==> {
                let so_far = run_actions(EngineState::initial(options), #[trigger] events.take(n));
                count(so_far, ActionView::OpenChannel(id)) <= count(
                    so_far,
                    ActionView::CreatePeer(id, options),
                ) <= 1
            },
{
    assert forall|n: int| 0 <= n <= events.len() implies {
        let so_far = run_actions(EngineState::initial(options), #[trigger] events.take(n));
        count(so_far, ActionView::OpenChannel(id)) <= count(
            so_far,
            ActionView::CreatePeer(id, options),
        ) <= 1
    } by {
        lemma_run_history(options, events.take(n), id);
    }
}

/// Whatever events arrive, and at every point of the run, the handler of
/// session `id` is told of the end at most once, and only if it was attached,
/// that is if the data channel was given to the application before.
pub proof fn theorem_handler_told_once_if_attached(
    options: DataChannelOptions,
    events: Seq<MessageView>,
    id: u64,
)
    ensures
        forall|n: int|
            0 <= n <= events.len() ==> {
                let so_far = run_actions(EngineState::initial(options), #[trigger] events.take(n));
                count(so_far, ActionView::HandlerClose(id)) <= count(
                    so_far,
                    ActionView::OpenChannel(id),
                ) <= 1
            },
{
    assert forall|n: int| 0 <= n <= events.len() implies {
        let so_far = run_actions(EngineState::initial(options), #[trigger] events.take(n));
        count(so_far, ActionView::HandlerClose(id)) <= count(so_far, ActionView::OpenChannel(id))
            <= 1
    } by {
        lemma_run_history(options, events.take(n), id);
    }
}

/// Whatever events arrive, the peer connection of session `id` is released
/// at most once: not at all while the session is live, and exactly once for
/// a session that was created and is gone.
pub proof fn theorem_peer_released_once(
    options: DataChannelOptions,
    events: Seq<MessageView>,
    id: u64,
)
    ensures
        ({
            let state = run_state(EngineState::initial(options), events);
            let actions = run_actions(EngineState::initial(options), events);
            let created = count(actions, ActionView::CreatePeer(id, options));
            let released = count(actions, ActionView::DestroyPeer(id));
            &&& released <= created <= 1
            &&& state.is_live(id) ==> created == 1 && released == 0
            &&& !state.is_live(id) ==> released == created
        }),
{
    lemma_run_history(options, events, id);
}

/// An action that is counted stands somewhere in the list.
pub proof fn lemma_counted_is_there(actions: Seq<ActionView>, wanted: ActionView)
    requires
        count(actions, wanted) > 0,
    ensures
        exists|i: int| 0 <= i < actions.len() && actions[i] == wanted,
    decreases actions.len(),
{
    if actions.last() == wanted {
        assert(actions[actions.len() - 1] == wanted);
    } else {
        lemma_counted_is_there(actions.drop_last(), wanted);
        let i = choose|i: int| 0 <= i < actions.drop_last().len() && actions.drop_last()[i] == wanted;
        assert(actions[i] == wanted);
    }
}

/// In the actions of any run, the data channel of session `id` is given to
/// the application only after the session's peer connection was created, and
/// the handler is told of the end only after it got the data channel.
pub proof fn theorem_order_of_actions(
    options: DataChannelOptions,
    events: Seq<MessageView>,
    id: u64,
)
    ensures
        ({
            let actions = run_actions(EngineState::initial(options), events);
            &&& forall|j: int|
                0 <= j < actions.len() && #[trigger] actions[j] == ActionView::OpenChannel(id)
                    ==> exists|i: int|
                    0 <= i < j && actions[i] == ActionView::CreatePeer(id, options)
            &&& forall|j: int|
                0 <= j < actions.len() && #[trigger] actions[j] == ActionView::HandlerClose(id)
                    ==> exists|i: int| 0 <= i < j && actions[i] == ActionView::OpenChannel(id)
        }),
    decreases events.len(),
{
    let start = EngineState::initial(options);
    let actions = run_actions(start, events);
    if events.len() > 0 {
        let state = run_state(start, events.drop_last());
        let earlier = run_actions(start, events.drop_last());
        let next = state.step_actions(events.last());
        theorem_order_of_actions(options, events.drop_last(), id);
        lemma_run_history(options, events.drop_last(), id);
        assert(actions == earlier + next);
        assert forall|j: int|
            0 <= j < actions.len() && #[trigger] actions[j] == ActionView::OpenChannel(
                id,
            ) implies exists|i: int|
            0 <= i < j && actions[i] == ActionView::CreatePeer(id, options) by {
            if j < earlier.len() {
                assert(earlier[j] == ActionView::OpenChannel(id));
                let i = choose|i: int|
                    0 <= i < j && earlier[i] == ActionView::CreatePeer(id, options);
                assert(actions[i] == earlier[i]);
            } else {
                assert(next[j - earlier.len()] == ActionView::OpenChannel(id));
                assert(state.is_live(id));
                lemma_counted_is_there(earlier, ActionView::CreatePeer(id, options));
                let i = choose|i: int|
                    0 <= i < earlier.len() && earlier[i] == ActionView::CreatePeer(id, options);
                assert(actions[i] == earlier[i]);
            }
        }
        assert forall|j: int|
            0 <= j < actions.len() && #[trigger] actions[j] == ActionView::HandlerClose(
                id,
            ) implies exists|i: int| 0 <= i < j && actions[i] == ActionView::OpenChannel(id) by {
            if j < earlier.len() {
                assert(earlier[j] == ActionView::HandlerClose(id));
                let i = choose|i: int| 0 <= i < j && earlier[i] == ActionView::OpenChannel(id);
                assert(actions[i] == earlier[i]);
            } else {
                assert(next[j - earlier.len()] == ActionView::HandlerClose(id));
                assert(state.has_handler(id));
                lemma_counted_is_there(earlier, ActionView::OpenChannel(id));
                let i = choose|i: int|
                    0 <= i < earlier.len() && earlier[i] == ActionView::OpenChannel(id);
                assert(actions[i] == earlier[i]);
            }
        }
    }
}

} // verus!
