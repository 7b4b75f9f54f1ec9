//! The coordination engine: one event in, the next state and a list of
//! actions out.

use vstd::prelude::*;
use crate::event::{Action, ActionView, Message, MessageView, actions_view, messages_view};
use crate::history::{run_actions, run_state};
use crate::options::DataChannelOptions;
use crate::registry::{Phase, Registry};

verus! {

/// The engine as a mathematical value.
pub struct EngineState {
    /// The live sessions.
    pub sessions: Map<u64, Phase>,
    /// The greatest id that a session was ever created for.
    pub newest: Option<u64>,
    /// The options that every peer connection is created with.
    pub options: DataChannelOptions,
}

impl EngineState {
    /// The state before any event.
    pub open spec fn initial(options: DataChannelOptions) -> EngineState {
        EngineState { sessions: Map::empty(), newest: None, options }
    }

    /// Ids are handed out in increasing order, so an id can start a session
    /// only if it is greater than every id seen before.
    pub open spec fn is_fresh(self, id: u64) -> bool {
        match self.newest {
            None => true,
            Some(n) => n < id,
        }
    }

    pub open spec fn is_live(self, id: u64) -> bool {
        self.sessions.contains_key(id)
    }

    pub open spec fn has_handler(self, id: u64) -> bool {
        self.sessions.contains_key(id) && self.sessions[id] == Phase::Active
    }

    pub open spec fn awaits_transport(self, id: u64) -> bool {
        self.sessions.contains_key(id) && self.sessions[id] == Phase::TransportPending
    }

    pub open spec fn with_session(self, id: u64, phase: Phase) -> EngineState {
        EngineState { sessions: self.sessions.insert(id, phase), ..self }
    }

    pub open spec fn without_session(self, id: u64) -> EngineState {
        EngineState { sessions: self.sessions.remove(id), ..self }
    }

    /// No live session has an id above the newest one, and the options are
    /// ones that the transport takes.
    pub open spec fn wf(self) -> bool {
        &&& self.options.valid()
        &&& forall|id: u64| #[trigger]
            self.sessions.contains_key(id) ==> !self.is_fresh(id)
    }

    /// What ends a session: the handler, if there is one, is told first; the
    /// signaling connection is closed unless its peer already closed it; the
    /// peer connection is released last.
    pub open spec fn teardown(self, id: u64, signaling_still_open: bool) -> Seq<ActionView> {
        let told = if self.has_handler(id) {
            Seq::<ActionView>::empty().push(ActionView::HandlerClose(id))
        } else {
            Seq::<ActionView>::empty()
        };
        let closed = if signaling_still_open {
            told.push(ActionView::SignalingClose(id))
        } else {
            told
        };
        closed.push(ActionView::DestroyPeer(id))
    }

    /// The state after one event.
    pub open spec fn step_state(self, event: MessageView) -> EngineState {
        match event {
            MessageView::OnWebsocketOpen(id) => if self.is_fresh(id) {
                EngineState { newest: Some(id), ..self.with_session(id, Phase::TransportPending) }
            } else {
                self
            },
            MessageView::OnDataChannelOpen(id) => if self.awaits_transport(id) {
                self.with_session(id, Phase::Active)
            } else {
                self
            },
            MessageView::OnWebsocketClose(id) => self.without_session(id),
            MessageView::OnDataChannelClose(id) => self.without_session(id),
            MessageView::Close(id) => self.without_session(id),
            MessageView::SendWebsocketMessage(_, _) => self,
            MessageView::SendDataChannelMessage(_, _) => self,
            MessageView::GotWebsocketMessage(_, _) => self,
            MessageView::GotDataChannelMessage(_, _) => self,
        }
    }

    /// The actions that answer one event, in the order in which they are to
    /// be performed. An event for a session that is not live has none.
    pub open spec fn step_actions(self, event: MessageView) -> Seq<ActionView> {
        match event {
            MessageView::OnWebsocketOpen(id) => if self.is_fresh(id) {
                Seq::empty().push(ActionView::CreatePeer(id, self.options))
            } else {
                Seq::empty()
            },
            MessageView::OnDataChannelOpen(id) => if self.awaits_transport(id) {
                Seq::empty().push(ActionView::OpenChannel(id))
            } else {
                Seq::empty()
            },
            MessageView::OnWebsocketClose(id) => if self.is_live(id) {
                self.teardown(id, false)
            } else {
                Seq::empty()
            },
            MessageView::OnDataChannelClose(id) => if self.is_live(id) {
                self.teardown(id, true)
            } else {
                Seq::empty()
            },
            MessageView::Close(id) => if self.is_live(id) {
                self.teardown(id, true)
            } else {
                Seq::empty()
            },
            MessageView::SendWebsocketMessage(id, bytes) => if self.is_live(id) {
                Seq::empty().push(ActionView::SignalingSend(id, bytes))
            } else {
                Seq::empty()
            },
            MessageView::SendDataChannelMessage(id, bytes) => if self.is_live(id) {
                Seq::empty().push(ActionView::PeerSendData(id, bytes))
            } else {
                Seq::empty()
            },
            MessageView::GotWebsocketMessage(id, bytes) => if self.is_live(id) {
                Seq::empty().push(ActionView::PeerSendSignaling(id, bytes))
            } else {
                Seq::empty()
            },
            MessageView::GotDataChannelMessage(id, bytes) => if self.has_handler(id) {
                Seq::empty().push(ActionView::HandlerMessage(id, bytes))
            } else {
                Seq::empty()
            },
        }
    }
}

/// Whether `event` is one of the three that end session `id`.
pub open spec fn ends_session(event: MessageView, id: u64) -> bool {
    ||| event == MessageView::OnWebsocketClose(id)
    ||| event == MessageView::OnDataChannelClose(id)
    ||| event == MessageView::Close(id)
}

/// A step keeps a well-formed state well-formed.
pub proof fn lemma_step_keeps_wf(state: EngineState, event: MessageView)
    requires
        state.wf(),
    ensures
        state.step_state(event).wf(),
{
}

/// The single consumer of events: it owns the registry and decides, event by
/// event, what is to be done.
pub struct Engine {
    registry: Registry,
    newest: Option<u64>,
    options: DataChannelOptions,
}

impl View for Engine {
    type V = EngineState;

    closed spec fn view(&self) -> EngineState {
        EngineState { sessions: self.registry@, newest: self.newest, options: self.options }
    }
}

impl Engine {
    /// An engine without sessions, or nothing where the options set both
    /// retransmission limits.
    pub fn new(options: DataChannelOptions) -> (engine: Option<Engine>)
        ensures
            engine is Some <==> options.valid(),
            engine is Some ==> engine.unwrap()@ == EngineState::initial(options),
            engine is Some ==> engine.unwrap()@.wf(),
    {
        if options.is_valid() {
            Some(Engine { registry: Registry::new(), newest: None, options })
        } else {
            None
        }
    }

    pub fn options(&self) -> (options: DataChannelOptions)
        ensures
            options == self@.options,
    {
        self.options
    }

    /// The phase of session `id`, or nothing where it is not live.
    pub fn phase(&self, id: u64) -> (phase: Option<Phase>)
        ensures
            phase == (if self@.is_live(id) {
                Some(self@.sessions[id])
            } else {
                None
            }),
    {
        self.registry.get(id)
    }

    pub fn is_live(&self, id: u64) -> (live: bool)
        ensures
            live == self@.is_live(id),
    {
        self.registry.get(id).is_some()
    }

    /// The number of live sessions.
    pub fn session_count(&self) -> (n: usize)
        ensures
            n == self@.sessions.len(),
    {
        self.registry.len()
    }

    fn is_fresh(&self, id: u64) -> (fresh: bool)
        ensures
            fresh == self@.is_fresh(id),
    {
        match self.newest {
            None => true,
            Some(n) => n < id,
        }
    }

    /// Removes the live session `id` and lists what ends it.
    fn teardown(&mut self, id: u64, signaling_still_open: bool) -> (actions: Vec<Action>)
        requires
            old(self)@.is_live(id),
        ensures
            final(self)@ == old(self)@.without_session(id),
            actions_view(actions@) == old(self)@.teardown(id, signaling_still_open),
    {
        let removed = self.registry.remove(id);
        let mut actions: Vec<Action> = Vec::new();
        if removed == Some(Phase::Active) {
            actions.push(Action::HandlerClose(id));
        }
        if signaling_still_open {
            actions.push(Action::SignalingClose(id));
        }
        actions.push(Action::DestroyPeer(id));
        assert(actions_view(actions@) =~= old(self)@.teardown(id, signaling_still_open));
        actions
    }

    /// Applies one event and returns what is to be done about it, in order.
    /// Bytes pass from the event into the action unchanged.
    pub fn process(&mut self, event: Message) -> (actions: Vec<Action>)
        ensures
            final(self)@ == old(self)@.step_state(event@),
            actions_view(actions@) == old(self)@.step_actions(event@),
            old(self)@.wf() ==> final(self)@.wf(),
    {
        let ghost before = self@;
        let mut actions: Vec<Action> = Vec::new();
        match event {
            Message::OnWebsocketOpen(id) => {
                if self.is_fresh(id) {
                    self.registry.insert(id, Phase::TransportPending);
                    self.newest = Some(id);
                    actions.push(Action::CreatePeer(id, self.options));
                }
            },
            Message::OnDataChannelOpen(id) => {
                if self.registry.get(id) == Some(Phase::TransportPending) {
                    self.registry.insert(id, Phase::Active);
                    actions.push(Action::OpenChannel(id));
                }
            },
            Message::OnWebsocketClose(id) => {
                if self.is_live(id) {
                    actions = self.teardown(id, false);
                }
            },
            Message::OnDataChannelClose(id) => {
                if self.is_live(id) {
                    actions = self.teardown(id, true);
                }
            },
            Message::Close(id) => {
                if self.is_live(id) {
                    actions = self.teardown(id, true);
                }
            },
            Message::SendWebsocketMessage(id, bytes) => {
                if self.is_live(id) {
                    actions.push(Action::SignalingSend(id, bytes));
                }
            },
            Message::SendDataChannelMessage(id, bytes) => {
                if self.is_live(id) {
                    actions.push(Action::PeerSendData(id, bytes));
                }
            },
            Message::GotWebsocketMessage(id, bytes) => {
                if self.is_live(id) {
                    actions.push(Action::PeerSendSignaling(id, bytes));
                }
            },
            Message::GotDataChannelMessage(id, bytes) => {
                if self.registry.get(id) == Some(Phase::Active) {
                    actions.push(Action::HandlerMessage(id, bytes));
                }
            },
        }
        proof {
            assert(self@.sessions =~= before.step_state(event@).sessions);
            assert(actions_view(actions@) =~= before.step_actions(event@));
            if before.wf() {
                lemma_step_keeps_wf(before, event@);
            }
        }
        actions
    }

    /// Applies `events` one after the other and returns all that is to be
    /// done, in order.
    pub fn process_all(&mut self, events: Vec<Message>) -> (actions: Vec<Action>)
        ensures
            final(self)@ == run_state(old(self)@, messages_view(events@)),
            actions_view(actions@) == run_actions(old(self)@, messages_view(events@)),
            old(self)@.wf() ==> final(self)@.wf(),
    {
        let ghost start = self@;
        let ghost given = events@;
        let ghost all = messages_view(given);
        let mut rest = events;
        let mut stack: Vec<Message> = Vec::new();
        while rest.len() > 0
            invariant
                rest@.len() + stack@.len() == given.len(),
                rest@ == given.take(rest@.len() as int),
                forall|i: int| 0 <= i < stack@.len() ==> stack@[i] == given[given.len() - 1 - i],
            decreases rest@.len(),
        {
            let event = rest.pop().unwrap();
            stack.push(event);
        }
        let mut actions: Vec<Action> = Vec::new();
        assert(all.take(0) =~= Seq::<MessageView>::empty());
        assert(actions_view(actions@) =~= Seq::<ActionView>::empty());
        while stack.len() > 0
            invariant
                stack@.len() <= given.len(),
                forall|i: int| 0 <= i < stack@.len() ==> stack@[i] == given[given.len() - 1 - i],
                all == messages_view(given),
                self@ == run_state(start, all.take(given.len() - stack@.len())),
                actions_view(actions@) == run_actions(start, all.take(given.len() - stack@.len())),
                start.wf() ==> self@.wf(),
            decreases stack@.len(),
        {
            let ghost done = given.len() - stack@.len();
            let ghost earlier = actions@;
            let event = stack.pop().unwrap();
            let mut next = self.process(event);
            let ghost added = next@;
            actions.append(&mut next);
            proof {
                assert(event == given[done]);
                assert(all.take(done + 1).drop_last() =~= all.take(done));
                assert(all.take(done + 1).last() == event@);
                assert(actions_view(actions@) =~= actions_view(earlier) + actions_view(added));
            }
        }
        assert(all.take(given.len() as int) =~= all);
        actions
    }
}

impl Action {
    /// What is reported when an action could not be performed. Only sending
    /// over the signaling connection can fail; the bytes are dropped and the
    /// connection counts as closed by its peer.
    pub fn failure_event(&self) -> (event: Option<Message>)
        ensures
            match event {
                Some(reported) => failure_of(self@) == Some(reported@),
                None => failure_of(self@) is None,
            },
    {
        match self {
            Action::SignalingSend(id, _) => Some(Message::OnWebsocketClose(*id)),
            _ => None,
        }
    }
}

/// The event that stands for the failure of `action`, if any does.
pub open spec fn failure_of(action: ActionView) -> Option<MessageView> {
    match action {
        ActionView::SignalingSend(id, _) => Some(MessageView::OnWebsocketClose(id)),
        _ => None,
    }
}

/// An event for a session that is not live changes nothing and asks for
/// nothing, unless it is the one that creates a session.
pub proof fn theorem_stale_event_is_ignored(state: EngineState, event: MessageView)
    requires
        !state.is_live(event.id()),
        !(event is OnWebsocketOpen),
    ensures
        state.step_state(event) == state,
        state.step_actions(event) == Seq::<ActionView>::empty(),
{
    assert(state.step_state(event).sessions =~= state.sessions);
}

/// Once an event has ended session `id`, a second such event changes nothing
/// and asks for nothing: the handler is not told again, and nothing is
/// closed or released twice.
pub proof fn theorem_second_close_is_ignored(
    state: EngineState,
    first: MessageView,
    second: MessageView,
    id: u64,
)
    requires
        ends_session(first, id),
        ends_session(second, id),
    ensures
        !state.step_state(first).is_live(id),
        state.step_state(first).step_state(second) == state.step_state(first),
        state.step_state(first).step_actions(second) == Seq::<ActionView>::empty(),
{
    theorem_stale_event_is_ignored(state.step_state(first), second);
}

/// Bytes that the application sends for a live session give exactly one
/// action, which sends the same bytes over that session's data channel.
pub proof fn theorem_application_bytes_reach_data_channel(
    state: EngineState,
    id: u64,
    bytes: Seq<u8>,
)
    requires
        state.is_live(id),
    ensures
        state.step_actions(MessageView::SendDataChannelMessage(id, bytes)) == Seq::<
            ActionView,
        >::empty().push(ActionView::PeerSendData(id, bytes)),
        state.step_state(MessageView::SendDataChannelMessage(id, bytes)) == state,
{
}

/// Where bytes go for a live session. What arrives over the signaling
/// connection goes to the peer connection as a signaling message, before the
/// transport opens as well as after. What the transport wants sent goes over
/// the signaling connection, never to the handler. What arrives over the data
/// channel goes to the handler if there is one, and is dropped if not.
pub proof fn theorem_routing(state: EngineState, id: u64, bytes: Seq<u8>)
    requires
        state.is_live(id),
    ensures
        state.step_actions(MessageView::GotWebsocketMessage(id, bytes)) == Seq::<
            ActionView,
        >::empty().push(ActionView::PeerSendSignaling(id, bytes)),
        state.step_actions(MessageView::SendWebsocketMessage(id, bytes)) == Seq::<
            ActionView,
        >::empty().push(ActionView::SignalingSend(id, bytes)),
        state.has_handler(id) ==> state.step_actions(MessageView::GotDataChannelMessage(id, bytes))
            == Seq::<ActionView>::empty().push(ActionView::HandlerMessage(id, bytes)),
        !state.has_handler(id) ==> state.step_actions(
            MessageView::GotDataChannelMessage(id, bytes),
        ) == Seq::<ActionView>::empty(),
        state.step_state(MessageView::GotWebsocketMessage(id, bytes)) == state,
        state.step_state(MessageView::SendWebsocketMessage(id, bytes)) == state,
        state.step_state(MessageView::GotDataChannelMessage(id, bytes)) == state,
{
}

/// A live session stays live, and keeps its handler once it has one, until
/// an event ends it.
pub proof fn theorem_session_lives_until_ended(state: EngineState, event: MessageView, id: u64)
    requires
        state.wf(),
        state.is_live(id),
        !ends_session(event, id),
    ensures
        state.step_state(event).is_live(id),
        state.has_handler(id) ==> state.step_state(event).has_handler(id),
{
}

/// An event touches its own session only: every action it gives rise to is
/// for that session, and every other session stays as it was.
pub proof fn theorem_sessions_are_separate(state: EngineState, event: MessageView, other: u64)
    requires
        event.id() != other,
    ensures
        forall|i: int|
            0 <= i < state.step_actions(event).len() ==> (#[trigger] state.step_actions(
                event,
            )[i]).id() == event.id(),
        state.step_state(event).is_live(other) == state.is_live(other),
        state.is_live(other) ==> state.step_state(event).sessions[other] == state.sessions[other],
{
}

} // verus!
