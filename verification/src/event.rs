//! Events that reach the engine, actions that leave it, and their values.

use vstd::prelude::*;
use crate::options::DataChannelOptions;

verus! {

/// What a producer reports to the engine. The first field is always the id
/// of the session that the event belongs to.
#[derive(Debug, PartialEq, Eq)]
pub enum Message {
    /// A signaling connection was accepted.
    OnWebsocketOpen(u64),
    /// The transport's data channel opened.
    OnDataChannelOpen(u64),
    /// The peer closed the signaling connection.
    OnWebsocketClose(u64),
    /// The transport closed.
    OnDataChannelClose(u64),
    /// The transport wants these bytes sent over the signaling connection.
    SendWebsocketMessage(u64, Vec<u8>),
    /// The application wants these bytes sent over the data channel.
    SendDataChannelMessage(u64, Vec<u8>),
    /// These bytes arrived over the signaling connection.
    GotWebsocketMessage(u64, Vec<u8>),
    /// These bytes arrived over the data channel.
    GotDataChannelMessage(u64, Vec<u8>),
    /// The application let go of the session's data channel.
    Close(u64),
}

/// The mathematical value of a [`Message`].
pub enum MessageView {
    OnWebsocketOpen(u64),
    OnDataChannelOpen(u64),
    OnWebsocketClose(u64),
    OnDataChannelClose(u64),
    SendWebsocketMessage(u64, Seq<u8>),
    SendDataChannelMessage(u64, Seq<u8>),
    GotWebsocketMessage(u64, Seq<u8>),
    GotDataChannelMessage(u64, Seq<u8>),
    Close(u64),
}

impl View for Message {
    type V = MessageView;

    open spec fn view(&self) -> MessageView {
        match *self {
            Message::OnWebsocketOpen(id) => MessageView::OnWebsocketOpen(id),
            Message::OnDataChannelOpen(id) => MessageView::OnDataChannelOpen(id),
            Message::OnWebsocketClose(id) => MessageView::OnWebsocketClose(id),
            Message::OnDataChannelClose(id) => MessageView::OnDataChannelClose(id),
            Message::SendWebsocketMessage(id, bytes) => MessageView::SendWebsocketMessage(id, bytes@),
            Message::SendDataChannelMessage(id, bytes) => MessageView::SendDataChannelMessage(
                id,
                bytes@,
            ),
            Message::GotWebsocketMessage(id, bytes) => MessageView::GotWebsocketMessage(id, bytes@),
            Message::GotDataChannelMessage(id, bytes) => MessageView::GotDataChannelMessage(
                id,
                bytes@,
            ),
            Message::Close(id) => MessageView::Close(id),
        }
    }
}

impl MessageView {
    /// The session that the event belongs to.
    pub open spec fn id(self) -> u64 {
        match self {
            MessageView::OnWebsocketOpen(id) => id,
            MessageView::OnDataChannelOpen(id) => id,
            MessageView::OnWebsocketClose(id) => id,
            MessageView::OnDataChannelClose(id) => id,
            MessageView::SendWebsocketMessage(id, _) => id,
            MessageView::SendDataChannelMessage(id, _) => id,
            MessageView::GotWebsocketMessage(id, _) => id,
            MessageView::GotDataChannelMessage(id, _) => id,
            MessageView::Close(id) => id,
        }
    }
}

impl Message {
    pub fn id(&self) -> (id: u64)
        ensures
            id == self@.id(),
    {
        match self {
            Message::OnWebsocketOpen(id) => *id,
            Message::OnDataChannelOpen(id) => *id,
            Message::OnWebsocketClose(id) => *id,
            Message::OnDataChannelClose(id) => *id,
            Message::SendWebsocketMessage(id, _) => *id,
            Message::SendDataChannelMessage(id, _) => *id,
            Message::GotWebsocketMessage(id, _) => *id,
            Message::GotDataChannelMessage(id, _) => *id,
            Message::Close(id) => *id,
        }
    }
}

/// What the engine asks its surroundings to do in answer to an event. The
/// first field is the id of the session whose resources the action touches.
#[derive(Debug, PartialEq, Eq)]
pub enum Action {
    /// Create the session's peer connection with these options.
    CreatePeer(u64, DataChannelOptions),
    /// Hand the session's data channel to the application and keep the
    /// handler that it returns.
    OpenChannel(u64),
    /// Pass these bytes to the peer connection as a signaling message.
    PeerSendSignaling(u64, Vec<u8>),
    /// Send these bytes over the peer connection's data channel.
    PeerSendData(u64, Vec<u8>),
    /// Send these bytes over the signaling connection.
    SignalingSend(u64, Vec<u8>),
    /// Close the signaling connection.
    SignalingClose(u64),
    /// Give these bytes to the session's handler.
    HandlerMessage(u64, Vec<u8>),
    /// Tell the session's handler that the session has ended.
    HandlerClose(u64),
    /// Release the session's peer connection.
    DestroyPeer(u64),
}

/// The mathematical value of an [`Action`].
pub enum ActionView {
    CreatePeer(u64, DataChannelOptions),
    OpenChannel(u64),
    PeerSendSignaling(u64, Seq<u8>),
    PeerSendData(u64, Seq<u8>),
    SignalingSend(u64, Seq<u8>),
    SignalingClose(u64),
    HandlerMessage(u64, Seq<u8>),
    HandlerClose(u64),
    DestroyPeer(u64),
}

impl View for Action {
    type V = ActionView;

    open spec fn view(&self) -> ActionView {
        match *self {
            Action::CreatePeer(id, options) => ActionView::CreatePeer(id, options),
            Action::OpenChannel(id) => ActionView::OpenChannel(id),
            Action::PeerSendSignaling(id, bytes) => ActionView::PeerSendSignaling(id, bytes@),
            Action::PeerSendData(id, bytes) => ActionView::PeerSendData(id, bytes@),
            Action::SignalingSend(id, bytes) => ActionView::SignalingSend(id, bytes@),
            Action::SignalingClose(id) => ActionView::SignalingClose(id),
            Action::HandlerMessage(id, bytes) => ActionView::HandlerMessage(id, bytes@),
            Action::HandlerClose(id) => ActionView::HandlerClose(id),
            Action::DestroyPeer(id) => ActionView::DestroyPeer(id),
        }
    }
}

impl ActionView {
    /// The session whose resources the action touches.
    pub open spec fn id(self) -> u64 {
        match self {
            ActionView::CreatePeer(id, _) => id,
            ActionView::OpenChannel(id) => id,
            ActionView::PeerSendSignaling(id, _) => id,
            ActionView::PeerSendData(id, _) => id,
            ActionView::SignalingSend(id, _) => id,
            ActionView::SignalingClose(id) => id,
            ActionView::HandlerMessage(id, _) => id,
            ActionView::HandlerClose(id) => id,
            ActionView::DestroyPeer(id) => id,
        }
    }
}

/// The values of a list of messages, in order.
pub open spec fn messages_view(messages: Seq<Message>) -> Seq<MessageView> {
    Seq::new(messages.len(), |i: int| messages[i]@)
}

/// The values of a list of actions, in order.
pub open spec fn actions_view(actions: Seq<Action>) -> Seq<ActionView> {
    Seq::new(actions.len(), |i: int| actions[i]@)
}

} // verus!
