//! The producers: each turns what its side reports into events for the
//! engine and keeps them in an outbox until they are handed on.

use vstd::prelude::*;
use vstd::slice::slice_to_vec;
use crate::channel::DataChannel;
use crate::event::{Message, MessageView, messages_view};

verus! {

/// The events that a producer has made and not yet handed on, oldest first.
pub struct Outbox {
    events: Vec<Message>,
}

impl View for Outbox {
    type V = Seq<MessageView>;

    closed spec fn view(&self) -> Seq<MessageView> {
        messages_view(self.events@)
    }
}

impl Outbox {
    pub fn new() -> (outbox: Outbox)
        ensures
            outbox@ == Seq::<MessageView>::empty(),
    {
        let outbox = Outbox { events: Vec::new() };
        assert(outbox@ =~= Seq::<MessageView>::empty());
        outbox
    }

    /// Adds `event` behind the others.
    pub fn push(&mut self, event: Message)
        ensures
            final(self)@ == old(self)@.push(event@),
    {
        self.events.push(event);
        assert(self@ =~= old(self)@.push(event@));
    }

    /// Empties the outbox and returns what it held, oldest first.
    pub fn take(&mut self) -> (events: Vec<Message>)
        ensures
            messages_view(events@) == old(self)@,
            final(self)@ == Seq::<MessageView>::empty(),
    {
        let mut events: Vec<Message> = Vec::new();
        std::mem::swap(&mut self.events, &mut events);
        assert(self@ =~= Seq::<MessageView>::empty());
        events
    }

    pub fn len(&self) -> (n: usize)
        ensures
            n == self@.len(),
    {
        self.events.len()
    }
}

/// Receives what one peer connection reports.
pub trait PeerConnectionObserver {
    fn on_open(&mut self);

    fn on_close(&mut self);

    fn process_websocket_message(&mut self, message: &[u8]);

    fn process_data_channel_message(&mut self, data: &[u8]);
}

/// Turns what the peer connection of session `id` reports into events.
pub struct Observer {
    pub id: u64,
    pub outbox: Outbox,
}

impl Observer {
    pub fn new(id: u64) -> (observer: Observer)
        ensures
            observer.id == id,
            observer.outbox@ == Seq::<MessageView>::empty(),
    {
        Observer { id, outbox: Outbox::new() }
    }
}

impl PeerConnectionObserver for Observer {
    fn on_open(&mut self)
        ensures
            final(self).id == old(self).id,
            final(self).outbox@ == old(self).outbox@.push(
                MessageView::OnDataChannelOpen(old(self).id),
            ),
    {
        self.outbox.push(Message::OnDataChannelOpen(self.id));
    }

    fn on_close(&mut self)
        ensures
            final(self).id == old(self).id,
            final(self).outbox@ == old(self).outbox@.push(
                MessageView::OnDataChannelClose(old(self).id),
            ),
    {
        self.outbox.push(Message::OnDataChannelClose(self.id));
    }

    fn process_websocket_message(&mut self, message: &[u8])
        ensures
            final(self).id == old(self).id,
            final(self).outbox@ == old(self).outbox@.push(
                MessageView::SendWebsocketMessage(old(self).id, message@),
            ),
    {
        self.outbox.push(Message::SendWebsocketMessage(self.id, slice_to_vec(message)));
    }

    fn process_data_channel_message(&mut self, data: &[u8])
        ensures
            final(self).id == old(self).id,
            final(self).outbox@ == old(self).outbox@.push(
                MessageView::GotDataChannelMessage(old(self).id, data@),
            ),
    {
        self.outbox.push(Message::GotDataChannelMessage(self.id, slice_to_vec(data)));
    }
}

/// The application's side of the data channel of session `id`. Sending
/// makes an event, so that only the engine ever touches the peer connection.
pub struct ServerDataChannel {
    pub id: u64,
    pub outbox: Outbox,
}

impl ServerDataChannel {
    pub fn new(id: u64) -> (channel: ServerDataChannel)
        ensures
            channel.id == id,
            channel.outbox@ == Seq::<MessageView>::empty(),
    {
        ServerDataChannel { id, outbox: Outbox::new() }
    }

    /// The event that reports that the application let go of the channel.
    pub fn close(self) -> (events: Vec<Message>)
        ensures
            messages_view(events@) == self.outbox@.push(MessageView::Close(self.id)),
    {
        let mut channel = self;
        channel.outbox.push(Message::Close(channel.id));
        channel.outbox.take()
    }
}

impl DataChannel for ServerDataChannel {
    fn send(&mut self, message: &[u8])
        ensures
            final(self).id == old(self).id,
            final(self).outbox@ == old(self).outbox@.push(
                MessageView::SendDataChannelMessage(old(self).id, message@),
            ),
    {
        self.outbox.push(Message::SendDataChannelMessage(self.id, slice_to_vec(message)));
    }
}

/// Turns what the signaling connection of session `id` reports into events.
pub struct WsHandler {
    pub id: u64,
    pub outbox: Outbox,
}

impl WsHandler {
    pub fn on_message(&mut self, data: Vec<u8>)
        ensures
            final(self).id == old(self).id,
            final(self).outbox@ == old(self).outbox@.push(
                MessageView::GotWebsocketMessage(old(self).id, data@),
            ),
    {
        self.outbox.push(Message::GotWebsocketMessage(self.id, data));
    }

    pub fn on_close(&mut self)
        ensures
            final(self).id == old(self).id,
            final(self).outbox@ == old(self).outbox@.push(
                MessageView::OnWebsocketClose(old(self).id),
            ),
    {
        self.outbox.push(Message::OnWebsocketClose(self.id));
    }
}

/// Gives each accepted signaling connection the next session id, counting
/// from 0, so that no id is given twice.
pub struct Acceptor {
    pub next_id: u64,
    pub outbox: Outbox,
}

impl Acceptor {
    pub fn new() -> (acceptor: Acceptor)
        ensures
            acceptor.next_id == 0,
            acceptor.outbox@ == Seq::<MessageView>::empty(),
    {
        Acceptor { next_id: 0, outbox: Outbox::new() }
    }

    /// Takes in one connection: reports it under the next id and returns the
    /// handler bound to that id. Nothing where the ids have run out.
    pub fn accept(&mut self) -> (handler: Option<WsHandler>)
        ensures
            handler is Some <==> old(self).next_id < u64::MAX,
            handler is Some ==> {
                &&& handler.unwrap().id == old(self).next_id
                &&& handler.unwrap().outbox@ == Seq::<MessageView>::empty()
                &&& final(self).next_id == old(self).next_id + 1
                &&& final(self).outbox@ == old(self).outbox@.push(
                    MessageView::OnWebsocketOpen(old(self).next_id),
                )
            },
            handler is None ==> final(self).next_id == old(self).next_id && final(self).outbox@
                == old(self).outbox@,
    {
        if self.next_id < u64::MAX {
            let id: u64 = self.next_id;
            self.next_id = id + 1;
            self.outbox.push(Message::OnWebsocketOpen(id));
            Some(WsHandler { id, outbox: Outbox::new() })
        } else {
            None
        }
    }
}

} // verus!
