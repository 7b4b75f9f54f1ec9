use datachannel::engine::Engine;
use datachannel::event::{Action, Message};
use datachannel::options::DataChannelOptions;
use datachannel::registry::{Phase, Registry};

fn options() -> DataChannelOptions {
    DataChannelOptions { ordered: true, max_retransmit_time: -1, max_retransmits: -1 }
}

fn engine() -> Engine {
    Engine::new(options()).unwrap()
}

fn count(actions: &[Action], wanted: &Action) -> usize {
    actions.iter().filter(|a| *a == wanted).count()
}

fn scenario() -> Vec<Message> {
    vec![
        Message::OnWebsocketOpen(0),
        Message::GotWebsocketMessage(0, b"offer".to_vec()),
        Message::OnDataChannelOpen(0),
        Message::GotDataChannelMessage(0, b"hello".to_vec()),
        Message::OnWebsocketClose(0),
        Message::GotDataChannelMessage(0, b"stray".to_vec()),
    ]
}

fn run(engine: &mut Engine, events: Vec<Message>) -> Vec<Action> {
    let mut all = Vec::new();
    for event in events {
        all.extend(engine.process(event));
    }
    all
}

#[test]
fn end_to_end_session() {
    let mut e = engine();
    assert_eq!(e.process(Message::OnWebsocketOpen(0)), vec![Action::CreatePeer(0, options())]);
    assert_eq!(e.phase(0), Some(Phase::TransportPending));
    assert_eq!(
        e.process(Message::GotWebsocketMessage(0, b"offer".to_vec())),
        vec![Action::PeerSendSignaling(0, b"offer".to_vec())]
    );
    assert_eq!(e.process(Message::OnDataChannelOpen(0)), vec![Action::OpenChannel(0)]);
    assert_eq!(e.phase(0), Some(Phase::Active));
    assert_eq!(
        e.process(Message::GotDataChannelMessage(0, b"hello".to_vec())),
        vec![Action::HandlerMessage(0, b"hello".to_vec())]
    );
    assert_eq!(
        e.process(Message::OnWebsocketClose(0)),
        vec![Action::HandlerClose(0), Action::DestroyPeer(0)]
    );
    assert!(!e.is_live(0));
    assert_eq!(e.phase(0), None);
    assert_eq!(e.session_count(), 0);
    assert_eq!(e.process(Message::GotDataChannelMessage(0, b"stray".to_vec())), vec![]);
    assert!(!e.is_live(0));
}

#[test]
fn transport_open_is_answered_once() {
    let mut e = engine();
    let actions = run(
        &mut e,
        vec![
            Message::OnDataChannelOpen(3),
            Message::OnWebsocketOpen(3),
            Message::OnDataChannelOpen(3),
            Message::OnDataChannelOpen(3),
        ],
    );
    assert_eq!(actions, vec![Action::CreatePeer(3, options()), Action::OpenChannel(3)]);
    assert_eq!(e.phase(3), Some(Phase::Active));
}

#[test]
fn transport_open_before_signaling_open_is_ignored() {
    let mut e = engine();
    assert_eq!(e.process(Message::OnDataChannelOpen(0)), vec![]);
    assert!(!e.is_live(0));
    assert_eq!(e.session_count(), 0);
}

#[test]
fn handler_is_told_of_the_end_once() {
    let mut e = engine();
    let actions = run(
        &mut e,
        vec![
            Message::OnWebsocketOpen(0),
            Message::OnDataChannelOpen(0),
            Message::OnDataChannelClose(0),
            Message::OnWebsocketClose(0),
            Message::Close(0),
        ],
    );
    assert_eq!(count(&actions, &Action::HandlerClose(0)), 1);
    assert_eq!(count(&actions, &Action::DestroyPeer(0)), 1);
    assert_eq!(count(&actions, &Action::SignalingClose(0)), 1);
}

#[test]
fn handler_is_not_told_when_none_was_attached() {
    let mut e = engine();
    e.process(Message::OnWebsocketOpen(0));
    assert_eq!(e.process(Message::OnWebsocketClose(0)), vec![Action::DestroyPeer(0)]);
    assert!(!e.is_live(0));
}

#[test]
fn second_close_changes_nothing() {
    let mut e = engine();
    e.process(Message::OnWebsocketOpen(0));
    e.process(Message::OnWebsocketOpen(1));
    e.process(Message::OnDataChannelOpen(0));
    assert_eq!(
        e.process(Message::OnDataChannelClose(0)),
        vec![Action::HandlerClose(0), Action::SignalingClose(0), Action::DestroyPeer(0)]
    );
    assert_eq!(e.session_count(), 1);
    assert_eq!(e.process(Message::OnDataChannelClose(0)), vec![]);
    assert_eq!(e.process(Message::OnWebsocketClose(0)), vec![]);
    assert_eq!(e.process(Message::Close(0)), vec![]);
    assert_eq!(e.session_count(), 1);
    assert_eq!(e.phase(1), Some(Phase::TransportPending));
}

#[test]
fn application_bytes_go_to_the_data_channel_unchanged() {
    let mut e = engine();
    e.process(Message::OnWebsocketOpen(0));
    e.process(Message::OnDataChannelOpen(0));
    let bytes = vec![0u8, 255, 10, 13, 0];
    assert_eq!(
        e.process(Message::SendDataChannelMessage(0, bytes.clone())),
        vec![Action::PeerSendData(0, bytes)]
    );
    assert_eq!(e.process(Message::SendDataChannelMessage(0, vec![])), vec![Action::PeerSendData(0, vec![])]);
    assert_eq!(e.phase(0), Some(Phase::Active));
}

#[test]
fn routing_before_and_after_transport_open() {
    let mut e = engine();
    e.process(Message::OnWebsocketOpen(0));
    assert_eq!(
        e.process(Message::GotWebsocketMessage(0, b"offer".to_vec())),
        vec![Action::PeerSendSignaling(0, b"offer".to_vec())]
    );
    assert_eq!(
        e.process(Message::SendWebsocketMessage(0, b"answer".to_vec())),
        vec![Action::SignalingSend(0, b"answer".to_vec())]
    );
    assert_eq!(e.process(Message::GotDataChannelMessage(0, b"early".to_vec())), vec![]);
    e.process(Message::OnDataChannelOpen(0));
    assert_eq!(
        e.process(Message::GotDataChannelMessage(0, b"data".to_vec())),
        vec![Action::HandlerMessage(0, b"data".to_vec())]
    );
    assert_eq!(
        e.process(Message::SendWebsocketMessage(0, b"candidate".to_vec())),
        vec![Action::SignalingSend(0, b"candidate".to_vec())]
    );
    assert_eq!(
        e.process(Message::GotWebsocketMessage(0, b"renegotiate".to_vec())),
        vec![Action::PeerSendSignaling(0, b"renegotiate".to_vec())]
    );
}

#[test]
fn events_for_unknown_sessions_are_ignored() {
    let mut e = engine();
    e.process(Message::OnWebsocketOpen(0));
    let stale = vec![
        Message::OnDataChannelOpen(9),
        Message::OnWebsocketClose(9),
        Message::OnDataChannelClose(9),
        Message::SendWebsocketMessage(9, vec![1]),
        Message::SendDataChannelMessage(9, vec![2]),
        Message::GotWebsocketMessage(9, vec![3]),
        Message::GotDataChannelMessage(9, vec![4]),
        Message::Close(9),
    ];
    assert_eq!(run(&mut e, stale), vec![]);
    assert_eq!(e.session_count(), 1);
    assert_eq!(e.phase(0), Some(Phase::TransportPending));
}

#[test]
fn ids_are_not_reused() {
    let mut e = engine();
    assert_eq!(e.process(Message::OnWebsocketOpen(5)), vec![Action::CreatePeer(5, options())]);
    assert_eq!(e.process(Message::OnWebsocketOpen(5)), vec![]);
    assert_eq!(e.process(Message::OnWebsocketOpen(2)), vec![]);
    assert!(!e.is_live(2));
    e.process(Message::OnDataChannelOpen(5));
    e.process(Message::Close(5));
    assert_eq!(e.process(Message::OnWebsocketOpen(5)), vec![]);
    assert!(!e.is_live(5));
    assert_eq!(e.process(Message::OnWebsocketOpen(6)), vec![Action::CreatePeer(6, options())]);
    assert_eq!(e.process(Message::OnWebsocketOpen(u64::MAX)), vec![Action::CreatePeer(u64::MAX, options())]);
    assert_eq!(e.session_count(), 2);
}

#[test]
fn facade_teardown_ends_the_session() {
    let mut e = engine();
    e.process(Message::OnWebsocketOpen(0));
    e.process(Message::OnDataChannelOpen(0));
    assert_eq!(
        e.process(Message::Close(0)),
        vec![Action::HandlerClose(0), Action::SignalingClose(0), Action::DestroyPeer(0)]
    );
    assert!(!e.is_live(0));
}

#[test]
fn transport_close_before_open_closes_signaling() {
    let mut e = engine();
    e.process(Message::OnWebsocketOpen(0));
    assert_eq!(
        e.process(Message::OnDataChannelClose(0)),
        vec![Action::SignalingClose(0), Action::DestroyPeer(0)]
    );
}

#[test]
fn sessions_do_not_share_state() {
    let mut e = engine();
    e.process(Message::OnWebsocketOpen(0));
    e.process(Message::OnWebsocketOpen(1));
    e.process(Message::OnDataChannelOpen(1));
    assert_eq!(e.phase(0), Some(Phase::TransportPending));
    assert_eq!(e.phase(1), Some(Phase::Active));
    assert_eq!(e.process(Message::GotDataChannelMessage(0, vec![1])), vec![]);
    assert_eq!(
        e.process(Message::GotDataChannelMessage(1, vec![1])),
        vec![Action::HandlerMessage(1, vec![1])]
    );
    e.process(Message::OnWebsocketClose(1));
    assert!(e.is_live(0));
    assert!(!e.is_live(1));
}

#[test]
fn peers_are_created_with_the_engine_options() {
    let chosen = DataChannelOptions { ordered: false, max_retransmit_time: -1, max_retransmits: 3 };
    let mut e = Engine::new(chosen).unwrap();
    assert_eq!(e.options(), chosen);
    assert_eq!(e.process(Message::OnWebsocketOpen(0)), vec![Action::CreatePeer(0, chosen)]);
}

#[test]
fn both_retransmission_limits_are_refused() {
    let both = DataChannelOptions { ordered: true, max_retransmit_time: 100, max_retransmits: 3 };
    assert!(!both.is_valid());
    assert!(Engine::new(both).is_none());
    let zero = DataChannelOptions { ordered: true, max_retransmit_time: 0, max_retransmits: 0 };
    assert!(!zero.is_valid());
    let time_only = DataChannelOptions { ordered: true, max_retransmit_time: 100, max_retransmits: -1 };
    assert!(time_only.is_valid());
    assert!(Engine::new(time_only).is_some());
    let count_only = DataChannelOptions { ordered: false, max_retransmit_time: -7, max_retransmits: 0 };
    assert!(count_only.is_valid());
}

#[test]
fn reliable_options_set_no_limit() {
    let o = DataChannelOptions::reliable(true);
    assert_eq!(o, options());
    assert!(o.is_valid());
    assert!(!DataChannelOptions::reliable(false).ordered);
}

#[test]
fn message_id_is_its_first_field() {
    assert_eq!(Message::OnWebsocketOpen(1).id(), 1);
    assert_eq!(Message::OnDataChannelOpen(2).id(), 2);
    assert_eq!(Message::OnWebsocketClose(3).id(), 3);
    assert_eq!(Message::OnDataChannelClose(4).id(), 4);
    assert_eq!(Message::SendWebsocketMessage(5, vec![9]).id(), 5);
    assert_eq!(Message::SendDataChannelMessage(6, vec![9]).id(), 6);
    assert_eq!(Message::GotWebsocketMessage(7, vec![9]).id(), 7);
    assert_eq!(Message::GotDataChannelMessage(8, vec![9]).id(), 8);
    assert_eq!(Message::Close(9).id(), 9);
}

#[test]
fn registry_insert_get_remove() {
    let mut r = Registry::new();
    assert_eq!(r.len(), 0);
    assert_eq!(r.get(1), None);
    r.insert(1, Phase::TransportPending);
    r.insert(2, Phase::Active);
    assert_eq!(r.get(1), Some(Phase::TransportPending));
    r.insert(1, Phase::Active);
    assert_eq!(r.get(1), Some(Phase::Active));
    assert_eq!(r.len(), 2);
    assert_eq!(r.remove(1), Some(Phase::Active));
    assert_eq!(r.remove(1), None);
    assert_eq!(r.get(1), None);
    assert_eq!(r.get(2), Some(Phase::Active));
    assert_eq!(r.len(), 1);
}

#[test]
fn batch_gives_the_actions_of_each_event_in_order() {
    let mut one_by_one = engine();
    let expected = run(&mut one_by_one, scenario());
    let mut e = engine();
    let actions = e.process_all(scenario());
    assert_eq!(actions, expected);
    assert_eq!(
        actions,
        vec![
            Action::CreatePeer(0, options()),
            Action::PeerSendSignaling(0, b"offer".to_vec()),
            Action::OpenChannel(0),
            Action::HandlerMessage(0, b"hello".to_vec()),
            Action::HandlerClose(0),
            Action::DestroyPeer(0),
        ]
    );
    assert!(!e.is_live(0));
    assert_eq!(e.process_all(vec![]), vec![]);
}

#[test]
fn creation_comes_before_opening_and_opening_before_the_end() {
    let mut e = engine();
    let actions = e.process_all(vec![
        Message::OnDataChannelClose(1),
        Message::OnDataChannelOpen(1),
        Message::OnWebsocketOpen(1),
        Message::OnDataChannelOpen(1),
        Message::Close(1),
        Message::OnDataChannelOpen(1),
        Message::OnWebsocketOpen(1),
    ]);
    let created = actions.iter().position(|a| *a == Action::CreatePeer(1, options())).unwrap();
    let opened = actions.iter().position(|a| *a == Action::OpenChannel(1)).unwrap();
    let told = actions.iter().position(|a| *a == Action::HandlerClose(1)).unwrap();
    assert!(created < opened && opened < told);
    assert_eq!(count(&actions, &Action::CreatePeer(1, options())), 1);
    assert_eq!(count(&actions, &Action::OpenChannel(1)), 1);
    assert_eq!(count(&actions, &Action::HandlerClose(1)), 1);
    assert_eq!(count(&actions, &Action::DestroyPeer(1)), 1);
    assert_eq!(actions.len(), 5);
}

#[test]
fn only_a_failed_signaling_send_counts_as_a_close() {
    assert_eq!(
        Action::SignalingSend(3, b"answer".to_vec()).failure_event(),
        Some(Message::OnWebsocketClose(3))
    );
    assert_eq!(Action::CreatePeer(3, options()).failure_event(), None);
    assert_eq!(Action::OpenChannel(3).failure_event(), None);
    assert_eq!(Action::PeerSendSignaling(3, vec![1]).failure_event(), None);
    assert_eq!(Action::PeerSendData(3, vec![1]).failure_event(), None);
    assert_eq!(Action::SignalingClose(3).failure_event(), None);
    assert_eq!(Action::HandlerMessage(3, vec![1]).failure_event(), None);
    assert_eq!(Action::HandlerClose(3).failure_event(), None);
    assert_eq!(Action::DestroyPeer(3).failure_event(), None);
}

#[test]
fn failed_signaling_send_ends_the_session() {
    let mut e = engine();
    e.process(Message::OnWebsocketOpen(0));
    e.process(Message::OnDataChannelOpen(0));
    let actions = e.process(Message::SendWebsocketMessage(0, b"answer".to_vec()));
    let failure = actions[0].failure_event().unwrap();
    assert_eq!(e.process(failure), vec![Action::HandlerClose(0), Action::DestroyPeer(0)]);
    assert!(!e.is_live(0));
}
