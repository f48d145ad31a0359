use peer_relay::frame::{keepalive_frame, Delivery, Frame, Handle};
use peer_relay::hub::Hub;
use peer_relay::model::Phase;
use peer_relay::session::Session;
use peer_relay::KEEPALIVE_SECS;

fn active(hub: &mut Hub, id: &str, slot: u64) -> Session {
    let mut session = Session::new(id.to_string(), Handle { slot });
    session.start(hub);
    session
}

#[test]
fn keepalive_is_an_empty_ping_every_thirty_seconds() {
    assert_eq!(KEEPALIVE_SECS, 30);
    assert_eq!(keepalive_frame(), Frame::Ping(vec![]));
}

#[test]
fn new_session_is_connecting_and_unregistered() {
    let hub = Hub::new();
    let session = Session::new("A".to_string(), Handle { slot: 1 });
    assert_eq!(session.phase(), Phase::Connecting);
    assert!(!session.is_active());
    assert_eq!(session.id(), "A");
    assert_eq!(session.handle(), Handle { slot: 1 });
    assert_eq!(session.peer(), None);
    assert_eq!(hub.registry.get("A"), None);
}

#[test]
fn generated_session_has_a_hyphenated_id() {
    let session = Session::generate(Handle { slot: 3 });
    let id = session.id();
    assert_eq!(id.len(), 36);
    for (i, c) in id.chars().enumerate() {
        if i == 8 || i == 13 || i == 18 || i == 23 {
            assert_eq!(c, '-');
        } else {
            assert!(c.is_ascii_digit() || ('a'..='f').contains(&c));
        }
    }
    assert_eq!(session.handle(), Handle { slot: 3 });
    assert_eq!(session.phase(), Phase::Connecting);
    assert_eq!(session.peer(), None);
}

#[test]
fn generated_sessions_have_distinct_ids() {
    let first = Session::generate(Handle { slot: 1 });
    let second = Session::generate(Handle { slot: 2 });
    assert_ne!(first.id(), second.id());
}

#[test]
fn start_registers_and_activates() {
    let mut hub = Hub::new();
    let mut session = Session::new("A".to_string(), Handle { slot: 1 });
    session.start(&mut hub);
    assert_eq!(session.phase(), Phase::Active);
    assert!(session.is_active());
    assert_eq!(hub.registry.get("A"), Some(Handle { slot: 1 }));
    assert_eq!(hub.registry.len(), 1);
}

#[test]
fn start_of_a_started_session_does_nothing() {
    let mut hub = Hub::new();
    let mut session = active(&mut hub, "A", 1);
    hub.registry.put("A".to_string(), Handle { slot: 9 });
    session.start(&mut hub);
    assert_eq!(session.phase(), Phase::Active);
    assert_eq!(hub.registry.get("A"), Some(Handle { slot: 9 }));
}

#[test]
fn a_closed_session_cannot_start_again() {
    let mut hub = Hub::new();
    let mut session = active(&mut hub, "A", 1);
    session.close(&mut hub);
    session.start(&mut hub);
    assert_eq!(session.phase(), Phase::Closed);
    assert_eq!(hub.registry.get("A"), None);
}

#[test]
fn duty_exit_begins_closing() {
    let mut hub = Hub::new();
    let mut session = active(&mut hub, "A", 1);
    session.duty_exited();
    assert_eq!(session.phase(), Phase::Closing);
    assert!(!session.is_active());
    assert_eq!(hub.registry.get("A"), Some(Handle { slot: 1 }));
    session.duty_exited();
    assert_eq!(session.phase(), Phase::Closing);
}

#[test]
fn duty_exit_before_start_changes_nothing() {
    let mut session = Session::new("A".to_string(), Handle { slot: 1 });
    session.duty_exited();
    assert_eq!(session.phase(), Phase::Connecting);
}

#[test]
fn close_removes_the_id() {
    let mut hub = Hub::new();
    let mut a = active(&mut hub, "A", 1);
    let _b = active(&mut hub, "B", 2);
    a.duty_exited();
    a.close(&mut hub);
    assert_eq!(a.phase(), Phase::Closed);
    assert_eq!(hub.registry.get("A"), None);
    assert_eq!(hub.registry.get("B"), Some(Handle { slot: 2 }));
    assert_eq!(hub.registry.len(), 1);
}

#[test]
fn abrupt_disconnect_makes_the_id_unreachable() {
    let mut hub = Hub::new();
    let mut a = active(&mut hub, "A", 1);
    let mut b = active(&mut hub, "B", 2);
    let text = r#"{"target_id":"A","n":1}"#;
    assert_eq!(
        b.on_text(&mut hub, text.to_string()),
        vec![Delivery { to: Handle { slot: 1 }, frame: Frame::Text(text.to_string()) }]
    );

    a.duty_exited();
    a.close(&mut hub);
    assert_eq!(hub.registry.get("A"), None);
    assert_eq!(b.on_text(&mut hub, text.to_string()), vec![]);
    assert_eq!(b.on_binary(&hub, vec![1, 2, 3]), vec![]);
    assert!(b.is_active());
}

#[test]
fn close_from_any_phase_removes_the_id() {
    let mut hub = Hub::new();
    let mut connecting = Session::new("A".to_string(), Handle { slot: 1 });
    hub.registry.put("A".to_string(), Handle { slot: 5 });
    connecting.close(&mut hub);
    assert_eq!(connecting.phase(), Phase::Closed);
    assert_eq!(hub.registry.get("A"), None);

    let mut running = active(&mut hub, "B", 2);
    running.close(&mut hub);
    assert_eq!(running.phase(), Phase::Closed);
    assert_eq!(hub.registry.get("B"), None);
}

#[test]
fn close_twice_removes_once() {
    let mut hub = Hub::new();
    let mut a = active(&mut hub, "A", 1);
    a.close(&mut hub);
    hub.registry.put("A".to_string(), Handle { slot: 7 });
    a.close(&mut hub);
    assert_eq!(a.phase(), Phase::Closed);
    assert_eq!(hub.registry.get("A"), Some(Handle { slot: 7 }));
}

#[test]
fn close_leaves_aliases_behind() {
    let mut hub = Hub::new();
    let mut a = active(&mut hub, "A", 1);
    a.on_text(&mut hub, r#"{"type":"register","connectionId":"alice"}"#.to_string());
    a.close(&mut hub);
    assert_eq!(hub.registry.get("A"), None);
    assert_eq!(hub.registry.get("alice"), Some(Handle { slot: 1 }));
}

#[test]
fn close_frame_stops_the_session() {
    let mut hub = Hub::new();
    let mut a = active(&mut hub, "A", 1);
    let _b = active(&mut hub, "B", 2);
    assert_eq!(a.on_frame(&mut hub, Frame::Close), vec![]);
    assert_eq!(a.phase(), Phase::Closing);
    assert!(!a.is_active());
    let text = r#"{"target_id":"B"}"#;
    assert_eq!(a.on_frame(&mut hub, Frame::Text(text.to_string())), vec![]);
    assert_eq!(a.peer(), None);
}

#[test]
fn ping_and_pong_pass_unnoticed() {
    let mut hub = Hub::new();
    let mut a = active(&mut hub, "A", 1);
    let _b = active(&mut hub, "B", 2);
    a.on_text(&mut hub, r#"{"target_id":"B"}"#.to_string());
    assert_eq!(a.on_frame(&mut hub, Frame::Ping(vec![1, 2])), vec![]);
    assert_eq!(a.on_frame(&mut hub, Frame::Pong(vec![])), vec![]);
    assert!(a.is_active());
    assert_eq!(a.peer(), Some("B"));
    assert_eq!(hub.registry.len(), 2);
}

#[test]
fn on_frame_routes_text_and_binary() {
    let mut hub = Hub::new();
    let mut a = active(&mut hub, "A", 1);
    let _b = active(&mut hub, "B", 2);
    let text = r#"{"target_id":"B","k":"v"}"#;
    assert_eq!(
        a.on_frame(&mut hub, Frame::Text(text.to_string())),
        vec![Delivery { to: Handle { slot: 2 }, frame: Frame::Text(text.to_string()) }]
    );
    assert_eq!(
        a.on_frame(&mut hub, Frame::Binary(vec![1, 2, 3])),
        vec![Delivery { to: Handle { slot: 2 }, frame: Frame::Binary(vec![1, 2, 3]) }]
    );
    assert!(a.is_active());
}

#[test]
fn on_frame_announces_a_transfer() {
    let mut hub = Hub::new();
    let mut a = active(&mut hub, "A", 1);
    let text = r#"{"type":"init_transfer","file_name":"a.txt","file_size":100}"#;
    let out = a.on_frame(&mut hub, Frame::Text(text.to_string()));
    assert_eq!(out.len(), 1);
    assert_eq!(out[0].to, Handle { slot: 1 });
    assert_eq!(hub.transfers.len(), 1);
}

#[test]
fn a_session_that_is_not_active_routes_nothing() {
    let mut hub = Hub::new();
    let _b = active(&mut hub, "B", 2);
    hub.transfers.insert(
        "t-1".to_string(),
        peer_relay::transfer::TransferInfo {
            file_name: "a.txt".to_string(),
            file_size: 1,
            sender_id: "B".to_string(),
        },
    );
    let mut a = Session::new("A".to_string(), Handle { slot: 1 });
    assert_eq!(a.on_text(&mut hub, r#"{"target_id":"B"}"#.to_string()), vec![]);
    assert_eq!(a.on_text(&mut hub, r#"{"type":"register","connectionId":"x"}"#.to_string()), vec![]);
    let init = r#"{"type":"init_transfer","file_name":"a.txt","file_size":100}"#;
    assert_eq!(a.on_text(&mut hub, init.to_string()), vec![]);
    assert_eq!(a.join(&hub, "t-1"), vec![]);
    assert_eq!(a.on_binary(&hub, vec![1]), vec![]);
    assert_eq!(a.peer(), None);
    assert_eq!(a.phase(), Phase::Connecting);
    assert_eq!(hub.registry.len(), 1);
    assert_eq!(hub.registry.get("x"), None);
    assert_eq!(hub.transfers.len(), 1);
}

#[test]
fn plain_connect_starts_an_unpaired_session() {
    let mut hub = Hub::new();
    let (session, out) = Session::connect(&mut hub, Handle { slot: 4 }, None);
    assert_eq!(out, vec![]);
    assert!(session.is_active());
    assert_eq!(session.peer(), None);
    assert_eq!(session.handle(), Handle { slot: 4 });
    assert_eq!(session.id().len(), 36);
    assert_eq!(hub.registry.get(session.id()), Some(Handle { slot: 4 }));
    assert_eq!(hub.registry.len(), 1);
}

#[test]
fn connect_with_a_transfer_joins_it() {
    let mut hub = Hub::new();
    let mut sender = active(&mut hub, "S", 1);
    let init = r#"{"type":"init_transfer","file_name":"a.txt","file_size":100}"#;
    let answer = sender.on_text(&mut hub, init.to_string());
    let id = match &answer[0].frame {
        Frame::Text(text) => {
            let parsed: serde_json::Value = serde_json::from_str(text).unwrap();
            parsed["transfer_id"].as_str().unwrap().to_string()
        }
        other => panic!("not a text frame: {:?}", other),
    };

    let (receiver, out) = Session::connect(&mut hub, Handle { slot: 2 }, Some(id.as_str()));
    assert!(receiver.is_active());
    assert_eq!(receiver.peer(), Some("S"));
    assert_eq!(hub.registry.get(receiver.id()), Some(Handle { slot: 2 }));
    assert_eq!(out.len(), 2);
    assert_eq!(out[0].to, Handle { slot: 1 });
    assert_eq!(out[1].to, Handle { slot: 2 });
    match (&out[0].frame, &out[1].frame) {
        (Frame::Text(notice), Frame::Text(ready)) => {
            let notice: serde_json::Value = serde_json::from_str(notice).unwrap();
            assert_eq!(notice["type"].as_str(), Some("receiver_connected"));
            assert_eq!(notice["transfer_id"].as_str(), Some(id.as_str()));
            assert_eq!(notice["receiver_id"].as_str(), Some(receiver.id()));
            assert_eq!(ready, r#"{"file_name":"a.txt","file_size":100,"type":"transfer_ready"}"#);
        }
        other => panic!("not two text frames: {:?}", other),
    }
}

#[test]
fn connect_with_an_unknown_transfer_is_a_plain_connect() {
    let mut hub = Hub::new();
    let _sender = active(&mut hub, "S", 1);
    let (session, out) = Session::connect(&mut hub, Handle { slot: 2 }, Some("missing"));
    assert_eq!(out, vec![]);
    assert!(session.is_active());
    assert_eq!(session.peer(), None);
    assert_eq!(hub.registry.get(session.id()), Some(Handle { slot: 2 }));
    assert_eq!(hub.registry.len(), 2);
    assert_eq!(hub.transfers.len(), 0);
}

#[test]
fn frames_and_deliveries_clone_to_equal_values() {
    let frames = vec![
        Frame::Text("hello".to_string()),
        Frame::Binary(vec![1, 2, 3]),
        Frame::Ping(vec![]),
        Frame::Pong(vec![9]),
        Frame::Close,
    ];
    for frame in frames {
        assert_eq!(frame.clone(), frame);
        let delivery = Delivery { to: Handle { slot: 8 }, frame };
        assert_eq!(delivery.clone(), delivery);
    }
}
