use split_hub::hub::{Hub, HubEvent, Outbound, Outlet, Reaction};

fn payload(s: &str) -> HubEvent {
    HubEvent::Queue(Outbound::Payload(s.to_string()))
}

fn recipients(r: Reaction) -> (Vec<u64>, String) {
    match r {
        Reaction::Broadcast(mut to, f) => {
            to.sort();
            (to, f)
        }
        other => panic!("expected a broadcast, got {:?}", other),
    }
}

#[test]
fn two_clients_then_one() {
    let mut hub = Hub::new();
    assert!(matches!(hub.step(HubEvent::Connect(1)), Reaction::Nothing));
    assert!(matches!(hub.step(HubEvent::Connect(2)), Reaction::Nothing));
    let (to, f) = recipients(hub.step(payload("{\"event\":\"split\"}")));
    assert_eq!(to, vec![1, 2]);
    assert_eq!(f, "{\"event\":\"split\"}");
    hub.step(HubEvent::Disconnect(1));
    let (to, f) = recipients(hub.step(payload("{\"event\":\"reset\"}")));
    assert_eq!(to, vec![2]);
    assert_eq!(f, "{\"event\":\"reset\"}");
}

#[test]
fn broken_client_is_dropped_alone() {
    let mut hub = Hub::new();
    for id in [7, 8, 9] {
        hub.step(HubEvent::Connect(id));
    }
    assert_eq!(hub.subscriber_count(), 3);
    let (to, _) = recipients(hub.step(payload("a")));
    assert_eq!(to, vec![7, 8, 9]);
    hub.step(HubEvent::SendFailed(8));
    assert_eq!(hub.subscriber_count(), 2);
    let (to, _) = recipients(hub.step(payload("b")));
    assert_eq!(to, vec![7, 9]);
}

#[test]
fn nothing_is_delivered_after_shutdown() {
    let mut hub = Hub::new();
    hub.step(HubEvent::Connect(1));
    assert!(matches!(hub.step(HubEvent::Queue(Outbound::Shutdown)), Reaction::Stop));
    assert!(!hub.is_running());
    assert!(matches!(hub.step(payload("late")), Reaction::Nothing));
    assert!(matches!(hub.step(HubEvent::Queue(Outbound::Shutdown)), Reaction::Nothing));
    hub.step(HubEvent::Connect(2));
    assert_eq!(hub.subscriber_count(), 1);
}

#[test]
fn outlet_stops_after_close() {
    let mut out = Outlet::new();
    assert!(matches!(out.send("x".to_string()), Some(Outbound::Payload(f)) if f == "x"));
    assert!(matches!(out.close(), Some(Outbound::Shutdown)));
    assert!(out.send("y".to_string()).is_none());
    assert!(out.close().is_none());
}

#[test]
fn messages_are_echoed_to_known_clients() {
    let mut hub = Hub::new();
    hub.step(HubEvent::Connect(4));
    assert!(matches!(hub.step(HubEvent::Message(4)), Reaction::Echo(4)));
    assert!(matches!(hub.step(HubEvent::Message(5)), Reaction::Nothing));
}

#[test]
fn connecting_twice_counts_once() {
    let mut hub = Hub::new();
    hub.step(HubEvent::Connect(3));
    hub.step(HubEvent::Connect(3));
    assert_eq!(hub.subscriber_count(), 1);
    hub.step(HubEvent::Disconnect(42));
    assert_eq!(hub.subscriber_count(), 1);
    let (to, _) = recipients(hub.step(payload("p")));
    assert_eq!(to, vec![3]);
}

#[test]
fn payload_without_clients_goes_nowhere() {
    let mut hub = Hub::new();
    let (to, _) = recipients(hub.step(payload("p")));
    assert!(to.is_empty());
}
