use onebot_v11::connect::bus::EventBus;

#[test]
fn subscribers_see_events_from_their_registration_on() {
    let mut bus: EventBus<&str> = EventBus::new(100);
    let mut a = bus.subscribe();
    bus.publish("E1");
    let mut b = bus.subscribe();
    bus.publish("E2");
    bus.publish("E3");
    let mut seen_a = Vec::new();
    while let Some(e) = bus.recv(&mut a) {
        seen_a.push(*e);
    }
    let mut seen_b = Vec::new();
    while let Some(e) = bus.recv(&mut b) {
        seen_b.push(*e);
    }
    assert_eq!(seen_a, vec!["E1", "E2", "E3"]);
    assert_eq!(seen_b, vec!["E2", "E3"]);
}

#[test]
fn late_subscriber_sees_nothing_old() {
    let mut bus: EventBus<u32> = EventBus::new(4);
    bus.publish(1);
    bus.publish(2);
    let mut s = bus.subscribe();
    assert_eq!(s.position(), 2);
    assert_eq!(bus.recv(&mut s), None);
    bus.publish(3);
    assert_eq!(bus.recv(&mut s), Some(&3));
    assert_eq!(bus.recv(&mut s), None);
}

#[test]
fn slow_subscriber_loses_oldest_events() {
    let mut bus: EventBus<u32> = EventBus::new(3);
    let mut s = bus.subscribe();
    for i in 1..=5 {
        bus.publish(i);
    }
    assert_eq!(bus.capacity(), 3);
    assert_eq!(bus.published(), 5);
    assert_eq!(bus.recv(&mut s), Some(&3));
    assert_eq!(bus.recv(&mut s), Some(&4));
    assert_eq!(bus.recv(&mut s), Some(&5));
    assert_eq!(bus.recv(&mut s), None);
}

#[test]
fn window_of_one_keeps_latest() {
    let mut bus: EventBus<u32> = EventBus::new(1);
    let mut s = bus.subscribe();
    bus.publish(7);
    bus.publish(8);
    assert_eq!(bus.recv(&mut s), Some(&8));
    assert_eq!(bus.recv(&mut s), None);
}
