use ruty::hotkey::{
    check_hotkey_pressed, event_fires, events_fire, init_hotkeys,
    HotkeyDetector, HotkeyEvent, Registration, DRAIN_LIMIT, TICK_INTERVAL_MS,
};

fn press(id: u32) -> HotkeyEvent {
    HotkeyEvent { id, pressed: true }
}

fn release(id: u32) -> HotkeyEvent {
    HotkeyEvent { id, pressed: false }
}

#[test]
fn check_is_edge_triggered_for_the_signal() {
    let mut d = init_hotkeys(Registration::Unavailable);
    d.signal();
    assert!(check_hotkey_pressed(&mut d));
    assert!(!check_hotkey_pressed(&mut d));
}

#[test]
fn check_is_edge_triggered_for_the_key_event() {
    let mut d = init_hotkeys(Registration::Registered { id: 7 });
    assert!(d.check(&vec![press(7)]));
    assert!(!d.check(&vec![]));
}

#[test]
fn signals_before_a_tick_coalesce() {
    let mut d = HotkeyDetector::new();
    d.signal();
    d.signal();
    d.signal();
    assert!(d.check(&vec![]));
    assert!(!d.check(&vec![]));
}

#[test]
fn a_press_anywhere_in_the_queue_fires() {
    let mut d = init_hotkeys(Registration::Registered { id: 7 });
    assert!(d.check(&vec![release(7), press(7)]));
    assert!(d.check(&vec![press(8), release(8), release(7), press(7), release(7)]));
    assert!(d.check(&vec![press(7), press(7), press(7)]));
    assert!(!d.check(&vec![]));
    assert!(events_fire(Some(7), &vec![release(7), press(9), press(7)]));
    assert!(!events_fire(Some(7), &vec![release(7), press(9)]));
    assert!(!events_fire(None, &vec![press(7)]));
    assert!(!events_fire(Some(7), &vec![]));
}

#[test]
fn release_and_foreign_events_do_not_fire() {
    let mut d = init_hotkeys(Registration::Registered { id: 7 });
    assert!(!d.check(&vec![release(7)]));
    assert!(!d.check(&vec![press(8)]));
    assert!(event_fires(Some(7), Some(HotkeyEvent { id: 7, pressed: true })));
    assert!(!event_fires(None, Some(HotkeyEvent { id: 7, pressed: true })));
    assert!(!event_fires(Some(7), None));
}

#[test]
fn signal_is_looked_at_before_the_event() {
    let mut d = init_hotkeys(Registration::Registered { id: 7 });
    d.signal();
    assert!(d.check(&vec![release(9)]));
    assert!(!d.signal_received);
}

#[test]
fn denied_registration_degrades_to_the_signal() {
    let mut d = init_hotkeys(Registration::Denied);
    assert_eq!(d.hotkey_id, None);
    assert!(!d.check(&vec![press(7)]));
    d.signal();
    assert!(d.check(&vec![]));
    d.set_registration(Registration::Registered { id: 3 });
    assert_eq!(d.hotkey_id, Some(3));
    assert_eq!(d, HotkeyDetector { signal_received: false, hotkey_id: Some(3) });
}

#[test]
fn empty_queue_fires_nothing() {
    let mut d = init_hotkeys(Registration::Registered { id: 1 });
    assert!(!check_hotkey_pressed(&mut d));
    assert_eq!(d, HotkeyDetector { signal_received: false, hotkey_id: Some(1) });
    assert_eq!(DRAIN_LIMIT, 64);
    assert_eq!(TICK_INTERVAL_MS, 50);
    assert_eq!(HotkeyDetector::default(), HotkeyDetector::new());
}
