use labyrinth::completion::{CompletionWatcher, ContactEvent, ContactFlags, GamePhase};
use labyrinth::tilt::{
    delta_from_axes, delta_from_keys, tilt_tick, tilt_tick_axes, FloorOrientation, TiltKeys,
};

fn no_keys() -> TiltKeys {
    TiltKeys {
        up_primary: false,
        up_arrow: false,
        down_primary: false,
        down_arrow: false,
        left_primary: false,
        left_arrow: false,
        right_primary: false,
        right_arrow: false,
    }
}

#[test]
fn idle_tick_is_a_no_op() {
    let mut o = FloorOrientation { pitch_milli: 123, roll_milli: -456 };
    tilt_tick(&mut o, &no_keys());
    assert_eq!(o, FloorOrientation { pitch_milli: 123, roll_milli: -456 });
    assert!(delta_from_keys(&no_keys()).is_none());
}

#[test]
fn single_key_gives_one_increment() {
    let mut keys = no_keys();
    keys.up_primary = true;
    let d = delta_from_keys(&keys).unwrap();
    assert_eq!(d.x_milli, -1000);
    assert_eq!(d.z_milli, 0);

    let mut keys = no_keys();
    keys.down_arrow = true;
    let d = delta_from_keys(&keys).unwrap();
    assert_eq!(d.x_milli, 1000);
    assert_eq!(d.z_milli, 0);

    let mut keys = no_keys();
    keys.left_primary = true;
    let d = delta_from_keys(&keys).unwrap();
    assert_eq!(d.x_milli, 0);
    assert_eq!(d.z_milli, 1000);

    let mut keys = no_keys();
    keys.right_arrow = true;
    let d = delta_from_keys(&keys).unwrap();
    assert_eq!(d.x_milli, 0);
    assert_eq!(d.z_milli, -1000);
}

#[test]
fn opposing_keys_cancel() {
    let mut keys = no_keys();
    keys.up_primary = true;
    keys.down_arrow = true;
    keys.right_primary = true;
    // Up and down cancel on the pitch axis; right alone still rolls.
    let d = delta_from_keys(&keys).unwrap();
    assert_eq!(d.x_milli, 0);
    assert_eq!(d.z_milli, -1000);

    let mut keys = no_keys();
    keys.left_primary = true;
    keys.right_arrow = true;
    let d = delta_from_keys(&keys).unwrap();
    assert_eq!(d.z_milli, 0);
}

#[test]
fn held_key_accumulates_tilt() {
    let mut keys = no_keys();
    keys.down_primary = true;
    let mut o = FloorOrientation { pitch_milli: 0, roll_milli: 0 };
    tilt_tick(&mut o, &keys);
    tilt_tick(&mut o, &keys);
    tilt_tick(&mut o, &keys);
    assert_eq!(o.pitch_milli, 3000);
    assert_eq!(o.roll_milli, 0);
}

#[test]
fn analog_stick_scales_proportionally() {
    assert!(delta_from_axes(0, 0).is_none());
    let d = delta_from_axes(500, -250).unwrap();
    assert_eq!(d.x_milli, 500);
    assert_eq!(d.z_milli, -250);
    let full = delta_from_axes(1000, 1000).unwrap();
    assert_eq!(full.x_milli, 1000);
    assert_eq!(full.z_milli, 1000);
}

#[test]
fn analog_tick_matches_key_tick_contract() {
    // A centred stick is a no-op, bit for bit.
    let mut o = FloorOrientation { pitch_milli: 7, roll_milli: -7 };
    tilt_tick_axes(&mut o, 0, 0);
    assert_eq!(o, FloorOrientation { pitch_milli: 7, roll_milli: -7 });

    // A deflected stick accumulates its scaled increments.
    tilt_tick_axes(&mut o, 250, -1000);
    assert_eq!(o.pitch_milli, 257);
    assert_eq!(o.roll_milli, -1007);
}

fn sensor_start() -> ContactEvent {
    ContactEvent::Started(ContactFlags { sensor: true, removed: false })
}

#[test]
fn completion_fires_exactly_once() {
    let mut w = CompletionWatcher::new();
    assert_eq!(w.phase, GamePhase::Playing);
    assert!(w.observe(&sensor_start()));
    assert_eq!(w.phase, GamePhase::Completed);
    // A second qualifying contact must not fire or move the phase again.
    assert!(!w.observe(&sensor_start()));
    assert_eq!(w.phase, GamePhase::Completed);
}

#[test]
fn non_sensor_contacts_are_ignored() {
    let mut w = CompletionWatcher::new();
    let plain = ContactEvent::Started(ContactFlags { sensor: false, removed: false });
    let stopped = ContactEvent::Stopped(ContactFlags { sensor: true, removed: false });
    assert!(!w.observe(&plain));
    assert!(!w.observe(&stopped));
    assert_eq!(w.phase, GamePhase::Playing);
}

#[test]
fn drain_reports_one_completion_per_session() {
    let mut w = CompletionWatcher::new();
    let plain = ContactEvent::Started(ContactFlags { sensor: false, removed: false });
    let frame = vec![plain, sensor_start(), sensor_start()];
    // One frame with several qualifying events: one request.
    assert!(w.drain(&frame));
    assert_eq!(w.phase, GamePhase::Completed);
    // Later frames never request again.
    assert!(!w.drain(&frame));
    assert_eq!(w.phase, GamePhase::Completed);
}

#[test]
fn drain_without_triggers_stays_playing() {
    let mut w = CompletionWatcher::new();
    let plain = ContactEvent::Started(ContactFlags { sensor: false, removed: true });
    assert!(!w.drain(&vec![plain, plain]));
    assert_eq!(w.phase, GamePhase::Playing);
    assert!(!w.drain(&Vec::new()));
    assert_eq!(w.phase, GamePhase::Playing);
}
