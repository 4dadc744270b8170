use cruise_control::keys::{
    key_state_is_down, EdgeSnapshot, KeySnapshot, BRAKE, DISENGAGE_ALT, FORWARD, HANDBRAKE,
    POLL_INTERVAL_MS, TRIGGER,
};

fn snapshot(bits: u8) -> KeySnapshot {
    KeySnapshot {
        trigger: bits & 1 != 0,
        disengage_alt: bits & 2 != 0,
        forward: bits & 4 != 0,
        brake: bits & 8 != 0,
        handbrake: bits & 16 != 0,
    }
}

#[test]
fn key_codes_are_the_platform_codes() {
    assert_eq!(TRIGGER, 0x21);
    assert_eq!(DISENGAGE_ALT, 0x22);
    assert_eq!(FORWARD, 0x57);
    assert_eq!(FORWARD, b'W' as u16);
    assert_eq!(BRAKE, 0x53);
    assert_eq!(BRAKE, b'S' as u16);
    assert_eq!(HANDBRAKE, 0x20);
    assert_eq!(HANDBRAKE, b' ' as u16);
}

#[test]
fn polling_runs_at_a_hundred_hertz() {
    assert_eq!(POLL_INTERVAL_MS, 10);
    assert_eq!(1000 / POLL_INTERVAL_MS, 100);
}

#[test]
fn key_state_high_bit_means_down() {
    assert!(key_state_is_down(0x8000u16 as i16));
    assert!(key_state_is_down(0x8001u16 as i16));
    assert!(key_state_is_down(-1));
    assert!(key_state_is_down(i16::MIN));
}

#[test]
fn key_state_low_bit_alone_is_not_down() {
    assert!(!key_state_is_down(0));
    assert!(!key_state_is_down(1));
    assert!(!key_state_is_down(0x7FFF));
}

#[test]
fn key_state_agrees_with_the_mask_on_every_value() {
    for raw in i16::MIN..=i16::MAX {
        assert_eq!(key_state_is_down(raw), (raw as u16) & 0x8000 != 0);
    }
}

#[test]
fn released_snapshot_has_no_key_down() {
    let none = KeySnapshot::released();
    assert_eq!(none, snapshot(0));
    assert!(!none.trigger && !none.disengage_alt && !none.forward);
    assert!(!none.brake && !none.handbrake);
}

#[test]
fn failed_poll_counts_as_all_released() {
    assert_eq!(KeySnapshot::from_poll(None), KeySnapshot::released());
}

#[test]
fn successful_poll_is_taken_as_it_is() {
    for bits in 0..32u8 {
        assert_eq!(KeySnapshot::from_poll(Some(snapshot(bits))), snapshot(bits));
    }
}

#[test]
fn edge_is_pressed_now_and_released_before() {
    let before = snapshot(0b00101);
    let now = snapshot(0b01110);
    let edges = now.rising_edges(&before);
    assert_eq!(
        edges,
        EdgeSnapshot {
            trigger: false,
            disengage_alt: true,
            forward: false,
            brake: true,
            handbrake: false,
        }
    );
}

#[test]
fn edges_against_every_pair_of_snapshots() {
    for a in 0..32u8 {
        for b in 0..32u8 {
            let edges = snapshot(b).rising_edges(&snapshot(a));
            let rose = b & !a;
            assert_eq!(edges.trigger, rose & 1 != 0);
            assert_eq!(edges.disengage_alt, rose & 2 != 0);
            assert_eq!(edges.forward, rose & 4 != 0);
            assert_eq!(edges.brake, rose & 8 != 0);
            assert_eq!(edges.handbrake, rose & 16 != 0);
            assert_eq!(edges.any_stop(), rose & 0b11110 != 0);
        }
    }
}

#[test]
fn no_edges_without_a_change() {
    for a in 0..32u8 {
        let edges = snapshot(a).rising_edges(&snapshot(a));
        assert!(!edges.trigger && !edges.any_stop());
    }
}

#[test]
fn trigger_edge_is_not_a_stop_edge() {
    let edges = snapshot(1).rising_edges(&snapshot(0));
    assert!(edges.trigger);
    assert!(!edges.any_stop());
}
