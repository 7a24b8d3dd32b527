use alliumd::state::{Adjustment, AlliumDState, StateFile, DEFAULT_BRIGHTNESS, DEFAULT_VOLUME};

fn st(time: i64, volume: i32, brightness: u8) -> AlliumDState {
    AlliumDState { time, volume, brightness }
}

#[test]
fn new_state_has_defaults_and_current_time() {
    let s = AlliumDState::new();
    assert_eq!(s.volume, 0);
    assert_eq!(s.brightness, 50);
    // 2020-01-01 in milliseconds: the wall clock is read, not left at zero.
    assert!(s.time > 1_577_836_800_000);
}

#[test]
fn load_absent_gives_defaults() {
    let r = AlliumDState::load(StateFile::Absent, 1000);
    assert_eq!(r.state, st(1000, DEFAULT_VOLUME, DEFAULT_BRIGHTNESS));
    assert!(!r.remove_record);
    assert!(!r.advance_clock);
}

#[test]
fn load_unreadable_removes_record() {
    let r = AlliumDState::load(StateFile::Unreadable, 1000);
    assert_eq!(r.state, st(1000, 0, 50));
    assert!(r.remove_record);
    assert!(!r.advance_clock);
}

#[test]
fn load_out_of_range_is_corrupt() {
    let r = AlliumDState::load(StateFile::Present(st(10, 21, 50)), 1000);
    assert_eq!(r.state, st(1000, 0, 50));
    assert!(r.remove_record);
    let r = AlliumDState::load(StateFile::Present(st(10, 5, 101)), 1000);
    assert_eq!(r.state, st(1000, 0, 50));
    assert!(r.remove_record);
    let r = AlliumDState::load(StateFile::Present(st(10, -1, 50)), 1000);
    assert!(r.remove_record);
}

#[test]
fn load_future_record_advances_clock() {
    let r = AlliumDState::load(StateFile::Present(st(5000, 7, 80)), 1000);
    assert_eq!(r.state, st(5000, 7, 80));
    assert!(r.advance_clock);
    assert!(!r.remove_record);
}

#[test]
fn load_past_record_keeps_clock() {
    let r = AlliumDState::load(StateFile::Present(st(500, 7, 80)), 1000);
    assert_eq!(r.state, st(500, 7, 80));
    assert!(!r.advance_clock);
}

#[test]
fn save_then_load_keeps_volume_and_brightness() {
    let s = st(1000, 13, 35);
    let saved = s.stamped(2000);
    assert_eq!(saved, st(2000, 13, 35));
    let r = AlliumDState::load(StateFile::Present(saved), 3000);
    assert_eq!(r.state.volume, 13);
    assert_eq!(r.state.brightness, 35);
}

#[test]
fn volume_clamps_at_both_ends() {
    let mut s = st(0, 19, 50);
    s.add_volume(1);
    assert_eq!(s.volume, 20);
    s.add_volume(1);
    assert_eq!(s.volume, 20);
    s.add_volume(-25);
    assert_eq!(s.volume, 0);
    s.add_volume(-1);
    assert_eq!(s.volume, 0);
    s.add_volume(i32::MAX);
    assert_eq!(s.volume, 20);
}

#[test]
fn brightness_clamps_at_both_ends() {
    let mut s = st(0, 0, 98);
    s.add_brightness(5);
    assert_eq!(s.brightness, 100);
    s.add_brightness(-5);
    assert_eq!(s.brightness, 95);
    s.add_brightness(-200);
    assert_eq!(s.brightness, 0);
    s.add_brightness(i32::MIN);
    assert_eq!(s.brightness, 0);
}

#[test]
fn adjustment_sequence_stays_in_range() {
    let mut s = st(0, 10, 50);
    let seq = [
        Adjustment::Volume(7),
        Adjustment::Volume(7),
        Adjustment::Brightness(40),
        Adjustment::Brightness(40),
        Adjustment::Volume(-30),
        Adjustment::Brightness(-500),
        Adjustment::Volume(3),
    ];
    for a in seq {
        s.adjust(a);
        assert!(s.volume >= 0 && s.volume <= 20);
        assert!(s.brightness <= 100);
    }
    assert_eq!(s.volume, 3);
    assert_eq!(s.brightness, 0);
}
