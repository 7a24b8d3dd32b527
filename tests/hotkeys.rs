use alliumd::hotkeys::{Hotkey, HotkeyRouter};
use alliumd::keys::{Key, KeyEvent, KeyPressMap};

#[test]
fn long_menu_press_shows_hotkeys_and_suppresses_toggle() {
    let mut r = HotkeyRouter::new();
    assert_eq!(r.handle(KeyEvent::Pressed(Key::Menu), 1000), Hotkey::PassThrough);
    assert_eq!(r.handle(KeyEvent::Autorepeat(Key::Menu), 1200), Hotkey::PassThrough);
    assert_eq!(r.handle(KeyEvent::Autorepeat(Key::Menu), 1500), Hotkey::ShowHotkeys);
    assert_eq!(r.handle(KeyEvent::Autorepeat(Key::Menu), 1600), Hotkey::PassThrough);
    assert_eq!(r.handle(KeyEvent::Released(Key::Menu), 1700), Hotkey::PassThrough);
}

#[test]
fn menu_tap_toggles_overlay() {
    let mut r = HotkeyRouter::new();
    r.handle(KeyEvent::Pressed(Key::Menu), 1000);
    assert!(r.is_held(Key::Menu));
    assert_eq!(r.handle(KeyEvent::Released(Key::Menu), 1100), Hotkey::ToggleMenu);
    assert!(!r.is_held(Key::Menu));
}

#[test]
fn chord_routes_hotkeys_and_suppresses_menu() {
    let mut r = HotkeyRouter::new();
    r.handle(KeyEvent::Pressed(Key::Menu), 0);
    assert_eq!(r.handle(KeyEvent::Pressed(Key::Up), 10), Hotkey::Brightness(5));
    assert_eq!(r.handle(KeyEvent::Autorepeat(Key::Up), 20), Hotkey::Brightness(5));
    assert_eq!(r.handle(KeyEvent::Released(Key::Up), 30), Hotkey::PassThrough);
    assert_eq!(r.handle(KeyEvent::Pressed(Key::VolDown), 40), Hotkey::Brightness(-5));
    assert_eq!(r.handle(KeyEvent::Released(Key::VolDown), 45), Hotkey::PassThrough);
    assert_eq!(r.handle(KeyEvent::Pressed(Key::Left), 50), Hotkey::Volume(-1));
    assert_eq!(r.handle(KeyEvent::Released(Key::Left), 55), Hotkey::PassThrough);
    assert_eq!(r.handle(KeyEvent::Pressed(Key::Right), 60), Hotkey::Volume(1));
    assert_eq!(r.handle(KeyEvent::Released(Key::Right), 65), Hotkey::PassThrough);
    assert_eq!(r.handle(KeyEvent::Pressed(Key::Power), 70), Hotkey::PassThrough);
    assert_eq!(r.handle(KeyEvent::Released(Key::Power), 75), Hotkey::Screenshot);
    assert_eq!(r.handle(KeyEvent::Autorepeat(Key::Menu), 5000), Hotkey::PassThrough);
    assert_eq!(r.handle(KeyEvent::Released(Key::Menu), 5100), Hotkey::PassThrough);
}

#[test]
fn keys_without_menu() {
    let mut r = HotkeyRouter::new();
    assert_eq!(r.handle(KeyEvent::Pressed(Key::VolUp), 0), Hotkey::Volume(1));
    assert_eq!(r.handle(KeyEvent::Autorepeat(Key::VolDown), 0), Hotkey::Volume(-1));
    assert_eq!(r.handle(KeyEvent::Pressed(Key::Up), 0), Hotkey::PassThrough);
    assert_eq!(r.handle(KeyEvent::Autorepeat(Key::Power), 0), Hotkey::PowerHeld);
    assert_eq!(r.handle(KeyEvent::Released(Key::Power), 0), Hotkey::PowerReleased);
    assert_eq!(r.handle(KeyEvent::Pressed(Key::LidClose), 0), Hotkey::LidClosed);
}

#[test]
fn menu_release_with_other_key_held_does_not_toggle() {
    let mut r = HotkeyRouter::new();
    r.handle(KeyEvent::Pressed(Key::A), 0);
    r.handle(KeyEvent::Pressed(Key::Menu), 10);
    assert_eq!(r.handle(KeyEvent::Released(Key::Menu), 20), Hotkey::PassThrough);
}

#[test]
fn press_map_tracks_keys() {
    let mut m = KeyPressMap::new();
    assert!(m.only_held(Key::Menu));
    m.set(Key::Menu, true);
    assert!(m.is_held(Key::Menu));
    assert!(m.only_held(Key::Menu));
    m.set(Key::B, true);
    assert!(!m.only_held(Key::Menu));
    m.set(Key::B, false);
    assert!(!m.is_held(Key::B));
    assert_eq!(Key::Unknown.index(), 19);
}
