//! Classifies key events as system hotkeys or input for the foreground process, with
//! Menu acting as the system modifier.
use vstd::prelude::*;
use crate::keys::{Key, KeyEvent, KeyPressMap, KEY_COUNT};

verus! {

/// How long Menu must be held alone, in milliseconds, before the hotkey overlay shows.
pub const LONG_PRESS_MS: i64 = 500;

/// Brightness step of one hotkey press.
pub const BRIGHTNESS_STEP: i32 = 5;

/// Volume step of one key press.
pub const VOLUME_STEP: i32 = 1;

/// What a key event means to the daemon.
#[derive(Debug, Clone, Copy, PartialEq, Eq, Structural)]
pub enum Hotkey {
    /// Not a system action: the foreground process handles it.
    PassThrough,
    /// Menu was held alone long enough: show the list of hotkeys.
    ShowHotkeys,
    /// Change the brightness by this much.
    Brightness(i32),
    /// Change the volume by this much.
    Volume(i32),
    /// Take a screenshot.
    Screenshot,
    /// The power button is held down: shut down.
    PowerHeld,
    /// The power button was released: run the configured power action.
    PowerReleased,
    /// The lid was closed: run the configured lid action.
    LidClosed,
    /// Menu was tapped alone: open or close the menu overlay.
    ToggleMenu,
}

/// Model of the router: the held flags, whether Menu has been held alone since it went
/// down, and when it went down.
pub struct RouterView {
    pub held: Seq<bool>,
    pub menu_alone: bool,
    pub menu_pressed_at: i64,
}

/// The Menu key's mode.
#[derive(Debug, Clone, Copy, PartialEq, Eq, Structural)]
pub enum MenuMode {
    Idle,
    HeldAlone,
    HeldWithOthers,
}

/// Whether `k` is held in `v`.
pub open spec fn held(v: RouterView, k: Key) -> bool {
    v.held[k.slot()]
}

/// Whether no key but Menu is held in `v`.
pub open spec fn only_menu_held(v: RouterView) -> bool {
    forall|i: int| 0 <= i < KEY_COUNT && i != Key::Menu.slot() ==> !v.held[i]
}

/// The Menu key's mode in `v`.
pub open spec fn menu_mode(v: RouterView) -> MenuMode {
    if !held(v, Key::Menu) {
        MenuMode::Idle
    } else if v.menu_alone {
        MenuMode::HeldAlone
    } else {
        MenuMode::HeldWithOthers
    }
}

/// `v` after the press bookkeeping of `e`, before its meaning is decided.
pub open spec fn recorded(v: RouterView, e: KeyEvent, now: i64) -> RouterView {
    match e {
        KeyEvent::Pressed(k) => RouterView {
            held: v.held.update(k.slot(), true),
            menu_alone: k == Key::Menu,
            menu_pressed_at: if k == Key::Menu { now } else { v.menu_pressed_at },
        },
        KeyEvent::Released(k) => RouterView { held: v.held.update(k.slot(), false), ..v },
        KeyEvent::Autorepeat(_) => v,
    }
}

/// Whether `e` in state `t` (already tracked) is the long press of Menu alone.
pub open spec fn is_long_press(t: RouterView, e: KeyEvent, now: i64) -> bool {
    e == KeyEvent::Autorepeat(Key::Menu) && held(t, Key::Menu) && t.menu_alone
        && now - t.menu_pressed_at >= LONG_PRESS_MS
}

/// Whether `e` in state `t` (already tracked) is the release of a Menu tap.
pub open spec fn is_menu_tap(t: RouterView, e: KeyEvent) -> bool {
    e == KeyEvent::Released(Key::Menu) && t.menu_alone
}

/// Whether `e` presses or repeats `k`.
pub open spec fn pushes(e: KeyEvent, k: Key) -> bool {
    e == KeyEvent::Pressed(k) || e == KeyEvent::Autorepeat(k)
}

/// The meaning of `e` at time `now` in state `v`.
pub open spec fn verdict(v: RouterView, e: KeyEvent, now: i64) -> Hotkey {
    let t = recorded(v, e, now);
    if held(t, Key::Menu) {
        if is_long_press(t, e, now) {
            Hotkey::ShowHotkeys
        } else if pushes(e, Key::Up) || pushes(e, Key::VolUp) {
            Hotkey::Brightness(BRIGHTNESS_STEP)
        } else if pushes(e, Key::Down) || pushes(e, Key::VolDown) {
            Hotkey::Brightness((-BRIGHTNESS_STEP) as i32)
        } else if pushes(e, Key::Left) {
            Hotkey::Volume((-VOLUME_STEP) as i32)
        } else if pushes(e, Key::Right) {
            Hotkey::Volume(VOLUME_STEP)
        } else if e == KeyEvent::Released(Key::Power) {
            Hotkey::Screenshot
        } else {
            Hotkey::PassThrough
        }
    } else if pushes(e, Key::VolDown) {
        Hotkey::Volume((-VOLUME_STEP) as i32)
    } else if pushes(e, Key::VolUp) {
        Hotkey::Volume(VOLUME_STEP)
    } else if e == KeyEvent::Autorepeat(Key::Power) {
        Hotkey::PowerHeld
    } else if e == KeyEvent::Released(Key::Power) {
        Hotkey::PowerReleased
    } else if e == KeyEvent::Pressed(Key::LidClose) {
        Hotkey::LidClosed
    } else if is_menu_tap(t, e) && only_menu_held(t) {
        Hotkey::ToggleMenu
    } else {
        Hotkey::PassThrough
    }
}

/// The state after `e` at time `now` in state `v`.
pub open spec fn next(v: RouterView, e: KeyEvent, now: i64) -> RouterView {
    let t = recorded(v, e, now);
    if is_long_press(t, e, now) || (!held(t, Key::Menu) && is_menu_tap(t, e)) {
        RouterView { menu_alone: false, ..t }
    } else {
        t
    }
}

/// The system action of pressing `k` while Menu is held.
pub open spec fn chord(k: Key) -> Hotkey {
    if k == Key::Up || k == Key::VolUp {
        Hotkey::Brightness(BRIGHTNESS_STEP)
    } else if k == Key::Down || k == Key::VolDown {
        Hotkey::Brightness((-BRIGHTNESS_STEP) as i32)
    } else if k == Key::Left {
        Hotkey::Volume((-VOLUME_STEP) as i32)
    } else if k == Key::Right {
        Hotkey::Volume(VOLUME_STEP)
    } else {
        Hotkey::PassThrough
    }
}

/// Holding Menu alone until an autorepeat at least `LONG_PRESS_MS` after the press shows
/// the hotkey overlay, and the release that follows does not toggle the menu overlay.
pub proof fn lemma_long_press_suppresses_tap(v: RouterView, t0: i64, t1: i64, t2: i64)
    requires
        v.held.len() == KEY_COUNT,
        t1 - t0 >= LONG_PRESS_MS,
    ensures
        menu_mode(next(v, KeyEvent::Pressed(Key::Menu), t0)) == MenuMode::HeldAlone,
        verdict(next(v, KeyEvent::Pressed(Key::Menu), t0), KeyEvent::Autorepeat(Key::Menu), t1)
            == Hotkey::ShowHotkeys,
        menu_mode(next(next(v, KeyEvent::Pressed(Key::Menu), t0), KeyEvent::Autorepeat(Key::Menu), t1))
            == MenuMode::HeldWithOthers,
        verdict(
            next(next(v, KeyEvent::Pressed(Key::Menu), t0), KeyEvent::Autorepeat(Key::Menu), t1),
            KeyEvent::Released(Key::Menu),
            t2,
        ) == Hotkey::PassThrough,
        menu_mode(next(
            next(next(v, KeyEvent::Pressed(Key::Menu), t0), KeyEvent::Autorepeat(Key::Menu), t1),
            KeyEvent::Released(Key::Menu),
            t2,
        )) == MenuMode::Idle,
{
}

/// Pressing and releasing Menu while no other key is held toggles the menu overlay on
/// release, and the press itself is no system action.
pub proof fn lemma_tap_toggles_menu(v: RouterView, t0: i64, t1: i64)
    requires
        v.held.len() == KEY_COUNT,
        forall|i: int| 0 <= i < KEY_COUNT ==> !v.held[i],
    ensures
        verdict(v, KeyEvent::Pressed(Key::Menu), t0) == Hotkey::PassThrough,
        verdict(next(v, KeyEvent::Pressed(Key::Menu), t0), KeyEvent::Released(Key::Menu), t1)
            == Hotkey::ToggleMenu,
        menu_mode(next(next(v, KeyEvent::Pressed(Key::Menu), t0), KeyEvent::Released(Key::Menu), t1))
            == MenuMode::Idle,
{
    let v1 = next(v, KeyEvent::Pressed(Key::Menu), t0);
    let t = recorded(v1, KeyEvent::Released(Key::Menu), t1);
    assert forall|i: int| 0 <= i < KEY_COUNT && i != Key::Menu.slot() implies !t.held[i] by {
        assert(t.held[i] == v1.held[i]);
        assert(v1.held[i] == v.held[i]);
    }
}

/// Pressing another key while Menu is held routes that key as a system hotkey and
/// suppresses both Menu behaviours: no overlay on a later autorepeat, no toggle on release.
pub proof fn lemma_chord_suppresses_menu(v: RouterView, k: Key, t0: i64, t1: i64, t2: i64)
    requires
        v.held.len() == KEY_COUNT,
        k != Key::Menu,
    ensures
        verdict(next(v, KeyEvent::Pressed(Key::Menu), t0), KeyEvent::Pressed(k), t1) == chord(k),
        menu_mode(next(next(v, KeyEvent::Pressed(Key::Menu), t0), KeyEvent::Pressed(k), t1))
            == MenuMode::HeldWithOthers,
        verdict(
            next(next(v, KeyEvent::Pressed(Key::Menu), t0), KeyEvent::Pressed(k), t1),
            KeyEvent::Autorepeat(Key::Menu),
            t2,
        ) != Hotkey::ShowHotkeys,
        verdict(
            next(next(v, KeyEvent::Pressed(Key::Menu), t0), KeyEvent::Pressed(k), t1),
            KeyEvent::Released(Key::Menu),
            t2,
        ) != Hotkey::ToggleMenu,
{
    crate::keys::lemma_slot_injective(k, Key::Menu);
}

/// Tracks held keys and the Menu modifier, and classifies each key event.
#[derive(Debug)]
pub struct HotkeyRouter {
    keys: KeyPressMap,
    menu_alone: bool,
    menu_pressed_at: i64,
}

impl View for HotkeyRouter {
    type V = RouterView;

    closed spec fn view(&self) -> RouterView {
        RouterView { held: self.keys@, menu_alone: self.menu_alone, menu_pressed_at: self.menu_pressed_at }
    }
}

impl HotkeyRouter {
    pub open spec fn wf(&self) -> bool {
        self@.held.len() == KEY_COUNT
    }

    /// A router with no key held.
    pub fn new() -> (r: HotkeyRouter)
        ensures
            r.wf(),
            forall|i: int| 0 <= i < KEY_COUNT ==> !r@.held[i],
            !r@.menu_alone,
    {
        HotkeyRouter { keys: KeyPressMap::new(), menu_alone: false, menu_pressed_at: 0 }
    }

    /// Whether `k` is held.
    pub fn is_held(&self, k: Key) -> (r: bool)
        requires
            self.wf(),
        ensures
            r == held(self@, k),
    {
        self.keys.is_held(k)
    }

    /// Records `e`, received at time `now` (milliseconds), and says what it means.
    pub fn handle(&mut self, e: KeyEvent, now: i64) -> (r: Hotkey)
        requires
            old(self).wf(),
        ensures
            final(self).wf(),
            r == verdict(old(self)@, e, now),
            final(self)@ == next(old(self)@, e, now),
    {
        match e {
            KeyEvent::Pressed(k) => {
                self.keys.set(k, true);
                if k == Key::Menu {
                    self.menu_alone = true;
                    self.menu_pressed_at = now;
                } else {
                    self.menu_alone = false;
                }
            },
            KeyEvent::Released(k) => self.keys.set(k, false),
            KeyEvent::Autorepeat(_) => {},
        }
        if self.keys.is_held(Key::Menu) {
            match e {
                KeyEvent::Autorepeat(Key::Menu) => {
                    if self.menu_alone && now as i128 - self.menu_pressed_at as i128 >= LONG_PRESS_MS as i128 {
                        self.menu_alone = false;
                        Hotkey::ShowHotkeys
                    } else {
                        Hotkey::PassThrough
                    }
                },
                KeyEvent::Pressed(Key::Up) | KeyEvent::Autorepeat(Key::Up)
                | KeyEvent::Pressed(Key::VolUp) | KeyEvent::Autorepeat(Key::VolUp) => {
                    Hotkey::Brightness(BRIGHTNESS_STEP)
                },
                KeyEvent::Pressed(Key::Down) | KeyEvent::Autorepeat(Key::Down)
                | KeyEvent::Pressed(Key::VolDown) | KeyEvent::Autorepeat(Key::VolDown) => {
                    Hotkey::Brightness(-BRIGHTNESS_STEP)
                },
                KeyEvent::Pressed(Key::Left) | KeyEvent::Autorepeat(Key::Left) => Hotkey::Volume(-VOLUME_STEP),
                KeyEvent::Pressed(Key::Right) | KeyEvent::Autorepeat(Key::Right) => Hotkey::Volume(VOLUME_STEP),
                KeyEvent::Released(Key::Power) => Hotkey::Screenshot,
                _ => Hotkey::PassThrough,
            }
        } else {
            match e {
                KeyEvent::Pressed(Key::VolDown) | KeyEvent::Autorepeat(Key::VolDown) => Hotkey::Volume(-VOLUME_STEP),
                KeyEvent::Pressed(Key::VolUp) | KeyEvent::Autorepeat(Key::VolUp) => Hotkey::Volume(VOLUME_STEP),
                KeyEvent::Autorepeat(Key::Power) => Hotkey::PowerHeld,
                KeyEvent::Released(Key::Power) => Hotkey::PowerReleased,
                KeyEvent::Pressed(Key::LidClose) => Hotkey::LidClosed,
                KeyEvent::Released(Key::Menu) => {
                    if self.menu_alone {
                        self.menu_alone = false;
                        if self.keys.only_held(Key::Menu) {
                            Hotkey::ToggleMenu
                        } else {
                            Hotkey::PassThrough
                        }
                    } else {
                        Hotkey::PassThrough
                    }
                },
                _ => Hotkey::PassThrough,
            }
        }
    }
}

} // verus!
