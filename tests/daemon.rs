use alliumd::daemon::{Action, ChargingEvent, Context, Daemon, GameSession, PowerMode, SuspendEvent};
use alliumd::keys::{Key, KeyEvent};
use alliumd::power::{BatteryReading, PowerButtonAction, PowerSettings};
use alliumd::state::AlliumDState;

fn settings(power: PowerButtonAction) -> PowerSettings {
    PowerSettings {
        power_button_action: power,
        lid_close_action: PowerButtonAction::Suspend,
        auto_sleep_duration_minutes: 5,
        auto_sleep_when_charging: false,
    }
}

fn ctx(now: i64) -> Context {
    Context { now, game: None }
}

fn in_game(now: i64, start_time: i64, has_menu: bool) -> Context {
    Context { now, game: Some(GameSession { start_time, has_menu }) }
}

fn daemon(volume: i32, brightness: u8) -> Daemon {
    Daemon::new(AlliumDState { time: 100, volume, brightness }, settings(PowerButtonAction::Shutdown), 100)
}

#[test]
fn volume_up_then_low_battery_shuts_down_once() {
    let t0 = 1_000;
    let mut d = Daemon::new(AlliumDState { time: t0, volume: 10, brightness: 50 }, settings(PowerButtonAction::Suspend), t0);
    assert_eq!(d.start(false), vec![Action::SetVolume(10), Action::SetBrightness(50)]);
    assert!(d.on_battery(BatteryReading { percentage: 80, charging: false }, ctx(t0 + 10)).is_empty());
    assert_eq!(d.on_key(KeyEvent::Pressed(Key::VolUp), ctx(t0 + 20)), vec![Action::SetVolume(11)]);
    d.on_key(KeyEvent::Released(Key::VolUp), ctx(t0 + 30));
    assert_eq!(d.on_key(KeyEvent::Pressed(Key::VolUp), ctx(t0 + 40)), vec![Action::SetVolume(12)]);
    d.on_key(KeyEvent::Released(Key::VolUp), ctx(t0 + 50));
    assert_eq!(d.state().volume, 12);
    let t1 = t0 + 60_000;
    assert!(d.battery_check_due(t1));
    let actions = d.on_battery(BatteryReading { percentage: 3, charging: false }, ctx(t1));
    assert_eq!(
        actions,
        vec![
            Action::SaveState(AlliumDState { time: t1, volume: 12, brightness: 50 }),
            Action::TerminateMain,
            Action::AnnouncePowerOff,
            Action::PowerOff,
        ]
    );
    assert!(d.on_signal(ctx(t1 + 5)).is_empty());
    assert!(d.on_battery(BatteryReading { percentage: 2, charging: false }, ctx(t1 + 10)).is_empty());
    assert_eq!(d.mode(), PowerMode::ShuttingDown);
}

#[test]
fn shutdown_twice_runs_sequence_once() {
    let mut d = daemon(4, 60);
    let first = d.on_signal(ctx(500));
    assert_eq!(first.iter().filter(|a| **a == Action::PowerOff).count(), 1);
    assert!(d.is_terminating());
    let second = d.shutdown(ctx(600));
    assert!(second.is_empty());
}

#[test]
fn shutdown_in_game_records_play_time_and_closes_menu() {
    let mut d = daemon(4, 60);
    d.on_key(KeyEvent::Pressed(Key::Menu), in_game(1000, 0, true));
    assert_eq!(d.on_key(KeyEvent::Released(Key::Menu), in_game(1100, 0, true)), vec![Action::SpawnMenu]);
    assert!(d.is_menu_running());
    let actions = d.on_signal(in_game(2000, 0, true));
    assert_eq!(
        actions,
        vec![
            Action::SaveState(AlliumDState { time: 2000, volume: 4, brightness: 60 }),
            Action::AddPlayTime(2000),
            Action::TerminateMenu,
            Action::TerminateMain,
            Action::AnnouncePowerOff,
            Action::PowerOff,
        ]
    );
    assert!(!d.is_menu_running());
}

#[test]
fn overlong_session_is_not_recorded() {
    let mut d = daemon(4, 60);
    let actions = d.on_main_exited(in_game(90_000_000, 0, false));
    assert_eq!(actions, vec![Action::ClearGame, Action::SpawnMain]);
    let actions = d.on_main_exited(in_game(86_400_000, 0, false));
    assert_eq!(actions, vec![Action::AddPlayTime(86_400_000), Action::ClearGame, Action::SpawnMain]);
}

#[test]
fn main_exit_while_terminating_does_nothing() {
    let mut d = daemon(4, 60);
    d.on_signal(ctx(10));
    assert!(d.on_main_exited(in_game(20, 0, false)).is_empty());
}

#[test]
fn menu_tap_closes_running_overlay() {
    let mut d = daemon(4, 60);
    d.on_key(KeyEvent::Pressed(Key::Menu), in_game(0, 0, true));
    d.on_key(KeyEvent::Released(Key::Menu), in_game(10, 0, true));
    d.on_key(KeyEvent::Pressed(Key::Menu), in_game(20, 0, true));
    assert_eq!(d.on_key(KeyEvent::Released(Key::Menu), in_game(30, 0, true)), vec![Action::TerminateMenu]);
    assert!(!d.is_menu_running());
}

#[test]
fn menu_tap_outside_game_does_nothing() {
    let mut d = daemon(4, 60);
    d.on_key(KeyEvent::Pressed(Key::Menu), ctx(0));
    assert!(d.on_key(KeyEvent::Released(Key::Menu), ctx(10)).is_empty());
    d.on_key(KeyEvent::Pressed(Key::Menu), in_game(20, 0, false));
    assert!(d.on_key(KeyEvent::Released(Key::Menu), in_game(30, 0, false)).is_empty());
}

#[test]
fn menu_exit_unpauses_game() {
    let mut d = daemon(4, 60);
    assert!(d.on_menu_exited().is_empty());
    d.on_key(KeyEvent::Pressed(Key::Menu), in_game(0, 0, true));
    d.on_key(KeyEvent::Released(Key::Menu), in_game(10, 0, true));
    assert_eq!(d.on_menu_exited(), vec![Action::UnpauseGame]);
    assert!(!d.is_menu_running());
}

#[test]
fn long_menu_press_pauses_for_hotkey_list() {
    let mut d = daemon(4, 60);
    d.on_key(KeyEvent::Pressed(Key::Menu), ctx(0));
    assert_eq!(
        d.on_key(KeyEvent::Autorepeat(Key::Menu), ctx(600)),
        vec![Action::PauseChildren, Action::ShowHotkeys, Action::ResumeChildren]
    );
}

#[test]
fn brightness_hotkey_clamps() {
    let mut d = daemon(4, 98);
    d.on_key(KeyEvent::Pressed(Key::Menu), ctx(0));
    assert_eq!(d.on_key(KeyEvent::Pressed(Key::Up), ctx(10)), vec![Action::SetBrightness(100)]);
    assert_eq!(d.on_key(KeyEvent::Autorepeat(Key::Up), ctx(20)), vec![Action::SetBrightness(100)]);
}

#[test]
fn power_release_suspends_and_wakes() {
    let mut d = Daemon::new(AlliumDState { time: 0, volume: 4, brightness: 60 }, settings(PowerButtonAction::Suspend), 0);
    d.on_key(KeyEvent::Pressed(Key::Power), ctx(0));
    assert_eq!(d.on_key(KeyEvent::Released(Key::Power), ctx(10)), vec![Action::Suspend, Action::PauseMain]);
    assert_eq!(d.mode(), PowerMode::Suspended);
    assert!(d.on_suspend_event(SuspendEvent::Key(KeyEvent::Pressed(Key::Power)), ctx(20)).is_empty());
    assert_eq!(
        d.on_suspend_event(SuspendEvent::Key(KeyEvent::Released(Key::Power)), ctx(30)),
        vec![Action::ResumeMain, Action::Unsuspend]
    );
    assert_eq!(d.mode(), PowerMode::Active);
}

#[test]
fn suspend_timeout_wakes_then_shuts_down() {
    let mut d = daemon(4, 60);
    d.on_key(KeyEvent::Pressed(Key::LidClose), ctx(0));
    assert_eq!(d.mode(), PowerMode::Suspended);
    let actions = d.on_suspend_event(SuspendEvent::Timeout, ctx(300_000));
    assert_eq!(
        actions,
        vec![
            Action::ResumeMain,
            Action::Unsuspend,
            Action::SaveState(AlliumDState { time: 300_000, volume: 4, brightness: 60 }),
            Action::TerminateMain,
            Action::AnnouncePowerOff,
            Action::PowerOff,
        ]
    );
}

#[test]
fn charging_block_resumes_or_powers_off() {
    let mut d = daemon(4, 60);
    assert_eq!(
        d.start(true),
        vec![
            Action::SetVolume(4),
            Action::SetBrightness(60),
            Action::PauseMain,
            Action::AnnounceCharging,
            Action::Suspend,
        ]
    );
    assert_eq!(d.mode(), PowerMode::ChargingBlock);
    assert!(d.on_charging_event(ChargingEvent::Battery(true)).is_empty());
    assert_eq!(
        d.on_charging_event(ChargingEvent::Key(KeyEvent::Released(Key::Power))),
        vec![Action::ResumeMain, Action::Unsuspend]
    );
    assert_eq!(d.mode(), PowerMode::Active);

    let mut d = daemon(4, 60);
    d.start(true);
    assert_eq!(d.on_charging_event(ChargingEvent::Battery(false)), vec![Action::PowerOff]);
    assert!(d.is_terminating());
}

#[test]
fn idle_timeout_while_charging_keeps_running() {
    let mut d = daemon(4, 60);
    d.start(true);
    assert!(d.on_idle_timeout(ctx(10)).is_empty());
    let mut d = daemon(4, 60);
    d.start(false);
    assert_eq!(d.on_idle_timeout(ctx(10)).last(), Some(&Action::PowerOff));
}
