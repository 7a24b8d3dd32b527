//! Power policy: battery protection, auto-sleep and the configured power actions.
use vstd::prelude::*;

verus! {

/// Battery percentage at or below which the device shuts down unless charging.
pub const BATTERY_SHUTDOWN_THRESHOLD: i32 = 5;

/// How often the battery is read while active, in milliseconds.
pub const BATTERY_UPDATE_INTERVAL_MS: i64 = 5000;

/// How long the device may stay suspended before it shuts down, in milliseconds.
pub const SUSPEND_TIMEOUT_MS: i64 = 300_000;

/// What a power-button release or a lid close does.
#[derive(Debug, Clone, Copy, PartialEq, Eq, Structural)]
pub enum PowerButtonAction {
    Suspend,
    Shutdown,
    Nothing,
}

/// The user's power settings.
#[derive(Debug, Clone, Copy, PartialEq, Eq, Structural)]
pub struct PowerSettings {
    pub power_button_action: PowerButtonAction,
    pub lid_close_action: PowerButtonAction,
    /// Minutes without input before shutting down; 0 disables it.
    pub auto_sleep_duration_minutes: u32,
    /// Whether the idle timeout applies while charging.
    pub auto_sleep_when_charging: bool,
}

/// One battery reading.
#[derive(Debug, Clone, Copy, PartialEq, Eq, Structural)]
pub struct BatteryReading {
    pub percentage: i32,
    pub charging: bool,
}

/// Whether a battery at `percentage`, charging or not, must shut the device down.
pub open spec fn battery_shutdown_spec(percentage: i32, charging: bool) -> bool {
    percentage <= BATTERY_SHUTDOWN_THRESHOLD && !charging
}

/// Whether a battery at `percentage`, charging or not, must shut the device down.
pub fn battery_requires_shutdown(percentage: i32, charging: bool) -> (r: bool)
    ensures
        r == battery_shutdown_spec(percentage, charging),
{
    percentage <= BATTERY_SHUTDOWN_THRESHOLD && !charging
}

/// Whether the battery is due for a reading at `now`, the last one having been at `last`.
pub fn battery_check_due(last: i64, now: i64) -> (r: bool)
    ensures
        r == (now - last >= BATTERY_UPDATE_INTERVAL_MS),
{
    now as i128 - last as i128 >= BATTERY_UPDATE_INTERVAL_MS as i128
}

impl PowerSettings {
    /// Whether an idle timeout puts the device to sleep, given the charging state.
    pub open spec fn sleeps_on_idle_spec(&self, charging: bool) -> bool {
        self.auto_sleep_when_charging || !charging
    }

    /// How long the device may idle, in milliseconds; `None` when auto-sleep is off.
    pub fn auto_sleep_after_ms(&self) -> (r: Option<u64>)
        ensures
            self.auto_sleep_duration_minutes == 0 ==> r is None,
            self.auto_sleep_duration_minutes != 0 ==> r == Some((self.auto_sleep_duration_minutes * 60_000) as u64),
    {
        if self.auto_sleep_duration_minutes == 0 {
            None
        } else {
            Some(self.auto_sleep_duration_minutes as u64 * 60_000)
        }
    }

    /// Whether an idle timeout puts the device to sleep, given the charging state: it does
    /// unless charging with auto-sleep while charging turned off.
    pub fn sleeps_on_idle(&self, charging: bool) -> (r: bool)
        ensures
            r == self.sleeps_on_idle_spec(charging),
    {
        self.auto_sleep_when_charging || !charging
    }
}

} // verus!
