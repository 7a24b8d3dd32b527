//! The small record that survives reboots: last active time, volume and brightness.
use vstd::prelude::*;

verus! {

/// Highest volume level.
pub const MAX_VOLUME: i32 = 20;

/// Highest brightness level.
pub const MAX_BRIGHTNESS: u8 = 100;

/// Volume on first boot.
pub const DEFAULT_VOLUME: i32 = 0;

/// Brightness on first boot.
pub const DEFAULT_BRIGHTNESS: u8 = 50;

/// Relies on chrono::Utc::now and DateTime::timestamp_millis: the wall clock in
/// milliseconds since the Unix epoch. Nothing is known of the value.
#[verifier::external_body]
fn wall_clock_millis() -> (r: i64) {
    chrono::Utc::now().timestamp_millis()
}

/// Clamps `v` into `[lo, hi]`.
pub open spec fn clamp(v: int, lo: int, hi: int) -> int {
    if v < lo {
        lo
    } else if v > hi {
        hi
    } else {
        v
    }
}

/// The persisted daemon state. `time` is in milliseconds since the Unix epoch.
#[derive(Debug, Clone, Copy, PartialEq, Eq, Structural)]
pub struct AlliumDState {
    pub time: i64,
    pub volume: i32,
    pub brightness: u8,
}

/// What was found at the state record's location.
#[derive(Debug, Clone, Copy, PartialEq, Eq, Structural)]
pub enum StateFile {
    /// No record exists.
    Absent,
    /// A record exists but could not be read or parsed.
    Unreadable,
    /// A record was parsed.
    Present(AlliumDState),
}

/// The result of restoring the state at startup.
#[derive(Debug, Clone, Copy, PartialEq, Eq, Structural)]
pub struct LoadOutcome {
    pub state: AlliumDState,
    /// The record is corrupt and must be deleted.
    pub remove_record: bool,
    /// The clock lags behind the record: set the system and hardware clocks to `state.time`.
    pub advance_clock: bool,
}

/// One adjustment requested by the user.
#[derive(Debug, Clone, Copy, PartialEq, Eq, Structural)]
pub enum Adjustment {
    Volume(i32),
    Brightness(i32),
}

impl AlliumDState {
    /// Volume and brightness lie in their ranges.
    pub open spec fn wf(&self) -> bool {
        0 <= self.volume <= MAX_VOLUME && self.brightness <= MAX_BRIGHTNESS
    }

    /// The state of a first boot at time `now`.
    pub open spec fn defaults(now: i64) -> AlliumDState {
        AlliumDState { time: now, volume: DEFAULT_VOLUME, brightness: DEFAULT_BRIGHTNESS }
    }

    /// What restoring from `file` gives when the clock reads `now`.
    pub open spec fn load_spec(file: StateFile, now: i64) -> LoadOutcome {
        match file {
            StateFile::Present(s) => if s.wf() {
                LoadOutcome { state: s, remove_record: false, advance_clock: now < s.time }
            } else {
                LoadOutcome { state: Self::defaults(now), remove_record: true, advance_clock: false }
            },
            StateFile::Unreadable => LoadOutcome {
                state: Self::defaults(now),
                remove_record: true,
                advance_clock: false,
            },
            StateFile::Absent => LoadOutcome {
                state: Self::defaults(now),
                remove_record: false,
                advance_clock: false,
            },
        }
    }

    /// The state after one adjustment.
    pub open spec fn adjusted(self, a: Adjustment) -> AlliumDState {
        match a {
            Adjustment::Volume(d) => AlliumDState {
                volume: clamp(self.volume + d, 0, MAX_VOLUME as int) as i32,
                ..self
            },
            Adjustment::Brightness(d) => AlliumDState {
                brightness: clamp(self.brightness + d, 0, MAX_BRIGHTNESS as int) as u8,
                ..self
            },
        }
    }

    /// The state after a sequence of adjustments, applied in order.
    pub open spec fn adjusted_all(self, adjs: Seq<Adjustment>) -> AlliumDState
        decreases adjs.len(),
    {
        if adjs.len() == 0 {
            self
        } else {
            self.adjusted(adjs[0]).adjusted_all(adjs.drop_first())
        }
    }

    /// Whether volume and brightness lie in their ranges.
    pub fn is_valid(&self) -> (r: bool)
        ensures
            r == self.wf(),
    {
        0 <= self.volume && self.volume <= MAX_VOLUME && self.brightness <= MAX_BRIGHTNESS
    }

    /// The first-boot state, stamped with the current wall clock.
    pub fn new() -> (r: AlliumDState)
        ensures
            r.volume == DEFAULT_VOLUME,
            r.brightness == DEFAULT_BRIGHTNESS,
            r.wf(),
    {
        AlliumDState { time: wall_clock_millis(), volume: DEFAULT_VOLUME, brightness: DEFAULT_BRIGHTNESS }
    }

    /// Restores the state from what was found on storage, `now` being the clock's reading.
    /// A corrupt record, or one whose values are out of range, gives the defaults and is
    /// to be removed; a record from the future means the clock must be advanced to it.
    pub fn load(file: StateFile, now: i64) -> (r: LoadOutcome)
        ensures
            r == Self::load_spec(file, now),
            r.state.wf(),
    {
        match file {
            StateFile::Present(s) => {
                if s.is_valid() {
                    LoadOutcome { state: s, remove_record: false, advance_clock: now < s.time }
                } else {
                    LoadOutcome {
                        state: AlliumDState { time: now, volume: DEFAULT_VOLUME, brightness: DEFAULT_BRIGHTNESS },
                        remove_record: true,
                        advance_clock: false,
                    }
                }
            },
            StateFile::Unreadable => LoadOutcome {
                state: AlliumDState { time: now, volume: DEFAULT_VOLUME, brightness: DEFAULT_BRIGHTNESS },
                remove_record: true,
                advance_clock: false,
            },
            StateFile::Absent => LoadOutcome {
                state: AlliumDState { time: now, volume: DEFAULT_VOLUME, brightness: DEFAULT_BRIGHTNESS },
                remove_record: false,
                advance_clock: false,
            },
        }
    }

    /// The record to write at shutdown: the same settings, stamped with `now`.
    pub fn stamped(&self, now: i64) -> (r: AlliumDState)
        ensures
            r == (AlliumDState { time: now, ..*self }),
    {
        AlliumDState { time: now, volume: self.volume, brightness: self.brightness }
    }

    /// Adds `delta` to the volume, clamping into `[0, MAX_VOLUME]`.
    pub fn add_volume(&mut self, delta: i32)
        ensures
            *final(self) == old(self).adjusted(Adjustment::Volume(delta)),
    {
        let v: i64 = self.volume as i64 + delta as i64;
        self.volume = if v < 0 {
            0
        } else if v > MAX_VOLUME as i64 {
            MAX_VOLUME
        } else {
            v as i32
        };
    }

    /// Adds `delta` to the brightness, clamping into `[0, MAX_BRIGHTNESS]`.
    pub fn add_brightness(&mut self, delta: i32)
        ensures
            *final(self) == old(self).adjusted(Adjustment::Brightness(delta)),
    {
        let b: i64 = self.brightness as i64 + delta as i64;
        self.brightness = if b < 0 {
            0
        } else if b > MAX_BRIGHTNESS as i64 {
            MAX_BRIGHTNESS
        } else {
            b as u8
        };
    }

    /// Applies one adjustment.
    pub fn adjust(&mut self, a: Adjustment)
        ensures
            *final(self) == old(self).adjusted(a),
    {
        match a {
            Adjustment::Volume(d) => self.add_volume(d),
            Adjustment::Brightness(d) => self.add_brightness(d),
        }
    }
}

/// From a valid state, any sequence of adjustments leaves volume in `[0, MAX_VOLUME]`
/// and brightness in `[0, MAX_BRIGHTNESS]`; each step clamps the request instead of
/// rejecting it, and the time is untouched.
pub proof fn lemma_adjustments_stay_in_range(s: AlliumDState, adjs: Seq<Adjustment>)
    requires
        s.wf(),
    ensures
        s.adjusted_all(adjs).wf(),
        s.adjusted_all(adjs).time == s.time,
        forall|d: i32| #![auto] s.adjusted(Adjustment::Volume(d)).volume
            == clamp(s.volume + d, 0, MAX_VOLUME as int),
        forall|d: i32| #![auto] s.adjusted(Adjustment::Brightness(d)).brightness
            == clamp(s.brightness + d, 0, MAX_BRIGHTNESS as int),
    decreases adjs.len(),
{
    if adjs.len() > 0 {
        lemma_adjustments_stay_in_range(s.adjusted(adjs[0]), adjs.drop_first());
    }
}

/// Restoring a record that was saved from a valid state gives back its volume and
/// brightness, whatever the clock reads.
pub proof fn lemma_state_round_trip(s: AlliumDState, now: i64)
    requires
        s.wf(),
    ensures
        AlliumDState::load_spec(StateFile::Present(s), now).state.volume == s.volume,
        AlliumDState::load_spec(StateFile::Present(s), now).state.brightness == s.brightness,
        !AlliumDState::load_spec(StateFile::Present(s), now).remove_record,
{
}

} // verus!
