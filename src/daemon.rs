//! The daemon's decisions: each event of the main loop, of the suspended state and of
//! the charging block, turned into the actions to perform, in order.
use vstd::prelude::*;
use crate::hotkeys::{next, verdict, Hotkey, HotkeyRouter, RouterView};
use crate::keys::{Key, KeyEvent, KEY_COUNT};
use crate::power::{
    battery_requires_shutdown, battery_shutdown_spec, BatteryReading, PowerButtonAction,
    PowerSettings, BATTERY_UPDATE_INTERVAL_MS,
};
use crate::state::{Adjustment, AlliumDState};
use crate::supervisor::{play_time_spec, play_time_to_record};

verus! {

/// The device's power state.
#[derive(Debug, Clone, Copy, PartialEq, Eq, Structural)]
pub enum PowerMode {
    Active,
    /// Held paused at startup while the battery charges.
    ChargingBlock,
    Suspended,
    ShuttingDown,
}

/// A running game, as the external session record describes it.
#[derive(Debug, Clone, Copy, PartialEq, Eq, Structural)]
pub struct GameSession {
    /// When the game started, in milliseconds.
    pub start_time: i64,
    /// Whether the game's core offers the menu overlay.
    pub has_menu: bool,
}

/// What the loop knows when an event arrives.
#[derive(Debug, Clone, Copy, PartialEq, Eq, Structural)]
pub struct Context {
    /// The clock, in milliseconds.
    pub now: i64,
    /// The running game, if any.
    pub game: Option<GameSession>,
}

impl Context {
    /// The elapsed play time fits in an `i64`.
    pub open spec fn wf(&self) -> bool {
        match self.game {
            Some(g) => i64::MIN <= self.now - g.start_time,
            None => true,
        }
    }
}

/// One thing for the event loop to do.
#[derive(Debug, Clone, Copy, PartialEq, Eq, Structural)]
pub enum Action {
    SetVolume(i32),
    SetBrightness(u8),
    /// Freeze the foreground process and the menu overlay.
    PauseChildren,
    /// Resume the foreground process and the menu overlay.
    ResumeChildren,
    /// Freeze the foreground process.
    PauseMain,
    /// Resume the foreground process.
    ResumeMain,
    /// Run the hotkey list display and wait for it.
    ShowHotkeys,
    /// Run the screenshot utility and wait for it.
    Screenshot,
    SpawnMenu,
    /// Terminate the menu overlay with the bounded protocol.
    TerminateMenu,
    /// Tell the emulator core to unpause.
    UnpauseGame,
    /// Capture the platform's suspend context.
    Suspend,
    /// Restore the platform from its suspend context.
    Unsuspend,
    /// Tell the user that the device is charging.
    AnnounceCharging,
    /// Write the state record.
    SaveState(AlliumDState),
    /// Add this many milliseconds of play time to the catalog entry of the running game.
    AddPlayTime(i64),
    /// Clear the active game marker.
    ClearGame,
    /// Start the foreground process: the saved game if there is one, else the launcher.
    SpawnMain,
    /// Terminate the foreground process with the bounded protocol.
    TerminateMain,
    /// Show and say that the device powers off.
    AnnouncePowerOff,
    /// Power the device off.
    PowerOff,
}

/// An event while suspended.
#[derive(Debug, Clone, Copy, PartialEq, Eq, Structural)]
pub enum SuspendEvent {
    Key(KeyEvent),
    /// `SUSPEND_TIMEOUT_MS` passed without a wake event.
    Timeout,
}

/// An event during the charging block.
#[derive(Debug, Clone, Copy, PartialEq, Eq, Structural)]
pub enum ChargingEvent {
    Key(KeyEvent),
    /// The periodic battery reading: whether it still charges.
    Battery(bool),
}

/// Model of the daemon.
pub struct DaemonView {
    pub state: AlliumDState,
    pub router: RouterView,
    pub settings: PowerSettings,
    pub mode: PowerMode,
    pub terminating: bool,
    pub menu_running: bool,
    pub charging: bool,
    pub battery_checked_at: i64,
}

/// The actions that record the play time of `ctx`'s game, if it is to be recorded.
pub open spec fn play_time_actions(ctx: Context) -> Seq<Action> {
    match ctx.game {
        Some(g) => match play_time_spec(g.start_time, ctx.now) {
            Some(t) => seq![Action::AddPlayTime(t)],
            None => seq![],
        },
        None => seq![],
    }
}

/// The shutdown transition: a no-op once terminating; else it sets the flag and plans
/// saving the stamped state, recording play time and closing the menu overlay if a game
/// runs, terminating the foreground process, the announcement and the power-off.
pub open spec fn shutdown_spec(v: DaemonView, ctx: Context) -> (DaemonView, Seq<Action>) {
    if v.terminating {
        (v, seq![])
    } else {
        let game_steps = if ctx.game is Some {
            play_time_actions(ctx) + if v.menu_running { seq![Action::TerminateMenu] } else { seq![] }
        } else {
            seq![]
        };
        (
            DaemonView {
                terminating: true,
                mode: PowerMode::ShuttingDown,
                menu_running: v.menu_running && ctx.game is None,
                ..v
            },
            seq![Action::SaveState(AlliumDState { time: ctx.now, ..v.state })] + game_steps
                + seq![Action::TerminateMain, Action::AnnouncePowerOff, Action::PowerOff],
        )
    }
}

/// Entering suspension: capture the platform context, then freeze the foreground process.
pub open spec fn suspend_spec(v: DaemonView) -> (DaemonView, Seq<Action>) {
    (DaemonView { mode: PowerMode::Suspended, ..v }, seq![Action::Suspend, Action::PauseMain])
}

/// Running a configured power action.
pub open spec fn power_action_spec(v: DaemonView, a: PowerButtonAction, ctx: Context) -> (DaemonView, Seq<Action>) {
    match a {
        PowerButtonAction::Suspend => suspend_spec(v),
        PowerButtonAction::Shutdown => shutdown_spec(v, ctx),
        PowerButtonAction::Nothing => (v, seq![]),
    }
}

/// A Menu tap: in a game, close the overlay if it runs, else open it if the game offers it.
pub open spec fn toggle_spec(v: DaemonView, ctx: Context) -> (DaemonView, Seq<Action>) {
    match ctx.game {
        Some(g) => if v.menu_running {
            (DaemonView { menu_running: false, ..v }, seq![Action::TerminateMenu])
        } else if g.has_menu {
            (DaemonView { menu_running: true, ..v }, seq![Action::SpawnMenu])
        } else {
            (v, seq![])
        },
        None => (v, seq![]),
    }
}

/// A key event in the main loop.
pub open spec fn key_spec(v: DaemonView, e: KeyEvent, ctx: Context) -> (DaemonView, Seq<Action>) {
    let v1 = DaemonView { router: next(v.router, e, ctx.now), ..v };
    match verdict(v.router, e, ctx.now) {
        Hotkey::PassThrough => (v1, seq![]),
        Hotkey::ShowHotkeys => (v1, seq![Action::PauseChildren, Action::ShowHotkeys, Action::ResumeChildren]),
        Hotkey::Brightness(d) => {
            let s = v1.state.adjusted(Adjustment::Brightness(d));
            (DaemonView { state: s, ..v1 }, seq![Action::SetBrightness(s.brightness)])
        },
        Hotkey::Volume(d) => {
            let s = v1.state.adjusted(Adjustment::Volume(d));
            (DaemonView { state: s, ..v1 }, seq![Action::SetVolume(s.volume)])
        },
        Hotkey::Screenshot => (v1, seq![Action::Screenshot]),
        Hotkey::PowerHeld => shutdown_spec(v1, ctx),
        Hotkey::PowerReleased => power_action_spec(v1, v.settings.power_button_action, ctx),
        Hotkey::LidClosed => power_action_spec(v1, v.settings.lid_close_action, ctx),
        Hotkey::ToggleMenu => toggle_spec(v1, ctx),
    }
}

/// A battery reading in the main loop.
pub open spec fn battery_spec(v: DaemonView, b: BatteryReading, ctx: Context) -> (DaemonView, Seq<Action>) {
    let v1 = DaemonView { charging: b.charging, battery_checked_at: ctx.now, ..v };
    if battery_shutdown_spec(b.percentage, b.charging) {
        shutdown_spec(v1, ctx)
    } else {
        (v1, seq![])
    }
}

/// The idle timer fired.
pub open spec fn idle_spec(v: DaemonView, ctx: Context) -> (DaemonView, Seq<Action>) {
    if v.settings.sleeps_on_idle_spec(v.charging) {
        shutdown_spec(v, ctx)
    } else {
        (v, seq![])
    }
}

/// The foreground process exited: unless terminating, record play time, clear the active
/// game and start the foreground process again.
pub open spec fn main_exit_spec(v: DaemonView, ctx: Context) -> (DaemonView, Seq<Action>) {
    if v.terminating {
        (v, seq![])
    } else {
        (v, play_time_actions(ctx) + seq![Action::ClearGame, Action::SpawnMain])
    }
}

/// The menu overlay exited by itself: forget it and unpause the game.
pub open spec fn menu_exit_spec(v: DaemonView) -> (DaemonView, Seq<Action>) {
    if v.menu_running {
        (DaemonView { menu_running: false, ..v }, seq![Action::UnpauseGame])
    } else {
        (v, seq![])
    }
}

/// Leaving suspension: resume the foreground process and the platform.
pub open spec fn wake_spec(v: DaemonView) -> (DaemonView, Seq<Action>) {
    (DaemonView { mode: PowerMode::Active, ..v }, seq![Action::ResumeMain, Action::Unsuspend])
}

/// An event while suspended: the power button or lid release wakes; a timeout wakes the
/// hardware and then shuts down.
pub open spec fn suspend_event_spec(v: DaemonView, e: SuspendEvent, ctx: Context) -> (DaemonView, Seq<Action>) {
    match e {
        SuspendEvent::Key(k) => if k == KeyEvent::Released(Key::Power) || k == KeyEvent::Released(Key::LidClose) {
            wake_spec(v)
        } else {
            (v, seq![])
        },
        SuspendEvent::Timeout => {
            let (v1, a1) = wake_spec(v);
            let (v2, a2) = shutdown_spec(v1, ctx);
            (v2, a1 + a2)
        },
    }
}

/// An event in the charging block: a power button release resumes normal operation;
/// losing the charger powers off at once.
pub open spec fn charging_event_spec(v: DaemonView, e: ChargingEvent) -> (DaemonView, Seq<Action>) {
    match e {
        ChargingEvent::Key(k) => if k == KeyEvent::Released(Key::Power) {
            wake_spec(v)
        } else {
            (v, seq![])
        },
        ChargingEvent::Battery(charging) => if charging {
            (v, seq![])
        } else {
            (
                DaemonView { terminating: true, mode: PowerMode::ShuttingDown, ..v },
                seq![Action::PowerOff],
            )
        },
    }
}

/// Invoking the shutdown transition twice performs its sequence once: the second call
/// plans nothing and changes nothing; the first, unless already terminating, plans one
/// state write first, one termination of the foreground process and one power-off last.
pub proof fn lemma_shutdown_idempotent(v: DaemonView, c1: Context, c2: Context)
    ensures
        shutdown_spec(v, c1).0.terminating,
        shutdown_spec(shutdown_spec(v, c1).0, c2).1 == Seq::<Action>::empty(),
        shutdown_spec(shutdown_spec(v, c1).0, c2).0 == shutdown_spec(v, c1).0,
        v.terminating ==> shutdown_spec(v, c1).1.len() == 0,
        !v.terminating ==> ({
            let p = shutdown_spec(v, c1).1;
            &&& p.len() >= 4
            &&& p[0] == Action::SaveState(AlliumDState { time: c1.now, ..v.state })
            &&& forall|i: int| 0 < i < p.len() ==> !(#[trigger] p[i] is SaveState)
            &&& p[p.len() - 3] == Action::TerminateMain
            &&& forall|i: int| 0 <= i < p.len() && i != p.len() - 3 ==> #[trigger] p[i] != Action::TerminateMain
            &&& p[p.len() - 1] == Action::PowerOff
            &&& forall|i: int| 0 <= i < p.len() - 1 ==> #[trigger] p[i] != Action::PowerOff
        }),
{
    if !v.terminating {
        let head = seq![Action::SaveState(AlliumDState { time: c1.now, ..v.state })];
        let game_steps = if c1.game is Some {
            play_time_actions(c1) + if v.menu_running { seq![Action::TerminateMenu] } else { seq![] }
        } else {
            seq![]
        };
        let tail = seq![Action::TerminateMain, Action::AnnouncePowerOff, Action::PowerOff];
        let p = shutdown_spec(v, c1).1;
        assert(p == head + game_steps + tail);
        assert forall|i: int| 0 <= i < game_steps.len() implies
            !(#[trigger] game_steps[i] is SaveState) && game_steps[i] != Action::TerminateMain
                && game_steps[i] != Action::PowerOff by {
            if c1.game is Some {
                let pt = play_time_actions(c1);
                if i < pt.len() {
                    assert(pt[i] is AddPlayTime);
                } else {
                    assert(game_steps[i] == Action::TerminateMenu);
                }
            }
        }
        assert forall|i: int| 0 < i < p.len() implies !(#[trigger] p[i] is SaveState) by {
            if i < 1 + game_steps.len() {
                assert(p[i] == game_steps[i - 1]);
            } else {
                assert(p[i] == tail[i - 1 - game_steps.len()]);
            }
        }
        assert forall|i: int| 0 <= i < p.len() && i != p.len() - 3 implies #[trigger] p[i] != Action::TerminateMain by {
            if 0 < i < 1 + game_steps.len() {
                assert(p[i] == game_steps[i - 1]);
            } else if i >= 1 + game_steps.len() {
                assert(p[i] == tail[i - 1 - game_steps.len()]);
            }
        }
        assert forall|i: int| 0 <= i < p.len() - 1 implies #[trigger] p[i] != Action::PowerOff by {
            if 0 < i < 1 + game_steps.len() {
                assert(p[i] == game_steps[i - 1]);
            } else if i >= 1 + game_steps.len() {
                assert(p[i] == tail[i - 1 - game_steps.len()]);
            }
        }
    }
}

/// The termination flag is one-way: no event of any loop clears it.
pub proof fn lemma_termination_flag_monotonic(
    v: DaemonView,
    e: KeyEvent,
    b: BatteryReading,
    se: SuspendEvent,
    ce: ChargingEvent,
    ctx: Context,
)
    requires
        v.terminating,
    ensures
        key_spec(v, e, ctx).0.terminating,
        battery_spec(v, b, ctx).0.terminating,
        idle_spec(v, ctx).0.terminating,
        shutdown_spec(v, ctx).0.terminating,
        main_exit_spec(v, ctx).0.terminating,
        menu_exit_spec(v).0.terminating,
        suspend_event_spec(v, se, ctx).0.terminating,
        charging_event_spec(v, ce).0.terminating,
{
}

/// At most one menu overlay: a key event plans to spawn one only when none runs, and
/// then records that one runs; it plans to close one only when one runs.
pub proof fn lemma_single_menu_overlay(v: DaemonView, e: KeyEvent, ctx: Context)
    ensures
        key_spec(v, e, ctx).1.contains(Action::SpawnMenu) ==> !v.menu_running && key_spec(v, e, ctx).0.menu_running,
        key_spec(v, e, ctx).1.contains(Action::TerminateMenu) ==> v.menu_running && !key_spec(v, e, ctx).0.menu_running,
{
    let r = key_spec(v, e, ctx);
    if r.1.contains(Action::SpawnMenu) || r.1.contains(Action::TerminateMenu) {
        let v1 = DaemonView { router: next(v.router, e, ctx.now), ..v };
        match verdict(v.router, e, ctx.now) {
            Hotkey::ToggleMenu => {},
            Hotkey::PowerHeld => lemma_plan_spawns_no_menu(v1, ctx),
            Hotkey::PowerReleased => lemma_plan_spawns_no_menu(v1, ctx),
            Hotkey::LidClosed => lemma_plan_spawns_no_menu(v1, ctx),
            Hotkey::ShowHotkeys => {
                assert(r.1[0] != Action::SpawnMenu && r.1[1] != Action::SpawnMenu && r.1[2] != Action::SpawnMenu);
                assert(r.1[0] != Action::TerminateMenu && r.1[1] != Action::TerminateMenu && r.1[2] != Action::TerminateMenu);
            },
            _ => {
                assert(r.1.len() <= 1);
            },
        }
    }
}

/// Shutdown and suspension never spawn a menu overlay, and close one only if one runs.
proof fn lemma_plan_spawns_no_menu(v: DaemonView, ctx: Context)
    ensures
        !shutdown_spec(v, ctx).1.contains(Action::SpawnMenu),
        !suspend_spec(v).1.contains(Action::SpawnMenu),
        shutdown_spec(v, ctx).1.contains(Action::TerminateMenu) ==> v.menu_running && !shutdown_spec(v, ctx).0.menu_running,
        !suspend_spec(v).1.contains(Action::TerminateMenu),
{
    let s = suspend_spec(v).1;
    assert(s[0] != Action::SpawnMenu && s[1] != Action::SpawnMenu);
    assert(s[0] != Action::TerminateMenu && s[1] != Action::TerminateMenu);
    if !v.terminating {
        let head = seq![Action::SaveState(AlliumDState { time: ctx.now, ..v.state })];
        let game_steps = if ctx.game is Some {
            play_time_actions(ctx) + if v.menu_running { seq![Action::TerminateMenu] } else { seq![] }
        } else {
            seq![]
        };
        let tail = seq![Action::TerminateMain, Action::AnnouncePowerOff, Action::PowerOff];
        let p = shutdown_spec(v, ctx).1;
        assert(p == head + game_steps + tail);
        let pt = play_time_actions(ctx);
        assert forall|i: int| 0 <= i < pt.len() implies #[trigger] pt[i] is AddPlayTime by {}
        assert forall|i: int| 0 <= i < p.len() implies #[trigger] p[i] != Action::SpawnMenu
            && (p[i] == Action::TerminateMenu ==> v.menu_running && ctx.game is Some) by {
            if 0 < i < 1 + game_steps.len() {
                assert(p[i] == game_steps[i - 1]);
                if ctx.game is Some && i - 1 < pt.len() {
                    assert(game_steps[i - 1] == pt[i - 1]);
                }
            } else if i >= 1 + game_steps.len() {
                assert(p[i] == tail[i - 1 - game_steps.len()]);
            }
        }
    }
}

/// The daemon's decision core: it owns the persisted state, the key router, the power
/// settings, the termination flag and what it knows of the children.
#[derive(Debug)]
pub struct Daemon {
    state: AlliumDState,
    router: HotkeyRouter,
    settings: PowerSettings,
    mode: PowerMode,
    terminating: bool,
    menu_running: bool,
    charging: bool,
    battery_checked_at: i64,
}

impl View for Daemon {
    type V = DaemonView;

    closed spec fn view(&self) -> DaemonView {
        DaemonView {
            state: self.state,
            router: self.router@,
            settings: self.settings,
            mode: self.mode,
            terminating: self.terminating,
            menu_running: self.menu_running,
            charging: self.charging,
            battery_checked_at: self.battery_checked_at,
        }
    }
}

impl Daemon {
    pub open spec fn wf(&self) -> bool {
        self@.state.wf() && self@.router.held.len() == KEY_COUNT
    }

    /// A daemon with the restored `state` and the user's `settings`, started at `now`
    /// (milliseconds), with the foreground process running and no menu overlay.
    pub fn new(state: AlliumDState, settings: PowerSettings, now: i64) -> (r: Daemon)
        requires
            state.wf(),
        ensures
            r.wf(),
            r@.state == state,
            r@.settings == settings,
            r@.mode == PowerMode::Active,
            !r@.terminating,
            !r@.menu_running,
            !r@.charging,
            r@.battery_checked_at == now,
            forall|i: int| 0 <= i < KEY_COUNT ==> !r@.router.held[i],
            !r@.router.menu_alone,
    {
        Daemon {
            state,
            router: HotkeyRouter::new(),
            settings,
            mode: PowerMode::Active,
            terminating: false,
            menu_running: false,
            charging: false,
            battery_checked_at: now,
        }
    }

    /// The current state record.
    pub fn state(&self) -> (r: AlliumDState)
        ensures
            r == self@.state,
    {
        self.state
    }

    /// The power state.
    pub fn mode(&self) -> (r: PowerMode)
        ensures
            r == self@.mode,
    {
        self.mode
    }

    /// Whether the shutdown sequence has begun.
    pub fn is_terminating(&self) -> (r: bool)
        ensures
            r == self@.terminating,
    {
        self.terminating
    }

    /// Whether the menu overlay runs.
    pub fn is_menu_running(&self) -> (r: bool)
        ensures
            r == self@.menu_running,
    {
        self.menu_running
    }

    /// The shutdown transition; a second call does nothing.
    pub fn shutdown(&mut self, ctx: Context) -> (r: Vec<Action>)
        requires
            old(self).wf(),
            ctx.wf(),
        ensures
            final(self).wf(),
            (final(self)@, r@) == shutdown_spec(old(self)@, ctx),
    {
        let mut actions: Vec<Action> = Vec::new();
        if self.terminating {
            return actions;
        }
        self.terminating = true;
        self.mode = PowerMode::ShuttingDown;
        actions.push(Action::SaveState(self.state.stamped(ctx.now)));
        let ghost game_start = actions@.len();
        if let Some(g) = ctx.game {
            if let Some(t) = play_time_to_record(g.start_time, ctx.now) {
                actions.push(Action::AddPlayTime(t));
            }
            if self.menu_running {
                actions.push(Action::TerminateMenu);
                self.menu_running = false;
            }
        }
        actions.push(Action::TerminateMain);
        actions.push(Action::AnnouncePowerOff);
        actions.push(Action::PowerOff);
        proof {
            assert(actions@ =~= shutdown_spec(old(self)@, ctx).1);
        }
        actions
    }

    /// Enters suspension.
    fn suspend(&mut self) -> (r: Vec<Action>)
        requires
            old(self).wf(),
        ensures
            final(self).wf(),
            (final(self)@, r@) == suspend_spec(old(self)@),
    {
        self.mode = PowerMode::Suspended;
        let mut actions: Vec<Action> = Vec::new();
        actions.push(Action::Suspend);
        actions.push(Action::PauseMain);
        proof {
            assert(actions@ =~= suspend_spec(old(self)@).1);
        }
        actions
    }

    /// Runs the configured power action `a`.
    fn power_action(&mut self, a: PowerButtonAction, ctx: Context) -> (r: Vec<Action>)
        requires
            old(self).wf(),
            ctx.wf(),
        ensures
            final(self).wf(),
            (final(self)@, r@) == power_action_spec(old(self)@, a, ctx),
    {
        match a {
            PowerButtonAction::Suspend => self.suspend(),
            PowerButtonAction::Shutdown => self.shutdown(ctx),
            PowerButtonAction::Nothing => Vec::new(),
        }
    }

    /// Opens or closes the menu overlay after a Menu tap.
    fn toggle_menu(&mut self, ctx: Context) -> (r: Vec<Action>)
        requires
            old(self).wf(),
        ensures
            final(self).wf(),
            (final(self)@, r@) == toggle_spec(old(self)@, ctx),
    {
        let mut actions: Vec<Action> = Vec::new();
        if let Some(g) = ctx.game {
            if self.menu_running {
                self.menu_running = false;
                actions.push(Action::TerminateMenu);
            } else if g.has_menu {
                self.menu_running = true;
                actions.push(Action::SpawnMenu);
            }
        }
        proof {
            assert(actions@ =~= toggle_spec(old(self)@, ctx).1);
        }
        actions
    }

    /// Handles a key event of the main loop.
    pub fn on_key(&mut self, e: KeyEvent, ctx: Context) -> (r: Vec<Action>)
        requires
            old(self).wf(),
            ctx.wf(),
        ensures
            final(self).wf(),
            (final(self)@, r@) == key_spec(old(self)@, e, ctx),
    {
        let h = self.router.handle(e, ctx.now);
        let mut actions: Vec<Action> = Vec::new();
        match h {
            Hotkey::PassThrough => {},
            Hotkey::ShowHotkeys => {
                actions.push(Action::PauseChildren);
                actions.push(Action::ShowHotkeys);
                actions.push(Action::ResumeChildren);
            },
            Hotkey::Brightness(d) => {
                self.state.add_brightness(d);
                actions.push(Action::SetBrightness(self.state.brightness));
            },
            Hotkey::Volume(d) => {
                self.state.add_volume(d);
                actions.push(Action::SetVolume(self.state.volume));
            },
            Hotkey::Screenshot => actions.push(Action::Screenshot),
            Hotkey::PowerHeld => {
                actions = self.shutdown(ctx);
            },
            Hotkey::PowerReleased => {
                let a = self.settings.power_button_action;
                actions = self.power_action(a, ctx);
            },
            Hotkey::LidClosed => {
                let a = self.settings.lid_close_action;
                actions = self.power_action(a, ctx);
            },
            Hotkey::ToggleMenu => {
                actions = self.toggle_menu(ctx);
            },
        }
        proof {
            assert(actions@ =~= key_spec(old(self)@, e, ctx).1);
        }
        actions
    }

    /// Whether the battery is due for a reading at `now`.
    pub fn battery_check_due(&self, now: i64) -> (r: bool)
        ensures
            r == (now - self@.battery_checked_at >= BATTERY_UPDATE_INTERVAL_MS),
    {
        crate::power::battery_check_due(self.battery_checked_at, now)
    }

    /// Handles a battery reading of the main loop: a low battery that is not charging
    /// shuts the device down.
    pub fn on_battery(&mut self, b: BatteryReading, ctx: Context) -> (r: Vec<Action>)
        requires
            old(self).wf(),
            ctx.wf(),
        ensures
            final(self).wf(),
            (final(self)@, r@) == battery_spec(old(self)@, b, ctx),
    {
        self.charging = b.charging;
        self.battery_checked_at = ctx.now;
        if battery_requires_shutdown(b.percentage, b.charging) {
            self.shutdown(ctx)
        } else {
            Vec::new()
        }
    }

    /// Handles the idle timer: shut down unless charging with auto-sleep while charging off.
    pub fn on_idle_timeout(&mut self, ctx: Context) -> (r: Vec<Action>)
        requires
            old(self).wf(),
            ctx.wf(),
        ensures
            final(self).wf(),
            (final(self)@, r@) == idle_spec(old(self)@, ctx),
    {
        if self.settings.sleeps_on_idle(self.charging) {
            self.shutdown(ctx)
        } else {
            Vec::new()
        }
    }

    /// Handles an interrupt or terminate signal: the same as any shutdown trigger.
    pub fn on_signal(&mut self, ctx: Context) -> (r: Vec<Action>)
        requires
            old(self).wf(),
            ctx.wf(),
        ensures
            final(self).wf(),
            (final(self)@, r@) == shutdown_spec(old(self)@, ctx),
    {
        self.shutdown(ctx)
    }

    /// Handles the exit of the foreground process.
    pub fn on_main_exited(&mut self, ctx: Context) -> (r: Vec<Action>)
        requires
            ctx.wf(),
        ensures
            (final(self)@, r@) == main_exit_spec(old(self)@, ctx),
    {
        let mut actions: Vec<Action> = Vec::new();
        if self.terminating {
            return actions;
        }
        if let Some(g) = ctx.game {
            if let Some(t) = play_time_to_record(g.start_time, ctx.now) {
                actions.push(Action::AddPlayTime(t));
            }
        }
        actions.push(Action::ClearGame);
        actions.push(Action::SpawnMain);
        proof {
            assert(actions@ =~= main_exit_spec(old(self)@, ctx).1);
        }
        actions
    }

    /// Handles the menu overlay exiting by itself.
    pub fn on_menu_exited(&mut self) -> (r: Vec<Action>)
        ensures
            (final(self)@, r@) == menu_exit_spec(old(self)@),
    {
        let mut actions: Vec<Action> = Vec::new();
        if self.menu_running {
            self.menu_running = false;
            actions.push(Action::UnpauseGame);
        }
        proof {
            assert(actions@ =~= menu_exit_spec(old(self)@).1);
        }
        actions
    }

    /// Leaves suspension or the charging block.
    fn wake(&mut self) -> (r: Vec<Action>)
        requires
            old(self).wf(),
        ensures
            final(self).wf(),
            (final(self)@, r@) == wake_spec(old(self)@),
    {
        self.mode = PowerMode::Active;
        let mut actions: Vec<Action> = Vec::new();
        actions.push(Action::ResumeMain);
        actions.push(Action::Unsuspend);
        proof {
            assert(actions@ =~= wake_spec(old(self)@).1);
        }
        actions
    }

    /// Handles an event while suspended.
    pub fn on_suspend_event(&mut self, e: SuspendEvent, ctx: Context) -> (r: Vec<Action>)
        requires
            old(self).wf(),
            ctx.wf(),
        ensures
            final(self).wf(),
            (final(self)@, r@) == suspend_event_spec(old(self)@, e, ctx),
    {
        match e {
            SuspendEvent::Key(k) => {
                if k == KeyEvent::Released(Key::Power) || k == KeyEvent::Released(Key::LidClose) {
                    self.wake()
                } else {
                    Vec::new()
                }
            },
            SuspendEvent::Timeout => {
                let mut actions = self.wake();
                let mut rest = self.shutdown(ctx);
                actions.append(&mut rest);
                actions
            },
        }
    }

    /// Starts the main loop: apply the restored volume and brightness, and enter the
    /// charging block if the battery charges.
    pub fn start(&mut self, charging: bool) -> (r: Vec<Action>)
        requires
            old(self).wf(),
        ensures
            final(self).wf(),
            final(self)@ == (DaemonView {
                charging,
                mode: if charging { PowerMode::ChargingBlock } else { old(self)@.mode },
                ..old(self)@
            }),
            r@ == seq![Action::SetVolume(old(self)@.state.volume), Action::SetBrightness(old(self)@.state.brightness)]
                + if charging {
                    seq![Action::PauseMain, Action::AnnounceCharging, Action::Suspend]
                } else {
                    Seq::<Action>::empty()
                },
    {
        self.charging = charging;
        let mut actions: Vec<Action> = Vec::new();
        actions.push(Action::SetVolume(self.state.volume));
        actions.push(Action::SetBrightness(self.state.brightness));
        if charging {
            self.mode = PowerMode::ChargingBlock;
            actions.push(Action::PauseMain);
            actions.push(Action::AnnounceCharging);
            actions.push(Action::Suspend);
        }
        proof {
            assert(actions@ =~= seq![Action::SetVolume(old(self)@.state.volume), Action::SetBrightness(old(self)@.state.brightness)]
                + if charging {
                    seq![Action::PauseMain, Action::AnnounceCharging, Action::Suspend]
                } else {
                    Seq::<Action>::empty()
                });
        }
        actions
    }

    /// Handles an event of the charging block.
    pub fn on_charging_event(&mut self, e: ChargingEvent) -> (r: Vec<Action>)
        requires
            old(self).wf(),
        ensures
            final(self).wf(),
            (final(self)@, r@) == charging_event_spec(old(self)@, e),
    {
        match e {
            ChargingEvent::Key(k) => {
                if k == KeyEvent::Released(Key::Power) {
                    self.wake()
                } else {
                    Vec::new()
                }
            },
            ChargingEvent::Battery(charging) => {
                let mut actions: Vec<Action> = Vec::new();
                if !charging {
                    self.terminating = true;
                    self.mode = PowerMode::ShuttingDown;
                    actions.push(Action::PowerOff);
                }
                proof {
                    assert(actions@ =~= charging_event_spec(old(self)@, e).1);
                }
                actions
            },
        }
    }
}



} // verus!
