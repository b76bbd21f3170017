use vstd::prelude::*;
use crate::workspace_switcher::DisplayInfo;
use crate::text::{decimal, unsigned_decimal};
use global_hotkey::hotkey::{Code, HotKey, Modifiers};

verus! {

/// What the background threads share: the desktop shown in the menu bar, the
/// display the cursor was last seen on, and whether Mission Control is open.
#[derive(Clone, Copy, Debug, PartialEq, Eq, Structural)]
pub struct AppState {
    pub current_desktop: u32,
    pub last_cursor_display: u32,
    pub mission_control_active: bool,
}

/// The state at start: the desktop the cursor is on (desktop 1 when it cannot
/// be found), no display seen yet, Mission Control closed.
pub fn initial_app_state(initial_desktop: &Result<u32, String>) -> (state: AppState)
    ensures
        state.current_desktop == match *initial_desktop { Ok(d) => d, Err(_) => 1u32 },
        state.last_cursor_display == 0,
        !state.mission_control_active,
{
    let current_desktop = match initial_desktop {
        Ok(d) => *d,
        Err(_) => 1,
    };
    AppState { current_desktop, last_cursor_display: 0, mission_control_active: false }
}

/// The text shown in the menu bar for a desktop: its number.
pub fn tray_title(desktop: u32) -> (title: String)
    ensures
        title@ == decimal(desktop as int),
{
    unsigned_decimal(desktop as u64)
}

/// The ids of the four registered hotkeys: Alt+H, Alt+L, Alt+E and Alt+Tab.
#[derive(Clone, Copy, Debug, PartialEq, Eq, Structural)]
pub struct HotkeyIds {
    pub left: u32,
    pub right: u32,
    pub mission_control: u32,
    pub window_cycle: u32,
}

/// The keys that the helper registers, each pressed with Alt (Option): H
/// switches left, L right, E toggles Mission Control, Tab cycles windows.
#[derive(Clone, Copy, Debug, PartialEq, Eq, Structural)]
pub enum ShortcutKey {
    H,
    L,
    E,
    Tab,
}

/// The number of a key's code in the hotkey library: its position in the
/// list of physical key codes.
pub open spec fn key_code_number(key: ShortcutKey) -> u32 {
    match key {
        ShortcutKey::H => 26,
        ShortcutKey::L => 30,
        ShortcutKey::E => 23,
        ShortcutKey::Tab => 63,
    }
}

/// The id the hotkey library gives Alt together with a key: the Alt modifier
/// bit (1) shifted to the upper half, joined with the key's code number.
pub open spec fn alt_hotkey(key: ShortcutKey) -> u32 {
    ((1u32 << 16u32) | key_code_number(key)) as u32
}

/// Calls `HotKey::new(Some(Modifiers::ALT), code)` and `HotKey::id` of the
/// `global-hotkey` crate. Claimed, as its source computes it: the id is the
/// modifier bits shifted left by 16 joined with the key code's number, Alt
/// being bit 1.
#[verifier::external_body]
fn alt_hotkey_id(key: ShortcutKey) -> (id: u32)
    ensures
        id == alt_hotkey(key),
{
    let code = match key {
        ShortcutKey::H => Code::KeyH,
        ShortcutKey::L => Code::KeyL,
        ShortcutKey::E => Code::KeyE,
        ShortcutKey::Tab => Code::Tab,
    };
    HotKey::new(Some(Modifiers::ALT), code).id()
}

/// The ids of the hotkeys the helper registers: Alt+H, Alt+L, Alt+E, Alt+Tab.
pub fn registered_hotkey_ids() -> (ids: HotkeyIds)
    ensures
        ids == (HotkeyIds {
            left: alt_hotkey(ShortcutKey::H),
            right: alt_hotkey(ShortcutKey::L),
            mission_control: alt_hotkey(ShortcutKey::E),
            window_cycle: alt_hotkey(ShortcutKey::Tab),
        }),
{
    HotkeyIds {
        left: alt_hotkey_id(ShortcutKey::H),
        right: alt_hotkey_id(ShortcutKey::L),
        mission_control: alt_hotkey_id(ShortcutKey::E),
        window_cycle: alt_hotkey_id(ShortcutKey::Tab),
    }
}

/// What a pressed hotkey asks for.
#[derive(Clone, Copy, Debug, PartialEq, Eq, Structural)]
pub enum HotkeyCommand {
    SwitchLeft,
    SwitchRight,
    ToggleMissionControl,
    CycleWindow,
    Unknown,
}

/// The command of a hotkey event: nothing on release; on press, the command
/// of the first registered hotkey (left, right, Mission Control, window
/// cycling) whose id the event carries.
pub open spec fn hotkey_command(ids: HotkeyIds, event_id: u32, pressed: bool) -> Option<HotkeyCommand> {
    if !pressed {
        None
    } else if event_id == ids.left {
        Some(HotkeyCommand::SwitchLeft)
    } else if event_id == ids.right {
        Some(HotkeyCommand::SwitchRight)
    } else if event_id == ids.mission_control {
        Some(HotkeyCommand::ToggleMissionControl)
    } else if event_id == ids.window_cycle {
        Some(HotkeyCommand::CycleWindow)
    } else {
        Some(HotkeyCommand::Unknown)
    }
}

/// Decides what a hotkey event asks for.
pub fn classify_hotkey(ids: HotkeyIds, event_id: u32, pressed: bool) -> (command: Option<HotkeyCommand>)
    ensures
        !pressed ==> command is None,
        command == hotkey_command(ids, event_id, pressed),
{
    if !pressed {
        None
    } else if event_id == ids.left {
        Some(HotkeyCommand::SwitchLeft)
    } else if event_id == ids.right {
        Some(HotkeyCommand::SwitchRight)
    } else if event_id == ids.mission_control {
        Some(HotkeyCommand::ToggleMissionControl)
    } else if event_id == ids.window_cycle {
        Some(HotkeyCommand::CycleWindow)
    } else {
        Some(HotkeyCommand::Unknown)
    }
}

/// Releasing a key asks for nothing, whatever hotkey it belongs to: only
/// presses trigger commands.
pub proof fn lemma_release_asks_for_nothing(ids: HotkeyIds, event_id: u32)
    ensures
        hotkey_command(ids, event_id, false) is None,
{
}

/// A press and the release that follows it ask for at most one command
/// between them: the release adds nothing to what the press asked for.
pub proof fn lemma_press_then_release_acts_once(ids: HotkeyIds, event_id: u32)
    ensures
        hotkey_command(ids, event_id, true) is Some,
        hotkey_command(ids, event_id, false) is None,
{
}

/// The registered hotkeys have distinct ids, so pressing each of them asks for
/// its own command: Alt+H switches left, Alt+L right, Alt+E toggles Mission
/// Control and Alt+Tab cycles windows.
pub proof fn lemma_registered_hotkeys_dispatch(ids: HotkeyIds)
    requires
        ids == (HotkeyIds {
            left: alt_hotkey(ShortcutKey::H),
            right: alt_hotkey(ShortcutKey::L),
            mission_control: alt_hotkey(ShortcutKey::E),
            window_cycle: alt_hotkey(ShortcutKey::Tab),
        }),
    ensures
        ids.left == 65562 && ids.right == 65566 && ids.mission_control == 65559 && ids.window_cycle == 65599,
        hotkey_command(ids, ids.left, true) == Some(HotkeyCommand::SwitchLeft),
        hotkey_command(ids, ids.right, true) == Some(HotkeyCommand::SwitchRight),
        hotkey_command(ids, ids.mission_control, true) == Some(HotkeyCommand::ToggleMissionControl),
        hotkey_command(ids, ids.window_cycle, true) == Some(HotkeyCommand::CycleWindow),
{
    assert(((1u32 << 16u32) | 26u32) == 65562u32) by (bit_vector);
    assert(((1u32 << 16u32) | 30u32) == 65566u32) by (bit_vector);
    assert(((1u32 << 16u32) | 23u32) == 65559u32) by (bit_vector);
    assert(((1u32 << 16u32) | 63u32) == 65599u32) by (bit_vector);
}

/// After a command, the menu bar is refreshed when a workspace switch
/// succeeded.
pub fn refresh_after(command: HotkeyCommand, succeeded: bool) -> (refresh: bool)
    ensures
        refresh == (succeeded && (command == HotkeyCommand::SwitchLeft || command == HotkeyCommand::SwitchRight)),
{
    succeeded && match command {
        HotkeyCommand::SwitchLeft => true,
        HotkeyCommand::SwitchRight => true,
        _ => false,
    }
}

/// The state once a Mission Control toggle has begun: the flag flipped.
pub open spec fn toggle_begun(state: AppState) -> AppState {
    AppState { mission_control_active: !state.mission_control_active, ..state }
}

/// The state once a Mission Control toggle has ended: unchanged when closing
/// or opening succeeded, the flag put back to `was_active` when it failed.
pub open spec fn toggle_finished(state: AppState, was_active: bool, succeeded: bool) -> AppState {
    if succeeded { state } else { AppState { mission_control_active: was_active, ..state } }
}

/// Starts toggling Mission Control: flips the shared flag at once and returns
/// whether it was open, that is whether it must now be closed (else opened).
pub fn begin_mission_control_toggle(state: &mut AppState) -> (was_active: bool)
    ensures
        was_active == old(state).mission_control_active,
        *final(state) == toggle_begun(*old(state)),
{
    let was_active = state.mission_control_active;
    state.mission_control_active = !was_active;
    was_active
}

/// Ends toggling Mission Control: when closing or opening it failed, the flag
/// is put back to what it was before the toggle.
pub fn finish_mission_control_toggle(state: &mut AppState, was_active: bool, succeeded: bool)
    ensures
        *final(state) == toggle_finished(*old(state), was_active, succeeded),
{
    if !succeeded {
        state.mission_control_active = was_active;
    }
}

/// A Mission Control toggle flips the flag when closing or opening succeeds
/// and leaves the whole state as it was when it fails.
pub proof fn lemma_mission_control_toggle(state: AppState, succeeded: bool)
    ensures
        toggle_finished(toggle_begun(state), state.mission_control_active, succeeded) == if succeeded {
            AppState { mission_control_active: !state.mission_control_active, ..state }
        } else {
            state
        },
{
}

/// Refreshes the menu bar from the desktop the cursor is on: when it was
/// found, it becomes the current desktop and is returned to be shown;
/// otherwise nothing changes.
pub fn apply_current_desktop(state: &mut AppState, desktop: &Result<u32, String>) -> (shown: Option<u32>)
    ensures
        match *desktop {
            Ok(d) => shown == Some(d) && *final(state) == (AppState { current_desktop: d, ..*old(state) }),
            Err(_) => shown is None && *final(state) == *old(state),
        },
{
    match desktop {
        Ok(d) => {
            state.current_desktop = *d;
            Some(*d)
        },
        Err(_) => None,
    }
}

/// Nanoseconds in a millisecond.
pub const NANOS_PER_MILLI: u128 = 1_000_000;

/// The cursor monitor looks at the cursor only when the last menu-bar update
/// is at least 80 ms old.
pub open spec fn monitor_throttled(since_update_nanos: u128) -> bool {
    since_update_nanos < 80 * NANOS_PER_MILLI
}

/// Whether the cursor monitor skips this tick because the menu bar was
/// updated less than 80 ms ago.
pub fn cursor_monitor_throttled(since_update_nanos: u128) -> (skip: bool)
    ensures
        skip == monitor_throttled(since_update_nanos),
{
    since_update_nanos < 80 * NANOS_PER_MILLI
}

/// What the cursor monitor does after looking at the cursor.
#[derive(Clone, Copy, Debug, PartialEq, Eq, Structural)]
pub enum MonitorAction {
    /// Nothing changed: leave the menu bar and the update time alone.
    Keep,
    /// Show this desktop in the menu bar and restart the update time.
    Show(u32),
    /// The cursor could not be located for more than five seconds: refresh
    /// the menu bar from the current desktop and restart the update time.
    Refresh,
}

/// One look of the cursor monitor at where the cursor is. When the display or
/// the desktop under the cursor changed, both are remembered and the desktop
/// is shown; when the cursor could not be located for more than five seconds
/// since the last update, the menu bar is refreshed.
pub open spec fn monitor_next(state: AppState, since_update_nanos: u128, info: Result<DisplayInfo, String>) -> (AppState, MonitorAction) {
    match info {
        Ok(i) => if i.display_id != state.last_cursor_display || i.current_desktop != state.current_desktop {
            (AppState { current_desktop: i.current_desktop, last_cursor_display: i.display_id, ..state },
                MonitorAction::Show(i.current_desktop))
        } else {
            (state, MonitorAction::Keep)
        },
        Err(_) => if since_update_nanos > 5000 * NANOS_PER_MILLI {
            (state, MonitorAction::Refresh)
        } else {
            (state, MonitorAction::Keep)
        },
    }
}

/// Takes one look of the cursor monitor (see `monitor_next`).
pub fn cursor_monitor_observe(state: &mut AppState, since_update_nanos: u128, info: &Result<DisplayInfo, String>) -> (action: MonitorAction)
    ensures
        (*final(state), action) == monitor_next(*old(state), since_update_nanos, *info),
{
    match info {
        Ok(i) => {
            let display_changed = state.last_cursor_display != i.display_id;
            let desktop_changed = state.current_desktop != i.current_desktop;
            if display_changed || desktop_changed {
                state.last_cursor_display = i.display_id;
                state.current_desktop = i.current_desktop;
                MonitorAction::Show(i.current_desktop)
            } else {
                MonitorAction::Keep
            }
        },
        Err(_) => {
            if since_update_nanos > 5000 * NANOS_PER_MILLI {
                MonitorAction::Refresh
            } else {
                MonitorAction::Keep
            }
        },
    }
}

/// After the cursor has been located, the monitor remembers its display and
/// desktop, and it shows a desktop in the menu bar only when one of them
/// changed, and then the desktop the cursor is on. When the cursor cannot be
/// located the state is left alone.
pub proof fn lemma_monitor_follows_cursor(state: AppState, since_update_nanos: u128, info: Result<DisplayInfo, String>)
    ensures
        ({
            let (next, action) = monitor_next(state, since_update_nanos, info);
            &&& info matches Ok(i) ==> {
                &&& next.last_cursor_display == i.display_id
                &&& next.current_desktop == i.current_desktop
                &&& next.mission_control_active == state.mission_control_active
                &&& (action matches MonitorAction::Show(d) <==>
                    (i.display_id != state.last_cursor_display || i.current_desktop != state.current_desktop))
                &&& (action matches MonitorAction::Show(d) ==> d == i.current_desktop)
                &&& !(action is Refresh)
            }
            &&& info is Err ==> next == state && !(action is Show)
        }),
{
}

} // verus!
