use quickspace::controls::{
    apply_current_desktop, begin_mission_control_toggle, classify_hotkey, cursor_monitor_observe,
    cursor_monitor_throttled, finish_mission_control_toggle, initial_app_state, refresh_after,
    registered_hotkey_ids, tray_title, AppState, HotkeyCommand, HotkeyIds, MonitorAction,
};
use quickspace::workspace_switcher::DisplayInfo;

fn state(desktop: u32, display: u32, active: bool) -> AppState {
    AppState { current_desktop: desktop, last_cursor_display: display, mission_control_active: active }
}

#[test]
fn initial_state_uses_desktop_or_one() {
    assert_eq!(initial_app_state(&Ok(4)), state(4, 0, false));
    assert_eq!(initial_app_state(&Err("no".to_string())), state(1, 0, false));
}

#[test]
fn tray_shows_desktop_number() {
    assert_eq!(tray_title(1), "1");
    assert_eq!(tray_title(12), "12");
    assert_eq!(tray_title(u32::MAX), "4294967295");
}

#[test]
fn registered_hotkeys_have_library_ids() {
    let ids = registered_hotkey_ids();
    assert_eq!(ids, HotkeyIds { left: 65562, right: 65566, mission_control: 65559, window_cycle: 65599 });
}

#[test]
fn hotkeys_dispatch_on_press_only() {
    let ids = registered_hotkey_ids();
    assert_eq!(classify_hotkey(ids, ids.left, true), Some(HotkeyCommand::SwitchLeft));
    assert_eq!(classify_hotkey(ids, ids.right, true), Some(HotkeyCommand::SwitchRight));
    assert_eq!(classify_hotkey(ids, ids.mission_control, true), Some(HotkeyCommand::ToggleMissionControl));
    assert_eq!(classify_hotkey(ids, ids.window_cycle, true), Some(HotkeyCommand::CycleWindow));
    assert_eq!(classify_hotkey(ids, 7, true), Some(HotkeyCommand::Unknown));
    assert_eq!(classify_hotkey(ids, ids.left, false), None);
}

#[test]
fn hotkey_dispatch_prefers_earlier_registration() {
    let ids = HotkeyIds { left: 5, right: 5, mission_control: 5, window_cycle: 5 };
    assert_eq!(classify_hotkey(ids, 5, true), Some(HotkeyCommand::SwitchLeft));
}

#[test]
fn menu_bar_refreshes_after_successful_switch() {
    assert!(refresh_after(HotkeyCommand::SwitchLeft, true));
    assert!(refresh_after(HotkeyCommand::SwitchRight, true));
    assert!(!refresh_after(HotkeyCommand::SwitchRight, false));
    assert!(!refresh_after(HotkeyCommand::CycleWindow, true));
    assert!(!refresh_after(HotkeyCommand::ToggleMissionControl, true));
}

#[test]
fn mission_control_toggle_flips_on_success() {
    let mut s = state(2, 1, false);
    let was = begin_mission_control_toggle(&mut s);
    assert!(!was);
    assert!(s.mission_control_active);
    finish_mission_control_toggle(&mut s, was, true);
    assert_eq!(s, state(2, 1, true));
    let was = begin_mission_control_toggle(&mut s);
    assert!(was);
    finish_mission_control_toggle(&mut s, was, true);
    assert_eq!(s, state(2, 1, false));
}

#[test]
fn mission_control_toggle_reverts_on_failure() {
    for active in [false, true] {
        let mut s = state(3, 2, active);
        let was = begin_mission_control_toggle(&mut s);
        finish_mission_control_toggle(&mut s, was, false);
        assert_eq!(s, state(3, 2, active));
    }
}

#[test]
fn current_desktop_refresh() {
    let mut s = state(2, 1, true);
    assert_eq!(apply_current_desktop(&mut s, &Ok(5)), Some(5));
    assert_eq!(s, state(5, 1, true));
    assert_eq!(apply_current_desktop(&mut s, &Err("x".to_string())), None);
    assert_eq!(s, state(5, 1, true));
}

#[test]
fn monitor_throttles_for_eighty_milliseconds() {
    assert!(cursor_monitor_throttled(0));
    assert!(cursor_monitor_throttled(79_999_999));
    assert!(!cursor_monitor_throttled(80_000_000));
    assert!(!cursor_monitor_throttled(100_000_000));
}

#[test]
fn monitor_shows_changes_only() {
    let mut s = state(2, 1, false);
    let same = Ok(DisplayInfo { display_id: 1, current_desktop: 2 });
    assert_eq!(cursor_monitor_observe(&mut s, 100_000_000, &same), MonitorAction::Keep);
    assert_eq!(s, state(2, 1, false));
    let moved = Ok(DisplayInfo { display_id: 4, current_desktop: 2 });
    assert_eq!(cursor_monitor_observe(&mut s, 100_000_000, &moved), MonitorAction::Show(2));
    assert_eq!(s, state(2, 4, false));
    let switched = Ok(DisplayInfo { display_id: 4, current_desktop: 3 });
    assert_eq!(cursor_monitor_observe(&mut s, 100_000_000, &switched), MonitorAction::Show(3));
    assert_eq!(s, state(3, 4, false));
}

#[test]
fn monitor_refreshes_after_five_seconds_without_cursor() {
    let mut s = state(2, 1, false);
    let lost: Result<DisplayInfo, String> = Err("Could not find current space in any display's ordered spaces".to_string());
    assert_eq!(cursor_monitor_observe(&mut s, 5_000_000_000, &lost), MonitorAction::Keep);
    assert_eq!(cursor_monitor_observe(&mut s, 5_000_000_001, &lost), MonitorAction::Refresh);
    assert_eq!(s, state(2, 1, false));
}
