use quickspace::gestures::{
    activate_mission_control, activate_mission_control_basic, activate_mission_control_thumbnails,
    activate_mission_control_with_thumbnails, deactivate_mission_control, gesture_event_fields,
    move_mouse_outcome, switch_to_adjacent_workspace, DisplayRect, GestureEvent, PointerStep,
};
use quickspace::workspace_switcher::{
    count_desktops_for_display, count_total_desktops, find_display_at_point, get_current_desktop,
    get_cursor_display_info, get_desktop_bounds, get_desktop_for_display,
    get_ordered_desktop_spaces, switch_left, switch_right, switch_workspace_left,
    switch_workspace_right, CursorDisplayRead, DesktopReads, DisplayInfo, DisplayLookup, DisplaySpaces,
    ManagedSpaces,
};

fn ev(phase: i64, gesture_type: i64, positive_direction: bool) -> GestureEvent {
    GestureEvent { phase, gesture_type, positive_direction }
}

/// The identifier the spaces list gives display `n` in these tests.
fn uuid(n: u32) -> String {
    format!("5A1C0D0E-0000-4000-8000-{:012}", n)
}

/// A spaces list whose entries belong to displays 2, 3, 4, ... in order.
fn spaces(displays: Vec<Option<Vec<Option<i64>>>>) -> ManagedSpaces {
    ManagedSpaces {
        displays: displays
            .into_iter()
            .enumerate()
            .map(|(i, spaces)| DisplaySpaces { identifier: Some(uuid(i as u32 + 2)), spaces })
            .collect(),
    }
}

fn spaces_on(displays: Vec<(Option<&str>, Option<Vec<Option<i64>>>)>) -> ManagedSpaces {
    ManagedSpaces {
        displays: displays
            .into_iter()
            .map(|(identifier, spaces)| DisplaySpaces { identifier: identifier.map(|s| s.to_string()), spaces })
            .collect(),
    }
}

fn id(s: &str) -> Option<String> {
    Some(s.to_string())
}

fn found_on(display: u32) -> DisplayLookup {
    DisplayLookup { status: 0, display_count: 1, found_display_id: display, main_display_id: 1 }
}

fn display_read(display_id: u32, active: u64) -> CursorDisplayRead {
    CursorDisplayRead { display_id, identifier: Some(uuid(display_id)), active_space_id: active }
}

fn reads(active: u64, list: Vec<Option<Vec<Option<i64>>>>) -> DesktopReads {
    DesktopReads {
        lookup: found_on(2),
        display: display_read(2, active),
        spaces: Some(spaces(list.clone())),
        spaces_for_count: Some(spaces(list)),
    }
}

#[test]
fn end_phase_sets_unit_delta_and_far_position() {
    let f = gesture_event_fields(ev(4, 1, true));
    assert_eq!(
        f.integer_fields,
        vec![(0x37, 0x1e), (0x6e, 0x17), (0x84, 4), (0x86, 4), (0x8a, 3), (0x7b, 1), (0xa5, 1)]
    );
    assert_eq!(f.double_fields, vec![(0x7c, 1_000_000), (0x81, 9_100_000_000), (0x82, 9_100_000_000)]);
}

#[test]
fn other_phases_set_a_tiny_delta() {
    let f = gesture_event_fields(ev(1, 2, false));
    assert_eq!(
        f.integer_fields,
        vec![(0x37, 0x1e), (0x6e, 0x17), (0x84, 1), (0x86, 1), (0x8a, 3), (0x7b, 2), (0xa5, 2)]
    );
    assert_eq!(f.double_fields, vec![(0x7c, -1)]);
}

#[test]
fn left_and_right_swipes_mirror() {
    for phase in [1, 2, 4] {
        let r = gesture_event_fields(ev(phase, 1, true));
        let l = gesture_event_fields(ev(phase, 1, false));
        assert_eq!(r.integer_fields, l.integer_fields);
        assert_eq!(r.double_fields.len(), l.double_fields.len());
        for (a, b) in r.double_fields.iter().zip(l.double_fields.iter()) {
            assert_eq!(a.0, b.0);
            assert!(a.1 > 0);
            assert_eq!(a.1, -b.1);
        }
    }
}

#[test]
fn adjacent_switch_is_a_horizontal_swipe() {
    assert_eq!(switch_to_adjacent_workspace(true), vec![ev(1, 1, true), ev(2, 1, true), ev(4, 1, true)]);
    assert_eq!(switch_to_adjacent_workspace(false), vec![ev(1, 1, false), ev(2, 1, false), ev(4, 1, false)]);
}

#[test]
fn mission_control_is_a_vertical_swipe() {
    assert_eq!(activate_mission_control_basic(), vec![ev(1, 2, true), ev(2, 2, true), ev(4, 2, true)]);
    assert_eq!(deactivate_mission_control(), vec![ev(1, 2, false), ev(2, 2, false), ev(4, 2, false)]);
}

#[test]
fn mission_control_script_parks_cursor_and_restores_it() {
    let expected = vec![
        PointerStep::OpenEventSource,
        PointerStep::SaveCursor,
        PointerStep::Warp { x: 50, y: 10 },
        PointerStep::Sleep { millis: 5 },
        PointerStep::PostMouseMoved { x: 60, y: 10 },
        PointerStep::Sleep { millis: 5 },
        PointerStep::Gesture(ev(1, 2, true)),
        PointerStep::Gesture(ev(2, 2, true)),
        PointerStep::Gesture(ev(4, 2, true)),
        PointerStep::Sleep { millis: 5 },
        PointerStep::RestoreCursor,
    ];
    assert_eq!(activate_mission_control(), expected);
    assert_eq!(activate_mission_control_with_thumbnails(), expected);
}

#[test]
fn thumbnail_shake_alternates_heights() {
    assert_eq!(
        activate_mission_control_thumbnails(DisplayRect { x: 0, y: 0, width: 1440, height: 900 }),
        vec![
            PointerStep::SaveCursor,
            PointerStep::Sleep { millis: 20 },
            PointerStep::Warp { x: 1440, y: 10 },
            PointerStep::Sleep { millis: 20 },
            PointerStep::Warp { x: 1440, y: 20 },
            PointerStep::Sleep { millis: 20 },
            PointerStep::Warp { x: 1440, y: 10 },
            PointerStep::ReportSavedCursor,
        ]
    );
    assert_eq!(
        activate_mission_control_thumbnails(DisplayRect { x: -1920, y: -200, width: 1920, height: 1080 }),
        vec![
            PointerStep::SaveCursor,
            PointerStep::Sleep { millis: 20 },
            PointerStep::Warp { x: 0, y: -190 },
            PointerStep::Sleep { millis: 20 },
            PointerStep::Warp { x: 0, y: -180 },
            PointerStep::Sleep { millis: 20 },
            PointerStep::Warp { x: 0, y: -190 },
            PointerStep::ReportSavedCursor,
        ]
    );
}

#[test]
fn moving_the_mouse_reports_the_status() {
    assert_eq!(move_mouse_outcome(0), Ok(()));
    assert_eq!(
        move_mouse_outcome(1001),
        Err("Failed to move mouse cursor: CGWarpMouseCursorPosition returned 1001".to_string())
    );
    assert_eq!(
        move_mouse_outcome(-7),
        Err("Failed to move mouse cursor: CGWarpMouseCursorPosition returned -7".to_string())
    );
}

#[test]
fn display_lookup_falls_back_to_main_display() {
    assert_eq!(find_display_at_point(found_on(5)), Ok(5));
    let failed = DisplayLookup { status: 1001, display_count: 1, found_display_id: 5, main_display_id: 1 };
    assert_eq!(find_display_at_point(failed), Ok(1));
    let none = DisplayLookup { status: 0, display_count: 0, found_display_id: 5, main_display_id: 9 };
    assert_eq!(find_display_at_point(none), Ok(9));
}

#[test]
fn desktop_number_is_position_of_active_space() {
    let m = Some(spaces(vec![Some(vec![Some(11), Some(12), Some(13)])]));
    assert_eq!(get_ordered_desktop_spaces(11, &m), Ok(1));
    assert_eq!(get_ordered_desktop_spaces(13, &m), Ok(3));
    assert_eq!(get_desktop_for_display(12, &m), Ok(2));
}

#[test]
fn desktop_search_skips_missing_entries_and_ids() {
    let m = Some(spaces(vec![None, Some(vec![None, Some(0), Some(7)]), Some(vec![Some(8), Some(9)])]));
    assert_eq!(get_ordered_desktop_spaces(7, &m), Ok(3));
    assert_eq!(get_ordered_desktop_spaces(9, &m), Ok(2));
    assert_eq!(
        get_ordered_desktop_spaces(0, &m),
        Err("Could not find current space in any display's ordered spaces".to_string())
    );
}

#[test]
fn desktop_search_takes_first_place_holding_the_space() {
    let m = Some(spaces(vec![Some(vec![Some(1), Some(5)]), Some(vec![Some(5)])]));
    assert_eq!(get_ordered_desktop_spaces(5, &m), Ok(2));
}

#[test]
fn desktop_search_errors() {
    assert_eq!(get_ordered_desktop_spaces(3, &None), Err("CGSCopyManagedDisplaySpaces returned null".to_string()));
    let m = Some(spaces(vec![Some(vec![Some(1), Some(2)])]));
    assert_eq!(
        get_ordered_desktop_spaces(4, &m),
        Err("Could not find current space in any display's ordered spaces".to_string())
    );
    let negative = Some(spaces(vec![Some(vec![Some(-4)])]));
    assert!(get_ordered_desktop_spaces(u64::MAX - 3, &negative).is_err());
}

#[test]
fn desktop_count_uses_the_display_entry() {
    let m = Some(spaces_on(vec![
        (Some("A"), Some(vec![Some(1), Some(2)])),
        (Some("B"), None),
        (Some("B"), Some(vec![])),
        (None, Some(vec![Some(5)])),
        (Some("B"), Some(vec![Some(10), None, Some(12)])),
        (Some("B"), Some(vec![Some(20)])),
    ]));
    assert_eq!(count_desktops_for_display(&id("A"), &m), Ok(2));
    assert_eq!(count_desktops_for_display(&id("B"), &m), Ok(3));
    assert_eq!(count_desktops_for_display(&id("C"), &m), Err("No spaces found for display".to_string()));
    assert_eq!(count_desktops_for_display(&None, &m), Err("No spaces found for display".to_string()));
    assert_eq!(count_desktops_for_display(&id("A"), &None), Err("Failed to get managed display spaces".to_string()));
    let empty = Some(spaces_on(vec![(Some("A"), None), (Some("A"), Some(vec![]))]));
    assert_eq!(count_desktops_for_display(&id("A"), &empty), Err("No spaces found for display".to_string()));
}

#[test]
fn desktop_count_falls_back_to_shared_main_entry() {
    let shared = Some(spaces_on(vec![(Some("Main"), Some(vec![Some(1), Some(2), Some(3)]))]));
    assert_eq!(count_desktops_for_display(&Some(uuid(4)), &shared), Ok(3));
    assert_eq!(count_desktops_for_display(&None, &shared), Ok(3));
    let mixed = Some(spaces_on(vec![(Some("Main"), Some(vec![Some(1)])), (Some("B"), Some(vec![Some(2), Some(3)]))]));
    assert_eq!(count_desktops_for_display(&id("B"), &mixed), Ok(2));
    assert_eq!(count_desktops_for_display(&id("C"), &mixed), Ok(1));
    let empty_main = Some(spaces_on(vec![(Some("Main"), Some(vec![])), (Some("B"), Some(vec![Some(2)]))]));
    assert_eq!(count_desktops_for_display(&id("C"), &empty_main), Err("No spaces found for display".to_string()));
}

#[test]
fn cursor_display_info_combines_display_and_desktop() {
    let m = Some(spaces(vec![Some(vec![Some(20), Some(21)])]));
    assert_eq!(
        get_cursor_display_info(found_on(2), &display_read(2, 21), &m),
        Ok(DisplayInfo { display_id: 2, current_desktop: 2 })
    );
    assert_eq!(get_current_desktop(found_on(2), &display_read(2, 21), &m), Ok(2));
    assert_eq!(count_total_desktops(found_on(2), &display_read(2, 21), &m), Ok(2));
    assert_eq!(
        count_total_desktops(found_on(3), &display_read(3, 21), &m),
        Err("No spaces found for display".to_string())
    );
    assert!(get_cursor_display_info(found_on(2), &display_read(2, 99), &m).is_err());
}

#[test]
fn desktop_bounds_pairs_current_and_total() {
    let r = reads(31, vec![Some(vec![Some(30), Some(31), Some(32)])]);
    assert_eq!(get_desktop_bounds(&r), Ok((2, 3)));
    let missing = reads(99, vec![Some(vec![Some(30)])]);
    assert_eq!(
        get_desktop_bounds(&missing),
        Err("Could not find current space in any display's ordered spaces".to_string())
    );
    let mut no_count = reads(30, vec![Some(vec![Some(30)])]);
    no_count.spaces_for_count = None;
    assert_eq!(get_desktop_bounds(&no_count), Err("Failed to get managed display spaces".to_string()));
}

#[test]
fn switching_left_is_refused_on_first_desktop() {
    let first = reads(30, vec![Some(vec![Some(30), Some(31)])]);
    assert_eq!(switch_workspace_left(&first), Err("Already at the leftmost workspace".to_string()));
    assert_eq!(switch_left(&first), Err("Already at the leftmost workspace".to_string()));
    let second = reads(31, vec![Some(vec![Some(30), Some(31)])]);
    assert_eq!(switch_workspace_left(&second), Ok(switch_to_adjacent_workspace(false)));
    assert_eq!(switch_left(&second), Ok(switch_to_adjacent_workspace(false)));
}

#[test]
fn switching_right_is_refused_on_last_desktop() {
    let last = reads(31, vec![Some(vec![Some(30), Some(31)])]);
    assert_eq!(switch_workspace_right(&last), Err("Already at the rightmost workspace".to_string()));
    assert_eq!(switch_right(&last), Err("Already at the rightmost workspace".to_string()));
    let first = reads(30, vec![Some(vec![Some(30), Some(31)])]);
    assert_eq!(switch_workspace_right(&first), Ok(switch_to_adjacent_workspace(true)));
    assert_eq!(switch_right(&first), Ok(switch_to_adjacent_workspace(true)));
}

#[test]
fn switching_reports_reading_errors_first() {
    let mut r = reads(30, vec![Some(vec![Some(30), Some(31)])]);
    r.spaces = None;
    assert_eq!(switch_workspace_left(&r), Err("CGSCopyManagedDisplaySpaces returned null".to_string()));
    assert_eq!(switch_workspace_right(&r), Err("CGSCopyManagedDisplaySpaces returned null".to_string()));
}

#[test]
fn single_display_desktop_never_past_count() {
    for active in [40u64, 41, 42, 43] {
        let r = reads(active, vec![Some(vec![Some(40), Some(41), Some(42), Some(43)])]);
        let (current, total) = get_desktop_bounds(&r).unwrap();
        assert!(1 <= current && current <= total);
    }
}

#[test]
fn desktops_of_the_cursor_display_are_counted() {
    let list = vec![Some(vec![Some(40), Some(41)]), Some(vec![Some(50), Some(51), Some(52)])];
    let mut r = reads(52, list);
    r.lookup = found_on(3);
    r.display = display_read(3, 52);
    assert_eq!(get_desktop_bounds(&r), Ok((3, 3)));
    assert_eq!(switch_workspace_right(&r), Err("Already at the rightmost workspace".to_string()));
    assert_eq!(switch_workspace_left(&r), Ok(switch_to_adjacent_workspace(false)));
    assert_eq!(count_total_desktops(found_on(3), &display_read(3, 52), &r.spaces_for_count), Ok(3));
    assert_eq!(count_total_desktops(found_on(2), &display_read(2, 52), &r.spaces_for_count), Ok(2));
}

#[test]
fn scripts_open_the_source_and_save_the_cursor_before_using_them() {
    let display = DisplayRect { x: 0, y: 0, width: 1440, height: 900 };
    for script in [activate_mission_control(), activate_mission_control_thumbnails(display)] {
        let open = script.iter().position(|s| *s == PointerStep::OpenEventSource);
        let save = script.iter().position(|s| *s == PointerStep::SaveCursor);
        for (k, step) in script.iter().enumerate() {
            match step {
                PointerStep::Gesture(_) => assert!(open.map_or(false, |j| j < k)),
                PointerStep::RestoreCursor | PointerStep::ReportSavedCursor => assert!(save.map_or(false, |j| j < k)),
                _ => {}
            }
        }
    }
}
