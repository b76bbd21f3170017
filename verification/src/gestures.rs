use vstd::prelude::*;
use crate::text::{decimal, signed_decimal};

verus! {

/// One synthetic gesture event: its phase (1 begin, 2 update, 4 end), its
/// type (1 horizontal swipe between workspaces, 2 vertical swipe for Mission
/// Control) and its direction.
#[derive(Clone, Copy, Debug, PartialEq, Eq, Structural)]
pub struct GestureEvent {
    pub phase: i64,
    pub gesture_type: i64,
    pub positive_direction: bool,
}

/// The private event fields that make a gesture event. Integer fields are
/// `(field, value)`; double fields are `(field, value)` with the value given
/// in millionths (a value `v` stands for the double `v / 1_000_000`).
#[derive(Clone, Debug, PartialEq, Eq)]
pub struct GestureFields {
    pub integer_fields: Vec<(u32, i64)>,
    pub double_fields: Vec<(u32, i64)>,
}

/// The integer fields of a gesture event, in the order they are set.
pub open spec fn gesture_integer_fields(event: GestureEvent) -> Seq<(u32, i64)> {
    seq![
        (0x37u32, 0x1ei64),
        (0x6eu32, 0x17i64),
        (0x84u32, event.phase),
        (0x86u32, event.phase),
        (0x8au32, 0x03i64),
        (0x7bu32, event.gesture_type),
        (0xa5u32, event.gesture_type),
    ]
}

/// `+1` for the positive direction, `-1` otherwise.
pub open spec fn direction_sign(positive: bool) -> int {
    if positive { 1 } else { -1 }
}

/// The double fields of a gesture event in millionths: the end phase carries a
/// unit movement delta and a far final position (9100) so that the switch
/// completes at once; every other phase carries a tiny delta.
pub open spec fn gesture_double_fields(event: GestureEvent) -> Seq<(u32, i64)> {
    let s = direction_sign(event.positive_direction);
    if event.phase == 4 {
        seq![
            (0x7cu32, (1_000_000 * s) as i64),
            (0x81u32, (9_100_000_000 * s) as i64),
            (0x82u32, (9_100_000_000 * s) as i64),
        ]
    } else {
        seq![(0x7cu32, s as i64)]
    }
}

/// The fields to set on the event that makes one step of a gesture.
pub fn gesture_event_fields(event: GestureEvent) -> (fields: GestureFields)
    ensures
        fields.integer_fields@ == gesture_integer_fields(event),
        fields.double_fields@ == gesture_double_fields(event),
{
    let mut integer_fields: Vec<(u32, i64)> = Vec::new();
    integer_fields.push((0x37u32, 0x1ei64));
    integer_fields.push((0x6eu32, 0x17i64));
    integer_fields.push((0x84u32, event.phase));
    integer_fields.push((0x86u32, event.phase));
    integer_fields.push((0x8au32, 0x03i64));
    integer_fields.push((0x7bu32, event.gesture_type));
    integer_fields.push((0xa5u32, event.gesture_type));
    let sign: i64 = if event.positive_direction { 1 } else { -1 };
    let mut double_fields: Vec<(u32, i64)> = Vec::new();
    if event.phase == 4 {
        double_fields.push((0x7cu32, 1_000_000 * sign));
        double_fields.push((0x81u32, 9_100_000_000 * sign));
        double_fields.push((0x82u32, 9_100_000_000 * sign));
    } else {
        double_fields.push((0x7cu32, sign));
    }
    proof {
        assert(integer_fields@ =~= gesture_integer_fields(event));
        assert(double_fields@ =~= gesture_double_fields(event));
    }
    GestureFields { integer_fields, double_fields }
}

/// A swipe to the right and a swipe to the left set the same integer fields,
/// and the same double fields with opposite signs: positive to the right,
/// negative to the left.
pub proof fn lemma_swipe_directions_mirror(phase: i64, gesture_type: i64)
    ensures
        ({
            let right = GestureEvent { phase, gesture_type, positive_direction: true };
            let left = GestureEvent { phase, gesture_type, positive_direction: false };
            &&& gesture_integer_fields(right) == gesture_integer_fields(left)
            &&& gesture_double_fields(right).len() == gesture_double_fields(left).len()
            &&& forall|k: int| 0 <= k < gesture_double_fields(right).len() ==> {
                &&& (#[trigger] gesture_double_fields(right)[k]).0 == gesture_double_fields(left)[k].0
                &&& gesture_double_fields(right)[k].1 > 0
                &&& gesture_double_fields(right)[k].1 == -gesture_double_fields(left)[k].1
            }
        }),
{
}

/// The end phase of every gesture, horizontal or vertical, carries the unit
/// delta and the far final position in its direction: field 0x7c is
/// `sign * 1.0` and fields 0x81 and 0x82 are `sign * 9100.0`.
pub proof fn lemma_end_phase_completes_any_gesture(gesture_type: i64, positive: bool)
    ensures
        ({
            let sign: int = if positive { 1 } else { -1 };
            gesture_double_fields(GestureEvent { phase: 4, gesture_type, positive_direction: positive })
                == seq![
                    (0x7cu32, (sign * 1_000_000) as i64),
                    (0x81u32, (sign * 9_100_000_000) as i64),
                    (0x82u32, (sign * 9_100_000_000) as i64),
                ]
        }),
{
}

/// Every phase but the end carries only a tiny delta in its direction (field
/// 0x7c set to `sign * 0.000001`), and every event carries its phase in
/// fields 0x84 and 0x86 and its type in fields 0x7b and 0xa5.
pub proof fn lemma_event_fields_carry_phase_type_and_direction(event: GestureEvent)
    ensures
        ({
            let sign: int = if event.positive_direction { 1 } else { -1 };
            event.phase != 4 ==> gesture_double_fields(event) == seq![(0x7cu32, sign as i64)]
        }),
        gesture_integer_fields(event).contains((0x84u32, event.phase)),
        gesture_integer_fields(event).contains((0x86u32, event.phase)),
        gesture_integer_fields(event).contains((0x7bu32, event.gesture_type)),
        gesture_integer_fields(event).contains((0xa5u32, event.gesture_type)),
{
    let f = gesture_integer_fields(event);
    assert(f[2] == (0x84u32, event.phase));
    assert(f[3] == (0x86u32, event.phase));
    assert(f[5] == (0x7bu32, event.gesture_type));
    assert(f[6] == (0xa5u32, event.gesture_type));
}

/// The double fields of a gesture event do not depend on its type: two events
/// of the same phase and direction set the same double fields.
pub proof fn lemma_double_fields_ignore_type(phase: i64, positive: bool, type1: i64, type2: i64)
    ensures
        gesture_double_fields(GestureEvent { phase, gesture_type: type1, positive_direction: positive })
            == gesture_double_fields(GestureEvent { phase, gesture_type: type2, positive_direction: positive }),
{
}

/// A complete gesture: begin, update and end events of one type and direction.
pub open spec fn gesture(gesture_type: i64, positive: bool) -> Seq<GestureEvent> {
    seq![
        GestureEvent { phase: 1, gesture_type, positive_direction: positive },
        GestureEvent { phase: 2, gesture_type, positive_direction: positive },
        GestureEvent { phase: 4, gesture_type, positive_direction: positive },
    ]
}

fn gesture_sequence(gesture_type: i64, positive: bool) -> (events: Vec<GestureEvent>)
    ensures
        events@ == gesture(gesture_type, positive),
{
    let mut events: Vec<GestureEvent> = Vec::new();
    events.push(GestureEvent { phase: 1, gesture_type, positive_direction: positive });
    events.push(GestureEvent { phase: 2, gesture_type, positive_direction: positive });
    events.push(GestureEvent { phase: 4, gesture_type, positive_direction: positive });
    proof {
        assert(events@ =~= gesture(gesture_type, positive));
    }
    events
}

/// The gesture that moves to the adjacent workspace: a horizontal swipe to
/// the right when `move_right`, to the left otherwise.
pub fn switch_to_adjacent_workspace(move_right: bool) -> (events: Vec<GestureEvent>)
    ensures
        events@ == gesture(1, move_right),
{
    gesture_sequence(1, move_right)
}

/// The gesture that opens Mission Control: a vertical swipe up.
pub fn activate_mission_control_basic() -> (events: Vec<GestureEvent>)
    ensures
        events@ == gesture(2, true),
{
    gesture_sequence(2, true)
}

/// The gesture that closes Mission Control: a vertical swipe down.
pub fn deactivate_mission_control() -> (events: Vec<GestureEvent>)
    ensures
        events@ == gesture(2, false),
{
    gesture_sequence(2, false)
}

/// Distance in pixels from the top edge at which the cursor is parked to make
/// the desktop thumbnails appear.
pub const TOP_EDGE_OFFSET: i64 = 10;

/// One step of a pointer script. Coordinates are global screen pixels.
#[derive(Clone, Copy, Debug, PartialEq, Eq, Structural)]
pub enum PointerStep {
    /// Create the HID event source that the gestures are posted from.
    OpenEventSource,
    /// Remember where the cursor is.
    SaveCursor,
    /// Move the cursor at once to a point.
    Warp { x: i64, y: i64 },
    /// Post a "mouse moved" event at a point.
    PostMouseMoved { x: i64, y: i64 },
    /// Wait.
    Sleep { millis: u64 },
    /// Post one gesture event.
    Gesture(GestureEvent),
    /// Move the cursor back to where it was saved.
    RestoreCursor,
    /// End the script with the saved cursor position as its result.
    ReportSavedCursor,
}

/// The bounds of a display in whole global pixels: its top-left corner and
/// its size.
#[derive(Clone, Copy, Debug, PartialEq, Eq, Structural)]
pub struct DisplayRect {
    pub x: i32,
    pub y: i32,
    pub width: i32,
    pub height: i32,
}

/// What opening Mission Control does: open the event source, remember the
/// cursor, park it near the top edge, nudge it there with a mouse-moved event,
/// swipe up, and put the cursor back.
pub open spec fn mission_control_script() -> Seq<PointerStep> {
    let g = gesture(2, true);
    seq![
        PointerStep::OpenEventSource,
        PointerStep::SaveCursor,
        PointerStep::Warp { x: 50, y: TOP_EDGE_OFFSET },
        PointerStep::Sleep { millis: 5 },
        PointerStep::PostMouseMoved { x: 60, y: TOP_EDGE_OFFSET },
        PointerStep::Sleep { millis: 5 },
        PointerStep::Gesture(g[0]),
        PointerStep::Gesture(g[1]),
        PointerStep::Gesture(g[2]),
        PointerStep::Sleep { millis: 5 },
        PointerStep::RestoreCursor,
    ]
}

/// The script that opens Mission Control with its desktop thumbnails; the
/// program runs its steps in order and stops at the first that fails.
pub fn activate_mission_control() -> (script: Vec<PointerStep>)
    ensures
        script@ == mission_control_script(),
{
    let g = gesture_sequence(2, true);
    let mut script: Vec<PointerStep> = Vec::new();
    script.push(PointerStep::OpenEventSource);
    script.push(PointerStep::SaveCursor);
    script.push(PointerStep::Warp { x: 50, y: TOP_EDGE_OFFSET });
    script.push(PointerStep::Sleep { millis: 5 });
    script.push(PointerStep::PostMouseMoved { x: 60, y: TOP_EDGE_OFFSET });
    script.push(PointerStep::Sleep { millis: 5 });
    script.push(PointerStep::Gesture(g[0]));
    script.push(PointerStep::Gesture(g[1]));
    script.push(PointerStep::Gesture(g[2]));
    script.push(PointerStep::Sleep { millis: 5 });
    script.push(PointerStep::RestoreCursor);
    proof {
        assert(script@ =~= mission_control_script());
    }
    script
}

/// Opening Mission Control with thumbnails is the same script as opening it.
pub fn activate_mission_control_with_thumbnails() -> (script: Vec<PointerStep>)
    ensures
        script@ == mission_control_script(),
{
    activate_mission_control()
}

/// The cursor shake along the top edge of the display the cursor is on that
/// brings up the desktop thumbnails: remember the cursor; three times, wait
/// 20 ms and warp to the display's right edge at a height that alternates
/// between the top offset and ten pixels below it; then report the remembered
/// position.
pub open spec fn thumbnail_shake(display: DisplayRect) -> Seq<PointerStep> {
    seq![PointerStep::SaveCursor]
        + Seq::new(6, |k: int|
            if k % 2 == 0 {
                PointerStep::Sleep { millis: 20 }
            } else {
                PointerStep::Warp {
                    x: (display.x + display.width) as i64,
                    y: (display.y + TOP_EDGE_OFFSET + ((k / 2) % 2) * 10) as i64,
                }
            })
        + seq![PointerStep::ReportSavedCursor]
}

/// The script that moves the cursor to the top edge of the display it is on
/// to show the desktop thumbnails; its result is where the cursor was.
pub fn activate_mission_control_thumbnails(display: DisplayRect) -> (script: Vec<PointerStep>)
    ensures
        script@ == thumbnail_shake(display),
{
    let mut script: Vec<PointerStep> = Vec::new();
    script.push(PointerStep::SaveCursor);
    let x = display.x as i64 + display.width as i64;
    let mut i: i64 = 0;
    while i < 3
        invariant
            0 <= i <= 3,
            x == display.x + display.width,
            script@ == thumbnail_shake(display).take(1 + 2 * i),
        decreases 3 - i,
    {
        script.push(PointerStep::Sleep { millis: 20 });
        script.push(PointerStep::Warp { x, y: display.y as i64 + TOP_EDGE_OFFSET + (i % 2) * 10 });
        proof {
            assert(script@ =~= thumbnail_shake(display).take(1 + 2 * i + 2));
        }
        i = i + 1;
    }
    script.push(PointerStep::ReportSavedCursor);
    proof {
        assert(script@ =~= thumbnail_shake(display));
    }
    script
}

/// A script can be run step by step: every gesture comes after the event
/// source is opened, and the cursor is restored or reported only after it was
/// saved.
pub open spec fn well_ordered(script: Seq<PointerStep>) -> bool {
    forall|k: int| 0 <= k < script.len() ==> {
        &&& (script[k] is Gesture ==> exists|j: int| 0 <= j < k && #[trigger] script[j] is OpenEventSource)
        &&& ((script[k] is RestoreCursor || script[k] is ReportSavedCursor)
            ==> exists|j: int| 0 <= j < k && #[trigger] script[j] is SaveCursor)
    }
}

/// The pointer scripts can be run step by step: the Mission Control script
/// and the thumbnail shake, on any display, are well ordered.
pub proof fn lemma_scripts_well_ordered(display: DisplayRect)
    ensures
        well_ordered(mission_control_script()),
        well_ordered(thumbnail_shake(display)),
{
    let m = mission_control_script();
    assert(m[0] is OpenEventSource);
    assert(m[1] is SaveCursor);
    assert forall|k: int| 0 <= k < m.len() implies {
        &&& (m[k] is Gesture ==> exists|j: int| 0 <= j < k && #[trigger] m[j] is OpenEventSource)
        &&& ((m[k] is RestoreCursor || m[k] is ReportSavedCursor) ==> exists|j: int| 0 <= j < k && #[trigger] m[j] is SaveCursor)
    } by {
        assert(m[0] is OpenEventSource);
        assert(m[1] is SaveCursor);
    }
    let t = thumbnail_shake(display);
    assert(t[0] is SaveCursor);
    assert forall|k: int| 0 <= k < t.len() implies {
        &&& (t[k] is Gesture ==> exists|j: int| 0 <= j < k && #[trigger] t[j] is OpenEventSource)
        &&& ((t[k] is RestoreCursor || t[k] is ReportSavedCursor) ==> exists|j: int| 0 <= j < k && #[trigger] t[j] is SaveCursor)
    } by {
        assert(t[0] is SaveCursor);
    }
}

/// The error reported when the cursor could not be moved.
pub open spec fn warp_failed_message(status: i32) -> Seq<char> {
    "Failed to move mouse cursor: CGWarpMouseCursorPosition returned "@ + decimal(status as int)
}

/// The outcome of moving the cursor, from the status the system returned:
/// success on 0, an error naming the status otherwise.
pub fn move_mouse_outcome(status: i32) -> (res: Result<(), String>)
    ensures
        status == 0 ==> res is Ok,
        status != 0 ==> (res matches Err(e) && e@ == warp_failed_message(status)),
{
    if status == 0 {
        Ok(())
    } else {
        let mut msg = String::from_str("Failed to move mouse cursor: CGWarpMouseCursorPosition returned ");
        let code = signed_decimal(status as i64);
        msg.append(code.as_str());
        Err(msg)
    }
}

} // verus!
