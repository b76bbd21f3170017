use vstd::prelude::*;
use crate::cf_utils::{NumberRead, BoundsRead, DictValue, number_value, bounds_value, dict_text,
    get_dict_number, get_dict_bounds, get_dict_string};
use crate::text::{decimal, signed_decimal};

verus! {

/// The values under the keys of one entry of the on-screen window list:
/// `kCGWindowNumber`, `kCGWindowOwnerPID`, `kCGWindowLayer`,
/// `kCGWindowName`, `kCGWindowOwnerName` and `kCGWindowBounds`.
#[derive(Clone, Debug, PartialEq, Eq)]
pub struct WindowEntry {
    pub number: NumberRead,
    pub owner_pid: NumberRead,
    pub layer: NumberRead,
    pub name: DictValue,
    pub owner_name: DictValue,
    pub bounds: Option<BoundsRead>,
}

/// A window on the current workspace.
#[derive(Debug, PartialEq, Eq)]
pub struct WindowInfo {
    pub window_id: u32,
    pub pid: i32,
    pub title: String,
    pub app_name: String,
    pub layer: i32,
    /// `(x, y, width, height)` in screen pixels.
    pub bounds: (i32, i32, i32, i32),
}

/// The entry lies in the normal window layer (an entry without a layer
/// counts as layer 0).
pub open spec fn is_normal_layer(e: WindowEntry) -> bool {
    number_value(e.layer) == 0
}

/// The entries of the window list, in order, that are present and lie in the
/// normal layer.
pub open spec fn normal_layer_entries(list: Seq<Option<WindowEntry>>) -> Seq<WindowEntry>
    decreases list.len(),
{
    if list.len() == 0 {
        Seq::empty()
    } else {
        let rest = normal_layer_entries(list.drop_last());
        match list.last() {
            Some(e) => if is_normal_layer(e) { rest.push(e) } else { rest },
            None => rest,
        }
    }
}

/// `info` describes the window list entry `e`.
pub open spec fn describes(info: WindowInfo, e: WindowEntry) -> bool {
    &&& info.window_id == number_value(e.number) as u32
    &&& info.pid == number_value(e.owner_pid)
    &&& info.layer == number_value(e.layer)
    &&& info.title@ == dict_text(e.name)
    &&& info.app_name@ == dict_text(e.owner_name)
    &&& info.bounds == bounds_value(e.bounds)
}

/// `infos` describe the entries `es`, one by one.
pub open spec fn describes_all(infos: Seq<WindowInfo>, es: Seq<WindowEntry>) -> bool {
    &&& infos.len() == es.len()
    &&& forall|k: int| 0 <= k < es.len() ==> #[trigger] describes(infos[k], es[k])
}

pub open spec fn window_list_failed_message() -> Seq<char> {
    "Failed to get window list"@
}

pub open spec fn no_visible_windows_message() -> Seq<char> {
    "No visible windows found"@
}

pub open spec fn permission_message() -> Seq<char> {
    "Accessibility permission required"@
}

fn window_info(e: &WindowEntry) -> (info: WindowInfo)
    ensures
        describes(info, *e),
{
    let number = get_dict_number(e.number);
    WindowInfo {
        window_id: #[verifier::truncate] (number as u32),
        pid: get_dict_number(e.owner_pid),
        title: get_dict_string(&e.name),
        app_name: get_dict_string(&e.owner_name),
        layer: get_dict_number(e.layer),
        bounds: get_dict_bounds(e.bounds),
    }
}

proof fn lemma_normal_layer_step(list: Seq<Option<WindowEntry>>, i: int)
    requires
        0 <= i < list.len(),
    ensures
        normal_layer_entries(list.take(i + 1)) == match list[i] {
            Some(e) => if is_normal_layer(e) {
                normal_layer_entries(list.take(i)).push(e)
            } else {
                normal_layer_entries(list.take(i))
            },
            None => normal_layer_entries(list.take(i)),
        },
{
    assert(list.take(i + 1).drop_last() =~= list.take(i));
    assert(list.take(i + 1).last() == list[i]);
}

proof fn lemma_normal_layer_entries_come_from_list(list: Seq<Option<WindowEntry>>)
    ensures
        forall|k: int| 0 <= k < normal_layer_entries(list).len() ==> {
            &&& is_normal_layer(#[trigger] normal_layer_entries(list)[k])
            &&& exists|i: int| 0 <= i < list.len() && list[i] == Some(normal_layer_entries(list)[k])
        },
    decreases list.len(),
{
    if list.len() > 0 {
        let front = list.drop_last();
        lemma_normal_layer_entries_come_from_list(front);
        let rest = normal_layer_entries(front);
        let all = normal_layer_entries(list);
        assert forall|k: int| 0 <= k < all.len() implies {
            &&& is_normal_layer(#[trigger] all[k])
            &&& exists|i: int| 0 <= i < list.len() && list[i] == Some(all[k])
        } by {
            if k < rest.len() {
                assert(all[k] == rest[k]);
                let i = choose|i: int| 0 <= i < front.len() && front[i] == Some(rest[k]);
                assert(list[i] == front[i]);
            } else {
                assert(list[list.len() - 1] == Some(all[k]));
            }
        }
    }
}

/// Every window listed for the current workspace lies in the normal layer
/// and describes a present entry of the window list.
pub proof fn lemma_workspace_windows_in_normal_layer(list: Seq<Option<WindowEntry>>, ws: Seq<WindowInfo>)
    requires
        describes_all(ws, normal_layer_entries(list)),
    ensures
        forall|k: int| 0 <= k < ws.len() ==> {
            &&& (#[trigger] ws[k]).layer == 0
            &&& exists|i: int| 0 <= i < list.len() && (#[trigger] list[i] matches Some(e) && describes(ws[k], e))
        },
{
    lemma_normal_layer_entries_come_from_list(list);
    let es = normal_layer_entries(list);
    assert forall|k: int| 0 <= k < ws.len() implies {
        &&& (#[trigger] ws[k]).layer == 0
        &&& exists|i: int| 0 <= i < list.len() && (#[trigger] list[i] matches Some(e) && describes(ws[k], e))
    } by {
        assert(describes(ws[k], es[k]));
        assert(is_normal_layer(es[k]));
        let i = choose|i: int| 0 <= i < list.len() && list[i] == Some(es[k]);
        assert(list[i] matches Some(e) && describes(ws[k], e));
    }
}

/// The windows on the current workspace: every present entry of the
/// on-screen window list that lies in the normal layer, in list order.
pub fn get_current_workspace_windows(list: &Option<Vec<Option<WindowEntry>>>) -> (res: Result<Vec<WindowInfo>, String>)
    ensures
        match *list {
            None => res matches Err(e) && e@ == window_list_failed_message(),
            Some(l) => res matches Ok(ws) && describes_all(ws@, normal_layer_entries(l@)),
        },
{
    match list {
        None => {
            Err(String::from_str("Failed to get window list"))
        },
        Some(l) => {
            let mut windows: Vec<WindowInfo> = Vec::new();
            let mut i: usize = 0;
            while i < l.len()
                invariant
                    i <= l@.len(),
                    describes_all(windows@, normal_layer_entries(l@.take(i as int))),
                decreases l@.len() - i,
            {
                proof { lemma_normal_layer_step(l@, i as int); }
                match &l[i] {
                    Some(e) => {
                        if get_dict_number(e.layer) == 0 {
                            let info = window_info(e);
                            windows.push(info);
                        }
                    },
                    None => {},
                }
                i = i + 1;
            }
            proof { assert(l@.take(l@.len() as int) =~= l@); }
            Ok(windows)
        },
    }
}

/// The window numbers of the normal-layer windows, front to back.
pub open spec fn window_numbers(es: Seq<WindowEntry>) -> Seq<i32> {
    es.map_values(|e: WindowEntry| number_value(e.number))
}

/// The numbers of the visible windows in the normal layer, front to back;
/// an error when the list cannot be read or holds none.
pub fn get_visible_window_numbers(list: &Option<Vec<Option<WindowEntry>>>) -> (res: Result<Vec<i32>, String>)
    ensures
        match *list {
            None => res matches Err(e) && e@ == window_list_failed_message(),
            Some(l) => if normal_layer_entries(l@).len() == 0 {
                res matches Err(e) && e@ == no_visible_windows_message()
            } else {
                res matches Ok(ns) && ns@ == window_numbers(normal_layer_entries(l@))
            },
        },
{
    match list {
        None => {
            Err(String::from_str("Failed to get window list"))
        },
        Some(l) => {
            let mut numbers: Vec<i32> = Vec::new();
            let mut i: usize = 0;
            while i < l.len()
                invariant
                    i <= l@.len(),
                    numbers@ == window_numbers(normal_layer_entries(l@.take(i as int))),
                decreases l@.len() - i,
            {
                proof { lemma_normal_layer_step(l@, i as int); }
                match &l[i] {
                    Some(e) => {
                        if get_dict_number(e.layer) == 0 {
                            numbers.push(get_dict_number(e.number));
                        }
                    },
                    None => {},
                }
                proof {
                    assert(numbers@ =~= window_numbers(normal_layer_entries(l@.take(i as int + 1))));
                }
                i = i + 1;
            }
            proof { assert(l@.take(l@.len() as int) =~= l@); }
            if numbers.len() == 0 {
                return Err(String::from_str("No visible windows found"));
            }
            Ok(numbers)
        },
    }
}

/// Whether the process may use the accessibility interface; the prompt to
/// grant it is shown by the system when asking.
pub fn check_accessibility_permission(is_trusted: bool) -> (res: Result<(), String>)
    ensures
        is_trusted ==> res is Ok,
        !is_trusted ==> (res matches Err(e) && e@ == permission_message()),
{
    if !is_trusted {
        return Err(String::from_str("Accessibility permission required"));
    }
    Ok(())
}

/// The title of an accessibility window: the value read, or empty when the
/// attribute could not be read.
pub fn get_ax_window_title(read: Option<String>) -> (title: String)
    ensures
        title@ == match read { Some(t) => t@, None => Seq::empty() },
{
    match read {
        Some(t) => t,
        None => String::new(),
    }
}

/// What was read of an accessibility window's geometry: its `AXFrame` when
/// that reads as a dictionary, and its `AXPosition` and `AXSize` in whole
/// pixels when they could be read.
#[derive(Clone, Copy, Debug, PartialEq, Eq)]
pub struct AxGeometry {
    pub frame: Option<BoundsRead>,
    pub position: Option<(i32, i32)>,
    pub size: Option<(i32, i32)>,
}

/// The bounds `(x, y, width, height)` of an accessibility window: the frame's
/// `X`, `Y`, `Width` and `Height` when the frame reads as a dictionary;
/// otherwise its position and size, each part 0 when it could not be read.
pub open spec fn ax_bounds_value(g: AxGeometry) -> (i32, i32, i32, i32) {
    match g.frame {
        Some(f) => bounds_value(Some(f)),
        None => {
            let (x, y) = match g.position { Some(p) => p, None => (0i32, 0i32) };
            let (w, h) = match g.size { Some(sz) => sz, None => (0i32, 0i32) };
            (x, y, w, h)
        },
    }
}

/// The bounds of an accessibility window (see `ax_bounds_value`).
pub fn get_ax_window_bounds(geometry: AxGeometry) -> (bounds: (i32, i32, i32, i32))
    ensures
        bounds == ax_bounds_value(geometry),
{
    match geometry.frame {
        Some(f) => get_dict_bounds(Some(f)),
        None => {
            let (x, y) = match geometry.position { Some(p) => p, None => (0i32, 0i32) };
            let (w, h) = match geometry.size { Some(sz) => sz, None => (0i32, 0i32) };
            (x, y, w, h)
        },
    }
}

/// Two coordinates differ by at most five pixels.
pub open spec fn within_tolerance(a: i32, b: i32) -> bool {
    -5 <= a - b <= 5
}

/// Two bounds agree part by part within five pixels.
pub open spec fn bounds_close(a: (i32, i32, i32, i32), b: (i32, i32, i32, i32)) -> bool {
    &&& within_tolerance(a.0, b.0)
    &&& within_tolerance(a.1, b.1)
    &&& within_tolerance(a.2, b.2)
    &&& within_tolerance(a.3, b.3)
}

/// An accessibility window is taken for the on-screen window when both titles
/// are non-empty and equal, or when their bounds agree within five pixels.
pub open spec fn ax_window_matches(ax_title: Seq<char>, ax_bounds: (i32, i32, i32, i32),
    target_title: Seq<char>, target_bounds: (i32, i32, i32, i32)) -> bool
{
    ||| (ax_title.len() > 0 && target_title.len() > 0 && ax_title == target_title)
    ||| bounds_close(ax_bounds, target_bounds)
}

fn close(a: i32, b: i32) -> (r: bool)
    ensures
        r == within_tolerance(a, b),
{
    let d = a as i64 - b as i64;
    -5 <= d && d <= 5
}

/// Decides whether an accessibility window is the on-screen window with the
/// given title and bounds: first by title, then by bounds.
pub fn match_ax_window_to_cg_window(ax_title: &String, ax_bounds: (i32, i32, i32, i32),
    target_cg_title: &String, target_cg_bounds: (i32, i32, i32, i32)) -> (res: bool)
    ensures
        res == ax_window_matches(ax_title@, ax_bounds, target_cg_title@, target_cg_bounds),
{
    if !ax_title.as_str().is_empty() && !target_cg_title.as_str().is_empty() {
        if *ax_title == *target_cg_title {
            return true;
        }
    }
    close(ax_bounds.0, target_cg_bounds.0) && close(ax_bounds.1, target_cg_bounds.1)
        && close(ax_bounds.2, target_cg_bounds.2) && close(ax_bounds.3, target_cg_bounds.3)
}

/// The name of an accessibility error code.
pub open spec fn ax_error_text(code: i32) -> Seq<char> {
    if code == 0 { "kAXErrorSuccess"@ }
    else if code == -25200 { "kAXErrorFailure"@ }
    else if code == -25201 { "kAXErrorIllegalArgument"@ }
    else if code == -25202 { "kAXErrorInvalidUIElement"@ }
    else if code == -25203 { "kAXErrorInvalidUIElementObserver"@ }
    else if code == -25204 { "kAXErrorCannotComplete"@ }
    else if code == -25205 { "kAXErrorAPIDisabled"@ }
    else if code == -25206 { "kAXErrorNoValue"@ }
    else if code == -25207 { "kAXErrorParameterizedAttributeUnsupported"@ }
    else if code == -25208 { "kAXErrorNotEnoughPrecision"@ }
    else { "Unknown error code"@ }
}

/// Names an accessibility error code.
pub fn ax_error_name(code: i32) -> (name: &'static str)
    ensures
        name@ == ax_error_text(code),
{
    if code == 0 { "kAXErrorSuccess" }
    else if code == -25200 { "kAXErrorFailure" }
    else if code == -25201 { "kAXErrorIllegalArgument" }
    else if code == -25202 { "kAXErrorInvalidUIElement" }
    else if code == -25203 { "kAXErrorInvalidUIElementObserver" }
    else if code == -25204 { "kAXErrorCannotComplete" }
    else if code == -25205 { "kAXErrorAPIDisabled" }
    else if code == -25206 { "kAXErrorNoValue" }
    else if code == -25207 { "kAXErrorParameterizedAttributeUnsupported" }
    else if code == -25208 { "kAXErrorNotEnoughPrecision" }
    else { "Unknown error code" }
}

/// The error for reading `AXWindowNumber`, an attribute that accessibility
/// windows do not have: the error code of the read when it failed, a plain
/// refusal when it did not.
pub open spec fn window_number_error(status: i32) -> Seq<char> {
    if status != 0 {
        "AXUIElementCopyAttributeValue failed with error: "@ + decimal(status as int)
            + " (EXPECTED - AXWindowNumber doesn't exist)"@
    } else {
        "AXWindowNumber attribute does not exist"@
    }
}

/// The window number of an accessibility window, from the status of reading
/// its `AXWindowNumber`. It never succeeds.
pub fn get_ax_window_number(status: i32) -> (res: Result<i32, String>)
    ensures
        res matches Err(e) && e@ == window_number_error(status),
{
    if status != 0 {
        let mut msg = String::from_str("AXUIElementCopyAttributeValue failed with error: ");
        let code = signed_decimal(status as i64);
        msg.append(code.as_str());
        msg.append(" (EXPECTED - AXWindowNumber doesn't exist)");
        return Err(msg);
    }
    Err(String::from_str("AXWindowNumber attribute does not exist"))
}

/// What the accessibility interface told about the focused window: the
/// system-wide element could not be made, the focused application or its
/// focused window could not be read, or the focused window was found, with
/// the process of its application and its title and bounds (see
/// `get_ax_window_title` and `get_ax_window_bounds`).
#[derive(Debug, PartialEq, Eq)]
pub enum FocusProbe {
    NoSystemWide,
    NoFocusedApplication,
    NoFocusedWindow,
    FocusedWindow { pid: i32, title: String, bounds: (i32, i32, i32, i32) },
}

/// A listed window is the focused window: it belongs to the focused
/// application and matches the focused window by title or bounds, as focusing
/// matches windows.
pub open spec fn is_focused(pid: i32, title: Seq<char>, bounds: (i32, i32, i32, i32), w: WindowInfo) -> bool {
    w.pid == pid && ax_window_matches(title, bounds, w.title@, w.bounds)
}

/// `k` is the one listed window that is the focused window: no other listed
/// window matches it.
pub open spec fn only_focused(ws: Seq<WindowInfo>, pid: i32, title: Seq<char>, bounds: (i32, i32, i32, i32), k: int) -> bool {
    &&& 0 <= k < ws.len()
    &&& is_focused(pid, title, bounds, ws[k])
    &&& forall|k2: int| 0 <= k2 < ws.len() && k2 != k ==> !#[trigger] is_focused(pid, title, bounds, ws[k2])
}

/// Two different listed windows both match the focused window, so neither
/// can be told to be it.
pub open spec fn focused_ambiguous(ws: Seq<WindowInfo>, pid: i32, title: Seq<char>, bounds: (i32, i32, i32, i32)) -> bool {
    exists|k1: int, k2: int| 0 <= k1 < k2 < ws.len()
        && #[trigger] is_focused(pid, title, bounds, ws[k1]) && #[trigger] is_focused(pid, title, bounds, ws[k2])
}

pub open spec fn focused_not_listed_message() -> Seq<char> {
    "Cannot find focused window among visible windows"@
}

pub open spec fn focused_ambiguous_message() -> Seq<char> {
    "Focused window matches several visible windows"@
}

/// The outcome of asking for the focused window's number: the number of the
/// visible window that is the focused window, when exactly one visible window
/// matches it; otherwise the error of the first step that failed, the error
/// reading the windows, an error saying that no visible window is the focused
/// one, or an error saying that several are.
pub open spec fn focused_number_found(probe: FocusProbe, windows: Result<Vec<WindowInfo>, String>, res: Result<i32, String>) -> bool {
    match probe {
        FocusProbe::NoSystemWide => res matches Err(e) && e@ == "Failed to create system-wide element"@,
        FocusProbe::NoFocusedApplication => res matches Err(e) && e@ == "Cannot get focused application"@,
        FocusProbe::NoFocusedWindow => res matches Err(e) && e@ == "Cannot get focused window"@,
        FocusProbe::FocusedWindow { pid, title, bounds } => match windows {
            Err(e) => res == Err::<i32, String>(e),
            Ok(ws) => match res {
                Ok(n) => exists|k: int| #[trigger] only_focused(ws@, pid, title@, bounds, k)
                    && n == ws@[k].window_id as i32,
                Err(e) => if forall|k: int| 0 <= k < ws@.len() ==> !#[trigger] is_focused(pid, title@, bounds, ws@[k]) {
                    e@ == focused_not_listed_message()
                } else {
                    focused_ambiguous(ws@, pid, title@, bounds) && e@ == focused_ambiguous_message()
                },
            },
        },
    }
}

/// The number of the focused window, found among the visible windows of the
/// current workspace: the one visible window of the focused application that
/// matches the focused window by title or bounds. Where several match, the
/// focused one cannot be told from the others and none is returned.
pub fn get_focused_window_number(probe: &FocusProbe, windows: &Result<Vec<WindowInfo>, String>) -> (res: Result<i32, String>)
    ensures
        focused_number_found(*probe, *windows, res),
{
    match probe {
        FocusProbe::NoSystemWide => Err(String::from_str("Failed to create system-wide element")),
        FocusProbe::NoFocusedApplication => Err(String::from_str("Cannot get focused application")),
        FocusProbe::NoFocusedWindow => Err(String::from_str("Cannot get focused window")),
        FocusProbe::FocusedWindow { pid, title, bounds } => {
            let ws = match windows {
                Ok(ws) => ws,
                Err(e) => { return Err(e.clone()); },
            };
            let mut found: Option<usize> = None;
            let mut k: usize = 0;
            #[verifier::loop_isolation(false)]
            while k < ws.len()
                invariant
                    k <= ws@.len(),
                    found matches None ==> forall|k2: int| 0 <= k2 < k ==> !#[trigger] is_focused(*pid, title@, *bounds, ws@[k2]),
                    found matches Some(j) ==> j < k && is_focused(*pid, title@, *bounds, ws@[j as int])
                        && forall|k2: int| 0 <= k2 < k && k2 != j ==> !#[trigger] is_focused(*pid, title@, *bounds, ws@[k2]),
                decreases ws@.len() - k,
            {
                if ws[k].pid == *pid && match_ax_window_to_cg_window(title, *bounds, &ws[k].title, ws[k].bounds) {
                    match found {
                        Some(j) => {
                            proof {
                                assert(is_focused(*pid, title@, *bounds, ws@[j as int]));
                                assert(is_focused(*pid, title@, *bounds, ws@[k as int]));
                                assert(focused_ambiguous(ws@, *pid, title@, *bounds));
                            }
                            return Err(String::from_str("Focused window matches several visible windows"));
                        },
                        None => { found = Some(k); },
                    }
                }
                k = k + 1;
            }
            match found {
                Some(j) => {
                    proof { assert(only_focused(ws@, *pid, title@, *bounds, j as int)); }
                    Ok(#[verifier::truncate] (ws[j].window_id as i32))
                },
                None => Err(String::from_str("Cannot find focused window among visible windows")),
            }
        },
    }
}

/// `k` is the first window whose id is `number` taken as a window id.
pub open spec fn first_with_id(ws: Seq<WindowInfo>, number: i32, k: int) -> bool {
    &&& 0 <= k < ws.len()
    &&& ws[k].window_id == number as u32
    &&& forall|k2: int| 0 <= k2 < k ==> #[trigger] ws[k2].window_id != number as u32
}

/// The outcome of looking up the focused window: nothing when its number is
/// unknown; otherwise the error reading the windows, or the first window with
/// that number, or nothing when no window has it.
pub open spec fn focused_window_found(focused: Result<i32, String>, windows: Result<Vec<WindowInfo>, String>,
    res: Result<Option<WindowInfo>, String>) -> bool
{
    match focused {
        Err(_) => res matches Ok(None),
        Ok(n) => match windows {
            Err(e) => res == Err::<Option<WindowInfo>, String>(e),
            Ok(ws) => match res {
                Ok(Some(w)) => exists|k: int| #[trigger] first_with_id(ws@, n, k) && w == ws@[k],
                Ok(None) => forall|k: int| 0 <= k < ws@.len() ==> #[trigger] ws@[k].window_id != n as u32,
                Err(_) => false,
            },
        },
    }
}

/// A focused window whose number was found is found again among the same
/// windows: looking it up by that number gives a window with that id.
pub proof fn lemma_focused_window_found_by_number(probe: FocusProbe, windows: Result<Vec<WindowInfo>, String>,
    number: i32, found: Result<Option<WindowInfo>, String>)
    requires
        focused_number_found(probe, windows, Ok(number)),
        focused_window_found(Ok(number), windows, found),
    ensures
        found matches Ok(Some(w)) && w.window_id == number as u32,
{
    let ws = windows->Ok_0;
    let (pid, title, bounds) = match probe {
        FocusProbe::FocusedWindow { pid, title, bounds } => (pid, title, bounds),
        _ => { assert(false); (0i32, arbitrary(), (0i32, 0i32, 0i32, 0i32)) },
    };
    let k = choose|k: int| #[trigger] only_focused(ws@, pid, title@, bounds, k) && number == ws@[k].window_id as i32;
    let id = ws@[k].window_id;
    assert(((id as i32) as u32) == id) by (bit_vector);
    if found matches Ok(None) {
        assert(ws@[k].window_id != number as u32);
    }
}

/// The focused window, looked up among the windows of the current workspace:
/// `None` when the focused window number is unknown or no window has it.
pub fn get_focused_window(focused: Result<i32, String>, windows: Result<Vec<WindowInfo>, String>) -> (res: Result<Option<WindowInfo>, String>)
    ensures
        focused_window_found(focused, windows, res),
{
    match focused {
        Err(_) => Ok(None),
        Ok(n) => {
            let mut ws = match windows {
                Ok(ws) => ws,
                Err(e) => { return Err(e); },
            };
            let id: u32 = #[verifier::truncate] (n as u32);
            let ghost all = ws@;
            let mut k: usize = 0;
            #[verifier::loop_isolation(false)]
            while k < ws.len()
                invariant
                    ws@ == all,
                    id == n as u32,
                    k <= ws@.len(),
                    forall|k2: int| 0 <= k2 < k ==> #[trigger] ws@[k2].window_id != id,
                decreases ws@.len() - k,
            {
                if ws[k].window_id == id {
                    proof { assert(first_with_id(all, n, k as int)); }
                    let w = ws.remove(k);
                    return Ok(Some(w));
                }
                k = k + 1;
            }
            Ok(None)
        },
    }
}

/// The window that cycling focuses: the second window of the current
/// workspace, front to back.
pub open spec fn next_window(ws: Seq<WindowInfo>) -> i32 {
    ws[1].window_id as i32
}

/// Cycling to the next window: refused without accessibility permission or
/// with no visible window; nothing to do with a single window; otherwise the
/// number of the window behind the front one, which the program then focuses.
pub fn cycle_next_window(is_trusted: bool, windows: Result<Vec<WindowInfo>, String>) -> (res: Result<Option<i32>, String>)
    ensures
        !is_trusted ==> (res matches Err(e) && e@ == permission_message()),
        is_trusted ==> match windows {
            Err(e) => res == Err::<Option<i32>, String>(e),
            Ok(ws) => if ws@.len() == 0 {
                res matches Err(e) && e@ == no_visible_windows_message()
            } else if ws@.len() == 1 {
                res == Ok::<Option<i32>, String>(None)
            } else {
                res == Ok::<Option<i32>, String>(Some(next_window(ws@)))
                    && res == Ok::<Option<i32>, String>(Some(ws@[1].window_id as i32))
            },
        },
{
    match check_accessibility_permission(is_trusted) {
        Ok(()) => {},
        Err(e) => { return Err(e); },
    }
    let ws = match windows {
        Ok(ws) => ws,
        Err(e) => { return Err(e); },
    };
    if ws.len() == 0 {
        return Err(String::from_str("No visible windows found"));
    }
    if ws.len() == 1 {
        return Ok(None);
    }
    Ok(Some(#[verifier::truncate] (ws[1].window_id as i32)))
}

/// Cycling focuses the window directly behind the front one, however many
/// windows there are: the second of the front-to-back list.
pub proof fn lemma_cycling_picks_window_behind_front(ws: Seq<WindowInfo>)
    requires
        ws.len() >= 2,
    ensures
        next_window(ws) == ws[1].window_id as i32,
{
}

/// Windows behind the second one never change which window cycling picks:
/// two lists that agree on their first two windows cycle to the same window.
pub proof fn lemma_cycling_ignores_windows_further_back(ws1: Seq<WindowInfo>, ws2: Seq<WindowInfo>)
    requires
        ws1.len() >= 2,
        ws2.len() >= 2,
        ws1[0] == ws2[0],
        ws1[1] == ws2[1],
    ensures
        next_window(ws1) == next_window(ws2),
{
}

/// Matching an accessibility window to an on-screen window: it matches
/// exactly when both titles are non-empty and equal, or when each of x, y,
/// width and height differs by at most five pixels.
pub proof fn lemma_window_match_by_title_or_all_bounds(ax_title: Seq<char>, ax_bounds: (i32, i32, i32, i32),
    title: Seq<char>, bounds: (i32, i32, i32, i32))
    ensures
        ax_window_matches(ax_title, ax_bounds, title, bounds) <==> (
            (ax_title.len() > 0 && title.len() > 0 && ax_title == title)
            || (-5 <= ax_bounds.0 - bounds.0 <= 5 && -5 <= ax_bounds.1 - bounds.1 <= 5
                && -5 <= ax_bounds.2 - bounds.2 <= 5 && -5 <= ax_bounds.3 - bounds.3 <= 5)),
{
}

/// Windows whose titles differ and whose tops are more than five pixels apart
/// are never taken for one another, whatever the rest of their bounds.
pub proof fn lemma_distant_tops_do_not_match(ax_title: Seq<char>, ax_bounds: (i32, i32, i32, i32),
    title: Seq<char>, bounds: (i32, i32, i32, i32))
    requires
        ax_title != title,
        ax_bounds.1 - bounds.1 > 5 || bounds.1 - ax_bounds.1 > 5,
    ensures
        !ax_window_matches(ax_title, ax_bounds, title, bounds),
{
}

} // verus!
