use vstd::prelude::*;
use crate::gestures::{GestureEvent, gesture};
pub use crate::gestures::{
    activate_mission_control, activate_mission_control_basic, activate_mission_control_thumbnails,
    activate_mission_control_with_thumbnails, deactivate_mission_control, switch_to_adjacent_workspace,
};

verus! {

/// What `CGGetDisplaysWithPoint` reported for the cursor position, and the
/// main display to fall back on.
#[derive(Clone, Copy, Debug, PartialEq, Eq, Structural)]
pub struct DisplayLookup {
    /// The error code of the lookup (0 on success).
    pub status: i32,
    /// How many displays contain the point.
    pub display_count: u32,
    /// The first display that contains the point.
    pub found_display_id: u32,
    /// The main display.
    pub main_display_id: u32,
}

/// One entry of the managed display spaces list: the display it belongs to
/// (the string under its `Display Identifier` key: the display's UUID, or
/// `Main` for the entry that all displays share when they do not have
/// separate spaces; `None` when absent or not a string) and the
/// `ManagedSpaceID` of each space in its `Spaces` array, in order. `spaces` is
/// `None` when the entry is null or has no `Spaces` array; a space id is
/// `None` when the space entry is null, has no id, or the id cannot be read as
/// a 64-bit integer.
#[derive(Clone, Debug, PartialEq, Eq)]
pub struct DisplaySpaces {
    pub identifier: Option<String>,
    pub spaces: Option<Vec<Option<i64>>>,
}

/// The managed display spaces list, one entry per display.
#[derive(Clone, Debug, PartialEq, Eq)]
pub struct ManagedSpaces {
    pub displays: Vec<DisplaySpaces>,
}

/// The display and desktop the cursor is on.
#[derive(Clone, Copy, Debug, PartialEq, Eq, Structural)]
pub struct DisplayInfo {
    pub display_id: u32,
    pub current_desktop: u32,
}

/// What the program reads about one display: its id, its identifier as the
/// managed spaces list writes it (the display's UUID string; `None` when it
/// could not be read) and its active space.
#[derive(Clone, Debug, PartialEq, Eq)]
pub struct CursorDisplayRead {
    pub display_id: u32,
    pub identifier: Option<String>,
    pub active_space_id: u64,
}

/// What the program reads from the window server to learn where the cursor
/// is: the display lookup for the cursor position, what it read about the
/// display that lookup picks (see `find_display_at_point`), and the managed
/// spaces list as read for finding the current desktop and again for counting
/// the desktops.
#[derive(Clone, Debug, PartialEq, Eq)]
pub struct DesktopReads {
    pub lookup: DisplayLookup,
    pub display: CursorDisplayRead,
    pub spaces: Option<ManagedSpaces>,
    pub spaces_for_count: Option<ManagedSpaces>,
}

/// The display under the cursor: the one found at the point when the lookup
/// succeeded and found any, the main display otherwise.
pub open spec fn cursor_display(lookup: DisplayLookup) -> u32 {
    if lookup.status == 0 && lookup.display_count > 0 {
        lookup.found_display_id
    } else {
        lookup.main_display_id
    }
}

/// The reads belong together: the display read is that of the display under
/// the cursor.
pub open spec fn reads_agree(reads: DesktopReads) -> bool {
    reads.display.display_id == cursor_display(reads.lookup)
}

/// The space ids of entry `i` (none when it has no spaces array).
pub open spec fn space_ids(m: ManagedSpaces, i: int) -> Seq<Option<i64>> {
    match m.displays@[i].spaces {
        Some(ids) => ids@,
        None => Seq::empty(),
    }
}

/// A space id names the active space: it was read, is positive, and equals it.
pub open spec fn is_active_space(id: Option<i64>, active: u64) -> bool {
    match id {
        Some(v) => v > 0 && v == active,
        None => false,
    }
}

/// Space `j` of display entry `i` is the active space.
pub open spec fn active_space_at(m: ManagedSpaces, active: u64, i: int, j: int) -> bool {
    &&& 0 <= i < m.displays@.len()
    &&& 0 <= j < space_ids(m, i).len()
    &&& is_active_space(space_ids(m, i)[j], active)
}

/// `(i1, j1)` comes before `(i2, j2)` in the order the list is searched.
pub open spec fn searched_before(i1: int, j1: int, i2: int, j2: int) -> bool {
    i1 < i2 || (i1 == i2 && j1 < j2)
}

/// `(i, j)` is the first place in the list that holds the active space.
pub open spec fn first_active_space(m: ManagedSpaces, active: u64, i: int, j: int) -> bool {
    &&& active_space_at(m, active, i, j)
    &&& forall|i2: int, j2: int|
        searched_before(i2, j2, i, j) ==> !#[trigger] active_space_at(m, active, i2, j2)
}

/// The list holds the active space somewhere.
pub open spec fn holds_active_space(m: ManagedSpaces, active: u64) -> bool {
    exists|i: int, j: int| active_space_at(m, active, i, j)
}

/// The identifier of the entry that all displays share when they do not have
/// separate spaces.
pub open spec fn main_identifier() -> Seq<char> {
    "Main"@
}

/// Entry `i` carries the identifier `name`.
pub open spec fn entry_named(m: ManagedSpaces, name: Seq<char>, i: int) -> bool {
    m.displays@[i].identifier matches Some(id) && id@ == name
}

/// Entry `i` carries the identifier `name` and has at least one space.
pub open spec fn populated_for(m: ManagedSpaces, name: Seq<char>, i: int) -> bool {
    &&& 0 <= i < m.displays@.len()
    &&& entry_named(m, name, i)
    &&& space_ids(m, i).len() > 0
}

/// Entry `i` is the first entry named `name` with at least one space.
pub open spec fn first_populated(m: ManagedSpaces, name: Seq<char>, i: int) -> bool {
    &&& populated_for(m, name, i)
    &&& forall|i2: int| 0 <= i2 < i ==> !#[trigger] populated_for(m, name, i2)
}

/// Some entry named `name` has at least one space.
pub open spec fn has_populated(m: ManagedSpaces, name: Seq<char>) -> bool {
    exists|i: int| #[trigger] populated_for(m, name, i)
}

/// `n` is the number of spaces of the first entry named `name` that has any.
pub open spec fn count_of(m: ManagedSpaces, name: Seq<char>, n: u32) -> bool {
    exists|i: int| #[trigger] first_populated(m, name, i) && n == space_ids(m, i).len() as u32
}

/// The display has an entry of its own, under its identifier, with spaces.
pub open spec fn has_own_entry(m: ManagedSpaces, identifier: Option<String>) -> bool {
    identifier matches Some(id) && has_populated(m, id@)
}

pub open spec fn null_spaces_message() -> Seq<char> {
    "CGSCopyManagedDisplaySpaces returned null"@
}

pub open spec fn space_not_found_message() -> Seq<char> {
    "Could not find current space in any display's ordered spaces"@
}

pub open spec fn no_managed_spaces_message() -> Seq<char> {
    "Failed to get managed display spaces"@
}

pub open spec fn no_spaces_message() -> Seq<char> {
    "No spaces found for display"@
}

pub open spec fn leftmost_message() -> Seq<char> {
    "Already at the leftmost workspace"@
}

pub open spec fn rightmost_message() -> Seq<char> {
    "Already at the rightmost workspace"@
}

/// The outcome of looking up the desktop number of the active space: its
/// 1-based position in the `Spaces` array of the first entry (searching entry
/// by entry, space by space) that holds it.
pub open spec fn ordered_desktop(active: u64, managed: Option<ManagedSpaces>, res: Result<u32, String>) -> bool {
    match managed {
        None => res matches Err(e) && e@ == null_spaces_message(),
        Some(m) => match res {
            Ok(n) => exists|i: int, j: int|
                #[trigger] first_active_space(m, active, i, j) && n == (j + 1) as u32,
            Err(e) => !holds_active_space(m, active) && e@ == space_not_found_message(),
        },
    }
}

/// The outcome of counting the desktops of a display: the number of spaces of
/// the first entry under the display's identifier that has any; without one,
/// that of the first shared `Main` entry that has any.
pub open spec fn desktop_count(identifier: Option<String>, managed: Option<ManagedSpaces>, res: Result<u32, String>) -> bool {
    match managed {
        None => res matches Err(e) && e@ == no_managed_spaces_message(),
        Some(m) => match res {
            Ok(n) => match identifier {
                Some(id) if has_populated(m, id@) => count_of(m, id@, n),
                _ => count_of(m, main_identifier(), n),
            },
            Err(e) => !has_own_entry(m, identifier) && !has_populated(m, main_identifier())
                && e@ == no_spaces_message(),
        },
    }
}

proof fn lemma_count_of_unique(m: ManagedSpaces, name: Seq<char>, n1: u32, n2: u32)
    requires
        count_of(m, name, n1),
        count_of(m, name, n2),
    ensures
        n1 == n2,
{
    let i1 = choose|i: int| #[trigger] first_populated(m, name, i) && n1 == space_ids(m, i).len() as u32;
    let i2 = choose|i: int| #[trigger] first_populated(m, name, i) && n2 == space_ids(m, i).len() as u32;
    if i1 < i2 {
        assert(populated_for(m, name, i1));
    } else if i2 < i1 {
        assert(populated_for(m, name, i2));
    }
}

/// The desktop count of a display is well defined: two outcomes of counting
/// that both succeed give the same count.
pub proof fn lemma_desktop_count_unique(identifier: Option<String>, m: ManagedSpaces, n1: u32, n2: u32)
    requires
        desktop_count(identifier, Some(m), Ok(n1)),
        desktop_count(identifier, Some(m), Ok(n2)),
    ensures
        n1 == n2,
{
    match identifier {
        Some(id) => {
            if has_populated(m, id@) {
                lemma_count_of_unique(m, id@, n1, n2);
            } else {
                lemma_count_of_unique(m, main_identifier(), n1, n2);
            }
        },
        None => {
            lemma_count_of_unique(m, main_identifier(), n1, n2);
        },
    }
}

/// The desktop number of the active space is well defined: two outcomes of
/// the lookup that both succeed name the same desktop.
pub proof fn lemma_ordered_desktop_unique(active: u64, m: ManagedSpaces, d1: u32, d2: u32)
    requires
        ordered_desktop(active, Some(m), Ok(d1)),
        ordered_desktop(active, Some(m), Ok(d2)),
    ensures
        d1 == d2,
{
    let (i1, j1) = choose|i: int, j: int| #[trigger] first_active_space(m, active, i, j) && d1 == (j + 1) as u32;
    let (i2, j2) = choose|i: int, j: int| #[trigger] first_active_space(m, active, i, j) && d2 == (j + 1) as u32;
    if searched_before(i1, j1, i2, j2) {
        assert(active_space_at(m, active, i1, j1));
    } else if searched_before(i2, j2, i1, j1) {
        assert(active_space_at(m, active, i2, j2));
    }
}

/// Desktop numbers count from 1, and when the list has a single entry the
/// desktop the cursor is on is never past the last desktop counted.
pub proof fn lemma_current_desktop_within_count(active: u64, identifier: Option<String>, m: ManagedSpaces, current: u32, total: u32)
    requires
        m.displays@.len() == 1,
        space_ids(m, 0).len() <= u32::MAX,
        ordered_desktop(active, Some(m), Ok(current)),
        desktop_count(identifier, Some(m), Ok(total)),
    ensures
        1 <= current <= total,
{
    let (i, j) = choose|i: int, j: int| #[trigger] first_active_space(m, active, i, j) && current == (j + 1) as u32;
    assert(i == 0);
    assert(j + 1 <= space_ids(m, 0).len());
    let name = match identifier {
        Some(id) if has_populated(m, id@) => id@,
        _ => main_identifier(),
    };
    assert(count_of(m, name, total));
    let k = choose|k: int| #[trigger] first_populated(m, name, k) && total == space_ids(m, k).len() as u32;
    assert(k == 0);
}

/// The display that contains the cursor: the display found at the point when
/// the lookup succeeded and found one, the main display otherwise. It never
/// fails.
pub fn find_display_at_point(lookup: DisplayLookup) -> (res: Result<u32, String>)
    ensures
        res == Ok::<u32, String>(cursor_display(lookup)),
{
    if lookup.status == 0 && lookup.display_count > 0 {
        Ok(lookup.found_display_id)
    } else {
        Ok(lookup.main_display_id)
    }
}

/// The 1-based desktop number of the active space: the position of the first
/// space, searching every entry of the managed spaces list in order, whose
/// positive id equals `active_space_id`.
pub fn get_ordered_desktop_spaces(active_space_id: u64, managed: &Option<ManagedSpaces>) -> (res: Result<u32, String>)
    ensures
        ordered_desktop(active_space_id, *managed, res),
        managed matches Some(m) ==> (res is Ok <==> holds_active_space(*m, active_space_id)),
{
    match managed {
        None => {
            Err(String::from_str("CGSCopyManagedDisplaySpaces returned null"))
        },
        Some(m) => {
            let mut i: usize = 0;
            while i < m.displays.len()
                invariant
                    *managed == Some(*m),
                    i <= m.displays@.len(),
                    forall|i2: int, j2: int| 0 <= i2 < i ==> !#[trigger] active_space_at(*m, active_space_id, i2, j2),
                decreases m.displays@.len() - i,
            {
                match &m.displays[i].spaces {
                    Some(ids) => {
                        let mut j: usize = 0;
                        while j < ids.len()
                            invariant
                                *managed == Some(*m),
                                i < m.displays@.len(),
                                m.displays@[i as int].spaces == Some(*ids),
                                j <= ids@.len(),
                                forall|i2: int, j2: int| 0 <= i2 < i ==> !#[trigger] active_space_at(*m, active_space_id, i2, j2),
                                forall|j2: int| 0 <= j2 < j ==> !#[trigger] active_space_at(*m, active_space_id, i as int, j2),
                            decreases ids@.len() - j,
                        {
                            match ids[j] {
                                Some(v) => {
                                    if v > 0 && v as u64 == active_space_id {
                                        let desktop: u32 = #[verifier::truncate] ((j + 1) as u32);
                                        proof {
                                            assert(first_active_space((*managed)->0, active_space_id, i as int, j as int));
                                        }
                                        return Ok(desktop);
                                    }
                                },
                                None => {},
                            }
                            j = j + 1;
                        }
                    },
                    None => {},
                }
                i = i + 1;
            }
            Err(String::from_str("Could not find current space in any display's ordered spaces"))
        },
    }
}

/// The desktop number of the active space of a display; the display only
/// chooses which active space is asked for.
pub fn get_desktop_for_display(active_space_id: u64, managed: &Option<ManagedSpaces>) -> (res: Result<u32, String>)
    ensures
        ordered_desktop(active_space_id, *managed, res),
{
    get_ordered_desktop_spaces(active_space_id, managed)
}

/// The number of spaces of the first entry named `name` that has any.
fn count_entry_named(name: &String, m: &ManagedSpaces) -> (res: Option<u32>)
    ensures
        res is None <==> !has_populated(*m, name@),
        res matches Some(n) ==> count_of(*m, name@, n),
{
    let mut i: usize = 0;
    while i < m.displays.len()
        invariant
            i <= m.displays@.len(),
            forall|i2: int| 0 <= i2 < i ==> !#[trigger] populated_for(*m, name@, i2),
        decreases m.displays@.len() - i,
    {
        let entry = &m.displays[i];
        let named = match &entry.identifier {
            Some(id) => *id == *name,
            None => false,
        };
        if named {
            match &entry.spaces {
                Some(ids) => {
                    if ids.len() > 0 {
                        let count: u32 = #[verifier::truncate] (ids.len() as u32);
                        proof {
                            assert(first_populated(*m, name@, i as int));
                        }
                        return Some(count);
                    }
                },
                None => {},
            }
        }
        i = i + 1;
    }
    None
}

/// The number of desktops of a display, given its identifier: the length of
/// the `Spaces` array of the first entry of the managed spaces list under that
/// identifier that has any spaces, or, when the display has no such entry of
/// its own, of the first shared `Main` entry that has any.
pub fn count_desktops_for_display(identifier: &Option<String>, managed: &Option<ManagedSpaces>) -> (res: Result<u32, String>)
    ensures
        desktop_count(*identifier, *managed, res),
        managed matches Some(m) ==> (res is Ok <==> has_own_entry(*m, *identifier) || has_populated(*m, main_identifier())),
{
    match managed {
        None => {
            Err(String::from_str("Failed to get managed display spaces"))
        },
        Some(m) => {
            let own = match identifier {
                Some(id) => count_entry_named(id, m),
                None => None,
            };
            match own {
                Some(n) => Ok(n),
                None => {
                    let main = String::from_str("Main");
                    proof { reveal_strlit("Main"); }
                    match count_entry_named(&main, m) {
                        Some(n) => Ok(n),
                        None => Err(String::from_str("No spaces found for display")),
                    }
                },
            }
        },
    }
}

/// The desktop part of a display lookup outcome.
pub open spec fn desktop_of(res: Result<DisplayInfo, String>) -> Result<u32, String> {
    match res {
        Ok(info) => Ok(info.current_desktop),
        Err(e) => Err(e),
    }
}

/// The display and desktop the cursor is on, from the display lookup and what
/// was read about the display it picks.
pub fn get_cursor_display_info(lookup: DisplayLookup, display: &CursorDisplayRead, managed: &Option<ManagedSpaces>) -> (res: Result<DisplayInfo, String>)
    requires
        display.display_id == cursor_display(lookup),
    ensures
        ordered_desktop(display.active_space_id, *managed, desktop_of(res)),
        res matches Ok(info) ==> info.display_id == cursor_display(lookup),
{
    let display_id = match find_display_at_point(lookup) {
        Ok(d) => d,
        Err(e) => { return Err(e); },
    };
    match get_desktop_for_display(display.active_space_id, managed) {
        Ok(current_desktop) => Ok(DisplayInfo { display_id, current_desktop }),
        Err(e) => Err(e),
    }
}

/// The desktop the cursor is on.
pub fn get_current_desktop(lookup: DisplayLookup, display: &CursorDisplayRead, managed: &Option<ManagedSpaces>) -> (res: Result<u32, String>)
    requires
        display.display_id == cursor_display(lookup),
    ensures
        ordered_desktop(display.active_space_id, *managed, res),
{
    match get_cursor_display_info(lookup, display, managed) {
        Ok(info) => Ok(info.current_desktop),
        Err(e) => Err(e),
    }
}

/// The number of desktops of the display the cursor is on.
pub fn count_total_desktops(lookup: DisplayLookup, display: &CursorDisplayRead, managed: &Option<ManagedSpaces>) -> (res: Result<u32, String>)
    requires
        display.display_id == cursor_display(lookup),
    ensures
        desktop_count(display.identifier, *managed, res),
{
    count_desktops_for_display(&display.identifier, managed)
}

/// The outcome of reading the current desktop and the desktop count: the
/// pair of both when both succeed, the first error otherwise.
pub open spec fn desktop_bounds(reads: DesktopReads, res: Result<(u32, u32), String>) -> bool {
    let active = reads.display.active_space_id;
    let identifier = reads.display.identifier;
    match res {
        Ok((current, total)) => ordered_desktop(active, reads.spaces, Ok(current))
            && desktop_count(identifier, reads.spaces_for_count, Ok(total)),
        Err(e) => ordered_desktop(active, reads.spaces, Err(e))
            || (exists|current: u32| ordered_desktop(active, reads.spaces, Ok(current)))
                && desktop_count(identifier, reads.spaces_for_count, Err(e)),
    }
}

/// The current desktop and the number of desktops of the display the cursor
/// is on.
pub fn get_desktop_bounds(reads: &DesktopReads) -> (res: Result<(u32, u32), String>)
    requires
        reads_agree(*reads),
    ensures
        desktop_bounds(*reads, res),
{
    let current = match get_current_desktop(reads.lookup, &reads.display, &reads.spaces) {
        Ok(c) => c,
        Err(e) => { return Err(e); },
    };
    let total = match count_total_desktops(reads.lookup, &reads.display, &reads.spaces_for_count) {
        Ok(t) => t,
        Err(e) => { return Err(e); },
    };
    Ok((current, total))
}

/// Switching left is refused on the first desktop; otherwise it is a swipe to
/// the left. Errors reading the desktops come first.
pub fn switch_workspace_left(reads: &DesktopReads) -> (res: Result<Vec<GestureEvent>, String>)
    requires
        reads_agree(*reads),
    ensures
        match res {
            Ok(events) => events@ == gesture(1, false)
                && exists|current: u32, total: u32|
                    desktop_bounds(*reads, Ok((current, total))) && current > 1,
            Err(e) => desktop_bounds(*reads, Err(e))
                || exists|current: u32, total: u32|
                    desktop_bounds(*reads, Ok((current, total))) && current <= 1
                    && e@ == leftmost_message(),
        },
{
    let (current, total) = match get_desktop_bounds(reads) {
        Ok(b) => b,
        Err(e) => { return Err(e); },
    };
    if current <= 1 {
        return Err(String::from_str("Already at the leftmost workspace"));
    }
    Ok(switch_to_adjacent_workspace(false))
}

/// Switching right is refused on the last desktop; otherwise it is a swipe to
/// the right. Errors reading the desktops come first.
pub fn switch_workspace_right(reads: &DesktopReads) -> (res: Result<Vec<GestureEvent>, String>)
    requires
        reads_agree(*reads),
    ensures
        match res {
            Ok(events) => events@ == gesture(1, true)
                && exists|current: u32, total: u32|
                    desktop_bounds(*reads, Ok((current, total))) && current < total,
            Err(e) => desktop_bounds(*reads, Err(e))
                || exists|current: u32, total: u32|
                    desktop_bounds(*reads, Ok((current, total))) && current >= total
                    && e@ == rightmost_message(),
        },
{
    let (current, total) = match get_desktop_bounds(reads) {
        Ok(b) => b,
        Err(e) => { return Err(e); },
    };
    if current >= total {
        return Err(String::from_str("Already at the rightmost workspace"));
    }
    Ok(switch_to_adjacent_workspace(true))
}

/// Another name for `switch_workspace_left`.
pub fn switch_left(reads: &DesktopReads) -> (res: Result<Vec<GestureEvent>, String>)
    requires
        reads_agree(*reads),
    ensures
        match res {
            Ok(events) => events@ == gesture(1, false)
                && exists|current: u32, total: u32|
                    desktop_bounds(*reads, Ok((current, total))) && current > 1,
            Err(e) => desktop_bounds(*reads, Err(e))
                || exists|current: u32, total: u32|
                    desktop_bounds(*reads, Ok((current, total))) && current <= 1
                    && e@ == leftmost_message(),
        },
{
    switch_workspace_left(reads)
}

/// Another name for `switch_workspace_right`.
pub fn switch_right(reads: &DesktopReads) -> (res: Result<Vec<GestureEvent>, String>)
    requires
        reads_agree(*reads),
    ensures
        match res {
            Ok(events) => events@ == gesture(1, true)
                && exists|current: u32, total: u32|
                    desktop_bounds(*reads, Ok((current, total))) && current < total,
            Err(e) => desktop_bounds(*reads, Err(e))
                || exists|current: u32, total: u32|
                    desktop_bounds(*reads, Ok((current, total))) && current >= total
                    && e@ == rightmost_message(),
        },
{
    switch_workspace_right(reads)
}

} // verus!
