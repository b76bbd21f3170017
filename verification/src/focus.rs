use vstd::prelude::*;
use crate::cf_utils::{number_value, bounds_value, dict_text, get_dict_number, get_dict_bounds, get_dict_string};
use crate::text::{decimal, signed_decimal};
use crate::window_manager::{WindowEntry, ax_window_matches, match_ax_window_to_cg_window};

verus! {

/// The on-screen window to focus: its owner and what identifies it among the
/// owner's accessibility windows.
#[derive(Debug, PartialEq, Eq)]
pub struct FocusTarget {
    pub pid: i32,
    pub title: String,
    pub bounds: (i32, i32, i32, i32),
}

/// What was read of one accessibility window of the owner: its title and its
/// bounds (see `get_ax_window_title` and `get_ax_window_bounds`).
#[derive(Debug, PartialEq, Eq)]
pub struct AxWindowRead {
    pub title: String,
    pub bounds: (i32, i32, i32, i32),
}

/// An entry of the window list is present and carries the window number.
pub open spec fn has_number(entry: Option<WindowEntry>, number: i32) -> bool {
    entry matches Some(e) && number_value(e.number) == number
}

/// `k` is the last entry of the window list that carries the window number.
pub open spec fn last_with_number(list: Seq<Option<WindowEntry>>, number: i32, k: int) -> bool {
    &&& 0 <= k < list.len()
    &&& has_number(list[k], number)
    &&& forall|k2: int| k < k2 < list.len() ==> !#[trigger] has_number(list[k2], number)
}

pub open spec fn window_info_failed_message() -> Seq<char> {
    "Failed to get window info"@
}

pub open spec fn window_missing_message(number: i32) -> Seq<char> {
    "Cannot find window "@ + decimal(number as int)
}

pub open spec fn window_entry_missing_message(number: i32) -> Seq<char> {
    "Cannot find valid window dictionary for window "@ + decimal(number as int)
}

pub open spec fn pid_missing_message(number: i32) -> Seq<char> {
    "Cannot determine PID for window "@ + decimal(number as int)
}

pub open spec fn application_failed_message() -> Seq<char> {
    "Failed to create application element"@
}

pub open spec fn application_windows_failed_message() -> Seq<char> {
    "Cannot get application windows"@
}

pub open spec fn window_missing_ax_message() -> Seq<char> {
    "Couldn't get any AX window for application"@
}

/// The title given to the owning application before its windows are searched.
pub open spec fn search_title() -> Seq<char> {
    "TEST JJK"@
}

/// The outcome of looking up the window to focus in the on-screen window
/// list: the owner, title and bounds of the last entry that carries its
/// number, unless the list is missing or empty, no entry carries the number,
/// or that entry has no owner.
pub open spec fn target_selected(number: i32, list: Option<Vec<Option<WindowEntry>>>, res: Result<FocusTarget, String>) -> bool {
    match list {
        None => res matches Err(m) && m@ == window_info_failed_message(),
        Some(l) => if l@.len() == 0 {
            res matches Err(m) && m@ == window_missing_message(number)
        } else if !exists|k: int| 0 <= k < l@.len() && #[trigger] has_number(l@[k], number) {
            res matches Err(m) && m@ == window_entry_missing_message(number)
        } else {
            exists|k: int| #[trigger] last_with_number(l@, number, k) && {
                let e = l@[k]->0;
                if number_value(e.owner_pid) == 0 {
                    res matches Err(m) && m@ == pid_missing_message(number)
                } else {
                    res matches Ok(t) && t.pid == number_value(e.owner_pid)
                        && t.title@ == dict_text(e.name) && t.bounds == bounds_value(e.bounds)
                }
            }
        },
    }
}

fn message_with_number(prefix: &str, number: i32) -> (m: String)
    ensures
        m@ == prefix@ + decimal(number as int),
{
    let mut m = String::from_str(prefix);
    let digits = signed_decimal(number as i64);
    m.append(digits.as_str());
    m
}

/// Finds the window to focus in the on-screen window list.
pub fn select_focus_target(number: i32, list: &Option<Vec<Option<WindowEntry>>>) -> (res: Result<FocusTarget, String>)
    ensures
        target_selected(number, *list, res),
{
    let l = match list {
        None => {
            return Err(String::from_str("Failed to get window info"));
        },
        Some(l) => l,
    };
    if l.len() == 0 {
        return Err(message_with_number("Cannot find window ", number));
    }
    let mut found: Option<usize> = None;
    let mut i: usize = 0;
    while i < l.len()
        invariant
            *list == Some(*l),
            i <= l@.len(),
            match found {
                None => forall|k: int| 0 <= k < i ==> !#[trigger] has_number(l@[k], number),
                Some(k) => k < i && has_number(l@[k as int], number)
                    && forall|k2: int| k < k2 < i ==> !#[trigger] has_number(l@[k2], number),
            },
        decreases l@.len() - i,
    {
        match &l[i] {
            Some(e) => {
                if get_dict_number(e.number) == number {
                    found = Some(i);
                }
            },
            None => {},
        }
        i = i + 1;
    }
    match found {
        None => {
            Err(message_with_number("Cannot find valid window dictionary for window ", number))
        },
        Some(k) => {
            proof {
                assert(last_with_number((*list)->0@, number, k as int));
            }
            match &l[k] {
                Some(e) => {
                    let pid = get_dict_number(e.owner_pid);
                    if pid == 0 {
                        return Err(message_with_number("Cannot determine PID for window ", number));
                    }
                    Ok(FocusTarget { pid, title: get_dict_string(&e.name), bounds: get_dict_bounds(e.bounds) })
                },
                None => {
                    proof { assert(false); }
                    Err(String::new())
                },
            }
        },
    }
}

/// `i` is the accessibility window chosen among `reads`: the first one taken
/// for the target, or the first one when none is.
pub open spec fn window_choice(reads: Seq<AxWindowRead>, target: FocusTarget, i: int) -> bool {
    ||| {
        &&& 0 <= i < reads.len()
        &&& ax_window_matches(reads[i].title@, reads[i].bounds, target.title@, target.bounds)
        &&& forall|k: int| 0 <= k < i ==> !#[trigger] ax_window_matches(reads[k].title@, reads[k].bounds, target.title@, target.bounds)
    }
    ||| {
        &&& i == 0
        &&& forall|k: int| 0 <= k < reads.len() ==> !#[trigger] ax_window_matches(reads[k].title@, reads[k].bounds, target.title@, target.bounds)
    }
}

/// Chooses among the owner's accessibility windows: the first that matches
/// the target by title or bounds, else the first window.
pub fn choose_ax_window(reads: &Vec<AxWindowRead>, target: &FocusTarget) -> (i: usize)
    requires
        reads@.len() > 0,
    ensures
        i < reads@.len(),
        window_choice(reads@, *target, i as int),
{
    let mut i: usize = 0;
    while i < reads.len()
        invariant
            i <= reads@.len(),
            forall|k: int| 0 <= k < i ==> !#[trigger] ax_window_matches(reads@[k].title@, reads@[k].bounds, target.title@, target.bounds),
        decreases reads@.len() - i,
    {
        if match_ax_window_to_cg_window(&reads[i].title, reads[i].bounds, &target.title, target.bounds) {
            return i;
        }
        i = i + 1;
    }
    0
}

/// Where focusing a window by its number stands.
#[derive(Debug, PartialEq, Eq)]
pub enum FocusState {
    /// The on-screen window list is needed.
    Start { window_number: i32 },
    /// The owner's application element is being made.
    OpeningApplication { target: FocusTarget },
    /// The owner's accessibility windows are being listed.
    ListingWindows { target: FocusTarget },
    /// The owner's `count` accessibility windows are being read.
    ReadingWindows { target: FocusTarget, count: usize },
    /// The chosen accessibility window is being raised and focused.
    Raising { index: usize },
    /// Focusing has ended with this result.
    Done { result: Result<(), String> },
}

/// What the program is asked to do next.
#[derive(Debug, PartialEq, Eq)]
pub enum FocusRequest {
    /// Read the on-screen window list.
    ListWindows,
    /// Make the application element of the process.
    OpenApplication { pid: i32 },
    /// Read the application's `AXWindows`.
    ListApplicationWindows,
    /// Set the application's title to `title`, then read the title and bounds
    /// of each of its `count` windows.
    RenameAndReadWindows { title: String, count: usize },
    /// Raise the window at `index` of the application's windows and make it
    /// the application's focused window; when there is no window there, do
    /// nothing and say so.
    RaiseAndFocus { index: usize },
    /// Nothing more: the state holds the result.
    Finish,
}

/// What the program found out doing the last request.
#[derive(Debug, PartialEq, Eq)]
pub enum FocusEvent {
    WindowList(Option<Vec<Option<WindowEntry>>>),
    ApplicationOpened(bool),
    /// The number of the application's windows, or `None` when they could not
    /// be read.
    ApplicationWindows(Option<usize>),
    WindowsRead(Vec<AxWindowRead>),
    /// The chosen window was raised and focused.
    Focused,
    /// The application's window list held no window at the chosen index, so
    /// nothing was raised.
    WindowMissing,
}

/// The event answers the request that the state stands for.
pub open spec fn answers(state: FocusState, event: FocusEvent) -> bool {
    match state {
        FocusState::Start { .. } => event is WindowList,
        FocusState::OpeningApplication { .. } => event is ApplicationOpened,
        FocusState::ListingWindows { .. } => event is ApplicationWindows,
        FocusState::ReadingWindows { .. } => event is WindowsRead,
        FocusState::Raising { .. } => event is Focused || event is WindowMissing,
        FocusState::Done { .. } => true,
    }
}

/// `request` is the request that `state` stands for.
pub open spec fn asks_for(state: FocusState, request: FocusRequest) -> bool {
    match state {
        FocusState::Start { .. } => request is ListWindows,
        FocusState::OpeningApplication { target } => request == FocusRequest::OpenApplication { pid: target.pid },
        FocusState::ListingWindows { .. } => request is ListApplicationWindows,
        FocusState::ReadingWindows { count, .. } => request matches FocusRequest::RenameAndReadWindows { title, count: c }
            && c == count && title@ == search_title(),
        FocusState::Raising { index } => request == FocusRequest::RaiseAndFocus { index },
        FocusState::Done { .. } => request is Finish,
    }
}

/// `next` is `Done` with an error that reads `message`.
pub open spec fn fails_with(next: FocusState, message: Seq<char>) -> bool {
    next matches FocusState::Done { result: Err(m) } && m@ == message
}

/// One step of focusing a window: from `state`, on `event`, to `next`, which
/// asks for `request`. An event that does not answer the state's request
/// leaves the state as it is and asks again.
pub open spec fn focus_transition(state: FocusState, event: FocusEvent, next: FocusState, request: FocusRequest) -> bool {
    asks_for(next, request) && if !answers(state, event) {
        next == state
    } else {
        match state {
            FocusState::Start { window_number } => match event {
                FocusEvent::WindowList(list) => match next {
                    FocusState::Done { result: Err(m) } => target_selected(window_number, list, Err(m)),
                    FocusState::OpeningApplication { target } => target_selected(window_number, list, Ok(target)),
                    _ => false,
                },
                _ => false,
            },
            FocusState::OpeningApplication { target } => match event {
                FocusEvent::ApplicationOpened(opened) => if opened {
                    next == FocusState::ListingWindows { target }
                } else {
                    fails_with(next, application_failed_message())
                },
                _ => false,
            },
            FocusState::ListingWindows { target } => match event {
                FocusEvent::ApplicationWindows(count) => match count {
                    None => fails_with(next, application_windows_failed_message()),
                    Some(c) => if c == 1 {
                        next == FocusState::Raising { index: 0 }
                    } else {
                        next == FocusState::ReadingWindows { target, count: c }
                    },
                },
                _ => false,
            },
            FocusState::ReadingWindows { target, .. } => match event {
                FocusEvent::WindowsRead(reads) => next matches FocusState::Raising { index }
                    && index < reads@.len() && window_choice(reads@, target, index as int),
                _ => false,
            },
            FocusState::Raising { .. } => match event {
                FocusEvent::Focused => next == FocusState::Done { result: Ok(()) },
                _ => fails_with(next, window_missing_ax_message()),
            },
            FocusState::Done { .. } => next == state,
        }
    }
}

/// How many steps focusing can still take at most.
pub open spec fn steps_left(state: FocusState) -> nat {
    match state {
        FocusState::Start { .. } => 5,
        FocusState::OpeningApplication { .. } => 4,
        FocusState::ListingWindows { .. } => 3,
        FocusState::ReadingWindows { .. } => 2,
        FocusState::Raising { .. } => 1,
        FocusState::Done { .. } => 0,
    }
}

/// Focusing always ends: every answered step that does not start from `Done`
/// brings it closer to `Done`, so five answered steps reach it.
pub proof fn lemma_focus_progress(state: FocusState, event: FocusEvent, next: FocusState, request: FocusRequest)
    requires
        focus_transition(state, event, next, request),
        answers(state, event),
        !(state is Done),
    ensures
        steps_left(next) < steps_left(state),
{
}

/// Once focusing has ended, it stays ended with the same result and asks for
/// nothing more.
pub proof fn lemma_focus_done_is_final(state: FocusState, event: FocusEvent, next: FocusState, request: FocusRequest)
    requires
        focus_transition(state, event, next, request),
        state is Done,
    ensures
        next == state,
        request is Finish,
{
}

/// The window raised is one the owner has: the only window when it has one,
/// otherwise one of the windows read.
pub proof fn lemma_focus_raises_owned_window(state: FocusState, event: FocusEvent, next: FocusState, request: FocusRequest)
    requires
        focus_transition(state, event, next, request),
        answers(state, event),
        next matches FocusState::Raising { .. },
        !(state is Raising),
    ensures
        state is ListingWindows ==> (event matches FocusEvent::ApplicationWindows(Some(c)) && c == 1
            && next == (FocusState::Raising { index: 0 })),
        state is ReadingWindows ==> (event matches FocusEvent::WindowsRead(reads)
            && next->index < reads@.len()),
        state is ListingWindows || state is ReadingWindows,
        request == (FocusRequest::RaiseAndFocus { index: next->index }),
{
}

/// Focusing succeeds only by raising the chosen window: a step that ends in
/// success starts from raising it (or from success already reached).
pub proof fn lemma_focus_succeeds_only_after_raise(state: FocusState, event: FocusEvent, next: FocusState, request: FocusRequest)
    requires
        focus_transition(state, event, next, request),
        next matches FocusState::Done { result: Ok(_) },
    ensures
        state is Raising || state == next,
{
}

/// Listing the owner's windows keeps the target: when the owner has several
/// windows, the state that reads them carries the same target (owner, title
/// and bounds) and their count.
pub proof fn lemma_listing_keeps_target(target: FocusTarget, count: usize, next: FocusState, request: FocusRequest)
    requires
        focus_transition(FocusState::ListingWindows { target }, FocusEvent::ApplicationWindows(Some(count)), next, request),
        count != 1,
    ensures
        next matches FocusState::ReadingWindows { target: t, count: c }
            && t.pid == target.pid && t.title@ == target.title@ && t.bounds == target.bounds && c == count,
{
}

/// The window raised is the first of the owner's windows that matches the
/// target selected from the window list, by title or by bounds: from listing
/// the owner's several windows through reading them, the index raised is that
/// of the first read window that matches the target.
pub proof fn lemma_raises_first_window_matching_target(target: FocusTarget, count: usize, reads: Vec<AxWindowRead>,
    mid: FocusState, r1: FocusRequest, next: FocusState, r2: FocusRequest, i: int)
    requires
        focus_transition(FocusState::ListingWindows { target }, FocusEvent::ApplicationWindows(Some(count)), mid, r1),
        count != 1,
        focus_transition(mid, FocusEvent::WindowsRead(reads), next, r2),
        0 <= i < reads@.len(),
        ax_window_matches(reads@[i].title@, reads@[i].bounds, target.title@, target.bounds),
        forall|k: int| 0 <= k < i ==> !#[trigger] ax_window_matches(reads@[k].title@, reads@[k].bounds, target.title@, target.bounds),
    ensures
        next == (FocusState::Raising { index: i as usize }),
        r2 == (FocusRequest::RaiseAndFocus { index: i as usize }),
{
    let t = mid->ReadingWindows_target;
    assert(t.title@ == target.title@ && t.bounds == target.bounds);
    let j = next->index as int;
    if j < i {
        assert(!ax_window_matches(reads@[j].title@, reads@[j].bounds, target.title@, target.bounds));
    } else if j > i {
        assert(ax_window_matches(reads@[i].title@, reads@[i].bounds, t.title@, t.bounds));
    }
}

/// When none of the owner's several windows matches the target, the first is
/// raised.
pub proof fn lemma_raises_first_window_without_match(target: FocusTarget, count: usize, reads: Vec<AxWindowRead>,
    mid: FocusState, r1: FocusRequest, next: FocusState, r2: FocusRequest)
    requires
        focus_transition(FocusState::ListingWindows { target }, FocusEvent::ApplicationWindows(Some(count)), mid, r1),
        count != 1,
        focus_transition(mid, FocusEvent::WindowsRead(reads), next, r2),
        forall|k: int| 0 <= k < reads@.len() ==> !#[trigger] ax_window_matches(reads@[k].title@, reads@[k].bounds, target.title@, target.bounds),
    ensures
        r2 == (FocusRequest::RaiseAndFocus { index: 0 }),
{
    let t = mid->ReadingWindows_target;
    assert(t.title@ == target.title@ && t.bounds == target.bounds);
    let j = next->index as int;
    if j != 0 {
        assert(ax_window_matches(reads@[j].title@, reads@[j].bounds, t.title@, t.bounds));
    }
}

/// Starts focusing the on-screen window with the given number.
pub fn focus_window_by_number(target_window_number: i32) -> (start: (FocusState, FocusRequest))
    ensures
        start.0 == (FocusState::Start { window_number: target_window_number }),
        asks_for(start.0, start.1),
{
    (FocusState::Start { window_number: target_window_number }, FocusRequest::ListWindows)
}

fn search_request(count: usize) -> (request: FocusRequest)
    ensures
        (request matches FocusRequest::RenameAndReadWindows { title, count: c } && c == count && title@ == search_title()),
{
    FocusRequest::RenameAndReadWindows { title: String::from_str("TEST JJK"), count }
}

/// Takes one step of focusing a window. The program performs the request it
/// returns and hands back what came of it. A window list that the owner
/// reports with no windows ends in an out-of-range index in the system, so
/// reading no windows is not a possible answer.
pub fn focus_step(state: FocusState, event: FocusEvent) -> (step: (FocusState, FocusRequest))
    requires
        (state is ReadingWindows && event is WindowsRead) ==> (event matches FocusEvent::WindowsRead(reads) && reads@.len() > 0),
    ensures
        focus_transition(state, event, step.0, step.1),
{
    match state {
        FocusState::Start { window_number } => match event {
            FocusEvent::WindowList(list) => match select_focus_target(window_number, &list) {
                Ok(target) => {
                    let pid = target.pid;
                    (FocusState::OpeningApplication { target }, FocusRequest::OpenApplication { pid })
                },
                Err(m) => (FocusState::Done { result: Err(m) }, FocusRequest::Finish),
            },
            _ => (FocusState::Start { window_number }, FocusRequest::ListWindows),
        },
        FocusState::OpeningApplication { target } => match event {
            FocusEvent::ApplicationOpened(opened) => {
                if opened {
                    (FocusState::ListingWindows { target }, FocusRequest::ListApplicationWindows)
                } else {
                    (FocusState::Done { result: Err(String::from_str("Failed to create application element")) }, FocusRequest::Finish)
                }
            },
            _ => {
                let pid = target.pid;
                (FocusState::OpeningApplication { target }, FocusRequest::OpenApplication { pid })
            },
        },
        FocusState::ListingWindows { target } => match event {
            FocusEvent::ApplicationWindows(count) => match count {
                None => {
                    (FocusState::Done { result: Err(String::from_str("Cannot get application windows")) }, FocusRequest::Finish)
                },
                Some(c) => {
                    if c == 1 {
                        (FocusState::Raising { index: 0 }, FocusRequest::RaiseAndFocus { index: 0 })
                    } else {
                        (FocusState::ReadingWindows { target, count: c }, search_request(c))
                    }
                },
            },
            _ => (FocusState::ListingWindows { target }, FocusRequest::ListApplicationWindows),
        },
        FocusState::ReadingWindows { target, count } => match event {
            FocusEvent::WindowsRead(reads) => {
                let index = choose_ax_window(&reads, &target);
                (FocusState::Raising { index }, FocusRequest::RaiseAndFocus { index })
            },
            _ => (FocusState::ReadingWindows { target, count }, search_request(count)),
        },
        FocusState::Raising { index } => match event {
            FocusEvent::Focused => (FocusState::Done { result: Ok(()) }, FocusRequest::Finish),
            FocusEvent::WindowMissing => (
                FocusState::Done { result: Err(String::from_str("Couldn't get any AX window for application")) },
                FocusRequest::Finish,
            ),
            _ => (FocusState::Raising { index }, FocusRequest::RaiseAndFocus { index }),
        },
        FocusState::Done { result } => (FocusState::Done { result }, FocusRequest::Finish),
    }
}

} // verus!
