//! Monitors, and the notices that appear in their lower right corner.

use crate::config::text_of;
use crate::text::{
    before_nul, joined, decimal, decimal_i64, eq_ignore_ascii_case, parse_usize, parsed_usize,
    same_but_case, same_text, utf16, utf16_text, utf16_trimmed,
};
use vstd::prelude::*;

verus! {

/// The size of the main monitor, from what the system reports; 1920 by 1080
/// where it reports nothing usable.
pub fn primary_monitor_size(width: i32, height: i32) -> (r: (u32, u32))
    ensures
        width > 0 && height > 0 ==> r.0 == width && r.1 == height,
        !(width > 0 && height > 0) ==> r == (1920u32, 1080u32),
{
    if width > 0 && height > 0 {
        (width as u32, height as u32)
    } else {
        (1920, 1080)
    }
}

// ---------------------------------------------------------------------------
// Which monitor is captured

/// How many display adapters are looked at.
pub const MAX_DISPLAY_ADAPTERS: usize = 16;

/// A display adapter and the monitor on it, as Windows lists them, in buffers
/// that end at their first NUL.
pub struct DisplayAdapter {
    /// The GDI name, such as `\\.\DISPLAY1`.
    pub name: Vec<u16>,
    /// The device path of its monitor, where it has one.
    pub monitor_id: Option<Vec<u16>>,
}

/// The monitor on the adapter has this device path, in any case of letters.
pub open spec fn drives(adapter: DisplayAdapter, device_path: Seq<char>) -> bool {
    match adapter.monitor_id {
        Some(id) => same_but_case(utf16_text(before_nul(id@)), device_path),
        None => false,
    }
}

/// `i` is the first adapter, of those looked at, that drives the monitor.
pub open spec fn first_driver(adapters: Seq<DisplayAdapter>, device_path: Seq<char>, i: int) -> bool {
    &&& 0 <= i < adapters.len()
    &&& i < MAX_DISPLAY_ADAPTERS
    &&& drives(adapters[i], device_path)
    &&& forall|k: int| 0 <= k < i ==> !drives(#[trigger] adapters[k], device_path)
}

/// The GDI name of the adapter that drives the monitor with this device path.
pub fn monitor_gdi_name_for_device_path(adapters: &Vec<DisplayAdapter>, device_path: &str) -> (r:
    Option<String>)
    ensures
        r matches Some(name) ==> exists|i: int|
            #[trigger] first_driver(adapters@, device_path@, i) && name@ == utf16_text(
                before_nul(adapters@[i].name@),
            ),
        r is None <==> forall|i: int| !#[trigger] first_driver(adapters@, device_path@, i),
{
    let mut i: usize = 0;
    while i < adapters.len() && i < MAX_DISPLAY_ADAPTERS
        invariant
            i <= adapters.len(),
            i <= MAX_DISPLAY_ADAPTERS,
            forall|k: int| 0 <= k < i ==> !drives(#[trigger] adapters@[k], device_path@),
        decreases adapters.len() - i,
    {
        let matches = match &adapters[i].monitor_id {
            Some(id) => eq_ignore_ascii_case(
                utf16_trimmed(id.as_slice()).as_str(),
                device_path,
            ),
            None => false,
        };
        if matches {
            assert(first_driver(adapters@, device_path@, i as int));
            return Some(utf16_trimmed(adapters[i].name.as_slice()));
        }
        i = i + 1;
    }
    None
}

/// The names of monitors, where they have one.
pub open spec fn monitor_names(names: Seq<Option<String>>) -> Seq<Option<Seq<char>>> {
    names.map_values(|n: Option<String>| text_of(n))
}

/// The first monitor of this name.
pub open spec fn first_named(names: Seq<Option<Seq<char>>>, name: Seq<char>) -> Option<usize>
    decreases names.len(),
{
    if names.len() == 0 {
        None
    } else {
        match first_named(names.drop_last(), name) {
            Some(i) => Some(i),
            None => if names.last() == Some(name) {
                Some((names.len() - 1) as usize)
            } else {
                None
            },
        }
    }
}

fn find_named(names: &Vec<Option<String>>, name: &str) -> (r: Option<usize>)
    ensures
        r == first_named(monitor_names(names@), name@),
        r matches Some(i) ==> i < names.len(),
{
    let mut found: Option<usize> = None;
    let mut i: usize = 0;
    assert(monitor_names(names@).take(0) =~= seq![]);
    while i < names.len()
        invariant
            i <= names.len(),
            found == first_named(monitor_names(names@).take(i as int), name@),
            found matches Some(k) ==> k < i,
        decreases names.len() - i,
    {
        let ghost all = monitor_names(names@);
        assert(all.take(i + 1).drop_last() =~= all.take(i as int));
        assert(all.take(i + 1).last() == text_of(names@[i as int]));
        if found.is_none() {
            match &names[i] {
                Some(n) => {
                    if same_text(n.as_str(), name) {
                        found = Some(i);
                    }
                },
                None => {},
            }
        }
        i = i + 1;
    }
    assert(monitor_names(names@).take(i as int) =~= monitor_names(names@));
    found
}

/// Which of the monitors at hand is the captured one. Only a screen capture
/// with a chosen screen has one: the monitor that the adapter's name gives;
/// failing that, the monitor whose place the choice writes as a number; and
/// where it writes no number, the monitor of that name.
pub open spec fn captured_monitor(
    source_type: Seq<char>,
    source_id: Option<Seq<char>>,
    names: Option<Seq<Option<Seq<char>>>>,
    gdi_name: Option<Seq<char>>,
) -> Option<usize> {
    if source_type == "screen"@ && source_id is Some && names is Some {
        let by_adapter = match gdi_name {
            Some(g) => first_named(names->0, g),
            None => None,
        };
        if by_adapter is Some {
            by_adapter
        } else {
            match parsed_usize(source_id->0) {
                Some(place) => if place < names->0.len() {
                    Some(place)
                } else {
                    None
                },
                None => first_named(names->0, source_id->0),
            }
        }
    } else {
        None
    }
}

/// Finds the captured monitor. `names` are the names of the monitors at hand,
/// or `None` where they could not be listed; `gdi_name` is the name of the
/// adapter that drives the chosen screen, where one does.
pub fn find_captured_monitor(
    source_type: &str,
    source_id: &Option<String>,
    names: &Option<Vec<Option<String>>>,
    gdi_name: &Option<String>,
) -> (r: Option<usize>)
    ensures
        r == captured_monitor(
            source_type@,
            text_of(*source_id),
            (match *names {
                Some(n) => Some(monitor_names(n@)),
                None => None,
            }),
            text_of(*gdi_name),
        ),
        r matches Some(i) ==> *names is Some && i < (*names)->0@.len(),
{
    if !same_text(source_type, "screen") {
        return None;
    }
    match (source_id, names) {
        (Some(id), Some(list)) => {
            let by_adapter = match gdi_name {
                Some(g) => find_named(list, g.as_str()),
                None => None,
            };
            if by_adapter.is_some() {
                by_adapter
            } else {
                match parse_usize(id.as_str()) {
                    Some(place) => if place < list.len() {
                        Some(place)
                    } else {
                        None
                    },
                    None => find_named(list, id.as_str()),
                }
            }
        },
        _ => None,
    }
}

/// Where a notice goes.
#[derive(Clone, Copy, PartialEq, Eq, Structural, Debug)]
pub enum MonitorTarget {
    /// The captured monitor, by its place in the list.
    Captured(usize),
    /// The monitor that holds the main window.
    Window,
    /// The primary monitor.
    Primary,
    /// No monitor is known.
    Unknown,
}

/// The monitor of a notice.
pub open spec fn target_of(captured: Option<usize>, window_known: bool, primary_known: bool) -> MonitorTarget {
    match captured {
        Some(i) => MonitorTarget::Captured(i),
        None => if window_known {
            MonitorTarget::Window
        } else if primary_known {
            MonitorTarget::Primary
        } else {
            MonitorTarget::Unknown
        },
    }
}

/// Picks the monitor of a notice: the captured one, else the one with the main
/// window, else the primary one.
pub fn target_monitor(captured: Option<usize>, window_known: bool, primary_known: bool) -> (r:
    MonitorTarget)
    ensures
        r == (match captured {
            Some(i) => MonitorTarget::Captured(i),
            None => if window_known {
                MonitorTarget::Window
            } else if primary_known {
                MonitorTarget::Primary
            } else {
                MonitorTarget::Unknown
            },
        }),
        r == target_of(captured, window_known, primary_known),
{
    match captured {
        Some(i) => MonitorTarget::Captured(i),
        None => if window_known {
            MonitorTarget::Window
        } else if primary_known {
            MonitorTarget::Primary
        } else {
            MonitorTarget::Unknown
        },
    }
}

// ---------------------------------------------------------------------------
// Where a notice stands

/// The place and size of a monitor, in physical pixels.
#[derive(Clone, Copy, PartialEq, Eq, Structural, Debug)]
pub struct MonitorArea {
    pub x: i32,
    pub y: i32,
    pub width: u32,
    pub height: u32,
}

/// The upper left corner of a window of the given size that stands in the
/// lower right corner of a span of `size` pixels from `start`, `offset` pixels
/// away from its end.
pub open spec fn corner(start: int, size: int, extent: int, offset: int) -> int {
    start + size - extent - offset
}

/// The sum behind [`corner`] stays within 32 bits at every step. The size is
/// read as a signed number.
pub open spec fn corner_fits(start: i32, size: u32, extent: i32, offset: i32) -> bool {
    let end = start + (size as i32);
    &&& i32::MIN <= end <= i32::MAX
    &&& i32::MIN <= end - extent <= i32::MAX
    &&& i32::MIN <= end - extent - offset <= i32::MAX
}

fn corner_of(start: i32, size: u32, extent: i32, offset: i32) -> (r: i32)
    requires
        corner_fits(start, size, extent, offset),
    ensures
        r == corner(start as int, (size as i32) as int, extent as int, offset as int),
{
    start + size as i32 - extent - offset
}

/// Tells whether [`calculate_corner_position`] can be asked.
pub fn corner_is_representable(start: i32, size: u32, extent: i32, offset: i32) -> (r: bool)
    ensures
        r == corner_fits(start, size, extent, offset),
{
    let end: i64 = start as i64 + (size as i32) as i64;
    let low: i64 = i32::MIN as i64;
    let high: i64 = i32::MAX as i64;
    low <= end && end <= high && low <= end - extent as i64 && end - extent as i64 <= high && low
        <= end - extent as i64 - offset as i64 && end - extent as i64 - offset as i64 <= high
}

/// Where a window stands in the lower right corner of a monitor. All lengths
/// are physical pixels.
pub fn calculate_corner_position(
    monitor: &MonitorArea,
    width: i32,
    height: i32,
    offset_x: i32,
    offset_y: i32,
) -> (r: (i32, i32))
    requires
        corner_fits(monitor.x, monitor.width, width, offset_x),
        corner_fits(monitor.y, monitor.height, height, offset_y),
    ensures
        r.0 == corner(
            monitor.x as int,
            (monitor.width as i32) as int,
            width as int,
            offset_x as int,
        ),
        r.1 == corner(
            monitor.y as int,
            (monitor.height as i32) as int,
            height as int,
            offset_y as int,
        ),
{
    (
        corner_of(monitor.x, monitor.width, width, offset_x),
        corner_of(monitor.y, monitor.height, height, offset_y),
    )
}

/// A notice: a small window without frame.
#[derive(Clone, Copy, PartialEq, Eq, Structural, Debug)]
pub struct Notice {
    /// Size in logical pixels.
    pub width: u32,
    pub height: u32,
    /// Distance from the lower right corner, in logical pixels.
    pub offset_x: u32,
    pub offset_y: u32,
}

/// The smallest side a notice asks for. Without it Windows widens a small
/// window, which then reaches into the next monitor.
pub const NOTICE_MIN_SIDE: u32 = 16;

/// The notice that a clip was saved.
pub fn clip_notice() -> (r: Notice)
    ensures
        r == (Notice { width: 280, height: 70, offset_x: 20, offset_y: 60 }),
{
    Notice { width: 280, height: 70, offset_x: 20, offset_y: 60 }
}

/// The dot that tells whether Ember is recording.
pub fn status_notice() -> (r: Notice)
    ensures
        r == (Notice { width: 36, height: 36, offset_x: 15, offset_y: 55 }),
{
    Notice { width: 36, height: 36, offset_x: 15, offset_y: 55 }
}

/// A number kept within 32 bits.
pub open spec fn saturated(n: int) -> int {
    if n < i32::MIN {
        i32::MIN as int
    } else if n > i32::MAX {
        i32::MAX as int
    } else {
        n
    }
}

fn saturate(n: i64) -> (r: i32)
    ensures
        r == saturated(n as int),
{
    if n < i32::MIN as i64 {
        i32::MIN
    } else if n > i32::MAX as i64 {
        i32::MAX
    } else {
        n as i32
    }
}

/// Where a notice stands when no monitor is known: in the lower right corner
/// of a screen of this size.
pub fn fallback_position(screen: (u32, u32), notice: &Notice) -> (r: (i32, i32))
    ensures
        r.0 == saturated(
            corner(0, screen.0 as int, notice.width as int, notice.offset_x as int),
        ),
        r.1 == saturated(
            corner(0, screen.1 as int, notice.height as int, notice.offset_y as int),
        ),
{
    (
        saturate(screen.0 as i64 - notice.width as i64 - notice.offset_x as i64),
        saturate(screen.1 as i64 - notice.height as i64 - notice.offset_y as i64),
    )
}

// ---------------------------------------------------------------------------
// What a notice shows

/// The page of the clip notice.
pub fn clip_route(clip_seconds: i64) -> (r: String)
    ensures
        r@ == "toast?time="@ + decimal(clip_seconds as int),
{
    joined("toast?time=", decimal_i64(clip_seconds).as_str())
}

/// A truth value in words.
pub open spec fn truth(b: bool) -> Seq<char> {
    if b {
        "true"@
    } else {
        "false"@
    }
}

fn truth_text(b: bool) -> (r: &'static str)
    ensures
        r@ == truth(b),
{
    if b {
        "true"
    } else {
        "false"
    }
}

/// The page of the status dot.
pub fn status_route(active: bool) -> (r: String)
    ensures
        r@ == "status_toast?active="@ + truth(active),
{
    joined("status_toast?active=", truth_text(active))
}

/// The script that colours a status dot that is already open.
pub fn status_script(active: bool) -> (r: String)
    ensures
        r@ == "window.__setStatus && window.__setStatus("@ + truth(active) + ")"@,
{
    let mut out = joined("window.__setStatus && window.__setStatus(", truth_text(active));
    out.append(")");
    out
}

/// One thing done to show a notice.
#[derive(Clone, Copy, PartialEq, Eq, Structural, Debug)]
pub enum NoticeStep {
    PlaySound,
    /// Tell the open window what to show.
    Tell,
    /// Run the script that sets what the open window shows.
    RunScript,
    /// Move the open window to its corner.
    Move,
    /// Bring the open window up.
    Show,
    /// Open the window.
    Open,
}

/// What shows the clip notice.
pub open spec fn clip_steps(open: bool, monitor_known: bool) -> Seq<NoticeStep> {
    if !open {
        seq![NoticeStep::PlaySound, NoticeStep::Open]
    } else if monitor_known {
        seq![NoticeStep::PlaySound, NoticeStep::Tell, NoticeStep::Move]
    } else {
        seq![NoticeStep::PlaySound, NoticeStep::Tell]
    }
}

/// What shows the status dot.
pub open spec fn status_steps(open: bool) -> Seq<NoticeStep> {
    if open {
        seq![NoticeStep::Tell, NoticeStep::RunScript, NoticeStep::Move, NoticeStep::Show]
    } else {
        seq![NoticeStep::Open]
    }
}

/// What shows the clip notice: a sound, then the open window told and moved,
/// where a monitor is known; a window opened where none is open.
pub fn clip_notice_steps(open: bool, monitor_known: bool) -> (r: Vec<NoticeStep>)
    ensures
        r@ == (if !open {
            seq![NoticeStep::PlaySound, NoticeStep::Open]
        } else if monitor_known {
            seq![NoticeStep::PlaySound, NoticeStep::Tell, NoticeStep::Move]
        } else {
            seq![NoticeStep::PlaySound, NoticeStep::Tell]
        }),
        r@ == clip_steps(open, monitor_known),
{
    let mut steps: Vec<NoticeStep> = Vec::new();
    steps.push(NoticeStep::PlaySound);
    if open {
        steps.push(NoticeStep::Tell);
        if monitor_known {
            steps.push(NoticeStep::Move);
        }
    } else {
        steps.push(NoticeStep::Open);
    }
    steps
}

/// What shows the status dot.
pub fn status_notice_steps(open: bool) -> (r: Vec<NoticeStep>)
    ensures
        r@ == (if open {
            seq![
                NoticeStep::Tell,
                NoticeStep::RunScript,
                NoticeStep::Move,
                NoticeStep::Show,
            ]
        } else {
            seq![NoticeStep::Open]
        }),
        r@ == status_steps(open),
{
    let mut steps: Vec<NoticeStep> = Vec::new();
    if open {
        steps.push(NoticeStep::Tell);
        steps.push(NoticeStep::RunScript);
        steps.push(NoticeStep::Move);
        steps.push(NoticeStep::Show);
    } else {
        steps.push(NoticeStep::Open);
    }
    steps
}

/// The sound of the clip notice: the file beside the program, else the one in
/// the project folder.
pub fn sound_to_play(beside_program: bool, in_project: bool) -> (r: Option<&'static str>)
    ensures
        beside_program ==> r is Some && r->0@ == "notify.wav"@,
        !beside_program && in_project ==> r is Some && r->0@ == "../../../notify.wav"@,
        !beside_program && !in_project ==> r is None,
{
    if beside_program {
        Some("notify.wav")
    } else if in_project {
        Some("../../../notify.wav")
    } else {
        None
    }
}

/// Window style: clicks go through to what is below.
pub const WS_EX_TRANSPARENT: u32 = 0x0000_0020;

/// Window style: the window is drawn in its own layer.
pub const WS_EX_LAYERED: u32 = 0x0008_0000;

/// The style of a notice: its own, with clicks going through.
pub open spec fn click_through(style: i32) -> i32 {
    ((style as u32) | WS_EX_TRANSPARENT | WS_EX_LAYERED) as i32
}

/// Makes clicks go through a notice.
pub fn notice_style(style: i32) -> (r: i32)
    ensures
        r == click_through(style),
{
    ((style as u32) | WS_EX_TRANSPARENT | WS_EX_LAYERED) as i32
}

// ---------------------------------------------------------------------------
// Laws

/// A notice in the corner of a monitor ends exactly its offset before the
/// edges of the monitor, and begins on the monitor where it fits: no part of it
/// reaches into the next one. The sides of a monitor are signed numbers.
pub proof fn a_notice_stays_on_its_monitor(
    monitor: MonitorArea,
    width: i32,
    height: i32,
    offset_x: i32,
    offset_y: i32,
)
    requires
        monitor.width <= i32::MAX,
        monitor.height <= i32::MAX,
    ensures
        ({
            let x = corner(
                monitor.x as int,
                (monitor.width as i32) as int,
                width as int,
                offset_x as int,
            );
            let y = corner(
                monitor.y as int,
                (monitor.height as i32) as int,
                height as int,
                offset_y as int,
            );
            &&& x + width + offset_x == monitor.x + monitor.width
            &&& y + height + offset_y == monitor.y + monitor.height
            &&& width + offset_x <= monitor.width ==> monitor.x <= x
            &&& height + offset_y <= monitor.height ==> monitor.y <= y
        }),
{
}

/// Making clicks go through sets the two style bits, keeps every other bit,
/// and doing it again changes nothing.
pub proof fn click_through_adds_two_bits(style: i32)
    ensures
        (click_through(style) as u32) & WS_EX_TRANSPARENT == WS_EX_TRANSPARENT,
        (click_through(style) as u32) & WS_EX_LAYERED == WS_EX_LAYERED,
        (click_through(style) as u32) & !(WS_EX_TRANSPARENT | WS_EX_LAYERED) == (style as u32)
            & !(WS_EX_TRANSPARENT | WS_EX_LAYERED),
        click_through(click_through(style)) == click_through(style),
{
    let s = click_through(style);
    assert(s == ((style as u32) | 0x20u32 | 0x8_0000u32) as i32);
    assert((s as u32) & 0x20u32 == 0x20u32 && (s as u32) & 0x8_0000u32 == 0x8_0000u32 && (s as u32)
        & !(0x20u32 | 0x8_0000u32) == (style as u32) & !(0x20u32 | 0x8_0000u32) && ((s as u32)
        | 0x20u32 | 0x8_0000u32) as i32 == s) by (bit_vector)
        requires
            s == ((style as u32) | 0x20u32 | 0x8_0000u32) as i32,
    ;
}

/// The captured monitor is one of those at hand.
pub proof fn the_captured_monitor_is_at_hand(
    source_type: Seq<char>,
    source_id: Option<Seq<char>>,
    names: Option<Seq<Option<Seq<char>>>>,
    gdi_name: Option<Seq<char>>,
)
    requires
        names matches Some(n) ==> n.len() <= usize::MAX,
    ensures
        captured_monitor(source_type, source_id, names, gdi_name) matches Some(i) ==> names is Some
            && i < names->0.len(),
{
    if names is Some {
        if gdi_name is Some {
            first_named_is_the_first(names->0, gdi_name->0);
        }
        if source_id is Some {
            first_named_is_the_first(names->0, source_id->0);
        }
    }
}

/// What [`first_named`] finds has the name, and nothing before it has.
pub proof fn first_named_is_the_first(names: Seq<Option<Seq<char>>>, name: Seq<char>)
    requires
        names.len() <= usize::MAX,
    ensures
        first_named(names, name) matches Some(i) ==> i < names.len() && names[i as int] == Some(name)
            && forall|k: int| 0 <= k < i ==> names[k] != Some(name),
        first_named(names, name) is None ==> forall|k: int|
            0 <= k < names.len() ==> names[k] != Some(name),
    decreases names.len(),
{
    if names.len() > 0 {
        first_named_is_the_first(names.drop_last(), name);
        assert forall|k: int| 0 <= k < names.len() - 1 implies names[k] == names.drop_last()[k] by {}
    }
}

/// The captured monitor is the one that the adapter's name names, wherever it
/// names one at hand; failing that, the one at the place that the choice writes;
/// and where the choice writes no place, the one that it names. Windows, games
/// and a choice not made have none.
pub proof fn the_captured_monitor_is_the_chosen_one(
    source_id: Seq<char>,
    names: Seq<Option<Seq<char>>>,
    gdi: Option<Seq<char>>,
    source_type: Seq<char>,
    place: usize,
)
    requires
        names.len() <= usize::MAX,
    ensures
        gdi matches Some(g) && first_named(names, g) is Some ==> captured_monitor(
            "screen"@,
            Some(source_id),
            Some(names),
            gdi,
        ) == first_named(names, gdi->0),
        source_id == decimal(place as int) && (gdi is None || first_named(names, gdi->0) is None)
            ==> captured_monitor("screen"@, Some(source_id), Some(names), gdi) == (if place
            < names.len() {
            Some(place)
        } else {
            None
        }),
        parsed_usize(source_id) is None && (gdi is None || first_named(names, gdi->0) is None)
            ==> captured_monitor("screen"@, Some(source_id), Some(names), gdi) == first_named(
            names,
            source_id,
        ),
        source_type != "screen"@ ==> captured_monitor(source_type, Some(source_id), Some(names), gdi)
            is None,
        captured_monitor(source_type, None, Some(names), gdi) is None,
        captured_monitor(source_type, Some(source_id), None, gdi) is None,
{
    crate::text::decimal_reads_back(place);
}

/// An adapter drives the monitor whose device path it lists, in any case of
/// letters, and no other; one without a monitor drives none.
pub proof fn an_adapter_drives_the_monitor_it_lists(
    adapter: DisplayAdapter,
    path: Seq<char>,
    other: Seq<char>,
)
    requires
        adapter.monitor_id matches Some(id) ==> id@ == utf16(path).push(0),
        forall|i: int| 0 <= i < path.len() ==> path[i] != '\0',
    ensures
        adapter.monitor_id is Some ==> drives(adapter, path),
        adapter.monitor_id is Some ==> (drives(adapter, other) <==> same_but_case(path, other)),
        adapter.monitor_id is None ==> !drives(adapter, path),
{
    crate::text::wide_reads_back(path);
}

/// Where one of the first sixteen adapters drives the monitor there is a first one
/// that does, and only one is the first.
pub proof fn one_adapter_is_the_first(adapters: Seq<DisplayAdapter>, path: Seq<char>, i: int, j: int)
    ensures
        first_driver(adapters, path, i) && first_driver(adapters, path, j) ==> i == j,
        first_driver(adapters, path, i) ==> 0 <= i < adapters.len() && i < 16 && drives(
            adapters[i],
            path,
        ),
        0 <= j < adapters.len() && j < 16 && drives(adapters[j], path) ==> exists|k: int|
            k <= j && #[trigger] first_driver(adapters, path, k),
    decreases j,
{
    if first_driver(adapters, path, i) && first_driver(adapters, path, j) {
        assert(drives(adapters[i], path) && drives(adapters[j], path));
    }
    if 0 <= j < adapters.len() && j < 16 && drives(adapters[j], path) {
        if !first_driver(adapters, path, j) {
            let k = choose|k: int| 0 <= k < j && drives(#[trigger] adapters[k], path);
            one_adapter_is_the_first(adapters, path, i, k);
        }
    }
}

/// A number within 32 bits is kept, and one outside goes to the nearer end.
pub proof fn numbers_stay_within_32_bits(n: int)
    ensures
        -0x8000_0000 <= saturated(n) <= 0x7FFF_FFFF,
        -0x8000_0000 <= n <= 0x7FFF_FFFF ==> saturated(n) == n,
        n > 0x7FFF_FFFF ==> saturated(n) == 0x7FFF_FFFF,
        n < -0x8000_0000 ==> saturated(n) == -0x8000_0000,
{
}

/// On a screen that starts at the origin a notice without a known monitor stands
/// where it would on that monitor.
pub proof fn a_notice_without_a_monitor_stands_in_the_same_corner(
    width: u32,
    extent: u32,
    offset: u32,
)
    requires
        width <= i32::MAX,
        extent + offset <= width,
    ensures
        saturated(corner(0, width as int, extent as int, offset as int)) + extent + offset == width,
        0 <= saturated(corner(0, width as int, extent as int, offset as int)),
{
}

/// A corner can be told in 32 bits on every monitor whose far edge can, for a
/// notice that fits on it.
pub proof fn ordinary_corners_fit(start: i32, size: u32, extent: i32, offset: i32)
    requires
        size <= i32::MAX,
        start + size <= i32::MAX,
        0 <= extent,
        0 <= offset,
        extent + offset <= size,
    ensures
        corner_fits(start, size, extent, offset),
{
}

/// Recording and not recording are told apart in words.
pub proof fn truth_is_told_in_words(b: bool)
    ensures
        truth(b) == "true"@ <==> b,
        truth(b) == "false"@ <==> !b,
{
    reveal_strlit("true");
    reveal_strlit("false");
    assert("true"@.len() == 4 && "false"@.len() == 5);
}

/// The names of monitors are looked up in the order that the monitors have.
pub proof fn monitor_names_are_in_order(names: Seq<Option<String>>, i: int)
    ensures
        monitor_names(names).len() == names.len(),
        0 <= i < names.len() ==> monitor_names(names)[i] == text_of(names[i]),
        0 <= i < names.len() && names[i] is Some ==> monitor_names(names)[i] == Some(names[i]->0@),
{
}

/// A notice goes to the captured monitor wherever there is one, whatever else is
/// known; else to that of the main window, else to the primary one.
pub proof fn a_notice_goes_to_the_captured_monitor(i: usize, window_known: bool, primary_known: bool)
    ensures
        target_of(Some(i), window_known, primary_known) == MonitorTarget::Captured(i),
        target_of(None, true, primary_known) is Window,
        target_of(None, false, true) is Primary,
        target_of(None, false, false) is Unknown,
{
}

/// A clip is always heard of first. A window that is open is told and not opened
/// again, and is moved only where a monitor is known; one that is not is opened.
pub proof fn a_notice_is_opened_once(open: bool, monitor_known: bool)
    ensures
        clip_steps(open, monitor_known)[0] is PlaySound,
        clip_steps(open, monitor_known).contains(NoticeStep::Open) <==> !open,
        clip_steps(open, monitor_known).contains(NoticeStep::Tell) <==> open,
        clip_steps(open, monitor_known).contains(NoticeStep::Move) <==> open && monitor_known,
        status_steps(open).contains(NoticeStep::Open) <==> !open,
        status_steps(open).contains(NoticeStep::Tell) <==> open,
        status_steps(open).contains(NoticeStep::RunScript) <==> open,
        status_steps(open).contains(NoticeStep::Move) <==> open,
        open ==> status_steps(open).last() is Show,
        !status_steps(open).contains(NoticeStep::PlaySound),
{
    assert(clip_steps(false, monitor_known)[1] is Open);
    assert(clip_steps(true, monitor_known)[1] is Tell);
    assert(clip_steps(true, true)[2] is Move);
    assert(status_steps(false)[0] is Open);
    assert(status_steps(true)[0] is Tell);
    assert(status_steps(true)[1] is RunScript);
    assert(status_steps(true)[2] is Move);
}

} // verus!
