//! The live preview: what the mouse does in it, and what is drawn over it.
//!
//! The picture is fitted into the preview window, can be zoomed and panned,
//! and its overlays can be selected, moved and resized with the mouse. The
//! state below is plain data: the thread that draws reads it and nothing else.

use crate::single::{Single, ONE, TEN, TENTH, TWENTY, ZERO};
use crate::text::{joined, same_text, utf16, wide};
use vstd::prelude::*;

verus! {

/// Zoom, pan and grid of the preview.
#[derive(Debug)]
pub struct PreviewParams {
    pub zoom: Single,
    pub pan_x: Single,
    pub pan_y: Single,
    /// "none" or empty, "thirds", "grid10" or "grid20".
    pub grid: String,
}

/// What [`PreviewParams`] hold.
#[verifier::ext_equal]
pub struct ParamsView {
    pub zoom: Single,
    pub pan_x: Single,
    pub pan_y: Single,
    pub grid: Seq<char>,
}

impl View for PreviewParams {
    type V = ParamsView;

    open spec fn view(&self) -> ParamsView {
        ParamsView { zoom: self.zoom, pan_x: self.pan_x, pan_y: self.pan_y, grid: self.grid@ }
    }
}

impl Clone for PreviewParams {
    fn clone(&self) -> (r: Self)
        ensures
            r == *self,
    {
        PreviewParams {
            zoom: self.zoom,
            pan_x: self.pan_x,
            pan_y: self.pan_y,
            grid: self.grid.clone(),
        }
    }
}

/// The corner of an overlay that is being dragged.
#[derive(Clone, Copy, PartialEq, Eq, Structural, Debug)]
pub enum ResizeCorner {
    TopLeft,
    TopRight,
    BottomLeft,
    BottomRight,
}

/// A rectangle of the canvas.
#[derive(Clone, Copy, PartialEq, Eq, Structural, Debug)]
pub struct CanvasRect {
    pub x: Single,
    pub y: Single,
    pub w: Single,
    pub h: Single,
}

/// A place on the canvas.
#[derive(Clone, Copy, PartialEq, Eq, Structural, Debug)]
pub struct CanvasPoint {
    pub x: Single,
    pub y: Single,
}

/// What dragging the mouse does.
#[derive(Clone, Copy, PartialEq, Eq, Structural, Debug)]
pub enum DragAction {
    /// Nothing has been grabbed.
    Idle,
    /// The view moves.
    Pan,
    /// The overlay at this place moves.
    MoveOverlay(usize),
    /// The overlay at `index` is resized by one of its corners.
    ResizeOverlay {
        index: usize,
        corner: ResizeCorner,
        aspect_ratio: Single,
        initial_x: Single,
        initial_y: Single,
        initial_scale_x: Single,
        initial_scale_y: Single,
        initial_w: Single,
        initial_h: Single,
        click_canvas_x: Single,
        click_canvas_y: Single,
    },
}

/// The state of the preview.
#[derive(Debug)]
pub struct PreviewModel {
    pub params: PreviewParams,
    /// Where the mouse was last seen with a button down.
    pub last_mouse: Option<(i32, i32)>,
    /// The selected overlay.
    pub selected: Option<usize>,
    pub drag: DragAction,
    /// The size of the canvas.
    pub canvas: (u32, u32),
    /// The rectangle of the selected overlay.
    pub selection_rect: Option<CanvasRect>,
}

/// What a [`PreviewModel`] holds.
#[verifier::ext_equal]
pub struct PreviewView {
    pub params: ParamsView,
    pub last_mouse: Option<(i32, i32)>,
    pub selected: Option<usize>,
    pub drag: DragAction,
    pub canvas: (u32, u32),
    pub selection_rect: Option<CanvasRect>,
}

impl View for PreviewModel {
    type V = PreviewView;

    open spec fn view(&self) -> PreviewView {
        PreviewView {
            params: self.params@,
            last_mouse: self.last_mouse,
            selected: self.selected,
            drag: self.drag,
            canvas: self.canvas,
            selection_rect: self.selection_rect,
        }
    }
}

/// A coordinate that a mouse message can carry.
pub open spec fn is_mouse_coordinate(n: i32) -> bool {
    -0x8000 <= n <= 0x7FFF
}

impl PreviewView {
    /// The mouse was last seen where a message can say, an overlay is dragged
    /// only while it is the selected one, and there is no rectangle without a
    /// selection.
    pub open spec fn wf(self) -> bool {
        &&& self.selection_rect is Some ==> self.selected is Some
        &&& self.last_mouse matches Some(p) ==> is_mouse_coordinate(p.0) && is_mouse_coordinate(p.1)
        &&& match self.drag {
            DragAction::Idle => true,
            DragAction::Pan => true,
            DragAction::MoveOverlay(i) => self.selected == Some(i),
            DragAction::ResizeOverlay { index, .. } => self.selected == Some(index),
        }
    }

    /// The zoom is between a tenth and twenty.
    pub open spec fn zoom_in_range(self) -> bool {
        (Single { bits: TENTH }).le_spec(self.params.zoom) && self.params.zoom.le_spec(
            Single { bits: TWENTY },
        )
    }
}

/// The preview of a fresh start.
pub open spec fn fresh_preview() -> PreviewView {
    PreviewView {
        params: ParamsView {
            zoom: Single { bits: ONE },
            pan_x: Single { bits: ZERO },
            pan_y: Single { bits: ZERO },
            grid: seq![],
        },
        last_mouse: None,
        selected: None,
        drag: DragAction::Idle,
        canvas: (1920, 1080),
        selection_rect: None,
    }
}

impl PreviewModel {
    /// Not zoomed, nothing selected, a canvas of 1920 by 1080.
    pub fn new() -> (r: Self)
        ensures
            r@ == fresh_preview(),
            r@.wf(),
            r@.zoom_in_range(),
    {
        proof {
            crate::single::lemma_zoom_bounds();
        }
        PreviewModel {
            params: PreviewParams {
                zoom: Single { bits: ONE },
                pan_x: Single { bits: ZERO },
                pan_y: Single { bits: ZERO },
                grid: String::new(),
            },
            last_mouse: None,
            selected: None,
            drag: DragAction::Idle,
            canvas: (1920, 1080),
            selection_rect: None,
        }
    }
}

// ---------------------------------------------------------------------------
// Selection, canvas, view

/// Keeps the rectangle of the selected overlay. `rect` is the rectangle found
/// for it; without a selection there is none.
pub fn refresh_selection_rect(model: &mut PreviewModel, rect: Option<CanvasRect>)
    ensures
        final(model)@ == (PreviewView {
            selection_rect: if old(model)@.selected is Some {
                rect
            } else {
                None
            },
            ..old(model)@
        }),
        old(model)@.wf() ==> final(model)@.wf(),
{
    model.selection_rect =
    if model.selected.is_some() {
        rect
    } else {
        None
    };
}

/// The preview with nothing selected and nothing dragged.
pub open spec fn deselected(v: PreviewView) -> PreviewView {
    PreviewView { selected: None, drag: DragAction::Idle, selection_rect: None, ..v }
}

/// Lets go of the selection, when an overlay is removed or moved in the list
/// and its place is no longer its own.
pub fn clear_selection(model: &mut PreviewModel)
    ensures
        final(model)@ == deselected(old(model)@),
        old(model)@.wf() ==> final(model)@.wf(),
{
    model.selected = None;
    model.drag = DragAction::Idle;
    model.selection_rect = None;
}

/// Keeps the size of the canvas.
pub fn set_canvas_size(model: &mut PreviewModel, w: u32, h: u32)
    ensures
        final(model)@ == (PreviewView { canvas: (w, h), ..old(model)@ }),
        old(model)@.wf() ==> final(model)@.wf(),
{
    model.canvas = (w, h);
}

/// The size of the canvas.
pub fn canvas_size(model: &PreviewModel) -> (r: (u32, u32))
    ensures
        r == model@.canvas,
{
    model.canvas
}

/// What the window is told about the view.
pub fn emit_preview_params_change(model: &PreviewModel) -> (r: PreviewParams)
    ensures
        r@ == model@.params,
{
    model.params.clone()
}

/// The preview with another grid.
pub open spec fn gridded(v: PreviewView, grid: Seq<char>) -> PreviewView {
    PreviewView { params: ParamsView { grid, ..v.params }, ..v }
}

/// The preview showing the whole canvas.
pub open spec fn shown_whole(v: PreviewView) -> PreviewView {
    PreviewView {
        params: ParamsView {
            zoom: Single { bits: ONE },
            pan_x: Single { bits: ZERO },
            pan_y: Single { bits: ZERO },
            ..v.params
        },
        ..v
    }
}

/// The preview at another zoom, kept in its range.
pub open spec fn zoomed(v: PreviewView, zoom: Single) -> PreviewView {
    PreviewView {
        params: ParamsView {
            zoom: zoom.clamp_spec(Single { bits: TENTH }, Single { bits: TWENTY }),
            ..v.params
        },
        ..v
    }
}

/// The preview moved.
pub open spec fn panned(v: PreviewView, pan_x: Single, pan_y: Single) -> PreviewView {
    PreviewView { params: ParamsView { pan_x, pan_y, ..v.params }, ..v }
}

/// Chooses the grid; returns what the window is told.
pub fn set_grid(model: &mut PreviewModel, grid: String) -> (r: PreviewParams)
    ensures
        final(model)@ == (PreviewView {
            params: ParamsView { grid: grid@, ..old(model)@.params },
            ..old(model)@
        }),
        final(model)@ == gridded(old(model)@, grid@),
        r@ == final(model)@.params,
        old(model)@.wf() ==> final(model)@.wf(),
{
    model.params.grid = grid;
    emit_preview_params_change(model)
}

/// Shows the whole canvas again; returns what the window is told.
pub fn reset_zoom(model: &mut PreviewModel) -> (r: PreviewParams)
    ensures
        final(model)@ == (PreviewView {
            params: ParamsView {
                zoom: Single { bits: ONE },
                pan_x: Single { bits: ZERO },
                pan_y: Single { bits: ZERO },
                ..old(model)@.params
            },
            ..old(model)@
        }),
        final(model)@ == shown_whole(old(model)@),
        final(model)@.zoom_in_range(),
        r@ == final(model)@.params,
        old(model)@.wf() ==> final(model)@.wf(),
{
    proof {
        crate::single::lemma_zoom_bounds();
    }
    model.params.zoom = Single { bits: ONE };
    model.params.pan_x = Single { bits: ZERO };
    model.params.pan_y = Single { bits: ZERO };
    emit_preview_params_change(model)
}

/// Takes the zoom that turning the wheel asks for, and keeps it between a
/// tenth and twenty; returns what the window is told.
pub fn zoom_to(model: &mut PreviewModel, zoom: Single) -> (r: PreviewParams)
    ensures
        final(model)@ == (PreviewView {
            params: ParamsView {
                zoom: zoom.clamp_spec(Single { bits: TENTH }, Single { bits: TWENTY }),
                ..old(model)@.params
            },
            ..old(model)@
        }),
        final(model)@ == zoomed(old(model)@, zoom),
        !zoom.is_nan_spec() ==> final(model)@.zoom_in_range(),
        r@ == final(model)@.params,
        old(model)@.wf() ==> final(model)@.wf(),
{
    proof {
        crate::single::lemma_zoom_bounds();
        crate::single::clamp_lands_between(zoom, Single { bits: TENTH }, Single { bits: TWENTY });
    }
    model.params.zoom = zoom.clamp(Single { bits: TENTH }, Single { bits: TWENTY });
    emit_preview_params_change(model)
}

/// Moves the view; returns what the window is told.
pub fn pan_to(model: &mut PreviewModel, pan_x: Single, pan_y: Single) -> (r: PreviewParams)
    ensures
        final(model)@ == (PreviewView {
            params: ParamsView { pan_x, pan_y, ..old(model)@.params },
            ..old(model)@
        }),
        final(model)@ == panned(old(model)@, pan_x, pan_y),
        r@ == final(model)@.params,
        old(model)@.wf() ==> final(model)@.wf(),
{
    model.params.pan_x = pan_x;
    model.params.pan_y = pan_y;
    emit_preview_params_change(model)
}

// ---------------------------------------------------------------------------
// Mouse messages

/// Sixteen bits read as a signed number.
pub open spec fn signed16(u: nat) -> int {
    if u >= 0x8000 {
        u - 0x1_0000
    } else {
        u as int
    }
}

/// The place that a mouse message carries: across in the low sixteen bits,
/// down in the next.
pub open spec fn message_point(lparam: isize) -> (int, int) {
    let word = lparam as usize;
    (signed16((word % 0x1_0000) as nat), signed16((word / 0x1_0000 % 0x1_0000) as nat))
}

/// Reads the place that a mouse message carries.
pub fn mouse_point(lparam: isize) -> (r: (i32, i32))
    ensures
        (r.0 as int, r.1 as int) == message_point(lparam),
        is_mouse_coordinate(r.0),
        is_mouse_coordinate(r.1),
{
    let word: usize = lparam as usize;
    let low: usize = word % 0x1_0000;
    let high: usize = word / 0x1_0000 % 0x1_0000;
    (sign_extend(low as u16), sign_extend(high as u16))
}

fn sign_extend(u: u16) -> (r: i32)
    ensures
        r == signed16(u as nat),
        is_mouse_coordinate(r),
{
    if u >= 0x8000 {
        u as i32 - 0x1_0000
    } else {
        u as i32
    }
}

/// Key flag of a mouse message: the left button is down.
pub const MK_LBUTTON: usize = 0x0001;

/// Key flag of a mouse message: Shift is down.
pub const MK_SHIFT: usize = 0x0004;

/// Key flag of a mouse message: the middle button is down.
pub const MK_MBUTTON: usize = 0x0010;

/// The message has the flag.
pub open spec fn has_flag(wparam: usize, flag: usize) -> bool {
    wparam & flag != 0
}

/// The turn that a wheel message carries: the number in bits 16 to 31, with its
/// sign.
pub open spec fn wheel_turn(wparam: usize) -> int {
    signed16((wparam / 0x1_0000 % 0x1_0000) as nat)
}

/// Tells whether a wheel message turns the wheel away from the user, which
/// zooms in: the number in bits 16 to 31, with its sign, is above zero.
pub fn wheel_zooms_in(wparam: usize) -> (r: bool)
    ensures
        r == (signed16((wparam / 0x1_0000 % 0x1_0000) as nat) > 0),
        r == (wheel_turn(wparam) > 0),
{
    let high: usize = wparam / 0x1_0000 % 0x1_0000;
    sign_extend(high as u16) > 0
}

/// A grabbed corner of the selected overlay.
#[derive(Clone, Copy, PartialEq, Eq, Structural, Debug)]
pub struct CornerGrab {
    pub corner: ResizeCorner,
    /// Width by height of what the overlay shows.
    pub aspect_ratio: Single,
    /// Where the overlay is.
    pub rect: CanvasRect,
    pub scale_x: Single,
    pub scale_y: Single,
}

/// What lies under the mouse as the left button goes down.
#[derive(Clone, Copy, PartialEq, Eq, Structural, Debug)]
pub struct PressProbe {
    /// The place on the canvas; `None` outside of the picture.
    pub point: Option<CanvasPoint>,
    /// The corner of the selected overlay that is there.
    pub corner: Option<CornerGrab>,
    /// The overlay that is there.
    pub overlay: Option<usize>,
}

/// The selection and the drag that a press begins: a corner of the selected
/// overlay resizes it; else an overlay is selected and moves; else the view
/// moves and nothing is selected.
pub open spec fn press_outcome(selected: Option<usize>, probe: PressProbe) -> (
    Option<usize>,
    DragAction,
) {
    match (probe.point, selected, probe.corner, probe.overlay) {
        (None, _, _, _) => (None, DragAction::Pan),
        (Some(p), Some(index), Some(g), _) => (
            selected,
            DragAction::ResizeOverlay {
                index,
                corner: g.corner,
                aspect_ratio: g.aspect_ratio,
                initial_x: g.rect.x,
                initial_y: g.rect.y,
                initial_scale_x: g.scale_x,
                initial_scale_y: g.scale_y,
                initial_w: g.rect.w,
                initial_h: g.rect.h,
                click_canvas_x: p.x,
                click_canvas_y: p.y,
            },
        ),
        (Some(_), _, _, Some(index)) => (Some(index), DragAction::MoveOverlay(index)),
        (Some(_), _, _, None) => (None, DragAction::Pan),
    }
}

/// The preview after the left button has gone down.
pub open spec fn pressed(v: PreviewView, lparam: isize, probe: PressProbe) -> PreviewView {
    let p = message_point(lparam);
    let outcome = press_outcome(v.selected, probe);
    PreviewView {
        last_mouse: Some((p.0 as i32, p.1 as i32)),
        selected: outcome.0,
        drag: outcome.1,
        selection_rect: if outcome.0 is None {
            None
        } else {
            v.selection_rect
        },
        ..v
    }
}

/// The left button goes down.
pub fn press_left(model: &mut PreviewModel, lparam: isize, probe: &PressProbe)
    ensures
        ({
            let outcome = press_outcome(old(model)@.selected, *probe);
            let p = message_point(lparam);
            final(model)@ == (PreviewView {
                last_mouse: Some((p.0 as i32, p.1 as i32)),
                selected: outcome.0,
                drag: outcome.1,
                selection_rect: if outcome.0 is None {
                    None
                } else {
                    old(model)@.selection_rect
                },
                ..old(model)@
            })
        }),
        final(model)@ == pressed(old(model)@, lparam, *probe),
        final(model)@.wf(),
{
    model.last_mouse = Some(mouse_point(lparam));
    match probe.point {
        None => {
            model.selected = None;
            model.selection_rect = None;
            model.drag = DragAction::Pan;
        },
        Some(p) => {
            match (model.selected, probe.corner) {
                (Some(index), Some(g)) => {
                    model.drag =
                    DragAction::ResizeOverlay {
                        index,
                        corner: g.corner,
                        aspect_ratio: g.aspect_ratio,
                        initial_x: g.rect.x,
                        initial_y: g.rect.y,
                        initial_scale_x: g.scale_x,
                        initial_scale_y: g.scale_y,
                        initial_w: g.rect.w,
                        initial_h: g.rect.h,
                        click_canvas_x: p.x,
                        click_canvas_y: p.y,
                    };
                },
                _ => {
                    match probe.overlay {
                        Some(index) => {
                            model.selected = Some(index);
                            model.drag = DragAction::MoveOverlay(index);
                        },
                        None => {
                            model.selected = None;
                            model.selection_rect = None;
                            model.drag = DragAction::Pan;
                        },
                    }
                },
            }
        },
    }
}

/// The preview after the middle button has gone down.
pub open spec fn pressed_middle(v: PreviewView, lparam: isize) -> PreviewView {
    let p = message_point(lparam);
    PreviewView {
        last_mouse: Some((p.0 as i32, p.1 as i32)),
        selected: None,
        drag: DragAction::Pan,
        selection_rect: None,
        ..v
    }
}

/// The preview after a button has gone up.
pub open spec fn released(v: PreviewView) -> PreviewView {
    PreviewView { last_mouse: None, drag: DragAction::Idle, ..v }
}

/// The preview after the mouse has moved.
pub open spec fn after_move(v: PreviewView, wparam: usize, lparam: isize) -> PreviewView {
    let p = message_point(lparam);
    PreviewView {
        last_mouse: if has_flag(wparam, MK_LBUTTON) || has_flag(wparam, MK_MBUTTON) {
            Some((p.0 as i32, p.1 as i32))
        } else {
            None
        },
        ..v
    }
}

/// The middle button goes down: the view moves.
pub fn press_middle(model: &mut PreviewModel, lparam: isize)
    ensures
        ({
            let p = message_point(lparam);
            final(model)@ == (PreviewView {
                last_mouse: Some((p.0 as i32, p.1 as i32)),
                selected: None,
                drag: DragAction::Pan,
                selection_rect: None,
                ..old(model)@
            })
        }),
        final(model)@ == pressed_middle(old(model)@, lparam),
        final(model)@.wf(),
{
    model.last_mouse = Some(mouse_point(lparam));
    model.selected = None;
    model.selection_rect = None;
    model.drag = DragAction::Pan;
}

/// The drag changes an overlay.
pub open spec fn drags_overlay(drag: DragAction) -> bool {
    drag is MoveOverlay || drag is ResizeOverlay
}

/// The left button goes up. Returns whether an overlay was dragged, and so its
/// new place has to be kept.
pub fn release_left(model: &mut PreviewModel) -> (r: bool)
    ensures
        final(model)@ == (PreviewView { last_mouse: None, drag: DragAction::Idle, ..old(model)@ }),
        final(model)@ == released(old(model)@),
        r == drags_overlay(old(model)@.drag),
        old(model)@.wf() ==> final(model)@.wf(),
{
    model.last_mouse = None;
    let dragged = match model.drag {
        DragAction::MoveOverlay(_) => true,
        DragAction::ResizeOverlay { .. } => true,
        _ => false,
    };
    model.drag = DragAction::Idle;
    dragged
}

/// The middle button goes up.
pub fn release_middle(model: &mut PreviewModel)
    ensures
        final(model)@ == (PreviewView { last_mouse: None, drag: DragAction::Idle, ..old(model)@ }),
        final(model)@ == released(old(model)@),
        old(model)@.wf() ==> final(model)@.wf(),
{
    model.last_mouse = None;
    model.drag = DragAction::Idle;
}

/// What a move of the mouse asks for.
#[derive(Clone, Copy, PartialEq, Eq, Structural, Debug)]
pub struct MouseStep {
    /// Panning, moving or resizing.
    pub action: DragAction,
    /// How far the mouse has moved since it was last seen.
    pub dx: i32,
    pub dy: i32,
    /// Where it is.
    pub x: i32,
    pub y: i32,
    /// Shift is down: a resize need not keep the proportions.
    pub free: bool,
}

/// What a drag does while the mouse moves: the middle button always moves the
/// view, and so does a drag that grabbed nothing.
pub open spec fn effective_drag(drag: DragAction, middle_down: bool) -> DragAction {
    if !middle_down && drags_overlay(drag) {
        drag
    } else {
        DragAction::Pan
    }
}

/// What a move of the mouse asks for: nothing unless a button is down, the
/// mouse was seen before, and it has moved since.
pub open spec fn move_outcome(v: PreviewView, wparam: usize, lparam: isize) -> Option<MouseStep> {
    let p = message_point(lparam);
    match v.last_mouse {
        Some(last) => if (has_flag(wparam, MK_LBUTTON) || has_flag(wparam, MK_MBUTTON)) && (p.0
            != last.0 || p.1 != last.1) {
            Some(
                MouseStep {
                    action: effective_drag(v.drag, has_flag(wparam, MK_MBUTTON)),
                    dx: (p.0 - last.0) as i32,
                    dy: (p.1 - last.1) as i32,
                    x: p.0 as i32,
                    y: p.1 as i32,
                    free: has_flag(wparam, MK_SHIFT),
                },
            )
        } else {
            None
        },
        None => None,
    }
}

/// The mouse moves.
pub fn mouse_move(model: &mut PreviewModel, wparam: usize, lparam: isize) -> (r: Option<MouseStep>)
    requires
        old(model)@.wf(),
    ensures
        r == move_outcome(old(model)@, wparam, lparam),
        final(model)@ == after_move(old(model)@, wparam, lparam),
        ({
            let p = message_point(lparam);
            final(model)@ == (PreviewView {
                last_mouse: if has_flag(wparam, MK_LBUTTON) || has_flag(wparam, MK_MBUTTON) {
                    Some((p.0 as i32, p.1 as i32))
                } else {
                    None
                },
                ..old(model)@
            })
        }),
        final(model)@.wf(),
{
    let left_down = wparam & MK_LBUTTON != 0;
    let middle_down = wparam & MK_MBUTTON != 0;
    let shift_down = wparam & MK_SHIFT != 0;
    let (x, y) = mouse_point(lparam);
    if !(left_down || middle_down) {
        model.last_mouse = None;
        return None;
    }
    let step = match model.last_mouse {
        Some((last_x, last_y)) => {
            let dx: i32 = x - last_x;
            let dy: i32 = y - last_y;
            if dx != 0 || dy != 0 {
                let action = if middle_down {
                    DragAction::Pan
                } else {
                    match model.drag {
                        DragAction::Idle => DragAction::Pan,
                        other => other,
                    }
                };
                Some(MouseStep { action, dx, dy, x, y, free: shift_down })
            } else {
                None
            }
        },
        None => None,
    };
    model.last_mouse = Some((x, y));
    step
}

// ---------------------------------------------------------------------------
// The picture in its window

/// Half of a number, rounded towards zero.
pub open spec fn half(n: int) -> int {
    if n >= 0 {
        n / 2
    } else {
        -((-n) / 2)
    }
}

/// Canvas and window both have a size.
pub open spec fn has_picture(canvas: (u32, u32), cx: int, cy: int) -> bool {
    canvas.0 != 0 && canvas.1 != 0 && cx != 0 && cy != 0
}

/// Tells whether there is a picture to fit into a window.
pub fn picture_exists(canvas: (u32, u32), cx: i32, cy: i32) -> (r: bool)
    ensures
        r == has_picture(canvas, cx as int, cy as int),
{
    canvas.0 != 0 && canvas.1 != 0 && cx != 0 && cy != 0
}

/// How far into the picture a place of the window lies, along one axis.
pub open spec fn into_picture(click: int, size: int, fitted: int) -> int {
    click - half(size - fitted)
}

/// The place of the window lies on the picture.
pub open spec fn on_picture(click: (i32, i32), size: (i32, i32), fitted: (i32, i32)) -> bool {
    &&& 0 <= into_picture(click.0 as int, size.0 as int, fitted.0 as int) < fitted.0
    &&& 0 <= into_picture(click.1 as int, size.1 as int, fitted.1 as int) < fitted.1
}

/// The pixel of the fitted picture under a place of the window. The picture,
/// `fitted` pixels large, stands in the middle of a window of `cx` by `cy`
/// pixels; a place beside it has none.
pub fn client_to_canvas(
    canvas: (u32, u32),
    click_x: i32,
    click_y: i32,
    cx: i32,
    cy: i32,
    fitted: (i32, i32),
) -> (r: Option<(i32, i32)>)
    ensures
        r is Some <==> has_picture(canvas, cx as int, cy as int) && on_picture(
            (click_x, click_y),
            (cx, cy),
            fitted,
        ),
        r matches Some(p) ==> p.0 == into_picture(click_x as int, cx as int, fitted.0 as int) && p.1
            == into_picture(click_y as int, cy as int, fitted.1 as int),
{
    if !picture_exists(canvas, cx, cy) {
        return None;
    }
    let off_x: i64 = (cx as i64 - fitted.0 as i64) / 2;
    let off_y: i64 = (cy as i64 - fitted.1 as i64) / 2;
    let px: i64 = click_x as i64 - off_x;
    let py: i64 = click_y as i64 - off_y;
    if px >= 0 && px < fitted.0 as i64 && py >= 0 && py < fitted.1 as i64 {
        Some((px as i32, py as i32))
    } else {
        None
    }
}

/// The part of the window that the picture is drawn on.
#[derive(Clone, Copy, PartialEq, Eq, Structural, Debug)]
pub struct Viewport {
    pub x: i32,
    pub y: i32,
    pub width: i32,
    pub height: i32,
}

/// At least one.
pub open spec fn at_least_one(n: i32) -> i32 {
    if n < 1 {
        1
    } else {
        n
    }
}

fn max_one(n: i32) -> (r: i32)
    ensures
        r == at_least_one(n),
{
    if n < 1 {
        1
    } else {
        n
    }
}

/// The middle of a side of the window can be told in 32 bits. Every side up to
/// the largest signed number has one; a longer one is read as negative.
pub open spec fn has_middle(side: u32, fitted: i32) -> bool {
    (side as i32) - at_least_one(fitted) >= i32::MIN
}

/// There is no picture, or it has a middle to stand in.
pub open spec fn viewport_defined(canvas: (u32, u32), cx: u32, cy: u32, fitted: (i32, i32)) -> bool {
    has_picture(canvas, cx as int, cy as int) ==> has_middle(cx, fitted.0) && has_middle(
        cy,
        fitted.1,
    )
}

/// Tells whether [`viewport`] can be asked.
pub fn viewport_is_defined(canvas: (u32, u32), cx: u32, cy: u32, fitted: (i32, i32)) -> (r: bool)
    ensures
        r == viewport_defined(canvas, cx, cy, fitted),
{
    if canvas.0 == 0 || canvas.1 == 0 || cx == 0 || cy == 0 {
        return true;
    }
    let low: i64 = i32::MIN as i64;
    (cx as i32) as i64 - max_one(fitted.0) as i64 >= low && (cy as i32) as i64 - max_one(fitted.1)
        as i64 >= low
}

/// Where the picture is drawn: in the middle of the window, at least one pixel
/// large; nowhere where canvas or window have no size.
pub fn viewport(canvas: (u32, u32), cx: u32, cy: u32, fitted: (i32, i32)) -> (r: Option<Viewport>)
    requires
        viewport_defined(canvas, cx, cy, fitted),
    ensures
        r is Some <==> has_picture(canvas, cx as int, cy as int),
        r matches Some(v) ==> {
            &&& v.width == at_least_one(fitted.0)
            &&& v.height == at_least_one(fitted.1)
            &&& v.x == half((cx as i32) - v.width)
            &&& v.y == half((cy as i32) - v.height)
        },
{
    if canvas.0 == 0 || canvas.1 == 0 || cx == 0 || cy == 0 {
        return None;
    }
    let width: i32 = max_one(fitted.0);
    let height: i32 = max_one(fitted.1);
    let x: i32 = (cx as i32 - width) / 2;
    let y: i32 = (cy as i32 - height) / 2;
    Some(Viewport { x, y, width, height })
}

/// The size of the preview window: at least one pixel each way.
pub fn window_size(w: i32, h: i32) -> (r: (i32, i32))
    ensures
        r == (at_least_one(w), at_least_one(h)),
{
    (max_one(w), max_one(h))
}

/// The class of the preview window, as Windows takes it.
pub fn class_name_wide() -> (r: Vec<u16>)
    ensures
        r@ == utf16("EmberPreviewClass"@).push(0),
{
    wide("EmberPreviewClass")
}

// ---------------------------------------------------------------------------
// The window

/// The background of the preview, as the engine takes it: alpha, blue, green,
/// red. It is the colour #121215 of the panel around it.
pub const PREVIEW_BACKGROUND: u32 = 0xFF15_1212;

/// The preview window, and the display that the engine draws in it.
#[derive(Clone, Copy, PartialEq, Eq, Structural, Debug)]
pub struct PreviewState {
    pub hwnd: usize,
    pub display: usize,
}

/// The preview window has been asked for.
pub fn window_created(hwnd: usize) -> (r: Result<(), String>)
    ensures
        r is Ok <==> hwnd != 0,
        r matches Err(e) ==> e@ == "CreateWindowExW devolvio null para la ventana de preview"@,
{
    if hwnd == 0 {
        Err("CreateWindowExW devolvio null para la ventana de preview".to_owned())
    } else {
        Ok(())
    }
}

/// Why the preview could not be opened, and the window that has to go again.
pub struct CreateFailure {
    pub message: String,
    pub destroy: usize,
}

/// The display in the preview window has been asked for. Without it the window
/// goes again.
pub fn create(hwnd: usize, display: usize) -> (r: Result<PreviewState, CreateFailure>)
    ensures
        r is Ok <==> display != 0,
        r matches Ok(s) ==> s == (PreviewState { hwnd, display }),
        r matches Err(f) ==> f.destroy == hwnd && f.message@
            == "obs_display_create devolvio null (¿ya se inicio libobs?)"@,
{
    if display == 0 {
        return Err(
            CreateFailure {
                message: "obs_display_create devolvio null (¿ya se inicio libobs?)".to_owned(),
                destroy: hwnd,
            },
        );
    }
    Ok(PreviewState { hwnd, display })
}

/// A new place and size for the preview window and its display.
#[derive(Clone, Copy, PartialEq, Eq, Structural, Debug)]
pub struct WindowChange {
    pub hwnd: usize,
    pub display: usize,
    /// The upper left corner on the screen.
    pub x: i32,
    pub y: i32,
    pub width: i32,
    pub height: i32,
}

/// Moves the preview window to a place of the screen and resizes it.
pub fn resize(state: &PreviewState, x: i32, y: i32, w: i32, h: i32) -> (r: WindowChange)
    ensures
        r == (WindowChange {
            hwnd: state.hwnd,
            display: state.display,
            x,
            y,
            width: at_least_one(w),
            height: at_least_one(h),
        }),
{
    let (width, height) = window_size(w, h);
    WindowChange { hwnd: state.hwnd, display: state.display, x, y, width, height }
}

/// One thing done to close the preview.
#[derive(Clone, Copy, PartialEq, Eq, Structural, Debug)]
pub enum PreviewRelease {
    DestroyDisplay(usize),
    DestroyWindow(usize),
}

/// Closes the preview: the display goes before the window that it draws in.
pub fn destroy(state: PreviewState) -> (r: Vec<PreviewRelease>)
    ensures
        r@ == seq![
            PreviewRelease::DestroyDisplay(state.display),
            PreviewRelease::DestroyWindow(state.hwnd),
        ],
{
    let mut steps: Vec<PreviewRelease> = Vec::new();
    steps.push(PreviewRelease::DestroyDisplay(state.display));
    steps.push(PreviewRelease::DestroyWindow(state.hwnd));
    steps
}

/// What switching the preview on or off asks for.
#[derive(Clone, Copy, PartialEq, Eq, Structural, Debug)]
pub enum PreviewToggle {
    /// It is as it should be.
    Stay,
    /// The preview is to be opened.
    Open,
    /// This preview is to be closed.
    Close(PreviewState),
}

/// What switching the preview on or off asks for, and what its slot holds after.
pub open spec fn switched(slot: Option<PreviewState>, enabled: bool) -> (
    PreviewToggle,
    Option<PreviewState>,
) {
    match (enabled, slot) {
        (true, None) => (PreviewToggle::Open, None),
        (false, Some(s)) => (PreviewToggle::Close(s), None),
        _ => (PreviewToggle::Stay, slot),
    }
}

/// Switches the preview on or off. One that is closed leaves its slot at once.
pub fn toggle_preview(slot: &mut Option<PreviewState>, enabled: bool) -> (r: PreviewToggle)
    ensures
        r == (match (enabled, *old(slot)) {
            (true, None) => PreviewToggle::Open,
            (false, Some(s)) => PreviewToggle::Close(s),
            _ => PreviewToggle::Stay,
        }),
        *final(slot) == (if enabled {
            *old(slot)
        } else {
            None
        }),
        (r, *final(slot)) == switched(*old(slot), enabled),
{
    if enabled {
        if slot.is_some() {
            PreviewToggle::Stay
        } else {
            PreviewToggle::Open
        }
    } else {
        match slot.take() {
            Some(s) => PreviewToggle::Close(s),
            None => PreviewToggle::Stay,
        }
    }
}

/// What the main window is needed for.
#[derive(Clone, Copy, PartialEq, Eq, Structural, Debug)]
pub enum OwnerUse {
    /// To open the preview over it.
    Open,
    /// To move the preview with it.
    Follow,
}

/// The main window that owns the preview. `handle` is the handle asked of the
/// window, where the application is up and the window was found.
pub fn owner_window(app_ready: bool, found: bool, handle: Result<usize, String>, purpose: OwnerUse) -> (r:
    Result<usize, String>)
    ensures
        r is Ok <==> app_ready && found && handle is Ok,
        r matches Ok(h) ==> h == handle->Ok_0,
        r matches Err(e) ==> e@ == (if !app_ready {
            "La app todavia no esta lista"@
        } else if !found {
            "No se encontro la ventana principal"@
        } else if purpose is Open {
            "no se pudo obtener el HWND de la ventana: "@ + handle->Err_0@
        } else {
            "no se pudo obtener el HWND: "@ + handle->Err_0@
        }),
{
    if !app_ready {
        return Err("La app todavia no esta lista".to_owned());
    }
    if !found {
        return Err("No se encontro la ventana principal".to_owned());
    }
    match handle {
        Ok(h) => Ok(h),
        Err(e) => match purpose {
            OwnerUse::Open => Err(
                joined("no se pudo obtener el HWND de la ventana: ", e.as_str()),
            ),
            OwnerUse::Follow => Err(joined("no se pudo obtener el HWND: ", e.as_str())),
        },
    }
}

// ---------------------------------------------------------------------------
// Grabbing a corner and resizing by it

/// The squared distances from a place to the corners of a rectangle.
#[derive(Clone, Copy, PartialEq, Eq, Structural, Debug)]
pub struct CornerDistances {
    pub top_left: Single,
    pub top_right: Single,
    pub bottom_left: Single,
    pub bottom_right: Single,
}

/// The corner that a place grabs.
pub open spec fn grabbed_corner(d: CornerDistances, reach: Single) -> Option<ResizeCorner> {
    if d.top_left.lt_spec(reach) {
        Some(ResizeCorner::TopLeft)
    } else if d.top_right.lt_spec(reach) {
        Some(ResizeCorner::TopRight)
    } else if d.bottom_left.lt_spec(reach) {
        Some(ResizeCorner::BottomLeft)
    } else if d.bottom_right.lt_spec(reach) {
        Some(ResizeCorner::BottomRight)
    } else {
        None
    }
}

/// The corner that a place grabs: the first whose squared distance is below
/// the square of the reach.
pub fn check_corner_click(d: &CornerDistances, reach: Single) -> (r: Option<ResizeCorner>)
    ensures
        r == (if d.top_left.lt_spec(reach) {
            Some(ResizeCorner::TopLeft)
        } else if d.top_right.lt_spec(reach) {
            Some(ResizeCorner::TopRight)
        } else if d.bottom_left.lt_spec(reach) {
            Some(ResizeCorner::BottomLeft)
        } else if d.bottom_right.lt_spec(reach) {
            Some(ResizeCorner::BottomRight)
        } else {
            None
        }),
        r == grabbed_corner(*d, reach),
{
    if d.top_left.lt(reach) {
        return Some(ResizeCorner::TopLeft);
    }
    if d.top_right.lt(reach) {
        return Some(ResizeCorner::TopRight);
    }
    if d.bottom_left.lt(reach) {
        return Some(ResizeCorner::BottomLeft);
    }
    if d.bottom_right.lt(reach) {
        return Some(ResizeCorner::BottomRight);
    }
    None
}

/// How dragging a corner changes a rectangle.
#[derive(Clone, Copy, PartialEq, Eq, Structural, Debug)]
pub struct ResizePlan {
    /// The width grows as the mouse goes right; otherwise it shrinks.
    pub widens_rightward: bool,
    /// The height grows as the mouse goes down; otherwise it shrinks.
    pub grows_downward: bool,
    /// The right edge stays, so the left one follows the width.
    pub keeps_right: bool,
    /// The bottom edge stays, so the top one follows the height.
    pub keeps_bottom: bool,
    /// The height follows the width, to keep the proportions.
    pub proportional: bool,
}

/// The corner is on the left.
pub open spec fn is_left(c: ResizeCorner) -> bool {
    c is TopLeft || c is BottomLeft
}

/// The corner is at the top.
pub open spec fn is_top(c: ResizeCorner) -> bool {
    c is TopLeft || c is TopRight
}

/// How dragging `corner` changes a rectangle.
pub open spec fn resize_plan_of(corner: ResizeCorner, free: bool) -> ResizePlan {
    ResizePlan {
        widens_rightward: !is_left(corner),
        grows_downward: !is_top(corner),
        keeps_right: is_left(corner),
        keeps_bottom: is_top(corner),
        proportional: !free,
    }
}

/// How dragging `corner` changes a rectangle: the edges that do not meet in it
/// stay where they are. Proportions are kept unless `free`.
pub fn resize_plan(corner: ResizeCorner, free: bool) -> (r: ResizePlan)
    ensures
        r == (ResizePlan {
            widens_rightward: !is_left(corner),
            grows_downward: !is_top(corner),
            keeps_right: is_left(corner),
            keeps_bottom: is_top(corner),
            proportional: !free,
        }),
        r == resize_plan_of(corner, free),
{
    let (left, top) = match corner {
        ResizeCorner::TopLeft => (true, true),
        ResizeCorner::TopRight => (false, true),
        ResizeCorner::BottomLeft => (true, false),
        ResizeCorner::BottomRight => (false, false),
    };
    ResizePlan {
        widens_rightward: !left,
        grows_downward: !top,
        keeps_right: left,
        keeps_bottom: top,
        proportional: !free,
    }
}

/// The side of a resized overlay: at least ten pixels.
pub fn resized_side(side: Single) -> (r: Single)
    ensures
        r == side.at_least_spec(Single { bits: TEN }),
{
    side.at_least(Single { bits: TEN })
}

/// Tells whether a picture shown at this scale can be dragged on.
pub fn scale_is_usable(scale: Single) -> (r: bool)
    ensures
        r == (Single { bits: ZERO }).lt_spec(scale),
{
    (Single { bits: ZERO }).lt(scale)
}

// ---------------------------------------------------------------------------
// Drawing

/// A place along one side of the canvas.
#[derive(Clone, Copy, PartialEq, Eq, Structural, Debug)]
pub enum Along {
    Start,
    End,
    /// `part` of `parts` equal parts from the start.
    Part { part: u32, parts: u32 },
}

/// A vertex of the grid.
#[derive(Clone, Copy, PartialEq, Eq, Structural, Debug)]
pub struct GridVertex {
    pub x: Along,
    pub y: Along,
}

/// How many parts a grid divides each side into; 0 for a grid that only has
/// the outline.
pub open spec fn divisions_of(grid: Seq<char>) -> nat {
    if grid == "thirds"@ {
        3
    } else if grid == "grid10"@ {
        10
    } else if grid == "grid20"@ {
        20
    } else {
        0
    }
}

/// There is nothing to draw.
pub open spec fn no_grid(grid: Seq<char>) -> bool {
    grid == "none"@ || grid.len() == 0
}

/// The outline of the canvas, as pairs of vertices.
pub open spec fn outline() -> Seq<GridVertex> {
    seq![
        GridVertex { x: Along::Start, y: Along::Start },
        GridVertex { x: Along::End, y: Along::Start },
        GridVertex { x: Along::End, y: Along::Start },
        GridVertex { x: Along::End, y: Along::End },
        GridVertex { x: Along::End, y: Along::End },
        GridVertex { x: Along::Start, y: Along::End },
        GridVertex { x: Along::Start, y: Along::End },
        GridVertex { x: Along::Start, y: Along::Start },
    ]
}

/// The vertical and the horizontal line after `part` of `parts` parts.
pub open spec fn division(part: u32, parts: u32) -> Seq<GridVertex> {
    let at = Along::Part { part, parts };
    seq![
        GridVertex { x: at, y: Along::Start },
        GridVertex { x: at, y: Along::End },
        GridVertex { x: Along::Start, y: at },
        GridVertex { x: Along::End, y: at },
    ]
}

/// The lines after each of the first `count` parts.
pub open spec fn division_lines(count: nat, parts: u32) -> Seq<GridVertex>
    decreases count,
{
    if count == 0 {
        seq![]
    } else {
        division_lines((count - 1) as nat, parts) + division(count as u32, parts)
    }
}

/// The vertices of a grid, two for each line.
pub open spec fn grid_vertices(grid: Seq<char>) -> Seq<GridVertex> {
    if no_grid(grid) {
        seq![]
    } else if divisions_of(grid) > 1 {
        outline() + division_lines((divisions_of(grid) - 1) as nat, divisions_of(grid) as u32)
    } else {
        outline()
    }
}

fn grid_divisions(grid: &str) -> (r: u32)
    ensures
        r == divisions_of(grid@),
{
    if same_text(grid, "thirds") {
        3
    } else if same_text(grid, "grid10") {
        10
    } else if same_text(grid, "grid20") {
        20
    } else {
        0
    }
}

/// The vertices of a grid, two for each line.
pub fn grid_lines(grid: &str) -> (r: Vec<GridVertex>)
    ensures
        r@ == grid_vertices(grid@),
{
    let mut lines: Vec<GridVertex> = Vec::new();
    if same_text(grid, "none") || grid.is_empty() {
        return lines;
    }
    lines.push(GridVertex { x: Along::Start, y: Along::Start });
    lines.push(GridVertex { x: Along::End, y: Along::Start });
    lines.push(GridVertex { x: Along::End, y: Along::Start });
    lines.push(GridVertex { x: Along::End, y: Along::End });
    lines.push(GridVertex { x: Along::End, y: Along::End });
    lines.push(GridVertex { x: Along::Start, y: Along::End });
    lines.push(GridVertex { x: Along::Start, y: Along::End });
    lines.push(GridVertex { x: Along::Start, y: Along::Start });
    assert(lines@ =~= outline());
    let parts: u32 = grid_divisions(grid);
    if parts > 1 {
        let mut part: u32 = 1;
        assert(outline() + division_lines(0, parts) =~= outline());
        while part < parts
            invariant
                1 <= part <= parts,
                lines@ == outline() + division_lines((part - 1) as nat, parts),
            decreases parts - part,
        {
            let ghost before = lines@;
            lines.push(GridVertex { x: Along::Part { part, parts }, y: Along::Start });
            lines.push(GridVertex { x: Along::Part { part, parts }, y: Along::End });
            lines.push(GridVertex { x: Along::Start, y: Along::Part { part, parts } });
            lines.push(GridVertex { x: Along::End, y: Along::Part { part, parts } });
            assert(lines@ =~= before + division(part, parts));
            assert(lines@ =~= outline() + division_lines(part as nat, parts));
            part = part + 1;
        }
    }
    lines
}

/// A vertex of the box around the selected overlay: a corner of the overlay,
/// moved by one handle size left or right and up or down.
#[derive(Clone, Copy, PartialEq, Eq, Structural, Debug)]
pub struct BoxVertex {
    pub right: bool,
    pub bottom: bool,
    /// -1, 0 or 1 handle sizes to the right.
    pub dx: i8,
    /// -1, 0 or 1 handle sizes down.
    pub dy: i8,
}

/// A corner of the box itself.
pub open spec fn box_corner(right: bool, bottom: bool) -> BoxVertex {
    BoxVertex { right, bottom, dx: 0, dy: 0 }
}

/// The border, as pairs of vertices.
pub open spec fn box_border() -> Seq<BoxVertex> {
    seq![
        box_corner(false, false),
        box_corner(true, false),
        box_corner(true, false),
        box_corner(true, true),
        box_corner(true, true),
        box_corner(false, true),
        box_corner(false, true),
        box_corner(false, false),
    ]
}

/// The square handle around one corner, as pairs of vertices.
pub open spec fn box_handle(right: bool, bottom: bool) -> Seq<BoxVertex> {
    let at = |dx: int, dy: int| BoxVertex { right, bottom, dx: dx as i8, dy: dy as i8 };
    seq![
        at(-1, -1),
        at(1, -1),
        at(1, -1),
        at(1, 1),
        at(1, 1),
        at(-1, 1),
        at(-1, 1),
        at(-1, -1),
    ]
}

/// The border and the four handles, the left ones first, of each side the
/// lower one first.
pub open spec fn box_vertices() -> Seq<BoxVertex> {
    box_border() + box_handle(false, true) + box_handle(false, false) + box_handle(true, true)
        + box_handle(true, false)
}

fn push_handle(lines: &mut Vec<BoxVertex>, right: bool, bottom: bool)
    ensures
        final(lines)@ == old(lines)@ + box_handle(right, bottom),
{
    lines.push(BoxVertex { right, bottom, dx: -1, dy: -1 });
    lines.push(BoxVertex { right, bottom, dx: 1, dy: -1 });
    lines.push(BoxVertex { right, bottom, dx: 1, dy: -1 });
    lines.push(BoxVertex { right, bottom, dx: 1, dy: 1 });
    lines.push(BoxVertex { right, bottom, dx: 1, dy: 1 });
    lines.push(BoxVertex { right, bottom, dx: -1, dy: 1 });
    lines.push(BoxVertex { right, bottom, dx: -1, dy: 1 });
    lines.push(BoxVertex { right, bottom, dx: -1, dy: -1 });
    assert(lines@ =~= old(lines)@ + box_handle(right, bottom));
}

/// The lines around the selected overlay, two vertices for each.
pub fn selection_box() -> (r: Vec<BoxVertex>)
    ensures
        r@ == box_vertices(),
{
    let mut lines: Vec<BoxVertex> = Vec::new();
    lines.push(BoxVertex { right: false, bottom: false, dx: 0, dy: 0 });
    lines.push(BoxVertex { right: true, bottom: false, dx: 0, dy: 0 });
    lines.push(BoxVertex { right: true, bottom: false, dx: 0, dy: 0 });
    lines.push(BoxVertex { right: true, bottom: true, dx: 0, dy: 0 });
    lines.push(BoxVertex { right: true, bottom: true, dx: 0, dy: 0 });
    lines.push(BoxVertex { right: false, bottom: true, dx: 0, dy: 0 });
    lines.push(BoxVertex { right: false, bottom: true, dx: 0, dy: 0 });
    lines.push(BoxVertex { right: false, bottom: false, dx: 0, dy: 0 });
    assert(lines@ =~= box_border());
    push_handle(&mut lines, false, true);
    push_handle(&mut lines, false, false);
    push_handle(&mut lines, true, true);
    push_handle(&mut lines, true, false);
    lines
}

// ---------------------------------------------------------------------------
// Laws

/// The place that a message carries reads back from the two halves that it was
/// packed from, whatever their signs.
pub proof fn packed_points_read_back(x: i16, y: i16)
    ensures
        message_point((((y as u16) as usize) * 0x1_0000 + ((x as u16) as usize)) as isize) == (
            x as int,
            y as int,
        ),
{
    let lx: usize = (x as u16) as usize;
    let ly: usize = (y as u16) as usize;
    assert(lx == (if x < 0 { x + 0x1_0000 } else { x as int })) by (bit_vector)
        requires
            lx == (x as u16) as usize,
    ;
    assert(ly == (if y < 0 { y + 0x1_0000 } else { y as int })) by (bit_vector)
        requires
            ly == (y as u16) as usize,
    ;
    let word: usize = (ly * 0x1_0000 + lx) as usize;
    assert(ly * 0x1_0000 + lx <= 0xFFFF_FFFF);
    assert(word == ly * 0x1_0000 + lx);
    assert((word as isize) as usize == word) by (bit_vector);
    assert(word % 0x1_0000 == lx);
    assert(word / 0x1_0000 == ly);
}

/// The mouse finds what is drawn: a place on the picture is as far into it as
/// it is from the corner that the picture is drawn at, and less than the size
/// it is drawn in.
pub proof fn the_mouse_finds_what_is_drawn(click: (i32, i32), size: (i32, i32), fitted: (i32, i32))
    requires
        on_picture(click, size, fitted),
    ensures
        into_picture(click.0 as int, size.0 as int, fitted.0 as int) == click.0 - half(
            size.0 - at_least_one(fitted.0),
        ),
        into_picture(click.1 as int, size.1 as int, fitted.1 as int) == click.1 - half(
            size.1 - at_least_one(fitted.1),
        ),
        into_picture(click.0 as int, size.0 as int, fitted.0 as int) < at_least_one(fitted.0),
        into_picture(click.1 as int, size.1 as int, fitted.1 as int) < at_least_one(fitted.1),
{
}

/// The pixel under the mouse follows it: along each axis it depends on that axis
/// alone, never goes back as the mouse goes on, and lies on the picture.
pub proof fn the_pixel_follows_the_mouse(
    a: (i32, i32),
    b: (i32, i32),
    size: (i32, i32),
    fitted: (i32, i32),
)
    requires
        on_picture(a, size, fitted),
        on_picture(b, size, fitted),
    ensures
        ({
            let across = |p: (i32, i32)| into_picture(p.0 as int, size.0 as int, fitted.0 as int);
            let down = |p: (i32, i32)| into_picture(p.1 as int, size.1 as int, fitted.1 as int);
            &&& a.0 <= b.0 ==> across(a) <= across(b)
            &&& a.1 <= b.1 ==> down(a) <= down(b)
            &&& 0 <= across(a) < fitted.0
            &&& 0 <= down(a) < fitted.1
        }),
{
}

/// Turning the wheel keeps its direction: asked for a larger zoom, the preview
/// does not zoom out, and asked for a smaller one it does not zoom in, at the
/// bounds of the zoom either.
pub proof fn the_wheel_keeps_its_direction(v: PreviewView, asked: Single)
    requires
        v.zoom_in_range(),
    ensures
        ({
            let zoom = asked.clamp_spec(Single { bits: TENTH }, Single { bits: TWENTY });
            &&& v.params.zoom.le_spec(asked) ==> v.params.zoom.le_spec(zoom)
            &&& asked.le_spec(v.params.zoom) ==> zoom.le_spec(v.params.zoom)
        }),
{
    crate::single::lemma_zoom_bounds();
}

/// With the middle button down every move pans, whatever was grabbed before.
pub proof fn the_middle_button_pans(v: PreviewView, wparam: usize, lparam: isize)
    requires
        has_flag(wparam, MK_MBUTTON),
    ensures
        move_outcome(v, wparam, lparam) matches Some(step) ==> step.action is Pan,
{
}

/// Whatever overlay a move of the mouse drags is the selected one.
pub proof fn only_the_selection_is_dragged(v: PreviewView, wparam: usize, lparam: isize)
    requires
        v.wf(),
    ensures
        move_outcome(v, wparam, lparam) matches Some(step) ==> match step.action {
            DragAction::MoveOverlay(i) => v.selected == Some(i),
            DragAction::ResizeOverlay { index, .. } => v.selected == Some(index),
            _ => true,
        },
{
}

/// The moves of a drag add up: going from one place to another and on to a
/// third moves as far as going there at once.
pub proof fn moves_add_up(v: PreviewView, wparam: usize, first: isize, second: isize)
    requires
        v.wf(),
        move_outcome(v, wparam, first) is Some,
        move_outcome(v, wparam, second) is Some,
        ({
            let p = message_point(first);
            let w = PreviewView { last_mouse: Some((p.0 as i32, p.1 as i32)), ..v };
            move_outcome(w, wparam, second) is Some
        }),
    ensures
        ({
            let p = message_point(first);
            let w = PreviewView { last_mouse: Some((p.0 as i32, p.1 as i32)), ..v };
            let a = move_outcome(v, wparam, first)->0;
            let b = move_outcome(w, wparam, second)->0;
            let whole = move_outcome(v, wparam, second)->0;
            a.dx + b.dx == whole.dx && a.dy + b.dy == whole.dy && b.action == a.action
        }),
{
}

/// A grid with n divisions has the outline and n - 1 lines each way.
pub proof fn grids_have_their_lines(grid: Seq<char>)
    requires
        divisions_of(grid) > 1,
        !no_grid(grid),
    ensures
        grid_vertices(grid).len() == 8 + 4 * (divisions_of(grid) - 1),
{
    lemma_division_lines_len((divisions_of(grid) - 1) as nat, divisions_of(grid) as u32);
}

proof fn lemma_division_lines_len(count: nat, parts: u32)
    ensures
        division_lines(count, parts).len() == 4 * count,
    decreases count,
{
    if count > 0 {
        lemma_division_lines_len((count - 1) as nat, parts);
    }
}

/// A drag goes on as the press began it: while only the left button is down,
/// every step of a move carries out the very drag of an overlay that is under
/// way, and without one it moves the view.
pub proof fn a_drag_goes_on_as_it_began(v: PreviewView, wparam: usize, lparam: isize)
    requires
        has_flag(wparam, MK_LBUTTON),
        !has_flag(wparam, MK_MBUTTON),
    ensures
        move_outcome(v, wparam, lparam) matches Some(step) ==> match v.drag {
            DragAction::MoveOverlay(i) => step.action == DragAction::MoveOverlay(i),
            DragAction::ResizeOverlay { .. } => step.action == v.drag,
            DragAction::Pan => step.action is Pan,
            DragAction::Idle => step.action is Pan,
        },
{
}

/// A press on a corner of the selected overlay and a move to another place resize
/// that overlay by that corner, from where it was and as it was scaled then, and
/// from the place of the press.
pub proof fn a_corner_resizes_the_selected_overlay(
    v: PreviewView,
    probe: PressProbe,
    index: usize,
    press: isize,
    wparam: usize,
    lparam: isize,
)
    requires
        v.selected == Some(index),
        probe.point is Some,
        probe.corner is Some,
        has_flag(wparam, MK_LBUTTON),
        !has_flag(wparam, MK_MBUTTON),
        message_point(lparam) != message_point(press),
    ensures
        ({
            let w = pressed(v, press, probe);
            let g = probe.corner->0;
            &&& w.selected == Some(index)
            &&& move_outcome(w, wparam, lparam) matches Some(step)
            &&& step.action matches DragAction::ResizeOverlay {
                index: i,
                corner,
                aspect_ratio,
                initial_x,
                initial_y,
                initial_scale_x,
                initial_scale_y,
                initial_w,
                initial_h,
                click_canvas_x,
                click_canvas_y,
            }
            &&& i == index && corner == g.corner
            &&& aspect_ratio == g.aspect_ratio
            &&& initial_x == g.rect.x && initial_y == g.rect.y
            &&& initial_w == g.rect.w && initial_h == g.rect.h
            &&& initial_scale_x == g.scale_x && initial_scale_y == g.scale_y
            &&& click_canvas_x == probe.point->0.x && click_canvas_y == probe.point->0.y
        }),
{
    lemma_message_point_fits(press);
}

/// A press on an overlay selects it, and a move to another place moves it, unless
/// a corner of the selected one was grabbed.
pub proof fn a_press_on_an_overlay_moves_it(
    v: PreviewView,
    probe: PressProbe,
    index: usize,
    press: isize,
    wparam: usize,
    lparam: isize,
)
    requires
        probe.point is Some,
        probe.overlay == Some(index),
        v.selected is None || probe.corner is None,
        has_flag(wparam, MK_LBUTTON),
        !has_flag(wparam, MK_MBUTTON),
        message_point(lparam) != message_point(press),
    ensures
        ({
            let w = pressed(v, press, probe);
            &&& w.selected == Some(index)
            &&& move_outcome(w, wparam, lparam) matches Some(step)
            &&& step.action == DragAction::MoveOverlay(index)
        }),
{
    lemma_message_point_fits(press);
}

/// A press beside the picture, or on no overlay and no corner, lets go of the
/// selection, and a move to another place moves the view.
pub proof fn a_press_beside_everything_moves_the_view(
    v: PreviewView,
    probe: PressProbe,
    press: isize,
    wparam: usize,
    lparam: isize,
)
    requires
        probe.point is None || (probe.overlay is None && (v.selected is None || probe.corner
            is None)),
        has_flag(wparam, MK_LBUTTON),
        message_point(lparam) != message_point(press),
    ensures
        ({
            let w = pressed(v, press, probe);
            &&& w.selected is None
            &&& w.selection_rect is None
            &&& move_outcome(w, wparam, lparam) matches Some(step)
            &&& step.action is Pan
        }),
{
    lemma_message_point_fits(press);
}

proof fn lemma_message_point_fits(lparam: isize)
    ensures
        -0x8000 <= message_point(lparam).0 <= 0x7FFF,
        -0x8000 <= message_point(lparam).1 <= 0x7FFF,
{
}

/// A step of a move tells how far the mouse has come and where it is, across and
/// down, and whether Shift is down; there is one exactly where a button is down
/// and the mouse, seen before, is at another place.
pub proof fn a_step_tells_how_far_the_mouse_has_come(v: PreviewView, wparam: usize, lparam: isize)
    requires
        v.wf(),
    ensures
        ({
            let p = message_point(lparam);
            &&& v.last_mouse is None ==> move_outcome(v, wparam, lparam) is None
            &&& v.last_mouse matches Some(last) ==> {
                &&& move_outcome(v, wparam, lparam) is Some <==> (wparam & 1 != 0 || wparam & 16
                    != 0) && (last.0 != p.0 || last.1 != p.1)
                &&& move_outcome(v, wparam, lparam) matches Some(step) ==> {
                    &&& step.x == p.0 && step.y == p.1
                    &&& last.0 + step.dx == p.0
                    &&& last.1 + step.dy == p.1
                    &&& step.free <==> wparam & 4 != 0
                }
            }
        }),
{
    lemma_message_point_fits(lparam);
}

/// Exactly the drags of an overlay are kept when the button goes up.
pub proof fn only_drags_of_an_overlay_are_kept(drag: DragAction)
    ensures
        drags_overlay(drag) <==> !(drag is Idle) && !(drag is Pan),
{
}

/// Letting go of the selection leaves zoom, pan, grid, canvas and mouse as they
/// were.
pub proof fn letting_go_keeps_the_view(v: PreviewView)
    ensures
        deselected(v).selected is None,
        deselected(v).drag is Idle,
        deselected(v).selection_rect is None,
        deselected(v).params == v.params,
        deselected(v).canvas == v.canvas,
        deselected(v).last_mouse == v.last_mouse,
{
}

/// A fresh preview shows the whole canvas: neither zoomed nor moved, without grid.
pub proof fn a_fresh_preview_shows_the_whole_canvas()
    ensures
        fresh_preview().params.zoom.bits == ONE,
        fresh_preview().params.pan_x.units() == 0,
        fresh_preview().params.pan_y.units() == 0,
        grid_vertices(fresh_preview().params.grid).len() == 0,
        deselected(fresh_preview()) == fresh_preview(),
        has_picture(fresh_preview().canvas, 1, 1),
        fresh_preview().canvas.0 * 9 == fresh_preview().canvas.1 * 16,
        fresh_preview().canvas.1 == 1080,
        fresh_preview().last_mouse is None,
{
}

/// The picture stands in the middle: what is left of the window before it and
/// after it differs by one pixel at most, and the first pixel of the picture is
/// right behind what is before it.
pub proof fn the_picture_stands_in_the_middle(size: int, fitted: int)
    ensures
        ({
            let before = half(size - fitted);
            let after = size - fitted - before;
            &&& -1 <= after - before <= 1
            &&& into_picture(before, size, fitted) == 0
            &&& into_picture(before + fitted, size, fitted) == fitted
        }),
        size >= fitted ==> 0 <= half(size - fitted),
        size <= fitted ==> half(size - fitted) <= 0,
{
}

/// Without a canvas or without a window there is no picture, and otherwise there
/// is.
pub proof fn a_picture_needs_canvas_and_window(canvas: (u32, u32), cx: int, cy: int)
    ensures
        !has_picture((0, canvas.1), cx, cy),
        !has_picture((canvas.0, 0), cx, cy),
        !has_picture(canvas, 0, cy),
        !has_picture(canvas, cx, 0),
        canvas.0 > 0 && canvas.1 > 0 && cx != 0 && cy != 0 ==> has_picture(canvas, cx, cy),
{
}

/// Sides are at least one pixel long, and longer ones are as they are.
pub proof fn sides_are_at_least_one_pixel(n: i32)
    ensures
        at_least_one(n) >= 1,
        n >= 1 ==> at_least_one(n) == n,
        n < 1 ==> at_least_one(n) == 1,
{
}

/// A window no larger than a signed number can tell always has a middle for the
/// picture.
pub proof fn ordinary_windows_have_a_middle(
    canvas: (u32, u32),
    cx: u32,
    cy: u32,
    fitted: (i32, i32),
)
    requires
        cx <= i32::MAX,
        cy <= i32::MAX,
    ensures
        viewport_defined(canvas, cx, cy, fitted),
{
}

/// The corner grabbed is within reach; one that alone is within reach is grabbed;
/// and where none is, none is.
pub proof fn the_corner_within_reach_is_grabbed(d: CornerDistances, reach: Single)
    ensures
        ({
            let tl = d.top_left.lt_spec(reach);
            let tr = d.top_right.lt_spec(reach);
            let bl = d.bottom_left.lt_spec(reach);
            let br = d.bottom_right.lt_spec(reach);
            &&& grabbed_corner(d, reach) is None <==> !tl && !tr && !bl && !br
            &&& grabbed_corner(d, reach) matches Some(c) ==> match c {
                ResizeCorner::TopLeft => tl,
                ResizeCorner::TopRight => tr && !tl,
                ResizeCorner::BottomLeft => bl && !tl && !tr,
                ResizeCorner::BottomRight => br && !tl && !tr && !bl,
            }
        }),
{
}

/// Dragging a corner outwards makes the rectangle larger, and the corner across
/// from it stays: of each pair of edges the one at the corner moves and the other
/// is kept. Proportions are kept exactly while Shift is up.
pub proof fn the_corner_across_stays(corner: ResizeCorner, free: bool)
    ensures
        ({
            let plan = resize_plan_of(corner, free);
            &&& plan.keeps_right <==> corner is TopLeft || corner is BottomLeft
            &&& plan.keeps_bottom <==> corner is TopLeft || corner is TopRight
            &&& plan.widens_rightward <==> corner is TopRight || corner is BottomRight
            &&& plan.grows_downward <==> corner is BottomLeft || corner is BottomRight
            &&& plan.proportional <==> !free
        }),
{
}

/// The grids that can be chosen divide each side into thirds, tenths and
/// twentieths; "none" and the empty choice draw nothing; any other draws the
/// outline alone.
pub proof fn the_grids_are_thirds_tenths_and_twentieths(grid: Seq<char>)
    ensures
        grid == "thirds"@ ==> divisions_of(grid) == 3 && !no_grid(grid),
        grid == "grid10"@ ==> divisions_of(grid) == 10 && !no_grid(grid),
        grid == "grid20"@ ==> divisions_of(grid) == 20 && !no_grid(grid),
        grid == "none"@ || grid.len() == 0 ==> grid_vertices(grid).len() == 0,
        grid != "none"@ && grid.len() > 0 && divisions_of(grid) == 0 ==> grid_vertices(grid)
            == outline(),
        divisions_of(grid) != 0 ==> grid == "thirds"@ || grid == "grid10"@ || grid == "grid20"@,
{
    reveal_strlit("thirds");
    reveal_strlit("grid10");
    reveal_strlit("grid20");
    reveal_strlit("none");
    assert("thirds"@[0] == 't' && "grid10"@[0] == 'g' && "grid20"@[0] == 'g');
    assert("grid10"@[4] == '1' && "grid20"@[4] == '2' && "none"@[0] == 'n');
}

/// The outline goes round the canvas: four lines, each along one side, each from
/// where the last one ended, and back to the start.
pub proof fn the_outline_goes_round(i: int)
    requires
        0 <= i < 4,
    ensures
        outline().len() == 8,
        ({
            let (a, b) = (outline()[2 * i], outline()[2 * i + 1]);
            &&& (a.x == b.x) != (a.y == b.y)
            &&& b == outline()[(2 * i + 2) % 8]
            &&& a.x is Start || a.x is End
            &&& a.y is Start || a.y is End
        }),
{
}

/// The lines of a grid cross the whole canvas: after each part but the last there
/// is one from top to bottom and one from side to side, both at that part.
pub proof fn the_lines_cross_the_canvas(count: nat, parts: u32, k: int)
    requires
        0 <= k < count <= u32::MAX,
    ensures
        division_lines(count, parts).len() == 4 * count,
        ({
            let at = Along::Part { part: (k + 1) as u32, parts };
            let lines = division_lines(count, parts);
            &&& lines[4 * k] == (GridVertex { x: at, y: Along::Start })
            &&& lines[4 * k + 1] == (GridVertex { x: at, y: Along::End })
            &&& lines[4 * k + 2] == (GridVertex { x: Along::Start, y: at })
            &&& lines[4 * k + 3] == (GridVertex { x: Along::End, y: at })
        }),
    decreases count,
{
    lemma_division_lines_len(count, parts);
    lemma_division_lines_len((count - 1) as nat, parts);
    if k < count - 1 {
        the_lines_cross_the_canvas((count - 1) as nat, parts, k);
    }
}

/// A grid has the outline first, and then the lines between its parts.
pub proof fn a_grid_has_outline_and_lines(grid: Seq<char>)
    requires
        divisions_of(grid) > 1,
        !no_grid(grid),
    ensures
        outline().is_prefix_of(grid_vertices(grid)),
        grid_vertices(grid).skip(8) == division_lines(
            (divisions_of(grid) - 1) as nat,
            divisions_of(grid) as u32,
        ),
{
    assert(grid_vertices(grid).skip(8) =~= division_lines(
        (divisions_of(grid) - 1) as nat,
        divisions_of(grid) as u32,
    ));
}

/// The box around the selected overlay has its border and a square handle on each
/// corner, drawn as lines along one axis, one after the other.
pub proof fn the_box_has_a_border_and_four_handles(i: int, right: bool, bottom: bool)
    requires
        0 <= i < 4,
    ensures
        box_vertices().len() == 40,
        box_border().is_prefix_of(box_vertices()),
        ({
            let (a, b) = (box_border()[2 * i], box_border()[2 * i + 1]);
            &&& (a.right == b.right) != (a.bottom == b.bottom)
            &&& b == box_border()[(2 * i + 2) % 8]
            &&& a.dx == 0 && a.dy == 0
        }),
        ({
            let (a, b) = (box_handle(right, bottom)[2 * i], box_handle(right, bottom)[2 * i + 1]);
            &&& a.right == right && a.bottom == bottom && b.right == right && b.bottom == bottom
            &&& (a.dx == b.dx) != (a.dy == b.dy)
            &&& b == box_handle(right, bottom)[(2 * i + 2) % 8]
            &&& (a.dx == 1 || a.dx == -1) && (a.dy == 1 || a.dy == -1)
        }),
        exists|k: int|
            8 <= k && k + 8 <= 40 && #[trigger] box_vertices().subrange(k, k + 8) == box_handle(
                right,
                bottom,
            ),
{
    assert(i == 0 || i == 1 || i == 2 || i == 3);
    assert(box_border().len() == 8 && box_handle(right, bottom).len() == 8);
    let k: int = 8 + (if right {
        16int
    } else {
        0
    }) + (if bottom {
        0int
    } else {
        8
    });
    assert(box_vertices().subrange(k, k + 8) =~= box_handle(right, bottom));
}

/// The flags of a mouse message are separate bits: one flag alone is the only one
/// that the message has.
pub proof fn flags_are_separate_bits()
    ensures
        has_flag(MK_LBUTTON, MK_LBUTTON),
        has_flag(MK_MBUTTON, MK_MBUTTON),
        has_flag(MK_SHIFT, MK_SHIFT),
        !has_flag(MK_LBUTTON, MK_MBUTTON),
        !has_flag(MK_LBUTTON, MK_SHIFT),
        !has_flag(MK_MBUTTON, MK_SHIFT),
        MK_LBUTTON == 1,
        MK_SHIFT == 4,
        MK_MBUTTON == 16,
{
    assert(1usize & 1 != 0 && 4usize & 4 != 0 && 16usize & 16 != 0 && 1usize & 16 == 0 && 1usize & 4
        == 0 && 16usize & 4 == 0) by (bit_vector);
}

/// The background is opaque, and its red, green and blue are those of the panel
/// around it, #121215.
pub proof fn the_background_is_that_of_the_panel()
    ensures
        PREVIEW_BACKGROUND == 0xFF * 0x100_0000 + 0x15 * 0x1_0000 + 0x12 * 0x100 + 0x12,
{
}

/// Zooming, moving and choosing a grid each change one thing of the view: the
/// others, the canvas and the selection stay. A zoom within the range is taken as
/// asked for, and one outside goes to the nearer end.
pub proof fn zoom_pan_and_grid_are_independent(
    v: PreviewView,
    zoom: Single,
    x: Single,
    y: Single,
    grid: Seq<char>,
)
    ensures
        ({
            let z = zoomed(v, zoom);
            &&& (Single { bits: TENTH }).le_spec(zoom) && zoom.le_spec(Single { bits: TWENTY })
                ==> z.params.zoom == zoom
            &&& zoom.lt_spec(Single { bits: TENTH }) ==> z.params.zoom.bits == TENTH
            &&& (Single { bits: TWENTY }).lt_spec(zoom) ==> z.params.zoom.bits == TWENTY
            &&& z.params.pan_x == v.params.pan_x && z.params.pan_y == v.params.pan_y
            &&& z.params.grid == v.params.grid
            &&& z.canvas == v.canvas && z.selected == v.selected && z.drag == v.drag
        }),
        ({
            let p = panned(v, x, y);
            &&& p.params.pan_x == x && p.params.pan_y == y
            &&& p.params.zoom == v.params.zoom && p.params.grid == v.params.grid
            &&& p.canvas == v.canvas && p.selected == v.selected && p.drag == v.drag
        }),
        ({
            let g = gridded(v, grid);
            &&& g.params.grid == grid
            &&& g.params.zoom == v.params.zoom
            &&& g.params.pan_x == v.params.pan_x && g.params.pan_y == v.params.pan_y
            &&& g.canvas == v.canvas && g.selected == v.selected && g.drag == v.drag
        }),
{
    crate::single::lemma_zoom_bounds();
}

/// Showing the whole canvas undoes every zoom and move, and keeps grid and
/// selection.
pub proof fn showing_the_whole_canvas_undoes_zoom_and_pan(
    v: PreviewView,
    zoom: Single,
    x: Single,
    y: Single,
)
    ensures
        shown_whole(panned(zoomed(v, zoom), x, y)) == shown_whole(v),
        shown_whole(v).params.zoom == fresh_preview().params.zoom,
        shown_whole(v).params.pan_x == fresh_preview().params.pan_x,
        shown_whole(v).params.pan_y == fresh_preview().params.pan_y,
        shown_whole(v).params.grid == v.params.grid,
        shown_whole(v).selected == v.selected,
        shown_whole(v).canvas == v.canvas,
        shown_whole(v).drag == v.drag,
{
}

/// A button that goes up ends the drag and forgets the mouse; the selection stays,
/// and so does the view. A move without a button does nothing and forgets it too.
pub proof fn a_button_that_goes_up_ends_the_drag(v: PreviewView, wparam: usize, lparam: isize)
    ensures
        released(v).drag is Idle,
        released(v).last_mouse is None,
        released(v).selected == v.selected,
        released(v).selection_rect == v.selection_rect,
        released(v).params == v.params,
        move_outcome(released(v), wparam, lparam) is None,
        wparam & 1 == 0 && wparam & 16 == 0 ==> after_move(v, wparam, lparam).last_mouse is None
            && move_outcome(v, wparam, lparam) is None,
{
}

/// While a button is down a move is seen, and changes nothing else of the preview:
/// the same message again is no move.
pub proof fn a_move_is_seen_once(v: PreviewView, wparam: usize, lparam: isize)
    requires
        wparam & 1 != 0 || wparam & 16 != 0,
    ensures
        ({
            let w = after_move(v, wparam, lparam);
            let p = message_point(lparam);
            &&& w.last_mouse matches Some(at) && at.0 == p.0 && at.1 == p.1
            &&& move_outcome(w, wparam, lparam) is None
            &&& w.drag == v.drag && w.selected == v.selected && w.params == v.params
            &&& w.selection_rect == v.selection_rect && w.canvas == v.canvas
        }),
{
    lemma_message_point_fits(lparam);
}

/// A press of the middle button lets go of the selection, and every move after it
/// moves the view, whichever button is down.
pub proof fn the_middle_button_moves_the_view(
    v: PreviewView,
    press: isize,
    wparam: usize,
    lparam: isize,
)
    ensures
        ({
            let w = pressed_middle(v, press);
            &&& w.selected is None
            &&& w.selection_rect is None
            &&& w.params == v.params && w.canvas == v.canvas
            &&& w.last_mouse matches Some(at) && at.0 == message_point(press).0 && at.1
                == message_point(press).1
            &&& move_outcome(w, wparam, lparam) matches Some(step) ==> step.action is Pan
        }),
{
    lemma_message_point_fits(press);
}

/// The turn of the wheel reads back from the number that the message was packed
/// from, with its sign, whatever the keys in its low half.
pub proof fn a_packed_turn_reads_back(turn: i16, keys: u16)
    ensures
        wheel_turn((((turn as u16) as usize) * 0x1_0000 + (keys as usize)) as usize) == turn,
{
    let t: usize = (turn as u16) as usize;
    assert(t == (if turn < 0 { turn + 0x1_0000 } else { turn as int })) by (bit_vector)
        requires
            t == (turn as u16) as usize,
    ;
    let word: usize = (t * 0x1_0000 + keys as usize) as usize;
    assert(t * 0x1_0000 + keys <= 0xFFFF_FFFF);
    assert(word == t * 0x1_0000 + keys);
    assert(word / 0x1_0000 == t);
}

/// Switching the preview on opens one only where there is none, and switching it
/// off closes the one there is; then there is none, and asking again changes
/// nothing.
pub proof fn the_preview_is_opened_and_closed_once(s: PreviewState, slot: Option<PreviewState>)
    ensures
        switched(None, true).0 is Open,
        switched(Some(s), true) == (PreviewToggle::Stay, Some(s)),
        switched(Some(s), false).0 == PreviewToggle::Close(s),
        switched(slot, false).1 is None,
        switched(None, false).0 is Stay,
        switched(switched(slot, false).1, false).0 is Stay,
{
}

/// Every pixel of the picture can be clicked on, from the first to the last of
/// each axis, and a place before the first or after the last is beside it.
pub proof fn every_pixel_can_be_clicked_on(
    size: (i32, i32),
    fitted: (i32, i32),
    click: (i32, i32),
    pixel: (int, int),
)
    requires
        click.0 == half(size.0 - fitted.0) + pixel.0,
        click.1 == half(size.1 - fitted.1) + pixel.1,
    ensures
        on_picture(click, size, fitted) <==> 0 <= pixel.0 < fitted.0 && 0 <= pixel.1 < fitted.1,
        into_picture(click.0 as int, size.0 as int, fitted.0 as int) == pixel.0,
        into_picture(click.1 as int, size.1 as int, fitted.1 as int) == pixel.1,
{
}

/// The zoom is in range from a tenth to twenty, both included, and nowhere else.
pub proof fn a_tenth_and_twenty_are_in_range(v: PreviewView, zoom: Single)
    ensures
        zoomed(v, Single { bits: TENTH }).zoom_in_range(),
        zoomed(v, Single { bits: TWENTY }).zoom_in_range(),
        !zoom.is_nan_spec() ==> zoomed(v, zoom).zoom_in_range(),
        v.params.zoom.lt_spec(Single { bits: TENTH }) ==> !v.zoom_in_range(),
        (Single { bits: TWENTY }).lt_spec(v.params.zoom) ==> !v.zoom_in_range(),
{
    crate::single::lemma_zoom_bounds();
    crate::single::clamp_lands_between(zoom, Single { bits: TENTH }, Single { bits: TWENTY });
}

} // verus!
