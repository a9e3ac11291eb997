//! The overlays on top of the captured picture.
//!
//! The configuration and the capture each keep a list of them, in the same
//! order. The first is in front.

use crate::capture::{
    back_to_front, capture_view, given_back, is_made, live_overlay, live_overlay_spec,
    overlays_in_step, owned_by, owned_overlays, owned_source, placement_of, release_source,
    sync_scene_z_order, without, CaptureState, CaptureView, Owned, OverlayItem, Release,
};
use crate::config::{
    config_mut, effective_scale, fresh_overlay, in_force, overlay_views, ConfigView, EmberioConfig,
    OverlayConfig, OverlayKind, OverlayView,
};
use crate::preview::{clear_selection, deselected, PreviewModel};
use crate::settings::{stored, Saved};
use crate::single::{Single, FIVE, ONE, TENTH, ZERO};
use crate::sources::{clamped_opacity, overlay_plugin_spec};
use vstd::multiset::Multiset;
use vstd::prelude::*;

verus! {

/// The name of a kind of overlay.
pub open spec fn kind_name(kind: OverlayKind) -> Seq<char> {
    match kind {
        OverlayKind::Image => "image"@,
        OverlayKind::Text => "text"@,
        OverlayKind::Browser => "browser"@,
    }
}

/// The name of a kind of overlay.
pub fn overlay_kind_str(kind: OverlayKind) -> (r: &'static str)
    ensures
        r@ == kind_name(kind),
{
    match kind {
        OverlayKind::Image => "image",
        OverlayKind::Text => "text",
        OverlayKind::Browser => "browser",
    }
}

/// An overlay as the window shows it.
#[derive(Debug)]
pub struct OverlayInfo {
    pub index: usize,
    pub kind: String,
    pub content: String,
    pub x: Single,
    pub y: Single,
    pub scale: Single,
    pub scale_x: Single,
    pub scale_y: Single,
    pub visible: bool,
    pub locked: bool,
    pub opacity: Single,
}

/// What an [`OverlayInfo`] holds.
#[verifier::ext_equal]
pub struct InfoView {
    pub index: usize,
    pub kind: Seq<char>,
    pub content: Seq<char>,
    pub x: Single,
    pub y: Single,
    pub scale: Single,
    pub scale_x: Single,
    pub scale_y: Single,
    pub visible: bool,
    pub locked: bool,
    pub opacity: Single,
}

impl View for OverlayInfo {
    type V = InfoView;

    open spec fn view(&self) -> InfoView {
        InfoView {
            index: self.index,
            kind: self.kind@,
            content: self.content@,
            x: self.x,
            y: self.y,
            scale: self.scale,
            scale_x: self.scale_x,
            scale_y: self.scale_y,
            visible: self.visible,
            locked: self.locked,
            opacity: self.opacity,
        }
    }
}

/// The overlay at `index` as the window shows it, with its scales in effect.
pub open spec fn info_of(index: usize, o: OverlayView) -> InfoView {
    InfoView {
        index,
        kind: kind_name(o.kind),
        content: o.content,
        x: o.x,
        y: o.y,
        scale: o.scale,
        scale_x: effective_scale(o.scale_x, o.scale),
        scale_y: effective_scale(o.scale_y, o.scale),
        visible: o.visible,
        locked: o.locked,
        opacity: o.opacity,
    }
}

/// The overlays as the window shows them.
pub open spec fn infos_of(list: Seq<OverlayView>) -> Seq<InfoView> {
    list.map(|i: int, o: OverlayView| info_of(i as usize, o))
}

/// What a list of infos holds.
pub open spec fn info_views(list: Seq<OverlayInfo>) -> Seq<InfoView> {
    list.map_values(|o: OverlayInfo| o@)
}

fn list_infos(overlays: &Vec<OverlayConfig>) -> (r: Vec<OverlayInfo>)
    ensures
        info_views(r@) == infos_of(overlay_views(overlays@)),
{
    let mut list: Vec<OverlayInfo> = Vec::new();
    let mut i: usize = 0;
    let ghost all = infos_of(overlay_views(overlays@));
    while i < overlays.len()
        invariant
            i <= overlays.len(),
            all == infos_of(overlay_views(overlays@)),
            info_views(list@) =~= all.take(i as int),
        decreases overlays.len() - i,
    {
        let o = &overlays[i];
        let info = OverlayInfo {
            index: i,
            kind: overlay_kind_str(o.kind).to_owned(),
            content: o.content.clone(),
            x: o.x,
            y: o.y,
            scale: o.scale,
            scale_x: o.get_scale_x(),
            scale_y: o.get_scale_y(),
            visible: o.visible,
            locked: o.locked,
            opacity: o.opacity,
        };
        assert(info@ == all[i as int]);
        let ghost before = list@;
        list.push(info);
        assert(info_views(list@) =~= info_views(before).push(info@));
        i = i + 1;
    }
    assert(all.take(i as int) =~= all);
    list
}

/// The overlays as the window shows them.
pub fn overlay_info_list(slot: &mut Option<EmberioConfig>) -> (r: Vec<OverlayInfo>)
    ensures
        info_views(r@) == infos_of(in_force(*old(slot)).overlays),
        *final(slot) is Some,
        in_force(*final(slot)) == in_force(*old(slot)),
{
    let c = config_mut(slot);
    list_infos(&c.overlays)
}

// ---------------------------------------------------------------------------
// Changing one overlay

/// A list with the overlay at `index` replaced; an index past the end changes
/// nothing.
pub open spec fn with_overlay(list: Seq<OverlayView>, index: usize, o: OverlayView) -> Seq<
    OverlayView,
> {
    if index < list.len() {
        list.update(index as int, o)
    } else {
        list
    }
}

/// These overlays are in force and go to disk, and the answer shows them; the
/// rest of the configuration is as it was.
pub open spec fn answers(
    was: ConfigView,
    slot: Option<EmberioConfig>,
    r: Saved<Vec<OverlayInfo>>,
    list: Seq<OverlayView>,
) -> bool {
    &&& stored(slot, r.config, ConfigView { overlays: list, ..was })
    &&& info_views(r.value@) == infos_of(list)
}

fn answer(c: &EmberioConfig) -> (r: Saved<Vec<OverlayInfo>>)
    ensures
        r.config@ == c@,
        info_views(r.value@) == infos_of(c@.overlays),
{
    Saved { value: list_infos(&c.overlays), config: c.clone() }
}

proof fn lemma_overlay_update(before: Seq<OverlayConfig>, index: int, o: OverlayConfig)
    requires
        0 <= index < before.len(),
    ensures
        overlay_views(before.update(index, o)) == overlay_views(before).update(index, o@),
{
    assert(overlay_views(before.update(index, o)) =~= overlay_views(before).update(index, o@));
}

/// The list with the overlay at `index` locked, or not.
pub open spec fn with_locked(list: Seq<OverlayView>, index: usize, locked: bool) -> Seq<OverlayView> {
    with_overlay(list, index, OverlayView { locked, ..list[index as int] })
}

/// The list with the overlay at `index` shown, or hidden.
pub open spec fn with_visible(list: Seq<OverlayView>, index: usize, visible: bool) -> Seq<OverlayView> {
    with_overlay(list, index, OverlayView { visible, ..list[index as int] })
}

/// The list with another opacity for the overlay at `index`, kept in its range.
pub open spec fn with_opacity(list: Seq<OverlayView>, index: usize, opacity: Single) -> Seq<OverlayView> {
    with_overlay(
        list,
        index,
        OverlayView { opacity: clamped_opacity(opacity), ..list[index as int] },
    )
}

/// The list with another place and scale for the overlay at `index`, the scales
/// kept in their range.
pub open spec fn with_transform(
    list: Seq<OverlayView>,
    index: usize,
    x: Single,
    y: Single,
    scale_x: Single,
    scale_y: Single,
) -> Seq<OverlayView> {
    with_overlay(
        list,
        index,
        transformed(
            list[index as int],
            x,
            y,
            clamped_scale(scale_x),
            clamped_scale(scale_y),
        ),
    )
}

/// Locks an overlay in its place, or lets it be moved again.
pub fn set_overlay_locked(slot: &mut Option<EmberioConfig>, index: usize, locked: bool) -> (r: Saved<
    Vec<OverlayInfo>,
>)
    ensures
        ({
            let was = in_force(*old(slot));
            answers(
                was,
                *final(slot),
                r,
                with_overlay(
                    was.overlays,
                    index,
                    OverlayView { locked, ..was.overlays[index as int] },
                ),
            )
        }),
        in_force(*final(slot)).overlays == with_locked(
            in_force(*old(slot)).overlays,
            index,
            locked,
        ),
{
    let c = config_mut(slot);
    let ghost before = c.overlays@;
    if index < c.overlays.len() {
        c.overlays[index].locked = locked;
        proof {
            lemma_overlay_update(before, index as int, c.overlays@[index as int]);
        }
    }
    answer(c)
}

/// Shows an overlay, or hides it.
pub fn set_overlay_visible(slot: &mut Option<EmberioConfig>, index: usize, visible: bool) -> (r:
    Saved<Vec<OverlayInfo>>)
    ensures
        ({
            let was = in_force(*old(slot));
            answers(
                was,
                *final(slot),
                r,
                with_overlay(
                    was.overlays,
                    index,
                    OverlayView { visible, ..was.overlays[index as int] },
                ),
            )
        }),
        in_force(*final(slot)).overlays == with_visible(
            in_force(*old(slot)).overlays,
            index,
            visible,
        ),
{
    let c = config_mut(slot);
    let ghost before = c.overlays@;
    if index < c.overlays.len() {
        c.overlays[index].visible = visible;
        proof {
            lemma_overlay_update(before, index as int, c.overlays@[index as int]);
        }
    }
    answer(c)
}

/// Sets the opacity of an overlay, kept between 0.0 and 1.0.
pub fn set_overlay_opacity(slot: &mut Option<EmberioConfig>, index: usize, opacity: Single) -> (r:
    Saved<Vec<OverlayInfo>>)
    ensures
        ({
            let was = in_force(*old(slot));
            answers(
                was,
                *final(slot),
                r,
                with_overlay(
                    was.overlays,
                    index,
                    OverlayView {
                        opacity: clamped_opacity(opacity),
                        ..was.overlays[index as int]
                    },
                ),
            )
        }),
        in_force(*final(slot)).overlays == with_opacity(
            in_force(*old(slot)).overlays,
            index,
            opacity,
        ),
{
    let opacity = opacity.clamp(Single { bits: ZERO }, Single { bits: ONE });
    let c = config_mut(slot);
    let ghost before = c.overlays@;
    if index < c.overlays.len() {
        c.overlays[index].opacity = opacity;
        proof {
            lemma_overlay_update(before, index as int, c.overlays@[index as int]);
        }
    }
    answer(c)
}

/// An overlay moved and scaled. The uniform scale follows the horizontal one.
pub open spec fn transformed(o: OverlayView, x: Single, y: Single, scale_x: Single, scale_y: Single) -> OverlayView {
    OverlayView { x, y, scale_x, scale_y, scale: scale_x, ..o }
}

/// A scale kept between 0.1 and 5.0.
pub open spec fn clamped_scale(scale: Single) -> Single {
    scale.clamp_spec(Single { bits: TENTH }, Single { bits: FIVE })
}

fn clamp_scale(scale: Single) -> (r: Single)
    ensures
        r == clamped_scale(scale),
{
    scale.clamp(Single { bits: TENTH }, Single { bits: FIVE })
}

/// A place and a scale for an overlay that stands in the scene.
#[derive(Clone, Copy, PartialEq, Eq, Structural, Debug)]
pub struct LiveTransform {
    pub item: usize,
    pub x: Single,
    pub y: Single,
    pub scale_x: Single,
    pub scale_y: Single,
}

/// The overlay of the scene that a place and a scale are for, with the scales
/// that are stored.
pub open spec fn live_transform_of(
    capture: Option<CaptureView>,
    index: usize,
    x: Single,
    y: Single,
    scale_x: Single,
    scale_y: Single,
) -> Option<LiveTransform> {
    match live_overlay_spec(capture, index) {
        Some(o) => Some(
            LiveTransform {
                item: o.item,
                x,
                y,
                scale_x: clamped_scale(scale_x),
                scale_y: clamped_scale(scale_y),
            },
        ),
        None => None,
    }
}

/// The overlay of the scene that a place and a scale are for, with the scales
/// that are stored.
pub fn live_transform(
    capture: &Option<CaptureState>,
    index: usize,
    x: Single,
    y: Single,
    scale_x: Single,
    scale_y: Single,
) -> (r: Option<LiveTransform>)
    ensures
        r == (match live_overlay_spec(capture_view(*capture), index) {
            Some(o) => Some(
                LiveTransform {
                    item: o.item,
                    x,
                    y,
                    scale_x: clamped_scale(scale_x),
                    scale_y: clamped_scale(scale_y),
                },
            ),
            None => None,
        }),
        r == live_transform_of(capture_view(*capture), index, x, y, scale_x, scale_y),
{
    match live_overlay(capture, index) {
        Some(o) => Some(
            LiveTransform {
                item: o.item,
                x,
                y,
                scale_x: clamp_scale(scale_x),
                scale_y: clamp_scale(scale_y),
            },
        ),
        None => None,
    }
}

/// Moves and scales an overlay: the place in pixels of the canvas, the scales
/// kept between 0.1 and 5.0.
pub fn set_overlay_transform(
    slot: &mut Option<EmberioConfig>,
    index: usize,
    x: Single,
    y: Single,
    scale_x: Single,
    scale_y: Single,
) -> (r: Saved<Vec<OverlayInfo>>)
    ensures
        ({
            let was = in_force(*old(slot));
            answers(
                was,
                *final(slot),
                r,
                with_overlay(
                    was.overlays,
                    index,
                    transformed(
                        was.overlays[index as int],
                        x,
                        y,
                        clamped_scale(scale_x),
                        clamped_scale(scale_y),
                    ),
                ),
            )
        }),
        in_force(*final(slot)).overlays == with_transform(
            in_force(*old(slot)).overlays,
            index,
            x,
            y,
            scale_x,
            scale_y,
        ),
{
    let c = config_mut(slot);
    let ghost before = c.overlays@;
    if index < c.overlays.len() {
        transform(
            &mut c.overlays[index],
            x,
            y,
            clamp_scale(scale_x),
            clamp_scale(scale_y),
        );
        proof {
            lemma_overlay_update(before, index as int, c.overlays@[index as int]);
        }
    }
    answer(c)
}

fn transform(o: &mut OverlayConfig, x: Single, y: Single, scale_x: Single, scale_y: Single)
    ensures
        final(o)@ == transformed(old(o)@, x, y, scale_x, scale_y),
{
    o.x = x;
    o.y = y;
    o.scale_x = scale_x;
    o.scale_y = scale_y;
    o.scale = scale_x;
}

// ---------------------------------------------------------------------------
// Adding, removing, reordering

/// The scene that an overlay is added to.
pub fn overlay_scene(capture: &Option<CaptureState>) -> (r: Result<usize, String>)
    ensures
        match *capture {
            Some(s) => r == Ok::<usize, String>(s@.scene),
            None => r is Err && r->Err_0@ == "La captura todavia no esta lista"@,
        },
{
    match capture {
        Some(s) => Ok(s.scene),
        None => Err("La captura todavia no esta lista".to_owned()),
    }
}

/// The overlays have changed: the answer, and the new order of the scene from
/// back to front, where there is one to bring about.
pub struct OverlayChange {
    pub z_order: Option<Vec<usize>>,
    pub answer: Saved<Vec<OverlayInfo>>,
}

/// The new order of the scene is that of the capture.
pub open spec fn orders(z_order: Option<Vec<usize>>, capture: Option<CaptureState>) -> bool {
    match capture {
        Some(s) => z_order is Some && z_order->0@ == back_to_front(s@),
        None => z_order is None,
    }
}

/// Puts a new overlay in front of all others. Where no scene is being captured,
/// the configuration alone takes it, and `item` stays with the engine.
pub fn add_overlay(
    capture: &mut Option<CaptureState>,
    slot: &mut Option<EmberioConfig>,
    cfg: OverlayConfig,
    item: OverlayItem,
) -> (r: OverlayChange)
    ensures
        capture_view(*final(capture)) == (match capture_view(*old(capture)) {
            Some(v) => Some(CaptureView { overlays: v.overlays.insert(0, item), ..v }),
            None => None,
        }),
        orders(r.z_order, *final(capture)),
        answers(
            in_force(*old(slot)),
            *final(slot),
            r.answer,
            in_force(*old(slot)).overlays.insert(0, cfg@),
        ),
        overlays_in_step(capture_view(*old(capture)), in_force(*old(slot))) ==> overlays_in_step(
            capture_view(*final(capture)),
            in_force(*final(slot)),
        ),
{
    let z_order = match capture.as_mut() {
        Some(state) => {
            state.overlays.insert(0, item);
            Some(sync_scene_z_order(state))
        },
        None => None,
    };
    let c = config_mut(slot);
    let ghost before = c.overlays@;
    c.overlays.insert(0, cfg);
    assert(overlay_views(c.overlays@) =~= overlay_views(before).insert(0, cfg@));
    OverlayChange { z_order, answer: answer(c) }
}

/// What is given back of an overlay that is taken off: its place in the scene,
/// its filter and its source, where they are there.
pub open spec fn removal_releases(o: OverlayItem) -> Seq<Release> {
    (if o.item != 0 {
        seq![Release::RemoveItem(o.item)]
    } else {
        seq![]
    }) + release_source(o.opacity_filter) + release_source(o.source)
}

/// What the capture has at `index`.
pub open spec fn overlay_at(v: Option<CaptureView>, index: usize) -> Option<OverlayItem> {
    match v {
        Some(s) => if index < s.overlays.len() {
            Some(s.overlays[index as int])
        } else {
            None
        },
        None => None,
    }
}

/// An overlay has been taken off: what is to be given back, and the change.
pub struct OverlayRemoval {
    pub releases: Vec<Release>,
    /// The new order of the scene, where an overlay left it.
    pub z_order: Option<Vec<usize>>,
    pub answer: Saved<Vec<OverlayInfo>>,
}

/// The capture without the overlay at `index`.
pub open spec fn capture_without(v: Option<CaptureView>, index: usize) -> Option<CaptureView> {
    match v {
        Some(s) => Some(CaptureView { overlays: without(s.overlays, index), ..s }),
        None => None,
    }
}

/// Takes an overlay off. The others change their places, so the preview lets go
/// of its selection.
pub fn remove_overlay(
    model: &mut PreviewModel,
    capture: &mut Option<CaptureState>,
    slot: &mut Option<EmberioConfig>,
    index: usize,
) -> (r: OverlayRemoval)
    ensures
        final(model)@ == deselected(old(model)@),
        old(model)@.wf() ==> final(model)@.wf(),
        capture_view(*final(capture)) == capture_without(capture_view(*old(capture)), index),
        match overlay_at(capture_view(*old(capture)), index) {
            Some(o) => r.releases@ == removal_releases(o) && orders(r.z_order, *final(capture)),
            None => r.releases@.len() == 0 && r.z_order is None,
        },
        answers(
            in_force(*old(slot)),
            *final(slot),
            r.answer,
            without(in_force(*old(slot)).overlays, index),
        ),
        overlays_in_step(capture_view(*old(capture)), in_force(*old(slot))) ==> overlays_in_step(
            capture_view(*final(capture)),
            in_force(*final(slot)),
        ),
{
    clear_selection(model);
    let mut releases: Vec<Release> = Vec::new();
    let z_order = match capture.as_mut() {
        Some(state) => {
            if index < state.overlays.len() {
                let o = state.overlays.remove(index);
                if o.item != 0 {
                    releases.push(Release::RemoveItem(o.item));
                }
                if o.opacity_filter != 0 {
                    releases.push(Release::ReleaseSource(o.opacity_filter));
                }
                if o.source != 0 {
                    releases.push(Release::ReleaseSource(o.source));
                }
                assert(releases@ =~= removal_releases(o));
                Some(sync_scene_z_order(state))
            } else {
                None
            }
        },
        None => None,
    };
    let c = config_mut(slot);
    let ghost before = c.overlays@;
    if index < c.overlays.len() {
        c.overlays.remove(index);
        assert(overlay_views(c.overlays@) =~= overlay_views(before).remove(index as int));
    }
    OverlayRemoval { releases, z_order, answer: answer(c) }
}

/// A list with the element at `index` and its neighbour in front or behind
/// exchanged.
pub open spec fn exchanged<A>(list: Seq<A>, index: int, up: bool) -> Seq<A> {
    let other = if up {
        index - 1
    } else {
        index + 1
    };
    list.update(index, list[other]).update(other, list[index])
}

/// There is a neighbour to exchange with.
pub open spec fn has_neighbour(len: nat, index: int, up: bool) -> bool {
    if up {
        0 < index < len
    } else {
        0 <= index && index + 1 < len
    }
}

/// The capture refuses: the overlay is already first, or already last.
pub open spec fn refuses(capture: Option<CaptureView>, index: usize, up: bool) -> bool {
    match capture {
        Some(v) => if up {
            index == 0
        } else {
            index + 1 >= v.overlays.len()
        },
        None => false,
    }
}

/// The index names an overlay wherever the exchange looks it up.
pub open spec fn exchange_is_defined(
    capture: Option<CaptureView>,
    config: ConfigView,
    index: usize,
    up: bool,
) -> bool {
    &&& !up ==> index < usize::MAX
    &&& refuses(capture, index, up) || {
        &&& index < config.overlays.len()
        &&& capture matches Some(v) ==> index < v.overlays.len()
    }
}

/// Tells whether an overlay can be asked to change places.
pub fn can_reorder(
    capture: &Option<CaptureState>,
    slot: &Option<EmberioConfig>,
    index: usize,
    up: bool,
) -> (r: bool)
    ensures
        r == exchange_is_defined(capture_view(*capture), in_force(*slot), index, up),
{
    if !up && index == usize::MAX {
        return false;
    }
    let len = match slot {
        Some(c) => c.overlays.len(),
        None => 0,
    };
    match capture {
        Some(s) => {
            let refused = if up {
                index == 0
            } else {
                index + 1 >= s.overlays.len()
            };
            refused || (index < len && index < s.overlays.len())
        },
        None => index < len,
    }
}

fn exchange<A>(list: &mut Vec<A>, index: usize, up: bool)
    requires
        has_neighbour(old(list)@.len(), index as int, up),
    ensures
        final(list)@ == exchanged(old(list)@, index as int, up),
{
    let ghost before = list@;
    if up {
        let moved = list.remove(index);
        list.insert(index - 1, moved);
    } else {
        assert(index + 1 < list.len());
        let target: usize = index + 1;
        let moved = list.remove(index);
        list.insert(target, moved);
    }
    assert(list@ =~= exchanged(before, index as int, up));
}

/// Moves an overlay one place to the front, or to the back. The first cannot
/// go further to the front, nor the last to the back: where the scene is being
/// captured that is an error and the lists stay; otherwise the list stays.
/// Either way the preview lets go of its selection.
pub fn reorder_overlay(
    model: &mut PreviewModel,
    capture: &mut Option<CaptureState>,
    slot: &mut Option<EmberioConfig>,
    index: usize,
    up: bool,
) -> (r: Result<OverlayChange, String>)
    requires
        exchange_is_defined(capture_view(*old(capture)), in_force(*old(slot)), index, up),
    ensures
        final(model)@ == deselected(old(model)@),
        old(model)@.wf() ==> final(model)@.wf(),
        overlays_in_step(capture_view(*old(capture)), in_force(*old(slot))) ==> overlays_in_step(
            capture_view(*final(capture)),
            in_force(*final(slot)),
        ),
        r is Err <==> refuses(capture_view(*old(capture)), index, up),
        r matches Err(e) ==> {
            &&& e@ == (if up {
                "Ya está al frente"@
            } else {
                "Ya está al fondo"@
            })
            &&& capture_view(*final(capture)) == capture_view(*old(capture))
            &&& *final(slot) == *old(slot)
        },
        r matches Ok(change) ==> {
            let was = in_force(*old(slot));
            &&& capture_view(*final(capture)) == (match capture_view(*old(capture)) {
                Some(v) => Some(
                    CaptureView { overlays: exchanged(v.overlays, index as int, up), ..v },
                ),
                None => None,
            })
            &&& orders(change.z_order, *final(capture))
            &&& answers(
                was,
                *final(slot),
                change.answer,
                if has_neighbour(was.overlays.len(), index as int, up) {
                    exchanged(was.overlays, index as int, up)
                } else {
                    was.overlays
                },
            )
        },
{
    clear_selection(model);
    let z_order = match capture.as_mut() {
        Some(state) => {
            if up && index == 0 {
                return Err("Ya está al frente".to_owned());
            }
            if !up && index + 1 >= state.overlays.len() {
                return Err("Ya está al fondo".to_owned());
            }
            exchange(&mut state.overlays, index, up);
            Some(sync_scene_z_order(state))
        },
        None => None,
    };
    let c = config_mut(slot);
    let ghost before = c.overlays@;
    if (up && index > 0) || (!up && index + 1 < c.overlays.len()) {
        exchange(&mut c.overlays, index, up);
        assert(overlay_views(c.overlays@) =~= exchanged(
            overlay_views(before),
            index as int,
            up,
        ));
    }
    Ok(OverlayChange { z_order, answer: answer(c) })
}

// ---------------------------------------------------------------------------
// Overlays under the mouse

/// Where an overlay is and how it is scaled, for the mouse.
#[derive(Clone, Copy, PartialEq, Eq, Structural, Debug)]
pub struct OverlayGeometry {
    pub source: usize,
    pub x: Single,
    pub y: Single,
    pub scale_x: Single,
    pub scale_y: Single,
    /// It has been made, is shown, and is not locked.
    pub selectable: bool,
}

/// The geometry of an overlay of the capture; one that the configuration does
/// not know stands at the origin and cannot be selected.
pub open spec fn geometry_of(item: OverlayItem, list: Seq<OverlayView>, i: int) -> OverlayGeometry {
    if i < list.len() {
        let o = list[i];
        OverlayGeometry {
            source: item.source,
            x: o.x,
            y: o.y,
            scale_x: effective_scale(o.scale_x, o.scale),
            scale_y: effective_scale(o.scale_y, o.scale),
            selectable: is_made(item) && !o.locked && o.visible,
        }
    } else {
        OverlayGeometry {
            source: item.source,
            x: Single { bits: ZERO },
            y: Single { bits: ZERO },
            scale_x: Single { bits: ONE },
            scale_y: Single { bits: ONE },
            selectable: false,
        }
    }
}

/// The geometry of every overlay of the capture.
pub open spec fn geometries(items: Seq<OverlayItem>, list: Seq<OverlayView>) -> Seq<OverlayGeometry> {
    items.map(|i: int, item: OverlayItem| geometry_of(item, list, i))
}

/// The geometry of every overlay; nothing where there is no capture or no
/// configuration.
pub fn overlay_geometries(capture: &Option<CaptureState>, slot: &Option<EmberioConfig>) -> (r: Vec<
    OverlayGeometry,
>)
    ensures
        r@ == (match (*capture, *slot) {
            (Some(s), Some(c)) => geometries(s@.overlays, c@.overlays),
            _ => seq![],
        }),
{
    let mut list: Vec<OverlayGeometry> = Vec::new();
    match (capture, slot) {
        (Some(state), Some(config)) => {
            let mut i: usize = 0;
            let ghost all = geometries(state@.overlays, config@.overlays);
            while i < state.overlays.len()
                invariant
                    i <= state.overlays.len(),
                    all == geometries(state@.overlays, config@.overlays),
                    list@ =~= all.take(i as int),
                decreases state.overlays.len() - i,
            {
                let source: usize = state.overlays[i].source;
                let g = if i < config.overlays.len() {
                    let o = &config.overlays[i];
                    OverlayGeometry {
                        source,
                        x: o.x,
                        y: o.y,
                        scale_x: o.get_scale_x(),
                        scale_y: o.get_scale_y(),
                        selectable: state.overlays[i].made() && !o.locked && o.visible,
                    }
                } else {
                    OverlayGeometry {
                        source,
                        x: Single { bits: ZERO },
                        y: Single { bits: ZERO },
                        scale_x: Single { bits: ONE },
                        scale_y: Single { bits: ONE },
                        selectable: false,
                    }
                };
                assert(g == all[i as int]);
                list.push(g);
                i = i + 1;
            }
            assert(all.take(i as int) =~= all);
        },
        _ => {},
    }
    list
}

/// The right and the bottom edge of an overlay.
#[derive(Clone, Copy, PartialEq, Eq, Structural, Debug)]
pub struct FarEdges {
    pub right: Single,
    pub bottom: Single,
}

/// The overlay can be selected and covers the place, edges included.
pub open spec fn is_hit(g: OverlayGeometry, far: FarEdges, x: Single, y: Single) -> bool {
    &&& g.selectable
    &&& g.x.le_spec(x)
    &&& x.le_spec(far.right)
    &&& g.y.le_spec(y)
    &&& y.le_spec(far.bottom)
}

/// The front-most overlay that can be selected at a place of the canvas.
/// `far` holds the right and bottom edge of each overlay.
pub fn try_select_overlay(list: &Vec<OverlayGeometry>, far: &Vec<FarEdges>, x: Single, y: Single) -> (r:
    Option<usize>)
    requires
        list@.len() == far@.len(),
    ensures
        r matches Some(i) ==> i < list@.len() && is_hit(list@[i as int], far@[i as int], x, y) && (
        forall|k: int| 0 <= k < i ==> !is_hit(#[trigger] list@[k], far@[k], x, y)),
        r is None ==> forall|k: int|
            0 <= k < list@.len() ==> !is_hit(#[trigger] list@[k], far@[k], x, y),
{
    let mut i: usize = 0;
    while i < list.len()
        invariant
            i <= list.len(),
            list@.len() == far@.len(),
            forall|k: int| 0 <= k < i ==> !is_hit(#[trigger] list@[k], far@[k], x, y),
        decreases list.len() - i,
    {
        let g = list[i];
        if g.selectable && g.x.le(x) && x.le(far[i].right) && g.y.le(y) && y.le(far[i].bottom) {
            return Some(i);
        }
        i = i + 1;
    }
    None
}

/// The configuration has an overlay at `index`, and it stands in the scene.
pub open spec fn both_have(
    capture: Option<CaptureState>,
    slot: Option<EmberioConfig>,
    index: usize,
) -> bool {
    &&& live_overlay_spec(capture_view(capture), index) is Some
    &&& slot matches Some(c)
    &&& index < c@.overlays.len()
}

/// The geometry of the overlay at `index`, where it stands in the scene and the
/// configuration has it.
pub fn overlay_geometry(capture: &Option<CaptureState>, slot: &Option<EmberioConfig>, index: usize) -> (r:
    Option<OverlayGeometry>)
    ensures
        r == (if both_have(*capture, *slot, index) {
            Some(
                geometry_of(
                    (*capture)->0@.overlays[index as int],
                    (*slot)->0@.overlays,
                    index as int,
                ),
            )
        } else {
            None
        }),
{
    match (capture, slot) {
        (Some(state), Some(config)) => {
            if index < state.overlays.len() && state.overlays[index].made() && index
                < config.overlays.len() {
                let o = &config.overlays[index];
                Some(
                    OverlayGeometry {
                        source: state.overlays[index].source,
                        x: o.x,
                        y: o.y,
                        scale_x: o.get_scale_x(),
                        scale_y: o.get_scale_y(),
                        selectable: !o.locked && o.visible,
                    },
                )
            } else {
                None
            }
        },
        _ => None,
    }
}

/// Moves the dragged overlay to (x, y). Returns its place in the scene, to be
/// moved there too; nothing happens where it is not in the scene or not in
/// the configuration.
pub fn drag_selected_overlay(
    capture: &Option<CaptureState>,
    slot: &mut Option<EmberioConfig>,
    index: usize,
    x: Single,
    y: Single,
) -> (r: Option<usize>)
    ensures
        both_have(*capture, *old(slot), index) ==> {
            let was = in_force(*old(slot));
            &&& r == Some((*capture)->0@.overlays[index as int].item)
            &&& *final(slot) is Some
            &&& in_force(*final(slot)) == (ConfigView {
                overlays: was.overlays.update(
                    index as int,
                    OverlayView { x, y, ..was.overlays[index as int] },
                ),
                ..was
            })
        },
        !both_have(*capture, *old(slot), index) ==> r is None && *final(slot) == *old(slot),
{
    match capture {
        Some(state) => {
            if index < state.overlays.len() && state.overlays[index].made() {
                match slot.as_mut() {
                    Some(c) => {
                        if index < c.overlays.len() {
                            let ghost before = c.overlays@;
                            c.overlays[index].x = x;
                            c.overlays[index].y = y;
                            proof {
                                lemma_overlay_update(
                                    before,
                                    index as int,
                                    c.overlays@[index as int],
                                );
                                assert(c.overlays@ =~= before.update(
                                    index as int,
                                    c.overlays@[index as int],
                                ));
                            }
                            return Some(state.overlays[index].item);
                        }
                    },
                    None => {},
                }
            }
        },
        None => {},
    }
    None
}

/// Moves and scales the dragged overlay. Returns its place in the scene, to be
/// changed too; nothing happens where it is not in the scene or not in the
/// configuration.
pub fn resize_selected_overlay(
    capture: &Option<CaptureState>,
    slot: &mut Option<EmberioConfig>,
    index: usize,
    x: Single,
    y: Single,
    scale_x: Single,
    scale_y: Single,
) -> (r: Option<usize>)
    ensures
        both_have(*capture, *old(slot), index) ==> {
            let was = in_force(*old(slot));
            &&& r == Some((*capture)->0@.overlays[index as int].item)
            &&& *final(slot) is Some
            &&& in_force(*final(slot)) == (ConfigView {
                overlays: was.overlays.update(
                    index as int,
                    transformed(was.overlays[index as int], x, y, scale_x, scale_y),
                ),
                ..was
            })
        },
        !both_have(*capture, *old(slot), index) ==> r is None && *final(slot) == *old(slot),
{
    match capture {
        Some(state) => {
            if index < state.overlays.len() && state.overlays[index].made() {
                match slot.as_mut() {
                    Some(c) => {
                        if index < c.overlays.len() {
                            let ghost before = c.overlays@;
                            transform(&mut c.overlays[index], x, y, scale_x, scale_y);
                            proof {
                                lemma_overlay_update(
                                    before,
                                    index as int,
                                    c.overlays@[index as int],
                                );
                            }
                            return Some(state.overlays[index].item);
                        }
                    },
                    None => {},
                }
            }
        },
        None => {},
    }
    None
}

/// What an overlay shows, and how it is scaled, as a resize begins: 1.0 each
/// where nothing is known of it.
#[derive(Clone, Copy, PartialEq, Eq, Structural, Debug)]
pub struct SourceDims {
    pub width: Single,
    pub height: Single,
    pub scale_x: Single,
    pub scale_y: Single,
}

/// The dimensions known, or 1.0 each.
pub fn dims_or_unit(dims: Option<SourceDims>) -> (r: SourceDims)
    ensures
        r == (match dims {
            Some(d) => d,
            None => SourceDims {
                width: Single { bits: ONE },
                height: Single { bits: ONE },
                scale_x: Single { bits: ONE },
                scale_y: Single { bits: ONE },
            },
        }),
{
    match dims {
        Some(d) => d,
        None => SourceDims {
            width: Single { bits: ONE },
            height: Single { bits: ONE },
            scale_x: Single { bits: ONE },
            scale_y: Single { bits: ONE },
        },
    }
}

/// A drag has ended: the configuration that goes to disk, and the overlays as
/// the window is to show them.
pub fn finish_drag_overlay(slot: &mut Option<EmberioConfig>) -> (r: Saved<Vec<OverlayInfo>>)
    ensures
        answers(in_force(*old(slot)), *final(slot), r, in_force(*old(slot)).overlays),
{
    let c = config_mut(slot);
    answer(c)
}

// ---------------------------------------------------------------------------
// Laws

/// Each overlay of the capture with its entry of the configuration.
pub open spec fn paired(items: Seq<OverlayItem>, list: Seq<OverlayView>) -> Seq<
    (OverlayItem, OverlayView),
> {
    items.zip_with(list)
}

/// The two lists stay in step: whatever is added, removed or exchanged, every
/// overlay that was paired with an entry is paired with the same entry after.
pub proof fn the_lists_stay_in_step(
    items: Seq<OverlayItem>,
    list: Seq<OverlayView>,
    item: OverlayItem,
    o: OverlayView,
    index: usize,
    up: bool,
)
    requires
        items.len() == list.len(),
    ensures
        items.insert(0, item).len() == list.insert(0, o).len(),
        paired(items.insert(0, item), list.insert(0, o)) == paired(items, list).insert(0, (item, o)),
        without(items, index).len() == without(list, index).len(),
        paired(without(items, index), without(list, index)) == without(paired(items, list), index),
        has_neighbour(items.len(), index as int, up) ==> paired(
            exchanged(items, index as int, up),
            exchanged(list, index as int, up),
        ) == exchanged(paired(items, list), index as int, up),
{
    assert(paired(items.insert(0, item), list.insert(0, o)) =~= paired(items, list).insert(
        0,
        (item, o),
    ));
    assert(paired(without(items, index), without(list, index)) =~= without(
        paired(items, list),
        index,
    ));
    if has_neighbour(items.len(), index as int, up) {
        assert(paired(exchanged(items, index as int, up), exchanged(list, index as int, up))
            =~= exchanged(paired(items, list), index as int, up));
    }
}

/// While the lists are in step, the capture refuses an exchange exactly where
/// the configuration would leave the list alone.
pub proof fn lists_in_step_agree_on_the_ends(v: CaptureView, c: ConfigView, index: usize, up: bool)
    requires
        v.overlays.len() == c.overlays.len(),
        index < c.overlays.len(),
    ensures
        refuses(Some(v), index, up) <==> !has_neighbour(c.overlays.len(), index as int, up),
{
}

/// Moving an overlay to the front and back again restores the list.
pub proof fn moving_back_restores_the_order<A>(list: Seq<A>, index: int)
    requires
        has_neighbour(list.len(), index, true),
    ensures
        has_neighbour(list.len(), index - 1, false),
        exchanged(exchanged(list, index, true), index - 1, false) == list,
{
    assert(exchanged(exchanged(list, index, true), index - 1, false) =~= list);
}

/// Removing the overlay just added restores the list.
pub proof fn removal_undoes_addition<A>(list: Seq<A>, a: A)
    ensures
        without(list.insert(0, a), 0) == list,
{
    assert(list.insert(0, a).remove(0) =~= list);
}

/// What the engine has handed out for one overlay.
pub open spec fn owned_by_overlay(o: OverlayItem) -> Multiset<Owned> {
    owned_source(o.opacity_filter).add(owned_source(o.source))
}

proof fn lemma_owned_without(overlays: Seq<OverlayItem>, i: int)
    requires
        0 <= i < overlays.len(),
    ensures
        owned_overlays(overlays) == owned_overlays(overlays.remove(i)).add(
            owned_by_overlay(overlays[i]),
        ),
    decreases overlays.len(),
{
    let last = overlays.len() - 1;
    if i == last {
        assert(overlays.remove(i) =~= overlays.drop_last());
        assert(owned_overlays(overlays) =~= owned_overlays(overlays.remove(i)).add(
            owned_by_overlay(overlays[i]),
        ));
    } else {
        lemma_owned_without(overlays.drop_last(), i);
        assert(overlays.remove(i).drop_last() =~= overlays.drop_last().remove(i));
        assert(overlays.remove(i).last() == overlays.last());
        assert(owned_overlays(overlays) =~= owned_overlays(overlays.remove(i)).add(
            owned_by_overlay(overlays[i]),
        ));
    }
}

/// Taking an overlay off gives back everything made for it, each thing once,
/// and nothing else: what the capture owns, with what is given back, is what it
/// owned before.
pub proof fn a_removed_overlay_leaks_nothing(v: CaptureView, index: usize)
    requires
        index < v.overlays.len(),
    ensures
        owned_by(CaptureView { overlays: without(v.overlays, index), ..v }).add(
            given_back(removal_releases(v.overlays[index as int])),
        ) == owned_by(v),
{
    let o = v.overlays[index as int];
    let list = removal_releases(o);
    lemma_owned_without(v.overlays, index as int);
    crate::capture::lemma_removal_given_back(o.item, o.opacity_filter, o.source);
    assert(owned_by(CaptureView { overlays: without(v.overlays, index), ..v }).add(
        given_back(list),
    ) =~= owned_by(v));
}

/// A locked overlay cannot be grabbed, and neither can a hidden one.
pub proof fn locked_and_hidden_overlays_cannot_be_grabbed(
    item: OverlayItem,
    list: Seq<OverlayView>,
    i: int,
    far: FarEdges,
    x: Single,
    y: Single,
)
    requires
        0 <= i < list.len(),
        list[i].locked || !list[i].visible,
    ensures
        !is_hit(geometry_of(item, list, i), far, x, y),
{
}

/// The scale shown for an overlay that has been scaled is the scale it was
/// given, on both axes, unless the vertical scale is 1.0 and the horizontal
/// one is not: then the vertical axis follows the horizontal one.
pub proof fn scales_read_back(o: OverlayView, x: Single, y: Single, scale_x: Single, scale_y: Single)
    requires
        !(scale_y.bits == ONE && scale_x.bits != ONE),
    ensures
        ({
            let t = transformed(o, x, y, scale_x, scale_y);
            effective_scale(t.scale_x, t.scale) == scale_x && effective_scale(t.scale_y, t.scale)
                == scale_y
        }),
{
}

/// A scale that is set is between 0.1 and 5.0, and one that was there already is
/// stored as it came.
pub proof fn set_scales_stay_in_range(scale: Single)
    requires
        !scale.is_nan_spec(),
    ensures
        (Single { bits: TENTH }).le_spec(clamped_scale(scale)),
        clamped_scale(scale).le_spec(Single { bits: FIVE }),
        (Single { bits: TENTH }).le_spec(scale) && scale.le_spec(Single { bits: FIVE })
            ==> clamped_scale(scale) == scale,
{
    crate::single::lemma_range_bounds();
    crate::single::clamp_lands_between(scale, Single { bits: TENTH }, Single { bits: FIVE });
}

/// An overlay stands in the scene where it was left, and the window and the mouse
/// find it there: its place is its own on each axis, scene, window and mouse have
/// the same scale of each axis, and it is shown and locked as it says.
pub proof fn an_overlay_stands_where_it_was_left(
    o: OverlayView,
    item: OverlayItem,
    list: Seq<OverlayView>,
    i: usize,
)
    requires
        i < list.len(),
        list[i as int] == o,
    ensures
        ({
            let p = placement_of(o);
            let shown = info_of(i, o);
            let g = geometry_of(item, list, i as int);
            &&& p.x == o.x && shown.x == o.x && g.x == o.x
            &&& p.y == o.y && shown.y == o.y && g.y == o.y
            &&& p.scale_x == shown.scale_x && g.scale_x == shown.scale_x
            &&& p.scale_y == shown.scale_y && g.scale_y == shown.scale_y
            &&& p.visible == o.visible && shown.visible == o.visible
            &&& p.locked == o.locked && shown.locked == o.locked
            &&& g.source == item.source
        }),
{
}

/// The scale of each axis is that axis's own: changing the other one does not
/// change it. It is the stored one where that is not 1.0, or where the uniform
/// scale is 1.0; an axis left at 1.0 takes the uniform scale.
pub proof fn each_axis_has_its_own_scale(o: OverlayView, other: Single)
    ensures
        ({
            let p = placement_of(o);
            &&& placement_of(OverlayView { scale_y: other, ..o }).scale_x == p.scale_x
            &&& placement_of(OverlayView { scale_x: other, ..o }).scale_y == p.scale_y
            &&& o.scale_x.bits != ONE || o.scale.bits == ONE ==> p.scale_x == o.scale_x
            &&& o.scale_y.bits != ONE || o.scale.bits == ONE ==> p.scale_y == o.scale_y
            &&& o.scale_x.bits == ONE ==> p.scale_x == o.scale
            &&& o.scale_y.bits == ONE ==> p.scale_y == o.scale
        }),
{
}

/// An overlay dragged to a place is put there when the scene is built anew, with
/// everything else as it was.
pub proof fn a_dragged_overlay_is_put_where_it_was_dragged(o: OverlayView, x: Single, y: Single)
    ensures
        ({
            let p = placement_of(OverlayView { x, y, ..o });
            &&& p.x == x
            &&& p.y == y
            &&& p.scale_x == placement_of(o).scale_x
            &&& p.scale_y == placement_of(o).scale_y
            &&& p.visible == placement_of(o).visible
            &&& p.locked == placement_of(o).locked
        }),
{
}

/// A transform changes place and scale, axis by axis, and nothing else of the
/// overlay; the scene built anew has it there at the horizontal scale given, and
/// at the vertical one unless that is 1.0.
pub proof fn a_transform_changes_place_and_scale_alone(
    o: OverlayView,
    x: Single,
    y: Single,
    scale_x: Single,
    scale_y: Single,
)
    ensures
        ({
            let t = transformed(o, x, y, scale_x, scale_y);
            let p = placement_of(t);
            &&& t.x == x && t.y == y
            &&& t.scale_x == scale_x && t.scale_y == scale_y && t.scale == scale_x
            &&& t.kind == o.kind && t.content == o.content
            &&& t.visible == o.visible && t.locked == o.locked && t.opacity == o.opacity
            &&& p.x == x && p.y == y && p.scale_x == scale_x
            &&& scale_y.bits != ONE ==> p.scale_y == scale_y
        }),
{
}

/// The window shows each overlay of the list at its place, with its own content,
/// kind, opacity and state.
pub proof fn the_window_shows_every_overlay(list: Seq<OverlayView>, i: usize)
    requires
        i < list.len(),
    ensures
        infos_of(list).len() == list.len(),
        ({
            let shown = infos_of(list)[i as int];
            let o = list[i as int];
            &&& shown.index == i
            &&& shown.kind == kind_name(o.kind)
            &&& shown.content == o.content
            &&& shown.x == o.x && shown.y == o.y
            &&& shown.scale == o.scale
            &&& shown.visible == o.visible && shown.locked == o.locked
            &&& shown.opacity == o.opacity
        }),
{
}

/// Each kind has its own name and its own source: a picture is an "image", shown
/// by the image source, and so on.
pub proof fn each_kind_has_its_name(a: OverlayKind, b: OverlayKind)
    ensures
        kind_name(a) == kind_name(b) ==> a == b,
        a is Image ==> kind_name(a) == "image"@ && overlay_plugin_spec(a) == "image_source"@,
        a is Text ==> kind_name(a) == "text"@ && overlay_plugin_spec(a) == "text_ft2_source"@,
        a is Browser ==> kind_name(a) == "browser"@ && overlay_plugin_spec(a)
            == "browser_source"@,
{
    reveal_strlit("image");
    reveal_strlit("text");
    reveal_strlit("browser");
    assert("image"@.len() == 5 && "text"@.len() == 4 && "browser"@.len() == 7);
}

/// A new overlay can be seen and grabbed: it is shown at full size and opaque,
/// not locked, and stands at the same distance from both edges.
pub proof fn a_new_overlay_can_be_grabbed(kind: OverlayKind, content: Seq<char>, item: OverlayItem)
    requires
        is_made(item),
    ensures
        ({
            let o = fresh_overlay(kind, content);
            &&& geometry_of(item, seq![o], 0).selectable
            &&& o.kind == kind
            &&& o.content == content
            &&& o.x == o.y
            &&& o.x.units() == 100 * (Single { bits: ONE }).units()
            &&& placement_of(o).scale_x.bits == ONE
            &&& placement_of(o).scale_y.bits == ONE
            &&& placement_of(o).visible
            &&& !placement_of(o).locked
            &&& clamped_opacity(o.opacity) == o.opacity
            &&& o.opacity.bits == ONE
        }),
{
    crate::single::constants_are_what_they_say();
    crate::single::lemma_one_is_above_zero();
}

/// Changing one overlay leaves every other, and an index past the end leaves all.
pub proof fn changing_one_overlay_leaves_the_others(
    list: Seq<OverlayView>,
    index: usize,
    o: OverlayView,
    i: int,
)
    requires
        0 <= i < list.len(),
    ensures
        with_overlay(list, index, o).len() == list.len(),
        i == index ==> with_overlay(list, index, o)[i] == o,
        i != index ==> with_overlay(list, index, o)[i] == list[i],
        index >= list.len() ==> with_overlay(list, index, o) == list,
{
}

/// An overlay moved to the front takes the place before it, and the one that was
/// there takes its own; moved to the back it takes the place after it. The others
/// stay.
pub proof fn an_exchange_moves_one_place<A>(list: Seq<A>, index: int, up: bool, i: int)
    requires
        has_neighbour(list.len(), index, up),
        0 <= i < list.len(),
    ensures
        exchanged(list, index, up).len() == list.len(),
        up ==> exchanged(list, index, up)[index - 1] == list[index] && exchanged(list, index, up)[index]
            == list[index - 1],
        !up ==> exchanged(list, index, up)[index + 1] == list[index] && exchanged(
            list,
            index,
            up,
        )[index] == list[index + 1],
        i != index && i != (if up {
            index - 1
        } else {
            index + 1
        }) ==> exchanged(list, index, up)[i] == list[i],
{
}

/// Only the first overlay cannot go to the front, and only the last cannot go to
/// the back; without a capture nothing refuses.
pub proof fn only_the_ends_refuse(v: CaptureView, index: usize, up: bool)
    requires
        index < v.overlays.len(),
    ensures
        refuses(Some(v), index, true) <==> index == 0,
        refuses(Some(v), index, false) <==> index == v.overlays.len() - 1,
        !refuses(None, index, up),
        has_neighbour(v.overlays.len(), index as int, true) <==> index != 0,
        has_neighbour(v.overlays.len(), index as int, false) <==> index != v.overlays.len() - 1,
{
}

/// An overlay that is shown, unlocked and made is hit anywhere on it, edges
/// included, and nowhere beside it.
pub proof fn an_overlay_is_hit_where_it_is(
    item: OverlayItem,
    list: Seq<OverlayView>,
    i: int,
    far: FarEdges,
    x: Single,
    y: Single,
)
    requires
        0 <= i < list.len(),
    ensures
        ({
            let g = geometry_of(item, list, i);
            let o = list[i];
            &&& is_made(item) && o.visible && !o.locked && o.x.le_spec(x) && x.le_spec(far.right)
                && o.y.le_spec(y) && y.le_spec(far.bottom) ==> is_hit(g, far, x, y)
            &&& !is_made(item) ==> !is_hit(g, far, x, y)
            &&& x.lt_spec(o.x) || far.right.lt_spec(x) ==> !is_hit(g, far, x, y)
            &&& y.lt_spec(o.y) || far.bottom.lt_spec(y) ==> !is_hit(g, far, x, y)
        }),
{
}

/// An overlay of the capture that the configuration does not know cannot be hit.
pub proof fn an_unknown_overlay_is_not_hit(
    item: OverlayItem,
    list: Seq<OverlayView>,
    i: int,
    far: FarEdges,
    x: Single,
    y: Single,
)
    requires
        list.len() <= i,
    ensures
        !is_hit(geometry_of(item, list, i), far, x, y),
        geometry_of(item, list, i).source == item.source,
{
}

/// The overlay at each place of the capture is looked up with the entry at the
/// same place.
pub proof fn geometries_are_in_order(items: Seq<OverlayItem>, list: Seq<OverlayView>, i: int)
    requires
        0 <= i < items.len(),
    ensures
        geometries(items, list).len() == items.len(),
        geometries(items, list)[i].source == items[i].source,
        i < list.len() ==> geometries(items, list)[i].x == list[i].x && geometries(items, list)[i].y
            == list[i].y,
{
}

/// An overlay taken off leaves the scene before its filter and its source are
/// given back, and one that was not made gives back nothing.
pub proof fn an_overlay_leaves_the_scene_first(o: OverlayItem)
    ensures
        o.item != 0 ==> removal_releases(o).len() > 0 && removal_releases(o)[0]
            == Release::RemoveItem(o.item),
        o.source != 0 ==> removal_releases(o).len() > 0 && removal_releases(o).last()
            == Release::ReleaseSource(o.source),
        o.opacity_filter != 0 ==> removal_releases(o).contains(
            Release::ReleaseSource(o.opacity_filter),
        ),
        o == crate::capture::no_item() ==> removal_releases(o).len() == 0,
{
    if o.opacity_filter != 0 {
        let at: int = if o.item != 0 {
            1
        } else {
            0
        };
        assert(removal_releases(o)[at] == Release::ReleaseSource(o.opacity_filter));
    }
}

/// Taking an overlay off the capture takes off the one at that place, and nothing
/// but overlays changes.
pub proof fn the_right_overlay_leaves_the_capture(v: CaptureView, index: usize)
    requires
        index < v.overlays.len(),
    ensures
        overlay_at(Some(v), index) == Some(v.overlays[index as int]),
        capture_without(Some(v), index) == Some(
            CaptureView { overlays: v.overlays.remove(index as int), ..v },
        ),
        overlay_at(None, index) is None,
        capture_without(None, index) is None,
{
}

/// The answer of a change shows the very overlays that are in force and go to
/// disk.
pub proof fn the_answer_shows_what_is_stored(
    was: ConfigView,
    slot: Option<EmberioConfig>,
    r: Saved<Vec<OverlayInfo>>,
    list: Seq<OverlayView>,
)
    requires
        answers(was, slot, r, list),
    ensures
        slot is Some,
        in_force(slot).overlays == list,
        r.config@ == in_force(slot),
        in_force(slot).audio_sources == was.audio_sources,
        in_force(slot).hotkey == was.hotkey,
        in_force(slot).theme == was.theme,
        r.value@.len() == list.len(),
        forall|i: int|
            0 <= i < list.len() ==> (#[trigger] r.value@[i])@ == info_of(i as usize, list[i]),
{
    assert(info_views(r.value@).len() == r.value@.len());
    assert(infos_of(list).len() == list.len());
    assert forall|i: int| 0 <= i < list.len() implies (#[trigger] r.value@[i])@ == info_of(
        i as usize,
        list[i],
    ) by {
        assert(info_views(r.value@)[i] == infos_of(list)[i]);
    }
}

/// A change of the overlays of a capture always brings its order with it.
pub proof fn the_scene_follows_the_list(z_order: Option<Vec<usize>>, s: CaptureState)
    ensures
        orders(z_order, Some(s)) ==> z_order is Some && z_order->0@ == back_to_front(s@),
        orders(z_order, None) ==> z_order is None,
{
}

/// An overlay can be dragged exactly where it was made and the configuration has
/// it.
pub proof fn an_overlay_that_is_there_can_be_dragged(
    s: CaptureState,
    c: EmberioConfig,
    capture: Option<CaptureState>,
    slot: Option<EmberioConfig>,
    index: usize,
)
    ensures
        both_have(Some(s), Some(c), index) <==> index < s.overlays@.len() && index
            < c.overlays@.len() && s.overlays@[index as int].source != 0
            && s.overlays@[index as int].item != 0,
        !both_have(None, slot, index),
        !both_have(capture, None, index),
{
}

/// While the lists are in step every overlay of the list can be asked to change
/// places.
pub proof fn every_overlay_can_be_asked_to_move(
    v: CaptureView,
    c: ConfigView,
    index: usize,
    up: bool,
)
    requires
        overlays_in_step(Some(v), c),
        index < c.overlays.len() <= usize::MAX,
    ensures
        exchange_is_defined(Some(v), c, index, up),
        exchange_is_defined(None, c, index, up),
{
}

/// Each command changes one thing of one overlay, to what was asked for, the
/// opacity within its range; the rest of the overlay stays, and so does every
/// other overlay.
pub proof fn each_command_changes_one_thing_of_one_overlay(
    list: Seq<OverlayView>,
    index: usize,
    i: int,
    flag: bool,
    opacity: Single,
)
    requires
        0 <= i < list.len(),
    ensures
        with_locked(list, index, flag).len() == list.len(),
        with_visible(list, index, flag).len() == list.len(),
        with_opacity(list, index, opacity).len() == list.len(),
        i != index ==> with_locked(list, index, flag)[i] == list[i] && with_visible(
            list,
            index,
            flag,
        )[i] == list[i] && with_opacity(list, index, opacity)[i] == list[i],
        i == index ==> {
            let (a, b) = (list[i], with_locked(list, index, flag)[i]);
            &&& b.locked == flag
            &&& b.visible == a.visible && b.opacity == a.opacity && b.content == a.content
            &&& placement_of(b).x == a.x && placement_of(b).y == a.y
            &&& b.scale_x == a.scale_x && b.scale_y == a.scale_y && b.kind == a.kind
        },
        i == index ==> {
            let (a, b) = (list[i], with_visible(list, index, flag)[i]);
            &&& b.visible == flag
            &&& b.locked == a.locked && b.opacity == a.opacity && b.content == a.content
            &&& placement_of(b).x == a.x && placement_of(b).y == a.y
            &&& b.scale_x == a.scale_x && b.scale_y == a.scale_y && b.kind == a.kind
        },
        i == index ==> {
            let (a, b) = (list[i], with_opacity(list, index, opacity)[i]);
            &&& (Single { bits: ZERO }).le_spec(opacity) && opacity.le_spec(Single { bits: ONE })
                ==> b.opacity == opacity
            &&& b.locked == a.locked && b.visible == a.visible && b.content == a.content
            &&& placement_of(b).x == a.x && placement_of(b).y == a.y
            &&& b.scale_x == a.scale_x && b.scale_y == a.scale_y && b.kind == a.kind
        },
{
}

/// An overlay in the scene gets the very place and scales that are stored for it.
pub proof fn the_overlay_in_the_scene_gets_what_is_stored(
    v: CaptureView,
    list: Seq<OverlayView>,
    index: usize,
    x: Single,
    y: Single,
    scale_x: Single,
    scale_y: Single,
)
    requires
        index < list.len(),
        index < v.overlays.len(),
        is_made(v.overlays[index as int]),
    ensures
        ({
            let stored = with_transform(list, index, x, y, scale_x, scale_y)[index as int];
            &&& live_transform_of(Some(v), index, x, y, scale_x, scale_y) matches Some(live)
            &&& live.item == v.overlays[index as int].item
            &&& live.x == stored.x && live.y == stored.y
            &&& live.scale_x == stored.scale_x && live.scale_y == stored.scale_y
            &&& stored.x == x && stored.y == y
            &&& stored.scale_x == clamped_scale(scale_x)
            &&& stored.scale_y == clamped_scale(scale_y)
        }),
{
}

/// A scale below the range goes to its lower end and one above to its upper end,
/// and a larger one never becomes the smaller.
pub proof fn scales_keep_their_order(a: Single, b: Single)
    ensures
        a.lt_spec(Single { bits: TENTH }) ==> clamped_scale(a).bits == TENTH,
        (Single { bits: FIVE }).lt_spec(a) ==> clamped_scale(a).bits == FIVE,
        a.le_spec(b) ==> clamped_scale(a).le_spec(clamped_scale(b)),
{
    crate::single::lemma_range_bounds();
    crate::single::clamp_moves_to_the_nearer_end(
        a,
        b,
        Single { bits: TENTH },
        Single { bits: FIVE },
    );
}

} // verus!
