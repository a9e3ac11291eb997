//! The scene that is captured: what has been made for it, how it is put
//! together, and how everything is given back.
//!
//! The recording engine hands out opaque handles. Here a handle is a number,
//! and 0 is no handle.

use crate::audio::{
    audio_channel, audio_channel_spec, audio_plugin, audio_plugin_spec, MeterLevel,
    MAX_AUDIO_SOURCES,
};
use crate::config::{
    effective_scale, AudioSourceConfig, ConfigView, OverlayConfig, OverlayKind, OverlayView,
};
use crate::single::Single;
use crate::sources::{overlay_plugin, overlay_plugin_spec};
use crate::text::{joined, decimal, decimal_u64, same_text};
use vstd::multiset::Multiset;
use vstd::prelude::*;

verus! {

/// What has been made for one overlay.
#[derive(Clone, Copy, PartialEq, Eq, Structural, Debug)]
pub struct OverlayItem {
    pub source: usize,
    /// Its place in the scene.
    pub item: usize,
    /// The filter that makes it translucent, where there is one.
    pub opacity_filter: usize,
}

/// The place of an overlay that could not be made: no handles.
pub open spec fn no_item() -> OverlayItem {
    OverlayItem { source: 0, item: 0, opacity_filter: 0 }
}

/// The overlay has been made and stands in the scene.
pub open spec fn is_made(o: OverlayItem) -> bool {
    o.source != 0 && o.item != 0
}

impl OverlayItem {
    /// The place of an overlay that could not be made.
    pub fn absent() -> (r: Self)
        ensures
            r == no_item(),
    {
        OverlayItem { source: 0, item: 0, opacity_filter: 0 }
    }

    /// Tells whether the overlay has been made and stands in the scene.
    pub fn made(&self) -> (r: bool)
        ensures
            r == is_made(*self),
    {
        self.source != 0 && self.item != 0
    }
}

/// What has been made for the capture.
#[derive(Debug)]
pub struct CaptureState {
    pub scene: usize,
    pub capture_source: usize,
    /// The place of the captured picture in the scene.
    pub capture_item: usize,
    /// One source for each audio entry of the configuration, in its order; 0
    /// for one that could not be made.
    pub audio_sources: Vec<usize>,
    /// The level meter of each audio source, in the same order; 0 where there is
    /// none.
    pub audio_volmeters: Vec<usize>,
    /// One item for each overlay of the configuration, in its order; one without
    /// handles for an overlay that could not be made.
    pub overlays: Vec<OverlayItem>,
}

/// What a [`CaptureState`] holds.
#[verifier::ext_equal]
pub struct CaptureView {
    pub scene: usize,
    pub capture_source: usize,
    pub capture_item: usize,
    pub audio_sources: Seq<usize>,
    pub audio_volmeters: Seq<usize>,
    pub overlays: Seq<OverlayItem>,
}

impl View for CaptureState {
    type V = CaptureView;

    open spec fn view(&self) -> CaptureView {
        CaptureView {
            scene: self.scene,
            capture_source: self.capture_source,
            capture_item: self.capture_item,
            audio_sources: self.audio_sources@,
            audio_volmeters: self.audio_volmeters@,
            overlays: self.overlays@,
        }
    }
}

impl CaptureView {
    /// Every audio source has its entry in the list of level meters.
    pub open spec fn one_meter_each(self) -> bool {
        self.audio_volmeters.len() == self.audio_sources.len()
    }
}

/// What a slot for the capture holds.
pub open spec fn capture_view(slot: Option<CaptureState>) -> Option<CaptureView> {
    match slot {
        Some(s) => Some(s@),
        None => None,
    }
}

/// The capture has one overlay for each overlay of the configuration.
pub open spec fn overlays_in_step(capture: Option<CaptureView>, c: ConfigView) -> bool {
    capture matches Some(v) ==> v.overlays.len() == c.overlays.len()
}

/// The capture has one audio source, one meter entry and one level for each
/// audio entry of the configuration, and each level is of the meter in its place.
pub open spec fn audio_in_step(
    capture: Option<CaptureView>,
    levels: Seq<MeterLevel>,
    c: ConfigView,
) -> bool {
    capture matches Some(v) ==> {
        &&& v.audio_sources.len() == c.audio_sources.len()
        &&& v.one_meter_each()
        &&& levels.len() == c.audio_sources.len()
        &&& forall|i: int|
            0 <= i < levels.len() ==> (#[trigger] levels[i]).meter == v.audio_volmeters[i]
    }
}

/// A list without its element at `index`; an index past the end removes
/// nothing.
pub open spec fn without<A>(list: Seq<A>, index: usize) -> Seq<A> {
    if index < list.len() {
        list.remove(index as int)
    } else {
        list
    }
}

/// The overlay at `index` that stands in the scene.
pub open spec fn live_overlay_spec(capture: Option<CaptureView>, index: usize) -> Option<OverlayItem> {
    match capture {
        Some(v) => if index < v.overlays.len() && is_made(v.overlays[index as int]) {
            Some(v.overlays[index as int])
        } else {
            None
        },
        None => None,
    }
}

/// The overlay at `index` that stands in the scene.
pub fn live_overlay(capture: &Option<CaptureState>, index: usize) -> (r: Option<OverlayItem>)
    ensures
        r == live_overlay_spec(capture_view(*capture), index),
{
    match capture {
        Some(s) => if index < s.overlays.len() && s.overlays[index].made() {
            Some(s.overlays[index])
        } else {
            None
        },
        None => None,
    }
}

/// The audio source of the entry at `index`, where it has been made.
pub open spec fn live_audio_spec(capture: Option<CaptureView>, index: usize) -> Option<usize> {
    match capture {
        Some(v) => if index < v.audio_sources.len() && v.audio_sources[index as int] != 0 {
            Some(v.audio_sources[index as int])
        } else {
            None
        },
        None => None,
    }
}

/// The audio source of the entry at `index`, where it has been made.
pub fn live_audio_source(capture: &Option<CaptureState>, index: usize) -> (r: Option<usize>)
    ensures
        r == live_audio_spec(capture_view(*capture), index),
{
    match capture {
        Some(s) => if index < s.audio_sources.len() && s.audio_sources[index] != 0 {
            Some(s.audio_sources[index])
        } else {
            None
        },
        None => None,
    }
}

// ---------------------------------------------------------------------------
// Order in the scene

/// The places of overlays in the scene from back to front: the last overlay of
/// the list first. An overlay that could not be made has none.
pub open spec fn overlays_back_to_front(overlays: Seq<OverlayItem>) -> Seq<usize>
    decreases overlays.len(),
{
    if overlays.len() == 0 {
        seq![]
    } else {
        let behind = overlays_back_to_front(overlays.drop_first());
        if overlays[0].item != 0 {
            behind.push(overlays[0].item)
        } else {
            behind
        }
    }
}

/// The scene from back to front: the captured picture, then the overlays, the
/// last of the list first.
pub open spec fn back_to_front(v: CaptureView) -> Seq<usize> {
    (if v.capture_item != 0 {
        seq![v.capture_item]
    } else {
        seq![]
    }) + overlays_back_to_front(v.overlays)
}

/// The scene from back to front.
pub fn sync_scene_z_order(state: &CaptureState) -> (r: Vec<usize>)
    ensures
        r@ == back_to_front(state@),
{
    let mut items: Vec<usize> = Vec::new();
    if state.capture_item != 0 {
        items.push(state.capture_item);
    }
    let ghost base = items@;
    let mut i: usize = state.overlays.len();
    assert(state.overlays@.skip(i as int) =~= seq![]);
    assert(items@ =~= base + overlays_back_to_front(state.overlays@.skip(i as int)));
    while i > 0
        invariant
            i <= state.overlays.len(),
            items@ == base + overlays_back_to_front(state.overlays@.skip(i as int)),
        decreases i,
    {
        i = i - 1;
        let ghost rest = state.overlays@.skip(i as int);
        assert(rest.drop_first() =~= state.overlays@.skip(i + 1));
        if state.overlays[i].item != 0 {
            items.push(state.overlays[i].item);
        }
        assert(items@ =~= base + overlays_back_to_front(rest));
    }
    assert(state.overlays@.skip(0) =~= state.overlays@);
    items
}

// ---------------------------------------------------------------------------
// Giving back

/// One thing done to give something back to the engine.
#[derive(Clone, Copy, PartialEq, Eq, Structural, Debug)]
pub enum Release {
    /// An output channel shows nothing any more.
    ClearChannel(u32),
    /// A level meter no longer listens.
    DetachMeter(usize),
    DestroyMeter(usize),
    /// A place in the scene is given up.
    RemoveItem(usize),
    ReleaseSource(usize),
    ReleaseScene(usize),
}

/// The output channels, from 0 up to but not including `count`.
pub open spec fn clear_channels(count: nat) -> Seq<Release> {
    Seq::new(count, |i: int| Release::ClearChannel(i as u32))
}

/// Level meters are detached and destroyed one after the other.
pub open spec fn release_meters(meters: Seq<usize>) -> Seq<Release>
    decreases meters.len(),
{
    if meters.len() == 0 {
        seq![]
    } else {
        let before = release_meters(meters.drop_last());
        let m = meters.last();
        if m != 0 {
            before + seq![Release::DetachMeter(m), Release::DestroyMeter(m)]
        } else {
            before
        }
    }
}

/// What is done to give back one source, where there is one.
pub open spec fn release_source(source: usize) -> Seq<Release> {
    if source != 0 {
        seq![Release::ReleaseSource(source)]
    } else {
        seq![]
    }
}

/// Sources are released one after the other.
pub open spec fn release_sources(sources: Seq<usize>) -> Seq<Release>
    decreases sources.len(),
{
    if sources.len() == 0 {
        seq![]
    } else {
        release_sources(sources.drop_last()) + release_source(sources.last())
    }
}

/// Of each overlay the filter and the source, where there are any.
pub open spec fn release_overlays(overlays: Seq<OverlayItem>) -> Seq<Release>
    decreases overlays.len(),
{
    if overlays.len() == 0 {
        seq![]
    } else {
        let o = overlays.last();
        release_overlays(overlays.drop_last()) + release_source(o.opacity_filter)
            + release_source(o.source)
    }
}

/// Everything made for a capture, given back: the channels are cleared first,
/// and the scene goes last.
pub open spec fn release_all(v: CaptureView) -> Seq<Release> {
    clear_channels((MAX_AUDIO_SOURCES + 1) as nat) + release_meters(v.audio_volmeters)
        + seq![Release::ReleaseSource(v.capture_source)] + release_sources(v.audio_sources)
        + release_overlays(v.overlays) + seq![Release::ReleaseScene(v.scene)]
}

fn push_meters(out: &mut Vec<Release>, meters: &Vec<usize>)
    ensures
        final(out)@ == old(out)@ + release_meters(meters@),
{
    let mut i: usize = 0;
    assert(meters@.take(0) =~= seq![]);
    assert(out@ =~= out@ + release_meters(seq![]));
    while i < meters.len()
        invariant
            i <= meters.len(),
            out@ == old(out)@ + release_meters(meters@.take(i as int)),
        decreases meters.len() - i,
    {
        let ghost t = meters@.take(i + 1);
        assert(t.drop_last() =~= meters@.take(i as int));
        let m: usize = meters[i];
        if m != 0 {
            out.push(Release::DetachMeter(m));
            out.push(Release::DestroyMeter(m));
        }
        assert(out@ =~= old(out)@ + release_meters(t));
        i = i + 1;
    }
    assert(meters@.take(i as int) =~= meters@);
}

fn push_source(out: &mut Vec<Release>, source: usize)
    ensures
        final(out)@ == old(out)@ + release_source(source),
{
    if source != 0 {
        out.push(Release::ReleaseSource(source));
    }
    assert(out@ =~= old(out)@ + release_source(source));
}

fn push_sources(out: &mut Vec<Release>, sources: &Vec<usize>)
    ensures
        final(out)@ == old(out)@ + release_sources(sources@),
{
    let mut i: usize = 0;
    assert(sources@.take(0) =~= seq![]);
    assert(out@ =~= out@ + release_sources(seq![]));
    while i < sources.len()
        invariant
            i <= sources.len(),
            out@ == old(out)@ + release_sources(sources@.take(i as int)),
        decreases sources.len() - i,
    {
        let ghost t = sources@.take(i + 1);
        assert(t.drop_last() =~= sources@.take(i as int));
        push_source(out, sources[i]);
        assert(out@ =~= old(out)@ + release_sources(t));
        i = i + 1;
    }
    assert(sources@.take(i as int) =~= sources@);
}

/// What is done to give back an audio source and its meter: the meter first.
pub open spec fn release_live_audio(source: usize, meter: usize) -> Seq<Release> {
    release_meters(seq![meter]) + release_source(source)
}

/// Gives back an audio source and its meter, where there are any.
pub fn release_audio(source: usize, meter: usize) -> (r: Vec<Release>)
    ensures
        r@ == release_live_audio(source, meter),
{
    let mut out: Vec<Release> = Vec::new();
    let mut meters: Vec<usize> = Vec::new();
    meters.push(meter);
    push_meters(&mut out, &meters);
    push_source(&mut out, source);
    assert(meters@ =~= seq![meter]);
    assert(out@ =~= release_live_audio(source, meter));
    out
}

/// Gives back everything made for a capture.
pub fn release_capture_state(state: CaptureState) -> (r: Vec<Release>)
    ensures
        r@ == release_all(state@),
{
    let mut out: Vec<Release> = Vec::new();
    let mut channel: u32 = 0;
    while channel <= MAX_AUDIO_SOURCES as u32
        invariant
            channel <= MAX_AUDIO_SOURCES + 1,
            out@ == clear_channels(channel as nat),
        decreases MAX_AUDIO_SOURCES + 1 - channel,
    {
        out.push(Release::ClearChannel(channel));
        assert(out@ =~= clear_channels((channel + 1) as nat));
        channel = channel + 1;
    }
    push_meters(&mut out, &state.audio_volmeters);
    out.push(Release::ReleaseSource(state.capture_source));
    push_sources(&mut out, &state.audio_sources);
    let ghost base = out@;
    let mut i: usize = 0;
    assert(state.overlays@.take(0) =~= seq![]);
    assert(out@ =~= base + release_overlays(seq![]));
    while i < state.overlays.len()
        invariant
            i <= state.overlays.len(),
            out@ == base + release_overlays(state.overlays@.take(i as int)),
        decreases state.overlays.len() - i,
    {
        let ghost t = state.overlays@.take(i + 1);
        assert(t.drop_last() =~= state.overlays@.take(i as int));
        let o = state.overlays[i];
        push_source(&mut out, o.opacity_filter);
        push_source(&mut out, o.source);
        assert(out@ =~= base + release_overlays(t));
        i = i + 1;
    }
    assert(state.overlays@.take(i as int) =~= state.overlays@);
    out.push(Release::ReleaseScene(state.scene));
    assert(out@ =~= release_all(state@));
    out
}

// ---------------------------------------------------------------------------
// Putting the scene together

/// Why the scene could not be put together, and what has to be given back.
pub struct SetupFailure {
    pub message: String,
    pub releases: Vec<Release>,
}

/// A scene with nothing in it.
pub open spec fn bare(scene: usize) -> CaptureView {
    CaptureView {
        scene,
        capture_source: 0,
        capture_item: 0,
        audio_sources: seq![],
        audio_volmeters: seq![],
        overlays: seq![],
    }
}

/// The scene has been asked for.
pub fn scene_created(scene: usize) -> (r: Result<CaptureState, String>)
    ensures
        r is Ok <==> scene != 0,
        r matches Ok(s) ==> s@ == bare(scene),
        r matches Err(e) ==> e@ == "obs_scene_create devolvio null"@,
{
    if scene == 0 {
        return Err("obs_scene_create devolvio null".to_owned());
    }
    let state = CaptureState {
        scene,
        capture_source: 0,
        capture_item: 0,
        audio_sources: Vec::new(),
        audio_volmeters: Vec::new(),
        overlays: Vec::new(),
    };
    assert(state@ =~= bare(scene));
    Ok(state)
}

/// The message where the engine did not make a source.
pub open spec fn no_source(plugin: Seq<char>) -> Seq<char> {
    "obs_source_create('"@ + plugin + "') devolvio null"@
}

fn no_source_message(plugin: &str) -> (r: String)
    ensures
        r@ == no_source(plugin@),
{
    let mut message = joined("obs_source_create('", plugin);
    message.append("') devolvio null");
    message
}

/// The captured picture's source has been asked for. Without it the scene is
/// given back.
pub fn capture_created(state: &mut CaptureState, plugin: &str, source: usize) -> (r: Result<
    (),
    SetupFailure,
>)
    ensures
        r is Ok <==> source != 0,
        r is Ok ==> final(state)@ == (CaptureView { capture_source: source, ..old(state)@ }),
        r matches Err(f) ==> {
            &&& final(state)@ == old(state)@
            &&& f.message@ == no_source(plugin@)
            &&& f.releases@ == seq![Release::ReleaseScene(old(state)@.scene)]
        },
{
    if source == 0 {
        let mut releases: Vec<Release> = Vec::new();
        releases.push(Release::ReleaseScene(state.scene));
        return Err(SetupFailure { message: no_source_message(plugin), releases });
    }
    state.capture_source = source;
    Ok(())
}

/// The captured picture has been put into the scene.
pub fn capture_item_added(state: &mut CaptureState, item: usize)
    ensures
        final(state)@ == (CaptureView { capture_item: item, ..old(state)@ }),
{
    state.capture_item = item;
}

/// The name of the audio source at `index`.
pub fn audio_source_name(index: usize) -> (r: String)
    ensures
        r@ == "Audio Source "@ + decimal(index as int),
{
    joined("Audio Source ", decimal_u64(index as u64).as_str())
}

/// What is given back where an audio source cannot be made: the meters and the
/// audio sources made so far, the captured picture and the scene.
pub open spec fn roll_back(v: CaptureView) -> Seq<Release> {
    release_meters(v.audio_volmeters) + release_sources(v.audio_sources) + seq![
        Release::ReleaseSource(v.capture_source),
        Release::ReleaseScene(v.scene),
    ]
}

/// The source of the next audio entry has been asked for. It takes the output
/// channel returned; one beyond the last channel is not heard.
pub fn audio_source_created(state: &mut CaptureState, entry: &AudioSourceConfig, source: usize) -> (r:
    Result<Option<u32>, SetupFailure>)
    requires
        old(state)@.audio_sources.len() < usize::MAX,
    ensures
        r is Ok <==> source != 0,
        r matches Ok(channel) ==> {
            &&& final(state)@ == (CaptureView {
                audio_sources: old(state)@.audio_sources.push(source),
                ..old(state)@
            })
            &&& channel == audio_channel_spec(old(state)@.audio_sources.len() as usize)
        },
        r matches Err(f) ==> {
            &&& final(state)@ == old(state)@
            &&& f.message@ == no_source(audio_plugin_spec(entry.kind)) + " para '"@ + entry.label@
                + "'"@
            &&& f.releases@ == roll_back(old(state)@)
        },
{
    if source == 0 {
        let mut message = no_source_message(audio_plugin(entry.kind));
        message.append(" para '");
        message.append(entry.label.as_str());
        message.append("'");
        let mut releases: Vec<Release> = Vec::new();
        push_meters(&mut releases, &state.audio_volmeters);
        push_sources(&mut releases, &state.audio_sources);
        releases.push(Release::ReleaseSource(state.capture_source));
        releases.push(Release::ReleaseScene(state.scene));
        assert(releases@ =~= roll_back(state@));
        return Err(SetupFailure { message, releases });
    }
    let channel = audio_channel(state.audio_sources.len());
    state.audio_sources.push(source);
    Ok(channel)
}

/// What became of a level meter that was asked for.
#[derive(Clone, Copy, PartialEq, Eq, Structural, Debug)]
pub struct MeterMade {
    /// The meter that is kept; 0 where there is none.
    pub kept: usize,
    /// A meter that could not be put on its source, to be given back.
    pub unused: Option<usize>,
}

/// A meter is kept where it could be put on its source; one that could not is
/// given back.
pub open spec fn meter_made_spec(meter: usize, attached: bool) -> MeterMade {
    if attached {
        MeterMade { kept: meter, unused: None }
    } else if meter != 0 {
        MeterMade { kept: 0, unused: Some(meter) }
    } else {
        MeterMade { kept: 0, unused: None }
    }
}

/// A level meter has been asked for, and has been put on its source where it
/// could be.
pub fn meter_made(meter: usize, attached: bool) -> (r: MeterMade)
    ensures
        r == meter_made_spec(meter, attached),
{
    if attached {
        MeterMade { kept: meter, unused: None }
    } else if meter != 0 {
        MeterMade { kept: 0, unused: Some(meter) }
    } else {
        MeterMade { kept: 0, unused: None }
    }
}

/// The level meter of an audio source has been asked for, and has been put on
/// the source where it could be. One that could not is given back: it is
/// returned.
pub fn meter_created(state: &mut CaptureState, meter: usize, attached: bool) -> (r: Option<usize>)
    ensures
        final(state)@ == (CaptureView {
            audio_volmeters: old(state)@.audio_volmeters.push(
                meter_made_spec(meter, attached).kept,
            ),
            ..old(state)@
        }),
        r == meter_made_spec(meter, attached).unused,
        old(state)@.audio_volmeters.len() + 1 == old(state)@.audio_sources.len()
            ==> final(state)@.one_meter_each(),
{
    let made = meter_made(meter, attached);
    state.audio_volmeters.push(made.kept);
    made.unused
}

/// An overlay of the configuration has been made, or has failed: then it keeps
/// its place without handles, and the message is returned for the log.
pub fn overlay_loaded(state: &mut CaptureState, made: Result<OverlayItem, String>) -> (r: Option<
    String,
>)
    ensures
        r is None <==> made is Ok,
        made matches Ok(item) ==> final(state)@ == (CaptureView {
            overlays: old(state)@.overlays.push(item),
            ..old(state)@
        }),
        made matches Err(e) ==> final(state)@ == (CaptureView {
            overlays: old(state)@.overlays.push(no_item()),
            ..old(state)@
        }) && r->0@ == "No se pudo cargar overlay persistido: "@ + e@,
{
    match made {
        Ok(item) => {
            state.overlays.push(item);
            None
        },
        Err(e) => {
            state.overlays.push(OverlayItem::absent());
            Some(joined("No se pudo cargar overlay persistido: ", e.as_str()))
        },
    }
}

// ---------------------------------------------------------------------------
// Making one overlay

/// How an overlay stands in the scene.
#[derive(Clone, Copy, PartialEq, Eq, Structural, Debug)]
pub struct Placement {
    pub x: Single,
    pub y: Single,
    pub scale_x: Single,
    pub scale_y: Single,
    pub visible: bool,
    pub locked: bool,
}

/// How an overlay stands in the scene.
pub open spec fn placement_of(o: OverlayView) -> Placement {
    Placement {
        x: o.x,
        y: o.y,
        scale_x: effective_scale(o.scale_x, o.scale),
        scale_y: effective_scale(o.scale_y, o.scale),
        visible: o.visible,
        locked: o.locked,
    }
}

/// How an overlay stands in the scene.
pub fn overlay_placement(cfg: &OverlayConfig) -> (r: Placement)
    ensures
        r == placement_of(cfg@),
{
    Placement {
        x: cfg.x,
        y: cfg.y,
        scale_x: cfg.get_scale_x(),
        scale_y: cfg.get_scale_y(),
        visible: cfg.visible,
        locked: cfg.locked,
    }
}

/// The source of an overlay has been asked for.
pub fn overlay_source_created(kind: OverlayKind, source: usize) -> (r: Result<(), String>)
    ensures
        r is Ok <==> source != 0,
        r matches Err(e) ==> e@ == no_source(overlay_plugin_spec(kind)),
{
    if source == 0 {
        Err(no_source_message(overlay_plugin(kind)))
    } else {
        Ok(())
    }
}

/// The source of an overlay has been put into the scene. Without a place there
/// the source is given back.
pub fn overlay_item_added(source: usize, item: usize) -> (r: Result<(), SetupFailure>)
    ensures
        r is Ok <==> item != 0,
        r matches Err(f) ==> f.message@ == "obs_scene_add devolvio null para el overlay"@
            && f.releases@ == seq![Release::ReleaseSource(source)],
{
    if item == 0 {
        let mut releases: Vec<Release> = Vec::new();
        releases.push(Release::ReleaseSource(source));
        return Err(
            SetupFailure {
                message: "obs_scene_add devolvio null para el overlay".to_owned(),
                releases,
            },
        );
    }
    Ok(())
}

// ---------------------------------------------------------------------------
// Changing what is captured

/// What a choice of another picture asks for.
#[derive(Clone, Copy, PartialEq, Eq, Structural, Debug)]
pub enum SourceChange {
    /// Nothing is captured yet: the choice is taken up by the next start.
    Later,
    /// The source is of the right type: it is given new settings.
    Update(usize),
    /// A source of another type takes its place in the scene.
    Replace(usize),
}

/// How another picture is captured, by a source of type `plugin` where there is
/// one of type `current`.
pub open spec fn source_change(
    capture: Option<CaptureView>,
    current: Seq<char>,
    plugin: Seq<char>,
) -> SourceChange {
    match capture {
        None => SourceChange::Later,
        Some(v) => if current == plugin {
            SourceChange::Update(v.capture_source)
        } else {
            SourceChange::Replace(v.scene)
        },
    }
}

/// Decides how another picture is captured. `current` is the type of the
/// source there is.
pub fn plan_source_change(state: &Option<CaptureState>, current: &str, plugin: &str) -> (r:
    SourceChange)
    ensures
        r == (match *state {
            None => SourceChange::Later,
            Some(s) => if current@ == plugin@ {
                SourceChange::Update(s@.capture_source)
            } else {
                SourceChange::Replace(s@.scene)
            },
        }),
        r == source_change(capture_view(*state), current@, plugin@),
{
    match state {
        None => SourceChange::Later,
        Some(s) => if same_text(current, plugin) {
            SourceChange::Update(s.capture_source)
        } else {
            SourceChange::Replace(s.scene)
        },
    }
}

/// The name of a source that takes the place of another.
pub fn replacement_name(plugin: &str) -> (r: String)
    ensures
        r@ == "Captura Principal ("@ + plugin@ + ")"@,
{
    let mut name = joined("Captura Principal (", plugin);
    name.append(")");
    name
}

/// The source that takes the place of another has been asked for.
pub fn replacement_created(source: usize) -> (r: Result<(), String>)
    ensures
        r is Ok <==> source != 0,
        r matches Err(e) ==> e@ == "Error al crear la nueva fuente de captura"@,
{
    if source == 0 {
        Err("Error al crear la nueva fuente de captura".to_owned())
    } else {
        Ok(())
    }
}

/// It has been put into the scene. Without a place there it is given back.
pub fn replacement_added(source: usize, item: usize) -> (r: Result<(), SetupFailure>)
    ensures
        r is Ok <==> item != 0,
        r matches Err(f) ==> f.message@ == "Error al agregar la nueva fuente a la escena"@
            && f.releases@ == seq![Release::ReleaseSource(source)],
{
    if item == 0 {
        let mut releases: Vec<Release> = Vec::new();
        releases.push(Release::ReleaseSource(source));
        return Err(
            SetupFailure {
                message: "Error al agregar la nueva fuente a la escena".to_owned(),
                releases,
            },
        );
    }
    Ok(())
}

/// A source has taken the place of another.
pub struct Replacement {
    /// The new order of the scene, from back to front.
    pub z_order: Option<Vec<usize>>,
    pub releases: Vec<Release>,
}

/// What is given back: the place and the source that are no longer shown. A
/// missing place needs no giving back.
pub open spec fn give_back(item: usize, source: usize) -> Seq<Release> {
    if item != 0 {
        seq![Release::RemoveItem(item), Release::ReleaseSource(source)]
    } else {
        seq![Release::ReleaseSource(source)]
    }
}

/// Shows the new source in place of the old one, which is given back. Where
/// the capture has been taken down in the meantime, the new one is.
pub fn replace_capture(slot: &mut Option<CaptureState>, source: usize, item: usize) -> (r:
    Replacement)
    ensures
        match *old(slot) {
            Some(s) => {
                let v = CaptureView { capture_source: source, capture_item: item, ..s@ };
                &&& capture_view(*final(slot)) == Some(v)
                &&& r.z_order is Some
                &&& r.z_order->0@ == back_to_front(v)
                &&& r.releases@ == give_back(s@.capture_item, s@.capture_source)
            },
            None => {
                &&& *final(slot) is None
                &&& r.z_order is None
                &&& r.releases@ == seq![
                    Release::RemoveItem(item),
                    Release::ReleaseSource(source),
                ]
            },
        },
{
    let mut releases: Vec<Release> = Vec::new();
    match slot.as_mut() {
        Some(state) => {
            if state.capture_item != 0 {
                releases.push(Release::RemoveItem(state.capture_item));
            }
            releases.push(Release::ReleaseSource(state.capture_source));
            state.capture_source = source;
            state.capture_item = item;
            let order = sync_scene_z_order(state);
            Replacement { z_order: Some(order), releases }
        },
        None => {
            releases.push(Release::RemoveItem(item));
            releases.push(Release::ReleaseSource(source));
            Replacement { z_order: None, releases }
        },
    }
}

// ---------------------------------------------------------------------------
// Laws

/// Something that the engine has handed out and wants back.
pub enum Owned {
    Meter(usize),
    Source(usize),
    Scene(usize),
}

/// What one thing done gives back.
pub open spec fn gives_back(r: Release) -> Multiset<Owned> {
    match r {
        Release::DestroyMeter(m) => Multiset::singleton(Owned::Meter(m)),
        Release::ReleaseSource(s) => Multiset::singleton(Owned::Source(s)),
        Release::ReleaseScene(s) => Multiset::singleton(Owned::Scene(s)),
        _ => Multiset::empty(),
    }
}

/// What a list of things done gives back, each as often as it is given.
pub open spec fn given_back(list: Seq<Release>) -> Multiset<Owned>
    decreases list.len(),
{
    if list.len() == 0 {
        Multiset::empty()
    } else {
        given_back(list.drop_last()).add(gives_back(list.last()))
    }
}

/// The meters among these handles.
pub open spec fn owned_meters(meters: Seq<usize>) -> Multiset<Owned>
    decreases meters.len(),
{
    if meters.len() == 0 {
        Multiset::empty()
    } else {
        owned_meters(meters.drop_last()).add(
            if meters.last() != 0 {
                Multiset::singleton(Owned::Meter(meters.last()))
            } else {
                Multiset::empty()
            },
        )
    }
}

/// One source, where there is one.
pub open spec fn owned_source(source: usize) -> Multiset<Owned> {
    if source != 0 {
        Multiset::singleton(Owned::Source(source))
    } else {
        Multiset::empty()
    }
}

/// These sources.
pub open spec fn owned_sources(sources: Seq<usize>) -> Multiset<Owned>
    decreases sources.len(),
{
    if sources.len() == 0 {
        Multiset::empty()
    } else {
        owned_sources(sources.drop_last()).add(owned_source(sources.last()))
    }
}

/// The sources of these overlays, and their filters.
pub open spec fn owned_overlays(overlays: Seq<OverlayItem>) -> Multiset<Owned>
    decreases overlays.len(),
{
    if overlays.len() == 0 {
        Multiset::empty()
    } else {
        let o = overlays.last();
        owned_overlays(overlays.drop_last()).add(owned_source(o.opacity_filter)).add(
            owned_source(o.source),
        )
    }
}

/// Everything that a capture has been handed out.
pub open spec fn owned_by(v: CaptureView) -> Multiset<Owned> {
    owned_meters(v.audio_volmeters).add(owned_sources(v.audio_sources)).add(
        owned_overlays(v.overlays),
    ).add(Multiset::singleton(Owned::Source(v.capture_source))).add(
        Multiset::singleton(Owned::Scene(v.scene)),
    )
}

proof fn lemma_given_back_concat(a: Seq<Release>, b: Seq<Release>)
    ensures
        given_back(a + b) == given_back(a).add(given_back(b)),
    decreases b.len(),
{
    if b.len() == 0 {
        assert(a + b =~= a);
        assert(given_back(a + b) =~= given_back(a).add(given_back(b)));
    } else {
        lemma_given_back_concat(a, b.drop_last());
        assert((a + b).drop_last() =~= a + b.drop_last());
        assert((a + b).last() == b.last());
        assert(given_back(a + b) =~= given_back(a).add(given_back(b)));
    }
}

proof fn lemma_meters_given_back(meters: Seq<usize>)
    ensures
        given_back(release_meters(meters)) == owned_meters(meters),
    decreases meters.len(),
{
    if meters.len() > 0 {
        let m = meters.last();
        lemma_meters_given_back(meters.drop_last());
        if m != 0 {
            let two = seq![Release::DetachMeter(m), Release::DestroyMeter(m)];
            lemma_given_back_concat(release_meters(meters.drop_last()), two);
            lemma_pair_given_back(Release::DetachMeter(m), Release::DestroyMeter(m));
            assert(given_back(release_meters(meters)) =~= owned_meters(meters));
        } else {
            assert(given_back(release_meters(meters)) =~= owned_meters(meters));
        }
    }
}

proof fn lemma_one_given_back(a: Release)
    ensures
        given_back(seq![a]) == gives_back(a),
{
    assert(seq![a].drop_last() =~= seq![]);
    assert(given_back(seq![a].drop_last()) =~= Multiset::empty());
    assert(given_back(seq![a]) =~= gives_back(a));
}

proof fn lemma_pair_given_back(a: Release, b: Release)
    ensures
        given_back(seq![a, b]) == gives_back(a).add(gives_back(b)),
{
    lemma_one_given_back(a);
    assert(seq![a, b].drop_last() =~= seq![a]);
    assert(given_back(seq![a, b]) =~= gives_back(a).add(gives_back(b)));
}

proof fn lemma_source_given_back(source: usize)
    ensures
        given_back(release_source(source)) == owned_source(source),
{
    if source != 0 {
        lemma_one_given_back(Release::ReleaseSource(source));
    }
    assert(given_back(release_source(source)) =~= owned_source(source));
}

proof fn lemma_sources_given_back(sources: Seq<usize>)
    ensures
        given_back(release_sources(sources)) == owned_sources(sources),
    decreases sources.len(),
{
    if sources.len() > 0 {
        lemma_sources_given_back(sources.drop_last());
        lemma_source_given_back(sources.last());
        lemma_given_back_concat(
            release_sources(sources.drop_last()),
            release_source(sources.last()),
        );
    }
}

proof fn lemma_overlays_given_back(overlays: Seq<OverlayItem>)
    ensures
        given_back(release_overlays(overlays)) == owned_overlays(overlays),
    decreases overlays.len(),
{
    if overlays.len() > 0 {
        let o = overlays.last();
        let before = release_overlays(overlays.drop_last());
        lemma_overlays_given_back(overlays.drop_last());
        lemma_source_given_back(o.opacity_filter);
        lemma_source_given_back(o.source);
        lemma_given_back_concat(before, release_source(o.opacity_filter));
        lemma_given_back_concat(
            before + release_source(o.opacity_filter),
            release_source(o.source),
        );
    }
}

/// Giving up a place in the scene, a filter and a source gives back the two
/// sources, where they are there.
pub(crate) proof fn lemma_removal_given_back(item: usize, filter: usize, source: usize)
    ensures
        given_back(
            (if item != 0 {
                seq![Release::RemoveItem(item)]
            } else {
                seq![]
            }) + release_source(filter) + release_source(source),
        ) == owned_source(filter).add(owned_source(source)),
{
    let place = if item != 0 {
        seq![Release::RemoveItem(item)]
    } else {
        seq![]
    };
    if item != 0 {
        lemma_one_given_back(Release::RemoveItem(item));
    }
    assert(given_back(place) =~= Multiset::empty());
    lemma_source_given_back(filter);
    lemma_source_given_back(source);
    lemma_given_back_concat(place, release_source(filter));
    lemma_given_back_concat(place + release_source(filter), release_source(source));
    assert(given_back(place + release_source(filter) + release_source(source)) =~= owned_source(
        filter,
    ).add(owned_source(source)));
}

/// Giving back an audio source and its meter gives back these two, each once,
/// where they are there.
pub proof fn live_audio_is_given_back(source: usize, meter: usize)
    ensures
        given_back(release_live_audio(source, meter)) == owned_meters(seq![meter]).add(
            owned_source(source),
        ),
{
    lemma_meters_given_back(seq![meter]);
    lemma_source_given_back(source);
    lemma_given_back_concat(release_meters(seq![meter]), release_source(source));
}

proof fn lemma_channels_give_nothing_back(count: nat)
    ensures
        given_back(clear_channels(count)) == Multiset::<Owned>::empty(),
    decreases count,
{
    if count > 0 {
        lemma_channels_give_nothing_back((count - 1) as nat);
        assert(clear_channels(count).drop_last() =~= clear_channels((count - 1) as nat));
        assert(given_back(clear_channels(count)) =~= Multiset::empty());
    }
}

/// Taking a capture down gives back everything it was handed out, each thing
/// once, and nothing else.
pub proof fn a_released_capture_leaks_nothing(v: CaptureView)
    ensures
        given_back(release_all(v)) == owned_by(v),
{
    let channels = clear_channels((MAX_AUDIO_SOURCES + 1) as nat);
    let meters = release_meters(v.audio_volmeters);
    let capture = seq![Release::ReleaseSource(v.capture_source)];
    let sources = release_sources(v.audio_sources);
    let overlays = release_overlays(v.overlays);
    let scene = seq![Release::ReleaseScene(v.scene)];
    lemma_channels_give_nothing_back((MAX_AUDIO_SOURCES + 1) as nat);
    lemma_meters_given_back(v.audio_volmeters);
    lemma_one_given_back(Release::ReleaseSource(v.capture_source));
    lemma_sources_given_back(v.audio_sources);
    lemma_overlays_given_back(v.overlays);
    lemma_one_given_back(Release::ReleaseScene(v.scene));
    lemma_given_back_concat(channels, meters);
    lemma_given_back_concat(channels + meters, capture);
    lemma_given_back_concat(channels + meters + capture, sources);
    lemma_given_back_concat(channels + meters + capture + sources, overlays);
    lemma_given_back_concat(channels + meters + capture + sources + overlays, scene);
    assert(given_back(release_all(v)) =~= owned_by(v));
}

/// A scene that cannot be completed gives back everything made for it so far,
/// each thing once: audio sources fail before the first overlay is made.
pub proof fn a_failed_setup_leaks_nothing(v: CaptureView)
    requires
        v.overlays.len() == 0,
    ensures
        given_back(roll_back(v)) == owned_by(v),
{
    let meters = release_meters(v.audio_volmeters);
    let sources = release_sources(v.audio_sources);
    let rest = seq![Release::ReleaseSource(v.capture_source), Release::ReleaseScene(v.scene)];
    lemma_meters_given_back(v.audio_volmeters);
    lemma_sources_given_back(v.audio_sources);
    lemma_pair_given_back(
        Release::ReleaseSource(v.capture_source),
        Release::ReleaseScene(v.scene),
    );
    lemma_given_back_concat(meters, sources);
    lemma_given_back_concat(meters + sources, rest);
    assert(owned_overlays(v.overlays) =~= Multiset::empty());
    assert(given_back(roll_back(v)) =~= owned_by(v));
}

/// Replacing the captured picture keeps the count: what the capture owns, with
/// what is given back, is what it owned before, with the new source.
pub proof fn a_replacement_leaks_nothing(v: CaptureView, source: usize, item: usize)
    ensures
        owned_by(CaptureView { capture_source: source, capture_item: item, ..v }).add(
            given_back(give_back(v.capture_item, v.capture_source)),
        ) == owned_by(v).add(Multiset::singleton(Owned::Source(source))),
{
    if v.capture_item != 0 {
        lemma_pair_given_back(
            Release::RemoveItem(v.capture_item),
            Release::ReleaseSource(v.capture_source),
        );
    } else {
        lemma_one_given_back(Release::ReleaseSource(v.capture_source));
    }
    assert(owned_by(CaptureView { capture_source: source, capture_item: item, ..v }).add(
        given_back(give_back(v.capture_item, v.capture_source)),
    ) =~= owned_by(v).add(Multiset::singleton(Owned::Source(source))));
}

/// The captured picture is behind every overlay; each overlay stands right in
/// front of those that come after it in the list; and so the first, where it
/// was made, is in front of everything.
pub proof fn the_picture_is_behind_and_the_first_overlay_in_front(v: CaptureView, i: int)
    requires
        0 <= i < v.overlays.len(),
    ensures
        v.capture_item != 0 ==> back_to_front(v)[0] == v.capture_item,
        ({
            let behind = CaptureView { overlays: v.overlays.skip(i + 1), ..v };
            let upto = CaptureView { overlays: v.overlays.skip(i), ..v };
            &&& back_to_front(upto).is_prefix_of(back_to_front(v))
            &&& v.overlays[i].item != 0 ==> back_to_front(upto) == back_to_front(behind).push(
                v.overlays[i].item,
            )
            &&& v.overlays[i].item == 0 ==> back_to_front(upto) == back_to_front(behind)
        }),
        v.overlays[0].item != 0 ==> back_to_front(v).last() == v.overlays[0].item,
{
    lemma_behind_is_prefix(v.overlays, i);
    let behind = CaptureView { overlays: v.overlays.skip(i + 1), ..v };
    let upto = CaptureView { overlays: v.overlays.skip(i), ..v };
    assert(v.overlays.skip(i).drop_first() =~= v.overlays.skip(i + 1));
    assert(v.overlays.skip(i)[0] == v.overlays[i]);
    if v.overlays[i].item != 0 {
        assert(back_to_front(upto) =~= back_to_front(behind).push(v.overlays[i].item));
    } else {
        assert(back_to_front(upto) =~= back_to_front(behind));
    }
}

proof fn lemma_behind_is_prefix(overlays: Seq<OverlayItem>, i: int)
    requires
        0 <= i <= overlays.len(),
    ensures
        overlays_back_to_front(overlays.skip(i)).is_prefix_of(overlays_back_to_front(overlays)),
    decreases i,
{
    if i == 0 {
        assert(overlays.skip(0) =~= overlays);
    } else {
        lemma_behind_is_prefix(overlays.drop_first(), i - 1);
        assert(overlays.drop_first().skip(i - 1) =~= overlays.skip(i));
    }
}

/// Taking a capture down silences every channel first, that of the picture and
/// each that an audio source can have, and gives the scene back last.
pub proof fn a_capture_is_silenced_first(v: CaptureView, i: usize, k: int)
    ensures
        0 <= k < 6 ==> release_all(v)[k] == Release::ClearChannel(k as u32),
        audio_channel_spec(i) matches Some(channel) ==> release_all(v).take(6).contains(
            Release::ClearChannel(channel),
        ),
        release_all(v).last() == Release::ReleaseScene(v.scene),
{
    if audio_channel_spec(i) is Some {
        assert(release_all(v).take(6)[i + 1] == Release::ClearChannel((i + 1) as u32));
    }
}

/// A meter is taken off its source right before it is destroyed, and a source
/// without a meter needs neither.
pub proof fn a_meter_is_detached_before_it_is_destroyed(meters: Seq<usize>, m: usize)
    ensures
        m != 0 ==> release_meters(meters.push(m)) == release_meters(meters).push(
            Release::DetachMeter(m),
        ).push(Release::DestroyMeter(m)),
        release_meters(meters.push(0)) == release_meters(meters),
        release_meters(seq![]).len() == 0,
{
    assert(meters.push(m).drop_last() =~= meters);
    assert(meters.push(0).drop_last() =~= meters);
    if m != 0 {
        assert(release_meters(meters.push(m)) =~= release_meters(meters).push(
            Release::DetachMeter(m),
        ).push(Release::DestroyMeter(m)));
    }
}

/// Sources are given back in their order, each once where there is one.
pub proof fn sources_are_given_back_in_order(sources: Seq<usize>, s: usize)
    ensures
        s != 0 ==> release_sources(sources.push(s)) == release_sources(sources).push(
            Release::ReleaseSource(s),
        ),
        release_sources(sources.push(0)) == release_sources(sources),
{
    assert(sources.push(s).drop_last() =~= sources);
    assert(sources.push(0).drop_last() =~= sources);
    assert(release_sources(sources.push(0)) =~= release_sources(sources));
    if s != 0 {
        assert(release_sources(sources.push(s)) =~= release_sources(sources).push(
            Release::ReleaseSource(s),
        ));
    }
}

/// The meter of an audio source is given back before the source.
pub proof fn the_meter_goes_before_its_source(source: usize, meter: usize)
    requires
        source != 0,
        meter != 0,
    ensures
        release_live_audio(source, meter) == seq![
            Release::DetachMeter(meter),
            Release::DestroyMeter(meter),
            Release::ReleaseSource(source),
        ],
{
    reveal_with_fuel(release_meters, 2);
    assert(seq![meter].drop_last() =~= seq![]);
    assert(release_live_audio(source, meter) =~= seq![
        Release::DetachMeter(meter),
        Release::DestroyMeter(meter),
        Release::ReleaseSource(source),
    ]);
}

/// A scene that cannot be completed gives back the scene last, after the captured
/// picture.
pub proof fn a_failed_setup_gives_back_the_scene_last(v: CaptureView)
    ensures
        roll_back(v).last() == Release::ReleaseScene(v.scene),
        roll_back(v)[roll_back(v).len() - 2] == Release::ReleaseSource(v.capture_source),
{
}

/// The picture that is replaced leaves the scene before its source is given back.
pub proof fn a_replaced_picture_leaves_the_scene_first(item: usize, source: usize)
    ensures
        give_back(item, source).last() == Release::ReleaseSource(source),
        item != 0 ==> give_back(item, source).len() == 2 && give_back(item, source)[0]
            == Release::RemoveItem(item),
        item == 0 ==> give_back(item, source).len() == 1,
{
}

/// A meter that was made is either kept or given back, never both; it is kept
/// exactly where it could be put on its source.
pub proof fn a_meter_is_kept_or_given_back(meter: usize, attached: bool)
    requires
        meter != 0,
    ensures
        ({
            let made = meter_made_spec(meter, attached);
            &&& attached ==> made.kept == meter && made.unused is None
            &&& !attached ==> made.kept == 0 && made.unused == Some(meter)
        }),
        meter_made_spec(0, attached) == (MeterMade { kept: 0, unused: None }),
{
}

/// What stands in the scene at a place is what is there; one that was not made,
/// and a place past the end, have nothing.
pub proof fn the_capture_has_what_was_made(v: CaptureView, index: usize)
    ensures
        live_overlay_spec(Some(v), index) matches Some(o) ==> index < v.overlays.len()
            && v.overlays[index as int] == o && o.source != 0 && o.item != 0,
        index < v.overlays.len() && v.overlays[index as int].source != 0
            && v.overlays[index as int].item != 0 ==> live_overlay_spec(Some(v), index) is Some,
        live_audio_spec(Some(v), index) matches Some(s) ==> index < v.audio_sources.len()
            && v.audio_sources[index as int] == s && s != 0,
        index < v.audio_sources.len() && v.audio_sources[index as int] != 0 ==> live_audio_spec(
            Some(v),
            index,
        ) is Some,
        live_overlay_spec(None, index) is None,
        live_audio_spec(None, index) is None,
        !is_made(no_item()),
{
}

/// Where the engine did not make a source, the message names its plugin.
pub proof fn the_message_names_the_plugin(plugin: Seq<char>)
    ensures
        no_source(plugin) == "obs_source_create('"@ + plugin + "') devolvio null"@,
        no_source(plugin).len() == no_source(seq![]).len() + plugin.len(),
{
}

/// A scene with nothing in it owns itself alone, and nothing is in front of
/// anything.
pub proof fn a_bare_scene_is_empty(scene: usize)
    ensures
        bare(scene).scene == scene,
        bare(scene).capture_source == 0,
        bare(scene).audio_sources.len() == 0,
        bare(scene).audio_volmeters.len() == 0,
        bare(scene).overlays.len() == 0,
        back_to_front(bare(scene)).len() == 0,
{
}

/// Only what is there and is wanted back counts as given back, each handle for
/// what it is.
pub proof fn each_release_gives_back_its_own(h: usize, channel: u32)
    ensures
        gives_back(Release::DestroyMeter(h)) == Multiset::singleton(Owned::Meter(h)),
        gives_back(Release::ReleaseSource(h)) == Multiset::singleton(Owned::Source(h)),
        gives_back(Release::ReleaseScene(h)) == Multiset::singleton(Owned::Scene(h)),
        gives_back(Release::DetachMeter(h)) == Multiset::<Owned>::empty(),
        gives_back(Release::RemoveItem(h)) == Multiset::<Owned>::empty(),
        gives_back(Release::ClearChannel(channel)) == Multiset::<Owned>::empty(),
{
}

/// A capture owns its scene, the source of its picture, and each meter, source and
/// filter in its lists, all that it has been handed out.
pub proof fn a_capture_owns_what_it_has(v: CaptureView, s: usize, m: usize, o: OverlayItem)
    requires
        s != 0,
        m != 0,
    ensures
        owned_by(CaptureView { audio_sources: v.audio_sources.push(s), ..v }) == owned_by(v).add(
            Multiset::singleton(Owned::Source(s)),
        ),
        owned_by(CaptureView { audio_volmeters: v.audio_volmeters.push(m), ..v }) == owned_by(v).add(
            Multiset::singleton(Owned::Meter(m)),
        ),
        o.source != 0 && o.opacity_filter != 0 ==> owned_by(
            CaptureView { overlays: v.overlays.push(o), ..v },
        ) == owned_by(v).add(Multiset::singleton(Owned::Source(o.source))).add(
            Multiset::singleton(Owned::Source(o.opacity_filter)),
        ),
        owned_by(v).contains(Owned::Scene(v.scene)),
        owned_by(v).contains(Owned::Source(v.capture_source)),
{
    assert(v.audio_sources.push(s).drop_last() =~= v.audio_sources);
    assert(v.audio_volmeters.push(m).drop_last() =~= v.audio_volmeters);
    assert(v.overlays.push(o).drop_last() =~= v.overlays);
    assert(owned_by(CaptureView { audio_sources: v.audio_sources.push(s), ..v }) =~= owned_by(v).add(
        Multiset::singleton(Owned::Source(s)),
    ));
    assert(owned_by(CaptureView { audio_volmeters: v.audio_volmeters.push(m), ..v }) =~= owned_by(
        v,
    ).add(Multiset::singleton(Owned::Meter(m))));
    if o.source != 0 && o.opacity_filter != 0 {
        assert(owned_by(CaptureView { overlays: v.overlays.push(o), ..v }) =~= owned_by(v).add(
            Multiset::singleton(Owned::Source(o.source)),
        ).add(Multiset::singleton(Owned::Source(o.opacity_filter))));
    }
}

/// The filter of an overlay is given back before its source, overlay by overlay.
pub proof fn the_filter_goes_before_its_source(overlays: Seq<OverlayItem>, o: OverlayItem)
    requires
        o.source != 0,
        o.opacity_filter != 0,
    ensures
        release_overlays(overlays.push(o)) == release_overlays(overlays).push(
            Release::ReleaseSource(o.opacity_filter),
        ).push(Release::ReleaseSource(o.source)),
        release_overlays(overlays.push(no_item())) == release_overlays(overlays),
{
    assert(overlays.push(o).drop_last() =~= overlays);
    assert(overlays.push(no_item()).drop_last() =~= overlays);
    assert(release_overlays(overlays.push(o)) =~= release_overlays(overlays).push(
        Release::ReleaseSource(o.opacity_filter),
    ).push(Release::ReleaseSource(o.source)));
    assert(release_overlays(overlays.push(no_item())) =~= release_overlays(overlays));
}

/// Once the channels are silent the meters go, before any source that they
/// listen to; then the captured picture.
pub proof fn meters_go_before_all_sources(v: CaptureView)
    ensures
        ({
            let meters = release_meters(v.audio_volmeters);
            let list = release_all(v);
            &&& list.len() > 6 + meters.len()
            &&& list.subrange(6, 6 + meters.len() as int) == meters
            &&& list[6 + meters.len() as int] == Release::ReleaseSource(v.capture_source)
        }),
{
    let meters = release_meters(v.audio_volmeters);
    assert(release_all(v).subrange(6, 6 + meters.len() as int) =~= meters);
}

/// A source of the right type is kept and given new settings, one of another type
/// is replaced in its scene, and without a capture the choice waits for the next
/// start.
pub proof fn a_source_of_the_right_type_is_kept(
    v: CaptureView,
    current: Seq<char>,
    plugin: Seq<char>,
)
    ensures
        source_change(Some(v), plugin, plugin) == SourceChange::Update(v.capture_source),
        current != plugin ==> source_change(Some(v), current, plugin) == SourceChange::Replace(
            v.scene,
        ),
        source_change(None, current, plugin) is Later,
{
}

} // verus!
