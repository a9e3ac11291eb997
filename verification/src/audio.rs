//! The audio sources of the configuration, and their live levels.

use crate::capture::{
    audio_in_step, audio_source_name, capture_view, given_back, live_audio_source, live_audio_spec,
    owned_by, owned_meters, owned_source, owned_sources, release_audio, release_live_audio, without,
    CaptureState, CaptureView, Release, SetupFailure,
};
use crate::config::{
    audio_views, clone_audio_sources, config_mut, default_audio_sources, default_volume, in_force,
    AudioSourceConfig, AudioSourceKind, AudioSourceView, ConfigView, EmberioConfig,
};
use crate::settings::{stored, Saved};
use crate::single::{Single, ONE, TWO, ZERO};
use crate::sources::{audio_settings, settings_view, SourceRequest, ValueView};
use crate::text::{decimal, joined, same_text};
use vstd::prelude::*;

verus! {

/// How many audio sources can be captured at once. They take the output
/// channels from 1 on; channel 0 is the picture.
pub const MAX_AUDIO_SOURCES: usize = 5;

/// The kind that a name asks for.
pub open spec fn audio_kind_named(name: Seq<char>) -> Option<AudioSourceKind> {
    if name == "output"@ {
        Some(AudioSourceKind::Output)
    } else if name == "input"@ {
        Some(AudioSourceKind::Input)
    } else {
        None
    }
}

/// The source that captures a device of this kind.
pub open spec fn audio_plugin_spec(kind: AudioSourceKind) -> Seq<char> {
    match kind {
        AudioSourceKind::Output => "wasapi_output_capture"@,
        AudioSourceKind::Input => "wasapi_input_capture"@,
    }
}

/// The source that captures a device of this kind.
pub fn audio_plugin(kind: AudioSourceKind) -> (r: &'static str)
    ensures
        r@ == audio_plugin_spec(kind),
{
    match kind {
        AudioSourceKind::Output => "wasapi_output_capture",
        AudioSourceKind::Input => "wasapi_input_capture",
    }
}

/// Reads the kind that a name asks for.
pub fn audio_kind(name: &str) -> (r: Option<AudioSourceKind>)
    ensures
        r == audio_kind_named(name@),
{
    if same_text(name, "output") {
        Some(AudioSourceKind::Output)
    } else if same_text(name, "input") {
        Some(AudioSourceKind::Input)
    } else {
        None
    }
}

/// A list with the entry at `index` replaced; an index past the end changes
/// nothing.
pub open spec fn with_entry(list: Seq<AudioSourceView>, index: usize, entry: AudioSourceView) -> Seq<
    AudioSourceView,
> {
    if index < list.len() {
        list.update(index as int, entry)
    } else {
        list
    }
}

/// The list with another name for the source at `index`.
pub open spec fn with_label(list: Seq<AudioSourceView>, index: usize, label: Seq<char>) -> Seq<
    AudioSourceView,
> {
    with_entry(list, index, AudioSourceView { label, ..list[index as int] })
}

/// The list with another volume for the source at `index`, kept in its range.
pub open spec fn with_volume(list: Seq<AudioSourceView>, index: usize, volume: Single) -> Seq<
    AudioSourceView,
> {
    with_entry(
        list,
        index,
        AudioSourceView { volume: clamped_volume(volume), ..list[index as int] },
    )
}

/// The list with the source at `index` muted, or heard.
pub open spec fn with_muted(list: Seq<AudioSourceView>, index: usize, muted: bool) -> Seq<
    AudioSourceView,
> {
    with_entry(list, index, AudioSourceView { muted, ..list[index as int] })
}

/// Renames an audio source.
pub fn set_audio_source_label(slot: &mut Option<EmberioConfig>, index: usize, label: String) -> (r:
    Saved<Vec<AudioSourceConfig>>)
    ensures
        ({
            let was = in_force(*old(slot));
            let list = with_entry(
                was.audio_sources,
                index,
                AudioSourceView { label: label@, ..was.audio_sources[index as int] },
            );
            &&& list == with_label(was.audio_sources, index, label@)
            &&& stored(*final(slot), r.config, ConfigView { audio_sources: list, ..was })
            &&& audio_views(r.value@) == list
        }),
{
    let c = config_mut(slot);
    let ghost before = c.audio_sources@;
    if index < c.audio_sources.len() {
        c.audio_sources[index].label = label;
        assert(audio_views(c.audio_sources@) =~= audio_views(before).update(
            index as int,
            c.audio_sources@[index as int]@,
        ));
    }
    Saved { value: clone_audio_sources(&c.audio_sources), config: c.clone() }
}

/// A volume kept between silence and a boost of 100%.
pub open spec fn clamped_volume(volume: Single) -> Single {
    volume.clamp_spec(Single { bits: ZERO }, Single { bits: TWO })
}

/// Sets the volume of an audio source, kept between 0.0 and 2.0.
pub fn set_audio_source_volume(slot: &mut Option<EmberioConfig>, index: usize, volume: Single) -> (r:
    Saved<Vec<AudioSourceConfig>>)
    ensures
        ({
            let was = in_force(*old(slot));
            let list = with_entry(
                was.audio_sources,
                index,
                AudioSourceView {
                    volume: clamped_volume(volume),
                    ..was.audio_sources[index as int]
                },
            );
            &&& list == with_volume(was.audio_sources, index, volume)
            &&& stored(*final(slot), r.config, ConfigView { audio_sources: list, ..was })
            &&& audio_views(r.value@) == list
        }),
{
    let c = config_mut(slot);
    let ghost before = c.audio_sources@;
    if index < c.audio_sources.len() {
        c.audio_sources[index].volume = volume.clamp(Single { bits: ZERO }, Single { bits: TWO });
        assert(audio_views(c.audio_sources@) =~= audio_views(before).update(
            index as int,
            c.audio_sources@[index as int]@,
        ));
    }
    Saved { value: clone_audio_sources(&c.audio_sources), config: c.clone() }
}

/// A volume for a source that is being captured.
#[derive(Clone, Copy, PartialEq, Eq, Structural, Debug)]
pub struct LiveVolume {
    pub source: usize,
    pub volume: Single,
}

/// The captured source that a volume is for, with the volume that is stored.
pub open spec fn live_volume_of(capture: Option<CaptureView>, index: usize, volume: Single) -> Option<
    LiveVolume,
> {
    match live_audio_spec(capture, index) {
        Some(source) => Some(LiveVolume { source, volume: clamped_volume(volume) }),
        None => None,
    }
}

/// The captured source that a volume is for, with the volume that is stored.
pub fn live_volume(capture: &Option<CaptureState>, index: usize, volume: Single) -> (r: Option<
    LiveVolume,
>)
    ensures
        r == (match live_audio_spec(capture_view(*capture), index) {
            Some(source) => Some(LiveVolume { source, volume: clamped_volume(volume) }),
            None => None,
        }),
        r == live_volume_of(capture_view(*capture), index, volume),
{
    match live_audio_source(capture, index) {
        Some(source) => Some(
            LiveVolume {
                source,
                volume: volume.clamp(Single { bits: ZERO }, Single { bits: TWO }),
            },
        ),
        None => None,
    }
}

/// Mutes an audio source, or lets it be heard again.
pub fn set_audio_source_muted(slot: &mut Option<EmberioConfig>, index: usize, muted: bool) -> (r:
    Saved<Vec<AudioSourceConfig>>)
    ensures
        ({
            let was = in_force(*old(slot));
            let list = with_entry(
                was.audio_sources,
                index,
                AudioSourceView { muted, ..was.audio_sources[index as int] },
            );
            &&& list == with_muted(was.audio_sources, index, muted)
            &&& stored(*final(slot), r.config, ConfigView { audio_sources: list, ..was })
            &&& audio_views(r.value@) == list
        }),
{
    let c = config_mut(slot);
    let ghost before = c.audio_sources@;
    if index < c.audio_sources.len() {
        c.audio_sources[index].muted = muted;
        assert(audio_views(c.audio_sources@) =~= audio_views(before).update(
            index as int,
            c.audio_sources@[index as int]@,
        ));
    }
    Saved { value: clone_audio_sources(&c.audio_sources), config: c.clone() }
}

/// A source as it is added: at full volume and not muted.
pub open spec fn fresh_audio_source(
    kind: AudioSourceKind,
    device_id: Seq<char>,
    label: Seq<char>,
) -> AudioSourceView {
    AudioSourceView { kind, device_id, label, volume: Single { bits: ONE }, muted: false }
}

/// Why an audio source cannot be added to a list of `count`, if it cannot.
pub open spec fn addition_refused(kind: Seq<char>, count: nat) -> Option<Seq<char>> {
    if audio_kind_named(kind) is None {
        Some("kind invalido: "@ + kind + " (usa 'output' o 'input')"@)
    } else if count >= MAX_AUDIO_SOURCES {
        Some("Ya hay el maximo de 5 fuentes de audio"@)
    } else {
        None
    }
}

fn check_addition(kind: &str, count: usize) -> (r: Result<AudioSourceKind, String>)
    ensures
        r is Ok <==> addition_refused(kind@, count as nat) is None,
        r matches Ok(k) ==> Some(k) == audio_kind_named(kind@),
        r matches Err(e) ==> Some(e@) == addition_refused(kind@, count as nat),
{
    match audio_kind(kind) {
        None => {
            let mut message = joined("kind invalido: ", kind);
            message.append(" (usa 'output' o 'input')");
            Err(message)
        },
        Some(k) => if count >= MAX_AUDIO_SOURCES {
            Err("Ya hay el maximo de 5 fuentes de audio".to_owned())
        } else {
            Ok(k)
        },
    }
}

/// The source that the engine is asked for, for the audio entry at `index`.
pub fn audio_source_request(index: usize, kind: AudioSourceKind, device_id: &str) -> (r: SourceRequest)
    ensures
        r.plugin@ == audio_plugin_spec(kind),
        r.name@ == "Audio Source "@ + decimal(index as int),
        settings_view(r.settings@) == seq![("device_id"@, ValueView::Text(device_id@))],
{
    SourceRequest {
        plugin: audio_plugin(kind),
        name: audio_source_name(index),
        settings: audio_settings(device_id),
    }
}

/// What the engine is asked for before an audio source is added: its source,
/// where a scene is being captured. It fails where adding it would.
pub fn plan_audio_addition(
    capture: &Option<CaptureState>,
    slot: &Option<EmberioConfig>,
    kind: &str,
    device_id: &str,
) -> (r: Result<Option<SourceRequest>, String>)
    ensures
        ({
            let refused = addition_refused(kind@, in_force(*slot).audio_sources.len());
            &&& r is Ok <==> refused is None
            &&& r matches Err(e) ==> Some(e@) == refused
            &&& r matches Ok(request) ==> (request is Some <==> *capture is Some)
            &&& r matches Ok(Some(q)) ==> {
                &&& q.plugin@ == audio_plugin_spec(audio_kind_named(kind@)->0)
                &&& q.name@ == "Audio Source "@ + decimal((*capture)->0@.audio_sources.len() as int)
                &&& settings_view(q.settings@) == seq![
                    ("device_id"@, ValueView::Text(device_id@)),
                ]
            }
        }),
{
    let count: usize = match slot {
        Some(c) => c.audio_sources.len(),
        None => default_audio_sources().len(),
    };
    assert(count == in_force(*slot).audio_sources.len());
    match check_addition(kind, count) {
        Ok(k) => match capture {
            Some(s) => Ok(Some(audio_source_request(s.audio_sources.len(), k, device_id))),
            None => Ok(None),
        },
        Err(e) => Err(e),
    }
}

/// What the engine has made for an audio source: 0 for what it has not.
#[derive(Clone, Copy, PartialEq, Eq, Structural, Debug)]
pub struct LiveAudio {
    pub source: usize,
    pub meter: usize,
}

/// How a new audio source is heard.
#[derive(Clone, Copy, PartialEq, Eq, Structural, Debug)]
pub struct AudioRoute {
    pub volume: Single,
    pub muted: bool,
    /// Its output channel; one source too many has none.
    pub channel: Option<u32>,
}

/// An audio source has been added.
pub struct AudioAddition {
    /// How it is heard, where it is being captured.
    pub route: Option<AudioRoute>,
    /// What is to be given back: a source that no scene has a use for.
    pub releases: Vec<Release>,
    pub answer: Saved<Vec<AudioSourceConfig>>,
}

/// A capture with one more audio source at the end.
pub open spec fn capture_with_audio(v: CaptureView, live: LiveAudio) -> CaptureView {
    CaptureView {
        audio_sources: v.audio_sources.push(live.source),
        audio_volmeters: v.audio_volmeters.push(live.meter),
        ..v
    }
}

/// Adds an audio source at the end of the list, and `live`, what the engine has
/// made for it, at the end of the captured ones; a source that the engine has
/// not made keeps its place there. It fails where the kind is neither "output"
/// nor "input", and where the list is full: then `live` is given back.
pub fn add_audio_source(
    capture: &mut Option<CaptureState>,
    levels: &mut Vec<MeterLevel>,
    slot: &mut Option<EmberioConfig>,
    kind: String,
    device_id: String,
    label: String,
    live: LiveAudio,
) -> (r: Result<AudioAddition, SetupFailure>)
    ensures
        r is Ok <==> addition_refused(kind@, in_force(*old(slot)).audio_sources.len()) is None,
        in_force(*old(slot)).audio_sources.len() <= MAX_AUDIO_SOURCES ==> in_force(
            *final(slot),
        ).audio_sources.len() <= MAX_AUDIO_SOURCES,
        audio_in_step(capture_view(*old(capture)), old(levels)@, in_force(*old(slot)))
            ==> audio_in_step(
            capture_view(*final(capture)),
            final(levels)@,
            in_force(*final(slot)),
        ),
        r matches Ok(s) ==> {
            let was = in_force(*old(slot));
            let list = was.audio_sources.push(
                fresh_audio_source(audio_kind_named(kind@)->0, device_id@, label@),
            );
            &&& stored(*final(slot), s.answer.config, ConfigView { audio_sources: list, ..was })
            &&& audio_views(s.answer.value@) == list
            &&& match capture_view(*old(capture)) {
                Some(v) => {
                    &&& capture_view(*final(capture)) == Some(capture_with_audio(v, live))
                    &&& final(levels)@ == old(levels)@.push(at_rest(live.meter))
                    &&& s.releases@.len() == 0
                    &&& s.route == (if live.source != 0 {
                        Some(
                            AudioRoute {
                                volume: Single { bits: ONE },
                                muted: false,
                                channel: audio_channel_spec(v.audio_sources.len() as usize),
                            },
                        )
                    } else {
                        None
                    })
                },
                None => {
                    &&& *final(capture) is None
                    &&& final(levels)@ == old(levels)@
                    &&& s.releases@ == release_live_audio(live.source, live.meter)
                    &&& s.route is None
                },
            }
        },
        r matches Err(f) ==> {
            &&& Some(f.message@) == addition_refused(
                kind@,
                in_force(*old(slot)).audio_sources.len(),
            )
            &&& f.releases@ == release_live_audio(live.source, live.meter)
            &&& in_force(*final(slot)) == in_force(*old(slot))
            &&& capture_view(*final(capture)) == capture_view(*old(capture))
            &&& final(levels)@ == old(levels)@
        },
{
    let c = config_mut(slot);
    let kind = match check_addition(kind.as_str(), c.audio_sources.len()) {
        Ok(k) => k,
        Err(message) => {
            return Err(
                SetupFailure { message, releases: release_audio(live.source, live.meter) },
            );
        },
    };
    let ghost before = c.audio_sources@;
    c.audio_sources.push(
        AudioSourceConfig { kind, device_id, label, volume: default_volume(), muted: false },
    );
    assert(audio_views(c.audio_sources@) =~= audio_views(before).push(c.audio_sources@.last()@));
    let answer = Saved { value: clone_audio_sources(&c.audio_sources), config: c.clone() };
    match capture.as_mut() {
        Some(state) => {
            let channel = audio_channel(state.audio_sources.len());
            state.audio_sources.push(live.source);
            state.audio_volmeters.push(live.meter);
            levels.push(MeterLevel { meter: live.meter, level: Single { bits: ZERO } });
            let route = if live.source != 0 {
                Some(AudioRoute { volume: default_volume(), muted: false, channel })
            } else {
                None
            };
            Ok(AudioAddition { route, releases: Vec::new(), answer })
        },
        None => Ok(
            AudioAddition {
                route: None,
                releases: release_audio(live.source, live.meter),
                answer,
            },
        ),
    }
}

/// What an output channel carries: a source, or nothing.
#[derive(Clone, Copy, PartialEq, Eq, Structural, Debug)]
pub struct ChannelUse {
    pub channel: u32,
    pub source: usize,
}

/// What the output channels of the sound carry: each source the channel of its
/// place, and the channels left nothing.
pub open spec fn channel_uses(sources: Seq<usize>) -> Seq<ChannelUse> {
    Seq::new(
        MAX_AUDIO_SOURCES as nat,
        |i: int|
            ChannelUse {
                channel: (i + 1) as u32,
                source: if i < sources.len() {
                    sources[i]
                } else {
                    0
                },
            },
    )
}

fn list_channels(sources: &Vec<usize>) -> (r: Vec<ChannelUse>)
    ensures
        r@ == channel_uses(sources@),
{
    let mut list: Vec<ChannelUse> = Vec::new();
    let mut i: usize = 0;
    while i < MAX_AUDIO_SOURCES
        invariant
            i <= MAX_AUDIO_SOURCES,
            list@ =~= channel_uses(sources@).take(i as int),
        decreases MAX_AUDIO_SOURCES - i,
    {
        let source: usize = if i < sources.len() {
            sources[i]
        } else {
            0
        };
        list.push(ChannelUse { channel: i as u32 + 1, source });
        i = i + 1;
    }
    assert(list@ =~= channel_uses(sources@));
    list
}

/// An audio source has been taken off.
pub struct AudioRemoval {
    /// What is to be given back, once the channels carry what they should.
    pub releases: Vec<Release>,
    /// What the channels carry from now on; nothing to do where no scene is
    /// being captured.
    pub channels: Vec<ChannelUse>,
    pub answer: Saved<Vec<AudioSourceConfig>>,
}

/// The element at `index`; 0 past the end.
pub open spec fn handle_at(list: Seq<usize>, index: usize) -> usize {
    if index < list.len() {
        list[index as int]
    } else {
        0
    }
}

/// A capture without the audio source at `index`, and without its meter.
pub open spec fn capture_without_audio(v: CaptureView, index: usize) -> CaptureView {
    CaptureView {
        audio_sources: without(v.audio_sources, index),
        audio_volmeters: without(v.audio_volmeters, index),
        ..v
    }
}

fn take_handle(list: &mut Vec<usize>, index: usize) -> (r: usize)
    ensures
        final(list)@ == without(old(list)@, index),
        r == handle_at(old(list)@, index),
{
    if index < list.len() {
        list.remove(index)
    } else {
        0
    }
}

/// Takes an audio source off the list, and its source, its meter and its level
/// off the captured ones. Those after it move up one place, and one channel.
pub fn remove_audio_source(
    capture: &mut Option<CaptureState>,
    levels: &mut Vec<MeterLevel>,
    slot: &mut Option<EmberioConfig>,
    index: usize,
) -> (r: AudioRemoval)
    ensures
        ({
            let was = in_force(*old(slot));
            let list = without(was.audio_sources, index);
            &&& stored(*final(slot), r.answer.config, ConfigView { audio_sources: list, ..was })
            &&& audio_views(r.answer.value@) == list
        }),
        match capture_view(*old(capture)) {
            Some(v) => {
                &&& capture_view(*final(capture)) == Some(capture_without_audio(v, index))
                &&& final(levels)@ == without(old(levels)@, index)
                &&& r.releases@ == release_live_audio(
                    handle_at(v.audio_sources, index),
                    handle_at(v.audio_volmeters, index),
                )
                &&& r.channels@ == channel_uses(without(v.audio_sources, index))
            },
            None => {
                &&& *final(capture) is None
                &&& final(levels)@ == old(levels)@
                &&& r.releases@.len() == 0
                &&& r.channels@.len() == 0
            },
        },
        audio_in_step(capture_view(*old(capture)), old(levels)@, in_force(*old(slot)))
            ==> audio_in_step(
            capture_view(*final(capture)),
            final(levels)@,
            in_force(*final(slot)),
        ),
{
    let c = config_mut(slot);
    let ghost before = c.audio_sources@;
    if index < c.audio_sources.len() {
        c.audio_sources.remove(index);
        assert(audio_views(c.audio_sources@) =~= audio_views(before).remove(index as int));
    }
    let answer = Saved { value: clone_audio_sources(&c.audio_sources), config: c.clone() };
    match capture.as_mut() {
        Some(state) => {
            let source = take_handle(&mut state.audio_sources, index);
            let meter = take_handle(&mut state.audio_volmeters, index);
            if index < levels.len() {
                levels.remove(index);
            }
            let channels = list_channels(&state.audio_sources);
            AudioRemoval { releases: release_audio(source, meter), channels, answer }
        },
        None => AudioRemoval { releases: Vec::new(), channels: Vec::new(), answer },
    }
}

/// The output channel of the audio source at `index`: the one after it, as
/// long as there is one.
pub open spec fn audio_channel_spec(index: usize) -> Option<u32> {
    if index < MAX_AUDIO_SOURCES {
        Some((index + 1) as u32)
    } else {
        None
    }
}

/// The output channel of the audio source at `index`.
pub fn audio_channel(index: usize) -> (r: Option<u32>)
    ensures
        r == audio_channel_spec(index),
{
    if index < MAX_AUDIO_SOURCES {
        Some(index as u32 + 1)
    } else {
        None
    }
}

// ---------------------------------------------------------------------------
// Levels

/// The level that a meter shows.
#[derive(Clone, Copy, PartialEq, Eq, Structural, Debug)]
pub struct MeterLevel {
    /// The meter; 0 for a source without one, whose level stays at rest.
    pub meter: usize,
    pub level: Single,
}

/// A meter at rest shows 0.0.
pub open spec fn at_rest(meter: usize) -> MeterLevel {
    MeterLevel { meter, level: Single { bits: ZERO } }
}

/// The levels of these meters, at rest.
pub open spec fn quiet(meters: Seq<usize>) -> Seq<MeterLevel> {
    meters.map_values(|m: usize| at_rest(m))
}

/// The levels of a new capture.
pub fn quiet_levels(meters: &Vec<usize>) -> (r: Vec<MeterLevel>)
    ensures
        r@ == quiet(meters@),
{
    let mut levels: Vec<MeterLevel> = Vec::new();
    let mut i: usize = 0;
    while i < meters.len()
        invariant
            i <= meters.len(),
            levels@ =~= quiet(meters@.take(i as int)),
        decreases meters.len() - i,
    {
        levels.push(MeterLevel { meter: meters[i], level: Single { bits: ZERO } });
        i = i + 1;
    }
    assert(meters@.take(i as int) =~= meters@);
    levels
}

/// The level of a meter reading `db`, whose place on the scale from -60 dB to
/// 0 dB is `place`: that place, kept between 0.0 and 1.0; a reading that is no
/// finite number is silence.
pub open spec fn level_of(db: Single, place: Single) -> Single {
    if db.is_finite_spec() {
        place.clamp_spec(Single { bits: ZERO }, Single { bits: ONE })
    } else {
        Single { bits: ZERO }
    }
}

/// Takes a meter reading of the source at `index`. A source that is not there
/// is ignored.
pub fn set_level(levels: &mut Vec<MeterLevel>, index: usize, db: Single, place: Single)
    ensures
        index < old(levels)@.len() ==> final(levels)@ == old(levels)@.update(
            index as int,
            MeterLevel { level: level_of(db, place), ..old(levels)@[index as int] },
        ),
        index >= old(levels)@.len() ==> final(levels)@ == old(levels)@,
{
    if index < levels.len() {
        let level = if db.is_finite() {
            place.clamp(Single { bits: ZERO }, Single { bits: ONE })
        } else {
            Single { bits: ZERO }
        };
        let meter: usize = levels[index].meter;
        levels.set(index, MeterLevel { meter, level });
    }
}

/// `i` is the place of this meter: the first level that is of it.
pub open spec fn is_meter_at(levels: Seq<MeterLevel>, meter: usize, i: int) -> bool {
    &&& meter != 0
    &&& 0 <= i < levels.len()
    &&& levels[i].meter == meter
    &&& forall|k: int| 0 <= k < i ==> levels[k].meter != meter
}

/// The place of a meter. It is looked up at each reading, since the places of
/// the sources change as others are taken off.
pub fn meter_index(levels: &Vec<MeterLevel>, meter: usize) -> (r: Option<usize>)
    ensures
        r matches Some(i) ==> is_meter_at(levels@, meter, i as int),
        r is None ==> forall|i: int| !#[trigger] is_meter_at(levels@, meter, i),
{
    let mut i: usize = 0;
    while i < levels.len()
        invariant
            i <= levels.len(),
            forall|k: int| 0 <= k < i ==> meter == 0 || levels@[k].meter != meter,
        decreases levels.len() - i,
    {
        if meter != 0 && levels[i].meter == meter {
            return Some(i);
        }
        i = i + 1;
    }
    None
}

/// Takes a reading of a meter, as soon as there is a level for it. The reading
/// of a meter without one is ignored.
pub fn take_reading(levels: &mut Vec<MeterLevel>, meter: usize, db: Single, place: Single)
    ensures
        forall|i: int|
            #[trigger] is_meter_at(old(levels)@, meter, i) ==> final(levels)@ == old(
                levels,
            )@.update(i, MeterLevel { meter, level: level_of(db, place) }),
        (forall|i: int| !#[trigger] is_meter_at(old(levels)@, meter, i)) ==> final(levels)@ == old(
            levels,
        )@,
{
    match meter_index(levels, meter) {
        Some(i) => {
            assert(is_meter_at(levels@, meter, i as int));
            set_level(levels, i, db, place);
        },
        None => {},
    }
}

// ---------------------------------------------------------------------------
// Laws

/// A removed source leaves the others as they were, in the same order: the
/// ones after it move up one place.
pub proof fn removal_keeps_the_others(list: Seq<AudioSourceView>, index: usize, i: int)
    requires
        index < list.len(),
        0 <= i < list.len() - 1,
    ensures
        without(list, index).len() == list.len() - 1,
        i < index ==> without(list, index)[i] == list[i],
        i >= index ==> without(list, index)[i] == list[i + 1],
{
}

/// Adding a source and removing the last one again gives back the list.
pub proof fn removal_undoes_addition(list: Seq<AudioSourceView>, entry: AudioSourceView)
    requires
        list.len() < MAX_AUDIO_SOURCES,
    ensures
        without(list.push(entry), list.len() as usize) == list,
{
    assert(list.push(entry).remove(list.len() as int) =~= list);
}

/// Each captured source with its meter, its level and its entry of the
/// configuration.
pub open spec fn paired_audio(
    v: CaptureView,
    levels: Seq<MeterLevel>,
    list: Seq<AudioSourceView>,
) -> Seq<(usize, usize, MeterLevel, AudioSourceView)> {
    Seq::new(
        list.len(),
        |i: int| (v.audio_sources[i], v.audio_volmeters[i], levels[i], list[i]),
    )
}

/// The lists stay in step: whatever is added or removed, every source that was
/// paired with a meter, a level and an entry is paired with the same ones after.
pub proof fn the_audio_lists_stay_in_step(
    v: CaptureView,
    levels: Seq<MeterLevel>,
    c: ConfigView,
    live: LiveAudio,
    entry: AudioSourceView,
    index: usize,
)
    requires
        audio_in_step(Some(v), levels, c),
    ensures
        paired_audio(
            capture_with_audio(v, live),
            levels.push(at_rest(live.meter)),
            c.audio_sources.push(entry),
        ) == paired_audio(v, levels, c.audio_sources).push(
            (live.source, live.meter, at_rest(live.meter), entry),
        ),
        paired_audio(
            capture_without_audio(v, index),
            without(levels, index),
            without(c.audio_sources, index),
        ) == without(paired_audio(v, levels, c.audio_sources), index),
{
    assert(paired_audio(
        capture_with_audio(v, live),
        levels.push(at_rest(live.meter)),
        c.audio_sources.push(entry),
    ) =~= paired_audio(v, levels, c.audio_sources).push(
        (live.source, live.meter, at_rest(live.meter), entry),
    ));
    assert(paired_audio(
        capture_without_audio(v, index),
        without(levels, index),
        without(c.audio_sources, index),
    ) =~= without(paired_audio(v, levels, c.audio_sources), index));
}

/// A meter keeps measuring its own source: where no two sources have the same
/// meter, the meter at `i` is found at `i`, and after another has been taken off
/// at the place that its source has moved to.
pub proof fn readings_follow_their_source(levels: Seq<MeterLevel>, i: int, index: usize)
    requires
        0 <= i < levels.len(),
        levels[i].meter != 0,
        index < levels.len(),
        i != index,
        forall|k: int|
            0 <= k < levels.len() && k != i ==> (#[trigger] levels[k]).meter != levels[i].meter,
    ensures
        is_meter_at(levels, levels[i].meter, i),
        is_meter_at(
            without(levels, index),
            levels[i].meter,
            if i < index {
                i
            } else {
                i - 1
            },
        ),
{
}

/// A reading leaves the lists in step: it changes what a meter shows, and not
/// whose level it is.
pub proof fn readings_leave_the_lists_in_step(
    capture: Option<CaptureView>,
    levels: Seq<MeterLevel>,
    c: ConfigView,
    meter: usize,
    i: int,
    level: Single,
)
    requires
        audio_in_step(capture, levels, c),
        is_meter_at(levels, meter, i),
    ensures
        audio_in_step(capture, levels.update(i, MeterLevel { meter, level }), c),
{
}

/// Readings are taken as soon as the levels are there, before anything else
/// knows of the sources: the meter at `i` is found at `i`.
pub proof fn new_levels_take_readings(meters: Seq<usize>, i: int)
    requires
        0 <= i < meters.len(),
        meters[i] != 0,
        forall|k: int| 0 <= k < i ==> meters[k] != meters[i],
    ensures
        is_meter_at(quiet(meters), meters[i], i),
        quiet(meters)[i].level == (Single { bits: ZERO }),
{
}

proof fn lemma_sources_without(sources: Seq<usize>, i: int)
    requires
        0 <= i < sources.len(),
    ensures
        owned_sources(sources) == owned_sources(sources.remove(i)).add(owned_source(sources[i])),
    decreases sources.len(),
{
    if i == sources.len() - 1 {
        assert(sources.remove(i) =~= sources.drop_last());
    } else {
        lemma_sources_without(sources.drop_last(), i);
        assert(sources.remove(i).drop_last() =~= sources.drop_last().remove(i));
        assert(sources.remove(i).last() == sources.last());
        assert(owned_sources(sources) =~= owned_sources(sources.remove(i)).add(
            owned_source(sources[i]),
        ));
    }
}

proof fn lemma_meters_without(meters: Seq<usize>, i: int)
    requires
        0 <= i < meters.len(),
    ensures
        owned_meters(meters) == owned_meters(meters.remove(i)).add(owned_meters(seq![meters[i]])),
    decreases meters.len(),
{
    reveal_with_fuel(owned_meters, 2);
    assert(seq![meters[i]].drop_last() =~= seq![]);
    if i == meters.len() - 1 {
        assert(meters.remove(i) =~= meters.drop_last());
        assert(owned_meters(meters) =~= owned_meters(meters.remove(i)).add(
            owned_meters(seq![meters[i]]),
        ));
    } else {
        lemma_meters_without(meters.drop_last(), i);
        assert(meters.remove(i).drop_last() =~= meters.drop_last().remove(i));
        assert(meters.remove(i).last() == meters.last());
        assert(owned_meters(meters) =~= owned_meters(meters.remove(i)).add(
            owned_meters(seq![meters[i]]),
        ));
    }
}

/// Taking an audio source off gives back its source and its meter, each once,
/// and nothing else: what the capture owns, with what is given back, is what it
/// owned before.
pub proof fn a_removed_audio_source_leaks_nothing(v: CaptureView, index: usize)
    requires
        v.one_meter_each(),
        index < v.audio_sources.len(),
    ensures
        owned_by(capture_without_audio(v, index)).add(
            given_back(
                release_live_audio(
                    handle_at(v.audio_sources, index),
                    handle_at(v.audio_volmeters, index),
                ),
            ),
        ) == owned_by(v),
{
    let (source, meter) = (v.audio_sources[index as int], v.audio_volmeters[index as int]);
    lemma_sources_without(v.audio_sources, index as int);
    lemma_meters_without(v.audio_volmeters, index as int);
    crate::capture::live_audio_is_given_back(source, meter);
    assert(owned_by(capture_without_audio(v, index)).add(
        given_back(release_live_audio(source, meter)),
    ) =~= owned_by(v));
}

/// A stored volume is between 0.0 and 2.0, and one that was there already is
/// stored as it came.
pub proof fn volumes_stay_in_range(volume: Single)
    requires
        !volume.is_nan_spec(),
    ensures
        (Single { bits: ZERO }).le_spec(clamped_volume(volume)),
        clamped_volume(volume).le_spec(Single { bits: TWO }),
        (Single { bits: ZERO }).le_spec(volume) && volume.le_spec(Single { bits: TWO })
            ==> clamped_volume(volume) == volume,
{
    crate::single::lemma_range_bounds();
    crate::single::clamp_lands_between(volume, Single { bits: ZERO }, Single { bits: TWO });
}

/// No two sources share an output channel, and none takes the channel of the
/// picture.
pub proof fn channels_are_distinct(i: usize, j: usize)
    requires
        audio_channel_spec(i) is Some,
        audio_channel_spec(j) is Some,
        i != j,
    ensures
        audio_channel_spec(i) != audio_channel_spec(j),
        1 <= audio_channel_spec(i)->0 <= MAX_AUDIO_SOURCES,
{
}

/// After a source has been taken off, each one left is on the channel of its
/// place, where a source added there would be.
pub proof fn sources_take_the_channel_of_their_place(sources: Seq<usize>, i: usize)
    requires
        i < MAX_AUDIO_SOURCES,
    ensures
        Some(channel_uses(sources)[i as int].channel) == audio_channel_spec(i),
        channel_uses(sources)[i as int].source == handle_at(sources, i),
{
}

/// A level shown is always between 0.0 and 1.0, as long as the place on the
/// scale is a number.
pub proof fn levels_stay_in_range(db: Single, place: Single)
    requires
        !place.is_nan_spec(),
    ensures
        (Single { bits: ZERO }).le_spec(level_of(db, place)),
        level_of(db, place).le_spec(Single { bits: ONE }),
{
    crate::single::lemma_one_is_above_zero();
    crate::single::clamp_lands_between(place, Single { bits: ZERO }, Single { bits: ONE });
}

/// A source added by name is stored with the kind of that name, the device and
/// the label given, at full volume and heard; and so the source that a later
/// start asks for has the plugin of that name and that device.
pub proof fn an_added_source_is_of_the_kind_named(
    list: Seq<AudioSourceView>,
    name: Seq<char>,
    device_id: Seq<char>,
    label: Seq<char>,
)
    requires
        addition_refused(name, list.len()) is None,
    ensures
        ({
            let after = list.push(
                fresh_audio_source(audio_kind_named(name)->0, device_id, label),
            );
            let added = after.last();
            &&& name == "output"@ ==> added.kind is Output
            &&& name == "input"@ ==> added.kind is Input
            &&& name == "output"@ || name == "input"@
            &&& added.device_id == device_id
            &&& added.label == label
            &&& added.volume.bits == ONE
            &&& !added.muted
            &&& audio_plugin_spec(added.kind) == audio_plugin_spec(audio_kind_named(name)->0)
            &&& name == "output"@ ==> audio_plugin_spec(added.kind) == "wasapi_output_capture"@
            &&& name == "input"@ ==> audio_plugin_spec(added.kind) == "wasapi_input_capture"@
        }),
{
    outputs_and_inputs_are_told_apart(name, AudioSourceKind::Output, AudioSourceKind::Input);
}

/// Outputs and inputs have names and plugins of their own, and nothing else has a
/// kind.
pub proof fn outputs_and_inputs_are_told_apart(name: Seq<char>, a: AudioSourceKind, b: AudioSourceKind)
    ensures
        audio_kind_named("output"@) == Some(AudioSourceKind::Output),
        audio_kind_named("input"@) == Some(AudioSourceKind::Input),
        audio_kind_named(name) is Some ==> name == "output"@ || name == "input"@,
        audio_plugin_spec(a) == audio_plugin_spec(b) ==> a == b,
{
    reveal_strlit("output");
    reveal_strlit("input");
    reveal_strlit("wasapi_output_capture");
    reveal_strlit("wasapi_input_capture");
    assert("output"@.len() == 6 && "input"@.len() == 5);
    assert("wasapi_output_capture"@.len() == 21 && "wasapi_input_capture"@.len() == 20);
}

/// A source is refused for its kind before anything else, with the kind named in
/// the message; a known kind is refused exactly where five sources are there.
pub proof fn five_sources_are_the_most(name: Seq<char>, count: nat)
    ensures
        addition_refused(name, count) is None <==> (name == "output"@ || name == "input"@) && count
            < 5,
        name != "output"@ && name != "input"@ ==> addition_refused(name, count) == Some(
            "kind invalido: "@ + name + " (usa 'output' o 'input')"@,
        ),
        (name == "output"@ || name == "input"@) && count >= 5 ==> addition_refused(name, count)
            == Some("Ya hay el maximo de 5 fuentes de audio"@),
{
}

/// Changing one source leaves every other, and an index past the end leaves all.
pub proof fn changing_one_source_leaves_the_others(
    list: Seq<AudioSourceView>,
    index: usize,
    entry: AudioSourceView,
    i: int,
)
    requires
        0 <= i < list.len(),
    ensures
        with_entry(list, index, entry).len() == list.len(),
        i == index ==> with_entry(list, index, entry)[i] == entry,
        i != index ==> with_entry(list, index, entry)[i] == list[i],
        index >= list.len() ==> with_entry(list, index, entry) == list,
{
}

/// Sources take the channels one after the other from 1 on, and a sixth has none.
pub proof fn channels_are_taken_in_order(i: usize)
    ensures
        audio_channel_spec(0) == Some(1u32),
        i < 4 ==> audio_channel_spec((i + 1) as usize) == Some(
            (audio_channel_spec(i)->0 + 1) as u32,
        ),
        i >= 5 ==> audio_channel_spec(i) is None,
        i < 5 ==> audio_channel_spec(i) is Some,
{
}

/// Once a source is taken off, every channel of the sound is told what it carries:
/// the sources that are left in their order, and the channels after them nothing.
pub proof fn every_channel_is_told_what_it_carries(sources: Seq<usize>, i: int)
    requires
        0 <= i < 5,
    ensures
        channel_uses(sources).len() == 5,
        channel_uses(sources)[i].channel == i + 1,
        i < sources.len() ==> channel_uses(sources)[i].source == sources[i],
        i >= sources.len() ==> channel_uses(sources)[i].source == 0,
{
}

/// A volume below silence is silence, one above the largest is the largest, and a
/// louder volume never becomes the quieter one.
pub proof fn volumes_keep_their_order(a: Single, b: Single)
    ensures
        a.lt_spec(Single { bits: ZERO }) ==> clamped_volume(a).bits == ZERO,
        (Single { bits: TWO }).lt_spec(a) ==> clamped_volume(a).bits == TWO,
        a.le_spec(b) ==> clamped_volume(a).le_spec(clamped_volume(b)),
{
    crate::single::lemma_range_bounds();
    crate::single::clamp_moves_to_the_nearer_end(
        a,
        b,
        Single { bits: ZERO },
        Single { bits: TWO },
    );
}

/// A level shows its place on the scale where that is on the scale; a reading
/// below it shows nothing, one above it the top, and one that is no finite number
/// nothing.
pub proof fn a_level_shows_its_place(db: Single, place: Single)
    ensures
        !db.is_finite_spec() ==> level_of(db, place).bits == ZERO,
        db.is_finite_spec() && (Single { bits: ZERO }).le_spec(place) && place.le_spec(
            Single { bits: ONE },
        ) ==> level_of(db, place) == place,
        db.is_finite_spec() && place.lt_spec(Single { bits: ZERO }) ==> level_of(db, place).bits
            == ZERO,
        db.is_finite_spec() && (Single { bits: ONE }).lt_spec(place) ==> level_of(db, place).bits
            == ONE,
{
    crate::single::lemma_one_is_above_zero();
}

/// New levels are one for each meter, in their order, all at rest.
pub proof fn new_levels_are_at_rest(meters: Seq<usize>, i: int)
    requires
        0 <= i < meters.len(),
    ensures
        quiet(meters).len() == meters.len(),
        quiet(meters)[i].meter == meters[i],
        quiet(meters)[i].level.units() == 0,
        at_rest(meters[i]) == quiet(meters)[i],
{
    crate::single::constants_are_what_they_say();
}

/// A meter has one place at most, and it is that of a level of its own; a level
/// without a meter is nobody's.
pub proof fn a_meter_has_one_place(levels: Seq<MeterLevel>, meter: usize, i: int, j: int)
    ensures
        is_meter_at(levels, meter, i) && is_meter_at(levels, meter, j) ==> i == j,
        is_meter_at(levels, meter, i) ==> 0 <= i < levels.len() && levels[i].meter == meter,
        !is_meter_at(levels, 0, i),
{
    if is_meter_at(levels, meter, i) && is_meter_at(levels, meter, j) {
        assert(levels[i].meter == meter && levels[j].meter == meter);
    }
}

/// The source handed back is the one at the place, and past the end there is none.
pub proof fn the_handle_at_a_place_is_handed_back(list: Seq<usize>, index: usize)
    ensures
        index < list.len() ==> handle_at(list, index) == list[index as int],
        index >= list.len() ==> handle_at(list, index) == 0,
{
}

/// Each command changes one thing of one source: name, volume or muting, to what
/// was asked for, the volume within its range; the rest of the source stays, and
/// so does every other source.
pub proof fn each_command_changes_one_thing_of_one_source(
    list: Seq<AudioSourceView>,
    index: usize,
    i: int,
    label: Seq<char>,
    volume: Single,
    muted: bool,
)
    requires
        0 <= i < list.len(),
    ensures
        with_label(list, index, label).len() == list.len(),
        with_volume(list, index, volume).len() == list.len(),
        with_muted(list, index, muted).len() == list.len(),
        i != index ==> with_label(list, index, label)[i] == list[i] && with_volume(
            list,
            index,
            volume,
        )[i] == list[i] && with_muted(list, index, muted)[i] == list[i],
        i == index ==> {
            let (a, b) = (list[i], with_label(list, index, label)[i]);
            &&& b.label == label
            &&& b.kind == a.kind && b.device_id == a.device_id && b.volume == a.volume && b.muted
                == a.muted
        },
        i == index ==> {
            let (a, b) = (list[i], with_volume(list, index, volume)[i]);
            &&& (Single { bits: ZERO }).le_spec(volume) && volume.le_spec(Single { bits: TWO })
                ==> b.volume == volume
            &&& b.kind == a.kind && b.device_id == a.device_id && b.label == a.label && b.muted
                == a.muted
        },
        i == index ==> {
            let (a, b) = (list[i], with_muted(list, index, muted)[i]);
            &&& b.muted == muted
            &&& b.kind == a.kind && b.device_id == a.device_id && b.label == a.label && b.volume
                == a.volume
        },
{
}

/// The captured source of a place gets the very volume that is stored for it, and
/// no other source is touched.
pub proof fn the_captured_source_gets_the_stored_volume(
    v: CaptureView,
    list: Seq<AudioSourceView>,
    index: usize,
    volume: Single,
)
    requires
        index < list.len(),
        index < v.audio_sources.len(),
    ensures
        v.audio_sources[index as int] != 0 ==> (live_volume_of(Some(v), index, volume) matches Some(
            live,
        ) && live.source == v.audio_sources[index as int] && live.volume == with_volume(
            list,
            index,
            volume,
        )[index as int].volume),
        v.audio_sources[index as int] == 0 ==> live_volume_of(Some(v), index, volume) is None,
        live_volume_of(None, index, volume) is None,
{
}

} // verus!
