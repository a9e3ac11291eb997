//! Putting the captured scene together, step by step.
//!
//! The engine does the work of each step and hands back what became of it;
//! [`CaptureSetup`] keeps what has been made, says what comes next, and says
//! what has to be given back where a step fails.

use crate::audio::{
    addition_refused, audio_channel_spec, audio_kind_named, audio_plugin_spec, audio_source_request,
    fresh_audio_source, quiet, quiet_levels, AudioRoute, MeterLevel,
};
use crate::capture::{
    audio_in_step, audio_source_created, back_to_front, bare, capture_created, capture_item_added,
    given_back, meter_created, meter_made_spec, no_item, no_source, overlay_loaded,
    overlays_in_step, owned_by, roll_back, scene_created, sync_scene_z_order, CaptureState, CaptureView, OverlayItem, Release,
    SetupFailure,
};
use crate::config::{
    audio_views, clone_audio_sources, clone_overlays, clone_text, config_mut, in_force, overlay_views,
    text_of, AudioSourceConfig, AudioSourceView, ConfigView, EmberioConfig, OverlayConfig, OverlayView,
};
use crate::settings::stored;
use crate::sources::{
    capture_key, capture_key_spec, capture_plugin, capture_plugin_spec,
    capture_settings_spec, choose_first_source, initial_capture_settings, settings_view,
    PropertyOption, SourceRequest, ValueView,
};
use crate::text::decimal;
use vstd::prelude::*;

verus! {

/// What is to be done next to put the scene together.
#[derive(Clone, Copy, PartialEq, Eq, Structural, Debug)]
pub enum SetupStep {
    /// Ask the engine for the scene.
    CreateScene,
    /// Nothing has been chosen to capture: ask the engine what there is.
    ListChoices,
    /// Ask the engine for the source of the captured picture.
    CreateCapture,
    /// Put it into the scene.
    AddCapture,
    /// Ask the engine for the source of the audio entry at this place.
    CreateAudio(usize),
    /// Give it its volume and its channel, and ask for its level meter.
    CreateMeter(usize),
    /// Show the scene on the channel of the picture.
    ShowScene,
    /// Make the overlay at this place.
    CreateOverlay(usize),
    /// The scene is complete.
    Finished,
}

/// A scene that is being put together.
pub struct CaptureSetup {
    step: SetupStep,
    plugin: &'static str,
    source_id: Option<String>,
    audio: Vec<AudioSourceConfig>,
    overlays: Vec<OverlayConfig>,
    state: CaptureState,
}

/// What a [`CaptureSetup`] holds.
#[verifier::ext_equal]
pub struct SetupView {
    pub step: SetupStep,
    /// The source that captures the picture.
    pub plugin: Seq<char>,
    /// What it captures.
    pub source_id: Option<Seq<char>>,
    /// The audio entries of the configuration.
    pub audio: Seq<AudioSourceView>,
    /// The overlays of the configuration, once the scene is shown.
    pub overlays: Seq<OverlayView>,
    /// What has been made so far.
    pub state: CaptureView,
}

impl View for CaptureSetup {
    type V = SetupView;

    closed spec fn view(&self) -> SetupView {
        SetupView {
            step: self.step,
            plugin: self.plugin@,
            source_id: text_of(self.source_id),
            audio: audio_views(self.audio@),
            overlays: overlay_views(self.overlays@),
            state: self.state@,
        }
    }
}

/// The step after the audio entries before `i` are done.
pub open spec fn audio_step(count: nat, i: int) -> SetupStep {
    if i < count {
        SetupStep::CreateAudio(i as usize)
    } else {
        SetupStep::ShowScene
    }
}

/// The step after the overlays before `i` are done.
pub open spec fn overlay_step(count: nat, i: int) -> SetupStep {
    if i < count {
        SetupStep::CreateOverlay(i as usize)
    } else {
        SetupStep::Finished
    }
}

impl SetupView {
    /// How many audio sources have been made, of those that the configuration
    /// asks for.
    pub open spec fn audio_done(self) -> int {
        match self.step {
            SetupStep::CreateAudio(i) => i as int,
            SetupStep::CreateMeter(i) => i + 1,
            SetupStep::ShowScene => self.audio.len() as int,
            SetupStep::CreateOverlay(_) => self.audio.len() as int,
            SetupStep::Finished => self.audio.len() as int,
            _ => 0,
        }
    }

    /// What has been made is what the steps before this one make.
    pub open spec fn wf(self) -> bool {
        &&& self.state.scene != 0 <==> !(self.step is CreateScene)
        &&& self.state.capture_source != 0 <==> !(self.step is CreateScene || self.step
            is ListChoices || self.step is CreateCapture)
        &&& self.audio.len() <= usize::MAX
        &&& self.overlays.len() <= usize::MAX
        &&& self.state.audio_sources.len() == self.audio_done()
        &&& self.state.audio_volmeters.len() == self.audio_done() - (if self.step is CreateMeter {
            1int
        } else {
            0
        })
        &&& match self.step {
            SetupStep::CreateAudio(i) => i < self.audio.len(),
            SetupStep::CreateMeter(i) => i < self.audio.len(),
            SetupStep::CreateOverlay(i) => i < self.overlays.len() && self.state.overlays.len() == i,
            SetupStep::Finished => self.state.overlays.len() == self.overlays.len(),
            _ => true,
        }
        &&& self.step is CreateOverlay || self.step is Finished || self.state.overlays.len() == 0
    }
}

/// How the source of an audio entry is heard: as the entry says, on the channel of
/// its place.
pub open spec fn route_of(entry: AudioSourceView, i: usize) -> AudioRoute {
    AudioRoute { volume: entry.volume, muted: entry.muted, channel: audio_channel_spec(i) }
}

/// Begins to put the scene together, unless it is there.
pub fn ensure_capture_started(running: &Option<CaptureState>, slot: &mut Option<EmberioConfig>) -> (r:
    Option<CaptureSetup>)
    ensures
        r is None <==> *running is Some,
        r is None ==> *final(slot) == *old(slot),
        in_force(*final(slot)) == in_force(*old(slot)),
        r matches Some(s) ==> {
            let c = in_force(*old(slot));
            &&& s@ == (SetupView {
                step: SetupStep::CreateScene,
                plugin: capture_plugin_spec(c.video_source_type),
                source_id: c.video_source_id,
                audio: c.audio_sources,
                overlays: seq![],
                state: bare(0),
            })
            &&& s@.wf()
        },
{
    if running.is_some() {
        return None;
    }
    let c = config_mut(slot);
    let setup = CaptureSetup {
        step: SetupStep::CreateScene,
        plugin: capture_plugin(c.video_source_type.as_str()),
        source_id: clone_text(&c.video_source_id),
        audio: clone_audio_sources(&c.audio_sources),
        overlays: Vec::new(),
        state: CaptureState {
            scene: 0,
            capture_source: 0,
            capture_item: 0,
            audio_sources: Vec::new(),
            audio_volmeters: Vec::new(),
            overlays: Vec::new(),
        },
    };
    assert(setup@.audio.len() == setup.audio.len());
    assert(setup@.overlays =~= seq![]);
    assert(setup@.state =~= bare(0));
    Some(setup)
}

impl CaptureSetup {
    /// What is to be done next.
    pub fn step(&self) -> (r: SetupStep)
        ensures
            r == self@.step,
    {
        self.step
    }

    /// The scene; 0 before it has been made.
    pub fn scene(&self) -> (r: usize)
        ensures
            r == self@.state.scene,
    {
        self.state.scene
    }

    /// The source of the captured picture; 0 before it has been made.
    pub fn capture_source(&self) -> (r: usize)
        ensures
            r == self@.state.capture_source,
    {
        self.state.capture_source
    }

    /// The scene has been asked for.
    pub fn scene_created(&mut self, scene: usize) -> (r: Result<(), SetupFailure>)
        requires
            old(self)@.wf(),
            old(self)@.step is CreateScene,
        ensures
            final(self)@.wf(),
            r is Ok <==> scene != 0,
            r is Ok ==> final(self)@ == (SetupView {
                step: if old(self)@.source_id is None {
                    SetupStep::ListChoices
                } else {
                    SetupStep::CreateCapture
                },
                state: bare(scene),
                ..old(self)@
            }),
            r matches Err(f) ==> {
                &&& f.message@ == "obs_scene_create devolvio null"@
                &&& f.releases@.len() == 0
                &&& final(self)@ == old(self)@
            },
    {
        match scene_created(scene) {
            Ok(state) => {
                self.state = state;
                self.step =
                if self.source_id.is_none() {
                    SetupStep::ListChoices
                } else {
                    SetupStep::CreateCapture
                };
                Ok(())
            },
            Err(message) => {
                Err(SetupFailure { message, releases: Vec::new() })
            },
        }
    }

    /// The source and the setting whose choices are asked for.
    pub fn choices_request(&self) -> (r: (&'static str, &'static str))
        ensures
            r.0@ == self@.plugin,
            r.1@ == capture_key_spec(self@.plugin),
    {
        (self.plugin, capture_key(self.plugin))
    }

    /// The engine has told what can be captured: the first choice is taken and
    /// kept, where there is one. Returns the configuration that goes to disk.
    pub fn choices_listed(&mut self, slot: &mut Option<EmberioConfig>, options: &Vec<PropertyOption>) -> (r:
        Option<EmberioConfig>)
        requires
            old(self)@.wf(),
            old(self)@.step is ListChoices,
        ensures
            final(self)@.wf(),
            final(self)@ == (SetupView {
                step: SetupStep::CreateCapture,
                source_id: if options@.len() > 0 {
                    Some(options@[0]@.value)
                } else {
                    old(self)@.source_id
                },
                ..old(self)@
            }),
            r is Some <==> options@.len() > 0,
            r is None ==> *final(slot) == *old(slot),
            r matches Some(saved) ==> stored(
                *final(slot),
                saved,
                ConfigView { video_source_id: Some(options@[0]@.value), ..in_force(*old(slot)) },
            ),
    {
        self.step = SetupStep::CreateCapture;
        match choose_first_source(slot, options) {
            Some(chosen) => {
                self.source_id = Some(chosen.value);
                Some(chosen.config)
            },
            None => None,
        }
    }

    /// The source of the captured picture that the engine is asked for.
    pub fn capture_request(&self) -> (r: SourceRequest)
        ensures
            r.plugin@ == self@.plugin,
            r.name@ == "Captura Principal"@,
            settings_view(r.settings@) == (match self@.source_id {
                Some(id) => capture_settings_spec(self@.plugin, id),
                None => seq![],
            }),
    {
        SourceRequest {
            plugin: self.plugin,
            name: "Captura Principal".to_owned(),
            settings: initial_capture_settings(self.plugin, &self.source_id),
        }
    }

    /// The source of the captured picture has been asked for. Without it the
    /// scene is given back.
    pub fn capture_created(&mut self, source: usize) -> (r: Result<(), SetupFailure>)
        requires
            old(self)@.wf(),
            old(self)@.step is CreateCapture,
        ensures
            final(self)@.wf(),
            r is Ok <==> source != 0,
            r is Ok ==> final(self)@ == (SetupView {
                step: SetupStep::AddCapture,
                state: CaptureView { capture_source: source, ..old(self)@.state },
                ..old(self)@
            }),
            r matches Err(f) ==> {
                &&& f.message@ == no_source(old(self)@.plugin)
                &&& f.releases@ == seq![Release::ReleaseScene(old(self)@.state.scene)]
                &&& final(self)@ == old(self)@
            },
    {
        match capture_created(&mut self.state, self.plugin, source) {
            Ok(_) => {
                self.step = SetupStep::AddCapture;
                Ok(())
            },
            Err(f) => Err(f),
        }
    }

    /// The captured picture has been put into the scene.
    pub fn capture_added(&mut self, item: usize)
        requires
            old(self)@.wf(),
            old(self)@.step is AddCapture,
        ensures
            final(self)@.wf(),
            final(self)@ == (SetupView {
                step: audio_step(old(self)@.audio.len(), 0),
                state: CaptureView { capture_item: item, ..old(self)@.state },
                ..old(self)@
            }),
    {
        capture_item_added(&mut self.state, item);
        self.step =
        if self.audio.len() > 0 {
            SetupStep::CreateAudio(0)
        } else {
            SetupStep::ShowScene
        };
    }

    /// The audio source that the engine is asked for.
    pub fn audio_request(&self) -> (r: SourceRequest)
        requires
            self@.wf(),
            self@.step is CreateAudio,
        ensures
            ({
                let i = self@.step->CreateAudio_0;
                let entry = self@.audio[i as int];
                &&& r.plugin@ == audio_plugin_spec(entry.kind)
                &&& r.name@ == "Audio Source "@ + decimal(i as int)
                &&& settings_view(r.settings@) == seq![
                    ("device_id"@, ValueView::Text(entry.device_id)),
                ]
            }),
    {
        let i: usize = self.state.audio_sources.len();
        let entry = &self.audio[i];
        assert(self@.audio[i as int] == entry@);
        audio_source_request(i, entry.kind, entry.device_id.as_str())
    }

    /// The audio source has been asked for. Without it everything made so far
    /// is given back, each thing once.
    pub fn audio_created(&mut self, source: usize) -> (r: Result<AudioRoute, SetupFailure>)
        requires
            old(self)@.wf(),
            old(self)@.step is CreateAudio,
        ensures
            final(self)@.wf(),
            ({
                let i = old(self)@.step->CreateAudio_0;
                let entry = old(self)@.audio[i as int];
                &&& r is Ok <==> source != 0
                &&& r matches Ok(route) ==> {
                    &&& final(self)@ == (SetupView {
                        step: SetupStep::CreateMeter(i),
                        state: CaptureView {
                            audio_sources: old(self)@.state.audio_sources.push(source),
                            ..old(self)@.state
                        },
                        ..old(self)@
                    })
                    &&& route == (AudioRoute {
                        volume: entry.volume,
                        muted: entry.muted,
                        channel: audio_channel_spec(i),
                    })
                    &&& route == route_of(entry, i)
                }
                &&& r matches Err(f) ==> {
                    &&& f.message@ == no_source(audio_plugin_spec(entry.kind)) + " para '"@
                        + entry.label + "'"@
                    &&& f.releases@ == roll_back(old(self)@.state)
                    &&& given_back(f.releases@) == owned_by(old(self)@.state)
                    &&& final(self)@ == old(self)@
                }
            }),
    {
        let i: usize = self.state.audio_sources.len();
        let (volume, muted) = (self.audio[i].volume, self.audio[i].muted);
        assert(self@.audio[i as int] == self.audio@[i as int]@);
        proof {
            crate::capture::a_failed_setup_leaks_nothing(self@.state);
        }
        match audio_source_created(&mut self.state, &self.audio[i], source) {
            Ok(channel) => {
                self.step = SetupStep::CreateMeter(i);
                Ok(AudioRoute { volume, muted, channel })
            },
            Err(f) => Err(f),
        }
    }

    /// The level meter of the audio source has been asked for, and has been put
    /// on the source where it could be. One that could not is returned, to be
    /// given back.
    pub fn meter_created(&mut self, meter: usize, attached: bool) -> (r: Option<usize>)
        requires
            old(self)@.wf(),
            old(self)@.step is CreateMeter,
        ensures
            final(self)@.wf(),
            final(self)@ == (SetupView {
                step: audio_step(old(self)@.audio.len(), old(self)@.step->CreateMeter_0 + 1),
                state: CaptureView {
                    audio_volmeters: old(self)@.state.audio_volmeters.push(
                        meter_made_spec(meter, attached).kept,
                    ),
                    ..old(self)@.state
                },
                ..old(self)@
            }),
            r == meter_made_spec(meter, attached).unused,
    {
        let unused = meter_created(&mut self.state, meter, attached);
        let done: usize = self.state.audio_sources.len();
        self.step =
        if done < self.audio.len() {
            SetupStep::CreateAudio(done)
        } else {
            SetupStep::ShowScene
        };
        unused
    }

    /// The audio sources are done. Returns their levels at rest, which take
    /// readings from now on.
    pub fn levels(&self) -> (r: Vec<MeterLevel>)
        requires
            self@.wf(),
            self@.step is ShowScene,
        ensures
            r@ == quiet(self@.state.audio_volmeters),
            r@.len() == self@.state.audio_sources.len(),
    {
        quiet_levels(&self.state.audio_volmeters)
    }

    /// The scene is shown. The overlays are looked up.
    pub fn scene_shown(&mut self, slot: &mut Option<EmberioConfig>)
        requires
            old(self)@.wf(),
            old(self)@.step is ShowScene,
        ensures
            final(self)@.wf(),
            final(self)@ == (SetupView {
                step: overlay_step(in_force(*old(slot)).overlays.len(), 0),
                overlays: in_force(*old(slot)).overlays,
                ..old(self)@
            }),
            in_force(*final(slot)) == in_force(*old(slot)),
    {
        let c = config_mut(slot);
        self.overlays = clone_overlays(&c.overlays);
        self.step =
        if self.overlays.len() > 0 {
            SetupStep::CreateOverlay(0)
        } else {
            SetupStep::Finished
        };
    }

    /// The overlay to be made.
    pub fn overlay_request(&self) -> (r: OverlayConfig)
        requires
            self@.wf(),
            self@.step is CreateOverlay,
        ensures
            r@ == self@.overlays[self@.step->CreateOverlay_0 as int],
    {
        let i: usize = match self.step {
            SetupStep::CreateOverlay(i) => i,
            _ => 0,
        };
        assert(self@.overlays[i as int] == self.overlays@[i as int]@);
        self.overlays[i].clone()
    }

    /// The overlay has been made, or has failed: then it keeps its place without
    /// handles, and the message is returned for the log.
    pub fn overlay_made(&mut self, made: Result<OverlayItem, String>) -> (r: Option<String>)
        requires
            old(self)@.wf(),
            old(self)@.step is CreateOverlay,
        ensures
            final(self)@.wf(),
            final(self)@ == (SetupView {
                step: overlay_step(old(self)@.overlays.len(), old(self)@.step->CreateOverlay_0 + 1),
                state: CaptureView {
                    overlays: old(self)@.state.overlays.push(
                        match made {
                            Ok(item) => item,
                            Err(_) => no_item(),
                        },
                    ),
                    ..old(self)@.state
                },
                ..old(self)@
            }),
            r is None <==> made is Ok,
            made matches Err(e) ==> r->0@ == "No se pudo cargar overlay persistido: "@ + e@,
    {
        let next: usize = match self.step {
            SetupStep::CreateOverlay(i) => i + 1,
            _ => 0,
        };
        let message = overlay_loaded(&mut self.state, made);
        self.step =
        if next < self.overlays.len() {
            SetupStep::CreateOverlay(next)
        } else {
            SetupStep::Finished
        };
        message
    }

    /// The order of the scene, from back to front.
    pub fn z_order(&self) -> (r: Vec<usize>)
        ensures
            r@ == back_to_front(self@.state),
    {
        sync_scene_z_order(&self.state)
    }

    /// The scene is complete: it is kept in its slot.
    pub fn publish(self, slot: &mut Option<CaptureState>)
        requires
            self@.wf(),
            self@.step is Finished,
        ensures
            *final(slot) is Some,
            (*final(slot))->0@ == self@.state,
    {
        *slot = Some(self.state);
    }
}

// ---------------------------------------------------------------------------
// Laws

/// A scene that is complete has the captured picture, and is in step with the
/// configuration that it was made from: one audio source and one level meter
/// entry for each audio entry, and one item for each overlay, in its place.
pub proof fn a_finished_scene_is_in_step(v: SetupView, c: ConfigView)
    requires
        v.wf(),
        v.step is Finished,
        v.audio == c.audio_sources,
        v.overlays == c.overlays,
    ensures
        v.state.scene != 0,
        v.state.capture_source != 0,
        v.state.overlays.len() == v.overlays.len(),
        overlays_in_step(Some(v.state), c),
        audio_in_step(Some(v.state), quiet(v.state.audio_volmeters), c),
{
}

/// Every audio entry and every overlay has its turn, one after the other, and
/// what comes after them comes after the last.
pub proof fn every_entry_has_its_turn(count: nat, i: usize)
    requires
        count <= usize::MAX,
    ensures
        i < count ==> audio_step(count, i as int) == SetupStep::CreateAudio(i),
        i >= count ==> audio_step(count, i as int) is ShowScene,
        i < count ==> overlay_step(count, i as int) == SetupStep::CreateOverlay(i),
        i >= count ==> overlay_step(count, i as int) is Finished,
{
}

/// A scene being put together holds what the steps before made: no scene before
/// the first step, a source for each audio entry that is done and a meter entry
/// for each of them, and overlays only once the scene is shown.
pub proof fn a_scene_grows_step_by_step(v: SetupView)
    requires
        v.wf(),
    ensures
        v.step is CreateScene ==> v.state.scene == 0,
        !(v.step is CreateScene) ==> v.state.scene != 0,
        v.step matches SetupStep::CreateAudio(i) ==> v.state.audio_sources.len() == i
            && v.state.audio_volmeters.len() == i && i < v.audio.len(),
        v.step matches SetupStep::CreateMeter(i) ==> v.state.audio_sources.len() == i + 1
            && v.state.audio_volmeters.len() == i && i < v.audio.len(),
        v.step is ShowScene ==> v.state.audio_sources.len() == v.audio.len()
            && v.state.one_meter_each() && v.state.overlays.len() == 0,
        v.step matches SetupStep::CreateOverlay(i) ==> v.state.overlays.len() == i && i
            < v.overlays.len(),
        v.step is AddCapture ==> v.state.capture_source != 0 && v.state.audio_sources.len() == 0,
{
}

/// The source that a start asks for is told apart by the entry: an entry stored
/// for an added source asks for the plugin and the device of the addition, on the
/// channel of its place.
pub proof fn a_stored_source_is_asked_for_again(
    list: Seq<AudioSourceView>,
    name: Seq<char>,
    device_id: Seq<char>,
    label: Seq<char>,
)
    requires
        addition_refused(name, list.len()) is None,
    ensures
        ({
            let entry = list.push(
                fresh_audio_source(audio_kind_named(name)->0, device_id, label),
            )[list.len() as int];
            &&& name == "output"@ ==> audio_plugin_spec(entry.kind) == "wasapi_output_capture"@
            &&& name == "input"@ ==> audio_plugin_spec(entry.kind) == "wasapi_input_capture"@
            &&& entry.device_id == device_id
            &&& audio_channel_spec(list.len() as usize) == Some((list.len() + 1) as u32)
        }),
{
    crate::audio::an_added_source_is_of_the_kind_named(list, name, device_id, label);
}

/// A stored source is heard as it was left, muted or not and as loud as it was,
/// on the channel after its place; a source beyond the fifth is on none.
pub proof fn a_stored_source_is_heard_as_it_was_left(entry: AudioSourceView, i: usize)
    ensures
        route_of(entry, i).muted == entry.muted,
        route_of(entry, i).volume == entry.volume,
        i < 5 ==> route_of(entry, i).channel == Some((i + 1) as u32),
        i >= 5 ==> route_of(entry, i).channel is None,
{
}

} // verus!
