//! The configuration: what it holds, its defaults, and the slot that keeps the
//! one in force.

use crate::single::{Single, HUNDRED, ONE};
use vstd::prelude::*;

verus! {

/// A key and the modifiers held with it.
#[derive(Clone, Copy, PartialEq, Eq, Structural, Debug)]
pub struct HotkeyConfig {
    /// Windows virtual-key code.
    pub vk_code: i32,
    pub ctrl: bool,
    pub shift: bool,
    pub alt: bool,
}

impl Default for HotkeyConfig {
    fn default() -> (r: Self)
        ensures
            r == (HotkeyConfig { vk_code: 0, ctrl: false, shift: false, alt: false }),
    {
        HotkeyConfig { vk_code: 0, ctrl: false, shift: false, alt: false }
    }
}

/// Which way an audio device is captured.
#[derive(Clone, Copy, PartialEq, Eq, Structural, Debug)]
pub enum AudioSourceKind {
    /// What a device plays: the desktop, or a virtual output.
    Output,
    /// What a device records: a microphone, or a virtual input.
    Input,
}

/// One captured audio device.
#[derive(Debug)]
pub struct AudioSourceConfig {
    pub kind: AudioSourceKind,
    pub device_id: String,
    pub label: String,
    /// Linear volume from 0.0, silence, over 1.0, 100%, to 2.0, a boost of 100%.
    /// Independent of `muted`.
    pub volume: Single,
    pub muted: bool,
}

/// What an [`AudioSourceConfig`] holds.
#[verifier::ext_equal]
pub struct AudioSourceView {
    pub kind: AudioSourceKind,
    pub device_id: Seq<char>,
    pub label: Seq<char>,
    pub volume: Single,
    pub muted: bool,
}

impl View for AudioSourceConfig {
    type V = AudioSourceView;

    open spec fn view(&self) -> AudioSourceView {
        AudioSourceView {
            kind: self.kind,
            device_id: self.device_id@,
            label: self.label@,
            volume: self.volume,
            muted: self.muted,
        }
    }
}

impl Clone for AudioSourceConfig {
    fn clone(&self) -> (r: Self)
        ensures
            r == *self,
    {
        AudioSourceConfig {
            kind: self.kind,
            device_id: self.device_id.clone(),
            label: self.label.clone(),
            volume: self.volume,
            muted: self.muted,
        }
    }
}

/// What an overlay shows.
#[derive(Clone, Copy, PartialEq, Eq, Structural, Debug)]
pub enum OverlayKind {
    /// A picture; the content is a file path.
    Image,
    /// Plain text; the content is the text.
    Text,
    /// A web page; the content is its address.
    Browser,
}

/// One overlay on top of the capture.
#[derive(Debug)]
pub struct OverlayConfig {
    pub kind: OverlayKind,
    pub content: String,
    pub x: Single,
    pub y: Single,
    /// Uniform scale of configurations written before the axes had their own.
    pub scale: Single,
    pub scale_x: Single,
    pub scale_y: Single,
    pub visible: bool,
    pub locked: bool,
    /// 0.0 is invisible, 1.0 is opaque.
    pub opacity: Single,
}

/// What an [`OverlayConfig`] holds.
#[verifier::ext_equal]
pub struct OverlayView {
    pub kind: OverlayKind,
    pub content: Seq<char>,
    pub x: Single,
    pub y: Single,
    pub scale: Single,
    pub scale_x: Single,
    pub scale_y: Single,
    pub visible: bool,
    pub locked: bool,
    pub opacity: Single,
}

/// The scale of an axis: its own, unless that is still 1.0 while the uniform
/// scale is not; then the uniform one.
pub open spec fn effective_scale(axis: Single, uniform: Single) -> Single {
    if axis.bits == ONE && uniform.bits != ONE {
        uniform
    } else {
        axis
    }
}

impl View for OverlayConfig {
    type V = OverlayView;

    open spec fn view(&self) -> OverlayView {
        OverlayView {
            kind: self.kind,
            content: self.content@,
            x: self.x,
            y: self.y,
            scale: self.scale,
            scale_x: self.scale_x,
            scale_y: self.scale_y,
            visible: self.visible,
            locked: self.locked,
            opacity: self.opacity,
        }
    }
}

impl Clone for OverlayConfig {
    fn clone(&self) -> (r: Self)
        ensures
            r == *self,
    {
        OverlayConfig {
            kind: self.kind,
            content: self.content.clone(),
            x: self.x,
            y: self.y,
            scale: self.scale,
            scale_x: self.scale_x,
            scale_y: self.scale_y,
            visible: self.visible,
            locked: self.locked,
            opacity: self.opacity,
        }
    }
}

/// A new overlay: at (100, 100), full size, opaque, visible and unlocked.
pub open spec fn fresh_overlay(kind: OverlayKind, content: Seq<char>) -> OverlayView {
    OverlayView {
        kind,
        content,
        x: Single { bits: HUNDRED },
        y: Single { bits: HUNDRED },
        scale: Single { bits: ONE },
        scale_x: Single { bits: ONE },
        scale_y: Single { bits: ONE },
        visible: true,
        locked: false,
        opacity: Single { bits: ONE },
    }
}

impl OverlayConfig {
    /// A new overlay of this kind.
    pub fn new(kind: OverlayKind, content: String) -> (r: Self)
        ensures
            r@ == fresh_overlay(kind, content@),
    {
        OverlayConfig {
            kind,
            content,
            x: default_overlay_pos(),
            y: default_overlay_pos(),
            scale: default_overlay_scale(),
            scale_x: default_overlay_scale(),
            scale_y: default_overlay_scale(),
            visible: default_overlay_visible(),
            locked: default_overlay_locked(),
            opacity: default_overlay_opacity(),
        }
    }

    /// The horizontal scale in effect.
    pub fn get_scale_x(&self) -> (r: Single)
        ensures
            r == effective_scale(self.scale_x, self.scale),
    {
        if self.scale_x.bits == ONE && self.scale.bits != ONE {
            self.scale
        } else {
            self.scale_x
        }
    }

    /// The vertical scale in effect.
    pub fn get_scale_y(&self) -> (r: Single)
        ensures
            r == effective_scale(self.scale_y, self.scale),
    {
        if self.scale_y.bits == ONE && self.scale.bits != ONE {
            self.scale
        } else {
            self.scale_y
        }
    }
}

/// The configuration of the application.
#[derive(Debug)]
pub struct EmberioConfig {
    /// How many seconds a clip holds.
    pub clip_seconds: i64,
    pub clips_dir: Option<String>,
    /// The key that saves a clip.
    pub hotkey: Option<HotkeyConfig>,
    /// The key that starts and stops the recording.
    pub hotkey_toggle: Option<HotkeyConfig>,
    /// "screen", "window" or "game".
    pub video_source_type: String,
    pub video_source_id: Option<String>,
    pub monitor_id: Option<String>,
    pub audio_sources: Vec<AudioSourceConfig>,
    pub theme: String,
    /// "original" or "720p".
    pub resolution: String,
    pub fps: i64,
    /// "auto", or the identifier of one encoder.
    pub video_encoder: String,
    /// The overlays, the front-most first.
    pub overlays: Vec<OverlayConfig>,
}

/// What an [`EmberioConfig`] holds.
#[verifier::ext_equal]
pub struct ConfigView {
    pub clip_seconds: i64,
    pub clips_dir: Option<Seq<char>>,
    pub hotkey: Option<HotkeyConfig>,
    pub hotkey_toggle: Option<HotkeyConfig>,
    pub video_source_type: Seq<char>,
    pub video_source_id: Option<Seq<char>>,
    pub monitor_id: Option<Seq<char>>,
    pub audio_sources: Seq<AudioSourceView>,
    pub theme: Seq<char>,
    pub resolution: Seq<char>,
    pub fps: i64,
    pub video_encoder: Seq<char>,
    pub overlays: Seq<OverlayView>,
}

/// The text of an optional string.
pub open spec fn text_of(s: Option<String>) -> Option<Seq<char>> {
    match s {
        Some(t) => Some(t@),
        None => None,
    }
}

/// What a list of audio sources holds.
pub open spec fn audio_views(list: Seq<AudioSourceConfig>) -> Seq<AudioSourceView> {
    list.map_values(|a: AudioSourceConfig| a@)
}

/// What a list of overlays holds.
pub open spec fn overlay_views(list: Seq<OverlayConfig>) -> Seq<OverlayView> {
    list.map_values(|o: OverlayConfig| o@)
}

impl View for EmberioConfig {
    type V = ConfigView;

    open spec fn view(&self) -> ConfigView {
        ConfigView {
            clip_seconds: self.clip_seconds,
            clips_dir: text_of(self.clips_dir),
            hotkey: self.hotkey,
            hotkey_toggle: self.hotkey_toggle,
            video_source_type: self.video_source_type@,
            video_source_id: text_of(self.video_source_id),
            monitor_id: text_of(self.monitor_id),
            audio_sources: audio_views(self.audio_sources@),
            theme: self.theme@,
            resolution: self.resolution@,
            fps: self.fps,
            video_encoder: self.video_encoder@,
            overlays: overlay_views(self.overlays@),
        }
    }
}

/// Copies an optional string.
pub fn clone_text(s: &Option<String>) -> (r: Option<String>)
    ensures
        r == *s,
{
    match s {
        Some(t) => Some(t.clone()),
        None => None,
    }
}

/// Copies a list of audio sources.
pub fn clone_audio_sources(list: &Vec<AudioSourceConfig>) -> (r: Vec<AudioSourceConfig>)
    ensures
        r@ == list@,
{
    let r = list.clone();
    assert(r@ =~= list@);
    r
}

/// Copies a list of overlays.
pub fn clone_overlays(list: &Vec<OverlayConfig>) -> (r: Vec<OverlayConfig>)
    ensures
        r@ == list@,
{
    let r = list.clone();
    assert(r@ =~= list@);
    r
}

impl Clone for EmberioConfig {
    fn clone(&self) -> (r: Self)
        ensures
            r@ == self@,
    {
        EmberioConfig {
            clip_seconds: self.clip_seconds,
            clips_dir: clone_text(&self.clips_dir),
            hotkey: self.hotkey,
            hotkey_toggle: self.hotkey_toggle,
            video_source_type: self.video_source_type.clone(),
            video_source_id: clone_text(&self.video_source_id),
            monitor_id: clone_text(&self.monitor_id),
            audio_sources: clone_audio_sources(&self.audio_sources),
            theme: self.theme.clone(),
            resolution: self.resolution.clone(),
            fps: self.fps,
            video_encoder: self.video_encoder.clone(),
            overlays: clone_overlays(&self.overlays),
        }
    }
}

// ---------------------------------------------------------------------------
// Defaults

/// The volume of a new audio source: 1.0.
pub fn default_volume() -> (r: Single)
    ensures
        r.bits == ONE,
{
    Single { bits: ONE }
}

/// Where a new overlay stands on each axis: 100.0.
pub fn default_overlay_pos() -> (r: Single)
    ensures
        r.bits == HUNDRED,
{
    Single { bits: HUNDRED }
}

/// The scale of a new overlay: 1.0.
pub fn default_overlay_scale() -> (r: Single)
    ensures
        r.bits == ONE,
{
    Single { bits: ONE }
}

/// The opacity of a new overlay: 1.0, opaque.
pub fn default_overlay_opacity() -> (r: Single)
    ensures
        r.bits == ONE,
{
    Single { bits: ONE }
}

/// A new overlay is visible.
pub fn default_overlay_visible() -> (r: bool)
    ensures
        r == true,
{
    true
}

/// A new overlay can be moved.
pub fn default_overlay_locked() -> (r: bool)
    ensures
        r == false,
{
    false
}

/// A clip holds the last minute.
pub fn default_clip_seconds() -> (r: i64)
    ensures
        r == 60,
{
    60
}

/// The dark theme.
pub fn default_theme() -> (r: String)
    ensures
        r@ == "dark"@,
{
    "dark".to_owned()
}

/// The whole screen is captured.
pub fn default_video_source_type() -> (r: String)
    ensures
        r@ == "screen"@,
{
    "screen".to_owned()
}

/// The resolution of the monitor.
pub fn default_resolution() -> (r: String)
    ensures
        r@ == "original"@,
{
    "original".to_owned()
}

/// Sixty frames per second.
pub fn default_fps() -> (r: i64)
    ensures
        r == 60,
{
    60
}

/// The encoder is picked when the recording starts.
pub fn default_video_encoder() -> (r: String)
    ensures
        r@ == "auto"@,
{
    "auto".to_owned()
}

/// The default output device of the desktop.
pub open spec fn desktop_audio() -> AudioSourceView {
    AudioSourceView {
        kind: AudioSourceKind::Output,
        device_id: "default"@,
        label: "Audio de escritorio"@,
        volume: Single { bits: ONE },
        muted: false,
    }
}

/// One audio source: what the desktop plays.
pub fn default_audio_sources() -> (r: Vec<AudioSourceConfig>)
    ensures
        audio_views(r@) == seq![desktop_audio()],
{
    let mut list: Vec<AudioSourceConfig> = Vec::new();
    list.push(
        AudioSourceConfig {
            kind: AudioSourceKind::Output,
            device_id: "default".to_owned(),
            label: "Audio de escritorio".to_owned(),
            volume: default_volume(),
            muted: false,
        },
    );
    assert(audio_views(list@) =~= seq![desktop_audio()]);
    list
}

/// The configuration of a first start.
pub open spec fn default_config() -> ConfigView {
    ConfigView {
        clip_seconds: 60,
        clips_dir: None,
        hotkey: None,
        hotkey_toggle: None,
        video_source_type: "screen"@,
        video_source_id: None,
        monitor_id: None,
        audio_sources: seq![desktop_audio()],
        theme: "dark"@,
        resolution: "original"@,
        fps: 60,
        video_encoder: "auto"@,
        overlays: seq![],
    }
}

impl Default for EmberioConfig {
    fn default() -> (r: Self)
        ensures
            r@ == default_config(),
    {
        let r = EmberioConfig {
            clip_seconds: default_clip_seconds(),
            clips_dir: None,
            hotkey: None,
            hotkey_toggle: None,
            video_source_type: default_video_source_type(),
            video_source_id: None,
            monitor_id: None,
            audio_sources: default_audio_sources(),
            theme: default_theme(),
            resolution: default_resolution(),
            fps: default_fps(),
            video_encoder: default_video_encoder(),
            overlays: Vec::new(),
        };
        assert(r@ =~= default_config());
        r
    }
}

// ---------------------------------------------------------------------------
// The configuration in force

/// What a slot puts in force: its configuration, or the default where it has
/// none yet.
pub open spec fn in_force(slot: Option<EmberioConfig>) -> ConfigView {
    match slot {
        Some(c) => c@,
        None => default_config(),
    }
}

/// The configuration in force, to be read or changed. A slot without one gets
/// the default first.
pub fn config_mut(slot: &mut Option<EmberioConfig>) -> (c: &mut EmberioConfig)
    ensures
        c@ == in_force(*old(slot)),
        *old(slot) matches Some(was) ==> *c == was,
        *final(slot) == Some(*final(c)),
{
    if slot.is_none() {
        *slot = Some(EmberioConfig::default());
    }
    slot.as_mut().unwrap()
}

/// Runs `f` on the configuration in force and returns what it returns.
pub fn with_config<R, F: FnOnce(&mut EmberioConfig) -> R>(
    slot: &mut Option<EmberioConfig>,
    f: F,
) -> (r: R)
    requires
        forall|c: &mut EmberioConfig|
            (c@ == in_force(*old(slot)) && (*old(slot) matches Some(was) ==> *c == was))
                ==> call_requires(f, (c,)),
    ensures
        *final(slot) is Some,
        exists|c: &mut EmberioConfig|
            c@ == in_force(*old(slot)) && (*old(slot) matches Some(was) ==> *c == was)
                && *final(slot) == Some(*final(c)) && #[trigger] call_ensures(f, (c,), r),
{
    let c = config_mut(slot);
    f(c)
}

/// The configuration to write to disk: the one in force.
pub fn persist_config(slot: &Option<EmberioConfig>) -> (r: EmberioConfig)
    ensures
        r@ == in_force(*slot),
{
    match slot {
        Some(c) => c.clone(),
        None => EmberioConfig::default(),
    }
}

/// The configuration of a start: the one read from disk, or the default where
/// the file is missing or cannot be read.
pub fn load(stored: Option<EmberioConfig>) -> (r: EmberioConfig)
    ensures
        r@ == in_force(stored),
        stored matches Some(c) ==> r == c,
{
    match stored {
        Some(c) => c,
        None => EmberioConfig::default(),
    }
}

/// Of the configurations waiting to be written, the one that is written: the
/// last to arrive. The others are out of date.
pub fn newest(first: EmberioConfig, queued: Vec<EmberioConfig>) -> (r: EmberioConfig)
    ensures
        queued@.len() == 0 ==> r == first,
        queued@.len() > 0 ==> r == queued@.last(),
{
    let mut queued = queued;
    match queued.pop() {
        Some(c) => c,
        None => first,
    }
}

// ---------------------------------------------------------------------------
// Laws

/// An axis has the scale set for it. Only one left at 1.0 takes the uniform scale
/// of an older configuration.
pub proof fn an_axis_has_its_own_scale(axis: Single, uniform: Single)
    ensures
        axis.bits != ONE ==> effective_scale(axis, uniform) == axis,
        axis.bits == ONE ==> effective_scale(axis, uniform) == uniform,
        effective_scale(axis, Single { bits: ONE }) == axis,
{
}

/// What a configuration holds is told apart in full: two that hold the same have
/// the same settings, each in its own field.
pub proof fn a_configuration_is_told_by_what_it_holds(a: EmberioConfig, b: EmberioConfig)
    ensures
        a@.clip_seconds == a.clip_seconds,
        a@.fps == a.fps,
        a@.theme == a.theme@,
        a@.resolution == a.resolution@,
        a@.video_encoder == a.video_encoder@,
        a@.video_source_type == a.video_source_type@,
        a@.hotkey == a.hotkey,
        a@.hotkey_toggle == a.hotkey_toggle,
        a.clips_dir matches Some(d) ==> a@.clips_dir == Some(d@),
        a.video_source_id matches Some(d) ==> a@.video_source_id == Some(d@),
        a.monitor_id matches Some(d) ==> a@.monitor_id == Some(d@),
        a.clips_dir is None <==> a@.clips_dir is None,
        a.video_source_id is None <==> a@.video_source_id is None,
        a.monitor_id is None <==> a@.monitor_id is None,
        a@.audio_sources.len() == a.audio_sources@.len(),
        a@.overlays.len() == a.overlays@.len(),
        forall|i: int|
            0 <= i < a.audio_sources@.len() ==> #[trigger] a@.audio_sources[i] == a.audio_sources@[i]@,
        forall|i: int| 0 <= i < a.overlays@.len() ==> #[trigger] a@.overlays[i] == a.overlays@[i]@,
{
}

/// What an audio source holds is told in full.
pub proof fn an_audio_source_is_told_by_what_it_holds(a: AudioSourceConfig)
    ensures
        a@.kind == a.kind,
        a@.device_id == a.device_id@,
        a@.label == a.label@,
        a@.volume == a.volume,
        a@.muted == a.muted,
{
}

/// What an overlay holds is told in full.
pub proof fn an_overlay_is_told_by_what_it_holds(o: OverlayConfig)
    ensures
        o@.kind == o.kind,
        o@.content == o.content@,
        o@.x == o.x,
        o@.y == o.y,
        o@.scale == o.scale,
        o@.scale_x == o.scale_x,
        o@.scale_y == o.scale_y,
        o@.visible == o.visible,
        o@.locked == o.locked,
        o@.opacity == o.opacity,
{
}

/// A slot that has a configuration puts it in force, and an empty one the
/// defaults, whatever was there before.
pub proof fn the_slot_decides_what_is_in_force(c: EmberioConfig)
    ensures
        in_force(Some(c)) == c@,
        in_force(None) == default_config(),
{
}

/// A first start records the last minute of the whole screen, as large as it is,
/// at sixty frames a second, with the sound of the desktop and nothing on top; it
/// has the shortcuts F9 and F10 and leaves the encoder to Ember.
pub proof fn a_first_start_records_the_screen(lines: u32, ids: Seq<Seq<char>>)
    ensures
        ({
            let c = default_config();
            &&& c.clip_seconds == 60
            &&& c.fps == 60
            &&& c.overlays.len() == 0
            &&& c.theme == "dark"@
            &&& c.clips_dir is None && c.monitor_id is None && c.video_source_id is None
            &&& crate::sources::capture_plugin_spec(c.video_source_type) == "monitor_capture"@
            &&& c.video_source_type == "screen"@
            &&& !crate::platform::is_downscaled(c.resolution, lines)
            &&& c.resolution == "original"@
            &&& crate::encoders::encoders_to_try(c.video_encoder, ids)
                == crate::encoders::registered_among(crate::encoders::all_encoders(), ids)
            &&& c.video_encoder == "auto"@
            &&& crate::hotkeys::hotkeys_of(c).save->0.vk_code == 0x78
            &&& crate::hotkeys::hotkeys_of(c).toggle->0.vk_code == 0x79
            &&& c.audio_sources.len() == 1
            &&& crate::audio::audio_plugin_spec(c.audio_sources[0].kind)
                == "wasapi_output_capture"@
            &&& c.audio_sources[0].device_id == "default"@
            &&& c.audio_sources[0].label == "Audio de escritorio"@
            &&& c.audio_sources[0].volume.bits == ONE
            &&& !c.audio_sources[0].muted
        }),
{
    reveal_strlit("screen");
    reveal_strlit("window");
    reveal_strlit("game");
    reveal_strlit("original");
    reveal_strlit("720p");
    assert("screen"@[0] == 's' && "window"@[0] == 'w' && "game"@[0] == 'g');
    assert("original"@[0] == 'o' && "720p"@[0] == '7');
    crate::encoders::an_open_choice_tries_every_encoder("auto"@, ids);
}

} // verus!
