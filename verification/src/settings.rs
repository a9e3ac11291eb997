//! Settings that only the configuration keeps.
//!
//! Each command changes the configuration in force and hands back the copy
//! that goes to disk.

use crate::config::{config_mut, in_force, ConfigView, EmberioConfig};
use crate::text::joined;
use vstd::prelude::*;

verus! {

/// The answer of a command, with the configuration that goes to disk.
pub struct Saved<T> {
    pub value: T,
    pub config: EmberioConfig,
}

/// `expected` is in force after the command, and it is what goes to disk.
pub open spec fn stored(slot: Option<EmberioConfig>, saved: EmberioConfig, expected: ConfigView) -> bool {
    slot is Some && in_force(slot) == expected && saved@ == expected
}

/// The configuration with another theme.
pub open spec fn with_theme(c: ConfigView, theme: Seq<char>) -> ConfigView {
    ConfigView { theme, ..c }
}

/// The configuration with another resolution.
pub open spec fn with_resolution(c: ConfigView, resolution: Seq<char>) -> ConfigView {
    ConfigView { resolution, ..c }
}

/// The configuration with another video encoder.
pub open spec fn with_video_encoder(c: ConfigView, video_encoder: Seq<char>) -> ConfigView {
    ConfigView { video_encoder, ..c }
}

/// The configuration with another frame rate.
pub open spec fn with_fps(c: ConfigView, fps: i64) -> ConfigView {
    ConfigView { fps, ..c }
}

/// The configuration that captures something else.
pub open spec fn with_video_source(c: ConfigView, source_type: Seq<char>, id: Seq<char>) -> ConfigView {
    ConfigView { video_source_type: source_type, video_source_id: Some(id), ..c }
}

/// The configuration with another folder for the clips.
pub open spec fn with_clips_dir(c: ConfigView, dir: Seq<char>) -> ConfigView {
    ConfigView { clips_dir: Some(dir), ..c }
}

/// Chooses the theme of the window.
pub fn set_theme(slot: &mut Option<EmberioConfig>, theme: String) -> (saved: EmberioConfig)
    ensures
        stored(
            *final(slot),
            saved,
            ConfigView { theme: theme@, ..in_force(*old(slot)) },
        ),
        in_force(*final(slot)) == with_theme(in_force(*old(slot)), theme@),
{
    let c = config_mut(slot);
    c.theme = theme;
    c.clone()
}

/// Chooses the resolution: "original" or "720p". A recording under way goes on
/// with the old one.
pub fn set_resolution(slot: &mut Option<EmberioConfig>, resolution: String) -> (saved: EmberioConfig)
    ensures
        stored(
            *final(slot),
            saved,
            ConfigView { resolution: resolution@, ..in_force(*old(slot)) },
        ),
        in_force(*final(slot)) == with_resolution(in_force(*old(slot)), resolution@),
{
    let c = config_mut(slot);
    c.resolution = resolution;
    c.clone()
}

/// Chooses the video encoder: "auto", or the identifier of one encoder.
pub fn set_video_encoder(slot: &mut Option<EmberioConfig>, encoder: String) -> (saved: EmberioConfig)
    ensures
        stored(
            *final(slot),
            saved,
            ConfigView { video_encoder: encoder@, ..in_force(*old(slot)) },
        ),
        in_force(*final(slot)) == with_video_encoder(in_force(*old(slot)), encoder@),
{
    let c = config_mut(slot);
    c.video_encoder = encoder;
    c.clone()
}

/// Chooses the frame rate.
pub fn set_fps(slot: &mut Option<EmberioConfig>, fps: i64) -> (saved: EmberioConfig)
    ensures
        stored(*final(slot), saved, ConfigView { fps, ..in_force(*old(slot)) }),
        in_force(*final(slot)) == with_fps(in_force(*old(slot)), fps),
{
    let c = config_mut(slot);
    c.fps = fps;
    c.clone()
}

/// Chooses what is captured.
pub fn set_video_source(
    slot: &mut Option<EmberioConfig>,
    source_type: String,
    source_id: String,
) -> (saved: EmberioConfig)
    ensures
        stored(
            *final(slot),
            saved,
            ConfigView {
                video_source_type: source_type@,
                video_source_id: Some(source_id@),
                ..in_force(*old(slot))
            },
        ),
        in_force(*final(slot)) == with_video_source(
            in_force(*old(slot)),
            source_type@,
            source_id@,
        ),
{
    let c = config_mut(slot);
    c.video_source_type = source_type;
    c.video_source_id = Some(source_id);
    c.clone()
}

/// Chooses the screen that is captured.
pub fn set_monitor(slot: &mut Option<EmberioConfig>, id: String) -> (r: Saved<String>)
    ensures
        stored(
            *final(slot),
            r.config,
            ConfigView {
                video_source_type: "screen"@,
                video_source_id: Some(id@),
                ..in_force(*old(slot))
            },
        ),
        in_force(*final(slot)) == with_video_source(in_force(*old(slot)), "screen"@, id@),
        r.value@ == "Pantalla de captura configurada."@,
{
    let config = set_video_source(slot, "screen".to_owned(), id);
    Saved { value: "Pantalla de captura configurada.".to_owned(), config }
}

/// Chooses where clips go. `created` is the outcome of making the folder: the
/// choice stands only if the folder is there.
pub fn set_clips_dir(
    slot: &mut Option<EmberioConfig>,
    dir: String,
    created: Result<(), String>,
) -> (r: Result<Saved<String>, String>)
    ensures
        created is Ok <==> r is Ok,
        r matches Ok(s) ==> {
            &&& stored(
                *final(slot),
                s.config,
                ConfigView { clips_dir: Some(dir@), ..in_force(*old(slot)) },
            )
            &&& in_force(*final(slot)) == with_clips_dir(in_force(*old(slot)), dir@)
            &&& s.value@ == "Los clips nuevos se van a guardar en: "@ + dir@
        },
        r matches Err(e) ==> {
            &&& *final(slot) == *old(slot)
            &&& e@ == "no se pudo usar esa carpeta: "@ + created->Err_0@
        },
{
    match created {
        Ok(_) => {
            let value = joined("Los clips nuevos se van a guardar en: ", dir.as_str());
            let c = config_mut(slot);
            c.clips_dir = Some(dir);
            Ok(Saved { value, config: c.clone() })
        },
        Err(e) => Err(joined("no se pudo usar esa carpeta: ", e.as_str())),
    }
}

/// The configuration as the window shows it.
pub fn get_config(slot: &mut Option<EmberioConfig>) -> (r: EmberioConfig)
    ensures
        stored(*final(slot), r, in_force(*old(slot))),
{
    let c = config_mut(slot);
    c.clone()
}

// ---------------------------------------------------------------------------
// Laws

/// What is stored is in force and goes to disk, both in full: a later reading of
/// the configuration, and a later start, have it.
pub proof fn what_is_stored_is_in_force_and_on_disk(
    slot: Option<EmberioConfig>,
    saved: EmberioConfig,
    expected: ConfigView,
)
    requires
        stored(slot, saved, expected),
    ensures
        slot matches Some(c) && c@ == expected,
        in_force(slot) == expected,
        saved@ == expected,
        in_force(Some(saved)) == in_force(slot),
{
}

/// Each command changes its own setting to what was asked for and no other:
/// setting the old value again gives back the configuration there was.
pub proof fn each_command_changes_its_own_setting(c: ConfigView, text: Seq<char>, n: i64)
    ensures
        with_theme(c, text).theme == text,
        with_theme(with_theme(c, text), c.theme) == c,
        with_resolution(c, text).resolution == text,
        with_resolution(with_resolution(c, text), c.resolution) == c,
        with_video_encoder(c, text).video_encoder == text,
        with_video_encoder(with_video_encoder(c, text), c.video_encoder) == c,
        with_fps(c, n).fps == n,
        with_fps(with_fps(c, n), c.fps) == c,
{
}

/// Choosing what is captured sets type and target, and choosing a folder sets the
/// folder; nothing else of the configuration changes, and the latest choice counts.
pub proof fn the_latest_choice_counts(
    c: ConfigView,
    source_type: Seq<char>,
    id: Seq<char>,
    dir: Seq<char>,
    other: Seq<char>,
)
    ensures
        ({
            let v = with_video_source(c, source_type, id);
            &&& v.video_source_type == source_type
            &&& v.video_source_id == Some(id)
            &&& with_video_source(with_video_source(c, other, dir), source_type, id) == v
            &&& v.theme == c.theme && v.resolution == c.resolution && v.fps == c.fps
            &&& v.video_encoder == c.video_encoder && v.clips_dir == c.clips_dir
            &&& v.audio_sources == c.audio_sources && v.overlays == c.overlays
            &&& v.hotkey == c.hotkey && v.hotkey_toggle == c.hotkey_toggle
            &&& v.clip_seconds == c.clip_seconds && v.monitor_id == c.monitor_id
        }),
        with_clips_dir(c, dir).clips_dir == Some(dir),
        with_clips_dir(with_clips_dir(c, other), dir) == with_clips_dir(c, dir),
        c.clips_dir == Some(other) ==> with_clips_dir(with_clips_dir(c, dir), other) == c,
{
}

} // verus!
