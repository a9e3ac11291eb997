use ember::config::{
    config_mut, default_audio_sources, default_clip_seconds, default_fps, default_overlay_locked,
    default_overlay_opacity, default_overlay_pos, default_overlay_scale, default_overlay_visible,
    default_resolution, default_theme, default_video_encoder, default_video_source_type,
    default_volume, load, newest, persist_config, with_config, AudioSourceKind, EmberioConfig,
    HotkeyConfig, OverlayConfig, OverlayKind,
};
use ember::settings::{
    get_config, set_clips_dir, set_fps, set_monitor, set_resolution, set_theme, set_video_encoder,
    set_video_source,
};
use ember::single::Single;

fn s(x: f32) -> Single {
    Single { bits: x.to_bits() }
}

#[test]
fn defaults_of_the_fields() {
    assert_eq!(default_volume(), s(1.0));
    assert_eq!(default_overlay_pos(), s(100.0));
    assert_eq!(default_overlay_scale(), s(1.0));
    assert_eq!(default_overlay_opacity(), s(1.0));
    assert!(default_overlay_visible());
    assert!(!default_overlay_locked());
    assert_eq!(default_clip_seconds(), 60);
    assert_eq!(default_theme(), "dark");
    assert_eq!(default_video_source_type(), "screen");
    assert_eq!(default_resolution(), "original");
    assert_eq!(default_fps(), 60);
    assert_eq!(default_video_encoder(), "auto");
    let audio = default_audio_sources();
    assert_eq!(audio.len(), 1);
    assert_eq!(audio[0].kind, AudioSourceKind::Output);
    assert_eq!(audio[0].device_id, "default");
    assert_eq!(audio[0].label, "Audio de escritorio");
    assert_eq!(audio[0].volume, s(1.0));
    assert!(!audio[0].muted);
}

#[test]
fn default_configuration() {
    let c = EmberioConfig::default();
    assert_eq!(c.clip_seconds, 60);
    assert!(c.clips_dir.is_none());
    assert!(c.hotkey.is_none());
    assert!(c.hotkey_toggle.is_none());
    assert_eq!(c.video_source_type, "screen");
    assert!(c.video_source_id.is_none());
    assert!(c.monitor_id.is_none());
    assert_eq!(c.audio_sources.len(), 1);
    assert_eq!(c.theme, "dark");
    assert_eq!(c.resolution, "original");
    assert_eq!(c.fps, 60);
    assert_eq!(c.video_encoder, "auto");
    assert!(c.overlays.is_empty());
    assert_eq!(
        HotkeyConfig::default(),
        HotkeyConfig { vk_code: 0, ctrl: false, shift: false, alt: false }
    );
}

#[test]
fn scales_fall_back_to_the_uniform_one() {
    let mut o = OverlayConfig::new(OverlayKind::Image, "a.png".to_string());
    assert_eq!((o.get_scale_x(), o.get_scale_y()), (s(1.0), s(1.0)));
    o.scale = s(2.0);
    assert_eq!((o.get_scale_x(), o.get_scale_y()), (s(2.0), s(2.0)));
    o.scale_x = s(0.5);
    assert_eq!((o.get_scale_x(), o.get_scale_y()), (s(0.5), s(2.0)));
    o.scale = s(1.0);
    o.scale_y = s(3.0);
    assert_eq!((o.get_scale_x(), o.get_scale_y()), (s(0.5), s(3.0)));
}

#[test]
fn an_empty_slot_gets_the_default() {
    let mut slot = None;
    assert_eq!(config_mut(&mut slot).fps, 60);
    assert!(slot.is_some());
    let mut empty = None;
    let r = with_config(&mut empty, |c: &mut EmberioConfig| {
        c.fps = 30;
        c.theme.clone()
    });
    assert_eq!(r, "dark");
    assert_eq!(empty.unwrap().fps, 30);
    assert_eq!(persist_config(&None).clip_seconds, 60);
    assert_eq!(persist_config(&slot).video_encoder, "auto");
}

#[test]
fn a_missing_file_loads_the_default() {
    assert_eq!(load(None).fps, 60);
    let mut c = EmberioConfig::default();
    c.fps = 144;
    assert_eq!(load(Some(c)).fps, 144);
}

#[test]
fn the_last_configuration_is_written() {
    let with_fps = |fps: i64| {
        let mut c = EmberioConfig::default();
        c.fps = fps;
        c
    };
    assert_eq!(newest(with_fps(1), vec![]).fps, 1);
    assert_eq!(newest(with_fps(1), vec![with_fps(2), with_fps(3)]).fps, 3);
}

#[test]
fn settings_change_one_field_and_go_to_disk() {
    let mut slot = None;
    assert_eq!(set_theme(&mut slot, "light".to_string()).theme, "light");
    assert_eq!(set_resolution(&mut slot, "720p".to_string()).resolution, "720p");
    assert_eq!(set_video_encoder(&mut slot, "obs_x264".to_string()).video_encoder, "obs_x264");
    assert_eq!(set_fps(&mut slot, 30).fps, 30);
    let saved = set_video_source(&mut slot, "window".to_string(), "Game.exe".to_string());
    assert_eq!(saved.video_source_type, "window");
    assert_eq!(saved.video_source_id.as_deref(), Some("Game.exe"));
    let shown = get_config(&mut slot);
    assert_eq!(shown.theme, "light");
    assert_eq!(shown.resolution, "720p");
    assert_eq!(shown.video_encoder, "obs_x264");
    assert_eq!(shown.fps, 30);
    assert_eq!(shown.clip_seconds, 60);
    assert_eq!(shown.video_source_type, "window");
}

#[test]
fn choosing_a_monitor_captures_the_screen() {
    let mut slot = None;
    set_video_source(&mut slot, "game".to_string(), "x".to_string());
    let r = set_monitor(&mut slot, "monitor-2".to_string());
    assert_eq!(r.value, "Pantalla de captura configurada.");
    assert_eq!(r.config.video_source_type, "screen");
    assert_eq!(r.config.video_source_id.as_deref(), Some("monitor-2"));
}

#[test]
fn the_clips_folder_stands_only_if_it_is_there() {
    let mut slot = None;
    let ok = set_clips_dir(&mut slot, "D:\\clips".to_string(), Ok(())).ok().unwrap();
    assert_eq!(ok.value, "Los clips nuevos se van a guardar en: D:\\clips");
    assert_eq!(ok.config.clips_dir.as_deref(), Some("D:\\clips"));
    let err = set_clips_dir(&mut slot, "Z:\\".to_string(), Err("acceso denegado".to_string()));
    assert_eq!(err.err().unwrap(), "no se pudo usar esa carpeta: acceso denegado");
    assert_eq!(slot.unwrap().clips_dir.as_deref(), Some("D:\\clips"));
}

#[test]
fn clones_are_equal() {
    let mut c = EmberioConfig::default();
    c.clips_dir = Some("x".to_string());
    c.overlays.push(OverlayConfig::new(OverlayKind::Browser, "https://example.org".to_string()));
    let d = c.clone();
    assert_eq!(format!("{c:?}"), format!("{d:?}"));
}
