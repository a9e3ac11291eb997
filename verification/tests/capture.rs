use ember::capture::{
    live_audio_source, live_overlay, meter_made, overlay_item_added, overlay_placement,
    overlay_source_created, plan_source_change, release_capture_state, replace_capture,
    replacement_added, replacement_created, replacement_name, sync_scene_z_order, CaptureState,
    MeterMade, OverlayItem, Release, SourceChange,
};
use ember::config::{AudioSourceConfig, AudioSourceKind, EmberioConfig, OverlayConfig, OverlayKind};
use ember::setup::{ensure_capture_started, CaptureSetup, SetupStep};
use ember::single::Single;
use ember::sources::PropertyOption;

fn item(n: usize, filter: usize) -> OverlayItem {
    OverlayItem { source: 100 + n, item: 200 + n, opacity_filter: filter }
}

fn state() -> CaptureState {
    CaptureState {
        scene: 1,
        capture_source: 2,
        capture_item: 3,
        audio_sources: vec![10, 11],
        audio_volmeters: vec![20, 0],
        overlays: vec![item(0, 300), item(1, 0)],
    }
}

fn begin(config: EmberioConfig) -> (CaptureSetup, Option<EmberioConfig>) {
    let mut slot = Some(config);
    let setup = ensure_capture_started(&None, &mut slot).unwrap();
    (setup, slot)
}

#[test]
fn the_scene_from_back_to_front() {
    assert_eq!(sync_scene_z_order(&state()), vec![3, 201, 200]);
    let mut s = state();
    s.capture_item = 0;
    assert_eq!(sync_scene_z_order(&s), vec![201, 200]);
}

#[test]
fn a_capture_gives_everything_back() {
    let mut expected: Vec<Release> = (0..6).map(Release::ClearChannel).collect();
    expected.extend([
        Release::DetachMeter(20),
        Release::DestroyMeter(20),
        Release::ReleaseSource(2),
        Release::ReleaseSource(10),
        Release::ReleaseSource(11),
        Release::ReleaseSource(300),
        Release::ReleaseSource(100),
        Release::ReleaseSource(101),
        Release::ReleaseScene(1),
    ]);
    assert_eq!(release_capture_state(state()), expected);
}

#[test]
fn what_was_not_made_is_not_given_back() {
    let mut s = state();
    s.audio_sources = vec![0, 11];
    s.overlays = vec![OverlayItem::absent(), item(1, 0)];
    assert!(!s.overlays[0].made() && s.overlays[1].made());
    assert_eq!(sync_scene_z_order(&s), vec![3, 201]);
    let released = release_capture_state(s);
    assert_eq!(
        released[8..],
        [
            Release::ReleaseSource(2),
            Release::ReleaseSource(11),
            Release::ReleaseSource(101),
            Release::ReleaseScene(1)
        ]
    );
}

#[test]
fn a_meter_without_its_source_is_given_back() {
    assert_eq!(meter_made(20, true), MeterMade { kept: 20, unused: None });
    assert_eq!(meter_made(20, false), MeterMade { kept: 0, unused: Some(20) });
    assert_eq!(meter_made(0, false), MeterMade { kept: 0, unused: None });
}

#[test]
fn what_is_live() {
    let live = Some(state());
    assert_eq!(live_overlay(&live, 1), Some(item(1, 0)));
    assert_eq!(live_overlay(&live, 2), None);
    assert_eq!(live_overlay(&None, 0), None);
    assert_eq!(live_audio_source(&live, 1), Some(11));
    assert_eq!(live_audio_source(&live, 2), None);
    assert_eq!(live_audio_source(&None, 0), None);
}

#[test]
fn a_scene_is_put_together() {
    let mut config = EmberioConfig::default();
    config.audio_sources.push(AudioSourceConfig {
        kind: AudioSourceKind::Input,
        device_id: "mic".to_string(),
        label: "Micro".to_string(),
        volume: Single { bits: 0.5f32.to_bits() },
        muted: true,
    });
    config.overlays.push(OverlayConfig::new(OverlayKind::Text, "uno".to_string()));
    config.overlays.push(OverlayConfig::new(OverlayKind::Image, "dos".to_string()));
    let (mut s, mut slot) = begin(config);
    assert_eq!(s.step(), SetupStep::CreateScene);
    assert!(s.scene_created(1).is_ok());
    assert_eq!(s.step(), SetupStep::ListChoices);
    assert_eq!(s.choices_request(), ("monitor_capture", "monitor_id"));
    let options = vec![PropertyOption { name: "M".to_string(), value: "mon".to_string() }];
    let saved = s.choices_listed(&mut slot, &options).unwrap();
    assert_eq!(saved.video_source_id.as_deref(), Some("mon"));
    assert_eq!(s.step(), SetupStep::CreateCapture);
    let request = s.capture_request();
    assert_eq!((request.plugin, request.name.as_str()), ("monitor_capture", "Captura Principal"));
    assert_eq!(request.settings.len(), 1);
    assert!(s.capture_created(2).is_ok());
    assert_eq!(s.step(), SetupStep::AddCapture);
    assert_eq!((s.scene(), s.capture_source()), (1, 2));
    s.capture_added(3);
    assert_eq!(s.step(), SetupStep::CreateAudio(0));
    let request = s.audio_request();
    assert_eq!((request.plugin, request.name.as_str()), ("wasapi_output_capture", "Audio Source 0"));
    let route = s.audio_created(10).ok().unwrap();
    assert_eq!((route.channel, route.muted), (Some(1), false));
    assert_eq!(s.step(), SetupStep::CreateMeter(0));
    assert_eq!(s.meter_created(20, true), None);
    assert_eq!(s.step(), SetupStep::CreateAudio(1));
    assert_eq!(s.audio_request().plugin, "wasapi_input_capture");
    let route = s.audio_created(11).ok().unwrap();
    assert_eq!(route.channel, Some(2));
    assert!(route.muted);
    assert_eq!(route.volume.bits, 0.5f32.to_bits());
    assert_eq!(s.meter_created(21, false), Some(21));
    assert_eq!(s.step(), SetupStep::ShowScene);
    let meters: Vec<usize> = s.levels().iter().map(|l| l.meter).collect();
    assert_eq!(meters, vec![20, 0]);
    s.scene_shown(&mut slot);
    assert_eq!(s.step(), SetupStep::CreateOverlay(0));
    assert_eq!(s.overlay_request().content, "uno");
    assert_eq!(
        s.overlay_made(Err("roto".to_string())).as_deref(),
        Some("No se pudo cargar overlay persistido: roto")
    );
    assert_eq!(s.step(), SetupStep::CreateOverlay(1));
    assert_eq!(s.overlay_request().content, "dos");
    assert_eq!(s.overlay_made(Ok(item(1, 0))), None);
    assert_eq!(s.step(), SetupStep::Finished);
    assert_eq!(s.z_order(), vec![3, 201]);
    let mut capture = None;
    s.publish(&mut capture);
    let capture = capture.unwrap();
    assert_eq!(capture.audio_sources, vec![10, 11]);
    assert_eq!(capture.audio_volmeters, vec![20, 0]);
    assert_eq!(capture.overlays, vec![OverlayItem::absent(), item(1, 0)]);
    let live = Some(capture);
    assert_eq!(live_overlay(&live, 0), None);
    assert_eq!(live_overlay(&live, 1), Some(item(1, 0)));
    assert!(ensure_capture_started(&live, &mut slot).is_none());
}

#[test]
fn a_chosen_picture_needs_no_list() {
    let mut config = EmberioConfig::default();
    config.video_source_type = "game".to_string();
    config.video_source_id = Some("g".to_string());
    config.audio_sources.clear();
    let (mut s, mut slot) = begin(config);
    assert!(s.scene_created(1).is_ok());
    assert_eq!(s.step(), SetupStep::CreateCapture);
    assert_eq!(s.capture_request().settings.len(), 2);
    assert!(s.capture_created(2).is_ok());
    s.capture_added(0);
    assert_eq!(s.step(), SetupStep::ShowScene);
    s.scene_shown(&mut slot);
    assert_eq!(s.step(), SetupStep::Finished);
    assert!(s.z_order().is_empty());
}

#[test]
fn nothing_to_capture_is_no_obstacle() {
    let mut config = EmberioConfig::default();
    config.video_source_type = "window".to_string();
    let (mut s, mut slot) = begin(config);
    assert!(s.scene_created(1).is_ok());
    assert_eq!(s.choices_request(), ("window_capture", "window"));
    assert!(s.choices_listed(&mut slot, &vec![]).is_none());
    assert!(s.capture_request().settings.is_empty());
}

#[test]
fn failures_of_the_setup() {
    let (mut s, mut slot) = begin(EmberioConfig::default());
    let f = s.scene_created(0).err().unwrap();
    assert_eq!(f.message, "obs_scene_create devolvio null");
    assert!(f.releases.is_empty());
    assert!(s.scene_created(1).is_ok());
    s.choices_listed(&mut slot, &vec![]);
    let f = s.capture_created(0).err().unwrap();
    assert_eq!(f.message, "obs_source_create('monitor_capture') devolvio null");
    assert_eq!(f.releases, vec![Release::ReleaseScene(1)]);
    assert!(s.capture_created(2).is_ok());
    s.capture_added(3);
    let f = s.audio_created(0).err().unwrap();
    assert_eq!(
        f.message,
        "obs_source_create('wasapi_output_capture') devolvio null para 'Audio de escritorio'"
    );
    assert_eq!(f.releases, vec![Release::ReleaseSource(2), Release::ReleaseScene(1)]);
}

#[test]
fn a_late_failure_gives_everything_back() {
    let mut config = EmberioConfig::default();
    let entry = config.audio_sources[0].clone();
    config.audio_sources.push(entry);
    let (mut s, mut slot) = begin(config);
    assert!(s.scene_created(1).is_ok());
    s.choices_listed(&mut slot, &vec![]);
    assert!(s.capture_created(2).is_ok());
    s.capture_added(3);
    assert!(s.audio_created(10).is_ok());
    s.meter_created(20, true);
    let f = s.audio_created(0).err().unwrap();
    assert_eq!(
        f.releases,
        vec![
            Release::DetachMeter(20),
            Release::DestroyMeter(20),
            Release::ReleaseSource(10),
            Release::ReleaseSource(2),
            Release::ReleaseScene(1)
        ]
    );
}

#[test]
fn a_meter_that_was_not_made_is_not_given_back() {
    let (mut s, mut slot) = begin(EmberioConfig::default());
    assert!(s.scene_created(1).is_ok());
    s.choices_listed(&mut slot, &vec![]);
    assert!(s.capture_created(2).is_ok());
    s.capture_added(3);
    assert!(s.audio_created(10).is_ok());
    assert_eq!(s.meter_created(0, false), None);
    assert_eq!(s.step(), SetupStep::ShowScene);
}

#[test]
fn making_an_overlay() {
    let one = Single { bits: 1.0f32.to_bits() };
    let mut o = OverlayConfig::new(OverlayKind::Browser, "x".to_string());
    o.scale = Single { bits: 2.0f32.to_bits() };
    o.locked = true;
    let p = overlay_placement(&o);
    assert_eq!((p.scale_x, p.scale_y), (o.scale, o.scale));
    assert_ne!(p.scale_x, one);
    assert_eq!((p.x, p.y, p.visible, p.locked), (o.x, o.y, true, true));
    assert_eq!(overlay_source_created(OverlayKind::Text, 5), Ok(()));
    assert_eq!(
        overlay_source_created(OverlayKind::Text, 0),
        Err("obs_source_create('text_ft2_source') devolvio null".to_string())
    );
    assert!(overlay_item_added(5, 6).is_ok());
    let f = overlay_item_added(5, 0).err().unwrap();
    assert_eq!(f.message, "obs_scene_add devolvio null para el overlay");
    assert_eq!(f.releases, vec![Release::ReleaseSource(5)]);
}

#[test]
fn changing_the_picture() {
    assert_eq!(plan_source_change(&None, "", "game_capture"), SourceChange::Later);
    let live = Some(state());
    assert_eq!(
        plan_source_change(&live, "game_capture", "game_capture"),
        SourceChange::Update(2)
    );
    assert_eq!(
        plan_source_change(&live, "monitor_capture", "game_capture"),
        SourceChange::Replace(1)
    );
    assert_eq!(replacement_name("game_capture"), "Captura Principal (game_capture)");
    assert_eq!(replacement_created(8), Ok(()));
    assert_eq!(
        replacement_created(0),
        Err("Error al crear la nueva fuente de captura".to_string())
    );
    assert!(replacement_added(8, 9).is_ok());
    let f = replacement_added(8, 0).err().unwrap();
    assert_eq!(f.message, "Error al agregar la nueva fuente a la escena");
    assert_eq!(f.releases, vec![Release::ReleaseSource(8)]);
}

#[test]
fn the_new_picture_takes_the_place_of_the_old() {
    let mut slot = Some(state());
    let r = replace_capture(&mut slot, 8, 9);
    assert_eq!(r.z_order, Some(vec![9, 201, 200]));
    assert_eq!(r.releases, vec![Release::RemoveItem(3), Release::ReleaseSource(2)]);
    let mut s = state();
    s.capture_item = 0;
    let r = replace_capture(&mut Some(s), 8, 9);
    assert_eq!(r.releases, vec![Release::ReleaseSource(2)]);
    let r = replace_capture(&mut None, 8, 9);
    assert_eq!(r.z_order, None);
    assert_eq!(r.releases, vec![Release::RemoveItem(9), Release::ReleaseSource(8)]);
}
