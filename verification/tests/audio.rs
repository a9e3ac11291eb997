use ember::audio::{
    add_audio_source, audio_channel, audio_kind, audio_plugin, live_volume, meter_index,
    plan_audio_addition, quiet_levels, remove_audio_source, set_audio_source_label,
    set_audio_source_muted, set_audio_source_volume, set_level, take_reading, AudioAddition,
    AudioRoute, ChannelUse, LiveAudio, LiveVolume, MeterLevel, MAX_AUDIO_SOURCES,
};
use ember::capture::{live_audio_source, CaptureState, Release, SetupFailure};
use ember::config::{AudioSourceKind, EmberioConfig};
use ember::single::Single;

fn s(x: f32) -> Single {
    Single { bits: x.to_bits() }
}

const NOTHING: LiveAudio = LiveAudio { source: 0, meter: 0 };

fn add(slot: &mut Option<EmberioConfig>, kind: &str, device: &str) -> Result<Vec<String>, String> {
    add_live(&mut None, &mut vec![], slot, kind, device, NOTHING)
        .map(|r| r.answer.value.iter().map(|a| a.device_id.clone()).collect())
        .map_err(|f| f.message)
}

fn add_live(
    capture: &mut Option<CaptureState>,
    levels: &mut Vec<MeterLevel>,
    slot: &mut Option<EmberioConfig>,
    kind: &str,
    device: &str,
    live: LiveAudio,
) -> Result<AudioAddition, SetupFailure> {
    let label = format!("l-{device}");
    add_audio_source(capture, levels, slot, kind.to_string(), device.to_string(), label, live)
}

fn remove(slot: &mut Option<EmberioConfig>, index: usize) -> Vec<String> {
    let r = remove_audio_source(&mut None, &mut vec![], slot, index);
    assert!(r.releases.is_empty() && r.channels.is_empty());
    r.answer.value.iter().map(|a| a.device_id.clone()).collect()
}

fn shown(levels: &[MeterLevel]) -> Vec<(usize, f32)> {
    levels.iter().map(|l| (l.meter, f32::from_bits(l.level.bits))).collect()
}

/// A capture of three sources, in step with its configuration: "default", "a"
/// and "b", with sources 10 to 12 and meters 20 to 22.
fn live_three() -> (Option<CaptureState>, Vec<MeterLevel>, Option<EmberioConfig>) {
    let mut capture = Some(CaptureState {
        scene: 1,
        capture_source: 2,
        capture_item: 3,
        audio_sources: vec![10],
        audio_volmeters: vec![20],
        overlays: vec![],
    });
    let mut levels = quiet_levels(&vec![20]);
    let mut slot = None;
    for (i, device) in ["a", "b"].iter().enumerate() {
        let live = LiveAudio { source: 11 + i, meter: 21 + i };
        assert!(add_live(&mut capture, &mut levels, &mut slot, "input", device, live).is_ok());
    }
    (capture, levels, slot)
}

#[test]
fn kinds_and_their_sources() {
    assert_eq!(audio_kind("output"), Some(AudioSourceKind::Output));
    assert_eq!(audio_kind("input"), Some(AudioSourceKind::Input));
    assert_eq!(audio_kind("Output"), None);
    assert_eq!(audio_plugin(AudioSourceKind::Output), "wasapi_output_capture");
    assert_eq!(audio_plugin(AudioSourceKind::Input), "wasapi_input_capture");
}

#[test]
fn sources_are_added_up_to_the_limit() {
    let mut slot = None;
    for i in 1..MAX_AUDIO_SOURCES {
        let list = add(&mut slot, "input", &format!("mic{i}")).unwrap();
        assert_eq!(list.len(), i + 1);
        assert_eq!(list[i], format!("mic{i}"));
    }
    assert_eq!(
        add(&mut slot, "input", "one too many").unwrap_err(),
        "Ya hay el maximo de 5 fuentes de audio"
    );
    assert_eq!(slot.as_ref().unwrap().audio_sources.len(), 5);
    assert_eq!(slot.as_ref().unwrap().audio_sources[1].label, "l-mic1");
    assert_eq!(slot.as_ref().unwrap().audio_sources[1].volume, s(1.0));
}

#[test]
fn unknown_kinds_are_refused() {
    let mut slot = None;
    assert_eq!(
        add(&mut slot, "both", "x").unwrap_err(),
        "kind invalido: both (usa 'output' o 'input')"
    );
    let mut full = None;
    for i in 0..4 {
        add(&mut full, "output", &format!("{i}")).unwrap();
    }
    assert_eq!(
        add(&mut full, "", "x").unwrap_err(),
        "kind invalido:  (usa 'output' o 'input')"
    );
}

#[test]
fn removing_keeps_the_rest_in_order() {
    let mut slot = None;
    add(&mut slot, "input", "a").unwrap();
    add(&mut slot, "input", "b").unwrap();
    assert_eq!(remove(&mut slot, 1), vec!["default", "b"]);
    assert_eq!(remove(&mut slot, 7), vec!["default", "b"]);
}

#[test]
fn removing_what_was_added_restores_the_list() {
    let mut slot = None;
    let before = format!("{:?}", EmberioConfig::default().audio_sources);
    add(&mut slot, "input", "a").unwrap();
    let r = remove_audio_source(&mut None, &mut vec![], &mut slot, 1).answer;
    assert_eq!(format!("{:?}", r.value), before);
    assert_eq!(format!("{:?}", r.config.audio_sources), before);
}

#[test]
fn one_source_is_changed() {
    let mut slot = None;
    let r = set_audio_source_label(&mut slot, 0, "Juego".to_string());
    assert_eq!(r.value[0].label, "Juego");
    let r = set_audio_source_volume(&mut slot, 0, s(0.25));
    assert_eq!(r.value[0].volume, s(0.25));
    let r = set_audio_source_muted(&mut slot, 0, true);
    assert!(r.value[0].muted);
    assert_eq!(r.config.audio_sources[0].label, "Juego");
    assert_eq!(r.config.audio_sources[0].volume, s(0.25));
    let r = set_audio_source_muted(&mut slot, 1, false);
    assert!(r.value[0].muted);
}

#[test]
fn channels_start_after_the_picture() {
    let channels: Vec<Option<u32>> = (0..7).map(audio_channel).collect();
    assert_eq!(channels, vec![Some(1), Some(2), Some(3), Some(4), Some(5), None, None]);
}

#[test]
fn levels_are_kept_in_range() {
    let mut levels = quiet_levels(&vec![20, 0]);
    assert_eq!(shown(&levels), vec![(20, 0.0), (0, 0.0)]);
    let place = |db: f32| s((db + 60.0) / 60.0);
    set_level(&mut levels, 0, s(-30.0), place(-30.0));
    assert_eq!(levels[0].level, s(0.5));
    set_level(&mut levels, 1, s(3.0), place(3.0));
    assert_eq!(levels[1].level, s(1.0));
    set_level(&mut levels, 1, s(-90.0), place(-90.0));
    assert_eq!(levels[1].level, s(0.0));
    set_level(&mut levels, 0, s(f32::NEG_INFINITY), place(f32::NEG_INFINITY));
    assert_eq!(levels[0].level, s(0.0));
    set_level(&mut levels, 0, s(f32::INFINITY), place(f32::INFINITY));
    assert_eq!(levels[0].level, s(0.0));
    set_level(&mut levels, 2, s(0.0), place(0.0));
    assert_eq!(levels.len(), 2);
}

#[test]
fn volumes_are_kept_in_range() {
    let (capture, _, mut slot) = live_three();
    for (asked, kept) in [(-1.0, 0.0), (0.0, 0.0), (0.75, 0.75), (2.0, 2.0), (7.0, 2.0)] {
        let r = set_audio_source_volume(&mut slot, 1, s(asked));
        assert_eq!(r.value[1].volume, s(kept));
        assert_eq!(r.config.audio_sources[1].volume, s(kept));
        assert_eq!(
            live_volume(&capture, 1, s(asked)),
            Some(LiveVolume { source: 11, volume: s(kept) })
        );
    }
    assert_eq!(live_volume(&capture, 3, s(1.0)), None);
    assert_eq!(live_volume(&None, 0, s(1.0)), None);
}

#[test]
fn an_addition_is_planned() {
    let (capture, _, slot) = live_three();
    let q = plan_audio_addition(&capture, &slot, "output", "dev").unwrap().unwrap();
    assert_eq!((q.plugin, q.name.as_str()), ("wasapi_output_capture", "Audio Source 3"));
    assert_eq!(q.settings.len(), 1);
    assert!(plan_audio_addition(&None, &None, "input", "dev").unwrap().is_none());
    assert_eq!(
        plan_audio_addition(&capture, &slot, "both", "dev").err().unwrap(),
        "kind invalido: both (usa 'output' o 'input')"
    );
    let mut full = slot;
    add(&mut full, "input", "c").unwrap();
    add(&mut full, "input", "d").unwrap();
    assert_eq!(
        plan_audio_addition(&capture, &full, "input", "e").err().unwrap(),
        "Ya hay el maximo de 5 fuentes de audio"
    );
}

#[test]
fn a_new_source_is_heard_at_once() {
    let (mut capture, mut levels, mut slot) = live_three();
    let live = LiveAudio { source: 13, meter: 23 };
    let r = add_live(&mut capture, &mut levels, &mut slot, "output", "c", live).ok().unwrap();
    assert_eq!(r.route, Some(AudioRoute { volume: s(1.0), muted: false, channel: Some(4) }));
    assert!(r.releases.is_empty());
    assert_eq!(r.answer.value.len(), 4);
    let c = capture.as_ref().unwrap();
    assert_eq!(c.audio_sources, vec![10, 11, 12, 13]);
    assert_eq!(c.audio_volmeters, vec![20, 21, 22, 23]);
    assert_eq!(levels.len(), 4);
}

#[test]
fn a_source_that_was_not_made_keeps_its_place() {
    let (mut capture, mut levels, mut slot) = live_three();
    let r = add_live(&mut capture, &mut levels, &mut slot, "input", "c", NOTHING).ok().unwrap();
    assert_eq!(r.route, None);
    assert_eq!(capture.as_ref().unwrap().audio_sources, vec![10, 11, 12, 0]);
    assert_eq!(live_audio_source(&capture, 3), None);
    let r = remove_audio_source(&mut capture, &mut levels, &mut slot, 3);
    assert!(r.releases.is_empty());
    assert_eq!(capture.unwrap().audio_sources, vec![10, 11, 12]);
}

#[test]
fn a_source_without_a_use_is_given_back() {
    let mut slot = None;
    let live = LiveAudio { source: 13, meter: 23 };
    let given =
        vec![Release::DetachMeter(23), Release::DestroyMeter(23), Release::ReleaseSource(13)];
    let r = add_live(&mut None, &mut vec![], &mut slot, "input", "a", live).ok().unwrap();
    assert_eq!(r.releases, given);
    assert_eq!(r.route, None);
    let f = add_live(&mut None, &mut vec![], &mut slot, "both", "a", live).err().unwrap();
    assert_eq!(f.releases, given);
}

#[test]
fn captured_sources_stay_in_step() {
    let (mut capture, mut levels, mut slot) = live_three();
    set_level(&mut levels, 2, s(0.0), s(1.0));
    let r = remove_audio_source(&mut capture, &mut levels, &mut slot, 1);
    assert_eq!(
        r.releases,
        vec![Release::DetachMeter(21), Release::DestroyMeter(21), Release::ReleaseSource(11)]
    );
    let uses: Vec<ChannelUse> = [(1, 10), (2, 12), (3, 0), (4, 0), (5, 0)]
        .iter()
        .map(|(channel, source)| ChannelUse { channel: *channel, source: *source })
        .collect();
    assert_eq!(r.channels, uses);
    assert_eq!(r.answer.value.len(), 2);
    assert_eq!(r.answer.value[1].device_id, "b");
    let c = capture.as_ref().unwrap();
    assert_eq!((&c.audio_sources, &c.audio_volmeters), (&vec![10, 12], &vec![20, 22]));
    assert_eq!(shown(&levels), vec![(20, 0.0), (22, 1.0)]);
    assert_eq!(live_audio_source(&capture, 1), Some(12));
}

#[test]
fn readings_reach_their_own_source() {
    let (mut capture, mut levels, mut slot) = live_three();
    take_reading(&mut levels, 22, s(-30.0), s(0.5));
    assert_eq!(shown(&levels), vec![(20, 0.0), (21, 0.0), (22, 0.5)]);
    remove_audio_source(&mut capture, &mut levels, &mut slot, 0);
    assert_eq!(meter_index(&levels, 22), Some(1));
    take_reading(&mut levels, 22, s(-15.0), s(0.75));
    assert_eq!(shown(&levels), vec![(21, 0.0), (22, 0.75)]);
    take_reading(&mut levels, 20, s(0.0), s(1.0));
    assert_eq!(shown(&levels), vec![(21, 0.0), (22, 0.75)]);
}

#[test]
fn readings_are_taken_once_there_are_levels() {
    let mut levels = vec![];
    take_reading(&mut levels, 20, s(-30.0), s(0.5));
    assert!(levels.is_empty());
    levels = quiet_levels(&vec![20, 0, 22]);
    take_reading(&mut levels, 20, s(-30.0), s(0.5));
    take_reading(&mut levels, 22, s(f32::NAN), s(f32::NAN));
    take_reading(&mut levels, 0, s(0.0), s(1.0));
    assert_eq!(meter_index(&levels, 0), None);
    assert_eq!(shown(&levels), vec![(20, 0.5), (0, 0.0), (22, 0.0)]);
}
