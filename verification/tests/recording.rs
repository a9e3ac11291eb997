use ember::config::EmberioConfig;
use ember::recording::{
    clip_news, clip_source, clips_folder, ensure_output_started, recording_started,
    release_recording, save_requested, start_after, start_announcements, stop_announcements,
    stopped_message, take_recording, toggle_recording, Announcement, ClipNews, ClipNext, ClipWait,
    OutputBegin, OutputRelease, OutputSetup, OutputState, OutputStep, StartNext, StartStep, Starter,
    StopWait, Toggle, CLIP_POLLS, CLIP_POLL_MILLIS, STOP_CHECKS, STOP_CHECK_MILLIS,
};
use ember::sources::SettingValue;

fn running() -> OutputState {
    OutputState { output: 7, video_encoder: 8, audio_encoder: 9, max_time_sec: 60 }
}

fn ids(list: &[&str]) -> Vec<String> {
    list.iter().map(|s| s.to_string()).collect()
}

/// A setup whose encoders are about to be listed: sound encoder 9, output 7.
fn up_to_the_encoders(slot: &mut Option<EmberioConfig>) -> OutputSetup {
    let mut s = match ensure_output_started(&None, slot, "app/clips".to_string(), 45) {
        OutputBegin::SetUp(s) => s,
        OutputBegin::AlreadyRunning(_) => panic!("nothing runs"),
    };
    assert_eq!(s.step(), OutputStep::CreateAudioEncoder);
    s.audio_encoder_created(9, slot, "app/clips".to_string()).unwrap();
    assert_eq!(s.step(), OutputStep::CreateFolder);
    s.folder_created(Ok(())).unwrap();
    assert_eq!(s.step(), OutputStep::CreateOutput);
    assert!(s.output_created(7).is_ok());
    assert_eq!(s.step(), OutputStep::ListEncoders);
    assert_eq!(s.output(), 7);
    s
}

#[test]
fn the_first_encoder_that_starts_records() {
    let mut slot = None;
    let mut out = None;
    let mut s = up_to_the_encoders(&mut slot);
    assert!(s.encoders_listed(&mut slot, &ids(&["obs_x264", "obs_nvenc_h264_tex", "obs_qsv11_v2"])).is_ok());
    assert_eq!(s.candidate().id, "obs_nvenc_h264_tex");
    assert!(s.encoder_created(0).is_ok());
    assert_eq!(s.step(), OutputStep::CreateEncoder);
    assert_eq!(s.candidate().id, "obs_qsv11_v2");
    assert!(s.encoder_created(20).is_ok());
    assert_eq!(s.step(), OutputStep::StartOutput);
    let given = s.output_started(false, None).ok().unwrap();
    assert_eq!(given, vec![OutputRelease::ReleaseEncoder(20)]);
    assert_eq!(s.candidate().label, "Software (x264)");
    assert!(s.encoder_created(21).is_ok());
    assert!(s.output_started(true, None).ok().unwrap().is_empty());
    assert_eq!(s.step(), OutputStep::Running);
    assert_eq!(s.publish(&mut out), "app/clips");
    assert_eq!(
        out,
        Some(OutputState { output: 7, video_encoder: 21, audio_encoder: 9, max_time_sec: 45 })
    );
}

#[test]
fn without_an_encoder_everything_is_given_back() {
    let mut slot = None;
    let mut s = up_to_the_encoders(&mut slot);
    assert!(s.encoders_listed(&mut slot, &ids(&["obs_x264"])).is_ok());
    assert!(s.encoder_created(20).is_ok());
    let f = s.output_started(false, Some("disco lleno".to_string())).err().unwrap();
    assert_eq!(
        f.message,
        "No se pudo iniciar la grabacion con ningun codificador de video disponible:\n\
         Software (x264) (obs_x264): disco lleno"
    );
    assert_eq!(
        f.releases,
        vec![
            OutputRelease::ReleaseEncoder(20),
            OutputRelease::ReleaseEncoder(9),
            OutputRelease::ReleaseOutput(7)
        ]
    );
}

#[test]
fn an_encoder_that_is_not_made_is_not_given_back() {
    let mut slot = None;
    let mut s = up_to_the_encoders(&mut slot);
    assert!(s.encoders_listed(&mut slot, &ids(&["h264_texture_amf"])).is_ok());
    let f = s.encoder_created(0).err().unwrap();
    assert!(f.message.ends_with("AMD AMF (h264_texture_amf): obs_video_encoder_create devolvio null"));
    assert_eq!(
        f.releases,
        vec![OutputRelease::ReleaseEncoder(9), OutputRelease::ReleaseOutput(7)]
    );
}

#[test]
fn a_chosen_encoder_that_is_missing_stops_the_start() {
    let mut config = EmberioConfig::default();
    config.video_encoder = "obs_nvenc_h264_tex".to_string();
    let mut slot = Some(config);
    let mut s = up_to_the_encoders(&mut slot);
    let f = s.encoders_listed(&mut slot, &ids(&["obs_x264"])).err().unwrap();
    assert_eq!(
        f.message,
        "No se pudo iniciar la grabacion con ningun codificador de video disponible:\n"
    );
    assert_eq!(
        f.releases,
        vec![OutputRelease::ReleaseEncoder(9), OutputRelease::ReleaseOutput(7)]
    );
}

#[test]
fn the_steps_before_the_encoders_can_fail() {
    let mut slot = None;
    let mut s = OutputSetup::new(60);
    assert_eq!(
        s.audio_encoder_created(0, &mut slot, "d".to_string()),
        Err("obs_audio_encoder_create('ffmpeg_aac') devolvio null".to_string())
    );
    assert!(slot.is_none());
    s.audio_encoder_created(9, &mut slot, "d".to_string()).unwrap();
    assert_eq!(
        s.folder_created(Err("solo lectura".to_string())).err().unwrap(),
        "no se pudo crear la carpeta de clips: solo lectura"
    );
    let settings = s.folder_created(Ok(())).ok().unwrap();
    assert_eq!(settings.len(), 5);
    assert!(matches!(&settings[0].value, SettingValue::Text(t) if t == "d"));
    let f = s.output_created(0).err().unwrap();
    assert_eq!(f.message, "obs_output_create('replay_buffer') devolvio null");
    assert_eq!(f.releases, vec![OutputRelease::ReleaseEncoder(9)]);
}

#[test]
fn a_running_buffer_is_kept() {
    let mut config = EmberioConfig::default();
    config.clips_dir = Some("E:/clips".to_string());
    let mut slot = Some(config);
    match ensure_output_started(&Some(running()), &mut slot, "app/clips".to_string(), 5) {
        OutputBegin::AlreadyRunning(dir) => assert_eq!(dir, "E:/clips"),
        OutputBegin::SetUp(_) => panic!("it runs already"),
    }
    assert_eq!(clips_folder(&mut slot, "x".to_string()), "E:/clips");
    assert_eq!(clips_folder(&mut None, "x".to_string()), "x");
}

#[test]
fn a_start_is_told_and_kept() {
    let mut slot = None;
    let r = recording_started(&mut slot, 30, "E:/clips");
    assert_eq!(r.value, "Grabando (buffer de 30s). Los clips se guardan en: E:/clips");
    assert_eq!(r.config.clip_seconds, 30);
    assert_eq!(start_announcements(Starter::Command), vec![Announcement::ShowStatus(true)]);
    assert_eq!(
        start_announcements(Starter::Shortcut),
        vec![Announcement::TellWindow(true), Announcement::ShowStatus(true)]
    );
    assert_eq!(
        stop_announcements(),
        vec![Announcement::TellWindow(false), Announcement::ShowStatus(false)]
    );
}

#[test]
fn the_shortcut_survives_a_refused_format() {
    let order = [
        StartStep::BringUp,
        StartStep::ReapplyVideo,
        StartStep::StartCapture,
        StartStep::StartOutput,
    ];
    for starter in [Starter::Command, Starter::Shortcut] {
        for i in 0..4 {
            let next = if i < 3 { StartNext::Do(order[i + 1]) } else { StartNext::Recording };
            assert_eq!(start_after(order[i], true, starter), next);
            let failed = start_after(order[i], false, starter);
            if i == 1 && starter == Starter::Shortcut {
                assert_eq!(failed, next);
            } else {
                assert_eq!(failed, StartNext::Abandoned);
            }
        }
    }
}

#[test]
fn the_shortcut_stops_or_starts() {
    let mut slot = None;
    assert_eq!(toggle_recording(&Some(running()), &mut slot), Toggle::Stop);
    assert_eq!(toggle_recording(&None, &mut slot), Toggle::Start { clip_seconds: 60 });
}

#[test]
fn stopping_waits_for_the_engine() {
    let mut w = StopWait::new();
    let mut looks = 0;
    while w.pending() {
        assert!(w.checked(true));
        looks += 1;
    }
    assert_eq!(looks, STOP_CHECKS);
    let mut w = StopWait::new();
    assert!(w.checked(true));
    assert!(!w.checked(false));
    assert!(!w.pending());
    assert_eq!(STOP_CHECK_MILLIS, 50);
}

#[test]
fn a_recording_is_stopped_once() {
    let mut slot = Some(running());
    let s = take_recording(&mut slot).unwrap();
    assert_eq!(take_recording(&mut slot), None);
    assert_eq!(
        release_recording(&s),
        vec![
            OutputRelease::ReleaseOutput(7),
            OutputRelease::ReleaseEncoder(8),
            OutputRelease::ReleaseEncoder(9)
        ]
    );
    assert_eq!(stopped_message(), "Grabacion detenida y recursos liberados");
}

#[test]
fn saving_needs_a_recording() {
    assert_eq!(clip_source(&None), Err("Todavia no estas grabando".to_string()));
    assert_eq!(clip_source(&Some(running())), Ok(7));
    assert_eq!(save_requested(true), Ok(()));
    assert_eq!(save_requested(false), Err("No se pudo llamar al proc 'save'".to_string()));
}

#[test]
fn a_clip_is_waited_for() {
    let mut w = ClipWait::new();
    assert!(matches!(w.polled(None), ClipNext::Again));
    assert!(matches!(w.polled(Some("a.mp4".to_string())), ClipNext::Done(Ok(p)) if p == "a.mp4"));
    let mut w = ClipWait::new();
    for _ in 1..CLIP_POLLS {
        assert!(matches!(w.polled(None), ClipNext::Again));
    }
    match w.polled(None) {
        ClipNext::Done(Err(e)) => assert_eq!(e, "Timeout esperando que se guarde el clip (5s)"),
        _ => panic!("time is up"),
    }
    assert_eq!(CLIP_POLLS as u64 * CLIP_POLL_MILLIS, 5000);
}

#[test]
fn news_about_a_clip() {
    let mut slot = None;
    match clip_news(Ok("a.mp4".to_string()), &mut slot) {
        ClipNews::Saved { path, clip_seconds } => {
            assert_eq!((path.as_str(), clip_seconds), ("a.mp4", 60));
        }
        ClipNews::Failed(_) => panic!("the clip is there"),
    }
    assert!(matches!(clip_news(Err("no".to_string()), &mut slot), ClipNews::Failed(e) if e == "no"));
}
