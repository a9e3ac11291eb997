use ember::platform::{
    audio_answered, downscales, init_after, init_begin, plan_video,
    reapply_video_settings_if_changed, video_answered, InitNext, InitStep, VideoPlan,
    AUDIO_SAMPLES_PER_SECOND, OBS_VIDEO_SUCCESS,
};
use ember::preview::{canvas_size, PreviewModel};

#[test]
fn the_engine_comes_up_in_order() {
    let mut run = vec![];
    let mut done = None;
    let mut next = init_begin(done);
    loop {
        match next {
            InitNext::Do(step) => {
                run.push(step);
                next = init_after(&mut done, step, Ok(()));
            }
            InitNext::Done(r) => {
                assert_eq!(r, Ok(()));
                break;
            }
        }
    }
    assert_eq!(
        run,
        vec![
            InitStep::CreateFolder,
            InitStep::EnterFolder,
            InitStep::StartEngine,
            InitStep::ApplyVideo,
            InitStep::LoadPlugins
        ]
    );
    assert_eq!(done, Some(InitStep::LoadPlugins));
    assert!(matches!(init_begin(done), InitNext::Done(Ok(()))));
}

#[test]
fn the_folder_is_made_anew_until_the_engine_is_started() {
    let mut done = None;
    assert!(matches!(
        init_after(&mut done, InitStep::CreateFolder, Ok(())),
        InitNext::Do(InitStep::EnterFolder)
    ));
    assert!(matches!(
        init_after(&mut done, InitStep::EnterFolder, Err("E".to_string())),
        InitNext::Done(Err(_))
    ));
    assert_eq!(done, Some(InitStep::CreateFolder));
    assert!(matches!(init_begin(done), InitNext::Do(InitStep::CreateFolder)));
    done = Some(InitStep::EnterFolder);
    assert!(matches!(
        init_after(&mut done, InitStep::StartEngine, Err("E".to_string())),
        InitNext::Done(Err(_))
    ));
    assert!(matches!(init_begin(done), InitNext::Do(InitStep::CreateFolder)));
}

#[test]
fn a_started_engine_is_taken_up_where_it_failed() {
    let mut done = Some(InitStep::StartEngine);
    let failed = init_after(&mut done, InitStep::ApplyVideo, Err("E".to_string()));
    assert!(matches!(failed, InitNext::Done(Err(e)) if e == "E"));
    assert_eq!(done, Some(InitStep::StartEngine));
    assert!(matches!(init_begin(done), InitNext::Do(InitStep::ApplyVideo)));
    let next = init_after(&mut done, InitStep::ApplyVideo, Ok(()));
    assert!(matches!(next, InitNext::Do(InitStep::LoadPlugins)));
    assert!(matches!(init_begin(done), InitNext::Do(InitStep::LoadPlugins)));
    assert!(matches!(init_begin(None), InitNext::Do(InitStep::CreateFolder)));
}

#[test]
fn each_failed_step_has_its_message() {
    let failure = |step: InitStep| match init_after(&mut None, step, Err("E".to_string())) {
        InitNext::Done(Err(e)) => e,
        _ => panic!("the step failed"),
    };
    assert_eq!(
        failure(InitStep::CreateFolder),
        "no se pudo crear el directorio de trabajo para libobs: E"
    );
    assert_eq!(failure(InitStep::EnterFolder), "no se pudo fijar el directorio de trabajo: E");
    assert_eq!(failure(InitStep::StartEngine), "obs_startup fallo");
    assert_eq!(failure(InitStep::ApplyVideo), "E");
    assert_eq!(failure(InitStep::LoadPlugins), "E");
}

#[test]
fn formats_of_the_picture() {
    assert!(downscales("720p", 1080));
    assert!(!downscales("720p", 720));
    assert!(!downscales("original", 1080));
    let width = |base: (u32, u32)| (base.0 as f64 * (720.0 / base.1 as f64)) as u32;
    let plan = |resolution: &str, base: (u32, u32)| plan_video(resolution, 60, base, width(base));
    assert_eq!(
        plan("720p", (1920, 1080)),
        VideoPlan {
            base_width: 1920,
            base_height: 1080,
            output_width: 1280,
            output_height: 720,
            fps_num: 60,
            fps_den: 1,
            scaled: true
        }
    );
    let odd = plan("720p", (1366, 768));
    assert_eq!((odd.output_width, odd.output_height), (1280, 720));
    assert_eq!(plan_video("720p", 30, (1000, 1000), 721).output_width, 720);
    for base in [(1920, 1080), (2560, 1440), (3840, 2160), (1366, 768), (1920, 1200)] {
        let v = plan("720p", base);
        let exact = base.0 as u64 * 720;
        let out = v.output_width as u64;
        assert!(out * base.1 as u64 <= exact && exact < (out + 2) * base.1 as u64);
        assert!(v.output_width <= v.base_width);
    }
    let same = plan("original", (2560, 1440));
    assert_eq!((same.output_width, same.output_height, same.scaled), (2560, 1440, false));
    let low = plan("720p", (1280, 720));
    assert_eq!((low.output_width, low.output_height, low.scaled), (1280, 720, false));
}

#[test]
fn the_canvas_follows_an_accepted_format() {
    let mut model = PreviewModel::new();
    let plan = plan_video("original", 60, (2560, 1440), 0);
    assert_eq!(
        video_answered(&mut model, &plan, -4),
        Err("obs_reset_video fallo, codigo -4".to_string())
    );
    assert_eq!(canvas_size(&model), (1920, 1080));
    assert_eq!(video_answered(&mut model, &plan, OBS_VIDEO_SUCCESS), Ok(()));
    assert_eq!(canvas_size(&model), (2560, 1440));
}

#[test]
fn an_applied_format_is_left_alone() {
    let mut last = None;
    assert_eq!(AUDIO_SAMPLES_PER_SECOND, 48000);
    assert!(reapply_video_settings_if_changed(&last, "720p", 60, false));
    assert_eq!(
        audio_answered(&mut last, "720p".to_string(), 60, false),
        Err("obs_reset_audio fallo".to_string())
    );
    assert!(last.is_none());
    assert_eq!(audio_answered(&mut last, "720p".to_string(), 60, true), Ok(()));
    assert!(!reapply_video_settings_if_changed(&last, "720p", 60, false));
    assert!(reapply_video_settings_if_changed(&last, "720p", 30, false));
    assert!(reapply_video_settings_if_changed(&last, "original", 60, false));
    assert!(!reapply_video_settings_if_changed(&last, "original", 60, true));
}
