use ember::config::OverlayKind;
use ember::single::Single;
use ember::sources::{
    audio_settings, build_capture_settings, capture_key, capture_plugin, choose_first_source,
    initial_capture_settings, list_property_options, opacity_filter_request, opacity_settings, overlay_name,
    overlay_plugin, overlay_settings, replay_settings, returned_text, version_text, PropertyOption,
    Setting, SettingValue,
};

fn shown(list: &Vec<Setting>) -> Vec<String> {
    list.iter()
        .map(|s| match &s.value {
            SettingValue::Text(t) => format!("{}='{t}'", s.key),
            SettingValue::Number(n) => format!("{}={n}", s.key),
            SettingValue::Real(r) => format!("{}={:?}", s.key, f32::from_bits(r.bits)),
        })
        .collect()
}

#[test]
fn capture_sources() {
    assert_eq!(capture_plugin("screen"), "monitor_capture");
    assert_eq!(capture_plugin("window"), "window_capture");
    assert_eq!(capture_plugin("game"), "game_capture");
    assert_eq!(capture_plugin("anything"), "monitor_capture");
    assert_eq!(capture_key("monitor_capture"), "monitor_id");
    assert_eq!(capture_key("window_capture"), "window");
    assert_eq!(capture_key("game_capture"), "window");
}

#[test]
fn settings_of_capture_sources() {
    assert_eq!(shown(&build_capture_settings("monitor_capture", "m1")), vec!["monitor_id='m1'"]);
    assert_eq!(
        shown(&build_capture_settings("window_capture", "w")),
        vec!["window='w'", "method=2"]
    );
    assert_eq!(
        shown(&build_capture_settings("game_capture", "g")),
        vec!["window='g'", "capture_mode='window'"]
    );
    assert_eq!(shown(&build_capture_settings("other", "o")), vec!["window='o'"]);
    assert!(initial_capture_settings("game_capture", &None).is_empty());
    assert_eq!(
        shown(&initial_capture_settings("monitor_capture", &Some("m".to_string()))),
        vec!["monitor_id='m'"]
    );
}

#[test]
fn overlay_sources() {
    assert_eq!(overlay_plugin(OverlayKind::Image), "image_source");
    assert_eq!(overlay_plugin(OverlayKind::Text), "text_ft2_source");
    assert_eq!(overlay_plugin(OverlayKind::Browser), "browser_source");
    assert_eq!(overlay_name(OverlayKind::Text), "Overlay (text_ft2_source)");
    assert_eq!(shown(&overlay_settings(OverlayKind::Image, "a.png")), vec!["file='a.png'"]);
    assert_eq!(shown(&overlay_settings(OverlayKind::Text, "hola")), vec!["text='hola'"]);
    assert_eq!(
        shown(&overlay_settings(OverlayKind::Browser, "https://x")),
        vec!["url='https://x'", "width=800", "height=600"]
    );
}

#[test]
fn opacity_is_clamped() {
    let set = |x: f32| shown(&opacity_settings(Single { bits: x.to_bits() }));
    assert_eq!(set(0.5), vec!["opacity=0.5"]);
    assert_eq!(set(1.5), vec!["opacity=1.0"]);
    assert_eq!(set(-2.0), vec!["opacity=0.0"]);
    assert_eq!(set(f32::NAN), vec!["opacity=NaN"]);
    let q = opacity_filter_request(Single { bits: 3.0f32.to_bits() });
    assert_eq!((q.plugin, q.name.as_str()), ("color_filter_v2", "Ember Opacidad"));
    assert_eq!(shown(&q.settings), vec!["opacity=1.0"]);
}

#[test]
fn settings_of_audio_and_replay_buffer() {
    assert_eq!(shown(&audio_settings("default")), vec!["device_id='default'"]);
    assert_eq!(
        shown(&replay_settings("C:\\clips\\hoy", 45)),
        vec![
            "directory='C:/clips/hoy'",
            "format='ember-clip-%CCYY-%MM-%DD-%hh-%mm-%ss'",
            "extension='mp4'",
            "max_time_sec=45",
            "max_size_mb=1000",
        ]
    );
}

#[test]
fn missing_names_and_values_are_empty() {
    let s = |t: &str| Some(t.to_string());
    let list = list_property_options(&vec![(s("n"), s("v")), (None, s("v")), (s("n"), None)]);
    let pairs: Vec<(&str, &str)> =
        list.iter().map(|o| (o.name.as_str(), o.value.as_str())).collect();
    assert_eq!(pairs, vec![("n", "v"), ("", "v"), ("n", "")]);
}

#[test]
fn the_first_choice_is_taken() {
    let mut slot = None;
    assert!(choose_first_source(&mut slot, &vec![]).is_none());
    assert!(slot.is_none());
    let option = |v: &str| PropertyOption { name: "n".to_string(), value: v.to_string() };
    let r = choose_first_source(&mut slot, &vec![option("a"), option("b")]).unwrap();
    assert_eq!(r.value, "a");
    assert_eq!(r.config.video_source_id.as_deref(), Some("a"));
    assert_eq!(slot.unwrap().video_source_id.as_deref(), Some("a"));
}

#[test]
fn returned_texts_and_version() {
    assert_eq!(returned_text(true, Some("C:/a.mp4".to_string())).as_deref(), Some("C:/a.mp4"));
    assert_eq!(returned_text(false, Some("C:/a.mp4".to_string())), None);
    assert_eq!(returned_text(true, Some(String::new())), None);
    assert_eq!(returned_text(true, None), None);
    assert_eq!(version_text(Some("31.0.0".to_string())), "31.0.0");
    assert_eq!(version_text(None), "obs_get_version_string() devolvio null");
}
