use ember::encoders::{
    list_video_encoders, registered_encoder_ids, video_encoder_candidates, EncoderSearch,
};

fn ids(list: &[&str]) -> Vec<String> {
    list.iter().map(|s| s.to_string()).collect()
}

fn tried(choice: &str, registered: &[&str]) -> Vec<String> {
    let mut search = EncoderSearch::new(choice, &ids(registered));
    let mut list = vec![];
    while let Some(c) = search.current() {
        list.push(c.id.to_string());
        search.not_created();
    }
    list
}

const ALL: [&str; 4] = ["obs_x264", "obs_qsv11_v2", "h264_texture_amf", "obs_nvenc_h264_tex"];

#[test]
fn the_encoders_in_order_of_preference() {
    let list: Vec<(&str, &str)> =
        video_encoder_candidates().iter().map(|c| (c.id, c.label)).collect();
    assert_eq!(
        list,
        vec![
            ("obs_nvenc_h264_tex", "NVIDIA NVENC"),
            ("h264_texture_amf", "AMD AMF"),
            ("obs_qsv11_v2", "Intel QuickSync"),
            ("obs_x264", "Software (x264)"),
        ]
    );
}

#[test]
fn automatic_choice_tries_what_the_engine_has() {
    assert_eq!(
        tried("auto", &ALL),
        vec!["obs_nvenc_h264_tex", "h264_texture_amf", "obs_qsv11_v2", "obs_x264"]
    );
    assert_eq!(tried("auto", &["obs_x264", "h264_texture_amf"]), vec!["h264_texture_amf", "obs_x264"]);
    assert_eq!(tried("an old value", &["obs_x264", "other"]), vec!["obs_x264"]);
    assert!(tried("auto", &[]).is_empty());
}

#[test]
fn a_chosen_encoder_is_tried_alone() {
    assert_eq!(tried("obs_qsv11_v2", &ALL), vec!["obs_qsv11_v2"]);
    assert!(tried("obs_qsv11_v2", &["obs_x264"]).is_empty());
}

#[test]
fn failures_are_told_line_by_line() {
    let mut search = EncoderSearch::new("auto", &ids(&ALL));
    search.not_created();
    search.not_started(Some("sin GPU".to_string()));
    search.not_started(None);
    assert_eq!(search.current().unwrap().id, "obs_x264");
    assert_eq!(
        search.failure(),
        "No se pudo iniciar la grabacion con ningun codificador de video disponible:\n\
         NVIDIA NVENC (obs_nvenc_h264_tex): obs_video_encoder_create devolvio null\n\
         AMD AMF (h264_texture_amf): sin GPU\n\
         Intel QuickSync (obs_qsv11_v2): razon desconocida (probablemente el hardware no soporta este codificador)"
    );
    assert_eq!(
        EncoderSearch::none().failure(),
        "No se pudo iniciar la grabacion con ningun codificador de video disponible:\n"
    );
    assert!(EncoderSearch::none().current().is_none());
}

#[test]
fn offered_encoders() {
    let offered: Vec<(String, String)> = list_video_encoders(&ids(&["obs_x264", "obs_nvenc_h264_tex"]))
        .into_iter()
        .map(|o| (o.name, o.value))
        .collect();
    let expected: Vec<(String, String)> = [
        ("Automatico (recomendado)", "auto"),
        ("NVIDIA NVENC", "obs_nvenc_h264_tex"),
        ("Software (x264)", "obs_x264"),
    ]
    .iter()
    .map(|(n, v)| (n.to_string(), v.to_string()))
    .collect();
    assert_eq!(offered, expected);
    for (_, value) in &expected[1..] {
        assert_eq!(tried(value, &["obs_x264", "obs_nvenc_h264_tex"]), vec![value.clone()]);
    }
}

#[test]
fn missing_identifiers_are_left_out() {
    let reported = vec![Some("a".to_string()), None, Some("b".to_string())];
    assert_eq!(registered_encoder_ids(&reported), vec!["a", "b"]);
    assert!(registered_encoder_ids(&vec![]).is_empty());
}
