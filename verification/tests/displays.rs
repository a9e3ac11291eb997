use ember::displays::{
    calculate_corner_position, clip_notice, clip_notice_steps, clip_route, corner_is_representable,
    fallback_position, find_captured_monitor, monitor_gdi_name_for_device_path, notice_style,
    primary_monitor_size, sound_to_play, status_notice, status_notice_steps, status_route,
    status_script, target_monitor, DisplayAdapter, MonitorArea, MonitorTarget, Notice, NoticeStep,
    NOTICE_MIN_SIDE, WS_EX_LAYERED, WS_EX_TRANSPARENT,
};
use ember::text::wide;

fn adapter(name: &str, id: Option<&str>) -> DisplayAdapter {
    DisplayAdapter { name: wide(name), monitor_id: id.map(wide) }
}

fn some(s: &str) -> Option<String> {
    Some(s.to_string())
}

#[test]
fn an_unusable_screen_size_is_replaced() {
    assert_eq!(primary_monitor_size(2560, 1440), (2560, 1440));
    assert_eq!(primary_monitor_size(0, 1440), (1920, 1080));
    assert_eq!(primary_monitor_size(2560, 0), (1920, 1080));
    assert_eq!(primary_monitor_size(-1, -1), (1920, 1080));
}

#[test]
fn the_adapter_of_a_device_path_is_found() {
    let list = vec![
        adapter("\\\\.\\DISPLAY1", Some("\\\\?\\DISPLAY#AAA")),
        adapter("\\\\.\\DISPLAY2", None),
        adapter("\\\\.\\DISPLAY3", Some("\\\\?\\DISPLAY#BBB")),
        adapter("\\\\.\\DISPLAY4", Some("\\\\?\\display#bbb")),
    ];
    assert_eq!(
        monitor_gdi_name_for_device_path(&list, "\\\\?\\display#bBb"),
        some("\\\\.\\DISPLAY3")
    );
    assert_eq!(monitor_gdi_name_for_device_path(&list, "\\\\?\\DISPLAY#CCC"), None);
}

#[test]
fn sixteen_adapters_are_looked_at() {
    let mut list: Vec<DisplayAdapter> =
        (0..15).map(|i| adapter(&format!("D{i}"), Some("other"))).collect();
    list.push(adapter("D15", Some("mine")));
    list.push(adapter("D16", Some("late")));
    assert_eq!(monitor_gdi_name_for_device_path(&list, "mine"), some("D15"));
    assert_eq!(monitor_gdi_name_for_device_path(&list, "late"), None);
}

#[test]
fn the_captured_monitor_is_found() {
    let names = Some(vec![some("A"), None, some("B"), some("2"), some("B")]);
    let find = |t: &str, id: Option<&str>, gdi: Option<&str>| {
        find_captured_monitor(t, &id.map(String::from), &names, &gdi.map(String::from))
    };
    assert_eq!(find("screen", Some("path"), Some("B")), Some(2));
    assert_eq!(find("screen", Some("0"), Some("missing")), Some(0));
    assert_eq!(find("screen", Some("2"), None), Some(2));
    assert_eq!(find("screen", Some("9"), None), None);
    assert_eq!(find("screen", Some("A"), None), Some(0));
    assert_eq!(find("screen", Some("C"), None), None);
    assert_eq!(find("screen", None, Some("A")), None);
    assert_eq!(find("window", Some("A"), Some("A")), None);
    assert_eq!(find_captured_monitor("screen", &some("A"), &None, &some("A")), None);
}

#[test]
fn a_monitor_is_always_sought_in_order() {
    assert_eq!(target_monitor(Some(3), true, true), MonitorTarget::Captured(3));
    assert_eq!(target_monitor(None, true, true), MonitorTarget::Window);
    assert_eq!(target_monitor(None, false, true), MonitorTarget::Primary);
    assert_eq!(target_monitor(None, false, false), MonitorTarget::Unknown);
}

#[test]
fn notices_stand_in_the_lower_right_corner() {
    let m = MonitorArea { x: -1920, y: 200, width: 1920, height: 1080 };
    assert_eq!(calculate_corner_position(&m, 280, 70, 20, 60), (-300, 1150));
    let p = calculate_corner_position(&m, 36, 36, 15, 55);
    assert_eq!(p, (-51, 1189));
    assert!(p.0 + 36 + 15 == m.x + m.width as i32 && p.1 + 36 + 55 == m.y + m.height as i32);
}

#[test]
fn positions_beyond_32_bits_are_told() {
    assert!(corner_is_representable(0, 1920, 280, 20));
    assert!(!corner_is_representable(i32::MAX, 1, 0, 0));
    assert!(corner_is_representable(0, u32::MAX, 0, 0));
    let vast = MonitorArea { x: 0, y: 0, width: u32::MAX, height: 10 };
    assert_eq!(calculate_corner_position(&vast, 1, 1, 1, 1), (-3, 8));
    assert!(!corner_is_representable(i32::MIN, 0, 1, 0));
    assert!(!corner_is_representable(i32::MIN, 1, 1, 1));
    assert!(corner_is_representable(i32::MIN, 2, 1, 1));
}

#[test]
fn notices_without_a_monitor() {
    assert_eq!(clip_notice(), Notice { width: 280, height: 70, offset_x: 20, offset_y: 60 });
    assert_eq!(status_notice(), Notice { width: 36, height: 36, offset_x: 15, offset_y: 55 });
    assert_eq!(fallback_position((1920, 1080), &clip_notice()), (1620, 950));
    assert_eq!(fallback_position((1920, 1080), &status_notice()), (1869, 989));
    assert_eq!(fallback_position((10, 10), &clip_notice()), (-290, -120));
    assert_eq!(fallback_position((u32::MAX, 100), &status_notice()), (i32::MAX, 9));
    assert_eq!(NOTICE_MIN_SIDE, 16);
}

#[test]
fn pages_and_scripts() {
    assert_eq!(clip_route(60), "toast?time=60");
    assert_eq!(clip_route(-1), "toast?time=-1");
    assert_eq!(status_route(true), "status_toast?active=true");
    assert_eq!(status_route(false), "status_toast?active=false");
    assert_eq!(status_script(true), "window.__setStatus && window.__setStatus(true)");
}

#[test]
fn steps_of_the_notices() {
    assert_eq!(clip_notice_steps(false, true), vec![NoticeStep::PlaySound, NoticeStep::Open]);
    assert_eq!(clip_notice_steps(true, true), vec![NoticeStep::PlaySound, NoticeStep::Tell, NoticeStep::Move]);
    assert_eq!(clip_notice_steps(true, false), vec![NoticeStep::PlaySound, NoticeStep::Tell]);
    assert_eq!(status_notice_steps(true), vec![NoticeStep::Tell, NoticeStep::RunScript, NoticeStep::Move, NoticeStep::Show]);
    assert_eq!(status_notice_steps(false), vec![NoticeStep::Open]);
}

#[test]
fn the_first_sound_there_is_played() {
    assert_eq!(sound_to_play(true, true), Some("notify.wav"));
    assert_eq!(sound_to_play(false, true), Some("../../../notify.wav"));
    assert_eq!(sound_to_play(false, false), None);
}

#[test]
fn clicks_go_through_notices() {
    for style in [0, 8, -1, i32::MIN, 0x20] {
        let r = notice_style(style);
        assert_eq!(r as u32, style as u32 | WS_EX_TRANSPARENT | WS_EX_LAYERED);
        assert_eq!(notice_style(r), r);
    }
}
