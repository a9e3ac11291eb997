use ember::preview::PreviewState;
use ember::shell::{cleanup_before_exit, close_requested, tray_chosen, ExitStep, ShellStep};

const P: PreviewState = PreviewState { hwnd: 3, display: 4 };

#[test]
fn closing_hides() {
    assert_eq!(close_requested(&None), vec![ShellStep::KeepWindow, ShellStep::HideWindow]);
    assert_eq!(
        close_requested(&Some(P)),
        vec![ShellStep::KeepWindow, ShellStep::HideWindow, ShellStep::HidePreview(P)]
    );
}

#[test]
fn the_tray_shows_and_quits() {
    assert_eq!(
        tray_chosen("show", true, &Some(P)),
        vec![ShellStep::ShowWindow, ShellStep::FocusWindow, ShellStep::ShowPreview(P)]
    );
    assert_eq!(
        tray_chosen("show", true, &None),
        vec![ShellStep::ShowWindow, ShellStep::FocusWindow]
    );
    assert!(tray_chosen("show", false, &Some(P)).is_empty());
    assert_eq!(tray_chosen("quit", false, &None), vec![ShellStep::Exit]);
    assert!(tray_chosen("other", true, &Some(P)).is_empty());
}

#[test]
fn leaving_gives_everything_back() {
    let mut preview = Some(P);
    assert_eq!(
        cleanup_before_exit(&mut preview, true, true),
        vec![
            ExitStep::StopRecording,
            ExitStep::ClosePreview(P),
            ExitStep::ReleaseCapture,
            ExitStep::ShutDown
        ]
    );
    assert_eq!(cleanup_before_exit(&mut preview, false, false), vec![ExitStep::StopRecording]);
}
