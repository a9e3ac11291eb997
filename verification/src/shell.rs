//! The main window and the tray: hiding, showing, leaving.

use crate::preview::PreviewState;
use crate::text::same_text;
use vstd::prelude::*;

verus! {

/// One thing done to a window, or to the application.
#[derive(Clone, Copy, PartialEq, Eq, Structural, Debug)]
pub enum ShellStep {
    /// The window stays, though closing it was asked for.
    KeepWindow,
    HideWindow,
    ShowWindow,
    FocusWindow,
    HidePreview(PreviewState),
    ShowPreview(PreviewState),
    /// The application ends.
    Exit,
}

/// Closing the main window hides it, and the preview with it: the recording
/// goes on.
pub open spec fn close_steps(preview: Option<PreviewState>) -> Seq<ShellStep> {
    let window = seq![ShellStep::KeepWindow, ShellStep::HideWindow];
    match preview {
        Some(p) => window.push(ShellStep::HidePreview(p)),
        None => window,
    }
}

/// Closing the main window has been asked for.
pub fn close_requested(preview: &Option<PreviewState>) -> (r: Vec<ShellStep>)
    ensures
        r@ == close_steps(*preview),
{
    let mut steps: Vec<ShellStep> = Vec::new();
    steps.push(ShellStep::KeepWindow);
    steps.push(ShellStep::HideWindow);
    match preview {
        Some(p) => steps.push(ShellStep::HidePreview(*p)),
        None => {},
    }
    assert(steps@ =~= close_steps(*preview));
    steps
}

/// What an entry of the tray menu does: "show" brings the main window up, where
/// there is one, and the preview with it; "quit" ends the application; any
/// other does nothing.
pub open spec fn tray_steps(id: Seq<char>, window_found: bool, preview: Option<PreviewState>) -> Seq<
    ShellStep,
> {
    if id == "show"@ && window_found {
        let window = seq![ShellStep::ShowWindow, ShellStep::FocusWindow];
        match preview {
            Some(p) => window.push(ShellStep::ShowPreview(p)),
            None => window,
        }
    } else if id == "quit"@ {
        seq![ShellStep::Exit]
    } else {
        seq![]
    }
}

/// An entry of the tray menu has been chosen.
pub fn tray_chosen(id: &str, window_found: bool, preview: &Option<PreviewState>) -> (r: Vec<
    ShellStep,
>)
    ensures
        r@ == tray_steps(id@, window_found, *preview),
{
    let mut steps: Vec<ShellStep> = Vec::new();
    if same_text(id, "show") {
        proof {
            reveal_strlit("show");
            reveal_strlit("quit");
            assert("show"@[0] != "quit"@[0]);
        }
        if window_found {
            steps.push(ShellStep::ShowWindow);
            steps.push(ShellStep::FocusWindow);
            match preview {
                Some(p) => steps.push(ShellStep::ShowPreview(*p)),
                None => {},
            }
        }
    } else if same_text(id, "quit") {
        steps.push(ShellStep::Exit);
    }
    assert(steps@ =~= tray_steps(id@, window_found, *preview));
    steps
}

/// One thing done before the application ends.
#[derive(Clone, Copy, PartialEq, Eq, Structural, Debug)]
pub enum ExitStep {
    StopRecording,
    ClosePreview(PreviewState),
    /// Give back everything made for the capture.
    ReleaseCapture,
    /// Shut the engine down.
    ShutDown,
}

/// What is done before the application ends: the recording is stopped, the
/// preview is closed, the capture is given back, and the engine is shut down
/// last, each where it is there.
pub open spec fn exit_steps(preview: Option<PreviewState>, capturing: bool, engine_up: bool) -> Seq<
    ExitStep,
> {
    seq![ExitStep::StopRecording] + (match preview {
        Some(p) => seq![ExitStep::ClosePreview(p)],
        None => seq![],
    }) + (if capturing {
        seq![ExitStep::ReleaseCapture]
    } else {
        seq![]
    }) + (if engine_up {
        seq![ExitStep::ShutDown]
    } else {
        seq![]
    })
}

/// The application is about to end. The preview leaves its slot.
pub fn cleanup_before_exit(preview: &mut Option<PreviewState>, capturing: bool, engine_up: bool) -> (r:
    Vec<ExitStep>)
    ensures
        r@ == exit_steps(*old(preview), capturing, engine_up),
        *final(preview) is None,
{
    let mut steps: Vec<ExitStep> = Vec::new();
    steps.push(ExitStep::StopRecording);
    match preview.take() {
        Some(p) => steps.push(ExitStep::ClosePreview(p)),
        None => {},
    }
    if capturing {
        steps.push(ExitStep::ReleaseCapture);
    }
    if engine_up {
        steps.push(ExitStep::ShutDown);
    }
    assert(steps@ =~= exit_steps(*old(preview), capturing, engine_up));
    steps
}

// ---------------------------------------------------------------------------
// Laws

/// Closing the main window never ends the application: only the "quit" entry
/// of the tray menu does.
pub proof fn only_the_tray_quits(id: Seq<char>, window_found: bool, preview: Option<PreviewState>)
    ensures
        !close_steps(preview).contains(ShellStep::Exit),
        tray_steps(id, window_found, preview).contains(ShellStep::Exit) ==> id == "quit"@,
{
}

/// Showing the window brings back the preview that closing it hid.
pub proof fn showing_brings_the_preview_back(p: PreviewState)
    ensures
        close_steps(Some(p)).contains(ShellStep::HidePreview(p)),
        tray_steps("show"@, true, Some(p)).contains(ShellStep::ShowPreview(p)),
{
    assert(close_steps(Some(p))[2] == ShellStep::HidePreview(p));
    assert(tray_steps("show"@, true, Some(p))[2] == ShellStep::ShowPreview(p));
}

/// Nothing of the engine is given back after it has been shut down: that is the
/// last thing done.
pub proof fn the_engine_goes_last(preview: Option<PreviewState>, capturing: bool, engine_up: bool, i: int)
    requires
        0 <= i < exit_steps(preview, capturing, engine_up).len(),
        exit_steps(preview, capturing, engine_up)[i] is ShutDown,
    ensures
        i == exit_steps(preview, capturing, engine_up).len() - 1,
{
}

/// Closing the window keeps it, hides it, and hides the preview with it; without
/// a preview nothing else is hidden.
pub proof fn closing_hides_window_and_preview(p: PreviewState)
    ensures
        close_steps(None) == seq![ShellStep::KeepWindow, ShellStep::HideWindow],
        close_steps(Some(p)) == close_steps(None).push(ShellStep::HidePreview(p)),
{
}

/// "show" brings up the window, in front, and nothing where there is no window;
/// "quit" ends the application; no other entry does anything.
pub proof fn the_tray_does_what_it_says(
    id: Seq<char>,
    window_found: bool,
    preview: Option<PreviewState>,
)
    ensures
        tray_steps("quit"@, window_found, preview) == seq![ShellStep::Exit],
        tray_steps("show"@, false, preview).len() == 0,
        tray_steps("show"@, true, None) == seq![ShellStep::ShowWindow, ShellStep::FocusWindow],
        preview matches Some(p) ==> tray_steps("show"@, true, preview) == tray_steps(
            "show"@,
            true,
            None,
        ).push(ShellStep::ShowPreview(p)),
        id != "show"@ && id != "quit"@ ==> tray_steps(id, window_found, preview).len() == 0,
{
    reveal_strlit("show");
    reveal_strlit("quit");
    assert("show"@[0] == 's' && "quit"@[0] == 'q');
}

/// Before the application ends the recording is stopped first; the preview is
/// closed, the capture given back and the engine shut down, each where it is
/// there, and nothing else is done.
pub proof fn everything_is_given_back_before_the_end(
    preview: Option<PreviewState>,
    capturing: bool,
    engine_up: bool,
)
    ensures
        ({
            let steps = exit_steps(preview, capturing, engine_up);
            &&& steps[0] is StopRecording
            &&& preview matches Some(p) ==> steps[1] == ExitStep::ClosePreview(p)
            &&& capturing ==> steps.contains(ExitStep::ReleaseCapture)
            &&& engine_up ==> steps.last() is ShutDown
            &&& !engine_up ==> !steps.contains(ExitStep::ShutDown)
            &&& !capturing ==> !steps.contains(ExitStep::ReleaseCapture)
            &&& steps.len() == 1 + (if preview is Some {
                1int
            } else {
                0
            }) + (if capturing {
                1int
            } else {
                0
            }) + (if engine_up {
                1int
            } else {
                0
            })
        }),
{
    let steps = exit_steps(preview, capturing, engine_up);
    if capturing {
        let at: int = if preview is Some {
            2
        } else {
            1
        };
        assert(steps[at] is ReleaseCapture);
    }
}

} // verus!
