//! Bringing the recording engine up, and the picture format it works in.

use crate::preview::{set_canvas_size, PreviewModel, PreviewView};
use crate::text::{joined, decimal, decimal_i64, same_text};
use vstd::prelude::*;

verus! {

/// One step of bringing the engine up, in order.
#[derive(Clone, Copy, PartialEq, Eq, Structural, Debug)]
pub enum InitStep {
    /// Make the folder that the engine works in.
    CreateFolder,
    /// Work in it.
    EnterFolder,
    /// Start the engine.
    StartEngine,
    /// Apply the picture format. The capture plugins look at the graphics
    /// device as they load, so it has to be there before them.
    ApplyVideo,
    /// Load the plugins.
    LoadPlugins,
}

/// What follows a step.
pub enum InitNext {
    Do(InitStep),
    Done(Result<(), String>),
}

/// The place of a step in the order.
pub open spec fn init_rank(s: InitStep) -> int {
    match s {
        InitStep::CreateFolder => 0,
        InitStep::EnterFolder => 1,
        InitStep::StartEngine => 2,
        InitStep::ApplyVideo => 3,
        InitStep::LoadPlugins => 4,
    }
}

/// `next` is the step right after `step`.
pub open spec fn follows(step: InitStep, next: InitStep) -> bool {
    init_rank(next) == init_rank(step) + 1
}

/// The message of a failed step.
pub open spec fn init_failure(step: InitStep, reason: Seq<char>) -> Seq<char> {
    match step {
        InitStep::CreateFolder => "no se pudo crear el directorio de trabajo para libobs: "@ + reason,
        InitStep::EnterFolder => "no se pudo fijar el directorio de trabajo: "@ + reason,
        InitStep::StartEngine => "obs_startup fallo"@,
        InitStep::ApplyVideo => reason,
        InitStep::LoadPlugins => reason,
    }
}

/// The step that an attempt to bring the engine up begins with. `done` is the
/// last step that has worked in this process. The folder is made and entered
/// anew until the engine is started; what comes from there on is done once.
pub open spec fn first_due(done: Option<InitStep>) -> Option<InitStep> {
    match done {
        Some(InitStep::StartEngine) => Some(InitStep::ApplyVideo),
        Some(InitStep::ApplyVideo) => Some(InitStep::LoadPlugins),
        Some(InitStep::LoadPlugins) => None,
        _ => Some(InitStep::CreateFolder),
    }
}

/// Begins to bring the engine up. `done` is the last step that has worked in
/// this process: an engine that has been started is not started again, and
/// nothing is left to do only once the plugins are loaded.
pub fn init_begin(done: Option<InitStep>) -> (r: InitNext)
    ensures
        r == (match first_due(done) {
            Some(step) => InitNext::Do(step),
            None => InitNext::Done(Ok(())),
        }),
        r matches InitNext::Do(next) ==> is_due(done, next),
{
    match done {
        None | Some(InitStep::CreateFolder) | Some(InitStep::EnterFolder) => InitNext::Do(
            InitStep::CreateFolder,
        ),
        Some(s) => init_next(s),
    }
}

fn init_next(step: InitStep) -> (r: InitNext)
    ensures
        step is LoadPlugins ==> r == InitNext::Done(Ok(())),
        !(step is LoadPlugins) ==> (r matches InitNext::Do(n) && follows(step, n)),
{
    match step {
        InitStep::CreateFolder => InitNext::Do(InitStep::EnterFolder),
        InitStep::EnterFolder => InitNext::Do(InitStep::StartEngine),
        InitStep::StartEngine => InitNext::Do(InitStep::ApplyVideo),
        InitStep::ApplyVideo => InitNext::Do(InitStep::LoadPlugins),
        InitStep::LoadPlugins => InitNext::Done(Ok(())),
    }
}

/// What follows `step`, given what became of it: the next one, the end after
/// the last, or the failure. A step that has worked is remembered in `done`.
pub fn init_after(done: &mut Option<InitStep>, step: InitStep, outcome: Result<(), String>) -> (r:
    InitNext)
    ensures
        outcome is Ok ==> *final(done) == Some(step),
        outcome is Err ==> *final(done) == *old(done),
        outcome is Ok && !(step is LoadPlugins) ==> (r matches InitNext::Do(next) && follows(
            step,
            next,
        )),
        r matches InitNext::Do(next) ==> is_due(*final(done), next),
        outcome is Ok && step is LoadPlugins ==> r == InitNext::Done(Ok(())),
        outcome matches Err(reason) ==> (r matches InitNext::Done(Err(e)) && e@ == init_failure(
            step,
            reason@,
        )),
{
    match outcome {
        Ok(_) => {
            *done = Some(step);
            init_next(step)
        },
        Err(reason) => InitNext::Done(
            Err(
                match step {
                    InitStep::CreateFolder => joined(
                        "no se pudo crear el directorio de trabajo para libobs: ",
                        reason.as_str(),
                    ),
                    InitStep::EnterFolder => joined(
                        "no se pudo fijar el directorio de trabajo: ",
                        reason.as_str(),
                    ),
                    InitStep::StartEngine => "obs_startup fallo".to_owned(),
                    InitStep::ApplyVideo => reason,
                    InitStep::LoadPlugins => reason,
                },
            ),
        ),
    }
}

// ---------------------------------------------------------------------------
// The picture format

/// The picture is made smaller: 720p is asked for, and the screen is higher.
pub open spec fn is_downscaled(resolution: Seq<char>, base_height: u32) -> bool {
    resolution == "720p"@ && base_height > 720
}

/// Tells whether the picture is made smaller.
pub fn downscales(resolution: &str, base_height: u32) -> (r: bool)
    ensures
        r == is_downscaled(resolution@, base_height),
{
    same_text(resolution, "720p") && base_height > 720
}

/// The picture format.
#[derive(Clone, Copy, PartialEq, Eq, Structural, Debug)]
pub struct VideoPlan {
    pub base_width: u32,
    pub base_height: u32,
    pub output_width: u32,
    pub output_height: u32,
    pub fps_num: u32,
    pub fps_den: u32,
    /// The picture is scaled on its way out, with the bicubic filter.
    pub scaled: bool,
}

/// The format of a screen of `base` pixels. `width_at_720` is its width when
/// it is scaled to 720 lines; an odd width loses one pixel. The picture is
/// scaled exactly where its size changes.
pub open spec fn video_format(resolution: Seq<char>, fps: i64, base: (u32, u32), width_at_720: u32) -> VideoPlan {
    let output = if is_downscaled(resolution, base.1) {
        ((width_at_720 - width_at_720 % 2) as u32, 720u32)
    } else {
        base
    };
    VideoPlan {
        base_width: base.0,
        base_height: base.1,
        output_width: output.0,
        output_height: output.1,
        fps_num: fps as u32,
        fps_den: 1,
        scaled: output != base,
    }
}

/// The picture format that the settings ask for.
pub fn plan_video(resolution: &str, fps: i64, base: (u32, u32), width_at_720: u32) -> (r: VideoPlan)
    ensures
        r == video_format(resolution@, fps, base, width_at_720),
{
    assert(width_at_720 & !1u32 == width_at_720 - width_at_720 % 2) by (bit_vector);
    let (output_width, output_height) = if downscales(resolution, base.1) {
        (width_at_720 & !1u32, 720u32)
    } else {
        base
    };
    VideoPlan {
        base_width: base.0,
        base_height: base.1,
        output_width,
        output_height,
        fps_num: fps as u32,
        fps_den: 1,
        scaled: output_width != base.0 || output_height != base.1,
    }
}

/// The code that the engine returns for a format it has taken.
pub const OBS_VIDEO_SUCCESS: i32 = 0;

/// Samples per second of the sound.
pub const AUDIO_SAMPLES_PER_SECOND: u32 = 48000;

/// The engine has been given the picture format and answered with `code`. The
/// canvas of the preview takes the size of the screen once the engine has the
/// format.
pub fn video_answered(model: &mut PreviewModel, plan: &VideoPlan, code: i32) -> (r: Result<(), String>)
    ensures
        r is Ok <==> code == OBS_VIDEO_SUCCESS,
        r is Ok ==> final(model)@ == (PreviewView {
            canvas: (plan.base_width, plan.base_height),
            ..old(model)@
        }),
        r matches Err(e) ==> final(model)@ == old(model)@ && e@ == "obs_reset_video fallo, codigo "@
            + decimal(code as int),
        old(model)@.wf() ==> final(model)@.wf(),
{
    if code != OBS_VIDEO_SUCCESS {
        return Err(joined("obs_reset_video fallo, codigo ", decimal_i64(code as i64).as_str()));
    }
    set_canvas_size(model, plan.base_width, plan.base_height);
    Ok(())
}

/// The resolution and frame rate that the engine works in.
#[derive(Debug)]
pub struct AppliedVideo {
    pub resolution: String,
    pub fps: i64,
}

/// The engine works in this format.
pub open spec fn applies(last: Option<AppliedVideo>, resolution: Seq<char>, fps: i64) -> bool {
    last matches Some(a) && a.resolution@ == resolution && a.fps == fps
}

/// The engine has been given the sound format, after it took the picture
/// format. Only then is the format remembered as applied.
pub fn audio_answered(last: &mut Option<AppliedVideo>, resolution: String, fps: i64, accepted: bool) -> (r: Result<(), String>)
    ensures
        r is Ok <==> accepted,
        r is Ok ==> *final(last) == Some(AppliedVideo { resolution, fps }),
        r matches Err(e) ==> *final(last) == *old(last) && e@ == "obs_reset_audio fallo"@,
{
    if !accepted {
        return Err("obs_reset_audio fallo".to_owned());
    }
    *last = Some(AppliedVideo { resolution, fps });
    Ok(())
}

/// The format has to be applied again: it has changed, and no picture is being
/// taken.
pub open spec fn reapplies(last: Option<AppliedVideo>, resolution: Seq<char>, fps: i64, video_active: bool) -> bool {
    !applies(last, resolution, fps) && !video_active
}

/// Tells whether the format has to be applied again. Applying it needlessly
/// tears the engine down and back up, and is not done while a picture is being
/// taken.
pub fn reapply_video_settings_if_changed(last: &Option<AppliedVideo>, resolution: &str, fps: i64, video_active: bool) -> (r: bool)
    ensures
        r == reapplies(*last, resolution@, fps, video_active),
{
    let unchanged = match last {
        Some(a) => same_text(a.resolution.as_str(), resolution) && a.fps == fps,
        None => false,
    };
    !unchanged && !video_active
}

// ---------------------------------------------------------------------------
// Laws

/// A step is due once `done` is the last that has worked: the one that follows
/// it in the same attempt, or the one that the next attempt begins with.
pub open spec fn is_due(done: Option<InitStep>, step: InitStep) -> bool {
    ||| done matches Some(s) && follows(s, step)
    ||| first_due(done) == Some(step)
}

/// The last step that has worked.
pub open spec fn last_done(run: Seq<InitStep>) -> Option<InitStep> {
    if run.len() == 0 {
        None
    } else {
        Some(run.last())
    }
}

/// The steps that have worked in a process, over any number of attempts: each
/// was due after those before it.
pub open spec fn is_init_run(run: Seq<InitStep>) -> bool {
    forall|i: int| 0 <= i < run.len() ==> is_due(last_done(run.take(i)), #[trigger] run[i])
}

/// Whatever has failed in between, the engine is started once, takes its format
/// once as it comes up, and loads its plugins once: after one of these steps
/// only later ones work, and a step that is due goes on the run.
pub proof fn each_step_works_once(run: Seq<InitStep>, step: InitStep, i: int, j: int)
    requires
        is_init_run(run),
    ensures
        is_due(last_done(run), step) ==> is_init_run(run.push(step)),
        0 <= i < j < run.len() && init_rank(run[i]) >= 2 ==> init_rank(run[i]) < init_rank(run[j]),
{
    if 0 <= i < j < run.len() && init_rank(run[i]) >= 2 {
        lemma_later_steps_follow(run, i, j);
    }
    if is_due(last_done(run), step) {
        assert forall|k: int| 0 <= k < run.push(step).len() implies is_due(
            last_done(run.push(step).take(k)),
            #[trigger] run.push(step)[k],
        ) by {
            assert(run.push(step).take(k) =~= run.take(k));
            if k == run.len() {
                assert(run.take(k) =~= run);
            } else {
                assert(is_due(last_done(run.take(k)), run[k]));
            }
        }
    }
}

/// The plugins load only in an engine that has been started and has its
/// picture format: where they have loaded, the folder was made and entered, the
/// engine was started and took its format right before, in this order, and
/// nothing is left to do.
pub proof fn plugins_load_last(run: Seq<InitStep>, i: int)
    requires
        is_init_run(run),
        0 <= i < run.len(),
        run[i] is LoadPlugins,
    ensures
        i == run.len() - 1,
        i >= 4,
        run[i - 4] is CreateFolder,
        run[i - 3] is EnterFolder,
        run[i - 2] is StartEngine,
        run[i - 1] is ApplyVideo,
        first_due(last_done(run)) is None,
{
    lemma_step_before(run, i);
    lemma_step_before(run, i - 1);
    lemma_step_before(run, i - 2);
    lemma_step_before(run, i - 3);
    if i < run.len() - 1 {
        lemma_later_steps_follow(run, i, run.len() - 1);
    }
}

/// A step but the first comes right after the one before it in the order.
proof fn lemma_step_before(run: Seq<InitStep>, i: int)
    requires
        is_init_run(run),
        0 <= i < run.len(),
        !(run[i] is CreateFolder),
    ensures
        i > 0,
        follows(run[i - 1], run[i]),
{
    assert(is_due(last_done(run.take(i)), run[i]));
    if i > 0 {
        assert(run.take(i).last() == run[i - 1]);
    }
}

proof fn lemma_later_steps_follow(run: Seq<InitStep>, i: int, j: int)
    requires
        is_init_run(run),
        0 <= i < j < run.len(),
        init_rank(run[i]) >= 2,
    ensures
        init_rank(run[i]) < init_rank(run[j]),
    decreases j - i,
{
    if i < j - 1 {
        lemma_later_steps_follow(run, i, j - 1);
    }
    assert(is_due(last_done(run.take(j)), run[j]));
    assert(run.take(j).last() == run[j - 1]);
}

/// A format that has just been applied is not applied again.
pub proof fn an_applied_format_is_not_applied_again(resolution: String, fps: i64, video_active: bool)
    ensures
        !reapplies(Some(AppliedVideo { resolution, fps }), resolution@, fps, video_active),
{
}

/// The picture that goes out is never larger than the screen, as long as its
/// width at 720 lines is not; it has the size of the screen unless it is scaled,
/// and a scaled one has 720 lines and an even width.
pub proof fn the_output_fits_the_screen(resolution: Seq<char>, fps: i64, base: (u32, u32), width_at_720: u32)
    ensures
        ({
            let v = video_format(resolution, fps, base, width_at_720);
            &&& v.output_height <= v.base_height
            &&& width_at_720 <= base.0 ==> v.output_width <= v.base_width
            &&& !v.scaled ==> v.output_width == v.base_width && v.output_height == v.base_height
            &&& v.scaled ==> v.output_height == 720 && v.output_width % 2 == 0
        }),
{
}

/// A picture that is made smaller keeps its proportions up to two pixels, and
/// is not made wider: with the width at 720 lines rounded down, the width that
/// goes out is the even number at or right below the exact one.
pub proof fn the_proportions_are_kept(resolution: Seq<char>, fps: i64, base: (u32, u32), width_at_720: u32)
    requires
        is_downscaled(resolution, base.1),
        width_at_720 * base.1 <= base.0 * 720,
        base.0 * 720 < (width_at_720 + 1) * base.1,
    ensures
        ({
            let v = video_format(resolution, fps, base, width_at_720);
            &&& v.output_width * base.1 <= base.0 * 720 < (v.output_width + 2) * base.1
            &&& v.output_width <= v.base_width
        }),
{
    let w = video_format(resolution, fps, base, width_at_720).output_width as int;
    let (n, bw, bh) = (width_at_720 as int, base.0 as int, base.1 as int);
    assert(w == n - n % 2);
    assert(w * bh <= n * bh && (n + 1) * bh <= (w + 2) * bh && n <= bw) by (nonlinear_arith)
        requires
            w <= n,
            n + 1 <= w + 2,
            bh > 720,
            n * bh <= bw * 720,
            n >= 0,
            bw >= 0,
    ;
}

/// The frame rate of the format is the one asked for, whatever the resolution and
/// the screen.
pub proof fn the_frame_rate_is_the_one_asked_for(
    resolution: Seq<char>,
    fps: i64,
    base: (u32, u32),
    width_at_720: u32,
)
    requires
        1 <= fps <= u32::MAX,
    ensures
        ({
            let v = video_format(resolution, fps, base, width_at_720);
            &&& v.fps_den == 1
            &&& v.fps_num == fps * v.fps_den
        }),
{
}

/// The canvas is the screen. The picture goes out as large as the screen for any
/// resolution but "720p", and on a screen of 720 lines or fewer; otherwise it has
/// 720 lines and the width at 720 lines, less one pixel where that is odd. It is
/// scaled exactly where it is not as large as the screen.
pub proof fn the_size_is_the_one_asked_for(
    resolution: Seq<char>,
    fps: i64,
    base: (u32, u32),
    width_at_720: u32,
)
    ensures
        ({
            let v = video_format(resolution, fps, base, width_at_720);
            &&& v.base_width == base.0
            &&& v.base_height == base.1
            &&& resolution != "720p"@ || base.1 <= 720 ==> v.output_width == base.0
                && v.output_height == base.1
            &&& resolution == "720p"@ && base.1 > 720 ==> {
                &&& v.output_height == 720
                &&& v.output_width % 2 == 0
                &&& v.output_width <= width_at_720 <= v.output_width + 1
            }
            &&& v.scaled <==> v.output_width != v.base_width || v.output_height != v.base_height
        }),
{
}

/// A format that has changed is applied as soon as no picture is being taken, and
/// never while one is; and so is the first format.
pub proof fn a_changed_format_waits_for_the_picture(
    a: AppliedVideo,
    resolution: Seq<char>,
    fps: i64,
    video_active: bool,
)
    ensures
        !reapplies(Some(a), resolution, fps, true),
        !reapplies(None, resolution, fps, true),
        reapplies(None, resolution, fps, false),
        a.resolution@ != resolution || a.fps != fps ==> reapplies(Some(a), resolution, fps, false),
{
}

/// The steps come in their order, from the folder to the plugins, and none
/// follows the last.
pub proof fn the_steps_are_in_order(step: InitStep, next: InitStep)
    ensures
        follows(InitStep::CreateFolder, InitStep::EnterFolder),
        follows(InitStep::EnterFolder, InitStep::StartEngine),
        follows(InitStep::StartEngine, InitStep::ApplyVideo),
        follows(InitStep::ApplyVideo, InitStep::LoadPlugins),
        !follows(InitStep::LoadPlugins, next),
        follows(step, next) ==> step != next && !follows(next, step),
{
}

/// Until the engine is started an attempt begins with the folder; a started
/// engine is never started again, and once its plugins are loaded nothing is due.
pub proof fn a_started_engine_stays_started(done: Option<InitStep>)
    ensures
        first_due(None) == Some(InitStep::CreateFolder),
        done matches Some(s) ==> init_rank(s) < 2 ==> first_due(done) == Some(InitStep::CreateFolder),
        done matches Some(s) ==> init_rank(s) >= 2 ==> (first_due(done) matches Some(n) ==> follows(
            s,
            n,
        )),
        first_due(done) is None <==> done == Some(InitStep::LoadPlugins),
{
}

/// A failed step of the folder says what failed and why; a format that was not
/// applied gives its own reason.
pub proof fn a_failed_step_gives_its_reason(reason: Seq<char>)
    ensures
        init_failure(InitStep::CreateFolder, reason)
            == "no se pudo crear el directorio de trabajo para libobs: "@ + reason,
        init_failure(InitStep::EnterFolder, reason) == "no se pudo fijar el directorio de trabajo: "@
            + reason,
        init_failure(InitStep::StartEngine, reason) == "obs_startup fallo"@,
        init_failure(InitStep::ApplyVideo, reason) == reason,
        init_failure(InitStep::LoadPlugins, reason) == reason,
{
}

/// Of the answers of the engine only 0 tells that it has taken a format.
pub proof fn only_zero_tells_success(code: i32)
    ensures
        code == OBS_VIDEO_SUCCESS <==> code == 0,
{
}

} // verus!
