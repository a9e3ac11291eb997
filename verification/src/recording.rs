//! Recording: starting and stopping the replay buffer, and saving a clip from
//! it.

use crate::config::{config_mut, in_force, ConfigView, EmberioConfig};
use crate::encoders::{
    attempt_failure, encoders_to_try, search_failure, start_refusal, EncoderCandidate, EncoderSearch,
    SearchView,
};
use crate::settings::{stored, Saved};
use crate::sources::{replay_settings, replay_settings_spec, settings_view, Setting};
use crate::text::{joined, decimal, decimal_i64, texts};
use vstd::multiset::Multiset;
use vstd::prelude::*;

verus! {

// ---------------------------------------------------------------------------
// Starting the replay buffer

/// A running replay buffer.
#[derive(Clone, Copy, PartialEq, Eq, Structural, Debug)]
pub struct OutputState {
    pub output: usize,
    pub video_encoder: usize,
    pub audio_encoder: usize,
    /// How many seconds it keeps.
    pub max_time_sec: i64,
}

/// One thing given back to the engine.
#[derive(Clone, Copy, PartialEq, Eq, Structural, Debug)]
pub enum OutputRelease {
    ReleaseOutput(usize),
    ReleaseEncoder(usize),
}

/// Why the replay buffer could not be started, and what has to be given back.
pub struct OutputFailure {
    pub message: String,
    pub releases: Vec<OutputRelease>,
}

/// The folder of the clips: the chosen one, or `default`.
pub open spec fn clips_folder_of(c: ConfigView, default: Seq<char>) -> Seq<char> {
    match c.clips_dir {
        Some(d) => d,
        None => default,
    }
}

/// The folder of the clips: the chosen one, or `default`.
pub fn clips_folder(slot: &mut Option<EmberioConfig>, default: String) -> (r: String)
    ensures
        r@ == clips_folder_of(in_force(*old(slot)), default@),
        *final(slot) is Some,
        in_force(*final(slot)) == in_force(*old(slot)),
{
    let c = config_mut(slot);
    match &c.clips_dir {
        Some(d) => d.clone(),
        None => default,
    }
}

/// What is to be done next to start the replay buffer.
#[derive(Clone, Copy, PartialEq, Eq, Structural, Debug)]
pub enum OutputStep {
    /// Ask the engine for the sound encoder.
    CreateAudioEncoder,
    /// Make the folder of the clips.
    CreateFolder,
    /// Ask the engine for the replay buffer.
    CreateOutput,
    /// Ask the engine which encoders it has.
    ListEncoders,
    /// Ask the engine for the video encoder that is tried.
    CreateEncoder,
    /// Start the replay buffer with it.
    StartOutput,
    /// The replay buffer runs.
    Running,
}

/// Starting the replay buffer: what has been made so far, and what is next.
pub struct OutputSetup {
    step: OutputStep,
    clip_seconds: i64,
    clips_dir: String,
    audio_encoder: usize,
    output: usize,
    video_encoder: usize,
    search: EncoderSearch,
}

/// What an [`OutputSetup`] holds.
#[verifier::ext_equal]
pub struct OutputView {
    pub step: OutputStep,
    pub clip_seconds: i64,
    pub clips_dir: Seq<char>,
    pub audio_encoder: usize,
    pub output: usize,
    pub video_encoder: usize,
    pub search: SearchView,
}

impl View for OutputSetup {
    type V = OutputView;

    closed spec fn view(&self) -> OutputView {
        OutputView {
            step: self.step,
            clip_seconds: self.clip_seconds,
            clips_dir: self.clips_dir@,
            audio_encoder: self.audio_encoder,
            output: self.output,
            video_encoder: self.video_encoder,
            search: self.search@,
        }
    }
}

impl OutputView {
    /// What has been made is what the steps before this one make, and an
    /// encoder is tried only while there is one left.
    pub open spec fn wf(self) -> bool {
        &&& self.audio_encoder != 0 <==> !(self.step is CreateAudioEncoder)
        &&& self.output != 0 <==> !(self.step is CreateAudioEncoder || self.step is CreateFolder
            || self.step is CreateOutput)
        &&& self.video_encoder != 0 <==> self.step is StartOutput || self.step is Running
        &&& self.search.wf()
        &&& self.step is CreateEncoder || self.step is StartOutput ==> !self.search.exhausted()
    }

    /// Everything that the engine has handed out so far.
    pub open spec fn owned(self) -> Multiset<OutputRelease> {
        handle(self.output, OutputRelease::ReleaseOutput(self.output)).add(
            handle(self.video_encoder, OutputRelease::ReleaseEncoder(self.video_encoder)),
        ).add(handle(self.audio_encoder, OutputRelease::ReleaseEncoder(self.audio_encoder)))
    }
}

/// A handle that the engine wants back, unless there is none.
pub open spec fn handle(h: usize, release: OutputRelease) -> Multiset<OutputRelease> {
    if h != 0 {
        Multiset::singleton(release)
    } else {
        Multiset::empty()
    }
}

/// What is given back where no encoder works.
pub open spec fn abandon(output: usize, audio_encoder: usize) -> Seq<OutputRelease> {
    seq![OutputRelease::ReleaseEncoder(audio_encoder), OutputRelease::ReleaseOutput(output)]
}

/// The encoder of this attempt has failed: it is noted, and the next one is
/// tried.
pub open spec fn attempt_failed(v: OutputView, reason: Seq<char>) -> OutputView {
    OutputView {
        step: OutputStep::CreateEncoder,
        video_encoder: 0,
        search: SearchView {
            failures: v.search.failures.push(attempt_failure(v.search.next(), reason)),
            ..v.search
        },
        ..v
    }
}

impl OutputSetup {
    /// Begins to start a replay buffer that keeps so many seconds.
    pub fn new(clip_seconds: i64) -> (r: Self)
        ensures
            r@.step is CreateAudioEncoder,
            r@.clip_seconds == clip_seconds,
            r@.wf(),
    {
        OutputSetup {
            step: OutputStep::CreateAudioEncoder,
            clip_seconds,
            clips_dir: String::new(),
            audio_encoder: 0,
            output: 0,
            video_encoder: 0,
            search: EncoderSearch::none(),
        }
    }

    /// What is to be done next.
    pub fn step(&self) -> (r: OutputStep)
        ensures
            r == self@.step,
    {
        self.step
    }

    /// The folder of the clips.
    pub fn clips_dir(&self) -> (r: String)
        ensures
            r@ == self@.clips_dir,
    {
        self.clips_dir.clone()
    }

    /// The replay buffer that has been made; 0 before.
    pub fn output(&self) -> (r: usize)
        ensures
            r == self@.output,
    {
        self.output
    }

    /// The sound encoder that has been made; 0 before.
    pub fn audio_encoder(&self) -> (r: usize)
        ensures
            r == self@.audio_encoder,
    {
        self.audio_encoder
    }

    /// The sound encoder has been asked for. The folder of the clips is looked
    /// up: `default_dir` where none is chosen.
    pub fn audio_encoder_created(
        &mut self,
        encoder: usize,
        slot: &mut Option<EmberioConfig>,
        default_dir: String,
    ) -> (r: Result<(), String>)
        requires
            old(self)@.wf(),
            old(self)@.step is CreateAudioEncoder,
        ensures
            final(self)@.wf(),
            r is Ok <==> encoder != 0,
            r is Ok ==> {
                &&& final(self)@ == (OutputView {
                    step: OutputStep::CreateFolder,
                    audio_encoder: encoder,
                    clips_dir: clips_folder_of(in_force(*old(slot)), default_dir@),
                    ..old(self)@
                })
                &&& in_force(*final(slot)) == in_force(*old(slot))
            },
            r matches Err(e) ==> {
                &&& e@ == "obs_audio_encoder_create('ffmpeg_aac') devolvio null"@
                &&& final(self)@ == old(self)@
                &&& *final(slot) == *old(slot)
            },
    {
        if encoder == 0 {
            return Err("obs_audio_encoder_create('ffmpeg_aac') devolvio null".to_owned());
        }
        self.clips_dir = clips_folder(slot, default_dir);
        self.audio_encoder = encoder;
        self.step = OutputStep::CreateFolder;
        Ok(())
    }

    /// The folder of the clips has been made, or not. Returns the settings of
    /// the replay buffer. Where it has not, the start has failed, and the sound
    /// encoder stays with the engine.
    pub fn folder_created(&mut self, outcome: Result<(), String>) -> (r: Result<
        Vec<Setting>,
        String,
    >)
        requires
            old(self)@.wf(),
            old(self)@.step is CreateFolder,
        ensures
            final(self)@.wf(),
            r is Ok <==> outcome is Ok,
            r matches Ok(settings) ==> {
                &&& settings_view(settings@) == replay_settings_spec(
                    old(self)@.clips_dir,
                    old(self)@.clip_seconds,
                )
                &&& final(self)@ == (OutputView { step: OutputStep::CreateOutput, ..old(self)@ })
            },
            r matches Err(e) ==> {
                &&& e@ == "no se pudo crear la carpeta de clips: "@ + outcome->Err_0@
                &&& final(self)@ == old(self)@
            },
    {
        match outcome {
            Ok(_) => {
                self.step = OutputStep::CreateOutput;
                Ok(replay_settings(self.clips_dir.as_str(), self.clip_seconds))
            },
            Err(e) => Err(joined("no se pudo crear la carpeta de clips: ", e.as_str())),
        }
    }

    /// The replay buffer has been asked for. Without it the sound encoder is
    /// given back.
    pub fn output_created(&mut self, output: usize) -> (r: Result<(), OutputFailure>)
        requires
            old(self)@.wf(),
            old(self)@.step is CreateOutput,
        ensures
            final(self)@.wf(),
            r is Ok <==> output != 0,
            r is Ok ==> final(self)@ == (OutputView {
                step: OutputStep::ListEncoders,
                output,
                ..old(self)@
            }),
            r matches Err(f) ==> {
                &&& f.message@ == "obs_output_create('replay_buffer') devolvio null"@
                &&& f.releases@ == seq![OutputRelease::ReleaseEncoder(old(self)@.audio_encoder)]
                &&& f.releases@.to_multiset() == old(self)@.owned()
                &&& final(self)@ == old(self)@
            },
    {
        if output == 0 {
            let mut releases: Vec<OutputRelease> = Vec::new();
            releases.push(OutputRelease::ReleaseEncoder(self.audio_encoder));
            proof {
                lemma_one_release(OutputRelease::ReleaseEncoder(self.audio_encoder));
                assert(releases@ =~= seq![OutputRelease::ReleaseEncoder(self.audio_encoder)]);
                assert(releases@.to_multiset() =~= self@.owned());
            }
            return Err(
                OutputFailure {
                    message: "obs_output_create('replay_buffer') devolvio null".to_owned(),
                    releases,
                },
            );
        }
        self.output = output;
        self.step = OutputStep::ListEncoders;
        Ok(())
    }

    /// No encoder is left: sound encoder and replay buffer are given back.
    fn no_encoder_works(&self) -> (r: OutputFailure)
        requires
            self@.output != 0,
            self@.audio_encoder != 0,
            self@.video_encoder == 0,
        ensures
            r.message@ == search_failure(self@.search.failures),
            r.releases@ == abandon(self@.output, self@.audio_encoder),
            r.releases@.to_multiset() == self@.owned(),
    {
        let mut releases: Vec<OutputRelease> = Vec::new();
        releases.push(OutputRelease::ReleaseEncoder(self.audio_encoder));
        releases.push(OutputRelease::ReleaseOutput(self.output));
        proof {
            assert(releases@ =~= abandon(self@.output, self@.audio_encoder));
            lemma_two_releases(
                OutputRelease::ReleaseEncoder(self.audio_encoder),
                OutputRelease::ReleaseOutput(self.output),
            );
            assert(releases@.to_multiset() =~= self@.owned());
        }
        OutputFailure { message: self.search.failure(), releases }
    }

    /// The engine has told which encoders it has. Those that the choice leaves
    /// are tried; where there is none, nothing can be recorded.
    pub fn encoders_listed(&mut self, slot: &mut Option<EmberioConfig>, registered: &Vec<String>) -> (r:
        Result<(), OutputFailure>)
        requires
            old(self)@.wf(),
            old(self)@.step is ListEncoders,
        ensures
            in_force(*final(slot)) == in_force(*old(slot)),
            ({
                let list = encoders_to_try(in_force(*old(slot)).video_encoder, texts(registered@));
                &&& r is Ok <==> list.len() > 0
                &&& r is Ok ==> final(self)@.wf()
                &&& final(self)@ == (OutputView {
                    step: OutputStep::CreateEncoder,
                    search: SearchView { candidates: list, failures: seq![] },
                    ..old(self)@
                })
            }),
            r matches Err(f) ==> {
                &&& f.message@ == search_failure(seq![])
                &&& f.releases@ == abandon(old(self)@.output, old(self)@.audio_encoder)
                &&& f.releases@.to_multiset() == old(self)@.owned()
            },
    {
        let c = config_mut(slot);
        self.search = EncoderSearch::new(c.video_encoder.as_str(), registered);
        assert(self@.search.failures =~= seq![]);
        self.step = OutputStep::CreateEncoder;
        match self.search.current() {
            Some(_) => Ok(()),
            None => Err(self.no_encoder_works()),
        }
    }

    /// The encoder that is tried.
    pub fn candidate(&self) -> (r: EncoderCandidate)
        requires
            self@.wf(),
            self@.step is CreateEncoder || self@.step is StartOutput,
        ensures
            r@ == self@.search.next(),
    {
        self.search.current().unwrap()
    }

    /// The encoder has been asked for. Without it the next one is tried; where
    /// it was the last, nothing can be recorded.
    pub fn encoder_created(&mut self, encoder: usize) -> (r: Result<(), OutputFailure>)
        requires
            old(self)@.wf(),
            old(self)@.step is CreateEncoder,
        ensures
            ({
                let next = if encoder != 0 {
                    OutputView {
                        step: OutputStep::StartOutput,
                        video_encoder: encoder,
                        ..old(self)@
                    }
                } else {
                    attempt_failed(old(self)@, "obs_video_encoder_create devolvio null"@)
                };
                &&& final(self)@ == next
                &&& r is Err <==> encoder == 0 && next.search.exhausted()
                &&& r is Ok ==> final(self)@.wf()
                &&& r matches Err(f) ==> {
                    &&& f.message@ == search_failure(next.search.failures)
                    &&& f.releases@ == abandon(next.output, next.audio_encoder)
                    &&& f.releases@.to_multiset() == old(self)@.owned()
                }
            }),
    {
        if encoder == 0 {
            self.search.not_created();
            return match self.search.current() {
                Some(_) => Ok(()),
                None => Err(self.no_encoder_works()),
            };
        }
        self.video_encoder = encoder;
        self.step = OutputStep::StartOutput;
        Ok(())
    }

    /// The replay buffer has been started with the encoder, or has refused it.
    /// A refused encoder is given back and the next one is tried; where it was
    /// the last, everything is given back. Returns what is to be given back.
    pub fn output_started(&mut self, started: bool, reason: Option<String>) -> (r: Result<
        Vec<OutputRelease>,
        OutputFailure,
    >)
        requires
            old(self)@.wf(),
            old(self)@.step is StartOutput,
        ensures
            ({
                let refused = OutputRelease::ReleaseEncoder(old(self)@.video_encoder);
                let next = if started {
                    OutputView { step: OutputStep::Running, ..old(self)@ }
                } else {
                    attempt_failed(old(self)@, start_refusal(reason))
                };
                &&& final(self)@ == next
                &&& r is Err <==> !started && next.search.exhausted()
                &&& r is Ok ==> final(self)@.wf()
                &&& r matches Ok(releases) ==> {
                    &&& releases@ == (if started {
                        seq![]
                    } else {
                        seq![refused]
                    })
                    &&& releases@.to_multiset().add(final(self)@.owned()) == old(self)@.owned()
                }
                &&& r matches Err(f) ==> {
                    &&& f.message@ == search_failure(next.search.failures)
                    &&& f.releases@ == seq![refused] + abandon(next.output, next.audio_encoder)
                    &&& f.releases@.to_multiset() == old(self)@.owned()
                }
            }),
    {
        let mut releases: Vec<OutputRelease> = Vec::new();
        if started {
            self.step = OutputStep::Running;
            proof {
                assert(releases@ =~= seq![]);
                broadcast use vstd::seq_lib::group_to_multiset_ensures;

                assert(releases@.to_multiset().add(self@.owned()) =~= old(self)@.owned());
            }
            return Ok(releases);
        }
        let ghost refused = OutputRelease::ReleaseEncoder(self.video_encoder);
        releases.push(OutputRelease::ReleaseEncoder(self.video_encoder));
        self.search.not_started(reason);
        self.video_encoder = 0;
        self.step = OutputStep::CreateEncoder;
        proof {
            assert(releases@ =~= seq![refused]);
            lemma_one_release(refused);
        }
        match self.search.current() {
            Some(_) => {
                assert(releases@.to_multiset().add(self@.owned()) =~= old(self)@.owned());
                Ok(releases)
            },
            None => {
                let mut failure = self.no_encoder_works();
                let ghost rest = failure.releases@;
                releases.append(&mut failure.releases);
                proof {
                    assert(releases@ =~= seq![refused] + rest);
                    vstd::seq_lib::lemma_multiset_commutative(seq![refused], rest);
                    assert(releases@.to_multiset() =~= old(self)@.owned());
                }
                Err(OutputFailure { message: failure.message, releases })
            },
        }
    }

    /// The replay buffer runs: it is kept in its slot. Returns the folder of
    /// the clips.
    pub fn publish(self, slot: &mut Option<OutputState>) -> (r: String)
        requires
            self@.step is Running,
        ensures
            *final(slot) == Some(
                OutputState {
                    output: self@.output,
                    video_encoder: self@.video_encoder,
                    audio_encoder: self@.audio_encoder,
                    max_time_sec: self@.clip_seconds,
                },
            ),
            r@ == self@.clips_dir,
    {
        *slot =
        Some(
            OutputState {
                output: self.output,
                video_encoder: self.video_encoder,
                audio_encoder: self.audio_encoder,
                max_time_sec: self.clip_seconds,
            },
        );
        self.clips_dir
    }
}

proof fn lemma_one_release(a: OutputRelease)
    ensures
        seq![a].to_multiset() == Multiset::singleton(a),
{
    broadcast use vstd::seq_lib::group_to_multiset_ensures;

    assert(seq![a] =~= Seq::empty().push(a));
    assert(seq![a].to_multiset() =~= Multiset::singleton(a));
}

proof fn lemma_two_releases(a: OutputRelease, b: OutputRelease)
    ensures
        seq![a, b].to_multiset() == Multiset::singleton(a).add(Multiset::singleton(b)),
{
    broadcast use vstd::seq_lib::group_to_multiset_ensures;

    lemma_one_release(a);
    assert(seq![a, b] =~= seq![a].push(b));
    assert(seq![a, b].to_multiset() =~= Multiset::singleton(a).add(Multiset::singleton(b)));
}

/// How a start of the replay buffer begins.
pub enum OutputBegin {
    /// It runs already, with the clip length it was started with; the folder of
    /// the clips.
    AlreadyRunning(String),
    /// It is to be set up.
    SetUp(OutputSetup),
}

/// Begins to start the replay buffer, unless it runs.
pub fn ensure_output_started(
    running: &Option<OutputState>,
    slot: &mut Option<EmberioConfig>,
    default_dir: String,
    clip_seconds: i64,
) -> (r: OutputBegin)
    ensures
        *running is Some ==> {
            &&& r matches OutputBegin::AlreadyRunning(dir)
            &&& dir@ == clips_folder_of(in_force(*old(slot)), default_dir@)
            &&& in_force(*final(slot)) == in_force(*old(slot))
        },
        *running is None ==> {
            &&& r matches OutputBegin::SetUp(s)
            &&& s@.wf()
            &&& s@.step is CreateAudioEncoder
            &&& s@.clip_seconds == clip_seconds
            &&& *final(slot) == *old(slot)
        },
{
    if running.is_some() {
        OutputBegin::AlreadyRunning(clips_folder(slot, default_dir))
    } else {
        OutputBegin::SetUp(OutputSetup::new(clip_seconds))
    }
}

/// The recording has been started by command: the clip length asked for is kept,
/// and the window is told. A recording that was running goes on with the length
/// that it was started with.
pub fn recording_started(slot: &mut Option<EmberioConfig>, clip_seconds: i64, clips_dir: &str) -> (r:
    Saved<String>)
    ensures
        stored(*final(slot), r.config, ConfigView { clip_seconds, ..in_force(*old(slot)) }),
        r.value@ == "Grabando (buffer de "@ + decimal(clip_seconds as int)
            + "s). Los clips se guardan en: "@ + clips_dir@,
{
    let c = config_mut(slot);
    c.clip_seconds = clip_seconds;
    let mut value = joined("Grabando (buffer de ", decimal_i64(clip_seconds).as_str());
    value.append("s). Los clips se guardan en: ");
    value.append(clips_dir);
    Saved { value, config: c.clone() }
}

/// One step of starting a recording, in order.
#[derive(Clone, Copy, PartialEq, Eq, Structural, Debug)]
pub enum StartStep {
    /// Bring the engine up.
    BringUp,
    /// Apply the picture format again where it has changed.
    ReapplyVideo,
    /// Put the scene together.
    StartCapture,
    /// Start the replay buffer.
    StartOutput,
}

/// What follows a step.
#[derive(Clone, Copy, PartialEq, Eq, Structural, Debug)]
pub enum StartNext {
    Do(StartStep),
    Recording,
    /// The step failed, and so did the start.
    Abandoned,
}

/// Who starts the recording.
#[derive(Clone, Copy, PartialEq, Eq, Structural, Debug)]
pub enum Starter {
    /// The window, which is told what went wrong.
    Command,
    /// The shortcut, which records in the old format where a new one cannot be
    /// applied.
    Shortcut,
}

/// The steps of a start, in order.
pub open spec fn start_order(step: StartStep) -> StartNext {
    match step {
        StartStep::BringUp => StartNext::Do(StartStep::ReapplyVideo),
        StartStep::ReapplyVideo => StartNext::Do(StartStep::StartCapture),
        StartStep::StartCapture => StartNext::Do(StartStep::StartOutput),
        StartStep::StartOutput => StartNext::Recording,
    }
}

/// A failure of the step ends the start.
pub open spec fn is_fatal(step: StartStep, starter: Starter) -> bool {
    !(step is ReapplyVideo && starter is Shortcut)
}

/// What follows `step`, which worked or failed.
pub open spec fn start_next(step: StartStep, worked: bool, starter: Starter) -> StartNext {
    if worked || !is_fatal(step, starter) {
        start_order(step)
    } else {
        StartNext::Abandoned
    }
}

/// What follows `step`, which worked or failed.
pub fn start_after(step: StartStep, worked: bool, starter: Starter) -> (r: StartNext)
    ensures
        r == (if worked || !is_fatal(step, starter) {
            start_order(step)
        } else {
            StartNext::Abandoned
        }),
        r == start_next(step, worked, starter),
{
    let fatal = match (step, starter) {
        (StartStep::ReapplyVideo, Starter::Shortcut) => false,
        _ => true,
    };
    if !worked && fatal {
        return StartNext::Abandoned;
    }
    match step {
        StartStep::BringUp => StartNext::Do(StartStep::ReapplyVideo),
        StartStep::ReapplyVideo => StartNext::Do(StartStep::StartCapture),
        StartStep::StartCapture => StartNext::Do(StartStep::StartOutput),
        StartStep::StartOutput => StartNext::Recording,
    }
}

/// How the user is told that recording has started or stopped.
#[derive(Clone, Copy, PartialEq, Eq, Structural, Debug)]
pub enum Announcement {
    /// The window is told whether Ember records.
    TellWindow(bool),
    /// The status dot shows whether Ember records.
    ShowStatus(bool),
}

/// How a start is announced.
pub open spec fn start_told(starter: Starter) -> Seq<Announcement> {
    match starter {
        Starter::Command => seq![Announcement::ShowStatus(true)],
        Starter::Shortcut => seq![Announcement::TellWindow(true), Announcement::ShowStatus(true)],
    }
}

/// How a stop is announced.
pub open spec fn stop_told() -> Seq<Announcement> {
    seq![Announcement::TellWindow(false), Announcement::ShowStatus(false)]
}

/// How a start is announced: the window that started it knows already.
pub fn start_announcements(starter: Starter) -> (r: Vec<Announcement>)
    ensures
        r@ == (match starter {
            Starter::Command => seq![Announcement::ShowStatus(true)],
            Starter::Shortcut => seq![
                Announcement::TellWindow(true),
                Announcement::ShowStatus(true),
            ],
        }),
        r@ == start_told(starter),
{
    let mut list: Vec<Announcement> = Vec::new();
    match starter {
        Starter::Command => {},
        Starter::Shortcut => list.push(Announcement::TellWindow(true)),
    }
    list.push(Announcement::ShowStatus(true));
    list
}

/// How a stop is announced.
pub fn stop_announcements() -> (r: Vec<Announcement>)
    ensures
        r@ == seq![Announcement::TellWindow(false), Announcement::ShowStatus(false)],
        r@ == stop_told(),
{
    let mut list: Vec<Announcement> = Vec::new();
    list.push(Announcement::TellWindow(false));
    list.push(Announcement::ShowStatus(false));
    list
}

/// What the shortcut does: it stops a recording, or starts one with this clip
/// length.
#[derive(Clone, Copy, PartialEq, Eq, Structural, Debug)]
pub enum Toggle {
    Stop,
    Start { clip_seconds: i64 },
}

/// What the shortcut does.
pub open spec fn toggle_of(recording: bool, c: ConfigView) -> Toggle {
    if recording {
        Toggle::Stop
    } else {
        Toggle::Start { clip_seconds: c.clip_seconds }
    }
}

/// What the shortcut does.
pub fn toggle_recording(output: &Option<OutputState>, slot: &mut Option<EmberioConfig>) -> (r: Toggle)
    ensures
        *output is Some ==> r == Toggle::Stop && *final(slot) == *old(slot),
        *output is None ==> {
            &&& r == (Toggle::Start { clip_seconds: in_force(*old(slot)).clip_seconds })
            &&& in_force(*final(slot)) == in_force(*old(slot))
        },
        r == toggle_of(*output is Some, in_force(*old(slot))),
{
    if output.is_some() {
        return Toggle::Stop;
    }
    let c = config_mut(slot);
    Toggle::Start { clip_seconds: c.clip_seconds }
}

// ---------------------------------------------------------------------------
// Stopping

/// How often a stopping recording is looked at, at most.
pub const STOP_CHECKS: u32 = 100;

/// The pause between two looks, in milliseconds.
pub const STOP_CHECK_MILLIS: u64 = 50;

/// Waiting for a recording to stop: it stops on its own time, and nothing may
/// be given back before it has.
pub struct StopWait {
    left: u32,
}

impl StopWait {
    /// How many looks are left.
    pub closed spec fn left(self) -> nat {
        self.left as nat
    }

    /// Begins to wait.
    pub fn new() -> (r: Self)
        ensures
            r.left() == STOP_CHECKS,
    {
        StopWait { left: STOP_CHECKS }
    }

    /// Tells whether the recording is to be looked at again.
    pub fn pending(&self) -> (r: bool)
        ensures
            r == (self.left() > 0),
    {
        self.left > 0
    }

    /// The recording has been looked at. Returns whether to pause before the
    /// next look; a recording that has stopped is not looked at again.
    pub fn checked(&mut self, active: bool) -> (r: bool)
        requires
            old(self).left() > 0,
        ensures
            r == active,
            active ==> final(self).left() == old(self).left() - 1,
            !active ==> final(self).left() == 0,
    {
        if active {
            self.left = self.left - 1;
        } else {
            self.left = 0;
        }
        active
    }
}

/// What is given back once a recording has stopped.
pub open spec fn release_output(s: OutputState) -> Seq<OutputRelease> {
    seq![
        OutputRelease::ReleaseOutput(s.output),
        OutputRelease::ReleaseEncoder(s.video_encoder),
        OutputRelease::ReleaseEncoder(s.audio_encoder),
    ]
}

/// Takes the running recording out of its slot, so that it is stopped once.
pub fn take_recording(slot: &mut Option<OutputState>) -> (r: Option<OutputState>)
    ensures
        r == *old(slot),
        *final(slot) is None,
{
    slot.take()
}

/// Gives back a recording that has stopped.
pub fn release_recording(s: &OutputState) -> (r: Vec<OutputRelease>)
    ensures
        r@ == release_output(*s),
{
    let mut releases: Vec<OutputRelease> = Vec::new();
    releases.push(OutputRelease::ReleaseOutput(s.output));
    releases.push(OutputRelease::ReleaseEncoder(s.video_encoder));
    releases.push(OutputRelease::ReleaseEncoder(s.audio_encoder));
    assert(releases@ =~= release_output(*s));
    releases
}

/// What the window is told when recording has stopped, or was not under way.
pub fn stopped_message() -> (r: String)
    ensures
        r@ == "Grabacion detenida y recursos liberados"@,
{
    "Grabacion detenida y recursos liberados".to_owned()
}

// ---------------------------------------------------------------------------
// Saving a clip

/// How often the engine is asked whether the clip has been written, at most.
pub const CLIP_POLLS: u32 = 50;

/// The pause before each question, in milliseconds.
pub const CLIP_POLL_MILLIS: u64 = 100;

/// The recording to save a clip from.
pub fn clip_source(slot: &Option<OutputState>) -> (r: Result<usize, String>)
    ensures
        match *slot {
            Some(s) => r == Ok::<usize, String>(s.output),
            None => r is Err && r->Err_0@ == "Todavia no estas grabando"@,
        },
{
    match slot {
        Some(s) => Ok(s.output),
        None => Err("Todavia no estas grabando".to_owned()),
    }
}

/// The engine has been asked to save.
pub fn save_requested(accepted: bool) -> (r: Result<(), String>)
    ensures
        r is Ok <==> accepted,
        r matches Err(e) ==> e@ == "No se pudo llamar al proc 'save'"@,
{
    if accepted {
        Ok(())
    } else {
        Err("No se pudo llamar al proc 'save'".to_owned())
    }
}

/// What follows asking for the clip.
pub enum ClipNext {
    /// It is not there yet: pause and ask again.
    Again,
    /// It has been written, or time is up.
    Done(Result<String, String>),
}

/// Waiting for a clip to be written.
pub struct ClipWait {
    left: u32,
}

impl ClipWait {
    /// How many questions are left.
    pub closed spec fn left(self) -> nat {
        self.left as nat
    }

    /// Begins to wait.
    pub fn new() -> (r: Self)
        ensures
            r.left() == CLIP_POLLS,
    {
        ClipWait { left: CLIP_POLLS }
    }

    /// The engine has been asked for the path of the clip. A path ends the
    /// wait; after the last question the wait fails.
    pub fn polled(&mut self, path: Option<String>) -> (r: ClipNext)
        requires
            old(self).left() > 0,
        ensures
            final(self).left() == old(self).left() - 1,
            path matches Some(p) ==> r == ClipNext::Done(Ok(p)),
            path is None && old(self).left() > 1 ==> r is Again,
            path is None && old(self).left() == 1 ==> (r matches ClipNext::Done(Err(e)) && e@
                == "Timeout esperando que se guarde el clip (5s)"@),
    {
        self.left = self.left - 1;
        match path {
            Some(p) => ClipNext::Done(Ok(p)),
            None => if self.left > 0 {
                ClipNext::Again
            } else {
                ClipNext::Done(Err("Timeout esperando que se guarde el clip (5s)".to_owned()))
            },
        }
    }
}

/// What the window is told about a clip.
pub enum ClipNews {
    /// It has been saved, and a notice shows how long it is.
    Saved { path: String, clip_seconds: i64 },
    Failed(String),
}

/// What the window is told about a clip.
pub fn clip_news(outcome: Result<String, String>, slot: &mut Option<EmberioConfig>) -> (r: ClipNews)
    ensures
        outcome matches Ok(path) ==> r == (ClipNews::Saved {
            path,
            clip_seconds: in_force(*old(slot)).clip_seconds,
        }),
        outcome matches Err(e) ==> r == ClipNews::Failed(e),
        in_force(*final(slot)) == in_force(*old(slot)),
{
    match outcome {
        Ok(path) => {
            let c = config_mut(slot);
            ClipNews::Saved { path, clip_seconds: c.clip_seconds }
        },
        Err(e) => ClipNews::Failed(e),
    }
}

// ---------------------------------------------------------------------------
// Laws

/// A stopped recording gives back all three parts, each once.
pub proof fn a_stopped_recording_leaks_nothing(s: OutputState)
    ensures
        release_output(s).to_multiset() == Multiset::singleton(
            OutputRelease::ReleaseOutput(s.output),
        ).add(Multiset::singleton(OutputRelease::ReleaseEncoder(s.video_encoder))).add(
            Multiset::singleton(OutputRelease::ReleaseEncoder(s.audio_encoder)),
        ),
{
    broadcast use vstd::seq_lib::group_to_multiset_ensures;

    let a = OutputRelease::ReleaseOutput(s.output);
    let b = OutputRelease::ReleaseEncoder(s.video_encoder);
    let c = OutputRelease::ReleaseEncoder(s.audio_encoder);
    lemma_two_releases(a, b);
    assert(release_output(s) =~= seq![a, b].push(c));
    assert(release_output(s).to_multiset() =~= Multiset::singleton(a).add(
        Multiset::singleton(b),
    ).add(Multiset::singleton(c)));
}

/// How many looks are left after these, each of which found the recording
/// still active, or not.
pub open spec fn looks_left(looks: Seq<bool>) -> int
    decreases looks.len(),
{
    if looks.len() == 0 {
        STOP_CHECKS as int
    } else if looks.last() {
        looks_left(looks.drop_last()) - 1
    } else {
        0
    }
}

/// Each of these looks was taken while one was left.
pub open spec fn is_wait(looks: Seq<bool>) -> bool {
    forall|i: int| 0 <= i < looks.len() ==> looks_left(#[trigger] looks.take(i)) > 0
}

/// Waiting for a recording to stop ends: it is looked at a hundred times at
/// most, and not once more after it has been found stopped.
pub proof fn the_wait_for_a_stop_ends(looks: Seq<bool>)
    requires
        is_wait(looks),
    ensures
        looks.len() <= STOP_CHECKS,
        forall|i: int| 0 <= i < looks.len() - 1 ==> looks[i],
    decreases looks.len(),
{
    if looks.len() > 0 {
        let before = looks.drop_last();
        assert forall|i: int| 0 <= i < before.len() implies looks_left(#[trigger] before.take(i))
            > 0 by {
            assert(before.take(i) =~= looks.take(i));
        }
        the_wait_for_a_stop_ends(before);
        assert(looks.take(looks.len() - 1) =~= before);
        assert(looks_left(before) > 0);
        lemma_looks_left(before);
        assert forall|i: int| 0 <= i < looks.len() - 1 implies looks[i] by {
            assert(before[i] == looks[i]);
        }
    }
}

proof fn lemma_looks_left(looks: Seq<bool>)
    requires
        looks_left(looks) > 0,
    ensures
        looks_left(looks) <= STOP_CHECKS - looks.len(),
        forall|i: int| 0 <= i < looks.len() ==> looks[i],
    decreases looks.len(),
{
    if looks.len() > 0 {
        let before = looks.drop_last();
        lemma_looks_left(before);
        assert forall|i: int| 0 <= i < looks.len() implies looks[i] by {
            assert(i < before.len() ==> before[i] == looks[i]);
        }
    }
}

/// Of the steps of a start only the picture format may fail, and only where
/// the shortcut starts the recording: any other failure abandons it.
pub proof fn only_the_format_may_fail(step: StartStep, starter: Starter)
    requires
        !is_fatal(step, starter),
    ensures
        step is ReapplyVideo,
        starter is Shortcut,
        start_order(step) == StartNext::Do(StartStep::StartCapture),
{
}

/// Clips go to the folder that was chosen, and to the default one only where none
/// was.
pub proof fn the_chosen_folder_is_used(c: ConfigView, dir: Seq<char>, default: Seq<char>)
    ensures
        clips_folder_of(ConfigView { clips_dir: Some(dir), ..c }, default) == dir,
        clips_folder_of(ConfigView { clips_dir: None, ..c }, default) == default,
{
}

/// The place of a step in a start.
pub open spec fn start_rank(step: StartStep) -> int {
    match step {
        StartStep::BringUp => 0,
        StartStep::ReapplyVideo => 1,
        StartStep::StartCapture => 2,
        StartStep::StartOutput => 3,
    }
}

/// A start goes through its four steps in order and then records: the engine is
/// brought up, then given its format, then its scene, and only then the replay
/// buffer is started.
pub proof fn a_start_goes_through_its_steps_in_order(step: StartStep)
    ensures
        start_order(step) matches StartNext::Do(next) ==> start_rank(next) == start_rank(step) + 1,
        start_order(step) is Recording <==> step is StartOutput,
        !(start_order(step) is Abandoned),
{
}

/// A failed step abandons the start for the window, whichever it is, and for the
/// shortcut but for the format.
pub proof fn every_other_failure_is_fatal(step: StartStep)
    ensures
        is_fatal(step, Starter::Command),
        is_fatal(step, Starter::Shortcut) <==> !(step is ReapplyVideo),
{
}

/// A failed attempt notes the encoder that was tried with its reason, goes on to
/// the next one, and keeps sound encoder and replay buffer.
pub proof fn a_failed_attempt_goes_on_to_the_next(v: OutputView, reason: Seq<char>)
    requires
        v.search.wf(),
        !v.search.exhausted(),
    ensures
        ({
            let next = attempt_failed(v, reason);
            &&& next.search.candidates == v.search.candidates
            &&& next.search.failures.len() == v.search.failures.len() + 1
            &&& v.search.failures.is_prefix_of(next.search.failures)
            &&& next.search.failures.last() == attempt_failure(
                v.search.candidates[v.search.failures.len() as int],
                reason,
            )
            &&& next.search.wf()
            &&& next.step is CreateEncoder
            &&& next.video_encoder == 0
            &&& next.output == v.output && next.audio_encoder == v.audio_encoder
            &&& next.clips_dir == v.clips_dir && next.clip_seconds == v.clip_seconds
        }),
{
}

/// What a start owns is what it has been handed out: each part that is there,
/// once, and none that is not.
pub proof fn a_start_owns_what_it_was_handed(v: OutputView)
    requires
        v.video_encoder != v.audio_encoder || v.audio_encoder == 0,
    ensures
        v.output != 0 ==> v.owned().count(OutputRelease::ReleaseOutput(v.output)) == 1,
        v.video_encoder != 0 ==> v.owned().count(OutputRelease::ReleaseEncoder(v.video_encoder)) == 1,
        v.audio_encoder != 0 ==> v.owned().count(OutputRelease::ReleaseEncoder(v.audio_encoder)) == 1,
        v.owned().len() == (if v.output != 0 {
            1int
        } else {
            0
        }) + (if v.video_encoder != 0 {
            1int
        } else {
            0
        }) + (if v.audio_encoder != 0 {
            1int
        } else {
            0
        }),
{
    broadcast use vstd::multiset::group_multiset_axioms;

}

/// Where no encoder works, the sound encoder and the replay buffer are given back,
/// each once.
pub proof fn an_abandoned_start_gives_back_both(output: usize, audio_encoder: usize)
    ensures
        abandon(output, audio_encoder).len() == 2,
        abandon(output, audio_encoder).contains(OutputRelease::ReleaseOutput(output)),
        abandon(output, audio_encoder).contains(OutputRelease::ReleaseEncoder(audio_encoder)),
{
    assert(abandon(output, audio_encoder)[0] == OutputRelease::ReleaseEncoder(audio_encoder));
    assert(abandon(output, audio_encoder)[1] == OutputRelease::ReleaseOutput(output));
}

/// A stopped recording gives back the replay buffer before the encoders that it
/// used.
pub proof fn the_replay_buffer_goes_before_its_encoders(s: OutputState)
    ensures
        release_output(s).len() == 3,
        release_output(s)[0] == OutputRelease::ReleaseOutput(s.output),
        release_output(s)[1] == OutputRelease::ReleaseEncoder(s.video_encoder),
        release_output(s)[2] == OutputRelease::ReleaseEncoder(s.audio_encoder),
{
}

/// A recording is given five seconds to stop, and a clip five seconds to be
/// written.
pub proof fn the_waits_take_five_seconds()
    ensures
        STOP_CHECKS * STOP_CHECK_MILLIS == 5000,
        CLIP_POLLS * CLIP_POLL_MILLIS == 5000,
        STOP_CHECKS == 100,
        CLIP_POLLS == 50,
{
}

/// While a recording is found active each look uses up one, and one that has
/// stopped is not looked at again.
pub proof fn each_look_uses_up_one(looks: Seq<bool>)
    ensures
        looks_left(seq![]) == STOP_CHECKS,
        looks_left(looks.push(true)) == looks_left(looks) - 1,
        looks_left(looks.push(false)) == 0,
{
    assert(looks.push(true).drop_last() =~= looks);
}

/// A step that worked leads on, whoever started; one that failed abandons the
/// start of the window at once, and that of the shortcut unless it was the format.
pub proof fn a_start_goes_on_or_is_abandoned(step: StartStep, worked: bool, starter: Starter)
    ensures
        start_next(step, true, starter) == start_order(step),
        start_next(step, false, Starter::Command) is Abandoned,
        !(step is ReapplyVideo) ==> start_next(step, false, Starter::Shortcut) is Abandoned,
        start_next(StartStep::ReapplyVideo, false, Starter::Shortcut) == StartNext::Do(
            StartStep::StartCapture,
        ),
        start_next(step, worked, starter) is Recording ==> step is StartOutput && worked,
{
}

/// A start is announced as a start and a stop as a stop, everywhere it is
/// announced; the status dot shows both, and the window is told of both where it
/// did not start the recording itself.
pub proof fn announcements_are_true(starter: Starter, i: int)
    ensures
        0 <= i < start_told(starter).len() ==> match start_told(starter)[i] {
            Announcement::TellWindow(on) => on,
            Announcement::ShowStatus(on) => on,
        },
        0 <= i < stop_told().len() ==> match stop_told()[i] {
            Announcement::TellWindow(on) => !on,
            Announcement::ShowStatus(on) => !on,
        },
        start_told(starter).contains(Announcement::ShowStatus(true)),
        starter is Shortcut <==> start_told(starter).contains(Announcement::TellWindow(true)),
        stop_told().contains(Announcement::ShowStatus(false)),
        stop_told().contains(Announcement::TellWindow(false)),
{
    assert(start_told(starter).last() == Announcement::ShowStatus(true));
    assert(stop_told()[0] == Announcement::TellWindow(false));
    assert(stop_told()[1] == Announcement::ShowStatus(false));
    if starter is Shortcut {
        assert(start_told(starter)[0] == Announcement::TellWindow(true));
    }
}

/// The shortcut stops what runs and starts what does not, with the clip length of
/// the configuration.
pub proof fn the_shortcut_switches_over(c: ConfigView)
    ensures
        toggle_of(true, c) is Stop,
        toggle_of(false, c) == (Toggle::Start { clip_seconds: c.clip_seconds }),
{
}

} // verus!
