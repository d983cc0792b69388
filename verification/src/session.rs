//! The session controller: wires recorder, estimator and scroll controller
//! together and turns user actions and host events into actions for the host.

use vstd::prelude::*;
use crate::buffer::{PlaybackArtifact, concat_all};
use crate::capture::{CaptureRecorder, RecorderCommand, RecorderInput, RecorderModel, RecordingStatus};
use crate::estimator::{EstimatorModel, RecognitionState, TranscriptEstimator};
use crate::script::{split_words, word_views, words_of};
use crate::scroll::{ScrollConfig, ScrollController, ScrollModel, lemma_tick_keeps_well_formed};
use crate::stream::{AcquisitionError, StreamAcquirer, StreamConstraints, StreamState};

verus! {

/// What the host has to do after the session took in an action or event.
#[derive(Clone, Copy, Debug, PartialEq, Eq, Structural)]
pub enum HostAction {
    Nothing,
    /// Start the periodic tick with this period in milliseconds, in place of
    /// a running one.
    StartTicker(u32),
    /// Cancel the periodic tick.
    CancelTicker,
    /// Move the prompter to this offset in pixels.
    ApplyOffset(i32),
    /// A new artifact is ready for playback.
    PublishArtifact,
    /// The session ended with nothing recorded.
    ReportNoRecording,
}

/// Everything that can happen to a session: what the user does and what
/// the host reports.
pub enum SessionInput {
    /// The stream request was answered.
    StreamResult(Result<(), AcquisitionError>),
    /// The page came up at this time, with or without speech recognition.
    Mount(u64, bool),
    /// The page goes away.
    Teardown,
    Start,
    Pause,
    Resume,
    Stop,
    /// The device has a fragment ready.
    Data(Seq<u8>),
    /// The device reports the end of the session.
    SessionEnded,
    /// A cumulative transcript arrived at this time.
    Transcript(Seq<char>, u64),
    /// The user set the script.
    ScriptEdited(Seq<char>),
    TogglePrompter,
    /// The periodic timer fired.
    Tick,
}

/// The session as a mathematical value.
pub struct SessionModel {
    pub stream: StreamState,
    pub recorder: RecorderModel,
    pub estimator: EstimatorModel,
    pub scroll: ScrollModel,
    pub script: Seq<char>,
    /// The bytes of the artifact published last.
    pub artifact: Option<Seq<u8>>,
}

impl SessionModel {
    /// The state of a fresh session.
    pub open spec fn initial(config: ScrollConfig) -> SessionModel {
        SessionModel {
            stream: StreamState::Pending,
            recorder: RecorderModel::initial(),
            estimator: EstimatorModel::initial(),
            scroll: ScrollModel::initial(config),
            script: Seq::<char>::empty(),
            artifact: None,
        }
    }

    /// What holds of every session: the recorder has a stream exactly when
    /// the acquisition succeeded, records only on a live stream, and a
    /// running prompter scrolls at the current estimate.
    pub open spec fn coherent(self) -> bool {
        &&& self.recorder.well_formed()
        &&& self.scroll.well_formed()
        &&& self.recorder.stream_live == (self.stream == StreamState::Live)
        &&& self.scroll.active ==> self.scroll.wpm == self.estimator.wpm
    }

    /// The state after the stream request was answered.
    pub open spec fn after_stream_result(
        self,
        outcome: Result<(), AcquisitionError>,
    ) -> SessionModel {
        SessionModel {
            stream: self.stream.resolved(outcome),
            recorder: if self.stream == StreamState::Pending && outcome is Ok {
                self.recorder.step(RecorderInput::Attach)
            } else {
                self.recorder
            },
            ..self
        }
    }

    /// The state after the device reported the end of the session: the
    /// recorder is idle, and if a session was in progress and left
    /// fragments, their concatenation is the artifact from now on.
    pub open spec fn after_session_ended(self) -> SessionModel {
        SessionModel {
            recorder: self.recorder.step(RecorderInput::Stopped),
            artifact: if self.recorder.status != RecordingStatus::Idle
                && self.recorder.fragments.len() > 0 {
                Some(concat_all(self.recorder.fragments))
            } else {
                self.artifact
            },
            ..self
        }
    }

    /// What the host does when the device reported the end of the session.
    pub open spec fn action_on_session_ended(self) -> HostAction {
        if self.recorder.status == RecordingStatus::Idle {
            HostAction::Nothing
        } else if self.recorder.fragments.len() > 0 {
            HostAction::PublishArtifact
        } else {
            HostAction::ReportNoRecording
        }
    }

    /// The scroll controller once `wpm` is the estimate and `script` the
    /// text: a running prompter whose rate or text no longer holds starts
    /// over at the new rate.
    pub open spec fn scroll_rederived(self, wpm: u32, script: Seq<char>) -> ScrollModel {
        if self.scroll.active && (wpm != self.estimator.wpm || script != self.script) {
            self.scroll.activated(wpm)
        } else {
            self.scroll
        }
    }

    /// What the host does once `wpm` is the estimate and `script` the text.
    pub open spec fn action_on_rederive(self, wpm: u32, script: Seq<char>) -> HostAction {
        if self.scroll.active && (wpm != self.estimator.wpm || script != self.script) {
            HostAction::StartTicker(self.scroll.config.period_ms)
        } else {
            HostAction::Nothing
        }
    }

    /// The state after the cumulative transcript `text` arrived at `now_ms`.
    pub open spec fn after_transcript(self, text: Seq<char>, now_ms: u64) -> SessionModel {
        let estimator = self.estimator.after_result(text, now_ms);
        SessionModel {
            estimator,
            scroll: self.scroll_rederived(estimator.wpm, self.script),
            ..self
        }
    }

    /// The state after the user set the script to `script`.
    pub open spec fn after_script_edited(self, script: Seq<char>) -> SessionModel {
        SessionModel {
            script,
            scroll: self.scroll_rederived(self.estimator.wpm, script),
            ..self
        }
    }

    /// The state after the user toggled the prompter.
    pub open spec fn after_toggle(self) -> SessionModel {
        SessionModel {
            scroll: if self.scroll.active {
                self.scroll.deactivated()
            } else {
                self.scroll.activated(self.estimator.wpm)
            },
            ..self
        }
    }

    /// The state after `input`.
    pub open spec fn step(self, input: SessionInput) -> SessionModel {
        match input {
            SessionInput::StreamResult(outcome) => self.after_stream_result(outcome),
            SessionInput::Mount(now_ms, available) => SessionModel {
                estimator: self.estimator.after_begin(now_ms, available),
                ..self
            },
            SessionInput::Teardown => SessionModel {
                estimator: self.estimator.after_teardown(),
                ..self
            },
            SessionInput::Start => SessionModel {
                recorder: self.recorder.step(RecorderInput::Start),
                ..self
            },
            SessionInput::Pause => SessionModel {
                recorder: self.recorder.step(RecorderInput::Pause),
                ..self
            },
            SessionInput::Resume => SessionModel {
                recorder: self.recorder.step(RecorderInput::Resume),
                ..self
            },
            SessionInput::Stop => self,
            SessionInput::Data(fragment) => SessionModel {
                recorder: self.recorder.step(RecorderInput::Data(fragment)),
                ..self
            },
            SessionInput::SessionEnded => self.after_session_ended(),
            SessionInput::Transcript(text, now_ms) => self.after_transcript(text, now_ms),
            SessionInput::ScriptEdited(script) => self.after_script_edited(script),
            SessionInput::TogglePrompter => self.after_toggle(),
            SessionInput::Tick => SessionModel { scroll: self.scroll.ticked(), ..self },
        }
    }

    /// The state after all of `inputs`, taken in order.
    pub open spec fn run(self, inputs: Seq<SessionInput>) -> SessionModel
        decreases inputs.len(),
    {
        if inputs.len() == 0 {
            self
        } else {
            self.run(inputs.drop_last()).step(inputs.last())
        }
    }
}

/// Whatever happens to a coherent session leaves it coherent.
pub proof fn lemma_step_keeps_coherent(model: SessionModel, input: SessionInput)
    requires
        model.coherent(),
    ensures
        model.step(input).coherent(),
{
    lemma_tick_keeps_well_formed(model.scroll);
}

/// Every state that a fresh session can reach is coherent.
pub proof fn lemma_run_keeps_coherent(config: ScrollConfig, inputs: Seq<SessionInput>)
    ensures
        SessionModel::initial(config).run(inputs).coherent(),
    decreases inputs.len(),
{
    if inputs.len() > 0 {
        lemma_run_keeps_coherent(config, inputs.drop_last());
        lemma_step_keeps_coherent(
            SessionModel::initial(config).run(inputs.drop_last()),
            inputs.last(),
        );
    }
}

/// A session in progress ends when the device says so and at no other time:
/// not when the user asks to stop, nor on anything else.
pub proof fn lemma_only_the_device_ends_a_session(model: SessionModel, input: SessionInput)
    requires
        model.recorder.status != RecordingStatus::Idle,
        !(input is SessionEnded),
    ensures
        model.step(input).recorder.status != RecordingStatus::Idle,
{
}

/// While the recorder is idle, nothing that happens adds a fragment.
pub proof fn lemma_idle_session_takes_no_fragment(model: SessionModel, input: SessionInput)
    requires
        model.recorder.status == RecordingStatus::Idle,
    ensures
        model.step(input).recorder.fragments == model.recorder.fragments,
{
}

/// The offset moves only while the prompter is active.
pub proof fn lemma_offset_moves_only_while_active(model: SessionModel, input: SessionInput)
    requires
        !model.scroll.active,
    ensures
        model.step(input).scroll.offset == model.scroll.offset,
{
}

/// An artifact stays as it is until the end of a later session replaces it.
pub proof fn lemma_artifact_changes_only_at_session_end(model: SessionModel, input: SessionInput)
    requires
        !(input is SessionEnded),
    ensures
        model.step(input).artifact == model.artifact,
{
}

/// The estimate moves on transcripts alone: neither the prompter nor the
/// recorder touches it.
pub proof fn lemma_estimate_moves_only_on_transcripts(model: SessionModel, input: SessionInput)
    requires
        !(input is Transcript),
    ensures
        model.step(input).estimator.wpm == model.estimator.wpm,
{
}

/// The session controller.
#[derive(Debug)]
pub struct SessionController {
    acquirer: StreamAcquirer,
    recorder: CaptureRecorder,
    estimator: TranscriptEstimator,
    scroll: ScrollController,
    script: String,
    artifact: Option<PlaybackArtifact>,
}

impl View for SessionController {
    type V = SessionModel;

    closed spec fn view(&self) -> SessionModel {
        SessionModel {
            stream: self.acquirer@,
            recorder: self.recorder@,
            estimator: self.estimator@,
            scroll: self.scroll@,
            script: self.script@,
            artifact: match self.artifact {
                Some(artifact) => Some(artifact@),
                None => None,
            },
        }
    }
}

impl SessionController {
    /// A fresh session: no stream yet, recorder idle, default estimate,
    /// prompter inactive, empty script, no artifact.
    pub fn new(config: ScrollConfig) -> (session: SessionController)
        ensures
            session@ == SessionModel::initial(config),
            session@.coherent(),
    {
        SessionController {
            acquirer: StreamAcquirer::new(),
            recorder: CaptureRecorder::new(),
            estimator: TranscriptEstimator::new(),
            scroll: ScrollController::new(config),
            script: String::new(),
            artifact: None,
        }
    }

    /// What to ask of the capture device: audio and video at once.
    pub fn stream_constraints(&self) -> (constraints: StreamConstraints)
        ensures
            constraints.audio,
            constraints.video,
    {
        StreamAcquirer::constraints()
    }

    /// The current recording status.
    pub fn status(&self) -> (status: RecordingStatus)
        ensures
            status == self@.recorder.status,
    {
        self.recorder.status()
    }

    /// The current estimate in words per minute.
    pub fn wpm(&self) -> (wpm: u32)
        ensures
            wpm == self@.estimator.wpm,
    {
        self.estimator.wpm()
    }

    /// Whether the prompter scrolls.
    pub fn is_prompting(&self) -> (active: bool)
        ensures
            active == self@.scroll.active,
    {
        self.scroll.is_active()
    }

    /// The prompter's offset applied last, in pixels.
    pub fn scroll_offset(&self) -> (offset: i32)
        ensures
            offset == self@.scroll.offset,
    {
        self.scroll.offset()
    }

    /// The script as the user last set it.
    pub fn script(&self) -> (text: &str)
        ensures
            text@ == self@.script,
    {
        self.script.as_str()
    }

    /// The words of the script, in order, as the prompter shows them.
    pub fn script_words(&self) -> (words: Vec<String>)
        ensures
            word_views(words@) == words_of(self@.script),
    {
        split_words(self.script.as_str())
    }

    /// The error to show to the user, if no stream could be had.
    pub fn acquisition_failure(&self) -> (error: Option<AcquisitionError>)
        ensures
            error == match self@.stream {
                StreamState::Failed(e) => Some(e),
                _ => None::<AcquisitionError>,
            },
    {
        self.acquirer.failure()
    }

    /// The artifact published last, if any.
    pub fn artifact(&self) -> (artifact: Option<&PlaybackArtifact>)
        ensures
            artifact is Some <==> self@.artifact is Some,
            artifact matches Some(a) ==> Some(a@) == self@.artifact,
    {
        self.artifact.as_ref()
    }

    /// Whether the user may start recording: only while idle.
    pub fn start_enabled(&self) -> (enabled: bool)
        ensures
            enabled == (self@.recorder.status == RecordingStatus::Idle),
    {
        self.recorder.status() == RecordingStatus::Idle
    }

    /// Whether the user may pause: only while recording.
    pub fn pause_enabled(&self) -> (enabled: bool)
        ensures
            enabled == (self@.recorder.status == RecordingStatus::Recording),
    {
        self.recorder.status() == RecordingStatus::Recording
    }

    /// Whether the user may stop: in every status but recording.
    pub fn stop_enabled(&self) -> (enabled: bool)
        ensures
            enabled == (self@.recorder.status != RecordingStatus::Recording),
    {
        self.recorder.status() != RecordingStatus::Recording
    }

    /// Takes in the answer to the stream request. A live stream is handed to
    /// the recorder; a failure stays for good. Returns whether the stream
    /// went live.
    pub fn on_stream_result(&mut self, outcome: Result<(), AcquisitionError>) -> (went_live: bool)
        ensures
            old(self)@.coherent() ==> final(self)@.coherent(),
            final(self)@ == old(self)@.step(SessionInput::StreamResult(outcome)),
            went_live == (old(self)@.stream == StreamState::Pending && outcome is Ok),
    {
        let went_live = self.acquirer.resolve(outcome);
        if went_live {
            self.recorder.attach_stream();
        }
        went_live
    }

    /// Starts the estimator at `now_ms`, once. Returns whether the host has
    /// to start recognition.
    pub fn on_mount(&mut self, now_ms: u64, recognition_available: bool) -> (start: bool)
        ensures
            old(self)@.coherent() ==> final(self)@.coherent(),
            final(self)@ == old(self)@.step(SessionInput::Mount(now_ms, recognition_available)),
            start == (old(self)@.estimator.state == RecognitionState::NotStarted
                && recognition_available),
    {
        self.estimator.begin(now_ms, recognition_available)
    }

    /// Releases recognition. Returns whether the host has a running
    /// recognition to stop.
    pub fn on_teardown(&mut self) -> (release: bool)
        ensures
            old(self)@.coherent() ==> final(self)@.coherent(),
            final(self)@ == old(self)@.step(SessionInput::Teardown),
            release == (old(self)@.estimator.state == RecognitionState::Listening),
    {
        self.estimator.teardown()
    }

    /// The user asks to record.
    pub fn on_start(&mut self) -> (command: RecorderCommand)
        ensures
            old(self)@.coherent() ==> final(self)@.coherent(),
            final(self)@ == old(self)@.step(SessionInput::Start),
            command == old(self)@.recorder.command(RecorderInput::Start),
    {
        self.recorder.start()
    }

    /// The user asks to pause.
    pub fn on_pause(&mut self) -> (command: RecorderCommand)
        ensures
            old(self)@.coherent() ==> final(self)@.coherent(),
            final(self)@ == old(self)@.step(SessionInput::Pause),
            command == old(self)@.recorder.command(RecorderInput::Pause),
    {
        self.recorder.pause()
    }

    /// The user asks to go on after a pause.
    pub fn on_resume(&mut self) -> (command: RecorderCommand)
        ensures
            old(self)@.coherent() ==> final(self)@.coherent(),
            final(self)@ == old(self)@.step(SessionInput::Resume),
            command == old(self)@.recorder.command(RecorderInput::Resume),
    {
        self.recorder.resume()
    }

    /// The user asks to stop. Nothing changes yet: the session ends, and the
    /// fragments are merged, when the device reports it.
    pub fn on_stop(&self) -> (command: RecorderCommand)
        ensures
            command == self@.recorder.command(RecorderInput::Stop),
    {
        self.recorder.stop()
    }

    /// The device has a fragment ready. Returns whether it was kept.
    pub fn on_data_available(&mut self, fragment: Vec<u8>) -> (kept: bool)
        ensures
            old(self)@.coherent() ==> final(self)@.coherent(),
            final(self)@ == old(self)@.step(SessionInput::Data(fragment@)),
            kept == (old(self)@.recorder.status != RecordingStatus::Idle),
    {
        self.recorder.on_data_available(fragment)
    }

    /// The device reports the end of the session. The recorder becomes idle
    /// and the fragments are merged into the artifact for playback.
    pub fn on_session_ended(&mut self) -> (action: HostAction)
        ensures
            old(self)@.coherent() ==> final(self)@.coherent(),
            final(self)@ == old(self)@.step(SessionInput::SessionEnded),
            action == old(self)@.action_on_session_ended(),
    {
        let ended = self.recorder.on_stopped();
        if !ended {
            return HostAction::Nothing;
        }
        match self.recorder.merge() {
            Ok(artifact) => {
                self.artifact = Some(artifact);
                HostAction::PublishArtifact
            },
            Err(_) => HostAction::ReportNoRecording,
        }
    }

    /// The cumulative transcript `transcript` arrived at `now_ms`. If it
    /// moves the estimate while the prompter runs, the prompter starts over
    /// at the new rate.
    pub fn on_transcript(&mut self, transcript: &str, now_ms: u64) -> (action: HostAction)
        ensures
            old(self)@.coherent() ==> final(self)@.coherent(),
            final(self)@ == old(self)@.step(SessionInput::Transcript(transcript@, now_ms)),
            action == old(self)@.action_on_rederive(final(self)@.estimator.wpm, old(self)@.script),
    {
        let before = self.estimator.wpm();
        let _ = self.estimator.on_result(transcript, now_ms);
        let now = self.estimator.wpm();
        if self.scroll.is_active() && now != before {
            self.scroll.activate(now);
            HostAction::StartTicker(self.scroll.config().period_ms)
        } else {
            HostAction::Nothing
        }
    }

    /// The user set the script to `script`. If that changes the text while
    /// the prompter runs, the prompter starts over.
    pub fn on_script_edited(&mut self, script: String) -> (action: HostAction)
        ensures
            old(self)@.coherent() ==> final(self)@.coherent(),
            final(self)@ == old(self)@.step(SessionInput::ScriptEdited(script@)),
            action == old(self)@.action_on_rederive(old(self)@.estimator.wpm, script@),
    {
        let changed = !(self.script == script);
        self.script = script;
        if self.scroll.is_active() && changed {
            self.scroll.activate(self.estimator.wpm());
            HostAction::StartTicker(self.scroll.config().period_ms)
        } else {
            HostAction::Nothing
        }
    }

    /// The user toggled the prompter: a running one stops and forgets its
    /// count, a stopped one starts from zero at the current estimate.
    pub fn on_toggle_prompter(&mut self) -> (action: HostAction)
        ensures
            old(self)@.coherent() ==> final(self)@.coherent(),
            final(self)@ == old(self)@.step(SessionInput::TogglePrompter),
            action == if old(self)@.scroll.active {
                HostAction::CancelTicker
            } else {
                HostAction::StartTicker(old(self)@.scroll.config.period_ms)
            },
    {
        if self.scroll.is_active() {
            self.scroll.deactivate();
            HostAction::CancelTicker
        } else {
            self.scroll.activate(self.estimator.wpm());
            HostAction::StartTicker(self.scroll.config().period_ms)
        }
    }

    /// One tick of the timer: a running prompter moves on.
    pub fn on_tick(&mut self) -> (action: HostAction)
        ensures
            old(self)@.coherent() ==> final(self)@.coherent(),
            final(self)@ == old(self)@.step(SessionInput::Tick),
            action == if old(self)@.scroll.active {
                HostAction::ApplyOffset(final(self)@.scroll.offset)
            } else {
                HostAction::Nothing
            },
    {
        match self.scroll.tick() {
            Some(offset) => HostAction::ApplyOffset(offset),
            None => HostAction::Nothing,
        }
    }
}

} // verus!
