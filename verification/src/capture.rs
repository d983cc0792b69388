//! The capture state machine: status, transitions and fragment intake.

use vstd::prelude::*;
use crate::buffer::{FragmentBuffer, MergeFailure, PlaybackArtifact, concat_all};

verus! {

/// Where a capture session stands.
#[derive(Clone, Copy, Debug, PartialEq, Eq, Structural)]
pub enum RecordingStatus {
    Idle,
    Recording,
    Paused,
}

impl RecordingStatus {
    /// The text shown to the user for this status.
    pub open spec fn spec_label(self) -> Seq<char> {
        match self {
            RecordingStatus::Idle => "Idle"@,
            RecordingStatus::Recording => "Recording"@,
            RecordingStatus::Paused => "Paused"@,
        }
    }

    /// Returns the text shown to the user for this status.
    pub fn label(&self) -> (text: String)
        ensures
            text@ == self.spec_label(),
    {
        match self {
            RecordingStatus::Idle => "Idle".to_string(),
            RecordingStatus::Recording => "Recording".to_string(),
            RecordingStatus::Paused => "Paused".to_string(),
        }
    }
}

/// What the host has to ask of the capture device after an operation.
#[derive(Clone, Copy, Debug, PartialEq, Eq, Structural)]
pub enum RecorderCommand {
    /// Nothing: the operation was not valid in the current state.
    Nothing,
    Start,
    Pause,
    Resume,
    /// Ask the device to end the session. The status changes only once the
    /// device reports that it has stopped.
    Stop,
}

/// Everything that can happen to a recorder.
pub enum RecorderInput {
    /// A live stream was attached.
    Attach,
    Start,
    Pause,
    Resume,
    Stop,
    /// The device has a fragment ready.
    Data(Seq<u8>),
    /// The device reports the end of the session.
    Stopped,
}

/// The recorder as a mathematical value.
pub struct RecorderModel {
    pub status: RecordingStatus,
    pub stream_live: bool,
    pub fragments: Seq<Seq<u8>>,
}

impl RecorderModel {
    /// The state a fresh recorder is in.
    pub open spec fn initial() -> RecorderModel {
        RecorderModel {
            status: RecordingStatus::Idle,
            stream_live: false,
            fragments: Seq::<Seq<u8>>::empty(),
        }
    }

    /// The state after `input`. An input that is not valid in the current
    /// state changes nothing.
    pub open spec fn step(self, input: RecorderInput) -> RecorderModel {
        match input {
            RecorderInput::Attach => RecorderModel { stream_live: true, ..self },
            RecorderInput::Start => if self.status == RecordingStatus::Idle && self.stream_live {
                RecorderModel { status: RecordingStatus::Recording, ..self }
            } else {
                self
            },
            RecorderInput::Pause => if self.status == RecordingStatus::Recording {
                RecorderModel { status: RecordingStatus::Paused, ..self }
            } else {
                self
            },
            RecorderInput::Resume => if self.status == RecordingStatus::Paused {
                RecorderModel { status: RecordingStatus::Recording, ..self }
            } else {
                self
            },
            RecorderInput::Stop => self,
            RecorderInput::Data(fragment) => if self.status != RecordingStatus::Idle {
                RecorderModel { fragments: self.fragments.push(fragment), ..self }
            } else {
                self
            },
            RecorderInput::Stopped => RecorderModel { status: RecordingStatus::Idle, ..self },
        }
    }

    /// What the host has to ask of the device for `input` in this state.
    pub open spec fn command(self, input: RecorderInput) -> RecorderCommand {
        match input {
            RecorderInput::Start => if self.status == RecordingStatus::Idle && self.stream_live {
                RecorderCommand::Start
            } else {
                RecorderCommand::Nothing
            },
            RecorderInput::Pause => if self.status == RecordingStatus::Recording {
                RecorderCommand::Pause
            } else {
                RecorderCommand::Nothing
            },
            RecorderInput::Resume => if self.status == RecordingStatus::Paused {
                RecorderCommand::Resume
            } else {
                RecorderCommand::Nothing
            },
            RecorderInput::Stop => if self.status != RecordingStatus::Idle {
                RecorderCommand::Stop
            } else {
                RecorderCommand::Nothing
            },
            _ => RecorderCommand::Nothing,
        }
    }

    /// A session is only ever in progress on a live stream.
    pub open spec fn well_formed(self) -> bool {
        self.status != RecordingStatus::Idle ==> self.stream_live
    }

    /// The state after all of `inputs`, taken in order.
    pub open spec fn run(self, inputs: Seq<RecorderInput>) -> RecorderModel
        decreases inputs.len(),
    {
        if inputs.len() == 0 {
            self
        } else {
            self.run(inputs.drop_last()).step(inputs.last())
        }
    }
}

/// The fragments carried by `inputs`, in the order in which they occur.
pub open spec fn emitted(inputs: Seq<RecorderInput>) -> Seq<Seq<u8>>
    decreases inputs.len(),
{
    if inputs.len() == 0 {
        Seq::<Seq<u8>>::empty()
    } else {
        match inputs.last() {
            RecorderInput::Data(fragment) => emitted(inputs.drop_last()).push(fragment),
            _ => emitted(inputs.drop_last()),
        }
    }
}

/// Whether `inputs` holds no end-of-session report.
pub open spec fn no_session_end(inputs: Seq<RecorderInput>) -> bool {
    forall|i: int| 0 <= i < inputs.len() ==> !(#[trigger] inputs[i] is Stopped)
}

/// Whether `inputs` holds no start request.
pub open spec fn no_start(inputs: Seq<RecorderInput>) -> bool {
    forall|i: int| 0 <= i < inputs.len() ==> !(#[trigger] inputs[i] is Start)
}

/// No run of inputs gets a session going without a live stream.
pub proof fn lemma_run_keeps_well_formed(model: RecorderModel, inputs: Seq<RecorderInput>)
    requires
        model.well_formed(),
    ensures
        model.run(inputs).well_formed(),
    decreases inputs.len(),
{
    if inputs.len() > 0 {
        lemma_run_keeps_well_formed(model, inputs.drop_last());
    }
}

/// In any run of inputs, a step taken while the recorder is idle adds no
/// fragment: the buffer after input `k` is the buffer before it.
pub proof fn lemma_never_appends_while_idle(
    model: RecorderModel,
    inputs: Seq<RecorderInput>,
    k: int,
)
    requires
        0 <= k < inputs.len(),
        model.run(inputs.take(k)).status == RecordingStatus::Idle,
    ensures
        model.run(inputs.take(k + 1)).fragments == model.run(inputs.take(k)).fragments,
{
    let upto = inputs.take(k + 1);
    assert(upto.drop_last() =~= inputs.take(k));
}

/// Whatever happens to an idle recorder, short of a start, it stays idle and
/// takes in no fragment.
pub proof fn lemma_idle_takes_no_fragment(model: RecorderModel, inputs: Seq<RecorderInput>)
    requires
        model.status == RecordingStatus::Idle,
        no_start(inputs),
    ensures
        model.run(inputs).status == RecordingStatus::Idle,
        model.run(inputs).fragments == model.fragments,
    decreases inputs.len(),
{
    if inputs.len() > 0 {
        let front = inputs.drop_last();
        assert(no_start(front)) by {
            assert forall|i: int| 0 <= i < front.len() implies !(#[trigger] front[i] is Start) by {
                assert(front[i] == inputs[i]);
            }
        }
        lemma_idle_takes_no_fragment(model, front);
        assert(!(inputs[inputs.len() - 1] is Start));
    }
}

/// Over any inputs at all, fragments are only ever added behind those
/// already held: none is dropped, none changes its place.
pub proof fn lemma_fragments_append_only(model: RecorderModel, inputs: Seq<RecorderInput>)
    ensures
        model.fragments.len() <= model.run(inputs).fragments.len(),
        model.run(inputs).fragments.take(model.fragments.len() as int) == model.fragments,
    decreases inputs.len(),
{
    if inputs.len() == 0 {
        assert(model.fragments.take(model.fragments.len() as int) =~= model.fragments);
    } else {
        let front = inputs.drop_last();
        lemma_fragments_append_only(model, front);
        assert(model.run(inputs).fragments.take(model.fragments.len() as int) =~= model.run(
            front,
        ).fragments.take(model.fragments.len() as int));
    }
}

/// While a session lasts, the buffer grows by exactly the fragments that the
/// device emits, in emission order, however they are interleaved with user
/// actions.
pub proof fn lemma_fragments_in_emission_order(model: RecorderModel, inputs: Seq<RecorderInput>)
    requires
        model.status != RecordingStatus::Idle,
        no_session_end(inputs),
    ensures
        model.run(inputs).status != RecordingStatus::Idle,
        model.run(inputs).fragments == model.fragments + emitted(inputs),
    decreases inputs.len(),
{
    if inputs.len() == 0 {
        assert(model.fragments + emitted(inputs) =~= model.fragments);
    } else {
        let front = inputs.drop_last();
        assert(no_session_end(front)) by {
            assert forall|i: int| 0 <= i < front.len() implies !(#[trigger] front[i] is Stopped) by {
                assert(front[i] == inputs[i]);
            }
        }
        lemma_fragments_in_emission_order(model, front);
        assert(!(inputs[inputs.len() - 1] is Stopped));
        assert(model.run(inputs).fragments =~= model.fragments + emitted(inputs));
    }
}

/// The capture state machine together with the fragments it has taken in.
#[derive(Debug)]
pub struct CaptureRecorder {
    status: RecordingStatus,
    stream_live: bool,
    buffer: FragmentBuffer,
}

impl View for CaptureRecorder {
    type V = RecorderModel;

    closed spec fn view(&self) -> RecorderModel {
        RecorderModel {
            status: self.status,
            stream_live: self.stream_live,
            fragments: self.buffer@,
        }
    }
}

impl CaptureRecorder {
    /// An idle recorder without a stream and without fragments.
    pub fn new() -> (recorder: CaptureRecorder)
        ensures
            recorder@ == RecorderModel::initial(),
    {
        CaptureRecorder {
            status: RecordingStatus::Idle,
            stream_live: false,
            buffer: FragmentBuffer::new(),
        }
    }

    /// The current status.
    pub fn status(&self) -> (status: RecordingStatus)
        ensures
            status == self@.status,
    {
        self.status
    }

    /// Whether a live stream has been attached.
    pub fn has_stream(&self) -> (live: bool)
        ensures
            live == self@.stream_live,
    {
        self.stream_live
    }

    /// The number of fragments taken in so far.
    pub fn fragment_count(&self) -> (n: usize)
        ensures
            n == self@.fragments.len(),
    {
        self.buffer.len()
    }

    /// Records that a live stream is available to record from.
    pub fn attach_stream(&mut self)
        ensures
            final(self)@ == old(self)@.step(RecorderInput::Attach),
    {
        self.stream_live = true;
    }

    /// Begins a session if the recorder is idle and has a stream; otherwise
    /// does nothing.
    pub fn start(&mut self) -> (command: RecorderCommand)
        ensures
            final(self)@ == old(self)@.step(RecorderInput::Start),
            command == old(self)@.command(RecorderInput::Start),
    {
        if self.status == RecordingStatus::Idle && self.stream_live {
            self.status = RecordingStatus::Recording;
            RecorderCommand::Start
        } else {
            RecorderCommand::Nothing
        }
    }

    /// Suspends a running session; does nothing in any other state.
    pub fn pause(&mut self) -> (command: RecorderCommand)
        ensures
            final(self)@ == old(self)@.step(RecorderInput::Pause),
            command == old(self)@.command(RecorderInput::Pause),
    {
        if self.status == RecordingStatus::Recording {
            self.status = RecordingStatus::Paused;
            RecorderCommand::Pause
        } else {
            RecorderCommand::Nothing
        }
    }

    /// Takes up a paused session again; does nothing in any other state.
    pub fn resume(&mut self) -> (command: RecorderCommand)
        ensures
            final(self)@ == old(self)@.step(RecorderInput::Resume),
            command == old(self)@.command(RecorderInput::Resume),
    {
        if self.status == RecordingStatus::Paused {
            self.status = RecordingStatus::Recording;
            RecorderCommand::Resume
        } else {
            RecorderCommand::Nothing
        }
    }

    /// Asks for the end of a running or paused session. The status stays as
    /// it is until `on_stopped` reports that the device has ended it.
    pub fn stop(&self) -> (command: RecorderCommand)
        ensures
            command == self@.command(RecorderInput::Stop),
    {
        if self.status != RecordingStatus::Idle {
            RecorderCommand::Stop
        } else {
            RecorderCommand::Nothing
        }
    }

    /// Takes in a fragment from the device. It is kept, behind all earlier
    /// ones, unless the recorder is idle. Returns whether it was kept.
    pub fn on_data_available(&mut self, fragment: Vec<u8>) -> (kept: bool)
        ensures
            final(self)@ == old(self)@.step(RecorderInput::Data(fragment@)),
            kept == (old(self)@.status != RecordingStatus::Idle),
    {
        if self.status != RecordingStatus::Idle {
            self.buffer.append(fragment);
            true
        } else {
            false
        }
    }

    /// The device reports the end of the session: the recorder becomes idle.
    /// Returns whether a session was in progress.
    pub fn on_stopped(&mut self) -> (ended: bool)
        ensures
            final(self)@ == old(self)@.step(RecorderInput::Stopped),
            ended == (old(self)@.status != RecordingStatus::Idle),
    {
        let ended = self.status != RecordingStatus::Idle;
        self.status = RecordingStatus::Idle;
        ended
    }

    /// Joins the fragments taken in so far into one artifact, in emission
    /// order. Fails exactly when there is none.
    pub fn merge(&self) -> (result: Result<PlaybackArtifact, MergeFailure>)
        ensures
            result is Err <==> self@.fragments.len() == 0,
            result matches Ok(artifact) ==> artifact@ == concat_all(self@.fragments)
                && artifact.spec_fragment_count() == self@.fragments.len(),
            result matches Err(failure) ==> failure == MergeFailure::NoFragments,
    {
        self.buffer.merge_all()
    }
}

} // verus!
