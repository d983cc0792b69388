//! Acquisition of the live capture stream, as the session sees it.

use vstd::prelude::*;

verus! {

/// What is asked of the capture device.
#[derive(Clone, Copy, Debug, PartialEq, Eq, Structural)]
pub struct StreamConstraints {
    pub audio: bool,
    pub video: bool,
}

/// Why no stream could be had.
#[derive(Clone, Copy, Debug, PartialEq, Eq, Structural)]
pub enum AcquisitionError {
    /// The user or the host refused access to the device.
    PermissionDenied,
    /// No device could satisfy the request.
    DeviceUnavailable,
}

impl AcquisitionError {
    /// The text shown to the user for this error.
    pub open spec fn spec_message(self) -> Seq<char> {
        match self {
            AcquisitionError::PermissionDenied => "camera and microphone access was denied"@,
            AcquisitionError::DeviceUnavailable => "no camera or microphone is available"@,
        }
    }

    /// The error that a rejection named `name` stands for. Capture devices
    /// name a refusal `NotAllowedError` or `SecurityError`; under every
    /// other name the device could not satisfy the request.
    pub open spec fn spec_from_rejection_name(name: Seq<char>) -> AcquisitionError {
        if name == "NotAllowedError"@ || name == "SecurityError"@ {
            AcquisitionError::PermissionDenied
        } else {
            AcquisitionError::DeviceUnavailable
        }
    }

    /// Returns the error that a rejection named `name` stands for.
    pub fn from_rejection_name(name: &String) -> (error: AcquisitionError)
        ensures
            error == Self::spec_from_rejection_name(name@),
    {
        let refused = "NotAllowedError".to_string();
        let insecure = "SecurityError".to_string();
        if *name == refused || *name == insecure {
            AcquisitionError::PermissionDenied
        } else {
            AcquisitionError::DeviceUnavailable
        }
    }

    /// Returns the text shown to the user for this error.
    pub fn message(&self) -> (text: String)
        ensures
            text@ == self.spec_message(),
    {
        match self {
            AcquisitionError::PermissionDenied => {
                "camera and microphone access was denied".to_string()
            },
            AcquisitionError::DeviceUnavailable => {
                "no camera or microphone is available".to_string()
            },
        }
    }
}

/// Where the acquisition stands.
#[derive(Clone, Copy, Debug, PartialEq, Eq, Structural)]
pub enum StreamState {
    /// The request is out and not answered yet.
    Pending,
    /// A live stream is at hand.
    Live,
    /// The request failed; it is not made again.
    Failed(AcquisitionError),
}

impl StreamState {
    /// The state after the request was answered with `outcome`. Only the
    /// first answer counts.
    pub open spec fn resolved(self, outcome: Result<(), AcquisitionError>) -> StreamState {
        match (self, outcome) {
            (StreamState::Pending, Ok(_)) => StreamState::Live,
            (StreamState::Pending, Err(error)) => StreamState::Failed(error),
            _ => self,
        }
    }
}

/// Tracks the one request for a live audio and video stream.
#[derive(Debug)]
pub struct StreamAcquirer {
    state: StreamState,
}

impl View for StreamAcquirer {
    type V = StreamState;

    closed spec fn view(&self) -> StreamState {
        self.state
    }
}

impl StreamAcquirer {
    /// An acquirer whose request is not answered yet.
    pub fn new() -> (acquirer: StreamAcquirer)
        ensures
            acquirer@ == StreamState::Pending,
    {
        StreamAcquirer { state: StreamState::Pending }
    }

    /// What to ask of the device: audio and video at once.
    pub fn constraints() -> (constraints: StreamConstraints)
        ensures
            constraints.audio,
            constraints.video,
    {
        StreamConstraints { audio: true, video: true }
    }

    /// Where the acquisition stands.
    pub fn state(&self) -> (state: StreamState)
        ensures
            state == self@,
    {
        self.state
    }

    /// Whether a live stream is at hand.
    pub fn is_live(&self) -> (live: bool)
        ensures
            live == (self@ == StreamState::Live),
    {
        match self.state {
            StreamState::Live => true,
            _ => false,
        }
    }

    /// The error to show to the user, if the request failed.
    pub fn failure(&self) -> (error: Option<AcquisitionError>)
        ensures
            error == match self@ {
                StreamState::Failed(e) => Some(e),
                _ => None::<AcquisitionError>,
            },
    {
        match self.state {
            StreamState::Failed(e) => Some(e),
            _ => None,
        }
    }

    /// Takes in the answer to the request. Returns whether this answer made
    /// the stream live.
    pub fn resolve(&mut self, outcome: Result<(), AcquisitionError>) -> (went_live: bool)
        ensures
            final(self)@ == old(self)@.resolved(outcome),
            went_live == (old(self)@ == StreamState::Pending && outcome is Ok),
    {
        match self.state {
            StreamState::Pending => {
                match outcome {
                    Ok(_) => {
                        self.state = StreamState::Live;
                        true
                    },
                    Err(error) => {
                        self.state = StreamState::Failed(error);
                        false
                    },
                }
            },
            _ => false,
        }
    }
}

} // verus!
