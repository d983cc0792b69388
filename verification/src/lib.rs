//! Core logic of a camera recorder with a speech-paced teleprompter.
//!
//! The crate holds the capture state machine, the fragment buffer, the
//! words-per-minute estimator, the script and scroll controller of the
//! prompter, and the session controller that wires them together.
//! Everything here works on plain values: the host performs device, clock
//! and display work, reports what happened, and carries out the actions it
//! is handed back.

pub mod buffer;
pub mod capture;
pub mod estimator;
pub mod scroll;
pub mod script;
pub mod session;
pub mod stream;
