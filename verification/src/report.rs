//! What the host reports of the work it did on disk and on the audio
//! device, and the failure that each report amounts to.
//!
//! The core never touches a file or a device. The host does, away from the
//! calling thread, and hands over what it saw; every `String` in a report
//! is the host's own description of what went wrong.

use crate::sound::{AudioError, ErrorKind, ErrorView};
use crate::text::{decimal, decimal_text, headed};
use vstd::prelude::*;

verus! {

/// How a decode probe ended: the file was opened and its headers were parsed,
/// and nothing was played.
#[derive(Clone, Debug, PartialEq, Eq)]
pub enum ProbeOutcome {
    /// The file was opened and decoded.
    Decodable,
    /// The file could not be opened.
    OpenFailed(String),
    /// The file was opened and is no audio that the decoder knows.
    DecodeFailed(String),
    /// The worker that ran the probe did not complete.
    WorkerFailed(String),
}

/// What the host found of a file that is to be bound to a slot. The probe runs
/// only on a path that exists.
#[derive(Clone, Debug, PartialEq, Eq)]
pub enum FileCheck {
    /// The path does not exist.
    Missing,
    /// The path exists, and the probe ended so.
    Probed(ProbeOutcome),
}

/// How a playback ended.
#[derive(Clone, Debug, PartialEq, Eq)]
pub enum PlayOutcome {
    /// The sound was handed to the mixer, or played to its end.
    Played,
    /// No output device could be opened for the playback.
    DeviceFailed(String),
    /// The file could not be opened.
    OpenFailed(String),
    /// The file could not be decoded.
    DecodeFailed(String),
    /// The worker that ran the playback did not complete.
    WorkerFailed(String),
}

/// A failure of `kind` whose message is `detail` behind `heading`.
pub open spec fn failure(kind: ErrorKind, heading: Seq<char>, detail: Seq<char>) -> ErrorView {
    ErrorView { kind, message: heading + detail }
}

/// The failure that a probe amounts to, if it is one. A file that exists and
/// cannot be opened counts as a file that cannot be decoded.
pub open spec fn probe_failure(outcome: ProbeOutcome) -> Option<ErrorView> {
    match outcome {
        ProbeOutcome::Decodable => None,
        ProbeOutcome::OpenFailed(detail) => Some(
            failure(ErrorKind::UnsupportedFormat, "Cannot open file: "@, detail@),
        ),
        ProbeOutcome::DecodeFailed(detail) => Some(
            failure(ErrorKind::UnsupportedFormat, "Unsupported audio format: "@, detail@),
        ),
        ProbeOutcome::WorkerFailed(detail) => Some(
            failure(ErrorKind::WorkerFailure, "Task failed: "@, detail@),
        ),
    }
}

/// The failure that the check of the file at `file_path` amounts to, if it is one.
pub open spec fn check_failure(file_path: Seq<char>, check: FileCheck) -> Option<ErrorView> {
    match check {
        FileCheck::Missing => Some(
            failure(ErrorKind::FileNotFound, "File does not exist: "@, file_path),
        ),
        FileCheck::Probed(outcome) => probe_failure(outcome),
    }
}

/// The failure that a playback amounts to, if it is one. At play time nothing
/// has looked for the file before it is opened, so a file that cannot be
/// opened counts as not found.
pub open spec fn play_failure(outcome: PlayOutcome) -> Option<ErrorView> {
    match outcome {
        PlayOutcome::Played => None,
        PlayOutcome::DeviceFailed(detail) => Some(device_failure(detail@)),
        PlayOutcome::OpenFailed(detail) => Some(
            failure(ErrorKind::FileNotFound, "Failed to open file: "@, detail@),
        ),
        PlayOutcome::DecodeFailed(detail) => Some(
            failure(ErrorKind::UnsupportedFormat, "Failed to decode audio: "@, detail@),
        ),
        PlayOutcome::WorkerFailed(detail) => Some(
            failure(ErrorKind::WorkerFailure, "Task failed: "@, detail@),
        ),
    }
}

/// The failure to acquire an output device.
pub open spec fn device_failure(detail: Seq<char>) -> ErrorView {
    failure(ErrorKind::DeviceError, "Failed to create audio stream: "@, detail)
}

/// The failure to find a sound in `slot`.
pub open spec fn empty_slot_failure(slot: int) -> ErrorView {
    failure(ErrorKind::SlotEmpty, "No sound loaded in slot "@, decimal(slot))
}

impl ProbeOutcome {
    /// Nothing for a file that decodes, else the failure.
    pub fn into_result(&self) -> (result: Result<(), AudioError>)
        ensures
            match probe_failure(*self) {
                Some(error) => result is Err && result->Err_0@ == error,
                None => result is Ok,
            },
    {
        match self {
            ProbeOutcome::Decodable => Ok(()),
            ProbeOutcome::OpenFailed(detail) => Err(
                AudioError {
                    kind: ErrorKind::UnsupportedFormat,
                    message: headed("Cannot open file: ", detail.as_str()),
                },
            ),
            ProbeOutcome::DecodeFailed(detail) => Err(
                AudioError {
                    kind: ErrorKind::UnsupportedFormat,
                    message: headed("Unsupported audio format: ", detail.as_str()),
                },
            ),
            ProbeOutcome::WorkerFailed(detail) => Err(
                AudioError {
                    kind: ErrorKind::WorkerFailure,
                    message: headed("Task failed: ", detail.as_str()),
                },
            ),
        }
    }
}

impl FileCheck {
    /// What is known of a file once the host has looked for its path: that it
    /// is missing, or nothing yet, and then the host is to run the probe.
    pub fn without_probe(present: bool) -> (known: Option<FileCheck>)
        ensures
            present ==> known is None,
            !present ==> known == Some(FileCheck::Missing),
    {
        if present {
            None
        } else {
            Some(FileCheck::Missing)
        }
    }

    /// Nothing for a file that exists and decodes, else the failure.
    pub fn into_result(&self, file_path: &str) -> (result: Result<(), AudioError>)
        ensures
            match check_failure(file_path@, *self) {
                Some(error) => result is Err && result->Err_0@ == error,
                None => result is Ok,
            },
    {
        match self {
            FileCheck::Missing => Err(
                AudioError {
                    kind: ErrorKind::FileNotFound,
                    message: headed("File does not exist: ", file_path),
                },
            ),
            FileCheck::Probed(outcome) => outcome.into_result(),
        }
    }
}

impl PlayOutcome {
    /// Nothing for a sound that played, else the failure.
    pub fn into_result(&self) -> (result: Result<(), AudioError>)
        ensures
            match play_failure(*self) {
                Some(error) => result is Err && result->Err_0@ == error,
                None => result is Ok,
            },
    {
        match self {
            PlayOutcome::Played => Ok(()),
            PlayOutcome::DeviceFailed(detail) => Err(device_error(detail.as_str())),
            PlayOutcome::OpenFailed(detail) => Err(
                AudioError {
                    kind: ErrorKind::FileNotFound,
                    message: headed("Failed to open file: ", detail.as_str()),
                },
            ),
            PlayOutcome::DecodeFailed(detail) => Err(
                AudioError {
                    kind: ErrorKind::UnsupportedFormat,
                    message: headed("Failed to decode audio: ", detail.as_str()),
                },
            ),
            PlayOutcome::WorkerFailed(detail) => Err(
                AudioError {
                    kind: ErrorKind::WorkerFailure,
                    message: headed("Task failed: ", detail.as_str()),
                },
            ),
        }
    }
}

/// The error for an output device that could not be acquired.
pub fn device_error(detail: &str) -> (error: AudioError)
    ensures
        error@ == device_failure(detail@),
{
    AudioError {
        kind: ErrorKind::DeviceError,
        message: headed("Failed to create audio stream: ", detail),
    }
}

/// The error for a slot that holds no sound.
pub fn empty_slot_error(slot: i32) -> (error: AudioError)
    ensures
        error@ == empty_slot_failure(slot as int),
{
    let number = decimal_text(slot);
    AudioError {
        kind: ErrorKind::SlotEmpty,
        message: headed("No sound loaded in slot ", number.as_str()),
    }
}

} // verus!
