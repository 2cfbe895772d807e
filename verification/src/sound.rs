//! The data that the core hands to its callers.

use vstd::prelude::*;

verus! {

/// The sound bound to one slot.
#[derive(Debug, PartialEq, Eq)]
pub struct SoundInfo {
    pub slot: i32,
    pub label: String,
    pub file_path: String,
}

/// What a `SoundInfo` is, as plain mathematical values.
pub struct SoundView {
    pub slot: int,
    pub label: Seq<char>,
    pub file_path: Seq<char>,
}

impl View for SoundInfo {
    type V = SoundView;

    open spec fn view(&self) -> SoundView {
        SoundView { slot: self.slot as int, label: self.label@, file_path: self.file_path@ }
    }
}

impl Clone for SoundInfo {
    fn clone(&self) -> (copy: Self)
        ensures
            copy@ == self@,
    {
        SoundInfo { slot: self.slot, label: self.label.clone(), file_path: self.file_path.clone() }
    }
}

/// The reasons for which an operation of the core fails.
#[derive(Clone, Copy, Debug, PartialEq, Eq, Structural)]
pub enum ErrorKind {
    /// The path does not name an existing file.
    FileNotFound,
    /// The file could not be opened and decoded as audio.
    UnsupportedFormat,
    /// No sound is bound to the slot.
    SlotEmpty,
    /// The audio output device could not be acquired.
    DeviceError,
    /// The task handed to a worker did not run to completion.
    WorkerFailure,
}

/// A failure, with the message that is shown to the user.
#[derive(Debug, PartialEq, Eq)]
pub struct AudioError {
    pub kind: ErrorKind,
    pub message: String,
}

/// What an `AudioError` is, as plain mathematical values.
pub struct ErrorView {
    pub kind: ErrorKind,
    pub message: Seq<char>,
}

impl View for AudioError {
    type V = ErrorView;

    open spec fn view(&self) -> ErrorView {
        ErrorView { kind: self.kind, message: self.message@ }
    }
}

} // verus!
