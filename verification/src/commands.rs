//! The operations that the command layer calls, one for each of its commands.
//!
//! An operation that needs the disk or the audio device takes what the host
//! saw there as a report; the host does that work away from the calling
//! thread and outside the registry's lock.

use crate::registry::{after_register, lists, lookup_result, register_result, sound_views, AudioState};
use crate::report::{failure, play_failure, FileCheck, PlayOutcome, ProbeOutcome};
use crate::sound::{AudioError, ErrorKind, ErrorView, SoundInfo};
use crate::text::headed;
use vstd::prelude::*;

verus! {

/// What an access test says of the file at `file_path`.
pub open spec fn access_result(file_path: Seq<char>, present: bool) -> Result<Seq<char>, ErrorView> {
    if present {
        Ok("✅ Can access: "@ + file_path)
    } else {
        Err(failure(ErrorKind::FileNotFound, "❌ Cannot access: "@, file_path))
    }
}

/// Binds `slot` to the file at `file_path` under `label`, where `check` is what
/// the host found of that file.
pub fn load_sound_file(
    state: &mut AudioState,
    slot: i32,
    label: String,
    file_path: String,
    check: &FileCheck,
) -> (result: Result<SoundInfo, AudioError>)
    ensures
        final(state)@ == after_register(old(state)@, slot as int, label@, file_path@, *check),
        match register_result(slot as int, label@, file_path@, *check) {
            Ok(info) => result is Ok && result->Ok_0@ == info,
            Err(error) => result is Err && result->Err_0@ == error,
        },
{
    state.register(slot, label, file_path, check)
}

/// The path of the file that the host is to decode and hand to the shared
/// mixer for `slot`. For a slot without a sound there is no such path, and the
/// host has nothing to do on the device.
pub fn play_sound_slot(state: &AudioState, slot: i32) -> (result: Result<String, AudioError>)
    ensures
        match lookup_result(state@, slot as int) {
            Ok(info) => result is Ok && result->Ok_0@ == info.file_path,
            Err(error) => result is Err && result->Err_0@ == error,
        },
{
    match state.lookup(slot) {
        Ok(info) => Ok(info.file_path),
        Err(error) => Err(error),
    }
}

/// The result of a playback on the shared mixer, from the host's report of it.
pub fn play_sound_file_internal(outcome: &PlayOutcome) -> (result: Result<(), AudioError>)
    ensures
        match play_failure(*outcome) {
            Some(error) => result is Err && result->Err_0@ == error,
            None => result is Ok,
        },
{
    outcome.into_result()
}

/// The result of a playback on a device session of its own, which the host
/// opened for this one sound and held until the sound had played to its end.
pub fn play_sound_file(outcome: &PlayOutcome) -> (result: Result<(), AudioError>)
    ensures
        match play_failure(*outcome) {
            Some(error) => result is Err && result->Err_0@ == error,
            None => result is Ok,
        },
{
    outcome.into_result()
}

/// All sounds, by ascending slot.
pub fn get_loaded_sounds(state: &AudioState) -> (result: Result<Vec<SoundInfo>, AudioError>)
    ensures
        result is Ok,
        lists(sound_views(result->Ok_0@), state@),
{
    Ok(state.list())
}

/// Unbinds `slot`. A slot that holds no sound is left as it is.
pub fn remove_sound_slot(state: &mut AudioState, slot: i32) -> (result: Result<(), AudioError>)
    ensures
        result is Ok,
        final(state)@ == old(state)@.remove(slot as int),
{
    state.remove(slot);
    Ok(())
}

/// Whether the file that was probed can be played.
pub fn validate_audio_file(outcome: &ProbeOutcome) -> (valid: bool)
    ensures
        valid == (*outcome is Decodable),
{
    match outcome {
        ProbeOutcome::Decodable => true,
        _ => false,
    }
}

/// A line that says whether the file at `file_path` can be reached.
pub fn test_file_access(file_path: &str, present: bool) -> (result: Result<String, AudioError>)
    ensures
        match access_result(file_path@, present) {
            Ok(line) => result is Ok && result->Ok_0@ == line,
            Err(error) => result is Err && result->Err_0@ == error,
        },
{
    if present {
        Ok(headed("✅ Can access: ", file_path))
    } else {
        Err(
            AudioError {
                kind: ErrorKind::FileNotFound,
                message: headed("❌ Cannot access: ", file_path),
            },
        )
    }
}

} // verus!
