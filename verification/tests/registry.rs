use soundboard::registry::AudioState;
use soundboard::report::{FileCheck, ProbeOutcome};
use soundboard::sound::{ErrorKind, SoundInfo};

fn decodable() -> FileCheck {
    FileCheck::Probed(ProbeOutcome::Decodable)
}

fn started() -> AudioState {
    AudioState::new(Ok(())).unwrap()
}

fn sound(slot: i32, label: &str, file_path: &str) -> SoundInfo {
    SoundInfo { slot, label: label.to_string(), file_path: file_path.to_string() }
}

fn register(state: &mut AudioState, slot: i32, label: &str, file_path: &str) -> SoundInfo {
    state.register(slot, label.to_string(), file_path.to_string(), &decodable()).unwrap()
}

#[test]
fn new_registry_is_empty() {
    let state = started();
    assert_eq!(state.list(), Vec::<SoundInfo>::new());
    assert_eq!(state.lookup(0).unwrap_err().kind, ErrorKind::SlotEmpty);
}

#[test]
fn new_fails_without_a_device() {
    let error = AudioState::new(Err("no output device".to_string())).unwrap_err();
    assert_eq!(error.kind, ErrorKind::DeviceError);
    assert_eq!(error.message, "Failed to create audio stream: no output device");
}

#[test]
fn register_returns_the_sound_and_lists_it() {
    let mut state = started();
    let info = register(&mut state, 4, "Drum roll", "/sounds/drum.ogg");
    assert_eq!(info, sound(4, "Drum roll", "/sounds/drum.ogg"));
    assert_eq!(state.list(), vec![sound(4, "Drum roll", "/sounds/drum.ogg")]);
    assert_eq!(state.lookup(4).unwrap(), sound(4, "Drum roll", "/sounds/drum.ogg"));
}

#[test]
fn list_is_sorted_whatever_the_order_of_registration() {
    let mut state = started();
    for slot in [5, -2, 9, 0, 3, i32::MAX, i32::MIN] {
        register(&mut state, slot, &format!("label {}", slot), &format!("/s/{}.wav", slot));
    }
    let slots: Vec<i32> = state.list().iter().map(|info| info.slot).collect();
    assert_eq!(slots, vec![i32::MIN, -2, 0, 3, 5, 9, i32::MAX]);
    for info in state.list() {
        assert_eq!(info.label, format!("label {}", info.slot));
        assert_eq!(info.file_path, format!("/s/{}.wav", info.slot));
    }
}

#[test]
fn list_does_not_depend_on_the_order_of_registration() {
    let mut forward = started();
    let mut backward = started();
    for slot in 0..40 {
        register(&mut forward, slot, "x", "/x.wav");
        register(&mut backward, 39 - slot, "x", "/x.wav");
    }
    assert_eq!(forward.list(), backward.list());
    assert_eq!(forward.list().len(), 40);
    let slots: Vec<i32> = forward.list().iter().map(|info| info.slot).collect();
    assert_eq!(slots, (0..40).collect::<Vec<i32>>());
}

#[test]
fn register_of_a_missing_path_fails_and_changes_nothing() {
    let mut state = started();
    register(&mut state, 1, "Airhorn", "/sounds/airhorn.wav");
    let before = state.list();
    let error = state
        .register(2, "Ghost".to_string(), "/nowhere/ghost.wav".to_string(), &FileCheck::Missing)
        .unwrap_err();
    assert_eq!(error.kind, ErrorKind::FileNotFound);
    assert_eq!(error.message, "File does not exist: /nowhere/ghost.wav");
    assert_eq!(state.list(), before);
    assert_eq!(state.lookup(2).unwrap_err().kind, ErrorKind::SlotEmpty);
}

#[test]
fn register_of_a_missing_path_keeps_the_sound_of_that_slot() {
    let mut state = started();
    register(&mut state, 1, "Airhorn", "/sounds/airhorn.wav");
    let result =
        state.register(1, "Other".to_string(), "/gone.wav".to_string(), &FileCheck::Missing);
    assert_eq!(result.unwrap_err().kind, ErrorKind::FileNotFound);
    assert_eq!(state.lookup(1).unwrap(), sound(1, "Airhorn", "/sounds/airhorn.wav"));
}

#[test]
fn register_of_an_undecodable_file_fails_and_changes_nothing() {
    let mut state = started();
    register(&mut state, 1, "Airhorn", "/sounds/airhorn.wav");
    let before = state.list();
    let check = FileCheck::Probed(ProbeOutcome::DecodeFailed("unrecognized format".to_string()));
    let error =
        state.register(1, "Notes".to_string(), "/docs/notes.txt".to_string(), &check).unwrap_err();
    assert_eq!(error.kind, ErrorKind::UnsupportedFormat);
    assert_eq!(error.message, "Unsupported audio format: unrecognized format");
    assert_eq!(state.list(), before);
}

#[test]
fn register_of_a_file_that_cannot_be_opened_fails_and_changes_nothing() {
    let mut state = started();
    let check = FileCheck::Probed(ProbeOutcome::OpenFailed("permission denied".to_string()));
    let error =
        state.register(8, "Locked".to_string(), "/root/locked.wav".to_string(), &check).unwrap_err();
    assert_eq!(error.kind, ErrorKind::UnsupportedFormat);
    assert_eq!(error.message, "Cannot open file: permission denied");
    assert!(state.list().is_empty());
}

#[test]
fn register_after_a_failed_worker_fails_and_changes_nothing() {
    let mut state = started();
    let check = FileCheck::Probed(ProbeOutcome::WorkerFailed("task panicked".to_string()));
    let error = state.register(8, "Any".to_string(), "/a.wav".to_string(), &check).unwrap_err();
    assert_eq!(error.kind, ErrorKind::WorkerFailure);
    assert_eq!(error.message, "Task failed: task panicked");
    assert!(state.list().is_empty());
}

#[test]
fn second_registration_replaces_the_first() {
    let mut state = started();
    register(&mut state, 3, "First", "/sounds/first.wav");
    register(&mut state, 3, "Second", "/sounds/second.mp3");
    assert_eq!(state.lookup(3).unwrap(), sound(3, "Second", "/sounds/second.mp3"));
    assert_eq!(state.list(), vec![sound(3, "Second", "/sounds/second.mp3")]);
}

#[test]
fn registration_leaves_other_slots_alone() {
    let mut state = started();
    register(&mut state, 1, "One", "/1.wav");
    register(&mut state, 2, "Two", "/2.wav");
    register(&mut state, 1, "Uno", "/uno.wav");
    assert_eq!(state.lookup(2).unwrap(), sound(2, "Two", "/2.wav"));
    assert_eq!(state.list(), vec![sound(1, "Uno", "/uno.wav"), sound(2, "Two", "/2.wav")]);
}

#[test]
fn remove_of_an_empty_slot_changes_nothing() {
    let mut state = started();
    state.remove(6);
    assert!(state.list().is_empty());
    register(&mut state, 1, "One", "/1.wav");
    let before = state.list();
    state.remove(6);
    state.remove(-1);
    assert_eq!(state.list(), before);
}

#[test]
fn remove_empties_the_slot_only() {
    let mut state = started();
    register(&mut state, 1, "One", "/1.wav");
    register(&mut state, 2, "Two", "/2.wav");
    register(&mut state, 3, "Three", "/3.wav");
    state.remove(2);
    assert_eq!(state.lookup(2).unwrap_err().kind, ErrorKind::SlotEmpty);
    assert_eq!(state.list(), vec![sound(1, "One", "/1.wav"), sound(3, "Three", "/3.wav")]);
    state.remove(2);
    assert_eq!(state.list(), vec![sound(1, "One", "/1.wav"), sound(3, "Three", "/3.wav")]);
}

#[test]
fn lookup_of_an_empty_slot_names_the_slot() {
    let state = started();
    let error = state.lookup(7).unwrap_err();
    assert_eq!(error.kind, ErrorKind::SlotEmpty);
    assert_eq!(error.message, "No sound loaded in slot 7");
    assert_eq!(state.lookup(-12).unwrap_err().message, "No sound loaded in slot -12");
    assert_eq!(state.lookup(0).unwrap_err().message, "No sound loaded in slot 0");
    assert_eq!(
        state.lookup(i32::MIN).unwrap_err().message,
        "No sound loaded in slot -2147483648"
    );
    assert_eq!(
        state.lookup(i32::MAX).unwrap_err().message,
        "No sound loaded in slot 2147483647"
    );
}

#[test]
fn labels_and_paths_are_kept_as_given() {
    let mut state = started();
    let info = register(&mut state, 2, "Fanfare — été 🎺", "/sons/été/fanfare 1.flac");
    assert_eq!(info.label, "Fanfare — été 🎺");
    assert_eq!(state.lookup(2).unwrap().file_path, "/sons/été/fanfare 1.flac");
    let empty = register(&mut state, 3, "", "");
    assert_eq!(empty, sound(3, "", ""));
    assert_eq!(state.list().len(), 2);
}

#[test]
fn clone_of_a_sound_is_equal_to_it() {
    let info = sound(11, "Bell", "/bell.wav");
    assert_eq!(info.clone(), info);
}

#[test]
fn registrations_of_two_slots_commute() {
    let mut one_first = started();
    register(&mut one_first, 1, "One", "/1.wav");
    register(&mut one_first, 2, "Two", "/2.wav");
    let mut two_first = started();
    register(&mut two_first, 2, "Two", "/2.wav");
    register(&mut two_first, 1, "One", "/1.wav");
    assert_eq!(one_first.list(), two_first.list());
    assert_eq!(one_first.list(), vec![sound(1, "One", "/1.wav"), sound(2, "Two", "/2.wav")]);
}

#[test]
fn registrations_of_one_slot_leave_one_whole_sound() {
    let mut state = started();
    register(&mut state, 5, "A", "/a.wav");
    register(&mut state, 5, "B", "/b.wav");
    assert_eq!(state.list(), vec![sound(5, "B", "/b.wav")]);
    let mut other = started();
    register(&mut other, 5, "B", "/b.wav");
    register(&mut other, 5, "A", "/a.wav");
    assert_eq!(other.list(), vec![sound(5, "A", "/a.wav")]);
}
