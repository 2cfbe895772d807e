//! The slot registry: at most one sound per slot.

use crate::report::{
    check_failure, device_error, device_failure, empty_slot_error, empty_slot_failure, FileCheck,
};
use crate::sound::{AudioError, ErrorView, SoundInfo, SoundView};
use std::collections::HashMap;
use vstd::prelude::*;
use vstd::std_specs::iter::IteratorSpec;

verus! {

broadcast use vstd::std_specs::hash::group_hash_axioms;

/// What a slot is bound to. The slot itself is the key it is stored under.
#[derive(Debug)]
struct Binding {
    label: String,
    file_path: String,
}

/// The state of the playback core: the sounds bound to slots.
#[derive(Debug)]
pub struct AudioState {
    sounds: HashMap<i32, Binding>,
}

/// Whether `entries` lists the sounds of `registry`, each once, by ascending slot.
pub open spec fn lists(entries: Seq<SoundView>, registry: Map<int, SoundView>) -> bool {
    &&& forall|i: int, j: int| 0 <= i < j < entries.len() ==> entries[i].slot < entries[j].slot
    &&& forall|i: int|
        0 <= i < entries.len() ==> registry.contains_key(#[trigger] entries[i].slot)
            && registry[entries[i].slot] == entries[i]
    &&& forall|k: int| #[trigger]
        registry.contains_key(k) ==> exists|i: int| 0 <= i < entries.len() && entries[i].slot == k
}

/// Whether each sound of `registry` is stored under its own slot, a 32-bit number.
pub open spec fn keyed_by_slot(registry: Map<int, SoundView>) -> bool {
    forall|k: int| #[trigger]
        registry.contains_key(k) ==> registry[k].slot == k && i32::MIN <= k <= i32::MAX
}

/// The sound that binds `slot` to the file at `file_path` under `label`.
pub open spec fn sound(slot: int, label: Seq<char>, file_path: Seq<char>) -> SoundView {
    SoundView { slot, label, file_path }
}

/// What a registration returns: the sound, or the failure of the file's check.
pub open spec fn register_result(
    slot: int,
    label: Seq<char>,
    file_path: Seq<char>,
    check: FileCheck,
) -> Result<SoundView, ErrorView> {
    match check_failure(file_path, check) {
        Some(error) => Err(error),
        None => Ok(sound(slot, label, file_path)),
    }
}

/// The registry after a registration: with the sound in its slot where the
/// file's check found no fault, else as it was.
pub open spec fn after_register(
    registry: Map<int, SoundView>,
    slot: int,
    label: Seq<char>,
    file_path: Seq<char>,
    check: FileCheck,
) -> Map<int, SoundView> {
    match check_failure(file_path, check) {
        Some(_) => registry,
        None => registry.insert(slot, sound(slot, label, file_path)),
    }
}

/// What a lookup returns: the sound in `slot`, or the failure to find one.
pub open spec fn lookup_result(registry: Map<int, SoundView>, slot: int) -> Result<
    SoundView,
    ErrorView,
> {
    if registry.contains_key(slot) {
        Ok(registry[slot])
    } else {
        Err(empty_slot_failure(slot))
    }
}

/// The views of the sounds of a list, in its order.
pub open spec fn sound_views(entries: Seq<SoundInfo>) -> Seq<SoundView> {
    Seq::new(entries.len(), |i: int| entries[i]@)
}

/// Whether a sound of `entries` has this slot.
spec fn holds_slot(entries: Seq<SoundInfo>, slot: i32) -> bool {
    exists|i: int| 0 <= i < entries.len() && entries[i].slot == slot
}

impl View for AudioState {
    type V = Map<int, SoundView>;

    /// The registry as a map from slot to the sound bound to it.
    closed spec fn view(&self) -> Map<int, SoundView> {
        Map::new(
            |k: int| i32::MIN <= k <= i32::MAX && self.sounds@.contains_key(k as i32),
            |k: int|
                SoundView {
                    slot: k,
                    label: self.sounds@[k as i32].label@,
                    file_path: self.sounds@[k as i32].file_path@,
                },
        )
    }
}

impl AudioState {
    /// Every sound of the registry is stored under its own slot, and every
    /// slot is a number that a sound can hold.
    pub proof fn lemma_sounds_are_keyed_by_slot(&self)
        ensures
            keyed_by_slot(self@),
    {
    }

    /// The state at start, once the host has tried to open the output device:
    /// an empty registry, or the failure to acquire the device.
    pub fn new(device: Result<(), String>) -> (started: Result<Self, AudioError>)
        ensures
            match device {
                Ok(_) => started is Ok && started->Ok_0@ == Map::<int, SoundView>::empty(),
                Err(detail) => started is Err && started->Err_0@ == device_failure(detail@),
            },
    {
        match device {
            Ok(_) => Ok(AudioState { sounds: HashMap::new() }),
            Err(detail) => Err(device_error(detail.as_str())),
        }
    }

    /// Binds `slot` to the file at `file_path` under `label`, in place of what
    /// the slot held, if the host found the file to exist and to decode.
    /// Otherwise the registry stays as it was.
    pub fn register(
        &mut self,
        slot: i32,
        label: String,
        file_path: String,
        check: &FileCheck,
    ) -> (result: Result<SoundInfo, AudioError>)
        ensures
            final(self)@ == after_register(old(self)@, slot as int, label@, file_path@, *check),
            match register_result(slot as int, label@, file_path@, *check) {
                Ok(info) => result is Ok && result->Ok_0@ == info,
                Err(error) => result is Err && result->Err_0@ == error,
            },
    {
        match check.into_result(file_path.as_str()) {
            Err(error) => Err(error),
            Ok(_) => {
                let binding = Binding { label: label.clone(), file_path: file_path.clone() };
                self.sounds.insert(slot, binding);
                Ok(SoundInfo { slot, label, file_path })
            },
        }
    }

    /// The sound bound to `slot`.
    pub fn lookup(&self, slot: i32) -> (result: Result<SoundInfo, AudioError>)
        ensures
            match lookup_result(self@, slot as int) {
                Ok(info) => result is Ok && result->Ok_0@ == info,
                Err(error) => result is Err && result->Err_0@ == error,
            },
    {
        match self.sounds.get(&slot) {
            Some(binding) => Ok(
                SoundInfo {
                    slot,
                    label: binding.label.clone(),
                    file_path: binding.file_path.clone(),
                },
            ),
            None => Err(empty_slot_error(slot)),
        }
    }

    /// Unbinds `slot`. A slot that holds no sound is left as it is.
    pub fn remove(&mut self, slot: i32)
        ensures
            final(self)@ == old(self)@.remove(slot as int),
    {
        self.sounds.remove(&slot);
    }

    /// All sounds, by ascending slot.
    pub fn list(&self) -> (entries: Vec<SoundInfo>)
        ensures
            lists(sound_views(entries@), self@),
    {
        let mut entries: Vec<SoundInfo> = Vec::new();
        // origin[i] is the place, in the walk over the map, of the pair that
        // entries[i] was made from.
        let ghost mut origin: Seq<int> = Seq::empty();
        for pair in it: self.sounds.iter()
            invariant
                it.seq() == self.sounds.iter().remaining(),
                it.seq().no_duplicates(),
                entries@.len() == it.index(),
                origin.len() == entries@.len(),
                forall|i: int, j: int|
                    0 <= i < j < entries@.len() ==> entries@[i].slot < entries@[j].slot,
                forall|i: int|
                    0 <= i < entries@.len() ==> {
                        &&& 0 <= #[trigger] origin[i] < it.index()
                        &&& entries@[i].slot == *it.seq()[origin[i]].0
                        &&& entries@[i].label@ == it.seq()[origin[i]].1.label@
                        &&& entries@[i].file_path@ == it.seq()[origin[i]].1.file_path@
                    },
                forall|j: int|
                    0 <= j < it.index() ==> holds_slot(entries@, *(#[trigger] it.seq()[j]).0),
        {
            let slot: i32 = *pair.0;
            let ghost n = it.index();
            let mut at: usize = 0;
            while at < entries.len() && entries[at].slot < slot
                invariant
                    at <= entries.len(),
                    forall|i: int| 0 <= i < at ==> entries@[i].slot < slot,
                decreases entries.len() - at,
            {
                at += 1;
            }
            proof {
                // The walk yields no pair twice, and a key has one value, so
                // the slot at hand is not among the entries yet.
                if at < entries.len() {
                    let j = origin[at as int];
                    assert(it.seq()[j] != it.seq()[n]);
                    assert(self.sounds@[*it.seq()[j].0] == *it.seq()[j].1);
                    assert(self.sounds@[*it.seq()[n].0] == *it.seq()[n].1);
                    assert(entries@[at as int].slot != slot);
                }
            }
            let ghost before = entries@;
            entries.insert(
                at,
                SoundInfo {
                    slot,
                    label: pair.1.label.clone(),
                    file_path: pair.1.file_path.clone(),
                },
            );
            proof {
                // Every slot that was listed before is listed still, at its
                // old place or one further on.
                origin = origin.insert(at as int, n);
                assert forall|j: int| 0 <= j <= n implies holds_slot(
                    entries@,
                    *(#[trigger] it.seq()[j]).0,
                ) by {
                    if j < n {
                        assert(holds_slot(before, *it.seq()[j].0));
                        let i = choose|i: int|
                            0 <= i < before.len() && before[i].slot == *it.seq()[j].0;
                        if i < at {
                            assert(entries@[i].slot == before[i].slot);
                        } else {
                            assert(entries@[i + 1].slot == before[i].slot);
                        }
                    } else {
                        assert(entries@[at as int].slot == slot);
                    }
                }
            }
        }
        proof {
            // The walk has yielded every pair of the map, so every slot of the
            // registry is listed, and every entry is a sound of the registry.
            let views = sound_views(entries@);
            let s = self.sounds.iter().remaining();
            assert forall|k: int| #[trigger] self@.contains_key(k) implies exists|i: int|
                0 <= i < views.len() && views[i].slot == k by {
                let key = k as i32;
                assert(self.sounds@.contains_key(key));
                assert(s.contains((&key, &self.sounds@[key])));
                let j = choose|j: int| 0 <= j < s.len() && s[j] == (&key, &self.sounds@[key]);
                assert(holds_slot(entries@, *s[j].0));
                let i = choose|i: int| 0 <= i < entries@.len() && entries@[i].slot == key;
                assert(views[i].slot == k);
            }
            assert forall|i: int| 0 <= i < views.len() implies self@.contains_key(
                #[trigger] views[i].slot,
            ) && self@[views[i].slot] == views[i] by {
                let j = origin[i];
                assert(self.sounds@.contains_key(*s[j].0));
                assert(self.sounds@[*s[j].0] == *s[j].1);
            }
        }
        entries
    }
}

} // verus!
