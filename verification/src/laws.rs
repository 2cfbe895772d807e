//! What holds of the registry's operations taken together.
//!
//! Each law is stated over the functions that the operations' own contracts
//! are stated over: `after_register`, `register_result`, `lookup_result`,
//! `lists` and the removal of a key from the registry's map.

use crate::registry::{after_register, lists, lookup_result, register_result, sound};
use crate::report::{check_failure, empty_slot_failure, FileCheck, ProbeOutcome};
use crate::sound::{ErrorKind, ErrorView, SoundView};
use vstd::prelude::*;

verus! {

/// A sound that was registered is listed, once, and as it was registered.
pub proof fn lemma_registered_sound_is_listed(
    registry: Map<int, SoundView>,
    slot: int,
    label: Seq<char>,
    file_path: Seq<char>,
    check: FileCheck,
    entries: Seq<SoundView>,
)
    requires
        check_failure(file_path, check) is None,
        lists(entries, after_register(registry, slot, label, file_path, check)),
    ensures
        register_result(slot, label, file_path, check) == Ok::<SoundView, ErrorView>(
            sound(slot, label, file_path),
        ),
        exists|i: int| 0 <= i < entries.len() && entries[i] == sound(slot, label, file_path),
        forall|i: int|
            0 <= i < entries.len() && (#[trigger] entries[i]).slot == slot ==> entries[i] == sound(
                slot,
                label,
                file_path,
            ),
        forall|i: int, j: int|
            0 <= i < entries.len() && 0 <= j < entries.len() && entries[i].slot == slot
                && entries[j].slot == slot ==> i == j,
{
    let after = after_register(registry, slot, label, file_path, check);
    assert(after.contains_key(slot));
    let at = choose|i: int| 0 <= i < entries.len() && entries[i].slot == slot;
    assert(after[entries[at].slot] == entries[at]);
    assert forall|i: int|
        0 <= i < entries.len() && (#[trigger] entries[i]).slot == slot implies entries[i] == sound(
        slot,
        label,
        file_path,
    ) by {
        assert(after[entries[i].slot] == entries[i]);
    }
    assert forall|i: int, j: int|
        0 <= i < entries.len() && 0 <= j < entries.len() && entries[i].slot == slot
            && entries[j].slot == slot implies i == j by {
        if i < j {
            assert(entries[i].slot < entries[j].slot);
        } else if j < i {
            assert(entries[j].slot < entries[i].slot);
        }
    }
}

/// Two lists of one registry agree on the slots of their first `n` entries.
proof fn lemma_lists_agree_up_to(
    a: Seq<SoundView>,
    b: Seq<SoundView>,
    registry: Map<int, SoundView>,
    n: int,
)
    requires
        lists(a, registry),
        lists(b, registry),
        0 <= n <= a.len(),
        n <= b.len(),
    ensures
        forall|i: int| 0 <= i < n ==> a[i].slot == b[i].slot,
    decreases n,
{
    if n > 0 {
        lemma_lists_agree_up_to(a, b, registry, n - 1);
        let i = n - 1;
        assert(registry.contains_key(a[i].slot));
        let in_b = choose|j: int| 0 <= j < b.len() && b[j].slot == a[i].slot;
        if in_b < i {
            assert(a[in_b].slot < a[i].slot);
        }
        assert(registry.contains_key(b[i].slot));
        let in_a = choose|j: int| 0 <= j < a.len() && a[j].slot == b[i].slot;
        if in_a < i {
            assert(b[in_a].slot < b[i].slot);
        }
        if i < in_b {
            assert(b[i].slot < b[in_b].slot);
        }
        if i < in_a {
            assert(a[i].slot < a[in_a].slot);
        }
    }
}

/// A list of `a`'s registry is no longer than another list of it.
proof fn lemma_list_is_no_longer(a: Seq<SoundView>, b: Seq<SoundView>, registry: Map<int, SoundView>)
    requires
        lists(a, registry),
        lists(b, registry),
    ensures
        a.len() <= b.len(),
{
    if a.len() > b.len() {
        lemma_lists_agree_up_to(a, b, registry, b.len() as int);
        let extra = b.len() as int;
        assert(registry.contains_key(a[extra].slot));
        let in_b = choose|j: int| 0 <= j < b.len() && b[j].slot == a[extra].slot;
        assert(a[in_b].slot < a[extra].slot);
    }
}

/// The list of a registry depends on nothing but the sounds that it holds:
/// in whatever order they were registered, they are listed in one way only.
pub proof fn lemma_list_is_determined(
    a: Seq<SoundView>,
    b: Seq<SoundView>,
    registry: Map<int, SoundView>,
)
    requires
        lists(a, registry),
        lists(b, registry),
    ensures
        a == b,
{
    lemma_list_is_no_longer(a, b, registry);
    lemma_list_is_no_longer(b, a, registry);
    lemma_lists_agree_up_to(a, b, registry, a.len() as int);
    assert forall|i: int| 0 <= i < a.len() implies a[i] == b[i] by {
        assert(registry[a[i].slot] == a[i]);
        assert(registry[b[i].slot] == b[i]);
    }
    assert(a =~= b);
}

/// A list has one entry for each slot that holds a sound, and no other.
pub proof fn lemma_list_has_one_entry_per_slot(
    entries: Seq<SoundView>,
    registry: Map<int, SoundView>,
)
    requires
        lists(entries, registry),
    ensures
        registry.dom().finite(),
        entries.len() == registry.dom().len(),
{
    let slots = Seq::new(entries.len(), |i: int| entries[i].slot);
    assert(slots.no_duplicates()) by {
        assert forall|i: int, j: int|
            0 <= i < slots.len() && 0 <= j < slots.len() && i != j implies slots[i]
            != slots[j] by {
            if i < j {
                assert(entries[i].slot < entries[j].slot);
            } else {
                assert(entries[j].slot < entries[i].slot);
            }
        }
    }
    assert(slots.to_set() =~= registry.dom()) by {
        assert forall|k: int| registry.dom().contains(k) implies slots.to_set().contains(k) by {
            assert(registry.contains_key(k));
            let i = choose|i: int| 0 <= i < entries.len() && entries[i].slot == k;
            assert(slots[i] == k);
        }
        assert forall|k: int| slots.to_set().contains(k) implies registry.dom().contains(k) by {
            let i = choose|i: int| 0 <= i < slots.len() && slots[i] == k;
            assert(registry.contains_key(entries[i].slot));
        }
    }
    vstd::seq_lib::seq_to_set_is_finite(slots);
    slots.unique_seq_to_set();
}

/// A registration that fails leaves the registry as it was.
pub proof fn lemma_failed_registration_keeps_registry(
    registry: Map<int, SoundView>,
    slot: int,
    label: Seq<char>,
    file_path: Seq<char>,
    check: FileCheck,
)
    requires
        register_result(slot, label, file_path, check) is Err,
    ensures
        after_register(registry, slot, label, file_path, check) == registry,
{
}

/// The registration of a path that does not exist fails as not found, and
/// leaves the registry, and so its list, as it was.
pub proof fn lemma_missing_file_is_rejected(
    registry: Map<int, SoundView>,
    slot: int,
    label: Seq<char>,
    file_path: Seq<char>,
)
    ensures
        register_result(slot, label, file_path, FileCheck::Missing) is Err,
        register_result(slot, label, file_path, FileCheck::Missing)->Err_0.kind
            == ErrorKind::FileNotFound,
        after_register(registry, slot, label, file_path, FileCheck::Missing) == registry,
{
}

/// The registration of a file that exists and cannot be opened or decoded
/// fails as an unsupported format, and leaves the registry as it was.
pub proof fn lemma_undecodable_file_is_rejected(
    registry: Map<int, SoundView>,
    slot: int,
    label: Seq<char>,
    file_path: Seq<char>,
    outcome: ProbeOutcome,
)
    requires
        outcome is OpenFailed || outcome is DecodeFailed,
    ensures
        register_result(slot, label, file_path, FileCheck::Probed(outcome)) is Err,
        register_result(slot, label, file_path, FileCheck::Probed(outcome))->Err_0.kind
            == ErrorKind::UnsupportedFormat,
        after_register(registry, slot, label, file_path, FileCheck::Probed(outcome)) == registry,
{
}

/// Of two registrations of one slot the second replaces the first: the
/// registry is as if the first had not been made.
pub proof fn lemma_second_registration_replaces_first(
    registry: Map<int, SoundView>,
    slot: int,
    first_label: Seq<char>,
    first_path: Seq<char>,
    first_check: FileCheck,
    label: Seq<char>,
    file_path: Seq<char>,
    check: FileCheck,
)
    requires
        check_failure(file_path, check) is None,
    ensures
        ({
            let once = after_register(registry, slot, first_label, first_path, first_check);
            let twice = after_register(once, slot, label, file_path, check);
            &&& twice == after_register(registry, slot, label, file_path, check)
            &&& lookup_result(twice, slot) == Ok::<SoundView, ErrorView>(sound(slot, label, file_path))
        }),
{
    let once = after_register(registry, slot, first_label, first_path, first_check);
    let twice = after_register(once, slot, label, file_path, check);
    assert(twice =~= after_register(registry, slot, label, file_path, check));
}

/// A registration leaves every other slot as it was.
pub proof fn lemma_registration_keeps_other_slots(
    registry: Map<int, SoundView>,
    slot: int,
    label: Seq<char>,
    file_path: Seq<char>,
    check: FileCheck,
    other: int,
)
    requires
        other != slot,
    ensures
        lookup_result(after_register(registry, slot, label, file_path, check), other)
            == lookup_result(registry, other),
{
}

/// The removal of a slot that holds no sound changes nothing.
pub proof fn lemma_remove_of_empty_slot_keeps_registry(registry: Map<int, SoundView>, slot: int)
    requires
        !registry.contains_key(slot),
    ensures
        registry.remove(slot) == registry,
{
    assert(registry.remove(slot) =~= registry);
}

/// After its removal a slot holds no sound, and every other slot is as it was.
pub proof fn lemma_removed_slot_is_empty(registry: Map<int, SoundView>, slot: int, other: int)
    requires
        other != slot,
    ensures
        lookup_result(registry.remove(slot), slot) == Err::<SoundView, ErrorView>(empty_slot_failure(slot)),
        lookup_result(registry.remove(slot), other) == lookup_result(registry, other),
{
}

/// A slot that holds no sound is not played: its lookup fails as empty, and
/// so hands no file out to decode.
pub proof fn lemma_empty_slot_is_not_played(registry: Map<int, SoundView>, slot: int)
    requires
        !registry.contains_key(slot),
    ensures
        lookup_result(registry, slot) is Err,
        lookup_result(registry, slot)->Err_0.kind == ErrorKind::SlotEmpty,
{
}

/// Registrations on two slots give one registry in whichever order they take
/// effect, and it holds both sounds.
pub proof fn lemma_registrations_of_two_slots_commute(
    registry: Map<int, SoundView>,
    slot: int,
    label: Seq<char>,
    file_path: Seq<char>,
    check: FileCheck,
    other_slot: int,
    other_label: Seq<char>,
    other_path: Seq<char>,
    other_check: FileCheck,
)
    requires
        slot != other_slot,
    ensures
        ({
            let one = after_register(registry, slot, label, file_path, check);
            let other = after_register(registry, other_slot, other_label, other_path, other_check);
            let one_then_other = after_register(
                one,
                other_slot,
                other_label,
                other_path,
                other_check,
            );
            let other_then_one = after_register(other, slot, label, file_path, check);
            &&& one_then_other == other_then_one
            &&& check_failure(file_path, check) is None ==> lookup_result(one_then_other, slot)
                == Ok::<SoundView, ErrorView>(sound(slot, label, file_path))
            &&& check_failure(other_path, other_check) is None ==> lookup_result(
                one_then_other,
                other_slot,
            ) == Ok::<SoundView, ErrorView>(sound(other_slot, other_label, other_path))
        }),
{
    let one = after_register(registry, slot, label, file_path, check);
    let other = after_register(registry, other_slot, other_label, other_path, other_check);
    let one_then_other = after_register(one, other_slot, other_label, other_path, other_check);
    let other_then_one = after_register(other, slot, label, file_path, check);
    assert(one_then_other =~= other_then_one);
}

/// Two registrations on one slot leave it with the whole of one of the two
/// sounds, in whichever order they take effect.
pub proof fn lemma_registrations_of_one_slot_have_a_winner(
    registry: Map<int, SoundView>,
    slot: int,
    label: Seq<char>,
    file_path: Seq<char>,
    check: FileCheck,
    other_label: Seq<char>,
    other_path: Seq<char>,
    other_check: FileCheck,
)
    requires
        check_failure(file_path, check) is None,
        check_failure(other_path, other_check) is None,
    ensures
        ({
            let one = after_register(registry, slot, label, file_path, check);
            let other = after_register(registry, slot, other_label, other_path, other_check);
            let one_then_other = after_register(one, slot, other_label, other_path, other_check);
            let other_then_one = after_register(other, slot, label, file_path, check);
            &&& lookup_result(one_then_other, slot) == Ok::<SoundView, ErrorView>(
                sound(slot, other_label, other_path),
            )
            &&& lookup_result(other_then_one, slot) == Ok::<SoundView, ErrorView>(
                sound(slot, label, file_path),
            )
            &&& one_then_other.remove(slot) == registry.remove(slot)
            &&& other_then_one.remove(slot) == registry.remove(slot)
        }),
{
    let one = after_register(registry, slot, label, file_path, check);
    let other = after_register(registry, slot, other_label, other_path, other_check);
    let one_then_other = after_register(one, slot, other_label, other_path, other_check);
    let other_then_one = after_register(other, slot, label, file_path, check);
    assert(one_then_other.remove(slot) =~= registry.remove(slot));
    assert(other_then_one.remove(slot) =~= registry.remove(slot));
}

} // verus!
