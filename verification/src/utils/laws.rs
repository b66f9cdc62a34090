//! What saving and loading the configuration guarantee, whatever else the
//! file holds.

use vstd::prelude::*;

use crate::comms::device_info::DeviceView;
use crate::utils::config::{
    assignment_entries, assignments_of, base_entries, find_key, key_of, lemma_find_key, put,
    rename_entries, rename_for, renames_of, section_entries, slot_list, slots_for, slots_of,
    with_section, ConfigView,
};

verus! {

/// What `put` does: the key then holds the value, every other key is found
/// where it was, with what it held.
pub proof fn lemma_put(entries: Seq<(Seq<char>, ConfigView)>, key: Seq<char>, value: ConfigView)
    ensures
        find_key(put(entries, key, value), key) matches Some(i) && put(entries, key, value)[i]
            == (key, value),
        forall|other: Seq<char>|
            other != key ==> #[trigger] find_key(put(entries, key, value), other) == find_key(
                entries,
                other,
            ),
        forall|i: int|
            0 <= i < entries.len() && (#[trigger] entries[i]).0 != key ==> put(
                entries,
                key,
                value,
            )[i] == entries[i],
        put(entries, key, value).len() >= entries.len(),
{
    let after = put(entries, key, value);
    lemma_find_key(entries, key);
    lemma_find_key(after, key);
    match find_key(entries, key) {
        Some(at) => {
            assert(after[at] == (key, value));
        },
        None => {},
    }
    assert forall|other: Seq<char>| other != key implies #[trigger] find_key(after, other)
        == find_key(entries, other) by {
        lemma_find_key(entries, other);
        lemma_find_key(after, other);
        match find_key(entries, other) {
            Some(i) => {
                assert(after[i].0 == other);
            },
            None => {},
        }
    }
}

/// A section that was set is the section that is read.
pub proof fn lemma_section_set_is_read(
    document: Option<ConfigView>,
    name: Seq<char>,
    entries: Seq<(Seq<char>, ConfigView)>,
)
    ensures
        section_entries(Some(with_section(document, name, entries)), name) == entries,
{
    lemma_put(base_entries(document), name, ConfigView::Table(entries));
}

/// Setting one section leaves every other section as it was.
pub proof fn lemma_sections_independent(
    document: Option<ConfigView>,
    name: Seq<char>,
    entries: Seq<(Seq<char>, ConfigView)>,
    other: Seq<char>,
)
    requires
        other != name,
    ensures
        section_entries(Some(with_section(document, name, entries)), other) == section_entries(
            document,
            other,
        ),
{
    let base = base_entries(document);
    lemma_put(base, name, ConfigView::Table(entries));
    lemma_find_key(base, other);
}

/// Two lists with the same keys, place by place, find a key at the same
/// place.
proof fn lemma_same_keys<A, B>(
    left: Seq<(Seq<char>, A)>,
    right: Seq<(Seq<char>, B)>,
    key: Seq<char>,
)
    requires
        left.len() == right.len(),
        forall|i: int| 0 <= i < left.len() ==> (#[trigger] left[i]).0 == right[i].0,
    ensures
        find_key(left, key) == find_key(right, key),
    decreases left.len(),
{
    if left.len() > 0 {
        let l = left.drop_last();
        let r = right.drop_last();
        lemma_same_keys(l, r, key);
    }
}

/// A section of nothing but lists is read out entry by entry.
proof fn lemma_assignments_of_lists(entries: Seq<(Seq<char>, ConfigView)>)
    requires
        forall|i: int| 0 <= i < entries.len() ==> (#[trigger] entries[i]).1 is List,
    ensures
        assignments_of(entries).len() == entries.len(),
        forall|i: int|
            0 <= i < entries.len() ==> #[trigger] assignments_of(entries)[i] == (
                entries[i].0,
                slots_of(entries[i].1->List_0),
            ),
    decreases entries.len(),
{
    if entries.len() > 0 {
        let front = entries.drop_last();
        lemma_assignments_of_lists(front);
    }
}

/// A section of nothing but texts is read out entry by entry.
proof fn lemma_renames_of_texts(entries: Seq<(Seq<char>, ConfigView)>)
    requires
        forall|i: int| 0 <= i < entries.len() ==> (#[trigger] entries[i]).1 is Text,
    ensures
        renames_of(entries).len() == entries.len(),
        forall|i: int|
            0 <= i < entries.len() ==> #[trigger] renames_of(entries)[i] == (
                entries[i].0,
                entries[i].1->Text_0,
            ),
    decreases entries.len(),
{
    if entries.len() > 0 {
        let front = entries.drop_last();
        lemma_renames_of_texts(front);
    }
}

/// What the section of channel assignments holds for a device after which
/// no device with the same UUID follows: a list of its five channels, and
/// nothing but lists beside it.
proof fn lemma_assignment_entries(devices: Seq<DeviceView>, at: int)
    requires
        0 <= at < devices.len(),
        forall|j: int| at < j < devices.len() ==> key_of(#[trigger] devices[j]) != key_of(devices[at]),
    ensures
        find_key(assignment_entries(devices), key_of(devices[at])) matches Some(i)
            && assignment_entries(devices)[i].1 == slot_list(devices[at].channel_assignments),
        forall|i: int|
            0 <= i < assignment_entries(devices).len() ==> (#[trigger] assignment_entries(
                devices,
            )[i]).1 is List,
    decreases devices.len(),
{
    let front = devices.drop_last();
    let last = devices.last();
    let before = assignment_entries(front);
    lemma_all_lists(front);
    lemma_put(before, key_of(last), slot_list(last.channel_assignments));
    lemma_all_lists(devices);
    if at < devices.len() - 1 {
        lemma_assignment_entries(front, at);
        lemma_find_key(before, key_of(devices[at]));
    }
}

/// The section of channel assignments holds nothing but lists.
proof fn lemma_all_lists(devices: Seq<DeviceView>)
    ensures
        forall|i: int|
            0 <= i < assignment_entries(devices).len() ==> (#[trigger] assignment_entries(
                devices,
            )[i]).1 is List,
    decreases devices.len(),
{
    if devices.len() > 0 {
        let front = devices.drop_last();
        let last = devices.last();
        let before = assignment_entries(front);
        lemma_all_lists(front);
        lemma_find_key(before, key_of(last));
    }
}

/// The section of names holds nothing but texts.
proof fn lemma_all_texts(devices: Seq<DeviceView>)
    ensures
        forall|i: int|
            0 <= i < rename_entries(devices).len() ==> (#[trigger] rename_entries(devices)[i]).1
                is Text,
    decreases devices.len(),
{
    if devices.len() > 0 {
        let front = devices.drop_last();
        let last = devices.last();
        let before = rename_entries(front);
        lemma_all_texts(front);
        lemma_find_key(before, key_of(last));
    }
}

/// What the section of names holds for a device whose UUID no other device
/// has: its name, or no entry if it has none.
proof fn lemma_rename_entries(devices: Seq<DeviceView>, at: int)
    requires
        0 <= at < devices.len(),
        forall|j: int|
            0 <= j < devices.len() && j != at ==> key_of(#[trigger] devices[j]) != key_of(
                devices[at],
            ),
    ensures
        match devices[at].rename {
            Some(name) => find_key(rename_entries(devices), key_of(devices[at])) matches Some(i)
                && rename_entries(devices)[i].1 == ConfigView::Text(name),
            None => find_key(rename_entries(devices), key_of(devices[at])) is None,
        },
    decreases devices.len(),
{
    lemma_key_absent_before(devices, at, at);
    lemma_rename_entries_after(devices, at, devices.len() as int);
    assert(devices.take(devices.len() as int) =~= devices);
}

/// Before a device's turn, no entry of the section of names has its UUID,
/// if no device before it has.
proof fn lemma_key_absent_before(devices: Seq<DeviceView>, at: int, upto: int)
    requires
        0 <= upto <= at < devices.len(),
        forall|j: int|
            0 <= j < devices.len() && j != at ==> key_of(#[trigger] devices[j]) != key_of(
                devices[at],
            ),
    ensures
        find_key(rename_entries(devices.take(upto)), key_of(devices[at])) is None,
    decreases upto,
{
    if upto > 0 {
        lemma_key_absent_before(devices, at, upto - 1);
        let taken = devices.take(upto);
        assert(taken.drop_last() =~= devices.take(upto - 1));
        let before = rename_entries(devices.take(upto - 1));
        match taken.last().rename {
            Some(name) => {
                lemma_put(before, key_of(taken.last()), ConfigView::Text(name));
            },
            None => {},
        }
    }
}

/// From a device's turn on, the section of names holds its name under its
/// UUID, or no entry if it has none, if no other device has the UUID.
proof fn lemma_rename_entries_after(devices: Seq<DeviceView>, at: int, upto: int)
    requires
        0 <= at < upto <= devices.len(),
        forall|j: int|
            0 <= j < devices.len() && j != at ==> key_of(#[trigger] devices[j]) != key_of(
                devices[at],
            ),
    ensures
        match devices[at].rename {
            Some(name) => find_key(rename_entries(devices.take(upto)), key_of(devices[at]))
                matches Some(i) && rename_entries(devices.take(upto))[i].1 == ConfigView::Text(
                name,
            ),
            None => find_key(rename_entries(devices.take(upto)), key_of(devices[at])) is None,
        },
    decreases upto,
{
    let key = key_of(devices[at]);
    let taken = devices.take(upto);
    assert(taken.drop_last() =~= devices.take(upto - 1));
    let before = rename_entries(devices.take(upto - 1));
    if upto == at + 1 {
        lemma_key_absent_before(devices, at, at);
        match devices[at].rename {
            Some(name) => {
                lemma_put(before, key, ConfigView::Text(name));
            },
            None => {},
        }
    } else {
        lemma_rename_entries_after(devices, at, upto - 1);
        match taken.last().rename {
            Some(name) => {
                lemma_put(before, key_of(taken.last()), ConfigView::Text(name));
                lemma_find_key(before, key);
            },
            None => {},
        }
    }
}

/// Saving the channel assignments of some devices into a document and
/// reading them out of it again gives, for a device after which no device
/// with the same UUID follows, the device's five channels as they were,
/// unassigned ones too.
pub proof fn lemma_assignments_round_trip(
    document: Option<ConfigView>,
    devices: Seq<DeviceView>,
    at: int,
)
    requires
        0 <= at < devices.len(),
        devices[at].channel_assignments.len() == 5,
        forall|j: int| at < j < devices.len() ==> key_of(#[trigger] devices[j]) != key_of(devices[at]),
    ensures
        slots_for(
            assignments_of(
                section_entries(
                    Some(with_section(document, "assignments"@, assignment_entries(devices))),
                    "assignments"@,
                ),
            ),
            key_of(devices[at]),
        ) == devices[at].channel_assignments,
{
    let entries = assignment_entries(devices);
    let key = key_of(devices[at]);
    lemma_section_set_is_read(document, "assignments"@, entries);
    lemma_assignment_entries(devices, at);
    lemma_assignments_of_lists(entries);
    lemma_same_keys(assignments_of(entries), entries, key);
    lemma_find_key(entries, key);
}

/// Saving the names of some devices into a document and reading them out of
/// it again gives, for a device whose UUID no other device has, the
/// device's name as it was, or none if it had none.
pub proof fn lemma_renames_round_trip(
    document: Option<ConfigView>,
    devices: Seq<DeviceView>,
    at: int,
)
    requires
        0 <= at < devices.len(),
        forall|j: int|
            0 <= j < devices.len() && j != at ==> key_of(#[trigger] devices[j]) != key_of(
                devices[at],
            ),
    ensures
        rename_for(
            renames_of(
                section_entries(
                    Some(with_section(document, "renames"@, rename_entries(devices))),
                    "renames"@,
                ),
            ),
            key_of(devices[at]),
        ) == devices[at].rename,
{
    let entries = rename_entries(devices);
    let key = key_of(devices[at]);
    lemma_section_set_is_read(document, "renames"@, entries);
    lemma_rename_entries(devices, at);
    lemma_all_texts(devices);
    lemma_renames_of_texts(entries);
    lemma_same_keys(renames_of(entries), entries, key);
    lemma_find_key(entries, key);
}

} // verus!
