//! What the merge policy guarantees, whatever the enumeration and the
//! notifications hold.

use vstd::prelude::*;

use super::backend::AudioUpdate;
use super::reconcile::{
    after_notifications, after_snapshot, elapsed_since, has_id, ids_distinct, is_echo,
    last_volume, lemma_lookup, listed_in, local_volume_written, lookup, merge_all, merge_one,
    notified, settled,
};
use super::session::{AudioSession, Millis};
use super::tracker::{
    names_distinct, not_shown_in, offered, registered, registry_after, released_after, shown,
    shown_in, RegistryEntry,
};
use vstd::multiset::Multiset;
use vstd::seq_lib::{lemma_multiset_commutative, to_multiset_build};

verus! {

/// The place of the last session with this key.
pub open spec fn last_with_id(sessions: Seq<AudioSession>, id: Seq<char>) -> Option<int>
    decreases sessions.len(),
{
    if sessions.len() == 0 {
        None
    } else if sessions.last().id@ == id {
        Some(sessions.len() - 1)
    } else {
        last_with_id(sessions.drop_last(), id)
    }
}

/// The last session with a key is listed, and only a listed key has one.
proof fn lemma_last_with_id(sessions: Seq<AudioSession>, id: Seq<char>)
    ensures
        match last_with_id(sessions, id) {
            Some(k) => 0 <= k < sessions.len() && sessions[k].id@ == id,
            None => !has_id(sessions, id),
        },
    decreases sessions.len(),
{
    if sessions.len() > 0 && sessions.last().id@ != id {
        let front = sessions.drop_last();
        lemma_last_with_id(front, id);
        match last_with_id(front, id) {
            Some(k) => {},
            None => {
                if has_id(sessions, id) {
                    let i = choose|i: int| 0 <= i < sessions.len() && #[trigger] sessions[i].id@
                        == id;
                    assert(front[i].id@ == id);
                }
            },
        }
    }
}

/// In a list without repeated keys, the session found under a key stands
/// where `lookup` says.
proof fn lemma_lookup_unique(sessions: Seq<AudioSession>, at: int)
    requires
        ids_distinct(sessions),
        0 <= at < sessions.len(),
    ensures
        lookup(sessions, sessions[at].id@) == Some(at),
{
    lemma_lookup(sessions, sessions[at].id@);
}

/// What one entry of an enumeration changes.
proof fn lemma_merge_one(sessions: Seq<AudioSession>, seen: AudioSession, now: Millis)
    requires
        ids_distinct(sessions),
    ensures
        ids_distinct(merge_one(sessions, seen, now)),
        merge_one(sessions, seen, now).len() >= sessions.len(),
        forall|i: int|
            0 <= i < sessions.len() ==> {
                let before = #[trigger] sessions[i];
                let after = merge_one(sessions, seen, now)[i];
                &&& after.id == before.id
                &&& after.last_local_change == before.last_local_change
                &&& after.last_external_change == before.last_external_change
                &&& before.id@ != seen.id@ ==> after == before
                &&& before.id@ == seen.id@ && !settled(before, now) ==> after.volume
                    == before.volume && after.is_muted == before.is_muted
                &&& before.id@ == seen.id@ && settled(before, now) ==> after.volume == seen.volume
                    && after.is_muted == seen.is_muted
            },
        forall|id: Seq<char>|
            has_id(merge_one(sessions, seen, now), id) <==> has_id(sessions, id) || id == seen.id@,
{
    let merged = merge_one(sessions, seen, now);
    lemma_lookup(sessions, seen.id@);
    match lookup(sessions, seen.id@) {
        Some(at) => {
            assert forall|i: int, j: int| 0 <= i < j < merged.len() implies #[trigger] merged[i].id@
                != #[trigger] merged[j].id@ by {
                assert(sessions[i].id@ != sessions[j].id@);
            }
            assert forall|i: int| 0 <= i < sessions.len() implies {
                let before = #[trigger] sessions[i];
                let after = merged[i];
                &&& before.id@ != seen.id@ ==> after == before
            } by {
                if i != at && sessions[i].id@ == seen.id@ {
                    if i < at {
                        assert(sessions[i].id@ != sessions[at].id@);
                    } else {
                        assert(sessions[at].id@ != sessions[i].id@);
                    }
                }
            }
            assert forall|id: Seq<char>| has_id(merged, id) <==> has_id(sessions, id) || id
                == seen.id@ by {
                if has_id(merged, id) {
                    let i = choose|i: int| 0 <= i < merged.len() && #[trigger] merged[i].id@ == id;
                    assert(sessions[i].id@ == id);
                }
                if has_id(sessions, id) {
                    let i = choose|i: int|
                        0 <= i < sessions.len() && #[trigger] sessions[i].id@ == id;
                    assert(merged[i].id@ == id);
                }
                if id == seen.id@ {
                    assert(merged[at].id@ == id);
                }
            }
        },
        None => {
            assert forall|i: int, j: int| 0 <= i < j < merged.len() implies #[trigger] merged[i].id@
                != #[trigger] merged[j].id@ by {
                if j < sessions.len() {
                    assert(sessions[i].id@ != sessions[j].id@);
                } else {
                    assert(sessions[i].id@ != seen.id@);
                }
            }
            assert forall|id: Seq<char>| has_id(merged, id) <==> has_id(sessions, id) || id
                == seen.id@ by {
                if has_id(merged, id) {
                    let i = choose|i: int| 0 <= i < merged.len() && #[trigger] merged[i].id@ == id;
                    if i < sessions.len() {
                        assert(sessions[i].id@ == id);
                    }
                }
                if has_id(sessions, id) {
                    let i = choose|i: int|
                        0 <= i < sessions.len() && #[trigger] sessions[i].id@ == id;
                    assert(merged[i].id@ == id);
                }
                if id == seen.id@ {
                    assert(merged[sessions.len() as int].id@ == id);
                }
            }
        },
    }
}

/// What the entries of an enumeration change, all together: sessions keep
/// their places, keys and moments of change; one that has not settled keeps
/// its volume and mute state, and one that has takes those of the last entry
/// that lists it.
proof fn lemma_merge_all(sessions: Seq<AudioSession>, snapshot: Seq<AudioSession>, now: Millis)
    requires
        ids_distinct(sessions),
    ensures
        ids_distinct(merge_all(sessions, snapshot, now)),
        merge_all(sessions, snapshot, now).len() >= sessions.len(),
        forall|i: int|
            0 <= i < sessions.len() ==> {
                let before = #[trigger] sessions[i];
                let after = merge_all(sessions, snapshot, now)[i];
                &&& after.id == before.id
                &&& after.last_local_change == before.last_local_change
                &&& after.last_external_change == before.last_external_change
                &&& !settled(before, now) ==> after.volume == before.volume && after.is_muted
                    == before.is_muted
                &&& settled(before, now) ==> match last_with_id(snapshot, before.id@) {
                    Some(k) => after.volume == snapshot[k].volume && after.is_muted
                        == snapshot[k].is_muted,
                    None => after == before,
                }
            },
        forall|id: Seq<char>|
            has_id(merge_all(sessions, snapshot, now), id) <==> has_id(sessions, id) || has_id(
                snapshot,
                id,
            ),
    decreases snapshot.len(),
{
    if snapshot.len() > 0 {
        let front = snapshot.drop_last();
        let seen = snapshot.last();
        let partly = merge_all(sessions, front, now);
        let merged = merge_all(sessions, snapshot, now);
        lemma_merge_all(sessions, front, now);
        lemma_merge_one(partly, seen, now);
        assert forall|i: int| 0 <= i < sessions.len() implies {
            let before = #[trigger] sessions[i];
            let after = merged[i];
            &&& after.id == before.id
            &&& after.last_local_change == before.last_local_change
            &&& after.last_external_change == before.last_external_change
            &&& !settled(before, now) ==> after.volume == before.volume && after.is_muted
                == before.is_muted
            &&& settled(before, now) ==> match last_with_id(snapshot, before.id@) {
                Some(k) => after.volume == snapshot[k].volume && after.is_muted
                    == snapshot[k].is_muted,
                None => after == before,
            }
        } by {
            let middle = partly[i];
            assert(middle.id == sessions[i].id);
            assert(settled(middle, now) == settled(sessions[i], now));
            match last_with_id(front, sessions[i].id@) {
                Some(k) => {
                    lemma_last_with_id(front, sessions[i].id@);
                    assert(front[k] == snapshot[k]);
                },
                None => {},
            }
        }
        assert forall|id: Seq<char>| has_id(merged, id) <==> has_id(sessions, id) || has_id(
            snapshot,
            id,
        ) by {
            if has_id(snapshot, id) {
                let i = choose|i: int| 0 <= i < snapshot.len() && #[trigger] snapshot[i].id@ == id;
                if i < front.len() {
                    assert(front[i].id@ == id);
                }
            }
            if has_id(front, id) {
                let i = choose|i: int| 0 <= i < front.len() && #[trigger] front[i].id@ == id;
                assert(snapshot[i].id@ == id);
            }
            if id == seen.id@ {
                assert(snapshot[snapshot.len() - 1].id@ == id);
            }
        }
    } else {
        assert forall|i: int| 0 <= i < sessions.len() implies last_with_id(
            snapshot,
            (#[trigger] sessions[i]).id@,
        ) is None by {}
    }
}

/// Dropping sessions from a list without repeated keys leaves none twice.
proof fn lemma_kept_distinct(merged: Seq<AudioSession>, keep: spec_fn(AudioSession) -> bool)
    requires
        ids_distinct(merged),
    ensures
        ids_distinct(merged.filter(keep)),
    decreases merged.len(),
{
    let kept = merged.filter(keep);
    if merged.len() > 0 {
        let front = merged.drop_last();
        let last = merged.last();
        let front_kept = front.filter(keep);
        assert(kept == if keep(last) {
            front_kept.push(last)
        } else {
            front_kept
        }) by {
            reveal(Seq::filter);
        }
        assert(ids_distinct(front)) by {
            assert forall|i: int, j: int| 0 <= i < j < front.len() implies #[trigger] front[i].id@
                != #[trigger] front[j].id@ by {
                assert(merged[i].id@ != merged[j].id@);
            }
        }
        lemma_kept_distinct(front, keep);
        if keep(last) {
            assert forall|i: int, j: int| 0 <= i < j < kept.len() implies #[trigger] kept[i].id@
                != #[trigger] kept[j].id@ by {
                if j < front_kept.len() {
                    assert(front_kept[i].id@ != front_kept[j].id@);
                } else {
                    assert(front_kept.contains(front_kept[i]));
                    front.lemma_filter_contains_rev(keep, front_kept[i]);
                    let from = choose|k: int| 0 <= k < front.len() && front[k] == front_kept[i];
                    assert(merged[from].id@ != merged[merged.len() - 1].id@);
                }
            }
        }
    } else {
        assert(kept.len() == 0) by {
            reveal(Seq::filter);
        }
    }
}

/// Dropping the sessions that an enumeration does not list keeps the
/// others, each once.
proof fn lemma_listed_kept(merged: Seq<AudioSession>, snapshot: Seq<AudioSession>)
    requires
        ids_distinct(merged),
    ensures
        ids_distinct(merged.filter(listed_in(snapshot))),
        forall|id: Seq<char>|
            has_id(merged.filter(listed_in(snapshot)), id) <==> has_id(merged, id) && has_id(
                snapshot,
                id,
            ),
        forall|i: int|
            0 <= i < merged.len() && has_id(snapshot, (#[trigger] merged[i]).id@)
                ==> merged.filter(listed_in(snapshot)).contains(merged[i]),
{
    let keep = listed_in(snapshot);
    let kept = merged.filter(keep);
    lemma_kept_distinct(merged, keep);
    assert forall|i: int|
        0 <= i < merged.len() && has_id(snapshot, (#[trigger] merged[i]).id@) implies kept.contains(
        merged[i],
    ) by {
        merged.lemma_filter_contains(keep, i);
    }
    assert forall|id: Seq<char>| has_id(kept, id) <==> has_id(merged, id) && has_id(
        snapshot,
        id,
    ) by {
        if has_id(kept, id) {
            let j = choose|j: int| 0 <= j < kept.len() && #[trigger] kept[j].id@ == id;
            merged.lemma_filter_pred(keep, j);
            merged.lemma_filter_contains_rev(keep, kept[j]);
        }
    }
}

/// After an enumeration the sessions listed are those that the enumeration
/// lists, no more and no fewer, and none twice.
pub proof fn lemma_snapshot_decides_membership(
    sessions: Seq<AudioSession>,
    snapshot: Seq<AudioSession>,
    now: Millis,
)
    requires
        ids_distinct(sessions),
    ensures
        ids_distinct(after_snapshot(sessions, snapshot, now)),
        forall|id: Seq<char>|
            has_id(after_snapshot(sessions, snapshot, now), id) <==> has_id(snapshot, id),
{
    lemma_merge_all(sessions, snapshot, now);
    lemma_listed_kept(merge_all(sessions, snapshot, now), snapshot);
}

/// What an enumeration makes of a session that was listed before and is
/// listed by the enumeration: it stays, with its moments of change; its
/// volume and mute state stay too unless it has settled, and are those of the
/// last entry that lists it if it has.
pub proof fn lemma_snapshot_on_listed(
    sessions: Seq<AudioSession>,
    snapshot: Seq<AudioSession>,
    now: Millis,
    at: int,
)
    requires
        ids_distinct(sessions),
        0 <= at < sessions.len(),
        has_id(snapshot, sessions[at].id@),
    ensures
        lookup(after_snapshot(sessions, snapshot, now), sessions[at].id@) is Some,
        last_with_id(snapshot, sessions[at].id@) is Some,
        ({
            let before = sessions[at];
            let result = after_snapshot(sessions, snapshot, now);
            let after = result[lookup(result, before.id@).unwrap()];
            let seen = snapshot[last_with_id(snapshot, before.id@).unwrap()];
            &&& after.id == before.id
            &&& after.last_local_change == before.last_local_change
            &&& after.last_external_change == before.last_external_change
            &&& !settled(before, now) ==> after.volume == before.volume && after.is_muted
                == before.is_muted
            &&& settled(before, now) ==> after.volume == seen.volume && after.is_muted
                == seen.is_muted
        }),
{
    let before = sessions[at];
    let merged = merge_all(sessions, snapshot, now);
    let result = after_snapshot(sessions, snapshot, now);
    lemma_merge_all(sessions, snapshot, now);
    lemma_listed_kept(merged, snapshot);
    lemma_last_with_id(snapshot, before.id@);
    let j = choose|j: int| 0 <= j < result.len() && result[j] == merged[at];
    lemma_lookup_unique(result, j);
}

/// An enumeration that arrives no more than 100 ms after the user set a
/// session's volume leaves that volume in place, whatever the enumeration
/// holds for the session.
pub proof fn lemma_snapshot_spares_recent_write(
    sessions: Seq<AudioSession>,
    id: Seq<char>,
    volume: u16,
    written_at: Millis,
    snapshot: Seq<AudioSession>,
    now: Millis,
)
    requires
        ids_distinct(sessions),
        has_id(sessions, id),
        has_id(snapshot, id),
        elapsed_since(written_at, now) <= 100,
    ensures
        ({
            let written = local_volume_written(sessions, id, volume, written_at);
            let result = after_snapshot(written, snapshot, now);
            lookup(result, id) matches Some(j) && result[j].volume == volume
                && result[j].last_local_change == Some(written_at)
        }),
{
    lemma_lookup(sessions, id);
    let at = lookup(sessions, id).unwrap();
    let written = local_volume_written(sessions, id, volume, written_at);
    assert(ids_distinct(written)) by {
        assert forall|i: int, j: int| 0 <= i < j < written.len() implies #[trigger] written[i].id@
            != #[trigger] written[j].id@ by {
            assert(sessions[i].id@ != sessions[j].id@);
        }
    }
    assert(written[at].id@ == id);
    lemma_snapshot_on_listed(written, snapshot, now, at);
}

/// An enumeration that arrives more than 100 ms after the user set a
/// session's volume, and more than 500 ms after the last notified change of
/// the session if there was one, replaces the volume by the one that the
/// enumeration holds for the session.
pub proof fn lemma_snapshot_overrides_settled_write(
    sessions: Seq<AudioSession>,
    id: Seq<char>,
    volume: u16,
    written_at: Millis,
    snapshot: Seq<AudioSession>,
    now: Millis,
)
    requires
        ids_distinct(sessions),
        lookup(sessions, id) is Some,
        has_id(snapshot, id),
        elapsed_since(written_at, now) > 100,
        sessions[lookup(sessions, id).unwrap()].last_external_change matches Some(then)
            ==> elapsed_since(then, now) > 500,
    ensures
        last_with_id(snapshot, id) is Some,
        ({
            let written = local_volume_written(sessions, id, volume, written_at);
            let result = after_snapshot(written, snapshot, now);
            let seen = snapshot[last_with_id(snapshot, id).unwrap()];
            lookup(result, id) matches Some(j) && result[j].volume == seen.volume
                && result[j].is_muted == seen.is_muted
        }),
{
    lemma_lookup(sessions, id);
    let at = lookup(sessions, id).unwrap();
    let written = local_volume_written(sessions, id, volume, written_at);
    assert(ids_distinct(written)) by {
        assert forall|i: int, j: int| 0 <= i < j < written.len() implies #[trigger] written[i].id@
            != #[trigger] written[j].id@ by {
            assert(sessions[i].id@ != sessions[j].id@);
        }
    }
    assert(written[at].id@ == id);
    assert(settled(written[at], now));
    lemma_snapshot_on_listed(written, snapshot, now, at);
}

/// Notifications change no key and neither add nor remove a session.
pub proof fn lemma_notifications_keep_membership(
    sessions: Seq<AudioSession>,
    updates: Seq<AudioUpdate>,
    now: Millis,
)
    ensures
        after_notifications(sessions, updates, now).len() == sessions.len(),
        forall|i: int|
            0 <= i < sessions.len() ==> (#[trigger] after_notifications(
                sessions,
                updates,
                now,
            )[i]).id == sessions[i].id,
{
}

/// A notification that arrives less than 50 ms after the user set a
/// session's volume changes nothing of that session: the write is not undone
/// and not applied a second time.
pub proof fn lemma_echo_is_dropped(
    sessions: Seq<AudioSession>,
    id: Seq<char>,
    volume: u16,
    written_at: Millis,
    updates: Seq<AudioUpdate>,
    now: Millis,
)
    requires
        lookup(sessions, id) is Some,
        elapsed_since(written_at, now) < 50,
    ensures
        ({
            let written = local_volume_written(sessions, id, volume, written_at);
            let at = lookup(sessions, id).unwrap();
            after_notifications(written, updates, now)[at] == written[at]
        }),
{
    lemma_lookup(sessions, id);
    let written = local_volume_written(sessions, id, volume, written_at);
    let at = lookup(sessions, id).unwrap();
    assert(is_echo(written[at], now));
}

/// A volume notification that arrives 50 ms or more after the user set a
/// session's volume is taken over, and its moment is recorded.
pub proof fn lemma_late_notification_applies(
    sessions: Seq<AudioSession>,
    id: Seq<char>,
    volume: u16,
    written_at: Millis,
    updates: Seq<AudioUpdate>,
    now: Millis,
)
    requires
        lookup(sessions, id) is Some,
        elapsed_since(written_at, now) >= 50,
        last_volume(updates, id) is Some,
    ensures
        ({
            let written = local_volume_written(sessions, id, volume, written_at);
            let at = lookup(sessions, id).unwrap();
            let after = after_notifications(written, updates, now)[at];
            &&& Some(after.volume) == last_volume(updates, id)
            &&& after.last_external_change == Some(now)
            &&& after.last_local_change == Some(written_at)
        }),
{
    lemma_lookup(sessions, id);
}

/// Dropping entries from a registry without repeated names leaves no name
/// twice, and only names that were there.
proof fn lemma_filtered_registry(registry: Seq<RegistryEntry>, keep: spec_fn(RegistryEntry) -> bool)
    requires
        names_distinct(registry),
    ensures
        names_distinct(registry.filter(keep)),
        forall|name: Seq<char>| #[trigger]
            registered(registry.filter(keep), name) ==> registered(registry, name),
    decreases registry.len(),
{
    let kept = registry.filter(keep);
    if registry.len() > 0 {
        let front = registry.drop_last();
        let last = registry.last();
        let front_kept = front.filter(keep);
        assert(kept == if keep(last) {
            front_kept.push(last)
        } else {
            front_kept
        }) by {
            reveal(Seq::filter);
        }
        assert(names_distinct(front)) by {
            assert forall|i: int, j: int| 0 <= i < j < front.len() implies (
            #[trigger] front[i]).name@ != (#[trigger] front[j]).name@ by {
                assert(registry[i].name@ != registry[j].name@);
            }
        }
        lemma_filtered_registry(front, keep);
        assert forall|name: Seq<char>| registered(kept, name) implies registered(
            registry,
            name,
        ) by {
            let j = choose|j: int| 0 <= j < kept.len() && (#[trigger] kept[j]).name@ == name;
            if j < front_kept.len() {
                assert(front_kept[j].name@ == name);
                assert(registered(front_kept, name));
                let i = choose|i: int| 0 <= i < front.len() && (#[trigger] front[i]).name@ == name;
                assert(registry[i].name@ == name);
            } else {
                assert(registry[registry.len() - 1].name@ == name);
            }
        }
        if keep(last) {
            assert forall|i: int, j: int| 0 <= i < j < kept.len() implies (
            #[trigger] kept[i]).name@ != (#[trigger] kept[j]).name@ by {
                if j < front_kept.len() {
                    assert(front_kept[i].name@ != front_kept[j].name@);
                } else {
                    assert(front_kept[i].name@ == kept[i].name@);
                    assert(registered(front_kept, kept[i].name@));
                    let from = choose|k: int|
                        0 <= k < front.len() && (#[trigger] front[k]).name@ == kept[i].name@;
                    assert(registry[from].name@ != registry[registry.len() - 1].name@);
                }
            }
        }
    } else {
        assert(kept.len() == 0) by {
            reveal(Seq::filter);
        }
    }
}

/// Offering entries to a registry without repeated names leaves no name
/// twice.
proof fn lemma_offered_distinct(
    registry: Seq<RegistryEntry>,
    sessions: Seq<AudioSession>,
    offer: Seq<RegistryEntry>,
)
    requires
        names_distinct(registry),
    ensures
        names_distinct(offered(registry, sessions, offer).0),
    decreases offer.len(),
{
    if offer.len() > 0 {
        lemma_offered_distinct(registry, sessions, offer.drop_last());
    }
}

/// A poll leaves a registry without repeated names without repeated names.
pub proof fn lemma_registry_stays_distinct(
    registry: Seq<RegistryEntry>,
    sessions: Seq<AudioSession>,
    offer: Seq<RegistryEntry>,
)
    requires
        names_distinct(registry),
    ensures
        names_distinct(registry_after(registry, sessions, offer)),
{
    lemma_filtered_registry(registry, shown_in(sessions));
    lemma_offered_distinct(registry.filter(shown_in(sessions)), sessions, offer);
}

/// After a poll every name of the registry is that of a session shown.
pub proof fn lemma_registry_follows_sessions(
    registry: Seq<RegistryEntry>,
    sessions: Seq<AudioSession>,
    offer: Seq<RegistryEntry>,
    at: int,
)
    requires
        0 <= at < registry_after(registry, sessions, offer).len(),
    ensures
        shown(sessions, registry_after(registry, sessions, offer)[at].name@),
    decreases offer.len(),
{
    let kept = registry.filter(shown_in(sessions));
    if offer.len() == 0 {
        registry.lemma_filter_pred(shown_in(sessions), at);
    } else {
        let taken = offered(kept, sessions, offer.drop_last()).0;
        if at < taken.len() {
            lemma_registry_follows_sessions(registry, sessions, offer.drop_last(), at);
        }
    }
}

/// The multiset of a sequence without elements is empty.
proof fn lemma_empty_multiset(entries: Seq<RegistryEntry>)
    requires
        entries.len() == 0,
    ensures
        entries.to_multiset() == Multiset::<RegistryEntry>::empty(),
{
    broadcast use vstd::multiset::group_multiset_axioms;

    entries.to_multiset_ensures();
}

/// Kept and dropped entries together are the entries of before.
proof fn lemma_split_accounts(registry: Seq<RegistryEntry>, sessions: Seq<AudioSession>)
    ensures
        registry.filter(shown_in(sessions)).to_multiset().add(
            registry.filter(not_shown_in(sessions)).to_multiset(),
        ) == registry.to_multiset(),
    decreases registry.len(),
{
    broadcast use vstd::multiset::group_multiset_axioms;

    let keep = shown_in(sessions);
    let drop = not_shown_in(sessions);
    let kept = registry.filter(keep);
    let dropped = registry.filter(drop);
    if registry.len() == 0 {
        assert(kept == registry && dropped == registry) by {
            reveal(Seq::filter);
        }
        lemma_empty_multiset(registry);
    } else {
        let front = registry.drop_last();
        let last = registry.last();
        let front_kept = front.filter(keep);
        let front_dropped = front.filter(drop);
        lemma_split_accounts(front, sessions);
        assert(registry =~= front.push(last));
        to_multiset_build(front, last);
        to_multiset_build(front_kept, last);
        to_multiset_build(front_dropped, last);
        assert(kept == if keep(last) {
            front_kept.push(last)
        } else {
            front_kept
        }) by {
            reveal(Seq::filter);
        }
        assert(dropped == if drop(last) {
            front_dropped.push(last)
        } else {
            front_dropped
        }) by {
            reveal(Seq::filter);
        }
    }
}

/// Taken and refused entries together are the registry and what was
/// offered.
proof fn lemma_offer_accounts(
    registry: Seq<RegistryEntry>,
    sessions: Seq<AudioSession>,
    offer: Seq<RegistryEntry>,
)
    ensures
        offered(registry, sessions, offer).0.to_multiset().add(
            offered(registry, sessions, offer).1.to_multiset(),
        ) == registry.to_multiset().add(offer.to_multiset()),
    decreases offer.len(),
{
    broadcast use vstd::multiset::group_multiset_axioms;

    let after = offered(registry, sessions, offer).0;
    let refused = offered(registry, sessions, offer).1;
    if offer.len() == 0 {
        lemma_empty_multiset(offer);
        lemma_empty_multiset(refused);
    } else {
        let front = offer.drop_last();
        let entry = offer.last();
        let taken = offered(registry, sessions, front).0;
        let turned = offered(registry, sessions, front).1;
        lemma_offer_accounts(registry, sessions, front);
        assert(offer =~= front.push(entry));
        to_multiset_build(front, entry);
        to_multiset_build(taken, entry);
        to_multiset_build(turned, entry);
        let whole = taken.to_multiset().add(turned.to_multiset());
        assert(after.to_multiset().add(refused.to_multiset()) =~= whole.insert(entry));
    }
}

/// A poll loses no handles and makes none up: the registry afterwards and
/// what is to be released hold, together, each entry of the registry of
/// before and each entry offered exactly as often as those did.
pub proof fn lemma_every_entry_accounted(
    registry: Seq<RegistryEntry>,
    sessions: Seq<AudioSession>,
    offer: Seq<RegistryEntry>,
)
    ensures
        registry_after(registry, sessions, offer).to_multiset().add(
            released_after(registry, sessions, offer).to_multiset(),
        ) == registry.to_multiset().add(offer.to_multiset()),
{
    broadcast use vstd::multiset::group_multiset_axioms;

    let kept = registry.filter(shown_in(sessions));
    let dropped = registry.filter(not_shown_in(sessions));
    let after = offered(kept, sessions, offer).0;
    let refused = offered(kept, sessions, offer).1;
    lemma_split_accounts(registry, sessions);
    lemma_offer_accounts(kept, sessions, offer);
    lemma_multiset_commutative(dropped, refused);
    let left = after.to_multiset().add((dropped + refused).to_multiset());
    let right = registry.to_multiset().add(offer.to_multiset());
    assert forall|entry: RegistryEntry| left.count(entry) == right.count(entry) by {
        assert(after.to_multiset().add(refused.to_multiset()).count(entry) == kept.to_multiset().add(
            offer.to_multiset(),
        ).count(entry));
    }
}

} // verus!
