//! The merge policy that keeps the session list consistent between the
//! user's writes, the periodic enumeration and the change notifications.
//!
//! The list stands for a map from session key to session: no key occurs
//! twice. Membership follows the latest enumeration alone; a notification
//! only ever changes fields of a session that is listed.

use vstd::prelude::*;

use super::backend::AudioUpdate;
use super::session::{AudioSession, Millis};

verus! {

/// An enumeration overrides a local write only when more than this has
/// passed since the write.
pub const LOCAL_DEBOUNCE_MS: u64 = 100;

/// An enumeration overrides a notified change only when more than this has
/// passed since the notification.
pub const EXTERNAL_DEBOUNCE_MS: u64 = 500;

/// A notification that arrives less than this after a local write counts as
/// the echo of that write.
pub const ECHO_WINDOW_MS: u64 = 50;

/// Milliseconds from `then` to `now`; none if `now` is the earlier one.
pub open spec fn elapsed_since(then: Millis, now: Millis) -> int {
    if now >= then {
        now - then
    } else {
        0
    }
}

/// Whether a session with this key is listed.
pub open spec fn has_id(sessions: Seq<AudioSession>, id: Seq<char>) -> bool {
    exists|i: int| 0 <= i < sessions.len() && #[trigger] sessions[i].id@ == id
}

/// Whether no key is listed twice.
pub open spec fn ids_distinct(sessions: Seq<AudioSession>) -> bool {
    forall|i: int, j: int|
        0 <= i < j < sessions.len() ==> #[trigger] sessions[i].id@ != #[trigger] sessions[j].id@
}

/// The place of the first session with this key.
pub open spec fn lookup(sessions: Seq<AudioSession>, id: Seq<char>) -> Option<int>
    decreases sessions.len(),
{
    if sessions.len() == 0 {
        None
    } else {
        match lookup(sessions.drop_last(), id) {
            Some(i) => Some(i),
            None => if sessions.last().id@ == id {
                Some(sessions.len() - 1)
            } else {
                None
            },
        }
    }
}

/// A session after the user set its volume.
pub open spec fn with_local_volume(session: AudioSession, volume: u16, now: Millis) -> AudioSession {
    AudioSession { volume, last_local_change: Some(now), ..session }
}

/// A session after the user toggled its mute state.
pub open spec fn with_local_mute_toggle(session: AudioSession, now: Millis) -> AudioSession {
    AudioSession { is_muted: !session.is_muted, last_local_change: Some(now), ..session }
}

/// The list after the user set the volume of the session `id`.
pub open spec fn local_volume_written(
    sessions: Seq<AudioSession>,
    id: Seq<char>,
    volume: u16,
    now: Millis,
) -> Seq<AudioSession> {
    match lookup(sessions, id) {
        Some(i) => sessions.update(i, with_local_volume(sessions[i], volume, now)),
        None => sessions,
    }
}

/// The list after the user toggled the mute state of the session `id`.
pub open spec fn local_mute_toggled(sessions: Seq<AudioSession>, id: Seq<char>, now: Millis) -> Seq<
    AudioSession,
> {
    match lookup(sessions, id) {
        Some(i) => sessions.update(i, with_local_mute_toggle(sessions[i], now)),
        None => sessions,
    }
}

/// Whether an enumeration may override the session's volume and mute state:
/// the last local write is more than 100 ms old and the last notified change
/// more than 500 ms, where there was one.
pub open spec fn settled(session: AudioSession, now: Millis) -> bool {
    &&& session.last_local_change matches Some(then) ==> elapsed_since(then, now) > 100
    &&& session.last_external_change matches Some(then) ==> elapsed_since(then, now) > 500
}

/// A listed session after the enumeration saw it again.
pub open spec fn refreshed(existing: AudioSession, seen: AudioSession, now: Millis) -> AudioSession {
    AudioSession {
        volume: if settled(existing, now) {
            seen.volume
        } else {
            existing.volume
        },
        is_muted: if settled(existing, now) {
            seen.is_muted
        } else {
            existing.is_muted
        },
        icon_handle: if existing.icon_handle is None {
            seen.icon_handle
        } else {
            existing.icon_handle
        },
        ..existing
    }
}

/// The list after one entry of an enumeration: a listed session is
/// refreshed, a new one joins at the end.
pub open spec fn merge_one(sessions: Seq<AudioSession>, seen: AudioSession, now: Millis) -> Seq<
    AudioSession,
> {
    match lookup(sessions, seen.id@) {
        Some(i) => sessions.update(i, refreshed(sessions[i], seen, now)),
        None => sessions.push(seen),
    }
}

/// The list after all entries of an enumeration, taken in order.
pub open spec fn merge_all(sessions: Seq<AudioSession>, snapshot: Seq<AudioSession>, now: Millis) -> Seq<
    AudioSession,
>
    decreases snapshot.len(),
{
    if snapshot.len() == 0 {
        sessions
    } else {
        merge_one(merge_all(sessions, snapshot.drop_last(), now), snapshot.last(), now)
    }
}

/// The test of whether an enumeration lists a session.
pub open spec fn listed_in(snapshot: Seq<AudioSession>) -> spec_fn(AudioSession) -> bool {
    |session: AudioSession| has_id(snapshot, session.id@)
}

/// The list after an enumeration: every entry merged in, then every session
/// dropped that the enumeration does not list.
pub open spec fn after_snapshot(
    sessions: Seq<AudioSession>,
    snapshot: Seq<AudioSession>,
    now: Millis,
) -> Seq<AudioSession> {
    merge_all(sessions, snapshot, now).filter(listed_in(snapshot))
}

/// Whether a notification asks for a new enumeration.
pub open spec fn asks_refresh(update: AudioUpdate) -> bool {
    update is DefaultDeviceChanged || update is SessionAdded || update is SessionRemoved
}

/// The place of the first notification that asks for a new enumeration.
pub open spec fn first_refresh(updates: Seq<AudioUpdate>) -> Option<int>
    decreases updates.len(),
{
    if updates.len() == 0 {
        None
    } else {
        match first_refresh(updates.drop_last()) {
            Some(i) => Some(i),
            None => if asks_refresh(updates.last()) {
                Some(updates.len() - 1)
            } else {
                None
            },
        }
    }
}

/// The volume that the last volume notification for `id` carries.
pub open spec fn last_volume(updates: Seq<AudioUpdate>, id: Seq<char>) -> Option<u16>
    decreases updates.len(),
{
    if updates.len() == 0 {
        None
    } else {
        match updates.last() {
            AudioUpdate::VolumeChanged(key, volume) if key@ == id => Some(volume),
            _ => last_volume(updates.drop_last(), id),
        }
    }
}

/// The mute state that the last mute notification for `id` carries.
pub open spec fn last_mute(updates: Seq<AudioUpdate>, id: Seq<char>) -> Option<bool>
    decreases updates.len(),
{
    if updates.len() == 0 {
        None
    } else {
        match updates.last() {
            AudioUpdate::MuteChanged(key, muted) if key@ == id => Some(muted),
            _ => last_mute(updates.drop_last(), id),
        }
    }
}

/// Whether a notification that arrives now counts as the echo of the
/// session's last local write.
pub open spec fn is_echo(session: AudioSession, now: Millis) -> bool {
    session.last_local_change matches Some(then) && elapsed_since(then, now) < 50
}

/// A session after a batch of notifications: the last notified volume and
/// mute state are taken over and the moment is recorded, unless the batch
/// says nothing of the session or counts as an echo.
pub open spec fn notified(session: AudioSession, updates: Seq<AudioUpdate>, now: Millis) -> AudioSession {
    let volume = last_volume(updates, session.id@);
    let muted = last_mute(updates, session.id@);
    if (volume is None && muted is None) || is_echo(session, now) {
        session
    } else {
        AudioSession {
            volume: match volume {
                Some(v) => v,
                None => session.volume,
            },
            is_muted: match muted {
                Some(m) => m,
                None => session.is_muted,
            },
            last_external_change: Some(now),
            ..session
        }
    }
}

/// The list after a batch of notifications.
pub open spec fn after_notifications(
    sessions: Seq<AudioSession>,
    updates: Seq<AudioUpdate>,
    now: Millis,
) -> Seq<AudioSession> {
    Seq::new(sessions.len(), |i: int| notified(sessions[i], updates, now))
}

/// What `lookup` finds: the first place with the key, or that there is none.
pub proof fn lemma_lookup(sessions: Seq<AudioSession>, id: Seq<char>)
    ensures
        match lookup(sessions, id) {
            Some(i) => {
                &&& 0 <= i < sessions.len()
                &&& sessions[i].id@ == id
                &&& forall|k: int| 0 <= k < i ==> (#[trigger] sessions[k]).id@ != id
            },
            None => forall|k: int| 0 <= k < sessions.len() ==> (#[trigger] sessions[k]).id@ != id,
        },
        lookup(sessions, id) is Some <==> has_id(sessions, id),
    decreases sessions.len(),
{
    if sessions.len() > 0 {
        let front = sessions.drop_last();
        lemma_lookup(front, id);
        match lookup(front, id) {
            Some(i) => {
                assert forall|k: int| 0 <= k < i implies (#[trigger] sessions[k]).id@ != id by {
                    assert(sessions[k] == front[k]);
                }
            },
            None => {
                assert forall|k: int| 0 <= k < sessions.len() - 1 implies (
                #[trigger] sessions[k]).id@ != id by {
                    assert(sessions[k] == front[k]);
                }
            },
        }
    }
}

/// The first place with a key decides what `lookup` finds: that place, or
/// nothing where no session has the key.
pub proof fn lemma_first_session(sessions: Seq<AudioSession>, id: Seq<char>, place: int)
    requires
        0 <= place <= sessions.len(),
        forall|k: int| 0 <= k < place ==> (#[trigger] sessions[k]).id@ != id,
        place < sessions.len() ==> sessions[place].id@ == id,
    ensures
        lookup(sessions, id) == if place < sessions.len() {
            Some(place)
        } else {
            None::<int>
        },
{
    lemma_lookup(sessions, id);
    if let Some(first) = lookup(sessions, id) {
        let found = sessions[first];
        assert(found.id@ == id);
    }
    if place < sessions.len() {
        let here = sessions[place];
        assert(here.id@ == id);
    }
}

/// Milliseconds from `then` to `now`.
pub fn elapsed(then: Millis, now: Millis) -> (millis: u64)
    ensures
        millis == elapsed_since(then, now),
{
    if now >= then {
        now - then
    } else {
        0
    }
}

/// The place of the session with this key.
pub fn find_session(sessions: &Vec<AudioSession>, id: &String) -> (place: Option<usize>)
    ensures
        match place {
            Some(i) => lookup(sessions@, id@) == Some(i as int),
            None => lookup(sessions@, id@) is None,
        },
{
    let mut i: usize = 0;
    while i < sessions.len()
        invariant
            i <= sessions@.len(),
            forall|k: int| 0 <= k < i ==> (#[trigger] sessions@[k]).id@ != id@,
        decreases sessions@.len() - i,
    {
        if sessions[i].id == *id {
            proof {
                lemma_first_session(sessions@, id@, i as int);
            }
            return Some(i);
        }
        i += 1;
    }
    proof {
        lemma_first_session(sessions@, id@, i as int);
    }
    None
}
/// Whether the enumeration may override the session.
pub fn is_settled(session: &AudioSession, now: Millis) -> (yes: bool)
    ensures
        yes == settled(*session, now),
{
    let local_quiet = match session.last_local_change {
        Some(then) => elapsed(then, now) > LOCAL_DEBOUNCE_MS,
        None => true,
    };
    let external_quiet = match session.last_external_change {
        Some(then) => elapsed(then, now) > EXTERNAL_DEBOUNCE_MS,
        None => true,
    };
    local_quiet && external_quiet
}

/// Records that the user set the volume of the session `id`, if it is
/// listed, and says whether it is: the caller then writes the volume through to
/// the operating system.
pub fn set_local_volume(
    sessions: &mut Vec<AudioSession>,
    id: &String,
    volume: u16,
    now: Millis,
) -> (known: bool)
    ensures
        final(sessions)@ == local_volume_written(old(sessions)@, id@, volume, now),
        known == has_id(old(sessions)@, id@),
{
    proof {
        lemma_lookup(sessions@, id@);
    }
    match find_session(sessions, id) {
        Some(i) => {
            sessions[i].volume = volume;
            sessions[i].last_local_change = Some(now);
            true
        },
        None => false,
    }
}

/// Records that the user toggled the mute state of the session `id`, if it
/// is listed, and gives the new state: the caller then writes it through to
/// the operating system.
pub fn toggle_local_mute(sessions: &mut Vec<AudioSession>, id: &String, now: Millis) -> (muted:
    Option<bool>)
    ensures
        final(sessions)@ == local_mute_toggled(old(sessions)@, id@, now),
        muted == match lookup(old(sessions)@, id@) {
            Some(i) => Some(!old(sessions)@[i].is_muted),
            None => None,
        },
{
    proof {
        lemma_lookup(sessions@, id@);
    }
    match find_session(sessions, id) {
        Some(i) => {
            let muted = !sessions[i].is_muted;
            sessions[i].is_muted = muted;
            sessions[i].last_local_change = Some(now);
            Some(muted)
        },
        None => None,
    }
}

/// Whether the enumeration lists a session with this key.
fn lists(snapshot: &Vec<AudioSession>, id: &String) -> (yes: bool)
    ensures
        yes == has_id(snapshot@, id@),
{
    proof {
        lemma_lookup(snapshot@, id@);
    }
    find_session(snapshot, id).is_some()
}

/// Takes a full enumeration in. A session that is listed already keeps its
/// volume and mute state unless it has settled, and takes an icon if it had
/// none; a new session joins; a session that the enumeration does not list
/// leaves.
pub fn apply_snapshot(sessions: &mut Vec<AudioSession>, snapshot: &Vec<AudioSession>, now: Millis)
    ensures
        final(sessions)@ == after_snapshot(old(sessions)@, snapshot@, now),
{
    let mut at: usize = 0;
    while at < snapshot.len()
        invariant
            at <= snapshot@.len(),
            sessions@ == merge_all(old(sessions)@, snapshot@.take(at as int), now),
        decreases snapshot@.len() - at,
    {
        let seen = &snapshot[at];
        let ghost before = sessions@;
        proof {
            assert(snapshot@.take(at + 1).drop_last() =~= snapshot@.take(at as int));
            lemma_lookup(before, seen.id@);
        }
        match find_session(sessions, &seen.id) {
            Some(i) => {
                if is_settled(&sessions[i], now) {
                    sessions[i].volume = seen.volume;
                    sessions[i].is_muted = seen.is_muted;
                }
                if sessions[i].icon_handle.is_none() && seen.icon_handle.is_some() {
                    sessions[i].icon_handle = seen.icon_handle;
                }
            },
            None => {
                sessions.push(seen.clone());
            },
        }
        at += 1;
    }
    assert(snapshot@.take(at as int) =~= snapshot@);
    let ghost merged = sessions@;
    let mut kept: Vec<AudioSession> = Vec::new();
    let mut from: usize = 0;
    while from < sessions.len()
        invariant
            from <= sessions@.len(),
            sessions@ == merged,
            kept@ == merged.take(from as int).filter(listed_in(snapshot@)),
        decreases sessions@.len() - from,
    {
        proof {
            reveal(Seq::filter);
            assert(merged.take(from + 1).drop_last() =~= merged.take(from as int));
        }
        if lists(snapshot, &sessions[from].id) {
            kept.push(sessions[from].clone());
        }
        from += 1;
    }
    assert(merged.take(from as int) =~= merged);
    *sessions = kept;
}

/// The place of the first notification that asks for a new enumeration.
pub fn find_refresh(updates: &Vec<AudioUpdate>) -> (place: Option<usize>)
    ensures
        match place {
            Some(i) => first_refresh(updates@) == Some(i as int) && i < updates@.len(),
            None => first_refresh(updates@) is None,
        },
{
    let mut i: usize = 0;
    while i < updates.len()
        invariant
            i <= updates@.len(),
            first_refresh(updates@.take(i as int)) is None,
        decreases updates@.len() - i,
    {
        proof {
            assert(updates@.take(i + 1).drop_last() =~= updates@.take(i as int));
        }
        let asks = match &updates[i] {
            AudioUpdate::DefaultDeviceChanged(_) => true,
            AudioUpdate::SessionAdded(_) => true,
            AudioUpdate::SessionRemoved(_) => true,
            _ => false,
        };
        if asks {
            proof {
                lemma_first_refresh_extends(updates@, i as int);
            }
            return Some(i);
        }
        i += 1;
    }
    assert(updates@.take(i as int) =~= updates@);
    None
}

/// The first asking notification of a prefix is that of the whole batch.
proof fn lemma_first_refresh_extends(updates: Seq<AudioUpdate>, at: int)
    requires
        0 <= at < updates.len(),
        first_refresh(updates.take(at + 1)) == Some(at),
    ensures
        first_refresh(updates) == Some(at),
    decreases updates.len(),
{
    if updates.len() > at + 1 {
        let front = updates.drop_last();
        assert(front.take(at + 1) =~= updates.take(at + 1));
        lemma_first_refresh_extends(front, at);
    } else {
        assert(updates.take(at + 1) =~= updates);
    }
}

/// Takes a batch of notifications in that asks for no new enumeration. Per
/// session only the last notified volume and the last notified mute state
/// count; a session whose last local write is less than 50 ms old is left
/// alone.
pub fn apply_notifications(sessions: &mut Vec<AudioSession>, updates: &Vec<AudioUpdate>, now: Millis)
    ensures
        final(sessions)@ == after_notifications(old(sessions)@, updates@, now),
{
    let mut at: usize = 0;
    while at < sessions.len()
        invariant
            at <= sessions@.len(),
            sessions@.len() == old(sessions)@.len(),
            forall|k: int| 0 <= k < at ==> sessions@[k] == notified(old(sessions)@[k], updates@, now),
            forall|k: int| at <= k < sessions@.len() ==> sessions@[k] == old(sessions)@[k],
        decreases sessions@.len() - at,
    {
        let mut volume: Option<u16> = None;
        let mut muted: Option<bool> = None;
        let mut j: usize = 0;
        while j < updates.len()
            invariant
                j <= updates@.len(),
                at < sessions@.len(),
                volume == last_volume(updates@.take(j as int), sessions@[at as int].id@),
                muted == last_mute(updates@.take(j as int), sessions@[at as int].id@),
            decreases updates@.len() - j,
        {
            proof {
                assert(updates@.take(j + 1).drop_last() =~= updates@.take(j as int));
            }
            match &updates[j] {
                AudioUpdate::VolumeChanged(key, v) => {
                    if *key == sessions[at].id {
                        volume = Some(*v);
                    }
                },
                AudioUpdate::MuteChanged(key, m) => {
                    if *key == sessions[at].id {
                        muted = Some(*m);
                    }
                },
                _ => {},
            }
            j += 1;
        }
        assert(updates@.take(j as int) =~= updates@);
        let echo = match sessions[at].last_local_change {
            Some(then) => elapsed(then, now) < ECHO_WINDOW_MS,
            None => false,
        };
        if (volume.is_some() || muted.is_some()) && !echo {
            if let Some(v) = volume {
                sessions[at].volume = v;
            }
            if let Some(m) = muted {
                sessions[at].is_muted = m;
            }
            sessions[at].last_external_change = Some(now);
        }
        at += 1;
    }
}

} // verus!
