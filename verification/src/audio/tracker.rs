//! The decisions of session tracking: which of the sessions that the
//! operating system reports are listed and under which name, which native
//! handles are kept from poll to poll, which are to be registered and which
//! released, and which notifications are passed on.
//!
//! The caller talks to the operating system. Per poll it reports the raw
//! sessions, takes the list of sessions and the names to register, registers
//! those, and commits the poll with what it registered; what comes back is
//! to be released. The registry belongs to its tracker: handles enter it
//! with `commit` and leave it only through what `commit` gives back.

use vstd::prelude::*;
use vstd::string::*;

use super::backend::AudioUpdate;
use super::session::AudioSession;
use crate::utils::text::{decimal, decimal_text, texts};

verus! {

/// The marker that the application's own writes carry. A notification that
/// comes back with it was caused here.
pub const APP_CONTEXT: u128 = 0x12345678_1234_1234_1234_123456789abc;

/// The native handles of one session, as opaque numbers.
#[derive(Debug, Clone, Copy, PartialEq, Eq, Structural)]
pub struct ControlHandles {
    pub volume_control: usize,
    pub session_control: usize,
    pub callback: usize,
}

/// The handles registered for a session name.
#[derive(Debug, PartialEq, Eq)]
pub struct RegistryEntry {
    pub name: String,
    pub handles: ControlHandles,
}

#[derive(Debug, Clone, Copy, PartialEq, Eq, Structural)]
pub enum SessionState {
    Active,
    Inactive,
    Expired,
}

/// A session as the operating system reports it.
#[derive(Debug, PartialEq, Eq)]
pub struct RawSession {
    pub state: SessionState,
    /// The owning process; 0 where there is none.
    pub process_id: u32,
    /// The full path of the process image, where the process could be
    /// queried.
    pub process_path: Option<String>,
    /// The session's own display name, where it could be read.
    pub display_name: Option<String>,
    /// The volume in ten-thousandths of full scale, where it could be read.
    pub volume: Option<u16>,
    pub is_muted: bool,
    pub icon_handle: Option<u64>,
}

/// The result of a poll: the sessions to show, and the names for which a
/// change notification is to be registered.
#[derive(Debug, PartialEq, Eq)]
pub struct Enumeration {
    pub sessions: Vec<AudioSession>,
    pub to_register: Vec<String>,
    /// For each name to register, the place among the raw sessions of the
    /// session whose handles are registered under it.
    pub register_from: Vec<usize>,
}

/// The tracker of one audio backend, with the registry of native handles by
/// session name.
#[derive(Debug)]
pub struct SessionTracker {
    registry: Vec<RegistryEntry>,
}

/// The index behind the last backslash of a path: where its last component
/// starts.
pub open spec fn component_start(path: Seq<char>) -> int
    decreases path.len(),
{
    if path.len() == 0 {
        0
    } else if path.last() == '\\' {
        path.len() as int
    } else {
        component_start(path.drop_last())
    }
}

/// Whether a name ends in `.exe`.
pub open spec fn ends_with_exe(name: Seq<char>) -> bool {
    name.len() >= 4 && name[name.len() - 4] == '.' && name[name.len() - 3] == 'e' && name[name.len()
        - 2] == 'x' && name[name.len() - 1] == 'e'
}

/// The length of a name without any `.exe` at its end, however often it
/// is repeated.
pub open spec fn stem_len(name: Seq<char>) -> int
    decreases name.len(),
{
    if ends_with_exe(name) {
        stem_len(name.take(name.len() - 4))
    } else {
        name.len() as int
    }
}

/// The name of a process: the last component of its image path, without
/// `.exe`.
pub open spec fn process_name(path: Seq<char>) -> Seq<char> {
    let name = path.skip(component_start(path));
    name.take(stem_len(name))
}

/// Whether a display name is a placeholder for a resource, which shows as
/// `@%...`.
pub open spec fn is_placeholder(name: Seq<char>) -> bool {
    name.len() >= 2 && name[0] == '@' && name[1] == '%'
}

/// The label of a process without a usable name.
pub open spec fn process_label(process_id: u32) -> Seq<char> {
    "Process "@ + decimal_text(process_id as nat)
}

/// The name under which a session is listed: the name of its process; else
/// its own display name unless that is empty or a placeholder; else a
/// label made of the process id.
pub open spec fn resolved_name(raw: RawSession) -> Seq<char> {
    match raw.process_path {
        Some(path) => process_name(path@),
        None => match raw.display_name {
            Some(name) => if name@.len() > 0 && !is_placeholder(name@) {
                name@
            } else {
                process_label(raw.process_id)
            },
            None => process_label(raw.process_id),
        },
    }
}

/// Whether a raw session is listed: it is live or inactive, has an owning
/// process, and its volume could be read.
pub open spec fn is_listed(raw: RawSession) -> bool {
    (raw.state == SessionState::Active || raw.state == SessionState::Inactive) && raw.process_id
        != 0 && raw.volume is Some
}

/// Whether a session is what a listed raw session is shown as.
pub open spec fn shows(session: AudioSession, raw: RawSession) -> bool {
    &&& session.id@ == resolved_name(raw)
    &&& session.display_name@ == resolved_name(raw)
    &&& Some(session.volume) == raw.volume
    &&& session.is_muted == raw.is_muted
    &&& session.process_id == raw.process_id
    &&& session.icon_handle == raw.icon_handle
    &&& session.last_local_change is None
    &&& session.last_external_change is None
}

/// The test of whether a raw session is listed.
pub open spec fn listed() -> spec_fn(RawSession) -> bool {
    |raw: RawSession| is_listed(raw)
}

/// Whether the sessions are what the listed ones among the raw sessions
/// are shown as, in order.
pub open spec fn show_all(sessions: Seq<AudioSession>, raw: Seq<RawSession>) -> bool {
    &&& sessions.len() == raw.filter(listed()).len()
    &&& forall|i: int| 0 <= i < sessions.len() ==> shows(#[trigger] sessions[i], raw.filter(listed())[i])
}

/// Whether the raw session at `at` is the first that is listed under a
/// name.
pub open spec fn first_listed_as(raw: Seq<RawSession>, name: Seq<char>, at: int) -> bool {
    &&& 0 <= at < raw.len()
    &&& is_listed(raw[at])
    &&& resolved_name(raw[at]) == name
    &&& forall|j: int|
        0 <= j < at ==> !(is_listed(#[trigger] raw[j]) && resolved_name(raw[j]) == name)
}

/// Whether a name is among the names.
pub open spec fn names_hold(names: Seq<String>, name: Seq<char>) -> bool {
    exists|i: int| 0 <= i < names.len() && (#[trigger] names[i])@ == name
}

/// Whether the registry holds handles under a name.
pub open spec fn registered(registry: Seq<RegistryEntry>, name: Seq<char>) -> bool {
    exists|i: int| 0 <= i < registry.len() && (#[trigger] registry[i]).name@ == name
}

/// Whether a session with this name is among the sessions.
pub open spec fn shown(sessions: Seq<AudioSession>, name: Seq<char>) -> bool {
    exists|i: int| 0 <= i < sessions.len() && (#[trigger] sessions[i]).id@ == name
}

/// Whether no name has two entries.
pub open spec fn names_distinct(registry: Seq<RegistryEntry>) -> bool {
    forall|i: int, j: int|
        0 <= i < j < registry.len() ==> (#[trigger] registry[i]).name@ != (
        #[trigger] registry[j]).name@
}

/// The names to register: those of the sessions that the registry does not
/// hold, each once, in the order in which they first occur.
pub open spec fn names_to_register(registry: Seq<RegistryEntry>, sessions: Seq<AudioSession>) -> Seq<
    Seq<char>,
>
    decreases sessions.len(),
{
    if sessions.len() == 0 {
        Seq::empty()
    } else {
        let before = names_to_register(registry, sessions.drop_last());
        let name = sessions.last().id@;
        if registered(registry, name) || before.contains(name) {
            before
        } else {
            before.push(name)
        }
    }
}

/// The test of whether a session is shown under an entry's name.
pub open spec fn shown_in(sessions: Seq<AudioSession>) -> spec_fn(RegistryEntry) -> bool {
    |entry: RegistryEntry| shown(sessions, entry.name@)
}

/// The test of whether no session is shown under an entry's name.
pub open spec fn not_shown_in(sessions: Seq<AudioSession>) -> spec_fn(RegistryEntry) -> bool {
    |entry: RegistryEntry| !shown(sessions, entry.name@)
}

/// The registry after new entries were offered, and the entries turned
/// away: an entry is taken if a session is shown under its name and the
/// registry holds none under that name yet.
pub open spec fn offered(
    registry: Seq<RegistryEntry>,
    sessions: Seq<AudioSession>,
    offer: Seq<RegistryEntry>,
) -> (Seq<RegistryEntry>, Seq<RegistryEntry>)
    decreases offer.len(),
{
    if offer.len() == 0 {
        (registry, Seq::empty())
    } else {
        let (taken, refused) = offered(registry, sessions, offer.drop_last());
        let entry = offer.last();
        if shown(sessions, entry.name@) && !registered(taken, entry.name@) {
            (taken.push(entry), refused)
        } else {
            (taken, refused.push(entry))
        }
    }
}

/// The registry after a poll: the entries of before under whose name a
/// session is still shown, unchanged and in place, then the new entries
/// that were taken.
pub open spec fn registry_after(
    registry: Seq<RegistryEntry>,
    sessions: Seq<AudioSession>,
    offer: Seq<RegistryEntry>,
) -> Seq<RegistryEntry> {
    offered(registry.filter(shown_in(sessions)), sessions, offer).0
}

/// What is to be released after a poll: the entries of before under whose
/// name no session is shown any more, then the new entries that were turned
/// away.
pub open spec fn released_after(
    registry: Seq<RegistryEntry>,
    sessions: Seq<AudioSession>,
    offer: Seq<RegistryEntry>,
) -> Seq<RegistryEntry> {
    registry.filter(not_shown_in(sessions)) + offered(
        registry.filter(shown_in(sessions)),
        sessions,
        offer,
    ).1
}

/// The notifications that a change of a session's volume or mute state
/// leads to: none if the change carries the application's own marker, else
/// one for the volume and one for the mute state.
pub open spec fn session_updates(
    name: String,
    volume: u16,
    muted: bool,
    event_context: Option<u128>,
) -> Seq<AudioUpdate> {
    if event_context == Some(APP_CONTEXT) {
        Seq::empty()
    } else {
        seq![AudioUpdate::VolumeChanged(name, volume), AudioUpdate::MuteChanged(name, muted)]
    }
}

/// The characters of a text.
fn chars_of(text: &str) -> (chars: Vec<char>)
    ensures
        chars@ == text@,
{
    let mut chars: Vec<char> = Vec::new();
    for c in it: text.chars()
        invariant
            it.seq() == text@,
            chars@ == it.seq().take(it.index()),
    {
        chars.push(c);
    }
    chars
}

/// The name of a process, from the full path of its image.
pub fn process_name_of(path: &str) -> (name: String)
    ensures
        name@ == process_name(path@),
{
    let chars = chars_of(path);
    let mut start: usize = 0;
    let mut i: usize = 0;
    while i < chars.len()
        invariant
            i <= chars@.len(),
            start <= i,
            start == component_start(chars@.take(i as int)),
        decreases chars@.len() - i,
    {
        proof {
            assert(chars@.take(i + 1).drop_last() =~= chars@.take(i as int));
            assert(chars@.take(i + 1).last() == chars@[i as int]);
        }
        if chars[i] == '\\' {
            start = i + 1;
        }
        i += 1;
    }
    assert(chars@.take(i as int) =~= chars@);
    let ghost name = chars@.skip(start as int);
    let mut end: usize = chars.len();
    assert(name.take(end - start) =~= name);
    while end - start >= 4 && chars[end - 4] == '.' && chars[end - 3] == 'e' && chars[end - 2] == 'x'
        && chars[end - 1] == 'e'
        invariant
            start <= end <= chars@.len(),
            name == chars@.skip(start as int),
            stem_len(name) == stem_len(name.take(end - start)),
        decreases end,
    {
        proof {
            let shorter = name.take(end - start);
            assert(ends_with_exe(shorter));
            assert(shorter.take(shorter.len() - 4) =~= name.take(end - 4 - start));
        }
        end = end - 4;
    }
    proof {
        let shorter = name.take(end - start);
        assert(!ends_with_exe(shorter));
        assert(stem_len(name) == end - start);
        assert(path@.subrange(start as int, end as int) =~= name.take(stem_len(name)));
    }
    path.substring_char(start, end).to_owned()
}

/// The name under which a session is listed.
pub fn resolve_display_name(raw: &RawSession) -> (name: String)
    ensures
        name@ == resolved_name(*raw),
{
    match &raw.process_path {
        Some(path) => process_name_of(path.as_str()),
        None => {
            if let Some(own) = &raw.display_name {
                let chars = chars_of(own.as_str());
                let placeholder = chars.len() >= 2 && chars[0] == '@' && chars[1] == '%';
                if chars.len() > 0 && !placeholder {
                    return own.clone();
                }
            }
            String::from_str("Process ").concat(decimal(raw.process_id as u64).as_str())
        },
    }
}

/// Whether a raw session is listed.
pub fn is_listed_session(raw: &RawSession) -> (yes: bool)
    ensures
        yes == is_listed(*raw),
{
    let present = match raw.state {
        SessionState::Active => true,
        SessionState::Inactive => true,
        SessionState::Expired => false,
    };
    present && raw.process_id != 0 && raw.volume.is_some()
}

/// The notifications that a change of a session's volume or mute state
/// leads to. `event_context` is the marker that the change carries, if any.
pub fn session_notifications(
    name: &String,
    volume: u16,
    muted: bool,
    event_context: Option<u128>,
) -> (updates: Vec<AudioUpdate>)
    ensures
        updates@ == session_updates(*name, volume, muted, event_context),
{
    let mut updates: Vec<AudioUpdate> = Vec::new();
    let own = match event_context {
        Some(marker) => marker == APP_CONTEXT,
        None => false,
    };
    if !own {
        updates.push(AudioUpdate::VolumeChanged(name.clone(), volume));
        updates.push(AudioUpdate::MuteChanged(name.clone(), muted));
    }
    updates
}

/// The notification that a change of the default device leads to: one
/// only for the render device in the console role, with the device's name
/// or, where that could not be read, `Unknown Device`.
pub fn default_device_notification(
    is_render: bool,
    is_console: bool,
    friendly_name: Option<String>,
) -> (update: Option<AudioUpdate>)
    ensures
        update is Some <==> is_render && is_console,
        update matches Some(u) ==> u matches AudioUpdate::DefaultDeviceChanged(name) && name@
            == match friendly_name {
            Some(given) => given@,
            None => "Unknown Device"@,
        },
{
    if !is_render || !is_console {
        return None;
    }
    let name = match friendly_name {
        Some(given) => given,
        None => String::from_str("Unknown Device"),
    };
    Some(AudioUpdate::DefaultDeviceChanged(name))
}

/// Whether the names hold a name.
fn holds(names: &Vec<String>, name: &String) -> (yes: bool)
    ensures
        yes == names_hold(names@, name@),
{
    let mut i: usize = 0;
    while i < names.len()
        invariant
            i <= names@.len(),
            forall|k: int| 0 <= k < i ==> (#[trigger] names@[k])@ != name@,
        decreases names@.len() - i,
    {
        if names[i] == *name {
            return true;
        }
        i += 1;
    }
    false
}

/// The place of the entry for a name.
fn find_registered(registry: &Vec<RegistryEntry>, name: &str) -> (place: Option<usize>)
    ensures
        match place {
            Some(i) => i < registry@.len() && registry@[i as int].name@ == name@ && forall|k: int|
                0 <= k < i ==> (#[trigger] registry@[k]).name@ != name@,
            None => !registered(registry@, name@),
        },
{
    let key = String::from_str(name);
    let mut i: usize = 0;
    while i < registry.len()
        invariant
            i <= registry@.len(),
            key@ == name@,
            forall|k: int| 0 <= k < i ==> (#[trigger] registry@[k]).name@ != name@,
        decreases registry@.len() - i,
    {
        if registry[i].name == key {
            return Some(i);
        }
        i += 1;
    }
    None
}

/// Whether a session is shown under a name.
fn is_shown(sessions: &Vec<AudioSession>, name: &String) -> (yes: bool)
    ensures
        yes == shown(sessions@, name@),
{
    let mut i: usize = 0;
    while i < sessions.len()
        invariant
            i <= sessions@.len(),
            forall|k: int| 0 <= k < i ==> (#[trigger] sessions@[k]).id@ != name@,
        decreases sessions@.len() - i,
    {
        if sessions[i].id == *name {
            return true;
        }
        i += 1;
    }
    false
}

impl SessionTracker {
    /// The registry.
    pub closed spec fn registry(&self) -> Seq<RegistryEntry> {
        self.registry@
    }

    /// Whether the registry holds no name twice. Every tracker that `new`
    /// gives does, and `commit` keeps it so.
    pub open spec fn wf(&self) -> bool {
        names_distinct(self.registry())
    }

    /// A tracker with an empty registry.
    pub fn new() -> (tracker: Self)
        ensures
            tracker.registry() == Seq::<RegistryEntry>::empty(),
            tracker.wf(),
    {
        SessionTracker { registry: Vec::new() }
    }

    /// The number of entries of the registry.
    pub fn registered_count(&self) -> (count: usize)
        ensures
            count == self.registry().len(),
    {
        self.registry.len()
    }

    /// The handles registered for a session: those that a write of its
    /// volume or mute state goes to.
    pub fn handles_for(&self, session_id: &str) -> (handles: Option<ControlHandles>)
        ensures
            handles is Some <==> registered(self.registry(), session_id@),
            handles matches Some(h) ==> exists|i: int|
                0 <= i < self.registry().len() && (#[trigger] self.registry()[i]).name@
                    == session_id@ && self.registry()[i].handles == h && forall|k: int|
                    0 <= k < i ==> (#[trigger] self.registry()[k]).name@ != session_id@,
    {
        match find_registered(&self.registry, session_id) {
            Some(i) => {
                let found = &self.registry[i];
                assert(self.registry()[i as int].name@ == session_id@ && self.registry()[i as int]
                    == *found);
                Some(found.handles)
            },
            None => None,
        }
    }

    /// What a poll lists: a session for every listed raw session, in order,
    /// the names that have no handles yet, and for each of these names the
    /// first raw session that is listed under it.
    pub fn enumerate(&self, raw: &Vec<RawSession>) -> (poll: Enumeration)
        ensures
            show_all(poll.sessions@, raw@),
            texts(poll.to_register@) == names_to_register(
                self.registry(),
                poll.sessions@,
            ),
            poll.register_from@.len() == poll.to_register@.len(),
            forall|k: int|
                0 <= k < poll.register_from@.len() ==> first_listed_as(
                    raw@,
                    (#[trigger] poll.to_register@[k])@,
                    poll.register_from@[k] as int,
                ),
    {
        let mut sessions: Vec<AudioSession> = Vec::new();
        let mut to_register: Vec<String> = Vec::new();
        let mut register_from: Vec<usize> = Vec::new();
        let mut i: usize = 0;
        proof {
            reveal(Seq::filter);
            assert(raw@.take(0).filter(listed()).len() == 0);
            assert(texts(to_register@) =~= names_to_register(
                self.registry(),
                sessions@,
            ));
        }
        while i < raw.len()
            invariant
                i <= raw@.len(),
                show_all(sessions@, raw@.take(i as int)),
                texts(to_register@) == names_to_register(
                    self.registry@,
                    sessions@,
                ),
                register_from@.len() == to_register@.len(),
                forall|k: int|
                    0 <= k < register_from@.len() ==> first_listed_as(
                        raw@,
                        (#[trigger] to_register@[k])@,
                        register_from@[k] as int,
                    ),
                forall|j: int|
                    0 <= j < i && is_listed(#[trigger] raw@[j]) ==> registered(
                        self.registry@,
                        resolved_name(raw@[j]),
                    ) || names_hold(to_register@, resolved_name(raw@[j])),
            decreases raw@.len() - i,
        {
            let ghost before = raw@.take(i as int).filter(listed());
            let ghost after = raw@.take(i + 1).filter(listed());
            proof {
                reveal(Seq::filter);
                assert(raw@.take(i + 1).drop_last() =~= raw@.take(i as int));
                assert(raw@.take(i + 1).last() == raw@[i as int]);
            }
            if is_listed_session(&raw[i]) {
                let name = resolve_display_name(&raw[i]);
                let volume = match raw[i].volume {
                    Some(v) => v,
                    None => 0,
                };
                let mut session = AudioSession::new(
                    name.clone(),
                    name.clone(),
                    volume,
                    raw[i].is_muted,
                    raw[i].process_id,
                );
                session.icon_handle = raw[i].icon_handle;
                let ghost shown_before = sessions@;
                let ghost names_before = texts(to_register@);
                let ghost named_before = to_register@;
                let ghost from_before = register_from@;
                let known = find_registered(&self.registry, name.as_str()).is_some() || holds(
                    &to_register,
                    &name,
                );
                sessions.push(session);
                proof {
                    assert(after == before.push(raw@[i as int]));
                    assert forall|k: int| 0 <= k < sessions@.len() implies shows(
                        #[trigger] sessions@[k],
                        after[k],
                    ) by {
                        if k < shown_before.len() {
                            assert(sessions@[k] == shown_before[k]);
                            assert(after[k] == before[k]);
                        }
                    }
                    assert(sessions@.drop_last() =~= shown_before);
                    assert(names_hold(to_register@, name@) <==> names_before.contains(name@)) by {
                        if names_hold(to_register@, name@) {
                            let k = choose|k: int|
                                0 <= k < to_register@.len() && (#[trigger] to_register@[k])@
                                    == name@;
                            assert(names_before[k] == name@);
                        }
                        if names_before.contains(name@) {
                            let k = choose|k: int|
                                0 <= k < names_before.len() && names_before[k] == name@;
                            assert(to_register@[k]@ == name@);
                        }
                    }
                }
                if !known {
                    proof {
                        assert forall|j: int| 0 <= j < i implies !(is_listed(
                            #[trigger] raw@[j],
                        ) && resolved_name(raw@[j]) == name@) by {}
                        assert(first_listed_as(raw@, name@, i as int));
                    }
                    to_register.push(name);
                    register_from.push(i);
                    assert(texts(to_register@) =~= names_before.push(name@));
                    assert forall|k: int| 0 <= k < register_from@.len() implies first_listed_as(
                        raw@,
                        (#[trigger] to_register@[k])@,
                        register_from@[k] as int,
                    ) by {
                        if k < from_before.len() {
                            assert(to_register@[k] == named_before[k]);
                            assert(register_from@[k] == from_before[k]);
                            assert(first_listed_as(
                                raw@,
                                named_before[k]@,
                                from_before[k] as int,
                            ));
                        }
                    }
                }
                proof {
                    let last = to_register@.len() - 1;
                    assert forall|j: int| 0 <= j <= i && is_listed(
                        #[trigger] raw@[j],
                    ) implies registered(self.registry@, resolved_name(raw@[j])) || names_hold(
                        to_register@,
                        resolved_name(raw@[j]),
                    ) by {
                        let wanted = resolved_name(raw@[j]);
                        if !registered(self.registry@, wanted) {
                            if j < i {
                                let k = choose|k: int|
                                    0 <= k < named_before.len() && (#[trigger] named_before[k])@
                                        == wanted;
                                assert(to_register@[k]@ == wanted);
                            } else if known {
                                let k = choose|k: int|
                                    0 <= k < named_before.len() && (#[trigger] named_before[k])@
                                        == wanted;
                                assert(to_register@[k]@ == wanted);
                            } else {
                                assert(to_register@[last]@ == wanted);
                            }
                        }
                    }
                }
            } else {
                assert(after == before);
            }
            i += 1;
        }
        assert(raw@.take(i as int) =~= raw@);
        Enumeration { sessions, to_register, register_from }
    }

    /// Ends a poll. Of the entries of before, those under whose name a
    /// session is still shown stay as they are. Of the entries offered, those
    /// are taken under whose name a session is shown and the registry
    /// holds none yet. All other entries, old and offered, come back: each of
    /// them is to be released, and nothing else is.
    pub fn commit(&mut self, sessions: &Vec<AudioSession>, offer: Vec<RegistryEntry>) -> (released:
        Vec<RegistryEntry>)
        ensures
            final(self).registry() == registry_after(old(self).registry(), sessions@, offer@),
            released@ == released_after(old(self).registry(), sessions@, offer@),
            old(self).wf() ==> final(self).wf(),
    {
        proof {
            if old(self).wf() {
                crate::audio::laws::lemma_registry_stays_distinct(
                    old(self).registry(),
                    sessions@,
                    offer@,
                );
            }
        }
        let mut old_entries: Vec<RegistryEntry> = Vec::new();
        std::mem::swap(&mut self.registry, &mut old_entries);
        let ghost previous = old_entries@;
        let mut kept: Vec<RegistryEntry> = Vec::new();
        let mut released: Vec<RegistryEntry> = Vec::new();
        let total = old_entries.len();
        let mut i: usize = 0;
        proof {
            reveal(Seq::filter);
        }
        while i < total
            invariant
                i <= total,
                total == previous.len(),
                old_entries@.len() == total - i,
                old_entries@ == previous.skip(i as int),
                kept@ == previous.take(i as int).filter(shown_in(sessions@)),
                released@ == previous.take(i as int).filter(not_shown_in(sessions@)),
            decreases total - i,
        {
            proof {
                reveal(Seq::filter);
                assert(previous.take(i + 1).drop_last() =~= previous.take(i as int));
            }
            let entry = old_entries.remove(0);
            if is_shown(sessions, &entry.name) {
                kept.push(entry);
            } else {
                released.push(entry);
            }
            i += 1;
        }
        assert(previous.take(i as int) =~= previous);
        let ghost kept_before = kept@;
        let mut offer = offer;
        let ghost offered_all = offer@;
        let count = offer.len();
        let mut refused: Vec<RegistryEntry> = Vec::new();
        let mut k: usize = 0;
        while k < count
            invariant
                k <= count,
                count == offered_all.len(),
                offer@ == offered_all.skip(k as int),
                (kept@, refused@) == offered(kept_before, sessions@, offered_all.take(k as int)),
            decreases count - k,
        {
            proof {
                assert(offered_all.take(k + 1).drop_last() =~= offered_all.take(k as int));
            }
            let entry = offer.remove(0);
            if is_shown(sessions, &entry.name) && find_registered(&kept, entry.name.as_str()).is_none() {
                kept.push(entry);
            } else {
                refused.push(entry);
            }
            k += 1;
        }
        assert(offered_all.take(k as int) =~= offered_all);
        released.append(&mut refused);
        self.registry = kept;
        released
    }
}

} // verus!
