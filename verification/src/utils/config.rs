//! What is kept between runs: the users' names for devices and the channel
//! assignments, as a TOML document with the sections `renames` and
//! `assignments`.
//!
//! Reading and writing the file is the caller's part. Here the file's text
//! is parsed, read out and built anew; whatever else the document holds is
//! carried along untouched. A text that cannot be read or does not have the
//! expected shape gives empty results, never an error.

use vstd::prelude::*;
use vstd::string::*;

use crate::comms::device_info::{device_views, DeviceInfo, DeviceView};
use crate::utils::text::text_of;

verus! {

/// `toml::Value`: a value of a TOML document, as the TOML crate holds it.
/// Nothing is known of it here; it is only carried along.
#[verifier::external_type_specification]
#[verifier::external_body]
pub struct ExTomlValue(toml::Value);

/// A value of the configuration document.
#[derive(Debug, PartialEq)]
pub enum ConfigValue {
    Text(String),
    List(Vec<ConfigValue>),
    /// Keys with their values, in the order in which the table holds them.
    Table(Vec<(String, ConfigValue)>),
    /// Any other value: a number, a truth value or a date.
    Scalar(toml::Value),
}

/// A value of the configuration document as a plain value.
pub enum ConfigView {
    Text(Seq<char>),
    List(Seq<ConfigView>),
    Table(Seq<(Seq<char>, ConfigView)>),
    Scalar(toml::Value),
}

/// A value of the document as a plain value.
pub open spec fn plain(value: ConfigValue) -> ConfigView
    decreases value,
{
    match value {
        ConfigValue::Text(text) => ConfigView::Text(text@),
        ConfigValue::List(items) => ConfigView::List(
            Seq::new(
                items@.len(),
                |i: int|
                    if 0 <= i < items@.len() {
                        plain(items@[i])
                    } else {
                        ConfigView::List(Seq::empty())
                    },
            ),
        ),
        ConfigValue::Table(entries) => ConfigView::Table(
            Seq::new(
                entries@.len(),
                |i: int|
                    if 0 <= i < entries@.len() {
                        (entries@[i].0@, plain(entries@[i].1))
                    } else {
                        (Seq::empty(), ConfigView::List(Seq::empty()))
                    },
            ),
        ),
        ConfigValue::Scalar(value) => ConfigView::Scalar(value),
    }
}

impl View for ConfigValue {
    type V = ConfigView;

    open spec fn view(&self) -> ConfigView {
        plain(*self)
    }
}

/// What `toml::from_str` makes of a text, read as a `toml::Value`: the
/// document, or nothing where the text is no TOML.
pub uninterp spec fn parsed_toml(text: Seq<char>) -> Option<ConfigView>;

/// What `toml::to_string` makes of a document: its text, or nothing where
/// TOML cannot hold the document.
pub uninterp spec fn rendered_toml(document: ConfigView) -> Option<Seq<char>>;

/// A document that may be absent, as a plain value.
pub open spec fn view_of(document: Option<ConfigValue>) -> Option<ConfigView> {
    match document {
        Some(value) => Some(value@),
        None => None,
    }
}

/// The entries of a table's keys and values, as plain values.
pub open spec fn entry_views(entries: Seq<(String, ConfigValue)>) -> Seq<(Seq<char>, ConfigView)> {
    Seq::new(entries.len(), |i: int| (entries[i].0@, entries[i].1@))
}

/// The items of a list, as plain values.
pub open spec fn item_views(items: Seq<ConfigValue>) -> Seq<ConfigView> {
    Seq::new(items.len(), |i: int| items[i]@)
}

/// Saved names as plain values.
pub open spec fn rename_views(pairs: Seq<(String, String)>) -> Seq<(Seq<char>, Seq<char>)> {
    Seq::new(pairs.len(), |i: int| (pairs[i].0@, pairs[i].1@))
}

/// Saved channel assignments as plain values.
pub open spec fn assignment_views(pairs: Seq<(String, [String; 5])>) -> Seq<
    (Seq<char>, Seq<Seq<char>>),
> {
    Seq::new(pairs.len(), |i: int| (pairs[i].0@, Seq::new(5, |k: int| pairs[i].1[k]@)))
}

/// The place of the first entry with this key.
pub open spec fn find_key<V>(entries: Seq<(Seq<char>, V)>, key: Seq<char>) -> Option<int>
    decreases entries.len(),
{
    if entries.len() == 0 {
        None
    } else {
        match find_key(entries.drop_last(), key) {
            Some(i) => Some(i),
            None => if entries.last().0 == key {
                Some(entries.len() - 1)
            } else {
                None
            },
        }
    }
}

/// The entries of a document: those of its table, and none for a document
/// that is absent or no table.
pub open spec fn base_entries(document: Option<ConfigView>) -> Seq<(Seq<char>, ConfigView)> {
    match document {
        Some(ConfigView::Table(entries)) => entries,
        _ => Seq::empty(),
    }
}

/// The entries of a section of a document: none where the document has no
/// such key or holds something other than a table under it.
pub open spec fn section_entries(document: Option<ConfigView>, name: Seq<char>) -> Seq<
    (Seq<char>, ConfigView),
> {
    let entries = base_entries(document);
    match find_key(entries, name) {
        Some(i) => match entries[i].1 {
            ConfigView::Table(inner) => inner,
            _ => Seq::empty(),
        },
        None => Seq::empty(),
    }
}

/// The entries with `value` under `key`: in the place of the first entry
/// with the key, or at the end where there is none.
pub open spec fn put(entries: Seq<(Seq<char>, ConfigView)>, key: Seq<char>, value: ConfigView) -> Seq<
    (Seq<char>, ConfigView),
> {
    match find_key(entries, key) {
        Some(i) => entries.update(i, (key, value)),
        None => entries.push((key, value)),
    }
}

/// The names that a section holds: its entries with a text as value, in
/// order.
pub open spec fn renames_of(entries: Seq<(Seq<char>, ConfigView)>) -> Seq<(Seq<char>, Seq<char>)>
    decreases entries.len(),
{
    if entries.len() == 0 {
        Seq::empty()
    } else {
        let before = renames_of(entries.drop_last());
        match entries.last().1 {
            ConfigView::Text(name) => before.push((entries.last().0, name)),
            _ => before,
        }
    }
}

/// The five channels that a list holds: the texts among its first five
/// items, each in its place, and an unassigned channel wherever the list
/// is short or holds something else.
pub open spec fn slots_of(items: Seq<ConfigView>) -> Seq<Seq<char>> {
    Seq::new(
        5,
        |k: int|
            if k < items.len() {
                match items[k] {
                    ConfigView::Text(key) => key,
                    _ => Seq::empty(),
                }
            } else {
                Seq::empty()
            },
    )
}

/// The channel assignments that a section holds: its entries with a list as
/// value, in order.
pub open spec fn assignments_of(entries: Seq<(Seq<char>, ConfigView)>) -> Seq<
    (Seq<char>, Seq<Seq<char>>),
>
    decreases entries.len(),
{
    if entries.len() == 0 {
        Seq::empty()
    } else {
        let before = assignments_of(entries.drop_last());
        match entries.last().1 {
            ConfigView::List(items) => before.push((entries.last().0, slots_of(items))),
            _ => before,
        }
    }
}

/// The saved name of the device with this UUID text: that of the first pair
/// with the UUID.
pub open spec fn rename_for(pairs: Seq<(Seq<char>, Seq<char>)>, uuid: Seq<char>) -> Option<Seq<char>> {
    match find_key(pairs, uuid) {
        Some(i) => Some(pairs[i].1),
        None => None,
    }
}

/// Five unassigned channels.
pub open spec fn unassigned() -> Seq<Seq<char>> {
    Seq::new(5, |k: int| Seq::<char>::empty())
}

/// The saved channels of the device with this UUID text: those of the first
/// pair with the UUID, and five unassigned ones without such a pair.
pub open spec fn slots_for(pairs: Seq<(Seq<char>, Seq<Seq<char>>)>, uuid: Seq<char>) -> Seq<Seq<char>> {
    match find_key(pairs, uuid) {
        Some(i) => pairs[i].1,
        None => unassigned(),
    }
}

/// The UUID text under which a device is saved.
pub open spec fn key_of(device: DeviceView) -> Seq<char> {
    crate::comms::device_info::uuid_text(device.uuid@)
}

/// The section of names for these devices: one entry per UUID that has a
/// user's name, the last device of a UUID deciding.
pub open spec fn rename_entries(devices: Seq<DeviceView>) -> Seq<(Seq<char>, ConfigView)>
    decreases devices.len(),
{
    if devices.len() == 0 {
        Seq::empty()
    } else {
        let before = rename_entries(devices.drop_last());
        match devices.last().rename {
            Some(name) => put(before, key_of(devices.last()), ConfigView::Text(name)),
            None => before,
        }
    }
}

/// The list that holds five channels.
pub open spec fn slot_list(slots: Seq<Seq<char>>) -> ConfigView {
    ConfigView::List(Seq::new(5, |k: int| ConfigView::Text(slots[k])))
}

/// The section of channel assignments for these devices: one entry per
/// UUID, the last device of a UUID deciding.
pub open spec fn assignment_entries(devices: Seq<DeviceView>) -> Seq<(Seq<char>, ConfigView)>
    decreases devices.len(),
{
    if devices.len() == 0 {
        Seq::empty()
    } else {
        put(
            assignment_entries(devices.drop_last()),
            key_of(devices.last()),
            slot_list(devices.last().channel_assignments),
        )
    }
}

/// The document with the section `name` set to `entries` and all else as it
/// was. A document that is absent or no table counts as an empty one.
pub open spec fn with_section(
    document: Option<ConfigView>,
    name: Seq<char>,
    entries: Seq<(Seq<char>, ConfigView)>,
) -> ConfigView {
    ConfigView::Table(put(base_entries(document), name, ConfigView::Table(entries)))
}

/// Turns a value of the TOML crate into a value of the document, variant by
/// variant; a number, a truth value or a date is kept as it is.
#[verifier::external_body]
fn from_toml(value: toml::Value) -> ConfigValue {
    match value {
        toml::Value::String(text) => ConfigValue::Text(text),
        toml::Value::Array(items) => ConfigValue::List(items.into_iter().map(from_toml).collect()),
        toml::Value::Table(table) => ConfigValue::Table(
            table.into_iter().map(|(key, value)| (key, from_toml(value))).collect(),
        ),
        other => ConfigValue::Scalar(other),
    }
}

/// Turns a value of the document into a value of the TOML crate, variant by
/// variant.
#[verifier::external_body]
fn to_toml(value: &ConfigValue) -> toml::Value {
    match value {
        ConfigValue::Text(text) => toml::Value::String(text.clone()),
        ConfigValue::List(items) => toml::Value::Array(items.iter().map(to_toml).collect()),
        ConfigValue::Table(entries) => toml::Value::Table(
            entries.iter().map(|(key, value)| (key.clone(), to_toml(value))).collect(),
        ),
        ConfigValue::Scalar(value) => value.clone(),
    }
}

/// `toml::from_str`, read as a `toml::Value`: the document that the text
/// holds, or nothing where the text is no TOML. The document depends on the
/// text alone.
#[verifier::external_body]
pub(crate) fn parse_toml(text: &str) -> (document: Option<ConfigValue>)
    ensures
        view_of(document) == parsed_toml(text@),
{
    toml::from_str::<toml::Value>(text).ok().map(from_toml)
}

/// `toml::to_string`: the text of the document, or nothing where TOML
/// cannot hold it. The text depends on the document alone.
#[verifier::external_body]
pub(crate) fn render_toml(document: &ConfigValue) -> (text: Option<String>)
    ensures
        text_of(text) == rendered_toml(document@),
{
    toml::to_string(&to_toml(document)).ok()
}

/// A table's view holds the views of its entries.
pub proof fn lemma_table_view(entries: Vec<(String, ConfigValue)>)
    ensures
        ConfigValue::Table(entries)@ == ConfigView::Table(entry_views(entries@)),
{
    assert(ConfigValue::Table(entries)@->Table_0 =~= entry_views(entries@));
}

/// A list's view holds the views of its items.
pub proof fn lemma_list_view(items: Vec<ConfigValue>)
    ensures
        ConfigValue::List(items)@ == ConfigView::List(item_views(items@)),
{
    assert(ConfigValue::List(items)@->List_0 =~= item_views(items@));
}

/// What `find_key` finds: the first place with the key, or that there is
/// none.
pub proof fn lemma_find_key<V>(entries: Seq<(Seq<char>, V)>, key: Seq<char>)
    ensures
        match find_key(entries, key) {
            Some(i) => {
                &&& 0 <= i < entries.len()
                &&& entries[i].0 == key
                &&& forall|k: int| 0 <= k < i ==> (#[trigger] entries[k]).0 != key
            },
            None => forall|k: int| 0 <= k < entries.len() ==> (#[trigger] entries[k]).0 != key,
        },
    decreases entries.len(),
{
    if entries.len() > 0 {
        let front = entries.drop_last();
        lemma_find_key(front, key);
        match find_key(front, key) {
            Some(i) => {
                assert forall|k: int| 0 <= k < i implies (#[trigger] entries[k]).0 != key by {
                    assert(entries[k] == front[k]);
                }
            },
            None => {
                assert forall|k: int| 0 <= k < entries.len() - 1 implies (
                #[trigger] entries[k]).0 != key by {
                    assert(entries[k] == front[k]);
                }
            },
        }
    }
}

/// The first place with a key decides what `find_key` finds: that place,
/// or nothing where the key stands nowhere.
pub proof fn lemma_first_place<V>(entries: Seq<(Seq<char>, V)>, key: Seq<char>, place: int)
    requires
        0 <= place <= entries.len(),
        forall|k: int| 0 <= k < place ==> (#[trigger] entries[k]).0 != key,
        place < entries.len() ==> entries[place].0 == key,
    ensures
        find_key(entries, key) == if place < entries.len() {
            Some(place)
        } else {
            None::<int>
        },
{
    lemma_find_key(entries, key);
    if let Some(first) = find_key(entries, key) {
        let found = entries[first];
        assert(found.0 == key);
    }
    if place < entries.len() {
        let here = entries[place];
        assert(here.0 == key);
    }
}

/// The first place at which the pairs hold a key, or their number where
/// they do not hold it.
fn first_place<V>(pairs: &Vec<(String, V)>, key: &String) -> (place: usize)
    ensures
        place <= pairs@.len(),
        forall|k: int| 0 <= k < place ==> (#[trigger] pairs@[k]).0@ != key@,
        place < pairs@.len() ==> pairs@[place as int].0@ == key@,
{
    let mut i: usize = 0;
    while i < pairs.len()
        invariant
            i <= pairs@.len(),
            forall|k: int| 0 <= k < i ==> (#[trigger] pairs@[k]).0@ != key@,
        decreases pairs@.len() - i,
    {
        if pairs[i].0 == *key {
            return i;
        }
        i += 1;
    }
    i
}

/// The place of the first entry with this key.
fn find_entry(entries: &Vec<(String, ConfigValue)>, key: &String) -> (place: Option<usize>)
    ensures
        match place {
            Some(i) => find_key(entry_views(entries@), key@) == Some(i as int) && i
                < entries@.len(),
            None => find_key(entry_views(entries@), key@) is None,
        },
{
    let place = first_place(entries, key);
    proof {
        let views = entry_views(entries@);
        assert forall|k: int| 0 <= k < place implies (#[trigger] views[k]).0 != key@ by {
            assert(entries@[k].0@ != key@);
        }
        lemma_first_place(views, key@, place as int);
    }
    if place < entries.len() {
        Some(place)
    } else {
        None
    }
}
/// The entries of a section of a document.
fn section<'a>(document: &'a Option<ConfigValue>, name: &str) -> (entries: Option<
    &'a Vec<(String, ConfigValue)>,
>)
    ensures
        section_entries(view_of(*document), name@) == match entries {
            Some(inner) => entry_views(inner@),
            None => Seq::empty(),
        },
{
    match document {
        Some(ConfigValue::Table(entries)) => {
            proof {
                lemma_table_view(*entries);
            }
            let key = String::from_str(name);
            match find_entry(entries, &key) {
                Some(i) => {
                    match &entries[i].1 {
                        ConfigValue::Table(inner) => {
                            proof {
                                lemma_table_view(*inner);
                            }
                            Some(inner)
                        },
                        _ => None,
                    }
                },
                None => None,
            }
        },
        _ => None,
    }
}

/// The names that a document holds in its section `renames`.
pub fn renames_in(document: &Option<ConfigValue>) -> (pairs: Vec<(String, String)>)
    ensures
        rename_views(pairs@) == renames_of(section_entries(view_of(*document), "renames"@)),
{
    let mut pairs: Vec<(String, String)> = Vec::new();
    match section(document, "renames") {
        Some(entries) => {
            let ghost views = entry_views(entries@);
            let mut i: usize = 0;
            while i < entries.len()
                invariant
                    i <= entries@.len(),
                    views == entry_views(entries@),
                    rename_views(pairs@) == renames_of(views.take(i as int)),
                decreases entries@.len() - i,
            {
                proof {
                    assert(views.take(i + 1).drop_last() =~= views.take(i as int));
                }
                if let ConfigValue::Text(name) = &entries[i].1 {
                    pairs.push((entries[i].0.clone(), name.clone()));
                }
                i += 1;
            }
            assert(views.take(i as int) =~= views);
        },
        None => {},
    }
    pairs
}

/// The five channels that a list holds.
fn slots_in(items: &Vec<ConfigValue>) -> (slots: [String; 5])
    ensures
        Seq::new(5, |k: int| slots[k]@) == slots_of(item_views(items@)),
{
    let mut slots = [String::new(), String::new(), String::new(), String::new(), String::new()];
    let mut k: usize = 0;
    while k < 5 && k < items.len()
        invariant
            k <= 5,
            k <= items@.len(),
            forall|j: int| 0 <= j < k ==> slots[j]@ == slots_of(item_views(items@))[j],
            forall|j: int| k <= j < 5 ==> slots[j]@ == Seq::<char>::empty(),
        decreases 5 - k,
    {
        if let ConfigValue::Text(key) = &items[k] {
            slots[k] = key.clone();
        }
        k += 1;
    }
    slots
}

/// The channel assignments that a document holds in its section
/// `assignments`.
pub fn assignments_in(document: &Option<ConfigValue>) -> (pairs: Vec<(String, [String; 5])>)
    ensures
        assignment_views(pairs@) == assignments_of(
            section_entries(view_of(*document), "assignments"@),
        ),
{
    let mut pairs: Vec<(String, [String; 5])> = Vec::new();
    match section(document, "assignments") {
        Some(entries) => {
            let ghost views = entry_views(entries@);
            let mut i: usize = 0;
            while i < entries.len()
                invariant
                    i <= entries@.len(),
                    views == entry_views(entries@),
                    assignment_views(pairs@) == assignments_of(views.take(i as int)),
                decreases entries@.len() - i,
            {
                proof {
                    assert(views.take(i + 1).drop_last() =~= views.take(i as int));
                }
                if let ConfigValue::List(items) = &entries[i].1 {
                    proof {
                        lemma_list_view(*items);
                    }
                    let slots = slots_in(items);
                    pairs.push((entries[i].0.clone(), slots));
                }
                i += 1;
            }
            assert(views.take(i as int) =~= views);
        },
        None => {},
    }
    pairs
}

/// The saved name for a UUID text.
pub fn find_rename(pairs: &Vec<(String, String)>, uuid: &String) -> (name: Option<String>)
    ensures
        text_of(name) == rename_for(rename_views(pairs@), uuid@),
{
    let place = first_place(pairs, uuid);
    proof {
        let views = rename_views(pairs@);
        assert forall|k: int| 0 <= k < place implies (#[trigger] views[k]).0 != uuid@ by {
            assert(pairs@[k].0@ != uuid@);
        }
        lemma_first_place(views, uuid@, place as int);
    }
    if place < pairs.len() {
        Some(pairs[place].1.clone())
    } else {
        None
    }
}

/// The saved channels for a UUID text.
pub fn find_assignments(pairs: &Vec<(String, [String; 5])>, uuid: &String) -> (slots: [String; 5])
    ensures
        Seq::new(5, |k: int| slots[k]@) == slots_for(assignment_views(pairs@), uuid@),
{
    let place = first_place(pairs, uuid);
    proof {
        let views = assignment_views(pairs@);
        assert forall|k: int| 0 <= k < place implies (#[trigger] views[k]).0 != uuid@ by {
            assert(pairs@[k].0@ != uuid@);
        }
        lemma_first_place(views, uuid@, place as int);
    }
    if place < pairs.len() {
        let slots = pairs[place].1.clone();
        assert(Seq::new(5, |k: int| slots[k]@) =~= assignment_views(pairs@)[place as int].1);
        slots
    } else {
        let slots = [String::new(), String::new(), String::new(), String::new(), String::new()];
        assert(Seq::new(5, |k: int| slots[k]@) =~= unassigned());
        slots
    }
}
/// The document that a file's text holds; none for a file that could not
/// be read.
pub open spec fn document_of(text: Option<&str>) -> Option<ConfigView> {
    match text {
        Some(t) => parsed_toml(t@),
        None => None,
    }
}

/// Parses a file's text, if the file could be read.
fn parse_file(text: Option<&str>) -> (document: Option<ConfigValue>)
    ensures
        view_of(document) == document_of(text),
{
    match text {
        Some(t) => parse_toml(t),
        None => None,
    }
}

/// The saved names in a configuration file's text; `None` stands for a
/// file that could not be read.
pub fn load_device_renames(text: Option<&str>) -> (pairs: Vec<(String, String)>)
    ensures
        rename_views(pairs@) == renames_of(section_entries(document_of(text), "renames"@)),
{
    let document = parse_file(text);
    renames_in(&document)
}

/// The saved channel assignments in a configuration file's text; `None`
/// stands for a file that could not be read.
pub fn load_device_assignments(text: Option<&str>) -> (pairs: Vec<(String, [String; 5])>)
    ensures
        assignment_views(pairs@) == assignments_of(
            section_entries(document_of(text), "assignments"@),
        ),
{
    let document = parse_file(text);
    assignments_in(&document)
}

/// Sets `value` under `key`: in the place of the first entry with the key,
/// or at the end.
fn put_entry(entries: &mut Vec<(String, ConfigValue)>, key: String, value: ConfigValue)
    ensures
        entry_views(final(entries)@) == put(entry_views(old(entries)@), key@, value@),
{
    match find_entry(entries, &key) {
        Some(i) => {
            entries[i] = (key, value);
        },
        None => {
            entries.push((key, value));
        },
    }
}

/// The section of names for these devices.
pub fn rename_section(devices: &Vec<DeviceInfo>) -> (section: Vec<(String, ConfigValue)>)
    ensures
        entry_views(section@) == rename_entries(device_views(devices@)),
{
    let mut entries: Vec<(String, ConfigValue)> = Vec::new();
    let ghost views = device_views(devices@);
    let mut i: usize = 0;
    while i < devices.len()
        invariant
            i <= devices@.len(),
            views == device_views(devices@),
            entry_views(entries@) == rename_entries(views.take(i as int)),
        decreases devices@.len() - i,
    {
        proof {
            assert(views.take(i + 1).drop_last() =~= views.take(i as int));
        }
        if let Some(name) = &devices[i].rename {
            let key = DeviceInfo::uuid_str(&devices[i].uuid);
            put_entry(&mut entries, key, ConfigValue::Text(name.clone()));
        }
        i += 1;
    }
    assert(views.take(i as int) =~= views);
    entries
}

/// The section of channel assignments for these devices.
pub fn assignment_section(devices: &Vec<DeviceInfo>) -> (section: Vec<(String, ConfigValue)>)
    ensures
        entry_views(section@) == assignment_entries(device_views(devices@)),
{
    let mut entries: Vec<(String, ConfigValue)> = Vec::new();
    let ghost views = device_views(devices@);
    let mut i: usize = 0;
    while i < devices.len()
        invariant
            i <= devices@.len(),
            views == device_views(devices@),
            entry_views(entries@) == assignment_entries(views.take(i as int)),
        decreases devices@.len() - i,
    {
        proof {
            assert(views.take(i + 1).drop_last() =~= views.take(i as int));
        }
        let mut items: Vec<ConfigValue> = Vec::new();
        let mut k: usize = 0;
        while k < 5
            invariant
                k <= 5,
                i < devices@.len(),
                items@.len() == k,
                forall|j: int|
                    0 <= j < k ==> (#[trigger] items@[j])@ == ConfigView::Text(
                        devices@[i as int]@.channel_assignments[j],
                    ),
            decreases 5 - k,
        {
            items.push(ConfigValue::Text(devices[i].channel_assignments[k].clone()));
            k += 1;
        }
        proof {
            lemma_list_view(items);
            assert(item_views(items@) =~= slot_list(
                devices@[i as int]@.channel_assignments,
            )->List_0);
        }
        let key = DeviceInfo::uuid_str(&devices[i].uuid);
        put_entry(&mut entries, key, ConfigValue::List(items));
        i += 1;
    }
    assert(views.take(i as int) =~= views);
    entries
}

/// Sets a section of a document and leaves all else as it was. A document
/// that is absent or no table counts as an empty one.
pub fn set_section(
    document: Option<ConfigValue>,
    name: &str,
    section: Vec<(String, ConfigValue)>,
) -> (updated: ConfigValue)
    ensures
        updated@ == with_section(view_of(document), name@, entry_views(section@)),
{
    let mut entries: Vec<(String, ConfigValue)> = match document {
        Some(ConfigValue::Table(entries)) => {
            proof {
                lemma_table_view(entries);
            }
            entries
        },
        _ => {
            let empty: Vec<(String, ConfigValue)> = Vec::new();
            assert(entry_views(empty@) =~= Seq::empty());
            empty
        },
    };
    proof {
        lemma_table_view(section);
    }
    put_entry(&mut entries, String::from_str(name), ConfigValue::Table(section));
    proof {
        lemma_table_view(entries);
    }
    ConfigValue::Table(entries)
}

/// The text of the configuration file after the names of these devices
/// were saved into it: the file's document with its section `renames`
/// replaced. `existing` is the file's text so far, `None` for a file that
/// could not be read. The result is `None` where TOML cannot hold the
/// document; the file is then left as it is.
pub fn save_device_renames(existing: Option<&str>, devices: &Vec<DeviceInfo>) -> (text: Option<
    String,
>)
    ensures
        text_of(text) == rendered_toml(
            with_section(
                document_of(existing),
                "renames"@,
                rename_entries(device_views(devices@)),
            ),
        ),
{
    let document = parse_file(existing);
    let updated = set_section(document, "renames", rename_section(devices));
    render_toml(&updated)
}

/// The text of the configuration file after the channel assignments of
/// these devices were saved into it: the file's document with its section
/// `assignments` replaced. `existing` is the file's text so far, `None` for
/// a file that could not be read. The result is `None` where TOML cannot
/// hold the document; the file is then left as it is.
pub fn save_device_assignments(existing: Option<&str>, devices: &Vec<DeviceInfo>) -> (text: Option<
    String,
>)
    ensures
        text_of(text) == rendered_toml(
            with_section(
                document_of(existing),
                "assignments"@,
                assignment_entries(device_views(devices@)),
            ),
        ),
{
    let document = parse_file(existing);
    let updated = set_section(document, "assignments", assignment_section(devices));
    render_toml(&updated)
}

} // verus!
