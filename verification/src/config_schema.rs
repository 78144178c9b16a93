//! The description of the settings, by which they are shown and edited.

use crate::text;
use indexmap::IndexMap;
use vstd::prelude::*;

verus! {

// ---------------------------------------------------------------------
// The description

/// On what a setting or a section depends.
#[derive(Debug)]
pub enum Requires {
    /// On nothing.
    Nothing,
    /// One setting must be truthy.
    Single(String),
    /// Several settings must all be truthy.
    All(Vec<String>),
    /// A setting must have a value, or hold one.
    Predicate(RequiresPredicate),
}

impl Default for Requires {
    fn default() -> (r: Self)
        ensures
            r is Nothing,
    {
        Requires::Nothing
    }
}

#[derive(Debug)]
pub struct RequiresPredicate {
    pub field: String,
    pub equals: Option<String>,
    pub contains: Option<String>,
}

/// Whether a dependency is left out where it is written down.
pub fn is_requires_none(r: &Requires) -> (result: bool)
    ensures
        result == (*r is Nothing),
{
    match r {
        Requires::Nothing => true,
        _ => false,
    }
}

/// One setting.
#[derive(Debug)]
pub struct ConfigValue {
    pub typ: String,
    pub description: String,
    pub values: Option<Vec<String>>,
    /// Only shown on demand.
    pub advanced: bool,
    pub requires: Requires,
}

impl Default for ConfigValue {
    fn default() -> (r: Self)
        ensures
            r.typ@ == ""@,
            r.description@ == ""@,
            r.values is None,
            !r.advanced,
            r.requires is Nothing,
    {
        ConfigValue {
            typ: "".to_owned(),
            description: "".to_owned(),
            values: None,
            advanced: false,
            requires: Requires::Nothing,
        }
    }
}

/// A section of settings, with sections within.
#[derive(Debug)]
pub struct ConfigValues {
    pub title: String,
    pub values: IndexMap<String, ConfigValue>,
    pub collapsed_by_default: bool,
    pub subsections: Vec<ConfigValues>,
    /// Only shown on demand.
    pub advanced: bool,
    pub requires: Requires,
}

impl Default for ConfigValues {
    fn default() -> (r: Self)
        ensures
            r.title@ == ""@,
            value_entries(r.values).len() == 0,
            !r.collapsed_by_default,
            r.subsections@.len() == 0,
            !r.advanced,
            r.requires is Nothing,
    {
        ConfigValues {
            title: "".to_owned(),
            values: new_values(),
            collapsed_by_default: false,
            subsections: Vec::new(),
            advanced: false,
            requires: Requires::Nothing,
        }
    }
}

#[derive(Debug)]
pub struct ConfigJson {
    pub titles: Vec<ConfigValues>,
}

impl Default for ConfigJson {
    fn default() -> (r: Self)
        ensures
            r.titles@.len() == 0,
    {
        ConfigJson { titles: Vec::new() }
    }
}

/// The description for clients that know neither sections within sections nor
/// dependencies.
#[derive(Debug)]
pub struct ConfigDataJson {
    pub titles: Vec<ConfigDataValues>,
}

#[derive(Debug)]
pub struct ConfigDataValues {
    pub title: String,
    pub values: IndexMap<String, ConfigDataValue>,
}

#[derive(Debug)]
pub struct ConfigDataValue<T = String, L = Vec<String>> {
    pub typ: T,
    pub description: T,
    pub values: Option<L>,
}

pub type DataModel = ConfigDataValue<Seq<char>, Seq<Seq<char>>>;

impl View for ConfigDataValue<String, Vec<String>> {
    type V = ConfigDataValue<Seq<char>, Seq<Seq<char>>>;

    open spec fn view(&self) -> ConfigDataValue<Seq<char>, Seq<Seq<char>>> {
        ConfigDataValue {
            typ: self.typ@,
            description: self.description@,
            values: self.values.deep_view(),
        }
    }
}

/// A section as its title and its settings in their order.
pub struct FlatSection {
    pub title: Seq<char>,
    pub values: Seq<(Seq<char>, DataModel)>,
}

impl DeepView for ConfigDataValues {
    type V = FlatSection;

    open spec fn deep_view(&self) -> FlatSection {
        FlatSection { title: self.title@, values: data_entries(self.values) }
    }
}

// ---------------------------------------------------------------------
// Maps that keep their order

#[verifier::external_type_specification]
#[verifier::external_body]
#[verifier::reject_recursive_types(K)]
#[verifier::reject_recursive_types(V)]
#[verifier::reject_recursive_types(S)]
pub struct ExIndexMap<K, V, S>(IndexMap<K, V, S>);

/// The settings of a section, in their order.
pub uninterp spec fn value_entries(map: IndexMap<String, ConfigValue>) -> Seq<(Seq<char>, ConfigValue)>;

/// The settings of a section without dependencies, in their order.
pub uninterp spec fn data_entries(map: IndexMap<String, ConfigDataValue>) -> Seq<(Seq<char>, DataModel)>;

/// Where a key stands, or -1.
pub open spec fn key_at<V>(entries: Seq<(Seq<char>, V)>, key: Seq<char>) -> int
    decreases entries.len(),
{
    if entries.len() == 0 {
        -1
    } else if entries.last().0 == key {
        entries.len() - 1
    } else {
        key_at(entries.drop_last(), key)
    }
}

/// The entries with one more, or with another value in its place.
pub open spec fn with_entry<V>(entries: Seq<(Seq<char>, V)>, key: Seq<char>, value: V) -> Seq<
    (Seq<char>, V),
> {
    if key_at(entries, key) >= 0 {
        entries.update(key_at(entries, key), (key, value))
    } else {
        entries.push((key, value))
    }
}

/// `indexmap::IndexMap::new`: no entries.
#[verifier::external_body]
fn new_values() -> (r: IndexMap<String, ConfigValue>)
    ensures
        value_entries(r).len() == 0,
{
    IndexMap::new()
}

/// `indexmap::IndexMap::insert`: a key that is there keeps its place and gets the
/// value; one that is not comes last.
#[verifier::external_body]
fn insert_value(map: &mut IndexMap<String, ConfigValue>, key: String, value: ConfigValue)
    ensures
        value_entries(*final(map)) == with_entry(value_entries(*old(map)), key@, value),
{
    map.insert(key, value);
}

/// `indexmap::IndexMap::len`: how many entries there are.
#[verifier::external_body]
fn count_values(map: &IndexMap<String, ConfigValue>) -> (r: usize)
    ensures
        r == value_entries(*map).len(),
{
    map.len()
}

/// Whether a key stands at one place and at no other.
pub open spec fn stands_only_at<V>(
    entries: Seq<(Seq<char>, V)>,
    key: Seq<char>,
    index: int,
) -> bool {
    &&& entries[index].0 == key
    &&& forall|j: int|
        0 <= j < entries.len() && j != index ==> (#[trigger] entries[j]).0 != key
}

/// `indexmap::IndexMap::get_index`: the entry at a place, if there is one. No other
/// entry has its key.
#[verifier::external_body]
fn value_at(map: &IndexMap<String, ConfigValue>, index: usize) -> (r: Option<
    (&String, &ConfigValue),
>)
    ensures
        match r {
            Some(e) => index < value_entries(*map).len() && (e.0@, *e.1) == value_entries(
                *map,
            )[index as int] && stands_only_at(value_entries(*map), e.0@, index as int),
            None => index >= value_entries(*map).len(),
        },
{
    map.get_index(index)
}

/// `indexmap::IndexMap::new`: no entries.
#[verifier::external_body]
fn new_data() -> (r: IndexMap<String, ConfigDataValue>)
    ensures
        data_entries(r).len() == 0,
{
    IndexMap::new()
}

/// `indexmap::IndexMap::insert`: a key that is there keeps its place and gets the
/// value; one that is not comes last.
#[verifier::external_body]
fn insert_data(map: &mut IndexMap<String, ConfigDataValue>, key: String, value: ConfigDataValue)
    ensures
        data_entries(*final(map)) == with_entry(data_entries(*old(map)), key@, value@),
{
    map.insert(key, value);
}

proof fn lemma_new_key<V>(entries: Seq<(Seq<char>, V)>, key: Seq<char>)
    requires
        forall|i: int| 0 <= i < entries.len() ==> (#[trigger] entries[i]).0 != key,
    ensures
        key_at(entries, key) == -1,
    decreases entries.len(),
{
    if entries.len() > 0 {
        assert(entries[entries.len() - 1].0 != key);
        assert forall|i: int| 0 <= i < entries.drop_last().len() implies (
        #[trigger] entries.drop_last()[i]).0 != key by {
            assert(entries[i].0 != key);
        }
        lemma_new_key(entries.drop_last(), key);
    }
}

// ---------------------------------------------------------------------
// Flattening

/// What a client without dependencies is told of a setting.
pub open spec fn data_of(v: ConfigValue) -> DataModel {
    ConfigDataValue {
        typ: v.typ@,
        description: v.description@,
        values: v.values.deep_view(),
    }
}

/// What such a client is told of the settings of a section, in their order.
pub open spec fn data_of_entries(entries: Seq<(Seq<char>, ConfigValue)>) -> Seq<
    (Seq<char>, DataModel),
> {
    entries.map_values(|e: (Seq<char>, ConfigValue)| (e.0, data_of(e.1)))
}

/// The title of a section below another one: the way that leads to it.
pub open spec fn full_title(parent: Seq<char>, title: Seq<char>) -> Seq<char> {
    if parent.len() == 0 {
        title
    } else if title.len() == 0 {
        parent
    } else {
        parent + " / "@ + title
    }
}

/// A section and the sections below it, one behind the other. Those without
/// settings are left out.
pub open spec fn flat(section: ConfigValues, parent: Seq<char>) -> Seq<FlatSection>
    decreases section, section.subsections@.len() + 1,
{
    let title = full_title(parent, section.title@);
    let entries = value_entries(section.values);
    let own = if entries.len() == 0 {
        Seq::empty()
    } else {
        seq![FlatSection { title, values: data_of_entries(entries) }]
    };
    own + flat_below(section, title, section.subsections@.len())
}

/// The first `n` sections below a section.
pub open spec fn flat_below(section: ConfigValues, title: Seq<char>, n: nat) -> Seq<FlatSection>
    decreases section, n,
{
    if n == 0 || n > section.subsections@.len() {
        Seq::empty()
    } else {
        flat_below(section, title, (n - 1) as nat) + flat(
            section.subsections[n - 1],
            title,
        )
    }
}

pub open spec fn flat_titles(titles: Seq<ConfigValues>, n: int) -> Seq<FlatSection>
    decreases n,
{
    if n <= 0 {
        Seq::empty()
    } else {
        flat_titles(titles, n - 1) + flat(titles[n - 1], Seq::empty())
    }
}

fn flat_values(map: &IndexMap<String, ConfigValue>) -> (r: Option<IndexMap<String, ConfigDataValue>>)
    ensures
        match r {
            Some(m) => value_entries(*map).len() > 0 && data_entries(m) == data_of_entries(
                value_entries(*map),
            ),
            None => value_entries(*map).len() == 0,
        },
{
    let n: usize = count_values(map);
    if n == 0 {
        return None;
    }
    let mut out = new_data();
    let ghost entries = value_entries(*map);
    let ghost all = data_of_entries(entries);
    assert(data_entries(out) =~= all.take(0));
    for i in 0..n
        invariant
            entries == value_entries(*map),
            n == entries.len(),
            all == data_of_entries(entries),
            data_entries(out) == all.take(i as int),
    {
        match value_at(map, i) {
            Some((key, value)) => {
                let values = match &value.values {
                    Some(list) => Some(text::copy_list(list)),
                    None => None,
                };
                let data = ConfigDataValue {
                    typ: value.typ.clone(),
                    description: value.description.clone(),
                    values,
                };
                proof {
                    assert(data@ == data_of(*value));
                    let before = all.take(i as int);
                    assert forall|k: int| 0 <= k < before.len() implies (#[trigger] before[k]).0
                        != key@ by {
                        assert(entries[k].0 != entries[i as int].0);
                    }
                    lemma_new_key(before, key@);
                    assert(all.take(i + 1) =~= before.push((key@, data@)));
                }
                insert_data(&mut out, key.clone(), data);
            },
            None => vstd::pervasive::unreached(),
        }
    }
    assert(all.take(n as int) =~= all);
    Some(out)
}

fn push_flat(out: &mut Vec<ConfigDataValues>, section: ConfigDataValues)
    ensures
        final(out).deep_view() == old(out).deep_view().push(section.deep_view()),
{
    let ghost before = out.deep_view();
    out.push(section);
    assert(out.deep_view() =~= before.push(section.deep_view()));
}

fn flatten_config_data_section(
    section: &ConfigValues,
    parent_title: &str,
    out: &mut Vec<ConfigDataValues>,
)
    ensures
        final(out).deep_view() == old(out).deep_view() + flat(*section, parent_title@),
    decreases section,
{
    let ghost before = out.deep_view();
    let title = if parent_title.is_empty() {
        section.title.clone()
    } else if section.title.as_str().is_empty() {
        parent_title.to_owned()
    } else {
        text::cat3(parent_title, " / ", section.title.as_str())
    };
    let ghost full = full_title(parent_title@, section.title@);
    assert(title@ == full);
    if let Some(values) = flat_values(&section.values) {
        push_flat(out, ConfigDataValues { title: title.clone(), values });
    }
    let ghost own = out.deep_view();
    assert(own =~= own + flat_below(*section, full, 0));
    for i in 0..section.subsections.len()
        invariant
            title@ == full,
            out.deep_view() == own + flat_below(*section, full, i as nat),
    {
        assert(decreases_to!(*section => section.subsections));
        flatten_config_data_section(&section.subsections[i], title.as_str(), out);
        assert(out.deep_view() =~= own + flat_below(*section, full, (i + 1) as nat));
    }
    assert(out.deep_view() =~= before + flat(*section, parent_title@));
}

impl ConfigJson {
    /// The sections one behind the other, each under the titles that lead to it.
    pub fn to_flat_config_data(&self) -> (r: ConfigDataJson)
        ensures
            r.titles.deep_view() == flat_titles(self.titles@, self.titles@.len() as int),
    {
        let mut titles: Vec<ConfigDataValues> = Vec::new();
        assert(titles.deep_view() =~= flat_titles(self.titles@, 0));
        for i in 0..self.titles.len()
            invariant
                titles.deep_view() == flat_titles(self.titles@, i as int),
        {
            flatten_config_data_section(&self.titles[i], "", &mut titles);
            proof {
                reveal_strlit("");
                assert(""@ =~= Seq::<char>::empty());
            }
        }
        ConfigDataJson { titles }
    }
}

/// Flattening keeps the settings of a section and their order, each with its
/// type, its description and its choices; and a section without settings is left
/// out.
pub proof fn law_flat_keeps_the_settings(section: ConfigValues, parent: Seq<char>)
    ensures
        ({
            let entries = value_entries(section.values);
            let title = full_title(parent, section.title@);
            let below = flat_below(section, title, section.subsections@.len());
            if entries.len() == 0 {
                flat(section, parent) == below
            } else {
                &&& flat(section, parent).len() == below.len() + 1
                &&& flat(section, parent)[0].title == title
                &&& flat(section, parent)[0].values.len() == entries.len()
                &&& forall|i: int|
                    0 <= i < entries.len() ==> #[trigger] flat(section, parent)[0].values[i] == (
                        entries[i].0,
                        data_of(entries[i].1),
                    )
                &&& flat(section, parent).skip(1) == below
            }
        }),
{
    let title = full_title(parent, section.title@);
    let below = flat_below(section, title, section.subsections@.len());
    if value_entries(section.values).len() == 0 {
        assert(flat(section, parent) =~= below);
    } else {
        assert(flat(section, parent).skip(1) =~= below);
    }
}

// ---------------------------------------------------------------------
// The limits of scripts

/// One setting of the section on scripts.
pub struct ScriptSetting {
    pub key: Seq<char>,
    pub typ: Seq<char>,
    pub description: Seq<char>,
    pub advanced: bool,
}

pub open spec fn script_setting(key: Seq<char>, typ: Seq<char>, description: Seq<char>, advanced: bool) -> ScriptSetting {
    ScriptSetting { key, typ, description, advanced }
}

pub open spec fn script_settings() -> Seq<ScriptSetting> {
    seq![
        script_setting(
            "wasm_hooks_dir"@,
            "string"@,
            "Directory where WASM hook files are loaded from. Each script gets read-only access only to a private subfolder named after the .wasm file stem. Default: /data/wasm-hooks."@,
            false,
        ),
        script_setting(
            "wasm_script_memory_limit_mb"@,
            "integer"@,
            "Maximum linear memory size, in MiB, allowed for each live WASM script instance. Default: 5."@,
            true,
        ),
        script_setting(
            "wasm_script_instance_limit"@,
            "integer"@,
            "Maximum number of component/core instances allowed inside each WASM script store. Default: 16."@,
            true,
        ),
        script_setting(
            "wasm_script_memory_count_limit"@,
            "integer"@,
            "Maximum number of memories allowed inside each WASM script store. Default: 4."@,
            true,
        ),
        script_setting(
            "wasm_script_table_limit"@,
            "integer"@,
            "Maximum number of tables allowed inside each WASM script store. Default: 8."@,
            true,
        ),
        script_setting(
            "wasm_script_table_elements_limit"@,
            "integer"@,
            "Maximum number of table elements allowed inside each WASM script store. Default: 512."@,
            true,
        ),
        script_setting(
            "wasm_script_packet_epoch_deadline"@,
            "integer"@,
            "Epoch deadline for modify-packet calls. The host increments epochs every 10 ms, so 100 is roughly 1 second. Default: 100."@,
            true,
        ),
        script_setting(
            "wasm_script_lifecycle_epoch_deadline"@,
            "integer"@,
            "Epoch deadline for on-create, on-destroy, custom-configs, on-config-changed, and websocket calls. The host increments epochs every 10 ms, so 1000 is roughly 10 seconds. Default: 1000."@,
            true,
        ),
    ]
}

/// Whether an entry is a setting, with no choices and no dependency.
pub open spec fn entry_is(entry: (Seq<char>, ConfigValue), s: ScriptSetting) -> bool {
    &&& entry.0 == s.key
    &&& entry.1.typ@ == s.typ
    &&& entry.1.description@ == s.description
    &&& entry.1.values is None
    &&& entry.1.advanced == s.advanced
    &&& entry.1.requires is Nothing
}

/// Whether the entries are the first settings of the section on scripts.
pub open spec fn entries_are(entries: Seq<(Seq<char>, ConfigValue)>, n: int) -> bool {
    &&& entries.len() == n
    &&& forall|i: int| 0 <= i < n ==> entry_is(#[trigger] entries[i], script_settings()[i])
}

proof fn lemma_script_keys()
    ensures
        script_settings().len() == 8,
        script_settings()[0].key.len() == 14,
        script_settings()[1].key.len() == 27,
        script_settings()[2].key.len() == 26,
        script_settings()[3].key.len() == 30,
        script_settings()[4].key.len() == 23,
        script_settings()[5].key.len() == 32,
        script_settings()[6].key.len() == 33,
        script_settings()[7].key.len() == 36,
{
    reveal_strlit("wasm_hooks_dir");
    reveal_strlit("wasm_script_memory_limit_mb");
    reveal_strlit("wasm_script_instance_limit");
    reveal_strlit("wasm_script_memory_count_limit");
    reveal_strlit("wasm_script_table_limit");
    reveal_strlit("wasm_script_table_elements_limit");
    reveal_strlit("wasm_script_packet_epoch_deadline");
    reveal_strlit("wasm_script_lifecycle_epoch_deadline");
}

fn put_script_setting(
    values: &mut IndexMap<String, ConfigValue>,
    n: Ghost<int>,
    key: &str,
    typ: &str,
    description: &str,
    advanced: bool,
)
    requires
        0 <= n@ < 8,
        entries_are(value_entries(*old(values)), n@),
        script_settings()[n@] == script_setting(key@, typ@, description@, advanced),
    ensures
        entries_are(value_entries(*final(values)), n@ + 1),
{
    let value = ConfigValue {
        typ: typ.to_owned(),
        description: description.to_owned(),
        values: None,
        advanced,
        requires: Requires::Nothing,
    };
    proof {
        let entries = value_entries(*values);
        lemma_script_keys();
        assert forall|i: int| 0 <= i < entries.len() implies (#[trigger] entries[i]).0 != key@ by {
            assert(entry_is(entries[i], script_settings()[i]));
            assert(script_settings()[i].key.len() != script_settings()[n@].key.len());
        }
        lemma_new_key(entries, key@);
    }
    insert_value(values, key.to_owned(), value);
}

/// The section on the limits of scripts.
pub fn wasm_script_limits_config_section() -> (r: ConfigValues)
    ensures
        r.title@ == "🦾 WASM HOOKS"@,
        entries_are(value_entries(r.values), 8),
        !r.collapsed_by_default,
        r.subsections@.len() == 0,
        !r.advanced,
        r.requires is Nothing,
{
    let mut values = new_values();
    put_script_setting(
        &mut values,
        Ghost(0),
        "wasm_hooks_dir",
        "string",
        "Directory where WASM hook files are loaded from. Each script gets read-only access only to a private subfolder named after the .wasm file stem. Default: /data/wasm-hooks.",
        false,
    );
    put_script_setting(
        &mut values,
        Ghost(1),
        "wasm_script_memory_limit_mb",
        "integer",
        "Maximum linear memory size, in MiB, allowed for each live WASM script instance. Default: 5.",
        true,
    );
    put_script_setting(
        &mut values,
        Ghost(2),
        "wasm_script_instance_limit",
        "integer",
        "Maximum number of component/core instances allowed inside each WASM script store. Default: 16.",
        true,
    );
    put_script_setting(
        &mut values,
        Ghost(3),
        "wasm_script_memory_count_limit",
        "integer",
        "Maximum number of memories allowed inside each WASM script store. Default: 4.",
        true,
    );
    put_script_setting(
        &mut values,
        Ghost(4),
        "wasm_script_table_limit",
        "integer",
        "Maximum number of tables allowed inside each WASM script store. Default: 8.",
        true,
    );
    put_script_setting(
        &mut values,
        Ghost(5),
        "wasm_script_table_elements_limit",
        "integer",
        "Maximum number of table elements allowed inside each WASM script store. Default: 512.",
        true,
    );
    put_script_setting(
        &mut values,
        Ghost(6),
        "wasm_script_packet_epoch_deadline",
        "integer",
        "Epoch deadline for modify-packet calls. The host increments epochs every 10 ms, so 100 is roughly 1 second. Default: 100.",
        true,
    );
    put_script_setting(
        &mut values,
        Ghost(7),
        "wasm_script_lifecycle_epoch_deadline",
        "integer",
        "Epoch deadline for on-create, on-destroy, custom-configs, on-config-changed, and websocket calls. The host increments epochs every 10 ms, so 1000 is roughly 10 seconds. Default: 1000.",
        true,
    );
    ConfigValues {
        title: "🦾 WASM HOOKS".to_owned(),
        values,
        collapsed_by_default: false,
        subsections: Vec::new(),
        advanced: false,
        requires: Requires::Nothing,
    }
}

/// The settings of the section on scripts, in their order.
pub proof fn law_scripts_have_these_settings(entries: Seq<(Seq<char>, ConfigValue)>, i: int)
    requires
        entries_are(entries, 8),
    ensures
        entries.len() == 8,
        entries[0].0 == "wasm_hooks_dir"@,
        entries[0].1.typ@ == "string"@,
        entries[0].1.description@ == "Directory where WASM hook files are loaded from. Each script gets read-only access only to a private subfolder named after the .wasm file stem. Default: /data/wasm-hooks."@,
        !entries[0].1.advanced,
        entries[1].0 == "wasm_script_memory_limit_mb"@,
        entries[1].1.typ@ == "integer"@,
        entries[1].1.description@ == "Maximum linear memory size, in MiB, allowed for each live WASM script instance. Default: 5."@,
        entries[1].1.advanced,
        entries[2].0 == "wasm_script_instance_limit"@,
        entries[2].1.typ@ == "integer"@,
        entries[2].1.description@ == "Maximum number of component/core instances allowed inside each WASM script store. Default: 16."@,
        entries[2].1.advanced,
        entries[3].0 == "wasm_script_memory_count_limit"@,
        entries[3].1.typ@ == "integer"@,
        entries[3].1.description@ == "Maximum number of memories allowed inside each WASM script store. Default: 4."@,
        entries[3].1.advanced,
        entries[4].0 == "wasm_script_table_limit"@,
        entries[4].1.typ@ == "integer"@,
        entries[4].1.description@ == "Maximum number of tables allowed inside each WASM script store. Default: 8."@,
        entries[4].1.advanced,
        entries[5].0 == "wasm_script_table_elements_limit"@,
        entries[5].1.typ@ == "integer"@,
        entries[5].1.description@ == "Maximum number of table elements allowed inside each WASM script store. Default: 512."@,
        entries[5].1.advanced,
        entries[6].0 == "wasm_script_packet_epoch_deadline"@,
        entries[6].1.typ@ == "integer"@,
        entries[6].1.description@ == "Epoch deadline for modify-packet calls. The host increments epochs every 10 ms, so 100 is roughly 1 second. Default: 100."@,
        entries[6].1.advanced,
        entries[7].0 == "wasm_script_lifecycle_epoch_deadline"@,
        entries[7].1.typ@ == "integer"@,
        entries[7].1.description@ == "Epoch deadline for on-create, on-destroy, custom-configs, on-config-changed, and websocket calls. The host increments epochs every 10 ms, so 1000 is roughly 10 seconds. Default: 1000."@,
        entries[7].1.advanced,
        0 <= i < 8 ==> entries[i].1.values is None && entries[i].1.requires is Nothing,
{
    assert(entry_is(entries[0], script_settings()[0]));
    assert(entry_is(entries[1], script_settings()[1]));
    assert(entry_is(entries[2], script_settings()[2]));
    assert(entry_is(entries[3], script_settings()[3]));
    assert(entry_is(entries[4], script_settings()[4]));
    assert(entry_is(entries[5], script_settings()[5]));
    assert(entry_is(entries[6], script_settings()[6]));
    assert(entry_is(entries[7], script_settings()[7]));
    if 0 <= i < 8 {
        assert(entry_is(entries[i], script_settings()[i]));
    }
}

/// A section below another one is titled by both titles with a stroke between
/// them; where one of them is empty, by the other.
pub proof fn law_titles_lead_the_way(parent: Seq<char>, title: Seq<char>)
    ensures
        parent.len() > 0 && title.len() > 0 ==> full_title(parent, title) == parent + " / "@ + title,
        parent.len() == 0 ==> full_title(parent, title) == title,
        title.len() == 0 ==> full_title(parent, title) == parent,
{
}

/// The sections below a section follow on it in their order, each with those
/// below it; and so do those at the top.
pub proof fn law_sections_keep_their_order(
    section: ConfigValues,
    title: Seq<char>,
    titles: Seq<ConfigValues>,
    n: nat,
)
    ensures
        n < section.subsections@.len() ==> flat_below(section, title, n + 1) == flat_below(
            section,
            title,
            n,
        ) + flat(section.subsections[n as int], title),
        n < titles.len() ==> flat_titles(titles, n as int + 1) == flat_titles(titles, n as int)
            + flat(titles[n as int], Seq::empty()),
        flat_below(section, title, 0).len() == 0,
        flat_titles(titles, 0).len() == 0,
{
}

/// A key that is new comes last, and one that is there keeps its place; no other
/// entry is touched.
pub proof fn law_entries_keep_their_places<V>(
    entries: Seq<(Seq<char>, V)>,
    key: Seq<char>,
    value: V,
    i: int,
)
    ensures
        (forall|j: int| 0 <= j < entries.len() ==> (#[trigger] entries[j]).0 != key) ==> with_entry(
            entries,
            key,
            value,
        ) == entries.push((key, value)),
        0 <= i < entries.len() && stands_only_at(entries, key, i) ==> with_entry(
            entries,
            key,
            value,
        ) == entries.update(i, (key, value)),
{
    if forall|j: int| 0 <= j < entries.len() ==> (#[trigger] entries[j]).0 != key {
        lemma_new_key(entries, key);
    }
    if 0 <= i < entries.len() && stands_only_at(entries, key, i) {
        lemma_key_stands(entries, key, i);
    }
}

proof fn lemma_key_stands<V>(entries: Seq<(Seq<char>, V)>, key: Seq<char>, i: int)
    requires
        0 <= i < entries.len(),
        stands_only_at(entries, key, i),
    ensures
        key_at(entries, key) == i,
    decreases entries.len(),
{
    let n = entries.len() - 1;
    if i < n {
        assert(entries[n].0 != key);
        let head = entries.drop_last();
        assert forall|j: int| 0 <= j < head.len() && j != i implies (#[trigger] head[j]).0 != key by {
            assert(entries[j].0 != key);
        }
        lemma_key_stands(head, key, i);
    }
}

} // verus!
