//! The registry itself: the immutable name-to-item catalog, the derived
//! id-keyed reverse index, the loader that reads a structured source
//! document, and the public query surface.

use vstd::prelude::*;
use std::collections::HashMap;
use serde_json::Value;
use crate::item::{
    modifiers_view, AttributeModifiers, ComponentsModel, Item, ItemComponents, ItemModel,
    JukeboxPlayable, Modifier, ModifierModel, Operation,
};
use crate::json;
use crate::json_model::{
    json_elems, json_f64_bits, json_lookup, json_of, obj_model, spec_string_member,
    spec_u64_member, value_model, Json,
};
use crate::strings::{
    has_ns_prefix, has_prefix, has_suffix, normalized, ns_prefix, spawn_egg_suffix, str_eq,
    strip_namespace,
};

verus! {

broadcast use vstd::std_specs::hash::group_hash_axioms;

/// Every entry carries a different canonical name.
pub open spec fn names_distinct(es: Seq<(String, Item)>) -> bool {
    forall|i: int, j: int| 0 <= i < j < es.len() ==> es[i].0@ != es[j].0@
}

/// Every entry carries a different numeric id.
pub open spec fn ids_distinct(es: Seq<(String, Item)>) -> bool {
    forall|i: int, j: int| 0 <= i < j < es.len() ==> es[i].1.id != es[j].1.id
}

/// The item stored under `name`: the first entry with exactly that
/// name. When names are distinct, it is the only one.
pub open spec fn lookup_name(es: Seq<(String, Item)>, name: Seq<char>) -> Option<Item>
    decreases es.len(),
{
    if es.len() == 0 {
        None
    } else if es[0].0@ == name {
        Some(es[0].1)
    } else {
        lookup_name(es.drop_first(), name)
    }
}

/// The canonical name the reverse index records for `id`: the name of
/// the last entry with that id (last-write-wins when ids collide).
pub open spec fn name_of_id(es: Seq<(String, Item)>, id: u16) -> Option<Seq<char>>
    decreases es.len(),
{
    if es.len() == 0 {
        None
    } else if es.last().1.id == id {
        Some(es.last().0@)
    } else {
        name_of_id(es.drop_last(), id)
    }
}

/// The item a front-to-back scan finds for `id`: the first entry with
/// that id. When ids are distinct, it is the only one.
pub open spec fn item_of_id(es: Seq<(String, Item)>, id: u16) -> Option<Item>
    decreases es.len(),
{
    if es.len() == 0 {
        None
    } else if es[0].1.id == id {
        Some(es[0].1)
    } else {
        item_of_id(es.drop_first(), id)
    }
}

/// The spawn-egg derivation: the name recorded for `id` with the
/// spawn-egg suffix removed, when that name carries the suffix.
pub open spec fn spawn_egg_of(es: Seq<(String, Item)>, id: u16) -> Option<Seq<char>> {
    match name_of_id(es, id) {
        Some(n) => if has_suffix(n, spawn_egg_suffix()) {
            Some(n.subrange(0, n.len() - spawn_egg_suffix().len()))
        } else {
            None
        },
        None => None,
    }
}

/// When no entry carries `name`, the lookup finds nothing.
pub proof fn lemma_lookup_none(es: Seq<(String, Item)>, name: Seq<char>)
    requires
        forall|i: int| 0 <= i < es.len() ==> es[i].0@ != name,
    ensures
        lookup_name(es, name) is None,
    decreases es.len(),
{
    if es.len() > 0 {
        lemma_lookup_none(es.drop_first(), name);
    }
}

/// When entry `j` is the first one carrying `name`, the lookup finds it.
pub proof fn lemma_lookup_at(es: Seq<(String, Item)>, name: Seq<char>, j: int)
    requires
        0 <= j < es.len(),
        es[j].0@ == name,
        forall|k: int| 0 <= k < j ==> es[k].0@ != name,
    ensures
        lookup_name(es, name) == Some(es[j].1),
    decreases es.len(),
{
    if j > 0 {
        lemma_lookup_at(es.drop_first(), name, j - 1);
    }
}

/// When no entry carries `id`, the reverse index records nothing.
pub proof fn lemma_name_of_id_none(es: Seq<(String, Item)>, id: u16)
    requires
        forall|i: int| 0 <= i < es.len() ==> es[i].1.id != id,
    ensures
        name_of_id(es, id) is None,
    decreases es.len(),
{
    if es.len() > 0 {
        lemma_name_of_id_none(es.drop_last(), id);
    }
}

/// When entry `j` is the last one carrying `id`, the reverse index
/// records its name.
pub proof fn lemma_name_of_id_at(es: Seq<(String, Item)>, id: u16, j: int)
    requires
        0 <= j < es.len(),
        es[j].1.id == id,
        forall|k: int| j < k < es.len() ==> es[k].1.id != id,
    ensures
        name_of_id(es, id) == Some(es[j].0@),
    decreases es.len(),
{
    if j < es.len() - 1 {
        lemma_name_of_id_at(es.drop_last(), id, j);
    }
}

/// When no entry carries `id`, the id scan finds nothing.
pub proof fn lemma_item_of_id_none(es: Seq<(String, Item)>, id: u16)
    requires
        forall|i: int| 0 <= i < es.len() ==> es[i].1.id != id,
    ensures
        item_of_id(es, id) is None,
    decreases es.len(),
{
    if es.len() > 0 {
        lemma_item_of_id_none(es.drop_first(), id);
    }
}

/// When entry `j` is the first one carrying `id`, the id scan finds it.
pub proof fn lemma_item_of_id_at(es: Seq<(String, Item)>, id: u16, j: int)
    requires
        0 <= j < es.len(),
        es[j].1.id == id,
        forall|k: int| 0 <= k < j ==> es[k].1.id != id,
    ensures
        item_of_id(es, id) == Some(es[j].1),
    decreases es.len(),
{
    if j > 0 {
        lemma_item_of_id_at(es.drop_first(), id, j - 1);
    }
}

/// One modifier record of the source schema: every field is required,
/// the operation is given by its document spelling, the amount by the
/// bit pattern of its floating-point reading.
pub open spec fn spec_modifier_of(j: Json) -> Option<ModifierModel> {
    match (
        spec_string_member(j, "type"@),
        spec_string_member(j, "id"@),
        json_lookup(j, "amount"@),
        spec_string_member(j, "operation"@),
        spec_string_member(j, "slot"@),
    ) {
        (
            Some(Some(kind)),
            Some(Some(id)),
            Some(amount),
            Some(Some(op_name)),
            Some(Some(slot)),
        ) => match (json_f64_bits(amount), Operation::spec_from_name(op_name)) {
            (Some(bits), Some(operation)) => Some(
                ModifierModel { kind, id, amount_bits: bits, operation, slot },
            ),
            _ => None,
        },
        _ => None,
    }
}

/// A list of modifier records; one malformed element is fatal.
pub open spec fn spec_modifiers_of(elems: Seq<Json>) -> Option<Seq<ModifierModel>>
    decreases elems.len(),
{
    if elems.len() == 0 {
        Some(Seq::empty())
    } else {
        match (spec_modifiers_of(elems.drop_last()), spec_modifier_of(elems.last())) {
            (Some(front), Some(m)) => Some(front.push(m)),
            _ => None,
        }
    }
}

/// The `modifiers` member of the attribute-modifier component: a
/// required array of modifier records.
pub open spec fn spec_modifiers_member(j: Json) -> Option<Seq<ModifierModel>> {
    match json_lookup(j, "modifiers"@) {
        Some(list) => match json_elems(list) {
            Some(elems) => spec_modifiers_of(elems),
            None => None,
        },
        None => None,
    }
}

proof fn lemma_spec_modifiers_of_fail(elems: Seq<Json>, i: int)
    requires
        0 <= i < elems.len(),
        spec_modifier_of(elems[i]) is None,
    ensures
        spec_modifiers_of(elems) is None,
    decreases elems.len(),
{
    if i < elems.len() - 1 {
        lemma_spec_modifiers_of_fail(elems.drop_last(), i);
    }
}

/// An optional member that must fit 16 bits when present. The outer
/// `None` is fatal; the inner one marks absence.
pub open spec fn spec_opt_u16_member(j: Json, key: Seq<char>) -> Option<Option<u16>> {
    match spec_u64_member(j, key) {
        Some(Some(x)) => if x <= 0xFFFF {
            Some(Some(x as u16))
        } else {
            None
        },
        Some(None) => None,
        None => Some(None),
    }
}

/// The numeric id: an optional plain member that must fit the id's 16
/// bits when present; an absent id reads as 0, for documents that do
/// not number their items.
pub open spec fn spec_id_of(j: Json) -> Option<u16> {
    match spec_u64_member(j, "id"@) {
        Some(Some(x)) => if x <= 0xFFFF {
            Some(x as u16)
        } else {
            None
        },
        Some(None) => None,
        None => Some(0),
    }
}

/// The required stack size, fitting 8 bits.
pub open spec fn spec_stack_of(j: Json) -> Option<u8> {
    match spec_u64_member(j, "minecraft:max_stack_size"@) {
        Some(Some(x)) => if x <= 0xFF {
            Some(x as u8)
        } else {
            None
        },
        _ => None,
    }
}

/// The optional jukebox component: an object with a required `song`.
pub open spec fn spec_jukebox_of(j: Json) -> Option<Option<Seq<char>>> {
    match json_lookup(j, "minecraft:jukebox_playable"@) {
        Some(member) => match spec_string_member(member, "song"@) {
            Some(Some(s)) => Some(Some(s)),
            _ => None,
        },
        None => Some(None),
    }
}

/// The optional attribute-modifier component.
pub open spec fn spec_attr_modifiers_of(j: Json) -> Option<Option<Seq<ModifierModel>>> {
    match json_lookup(j, "minecraft:attribute_modifiers"@) {
        Some(member) => match spec_modifiers_member(member) {
            Some(ms) => Some(Some(ms)),
            None => None,
        },
        None => Some(None),
    }
}

/// The components of one item object of the source schema.
pub open spec fn spec_components_of(j: Json) -> Option<ComponentsModel> {
    match (
        spec_string_member(j, "minecraft:item_name"@),
        spec_stack_of(j),
        spec_jukebox_of(j),
        spec_opt_u16_member(j, "minecraft:damage"@),
        spec_opt_u16_member(j, "minecraft:max_damage"@),
        spec_attr_modifiers_of(j),
    ) {
        (
            Some(Some(item_name)),
            Some(max_stack_size),
            Some(jukebox_song),
            Some(damage),
            Some(max_damage),
            Some(modifiers),
        ) => Some(
            ComponentsModel {
                item_name,
                max_stack_size,
                jukebox_song,
                damage,
                max_damage,
                modifiers,
            },
        ),
        _ => None,
    }
}

/// One item object of the source schema.
pub open spec fn spec_item_of(j: Json) -> Option<ItemModel> {
    match (spec_id_of(j), spec_components_of(j)) {
        (Some(id), Some(components)) => Some(ItemModel { id, components }),
        _ => None,
    }
}

/// The entries a document's member list yields: every key must be
/// canonical (no namespace prefix) and every item object well-formed;
/// one offending member is fatal.
pub open spec fn spec_entries_of(fields: Seq<(Seq<char>, Json)>) -> Option<
    Seq<(Seq<char>, ItemModel)>,
>
    decreases fields.len(),
{
    if fields.len() == 0 {
        Some(Seq::empty())
    } else {
        match (spec_entries_of(fields.drop_last()), spec_item_of(fields.last().1)) {
            (Some(front), Some(item)) => if has_prefix(fields.last().0, ns_prefix()) {
                None
            } else {
                Some(front.push((fields.last().0, item)))
            },
            _ => None,
        }
    }
}

proof fn lemma_spec_entries_of_fail(fields: Seq<(Seq<char>, Json)>, i: int)
    requires
        0 <= i < fields.len(),
        spec_item_of(fields[i].1) is None || has_prefix(fields[i].0, ns_prefix()),
    ensures
        spec_entries_of(fields) is None,
    decreases fields.len(),
{
    if i < fields.len() - 1 {
        lemma_spec_entries_of_fail(fields.drop_last(), i);
    }
}

/// What a source document denotes: the entry list of its top-level
/// object, or `None` for an unparsable document, a top level that is
/// not an object, or any malformed member.
pub open spec fn spec_registry_of(s: Seq<char>) -> Option<Seq<(Seq<char>, ItemModel)>> {
    match json_of(s) {
        Some(j) => match j {
            Json::Obj(fields) => spec_entries_of(fields),
            _ => None,
        },
        None => None,
    }
}

/// The mathematical values of a registry's entries.
pub open spec fn entries_view(es: Seq<(String, Item)>) -> Seq<(Seq<char>, ItemModel)> {
    es.map_values(|e: (String, Item)| (e.0@, e.1@))
}

/// The member under `key` read as a string, when the object has it.
/// The outer `None` marks absence, the inner one a non-string value.
fn string_member(v: &Value, key: &str) -> (r: Option<Option<String>>)
    ensures
        match r {
            Some(Some(s)) => spec_string_member(value_model(*v), key@) == Some(Some(s@)),
            Some(None) => spec_string_member(value_model(*v), key@) == Some(None::<Seq<char>>),
            None => spec_string_member(value_model(*v), key@) is None,
        },
{
    match json::value_get(v, key) {
        Some(member) => match json::value_as_str(member) {
            Some(s) => Some(Some(s.to_owned())),
            None => Some(None),
        },
        None => None,
    }
}

/// The member under `key` read as an unsigned number, when the object
/// has it. The outer `None` marks absence, the inner one a value that
/// is not such a number.
fn u64_member(v: &Value, key: &str) -> (r: Option<Option<u64>>)
    ensures
        r == spec_u64_member(value_model(*v), key@),
{
    match json::value_get(v, key) {
        Some(member) => match json::value_as_u64(member) {
            Some(x) => Some(Some(x)),
            None => Some(None),
        },
        None => None,
    }
}

/// Reads one attribute modifier record; every field is required.
fn modifier_from_value(v: &Value) -> (r: Option<Modifier>)
    ensures
        match r {
            Some(m) => spec_modifier_of(value_model(*v)) == Some(m@),
            None => spec_modifier_of(value_model(*v)) is None,
        },
{
    let kind = match string_member(v, "type") {
        Some(Some(s)) => s,
        _ => {
            return None;
        },
    };
    let id = match string_member(v, "id") {
        Some(Some(s)) => s,
        _ => {
            return None;
        },
    };
    let amount_bits = match json::value_get(v, "amount") {
        Some(member) => match json::value_as_f64_bits(member) {
            Some(bits) => bits,
            None => {
                return None;
            },
        },
        None => {
            return None;
        },
    };
    let operation = match string_member(v, "operation") {
        Some(Some(s)) => match Operation::from_name(s.as_str()) {
            Some(op) => op,
            None => {
                return None;
            },
        },
        _ => {
            return None;
        },
    };
    let slot = match string_member(v, "slot") {
        Some(Some(s)) => s,
        _ => {
            return None;
        },
    };
    Some(Modifier { kind, id, amount_bits, operation, slot })
}

/// Reads the attribute-modifier component: an object whose `modifiers`
/// member lists the records.
fn modifiers_from_value(v: &Value) -> (r: Option<AttributeModifiers>)
    ensures
        match r {
            Some(am) => spec_modifiers_member(value_model(*v)) == Some(
                modifiers_view(am.modifiers@),
            ),
            None => spec_modifiers_member(value_model(*v)) is None,
        },
{
    let list_member = match json::value_get(v, "modifiers") {
        Some(member) => member,
        None => {
            return None;
        },
    };
    let list = match json::value_as_array(list_member) {
        Some(a) => a,
        None => {
            return None;
        },
    };
    let ghost elems = match json_elems(value_model(*list_member)) {
        Some(e) => e,
        None => Seq::empty(),
    };
    let mut modifiers: Vec<Modifier> = Vec::new();
    let mut i: usize = 0;
    while i < list.len()
        invariant
            json_lookup(value_model(*v), "modifiers"@) == Some(value_model(*list_member)),
            json_elems(value_model(*list_member)) == Some(elems),
            i <= list@.len(),
            elems.len() == list@.len(),
            forall|k: int| 0 <= k < list@.len() ==> elems[k] == value_model(#[trigger] list@[k]),
            spec_modifiers_of(elems.take(i as int)) == Some(modifiers_view(modifiers@)),
        decreases list@.len() - i,
    {
        match modifier_from_value(&list[i]) {
            Some(m) => {
                let ghost pre = modifiers@;
                modifiers.push(m);
                proof {
                    let next = i + 1;
                    assert(elems.take(next as int).drop_last() =~= elems.take(i as int));
                    assert(elems.take(next as int).last() == elems[i as int]);
                    assert(modifiers_view(modifiers@) =~= modifiers_view(pre).push(m@));
                }
            },
            None => {
                proof {
                    lemma_spec_modifiers_of_fail(elems, i as int);
                }
                return None;
            },
        }
        i += 1;
    }
    proof {
        assert(elems.take(list@.len() as int) =~= elems);
    }
    Some(AttributeModifiers { modifiers })
}

/// Reads one item object of the source schema: the namespaced component
/// fields, plus an optional plain `id` that is absent for documents
/// that do not number their items (those entries get id 0). Unknown
/// extra fields are ignored; a missing required field, or a value that
/// does not fit its type, is the fatal outcome `None`.
fn item_from_value(v: &Value) -> (r: Option<Item>)
    ensures
        match r {
            Some(item) => spec_item_of(value_model(*v)) == Some(item@),
            None => spec_item_of(value_model(*v)) is None,
        },
{
    let id: u16 = match u64_member(v, "id") {
        Some(Some(x)) => if x <= u16::MAX as u64 {
            x as u16
        } else {
            return None;
        },
        Some(None) => {
            return None;
        },
        None => 0,
    };
    let item_name = match string_member(v, "minecraft:item_name") {
        Some(Some(s)) => s,
        _ => {
            return None;
        },
    };
    let max_stack_size: u8 = match u64_member(v, "minecraft:max_stack_size") {
        Some(Some(x)) => if x <= u8::MAX as u64 {
            x as u8
        } else {
            return None;
        },
        _ => {
            return None;
        },
    };
    let jukebox_playable = match json::value_get(v, "minecraft:jukebox_playable") {
        Some(member) => match string_member(member, "song") {
            Some(Some(s)) => Some(JukeboxPlayable { song: s }),
            _ => {
                return None;
            },
        },
        None => None,
    };
    let damage = match u64_member(v, "minecraft:damage") {
        Some(Some(x)) => if x <= u16::MAX as u64 {
            Some(x as u16)
        } else {
            return None;
        },
        Some(None) => {
            return None;
        },
        None => None,
    };
    let max_damage = match u64_member(v, "minecraft:max_damage") {
        Some(Some(x)) => if x <= u16::MAX as u64 {
            Some(x as u16)
        } else {
            return None;
        },
        Some(None) => {
            return None;
        },
        None => None,
    };
    let attribute_modifiers = match json::value_get(v, "minecraft:attribute_modifiers") {
        Some(member) => match modifiers_from_value(member) {
            Some(mods) => Some(mods),
            None => {
                return None;
            },
        },
        None => None,
    };
    Some(
        Item {
            id,
            components: ItemComponents {
                item_name,
                max_stack_size,
                jukebox_playable,
                damage,
                max_damage,
                attribute_modifiers,
            },
        },
    )
}

/// The immutable item registry: the entries in source order, and an
/// id-keyed index into them, built once at construction and never
/// changed afterwards. The view is the sequence of (name, item)
/// entries.
pub struct Registry {
    entries: Vec<(String, Item)>,
    index: HashMap<u16, usize>,
}

impl View for Registry {
    type V = Seq<(String, Item)>;

    closed spec fn view(&self) -> Seq<(String, Item)> {
        self.entries@
    }
}

impl Registry {
    /// Well-formedness: names are unique, and the index is exactly the
    /// last-write-wins reverse mapping over the entries.
    pub closed spec fn wf(self) -> bool {
        &&& names_distinct(self.entries@)
        &&& forall|id: u16| #[trigger] self.index@.contains_key(id) ==> self.index@[id]
            < self.entries@.len() && self.entries@[self.index@[id] as int].1.id == id
        &&& forall|j: int| 0 <= j < self.entries@.len() ==> self.index@.contains_key(
            #[trigger] self.entries@[j].1.id,
        ) && self.index@[self.entries@[j].1.id] >= j
    }

    /// Builds a registry from plain (name, item) entries, deriving the
    /// reverse index with last-write-wins on duplicate ids. Returns
    /// `None` exactly when two entries share a canonical name, the one
    /// shape of input the registry's invariant rules out.
    pub fn new(entries: Vec<(String, Item)>) -> (r: Option<Registry>)
        ensures
            match r {
                Some(reg) => reg.wf() && reg@ == entries@ && names_distinct(entries@),
                None => !names_distinct(entries@),
            },
    {
        let n = entries.len();
        let mut i: usize = 0;
        while i < n
            invariant
                n == entries@.len(),
                i <= n,
                forall|p: int, q: int| 0 <= p < q < n && p < i ==> entries@[p].0@ != entries@[q].0@,
            decreases n - i,
        {
            let mut j: usize = i + 1;
            while j < n
                invariant
                    n == entries@.len(),
                    i < n,
                    i < j <= n,
                    forall|p: int, q: int| 0 <= p < q < n && p < i ==> entries@[p].0@
                        != entries@[q].0@,
                    forall|q: int| i < q < j ==> entries@[i as int].0@ != entries@[q].0@,
                decreases n - j,
            {
                if str_eq(entries[i].0.as_str(), entries[j].0.as_str()) {
                    return None;
                }
                j += 1;
            }
            i += 1;
        }
        let mut index: HashMap<u16, usize> = HashMap::new();
        let mut j: usize = 0;
        while j < n
            invariant
                n == entries@.len(),
                j <= n,
                forall|id: u16| #[trigger] index@.contains_key(id) ==> index@[id] < j
                    && entries@[index@[id] as int].1.id == id,
                forall|k: int| 0 <= k < j ==> index@.contains_key(#[trigger] entries@[k].1.id)
                    && index@[entries@[k].1.id] >= k,
            decreases n - j,
        {
            let id = entries[j].1.id;
            index.insert(id, j);
            j += 1;
        }
        Some(Registry { entries, index })
    }

    /// Builds the registry from a structured source document: a JSON
    /// object mapping each canonical name to its item object. Returns
    /// `None` for a malformed or schema-incompatible document — text
    /// the parser rejects, a non-object top level, a key that carries
    /// the namespace prefix, or a malformed item object — the fatal
    /// condition on which a caller aborts instead of serving an
    /// invalid registry.
    ///
    /// Success and content are exact: a registry is returned if and
    /// only if `spec_registry_of` accepts the document, and its entries
    /// are that denotation, in document order.
    pub fn load(source: &str) -> (r: Option<Registry>)
        ensures
            match r {
                Some(reg) => {
                    &&& reg.wf()
                    &&& names_distinct(reg@)
                    &&& forall|i: int|
                        0 <= i < reg@.len() ==> !has_prefix((#[trigger] reg@[i]).0@, ns_prefix())
                    &&& spec_registry_of(source@) == Some(entries_view(reg@))
                },
                None => spec_registry_of(source@) is None,
            },
    {
        let document = match json::parse_value(source) {
            Some(v) => v,
            None => {
                return None;
            },
        };
        let top = match json::value_as_object(&document) {
            Some(m) => m,
            None => {
                return None;
            },
        };
        let ghost fields = obj_model(*top);
        proof {
            assert(json_of(source@) == Some(Json::Obj(fields)));
        }
        let pairs = json::object_entries(top);
        let mut entries: Vec<(String, Item)> = Vec::new();
        let mut i: usize = 0;
        while i < pairs.len()
            invariant
                json_of(source@) == Some(Json::Obj(fields)),
                pairs@.len() == fields.len(),
                forall|k: int|
                    0 <= k < pairs@.len() ==> (#[trigger] pairs@[k]).0@ == fields[k].0
                        && value_model(pairs@[k].1) == fields[k].1,
                forall|p: int, q: int| 0 <= p < q < pairs@.len() ==> pairs@[p].0@ != pairs@[q].0@,
                i <= pairs@.len(),
                entries@.len() == i,
                forall|k: int| 0 <= k < i ==> (#[trigger] entries@[k]).0 == pairs@[k].0,
                forall|k: int|
                    0 <= k < i ==> !has_prefix((#[trigger] entries@[k]).0@, ns_prefix()),
                spec_entries_of(fields.take(i as int)) == Some(entries_view(entries@)),
            decreases pairs@.len() - i,
        {
            if has_ns_prefix(pairs[i].0.as_str()) {
                proof {
                    lemma_spec_entries_of_fail(fields, i as int);
                }
                return None;
            }
            let item = match item_from_value(&pairs[i].1) {
                Some(it) => it,
                None => {
                    proof {
                        lemma_spec_entries_of_fail(fields, i as int);
                    }
                    return None;
                },
            };
            let name = pairs[i].0.clone();
            let ghost pre = entries@;
            entries.push((name, item));
            proof {
                let next = i + 1;
                assert(fields.take(next as int).drop_last() =~= fields.take(i as int));
                assert(fields.take(next as int).last() == fields[i as int]);
                assert(entries_view(entries@) =~= entries_view(pre).push(
                    (fields[i as int].0, item@),
                ));
            }
            i += 1;
        }
        proof {
            assert(fields.take(fields.len() as int) =~= fields);
            assert(names_distinct(entries@));
        }
        Registry::new(entries)
    }

    /// The item stored under `name`, after stripping one leading
    /// namespace prefix from the key; absence is a normal outcome, not
    /// an error.
    pub fn get_item<'a>(&'a self, name: &str) -> (r: Option<&'a Item>)
        requires
            self.wf(),
        ensures
            match r {
                Some(item) => lookup_name(self@, normalized(name@)) == Some(*item),
                None => lookup_name(self@, normalized(name@)) is None,
            },
    {
        let key = strip_namespace(name);
        let n = self.entries.len();
        let mut i: usize = 0;
        while i < n
            invariant
                n == self.entries@.len(),
                i <= n,
                key@ == normalized(name@),
                forall|k: int| 0 <= k < i ==> self.entries@[k].0@ != key@,
            decreases n - i,
        {
            if str_eq(self.entries[i].0.as_str(), key) {
                proof {
                    lemma_lookup_at(self.entries@, key@, i as int);
                }
                return Some(&self.entries[i].1);
            }
            i += 1;
        }
        proof {
            lemma_lookup_none(self.entries@, key@);
        }
        None
    }

    /// The canonical name recorded for `item_id` in the reverse index:
    /// the name of the last entry with that id, or absence when no
    /// entry carries it.
    pub fn get_name_by_id<'a>(&'a self, item_id: u16) -> (r: Option<&'a String>)
        requires
            self.wf(),
        ensures
            match r {
                Some(name) => name_of_id(self@, item_id) == Some(name@),
                None => name_of_id(self@, item_id) is None,
            },
    {
        match self.index.get(&item_id) {
            Some(pos_ref) => {
                let pos = *pos_ref;
                proof {
                    assert forall|k: int| pos < k < self.entries@.len() implies self.entries@[k].1.id
                        != item_id by {
                        if self.entries@[k].1.id == item_id {
                            assert(self.index@[self.entries@[k].1.id] >= k);
                        }
                    }
                    lemma_name_of_id_at(self.entries@, item_id, pos as int);
                }
                Some(&self.entries[pos].0)
            },
            None => {
                proof {
                    assert forall|i: int| 0 <= i < self.entries@.len() implies self.entries@[i].1.id
                        != item_id by {
                        if self.entries@[i].1.id == item_id {
                            assert(self.index@.contains_key(self.entries@[i].1.id));
                        }
                    }
                    lemma_name_of_id_none(self.entries@, item_id);
                }
                None
            },
        }
    }

    /// The item whose `id` field equals `item_id`, found by a scan over
    /// the entries; agreement with the reverse index is proved in
    /// `laws::law_consistency` for registries without id collisions.
    pub fn get_item_by_id<'a>(&'a self, item_id: u16) -> (r: Option<&'a Item>)
        requires
            self.wf(),
        ensures
            match r {
                Some(item) => item_of_id(self@, item_id) == Some(*item),
                None => item_of_id(self@, item_id) is None,
            },
    {
        let n = self.entries.len();
        let mut i: usize = 0;
        while i < n
            invariant
                n == self.entries@.len(),
                i <= n,
                forall|k: int| 0 <= k < i ==> self.entries@[k].1.id != item_id,
            decreases n - i,
        {
            if self.entries[i].1.id == item_id {
                proof {
                    lemma_item_of_id_at(self.entries@, item_id, i as int);
                }
                return Some(&self.entries[i].1);
            }
            i += 1;
        }
        proof {
            lemma_item_of_id_none(self.entries@, item_id);
        }
        None
    }

    /// The base entity name encoded by a spawn-egg item: the name
    /// recorded for `item_id` with the spawn-egg suffix removed, or
    /// absence when the id is unknown or its name carries no such
    /// suffix.
    pub fn get_spawn_egg(&self, item_id: u16) -> (r: Option<String>)
        requires
            self.wf(),
        ensures
            match r {
                Some(base) => spawn_egg_of(self@, item_id) == Some(base@),
                None => spawn_egg_of(self@, item_id) is None,
            },
    {
        proof {
            reveal_strlit("_spawn_egg");
        }
        match self.get_name_by_id(item_id) {
            Some(name) => {
                let s = name.as_str();
                let len = s.unicode_len();
                if len >= 10 {
                    let tail = s.substring_char(len - 10, len);
                    if str_eq(tail, "_spawn_egg") {
                        let base = s.substring_char(0, len - 10);
                        proof {
                            assert(has_suffix(name@, spawn_egg_suffix()));
                        }
                        return Some(base.to_owned());
                    }
                }
                proof {
                    assert(!has_suffix(name@, spawn_egg_suffix()));
                }
                None
            },
            None => None,
        }
    }
}

} // verus!
