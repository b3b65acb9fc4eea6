//! The registry's cross-function guarantees, stated over the same spec
//! functions the public contracts use and proved once for every
//! registry content.

use vstd::prelude::*;
use crate::item::Item;
use crate::registry::{
    ids_distinct, item_of_id, lemma_item_of_id_at, lemma_item_of_id_none, lemma_lookup_at,
    lemma_name_of_id_at, lemma_name_of_id_none, lookup_name, name_of_id, names_distinct,
};
use crate::strings::{has_prefix, normalized, ns_prefix};

verus! {

/// Round trip: in a registry without name or id collisions, the entry
/// stored at `k` is found again by its own name, and the reverse index
/// records that name for its id.
///
/// The requirement that the stored name does not itself begin with the
/// namespace prefix matches the source schema, whose keys are canonical
/// names; a key such as `"minecraft:stick"` would be normalized away by
/// the name lookup. Registries with id collisions keep only the
/// last-written name for the shared id, so they are left out here.
pub proof fn law_round_trip(es: Seq<(String, Item)>, k: int)
    requires
        names_distinct(es),
        ids_distinct(es),
        0 <= k < es.len(),
        !has_prefix(es[k].0@, ns_prefix()),
    ensures
        lookup_name(es, normalized(es[k].0@)) == Some(es[k].1),
        name_of_id(es, es[k].1.id) == Some(es[k].0@),
{
    assert(normalized(es[k].0@) == es[k].0@);
    lemma_lookup_at(es, es[k].0@, k);
    lemma_name_of_id_at(es, es[k].1.id, k);
}

/// Prefix normalization: prepending the namespace prefix to a key that
/// does not already carry it never changes what the name lookup finds.
pub proof fn law_prefix_normalization(es: Seq<(String, Item)>, name: Seq<char>)
    requires
        !has_prefix(name, ns_prefix()),
    ensures
        normalized(ns_prefix() + name) == normalized(name),
        lookup_name(es, normalized(ns_prefix() + name)) == lookup_name(es, normalized(name)),
{
    let p = ns_prefix();
    let full = p + name;
    assert(full.subrange(0, p.len() as int) =~= p);
    assert(full.subrange(p.len() as int, full.len() as int) =~= name);
}

/// Consistency: in a registry without id collisions whose names carry
/// no namespace prefix, the reverse index and the id scan agree on
/// every id — both find nothing, or the index's name looks up exactly
/// the item the scan returns, and that item carries the id asked for.
///
/// `Registry::load` ensures the no-prefix hypothesis for every
/// registry it builds; it is a hypothesis here because `Registry::new`
/// also accepts plain entries with prefixed names, which the name
/// lookup's normalization would then never find.
pub proof fn law_consistency(es: Seq<(String, Item)>, id: u16)
    requires
        names_distinct(es),
        ids_distinct(es),
        forall|i: int| 0 <= i < es.len() ==> !has_prefix(#[trigger] es[i].0@, ns_prefix()),
    ensures
        name_of_id(es, id) is Some <==> item_of_id(es, id) is Some,
        name_of_id(es, id) matches Some(n) ==> lookup_name(es, normalized(n)) == item_of_id(
            es,
            id,
        ),
        item_of_id(es, id) matches Some(item) ==> item.id == id,
{
    if exists|j: int| 0 <= j < es.len() && #[trigger] es[j].1.id == id {
        let j = choose|j: int| 0 <= j < es.len() && #[trigger] es[j].1.id == id;
        lemma_name_of_id_at(es, id, j);
        lemma_item_of_id_at(es, id, j);
        assert(normalized(es[j].0@) == es[j].0@);
        lemma_lookup_at(es, es[j].0@, j);
    } else {
        lemma_name_of_id_none(es, id);
        lemma_item_of_id_none(es, id);
    }
}

} // verus!
