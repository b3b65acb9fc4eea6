//! Verified string helpers for the registry: the namespace-prefix and
//! spawn-egg-suffix conventions, and character-wise equality.

use vstd::prelude::*;

verus! {

/// The namespace prefix that `get_item` strips from a lookup key.
pub open spec fn ns_prefix() -> Seq<char> {
    "minecraft:"@
}

/// The suffix that marks an item as a spawn egg.
pub open spec fn spawn_egg_suffix() -> Seq<char> {
    "_spawn_egg"@
}

pub open spec fn has_prefix(s: Seq<char>, p: Seq<char>) -> bool {
    p.len() <= s.len() && s.subrange(0, p.len() as int) == p
}

pub open spec fn has_suffix(s: Seq<char>, p: Seq<char>) -> bool {
    p.len() <= s.len() && s.subrange(s.len() - p.len(), s.len() as int) == p
}

/// A lookup key with one leading namespace prefix removed; any other key
/// is left as it is.
pub open spec fn normalized(n: Seq<char>) -> Seq<char> {
    if has_prefix(n, ns_prefix()) {
        n.subrange(ns_prefix().len() as int, n.len() as int)
    } else {
        n
    }
}

/// Character-wise string equality, meaning equality of the views.
pub fn str_eq(a: &str, b: &str) -> (r: bool)
    ensures
        r == (a@ == b@),
{
    let a_len = a.unicode_len();
    let b_len = b.unicode_len();
    if a_len != b_len {
        return false;
    }
    let mut i: usize = 0;
    while i < a_len
        invariant
            i <= a_len,
            a_len == a@.len(),
            b_len == b@.len(),
            a_len == b_len,
            forall|k: int| 0 <= k < i ==> a@[k] == b@[k],
        decreases a_len - i,
    {
        if a.get_char(i) != b.get_char(i) {
            return false;
        }
        i += 1;
    }
    proof {
        assert(a@ =~= b@);
    }
    true
}

/// Whether `s` begins with the namespace prefix.
pub fn has_ns_prefix(s: &str) -> (r: bool)
    ensures
        r == has_prefix(s@, ns_prefix()),
{
    proof {
        reveal_strlit("minecraft:");
    }
    let len = s.unicode_len();
    if len < 10 {
        return false;
    }
    let head = s.substring_char(0, 10);
    str_eq(head, "minecraft:")
}

/// Removes one leading `"minecraft:"` from `name`, if present.
pub fn strip_namespace<'a>(name: &'a str) -> (r: &'a str)
    ensures
        r@ == normalized(name@),
{
    proof {
        reveal_strlit("minecraft:");
    }
    let len = name.unicode_len();
    if len >= 10 {
        let head = name.substring_char(0, 10);
        if str_eq(head, "minecraft:") {
            let tail = name.substring_char(10, len);
            proof {
                assert(has_prefix(name@, ns_prefix()));
            }
            return tail;
        }
    }
    proof {
        assert(!has_prefix(name@, ns_prefix()));
    }
    name
}

} // verus!
