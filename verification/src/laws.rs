//! What holds of the container whatever it holds, stated over the model of its contents.

use crate::enumset::{lookup, updated};
use crate::variant::{same_variant, Variant};
use vstd::prelude::*;

verus! {

/// Once an element is stored, every probe of its variant is found, whatever the probe's payload.
pub proof fn lemma_stored_variant_is_contained<T: Variant>(entries: Map<u64, T>, item: T, probe: T)
    requires
        same_variant(probe, item),
    ensures
        updated(entries, item).contains_key(probe.tag()),
{
}

/// Of two elements of one variant stored in turn, only the second remains.
pub proof fn lemma_last_update_wins<T: Variant>(entries: Map<u64, T>, first: T, second: T)
    requires
        same_variant(first, second),
    ensures
        lookup(updated(updated(entries, first), second), first.tag()) == Some(&second),
{
}

/// Two elements of different variants stored in turn can both be retrieved.
pub proof fn lemma_distinct_variants_coexist<T: Variant>(entries: Map<u64, T>, first: T, second: T)
    requires
        !same_variant(first, second),
    ensures
        lookup(updated(updated(entries, first), second), first.tag()) == Some(&first),
        lookup(updated(updated(entries, first), second), second.tag()) == Some(&second),
{
}

/// Right after an element is stored its variant can be removed, and then not a second time.
pub proof fn lemma_remove_succeeds_once<T: Variant>(entries: Map<u64, T>, item: T)
    ensures
        updated(entries, item).contains_key(item.tag()),
        !updated(entries, item).remove(item.tag()).contains_key(item.tag()),
{
}

/// A variant that has been removed is absent.
pub proof fn lemma_removed_is_absent<T: Variant>(entries: Map<u64, T>, tag: u64)
    ensures
        lookup(entries.remove(tag), tag) is None,
{
}

/// What a read returns depends on the contents and on the variant asked for, not on the payload
/// of the probe: two reads of one variant from the same contents agree.
pub proof fn lemma_reads_agree<T: Variant>(entries: Map<u64, T>, probe: T, other: T)
    requires
        same_variant(probe, other),
    ensures
        entries.contains_key(probe.tag()) == entries.contains_key(other.tag()),
        lookup(entries, probe.tag()) == lookup(entries, other.tag()),
{
}

/// An element that is stored is retrieved unchanged, payload included.
pub proof fn lemma_stored_is_retrieved<T: Variant>(entries: Map<u64, T>, item: T)
    ensures
        lookup(updated(entries, item), item.tag()) == Some(&item),
{
}

} // verus!
