//! The container and the model of its contents.

use crate::variant::Variant;
use std::collections::HashMap;
use vstd::prelude::*;

verus! {

/// Whether every element of `entries` stands under the tag of its own variant.
pub open spec fn keyed_by_tag<T: Variant>(entries: Map<u64, T>) -> bool {
    forall|tag: u64| #[trigger] entries.contains_key(tag) ==> entries[tag].tag() == tag
}

/// The contents `entries` after `item` is stored: `item` stands under the tag of its variant,
/// in place of whatever stood there.
pub open spec fn updated<T: Variant>(entries: Map<u64, T>, item: T) -> Map<u64, T> {
    entries.insert(item.tag(), item)
}

/// The element that `entries` holds for the variant with tag `tag`, if any.
pub open spec fn lookup<'a, T>(entries: Map<u64, T>, tag: u64) -> Option<&'a T> {
    if entries.contains_key(tag) {
        Some(&entries[tag])
    } else {
        None
    }
}

/// Whether the constructor `variant` can be applied to every default payload.
pub open spec fn takes_default<V: Default, T, F: FnOnce(V) -> T>(variant: F) -> bool {
    forall|payload: V|
        call_ensures(V::default, (), payload) ==> #[trigger] call_requires(variant, (payload,))
}

/// Whether `key` is a value that the constructor `variant` may build from a default payload.
pub open spec fn designates<V: Default, T, F: FnOnce(V) -> T>(variant: F, key: T) -> bool {
    exists|payload: V|
        call_ensures(V::default, (), payload) && #[trigger] call_ensures(variant, (payload,), key)
}

/// A set over a sum type that holds at most one element of each variant.
///
/// Its view is the map from the tags of the stored variants to the stored elements. In every
/// set each element stands under the tag of its own variant.
#[derive(Debug)]
pub struct EnumSet<T: Variant> {
    inner: HashMap<u64, T>,
}

impl<T: Variant> View for EnumSet<T> {
    type V = Map<u64, T>;

    closed spec fn view(&self) -> Map<u64, T> {
        self.inner@
    }
}

impl<T: Variant> EnumSet<T> {
    #[verifier::type_invariant]
    spec fn well_formed(&self) -> bool {
        keyed_by_tag(self.inner@)
    }

    /// The tag of the variant that the constructor `variant` builds from a default payload.
    pub fn key_from_variant<V: Default, F: FnOnce(V) -> T>(&self, variant: F) -> (tag: u64)
        requires
            takes_default::<V, T, F>(variant),
        ensures
            exists|key: T| #[trigger] designates::<V, T, F>(variant, key) && tag == key.tag(),
    {
        let key = variant(V::default());
        assert(designates::<V, T, F>(variant, key));
        key.tag()
    }

    /// Stores `item` under its variant, in place of the element of that variant if there is one.
    pub fn update(&mut self, item: T)
        ensures
            final(self)@ == updated(old(self)@, item),
            keyed_by_tag(final(self)@),
    {
        proof {
            use_type_invariant(&*self);
        }
        let tag = item.tag();
        let mut inner = HashMap::new();
        std::mem::swap(&mut inner, &mut self.inner);
        inner.insert(tag, item);
        self.inner = inner;
    }

    /// Removes the element of the variant with tag `tag` and tells whether there was one.
    pub fn remove_by_tag(&mut self, tag: u64) -> (removed: bool)
        ensures
            removed == old(self)@.contains_key(tag),
            final(self)@ == old(self)@.remove(tag),
            keyed_by_tag(final(self)@),
    {
        proof {
            use_type_invariant(&*self);
        }
        let mut inner = HashMap::new();
        std::mem::swap(&mut inner, &mut self.inner);
        let removed = inner.remove(&tag).is_some();
        self.inner = inner;
        removed
    }

    /// Removes the element of the variant that `variant` constructs and tells whether there
    /// was one.
    pub fn remove<V: Default, F: FnOnce(V) -> T>(&mut self, variant: F) -> (removed: bool)
        requires
            takes_default::<V, T, F>(variant),
        ensures
            exists|key: T|
                #[trigger] designates::<V, T, F>(variant, key)
                    && removed == old(self)@.contains_key(key.tag())
                    && final(self)@ == old(self)@.remove(key.tag()),
            keyed_by_tag(final(self)@),
    {
        let tag = self.key_from_variant(variant);
        self.remove_by_tag(tag)
    }

    /// The element of the variant with tag `tag`, if one is stored.
    pub fn get_by_tag(&self, tag: u64) -> (found: Option<&T>)
        ensures
            found == lookup(self@, tag),
            keyed_by_tag(self@),
    {
        proof {
            use_type_invariant(self);
        }
        self.inner.get(&tag)
    }

    /// The element of the variant that `variant` constructs, if one is stored.
    pub fn get<V: Default, F: FnOnce(V) -> T>(&self, variant: F) -> (found: Option<&T>)
        requires
            takes_default::<V, T, F>(variant),
        ensures
            exists|key: T|
                #[trigger] designates::<V, T, F>(variant, key)
                    && found == lookup(self@, key.tag()),
            keyed_by_tag(self@),
    {
        let tag = self.key_from_variant(variant);
        self.get_by_tag(tag)
    }

    /// Whether an element of the same variant as `probe` is stored. The payload of `probe`
    /// plays no part.
    pub fn contains(&self, probe: T) -> (found: bool)
        ensures
            found == self@.contains_key(probe.tag()),
    {
        let tag = probe.tag();
        self.inner.contains_key(&tag)
    }
}

impl<T: Variant> Default for EnumSet<T> {
    /// The empty set.
    fn default() -> (set: Self)
        ensures
            set@ == Map::<u64, T>::empty(),
    {
        Self { inner: HashMap::new() }
    }
}

} // verus!
