//! What the container asks of its element type.

use vstd::prelude::*;

verus! {

/// A sum type whose values can name the variant they belong to.
///
/// The tag stands for the variant and for nothing else: it does not depend on the payload.
/// The container takes two values to be of one variant exactly when their tags are equal.
pub trait Variant {
    /// The tag of the variant that `self` belongs to.
    ///
    /// Code that is not verified has nothing to prove here: its `spec_tag` may return what
    /// its `tag` returns.
    spec fn spec_tag(&self) -> u64;

    /// Computes the tag of the variant that `self` belongs to.
    #[verifier::when_used_as_spec(spec_tag)]
    fn tag(&self) -> (tag: u64)
        ensures
            tag == self.spec_tag(),
    ;
}

/// Whether `a` and `b` belong to the same variant.
pub open spec fn same_variant<T: Variant>(a: T, b: T) -> bool {
    a.tag() == b.tag()
}

impl<A> Variant for Option<A> {
    open spec fn spec_tag(&self) -> u64 {
        match self {
            None => 0,
            Some(_) => 1,
        }
    }

    fn tag(&self) -> (tag: u64) {
        match self {
            None => 0,
            Some(_) => 1,
        }
    }
}

impl<A, E> Variant for Result<A, E> {
    open spec fn spec_tag(&self) -> u64 {
        match self {
            Ok(_) => 0,
            Err(_) => 1,
        }
    }

    fn tag(&self) -> (tag: u64) {
        match self {
            Ok(_) => 0,
            Err(_) => 1,
        }
    }
}

} // verus!
