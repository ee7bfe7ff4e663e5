//! Combinators over functions and pairs, with lenses into the slots of a pair.
use vstd::prelude::*;

pub mod function;
pub mod tuple;

verus! {

/// Holds when cloning a value of type `T` always gives back an equal value,
/// as it does for the integer types, `bool` and `char`.
pub open spec fn clone_is_exact<T: Clone>() -> bool {
    forall|x: T, y: T| #[trigger] vstd::pervasive::strictly_cloned(x, y) ==> x == y
}

} // verus!
