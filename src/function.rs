//! Combinators that build new callables from values and existing callables.
//!
//! A callable here may be nondeterministic, so each contract is stated over
//! `requires` (where a call is allowed) and `ensures` (which results a call
//! may give): the new callable may be called wherever the one it is built
//! from may, and each of its results is a result that one may give.
use vstd::prelude::*;

verus! {

/// `g` is `f` with its two arguments swapped: `g(b, a)` may be called wherever
/// `f(a, b)` may, and whatever it returns is something `f(a, b)` may return.
pub open spec fn flipped<A, B, C, F: Fn(A, B) -> C, G: Fn(B, A) -> C>(f: F, g: G) -> bool {
    &&& forall|a: A, b: B| f.requires((a, b)) ==> #[trigger] g.requires((b, a))
    &&& forall|a: A, b: B, c: C| #[trigger] g.ensures((b, a), c) ==> f.ensures((a, b), c)
}

/// `g` behaves as `f` on the same two arguments: it may be called wherever `f`
/// may, and each of its results is one that `f` may give.
pub open spec fn refines2<A, B, C, F: Fn(A, B) -> C, G: Fn(A, B) -> C>(f: F, g: G) -> bool {
    &&& forall|a: A, b: B| f.requires((a, b)) ==> #[trigger] g.requires((a, b))
    &&& forall|a: A, b: B, c: C| #[trigger] g.ensures((a, b), c) ==> f.ensures((a, b), c)
}

/// `g` takes two arguments and applies `f` to the first, ignoring the second.
pub open spec fn on_first_arg<A, B, C, F: Fn(A) -> C, G: Fn(A, B) -> C>(f: F, g: G) -> bool {
    &&& forall|a: A, b: B| f.requires((a,)) ==> #[trigger] g.requires((a, b))
    &&& forall|a: A, b: B, c: C| #[trigger] g.ensures((a, b), c) ==> f.ensures((a,), c)
}

/// `g` takes two arguments and applies `f` to the second, ignoring the first.
pub open spec fn on_second_arg<A, B, C, F: Fn(B) -> C, G: Fn(A, B) -> C>(f: F, g: G) -> bool {
    &&& forall|a: A, b: B| f.requires((b,)) ==> #[trigger] g.requires((a, b))
    &&& forall|a: A, b: B, c: C| #[trigger] g.ensures((a, b), c) ==> f.ensures((b,), c)
}

/// Creates a function that always returns a clone of the same value.
pub fn always<A: Clone>(a: A) -> (r: impl Fn() -> A)
    ensures
        r.requires(()),
        forall|res: A| #[trigger] r.ensures((), res) ==> cloned(a, res),
        crate::clone_is_exact::<A>() ==> forall|res: A| #[trigger] r.ensures((), res) ==> res == a,
{
    move || -> (res: A)
        ensures
            cloned(a, res),
        { a.clone() }
}

/// Flips the arguments of a 2-arity function.
pub fn flip<A, B, C, F: Fn(A, B) -> C>(f: F) -> (r: impl Fn(B, A) -> C)
    ensures
        flipped(f, r),
{
    move |b: B, a: A| -> (c: C)
        requires
            f.requires((a, b)),
        ensures
            f.ensures((a, b), c),
        { f(a, b) }
}

/// Turns a 1-arity function into a 2-arity one that uses only its first argument.
pub fn first_arg<A, B, C, F: Fn(A) -> C>(f: F) -> (r: impl Fn(A, B) -> C)
    ensures
        on_first_arg(f, r),
{
    move |a: A, _b: B| -> (c: C)
        requires
            f.requires((a,)),
        ensures
            f.ensures((a,), c),
        { f(a) }
}

/// Turns a 1-arity function into a 2-arity one that uses only its second argument.
pub fn second_arg<A, B, C, F: Fn(B) -> C>(f: F) -> (r: impl Fn(A, B) -> C)
    ensures
        on_second_arg(f, r),
{
    move |_a: A, b: B| -> (c: C)
        requires
            f.requires((b,)),
        ensures
            f.ensures((b,), c),
        { f(b) }
}

/// Supplies the first argument to a 2-arity function. Each call of the
/// result passes `f` a fresh clone of `a`.
pub fn apply_first<F: Fn(A, B) -> C, A: Clone, B, C>(a: A, f: F) -> (r: impl Fn(B) -> C)
    ensures
        forall|b: B|
            (forall|x: A| cloned(a, x) ==> #[trigger] f.requires((x, b))) ==> #[trigger] r.requires(
                (b,),
            ),
        forall|b: B, c: C| #[trigger]
            r.ensures((b,), c) ==> exists|x: A| cloned(a, x) && #[trigger] f.ensures((x, b), c),
        crate::clone_is_exact::<A>() ==> {
            &&& forall|b: B| f.requires((a, b)) ==> #[trigger] r.requires((b,))
            &&& forall|b: B, c: C| #[trigger] r.ensures((b,), c) ==> f.ensures((a, b), c)
        },
{
    move |b: B| -> (c: C)
        requires
            forall|x: A| cloned(a, x) ==> #[trigger] f.requires((x, b)),
        ensures
            exists|x: A| cloned(a, x) && #[trigger] f.ensures((x, b), c),
        {
            let x = a.clone();
            f(x, b)
        }
}

/// Supplies the second argument to a 2-arity function. Each call of the
/// result passes `f` a fresh clone of `b`.
pub fn apply_second<F: Fn(A, B) -> C, A, B: Clone, C>(b: B, f: F) -> (r: impl Fn(A) -> C)
    ensures
        forall|a: A|
            (forall|y: B| cloned(b, y) ==> #[trigger] f.requires((a, y))) ==> #[trigger] r.requires(
                (a,),
            ),
        forall|a: A, c: C| #[trigger]
            r.ensures((a,), c) ==> exists|y: B| cloned(b, y) && #[trigger] f.ensures((a, y), c),
        crate::clone_is_exact::<B>() ==> {
            &&& forall|a: A| f.requires((a, b)) ==> #[trigger] r.requires((a,))
            &&& forall|a: A, c: C| #[trigger] r.ensures((a,), c) ==> f.ensures((a, b), c)
        },
{
    move |a: A| -> (c: C)
        requires
            forall|y: B| cloned(b, y) ==> #[trigger] f.requires((a, y)),
        ensures
            exists|y: B| cloned(b, y) && #[trigger] f.ensures((a, y), c),
        {
            let y = b.clone();
            f(a, y)
        }
}

/// Flipping twice gives back the function: `flip(flip(f))` may be called
/// wherever `f` may, and gives only results that `f` may give.
pub proof fn lemma_flip_involution<A, B, C, F: Fn(A, B) -> C, G: Fn(B, A) -> C, H: Fn(A, B) -> C>(
    f: F,
    g: G,
    h: H,
)
    requires
        flipped(f, g),
        flipped(g, h),
    ensures
        refines2(f, h),
{
    assert forall|a: A, b: B| f.requires((a, b)) implies #[trigger] h.requires((a, b)) by {
        assert(g.requires((b, a)));
    }
    assert forall|a: A, b: B, c: C| #[trigger] h.ensures((a, b), c) implies f.ensures((a, b), c) by {
        assert(g.ensures((b, a), c));
    }
}

} // verus!
