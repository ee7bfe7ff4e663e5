//! Combinators that build, take apart and transform 2-tuples, and lenses
//! into the two slots of a 2-tuple.
//!
//! Callables are specified as in the function combinators: over where a call
//! is allowed and which results it may give.
use vstd::prelude::*;
use fp_core::lens::Lens;

verus! {

/// `g` takes a pair and calls `f` with its two slots as arguments.
pub open spec fn spreads<A, B, C, F: Fn(A, B) -> C, G: Fn((A, B)) -> C>(f: F, g: G) -> bool {
    &&& forall|p: (A, B)| f.requires((p.0, p.1)) ==> #[trigger] g.requires((p,))
    &&& forall|p: (A, B), c: C| #[trigger] g.ensures((p,), c) ==> f.ensures((p.0, p.1), c)
}

/// `g` applies `f` to the first slot of a pair and passes the second through.
pub open spec fn maps_first<A, B, C, F: Fn(A) -> C, G: Fn((A, B)) -> (C, B)>(f: F, g: G) -> bool {
    &&& forall|p: (A, B)| f.requires((p.0,)) ==> #[trigger] g.requires((p,))
    &&& forall|p: (A, B), q: (C, B)| #[trigger]
        g.ensures((p,), q) ==> f.ensures((p.0,), q.0) && q.1 == p.1
}

/// `g` applies `f` to the second slot of a pair and passes the first through.
pub open spec fn maps_second<A, B, C, F: Fn(B) -> C, G: Fn((A, B)) -> (A, C)>(f: F, g: G) -> bool {
    &&& forall|p: (A, B)| f.requires((p.1,)) ==> #[trigger] g.requires((p,))
    &&& forall|p: (A, B), q: (A, C)| #[trigger]
        g.ensures((p,), q) ==> q.0 == p.0 && f.ensures((p.1,), q.1)
}

/// `h` may give every result of `f` applied to a result of `g`.
pub open spec fn composes<A, D, C, G: Fn(A) -> D, F: Fn(D) -> C, H: Fn(A) -> C>(
    g: G,
    f: F,
    h: H,
) -> bool {
    forall|x: A, y: D, z: C| #[trigger] g.ensures((x,), y) && #[trigger] f.ensures((y,), z)
        ==> h.ensures((x,), z)
}

/// Constructs a tuple of two copies of the same value: a clone of `a`, then `a`.
pub fn duplicate<A: Clone>(a: A) -> (r: (A, A))
    ensures
        cloned(a, r.0),
        r.1 == a,
        crate::clone_is_exact::<A>() ==> r == (a, a),
{
    (a.clone(), a)
}

/// Constructs a 2-tuple from the arguments.
pub fn cons<A, B>(a: A, b: B) -> (r: (A, B))
    ensures
        r == (a, b),
{
    (a, b)
}

/// Spreads a 2-tuple into the arguments of a 2-arity function.
pub fn spread<A, B, C, F: Fn(A, B) -> C>(f: F) -> (r: impl Fn((A, B)) -> C)
    ensures
        spreads(f, r),
{
    move |p: (A, B)| -> (c: C)
        requires
            f.requires((p.0, p.1)),
        ensures
            f.ensures((p.0, p.1), c),
        {
            let (a, b) = p;
            f(a, b)
        }
}

/// Returns the first element in a 2-tuple.
pub fn first<A, B>(p: (A, B)) -> (r: A)
    ensures
        r == p.0,
{
    p.0
}

/// Returns the second element in a 2-tuple.
pub fn second<A, B>(p: (A, B)) -> (r: B)
    ensures
        r == p.1,
{
    p.1
}

/// Transforms the first element in a 2-tuple.
pub fn map_first<A, B, C, F: Fn(A) -> C>(f: F) -> (r: impl Fn((A, B)) -> (C, B))
    ensures
        maps_first(f, r),
{
    move |p: (A, B)| -> (q: (C, B))
        requires
            f.requires((p.0,)),
        ensures
            f.ensures((p.0,), q.0),
            q.1 == p.1,
        {
            let (a, b) = p;
            (f(a), b)
        }
}

/// Transforms the second element in a 2-tuple.
pub fn map_second<A, B, C, F: Fn(B) -> C>(f: F) -> (r: impl Fn((A, B)) -> (A, C))
    ensures
        maps_second(f, r),
{
    move |p: (A, B)| -> (q: (A, C))
        requires
            f.requires((p.1,)),
        ensures
            q.0 == p.0,
            f.ensures((p.1,), q.1),
        {
            let (a, b) = p;
            (a, f(b))
        }
}

/// Mapping the first slot by `g` and then by `f` is mapping it by their
/// composition `h`: the pipeline may run wherever `g` may and `f` may take each
/// result of `g`, and each pair it gives is one that `map_first(h)` may give.
pub proof fn lemma_map_first_compose<
    A,
    B,
    D,
    C,
    G: Fn(A) -> D,
    F: Fn(D) -> C,
    H: Fn(A) -> C,
    MG: Fn((A, B)) -> (D, B),
    MF: Fn((D, B)) -> (C, B),
>(g: G, f: F, h: H, mg: MG, mf: MF)
    requires
        maps_first(g, mg),
        maps_first(f, mf),
        composes(g, f, h),
    ensures
        forall|p: (A, B)|
            g.requires((p.0,)) && (forall|y: D| #[trigger] g.ensures((p.0,), y) ==> f.requires((y,)))
                ==> #[trigger] mg.requires((p,)) && forall|q: (D, B)| #[trigger]
                mg.ensures((p,), q) ==> mf.requires((q,)),
        forall|p: (A, B), q: (D, B), s: (C, B)| #[trigger]
            mg.ensures((p,), q) && #[trigger] mf.ensures((q,), s) ==> h.ensures((p.0,), s.0) && s.1
                == p.1,
{
    assert forall|p: (A, B), q: (D, B), s: (C, B)| #[trigger]
        mg.ensures((p,), q) && #[trigger] mf.ensures((q,), s) implies h.ensures((p.0,), s.0) && s.1
        == p.1 by {
        assert(g.ensures((p.0,), q.0));
        assert(f.ensures((q.0,), s.0));
    }
}

/// Mapping the second slot by `g` and then by `f` is mapping it by their
/// composition `h`: the pipeline may run wherever `g` may and `f` may take each
/// result of `g`, and each pair it gives is one that `map_second(h)` may give.
pub proof fn lemma_map_second_compose<
    A,
    B,
    D,
    C,
    G: Fn(B) -> D,
    F: Fn(D) -> C,
    H: Fn(B) -> C,
    MG: Fn((A, B)) -> (A, D),
    MF: Fn((A, D)) -> (A, C),
>(g: G, f: F, h: H, mg: MG, mf: MF)
    requires
        maps_second(g, mg),
        maps_second(f, mf),
        composes(g, f, h),
    ensures
        forall|p: (A, B)|
            g.requires((p.1,)) && (forall|y: D| #[trigger] g.ensures((p.1,), y) ==> f.requires((y,)))
                ==> #[trigger] mg.requires((p,)) && forall|q: (A, D)| #[trigger]
                mg.ensures((p,), q) ==> mf.requires((q,)),
        forall|p: (A, B), q: (A, D), s: (A, C)| #[trigger]
            mg.ensures((p,), q) && #[trigger] mf.ensures((q,), s) ==> s.0 == p.0 && h.ensures(
                (p.1,),
                s.1,
            ),
{
    assert forall|p: (A, B), q: (A, D), s: (A, C)| #[trigger]
        mg.ensures((p,), q) && #[trigger] mf.ensures((q,), s) implies s.0 == p.0 && h.ensures(
        (p.1,),
        s.1,
    ) by {
        assert(g.ensures((p.1,), q.1));
        assert(f.ensures((q.1,), s.1));
    }
}

/// What the lens into the first slot reads from a pair.
pub open spec fn get_first<A, B>(p: (A, B)) -> A {
    p.0
}

/// The pair that the lens into the first slot makes by writing `a` into `p`.
pub open spec fn put_first<A, B>(a: A, p: (A, B)) -> (A, B) {
    (a, p.1)
}

/// What the lens into the second slot reads from a pair.
pub open spec fn get_second<A, B>(p: (A, B)) -> B {
    p.1
}

/// The pair that the lens into the second slot makes by writing `b` into `p`.
pub open spec fn put_second<A, B>(b: B, p: (A, B)) -> (A, B) {
    (p.0, b)
}

/// A [Lens](fp_core::lens::Lens) for the first element in a 2-tuple.
pub struct LensFirst;

impl<A, B: Clone> Lens<(A, B), A> for LensFirst {
    fn get(p: &(A, B)) -> (r: Option<&A>)
        ensures
            r == Some(&get_first(*p)),
    {
        Some(&p.0)
    }

    /// The untouched second slot is a clone of the one in `p`.
    fn set(a: A, p: &(A, B)) -> (r: (A, B))
        ensures
            r.0 == a,
            cloned(p.1, r.1),
            crate::clone_is_exact::<B>() ==> r == put_first(a, *p),
    {
        (a, p.1.clone())
    }
}

/// A [Lens](fp_core::lens::Lens) for the second element in a 2-tuple.
pub struct LensSecond;

impl<A: Clone, B> Lens<(A, B), B> for LensSecond {
    fn get(p: &(A, B)) -> (r: Option<&B>)
        ensures
            r == Some(&get_second(*p)),
    {
        Some(&p.1)
    }

    /// The untouched first slot is a clone of the one in `p`.
    fn set(b: B, p: &(A, B)) -> (r: (A, B))
        ensures
            cloned(p.0, r.0),
            r.1 == b,
            crate::clone_is_exact::<A>() ==> r == put_second(b, *p),
    {
        (p.0.clone(), b)
    }
}

/// The lens laws for the first slot: writing back what was read leaves the
/// pair as it was, reading gives what was written, and a second write
/// overrides the first.
pub proof fn lemma_lens_first_laws<A, B>(p: (A, B), a: A, a2: A)
    ensures
        put_first(get_first(p), p) == p,
        get_first(put_first(a, p)) == a,
        put_first(a2, put_first(a, p)) == put_first(a2, p),
{
}

/// The lens laws for the second slot: writing back what was read leaves the
/// pair as it was, reading gives what was written, and a second write
/// overrides the first.
pub proof fn lemma_lens_second_laws<A, B>(p: (A, B), b: B, b2: B)
    ensures
        put_second(get_second(p), p) == p,
        get_second(put_second(b, p)) == b,
        put_second(b2, put_second(b, p)) == put_second(b2, p),
{
}

} // verus!
