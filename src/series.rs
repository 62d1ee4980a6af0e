//! Pairing evaluation points with their computed values.
use vstd::prelude::*;

verus! {

/// The pairs `(xs[i], ys[i])` for every index that both sequences have.
pub open spec fn zip_spec<A, B>(xs: Seq<A>, ys: Seq<B>) -> Seq<(A, B)> {
    let n = if xs.len() <= ys.len() {
        xs.len()
    } else {
        ys.len()
    };
    Seq::new(n, |i: int| (xs[i], ys[i]))
}

/// The zipped series without its first and its last pair.
pub open spec fn interior_spec<A, B>(xs: Seq<A>, ys: Seq<B>) -> Seq<(A, B)> {
    let z = zip_spec(xs, ys);
    if z.len() <= 2 {
        Seq::empty()
    } else {
        z.subrange(1, z.len() - 1)
    }
}

/// Each evaluation point with the value computed at it, in order.
pub fn pair_series<A: Copy, B: Copy>(xs: &[A], ys: &[B]) -> (r: Vec<(A, B)>)
    ensures
        r@ == zip_spec(xs@, ys@),
{
    let n: usize = if xs.len() <= ys.len() {
        xs.len()
    } else {
        ys.len()
    };
    let mut r: Vec<(A, B)> = Vec::new();
    let mut i: usize = 0;
    while i < n
        invariant
            i <= n,
            n <= xs@.len(),
            n <= ys@.len(),
            n == zip_spec(xs@, ys@).len(),
            r@ == zip_spec(xs@, ys@).subrange(0, i as int),
        decreases n - i,
    {
        r.push((xs[i], ys[i]));
        i = i + 1;
        assert(r@ =~= zip_spec(xs@, ys@).subrange(0, i as int));
    }
    assert(r@ =~= zip_spec(xs@, ys@));
    r
}

/// The evaluation points with their values, less the first and the last point,
/// which lie on the boundary of the truncation range where the series is least
/// accurate.
pub fn interior_pairs<A: Copy, B: Copy>(xs: &[A], ys: &[B]) -> (r: Vec<(A, B)>)
    ensures
        r@ == interior_spec(xs@, ys@),
{
    let n: usize = if xs.len() <= ys.len() {
        xs.len()
    } else {
        ys.len()
    };
    let mut r: Vec<(A, B)> = Vec::new();
    if n <= 2 {
        assert(r@ =~= interior_spec(xs@, ys@));
        return r;
    }
    let ghost z = zip_spec(xs@, ys@);
    let mut i: usize = 1;
    while i < n - 1
        invariant
            1 <= i <= n - 1,
            n <= xs@.len(),
            n <= ys@.len(),
            n == z.len(),
            z == zip_spec(xs@, ys@),
            r@ == z.subrange(1, i as int),
        decreases n - i,
    {
        r.push((xs[i], ys[i]));
        i = i + 1;
        assert(r@ =~= z.subrange(1, i as int));
    }
    r
}

/// A grid with one point added before it and one after it.
pub fn extend_bounds<T: Copy>(low: T, xs: &[T], high: T) -> (r: Vec<T>)
    ensures
        r@ == seq![low] + xs@ + seq![high],
{
    let mut r: Vec<T> = Vec::new();
    r.push(low);
    let mut i: usize = 0;
    while i < xs.len()
        invariant
            i <= xs@.len(),
            r@ == seq![low] + xs@.subrange(0, i as int),
        decreases xs@.len() - i,
    {
        r.push(xs[i]);
        i = i + 1;
        assert(r@ =~= seq![low] + xs@.subrange(0, i as int));
    }
    r.push(high);
    assert(r@ =~= seq![low] + xs@ + seq![high]);
    r
}

/// Evaluating on a grid extended by two boundary points and then dropping the
/// boundary pairs shows each original point with the value computed at it.
pub proof fn lemma_extend_then_interior<A, B>(low: A, xs: Seq<A>, high: A, ys: Seq<B>)
    requires
        ys.len() == xs.len() + 2,
    ensures
        interior_spec(seq![low] + xs + seq![high], ys) == zip_spec(xs, ys.subrange(1, ys.len() - 1)),
{
    let e = seq![low] + xs + seq![high];
    let z = zip_spec(e, ys);
    let w = zip_spec(xs, ys.subrange(1, ys.len() - 1));
    if z.len() <= 2 {
        assert(interior_spec(e, ys) =~= w);
    } else {
        assert forall|i: int| 0 <= i < w.len() implies #[trigger] w[i] == z[i + 1] by {
            assert(e[i + 1] == xs[i]);
        }
        assert(interior_spec(e, ys) =~= w);
    }
}

/// The interior series is the full series less its first and last pair.
pub proof fn lemma_interior_drops_boundary<A, B>(xs: Seq<A>, ys: Seq<B>)
    ensures
        zip_spec(xs, ys).len() >= 2 ==> interior_spec(xs, ys).len() == zip_spec(xs, ys).len() - 2,
        forall|i: int|
            0 <= i < interior_spec(xs, ys).len() ==> #[trigger] interior_spec(xs, ys)[i]
                == zip_spec(xs, ys)[i + 1],
{
}

} // verus!
