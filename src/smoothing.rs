use vstd::prelude::*;

verus! {

/// `new` is `old` after one smoothing fold of `latest`: the two sequences are paired by
/// position up to the shorter length, each paired bin becomes the blend of its old value and
/// the new one, and every bin past `latest` keeps its old value.
pub open spec fn folded<B, N, F: Fn(B, N) -> B>(
    blend: F,
    old: Seq<B>,
    latest: Seq<N>,
    new: Seq<B>,
) -> bool {
    &&& new.len() == old.len()
    &&& forall|i: int|
        0 <= i < old.len() ==> if i < latest.len() {
            blend.ensures((old[i], latest[i]), #[trigger] new[i])
        } else {
            new[i] == old[i]
        }
}

/// The blend accepts every pair of a bin and a new value.
pub open spec fn blend_total<B, N, F: Fn(B, N) -> B>(blend: F) -> bool {
    forall|b: B, n: N| #[trigger] blend.requires((b, n))
}

/// The blend gives one result for each pair: a function rather than a relation.
pub open spec fn blend_functional<B, N, F: Fn(B, N) -> B>(blend: F) -> bool {
    forall|b: B, n: N, r1: B, r2: B|
        #[trigger] blend.ensures((b, n), r1) && #[trigger] blend.ensures((b, n), r2) ==> r1 == r2
}

/// Folds `latest` into `bins` in place (see `folded`).
pub fn fold_into<B: Copy, N: Copy, F: Fn(B, N) -> B>(bins: &mut Vec<B>, latest: &Vec<N>, blend: &F)
    requires
        blend_total(*blend),
    ensures
        folded(*blend, old(bins)@, latest@, final(bins)@),
{
    let n: usize = if bins.len() < latest.len() { bins.len() } else { latest.len() };
    let mut i: usize = 0;
    while i < n
        invariant
            n <= bins.len(),
            n <= latest.len(),
            n == old(bins)@.len() || n == latest@.len(),
            i <= n,
            blend_total(*blend),
            bins@.len() == old(bins)@.len(),
            forall|k: int| 0 <= k < i ==> blend.ensures((old(bins)@[k], latest@[k]), #[trigger] bins@[k]),
            forall|k: int| i <= k < bins@.len() ==> #[trigger] bins@[k] == old(bins)@[k],
        decreases n - i,
    {
        let b: B = bins[i];
        let v: N = latest[i];
        let r: B = blend(b, v);
        bins.set(i, r);
        i = i + 1;
    }
}

/// Folding is deterministic: with a blend that is a function, the same old bins and the same
/// new spectrum give the same folded bins.
pub proof fn lemma_fold_deterministic<B, N, F: Fn(B, N) -> B>(
    blend: F,
    old: Seq<B>,
    latest: Seq<N>,
    new1: Seq<B>,
    new2: Seq<B>,
)
    requires
        blend_functional(blend),
        folded(blend, old, latest, new1),
        folded(blend, old, latest, new2),
    ensures
        new1 == new2,
{
    assert forall|i: int| 0 <= i < new1.len() implies new1[i] == new2[i] by {
        if i < latest.len() {
            assert(blend.ensures((old[i], latest[i]), new1[i]));
            assert(blend.ensures((old[i], latest[i]), new2[i]));
        }
    }
    assert(new1 =~= new2);
}

} // verus!
