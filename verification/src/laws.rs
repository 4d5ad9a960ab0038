//! What holds of every composition.
//!
//! The laws are stated over the relation [`yields`], which is what a pull
//! ensures, and over the models of arrows that have one.

use crate::model::{
    barren, composed, composed_head, follows, head, nestings_agree, scan_head, scanned, settled,
    yields,
};
use vstd::prelude::*;
use vstd::seq_lib::lemma_flatten_concat;

verus! {

/// Expanding a sequence through `g` expands its first item and then the
/// rest.
pub proof fn lemma_flat_map_unfold<B, C>(bs: Seq<B>, g: spec_fn(B) -> Seq<C>)
    requires
        bs.len() > 0,
    ensures
        bs.flat_map(g) == g(bs[0]) + bs.drop_first().flat_map(g),
{
    assert(bs.map_values(g).drop_first() =~= bs.drop_first().map_values(g));
}

/// Expanding a concatenation through `g` concatenates the expansions.
pub proof fn lemma_flat_map_concat<B, C>(x: Seq<B>, y: Seq<B>, g: spec_fn(B) -> Seq<C>)
    ensures
        (x + y).flat_map(g) == x.flat_map(g) + y.flat_map(g),
{
    assert((x + y).map_values(g) =~= x.map_values(g) + y.map_values(g));
    lemma_flatten_concat(x.map_values(g), y.map_values(g));
}

/// A scan by an arrow that follows the model `gm` hands back the head of
/// the items expanded through `gm`.
pub proof fn lemma_scan_head<B, C, G: FnMut(B) -> Vec<C>>(
    g: G,
    gm: spec_fn(B) -> Seq<C>,
    bs: Seq<B>,
    outs: Seq<Vec<C>>,
)
    requires
        follows(g, gm),
        scanned(g, bs, outs),
    ensures
        scan_head(outs) == head(bs.flat_map(gm)),
    decreases bs.len(),
{
    if bs.len() > 0 {
        lemma_flat_map_unfold(bs, gm);
        if outs[0]@.len() == 0 {
            // The first item adds nothing: the rest of the scan is a scan
            // of the rest of the items.
            assert(scanned(g, bs.drop_first(), outs.drop_first()));
            lemma_scan_head(g, gm, bs.drop_first(), outs.drop_first());
        } else {
            // Only the last result of a scan is not empty.
            assert(outs.len() == 1);
        }
    }
}

/// Order. Where both arrows follow a model, a pull returns the head of the
/// flattened nested iteration: for each `b` that `f` emits for `a`, in
/// `f`'s order, each `c` that `g` emits for `b`, in `g`'s order.
pub proof fn lemma_pull_is_composed_head<A, B, C, F, G>(
    f: F,
    g: G,
    fm: spec_fn(A) -> Seq<B>,
    gm: spec_fn(B) -> Seq<C>,
    a: A,
    r: Option<C>,
) where F: FnMut(A) -> Vec<B>, G: FnMut(B) -> Vec<C>
    requires
        follows(f, fm),
        follows(g, gm),
        yields(f, g, a, r),
    ensures
        r == composed_head(fm, gm, a),
{
    let (bs, outs) = choose|bs: Vec<B>, outs: Seq<Vec<C>>|
        call_ensures(f, (a,), bs) && #[trigger] scanned(g, bs@, outs) && r == scan_head(outs);
    lemma_scan_head(g, gm, bs@, outs);
}

/// Arrows that follow a model are settled on every input.
pub proof fn lemma_models_settle<A, B, C, F, G>(
    f: F,
    g: G,
    fm: spec_fn(A) -> Seq<B>,
    gm: spec_fn(B) -> Seq<C>,
    a: A,
) where F: FnMut(A) -> Vec<B>, G: FnMut(B) -> Vec<C>
    requires
        follows(f, fm),
        follows(g, gm),
    ensures
        settled(f, g, a),
{
}

/// Repeated pulls. Where the pull is settled, any two pulls on the same
/// input return the same value: a later pull never moves on to an element
/// behind the head.
pub proof fn lemma_pulls_are_stable<A, B, C, F, G>(
    f: F,
    g: G,
    a: A,
    once: Option<C>,
    again: Option<C>,
) where F: FnMut(A) -> Vec<B>, G: FnMut(B) -> Vec<C>
    requires
        settled(f, g, a),
        yields(f, g, a, once),
        yields(f, g, a, again),
    ensures
        again == once,
{
    let (bs, outs) = choose|bs: Vec<B>, outs: Seq<Vec<C>>|
        call_ensures(f, (a,), bs) && #[trigger] scanned(g, bs@, outs) && once == scan_head(outs);
    let (bs2, outs2) = choose|bs: Vec<B>, outs: Seq<Vec<C>>|
        call_ensures(f, (a,), bs) && #[trigger] scanned(g, bs@, outs) && again == scan_head(outs);
    assert(bs@ == bs2@);
    // Both scans visit the same items and see the same heads, so they stop
    // at the same item.
    assert forall|i: int| 0 <= i < outs.len() && 0 <= i < outs2.len() implies head(
        (#[trigger] outs[i])@,
    ) == head(outs2[i]@) by {
        assert(call_ensures(g, (bs@[i],), outs[i]));
        assert(call_ensures(g, (bs@[i],), outs2[i]));
    }
    if outs.len() < outs2.len() {
        assert(head(outs[outs.len() - 1]@) == head(outs2[outs.len() - 1]@));
    }
    if outs2.len() < outs.len() {
        assert(head(outs[outs2.len() - 1]@) == head(outs2[outs2.len() - 1]@));
    }
    assert(outs.len() == outs2.len());
}

/// Empty propagation. Where `f` emits nothing for `a`, or `g` emits
/// nothing for any item that `f` emits, a pull returns `None`.
pub proof fn lemma_empty_propagates<A, B, C, F, G>(f: F, g: G, a: A, r: Option<C>) where
    F: FnMut(A) -> Vec<B>,
    G: FnMut(B) -> Vec<C>,

    requires
        barren(f, g, a),
        yields(f, g, a, r),
    ensures
        r is None,
{
}

/// Nesting to the left looks at one element only: the head of the
/// composition of `f` and `g`, composed with `h`, is the head of what `h`
/// emits for the head of `f` and `g`.
pub proof fn lemma_left_nesting<A, B, C, D>(
    f: spec_fn(A) -> Seq<B>,
    g: spec_fn(B) -> Seq<C>,
    h: spec_fn(C) -> Seq<D>,
    a: A,
)
    ensures
        composed_head(composed(f, g), h, a) == match composed_head(f, g, a) {
            Some(c) => head(h(c)),
            None => None,
        },
{
    if composed_head(f, g, a) is Some {
        lemma_flat_map_unfold(composed(f, g)(a), h);
    }
}

/// Nesting to the right reaches every element: the head of `bs` expanded
/// through the composition of `g` and `h` is the head of the whole nested
/// iteration through `g` and then `h`.
pub proof fn lemma_right_nesting<B, C, D>(
    bs: Seq<B>,
    g: spec_fn(B) -> Seq<C>,
    h: spec_fn(C) -> Seq<D>,
)
    ensures
        head(bs.flat_map(composed(g, h))) == head(bs.flat_map(g).flat_map(h)),
    decreases bs.len(),
{
    if bs.len() > 0 {
        let rest = bs.drop_first();
        lemma_flat_map_unfold(bs, composed(g, h));
        lemma_flat_map_unfold(bs, g);
        lemma_flat_map_concat(g(bs[0]), rest.flat_map(g), h);
        lemma_right_nesting(rest, g, h);
    }
}

/// Associativity. The composition of `f` and `g`, composed with `h`, and
/// `f` composed with the composition of `g` and `h` have the same head on
/// `a`, on the inputs of [`nestings_agree`] and on no others.
pub proof fn lemma_nesting_is_associative<A, B, C, D>(
    f: spec_fn(A) -> Seq<B>,
    g: spec_fn(B) -> Seq<C>,
    h: spec_fn(C) -> Seq<D>,
    a: A,
)
    ensures
        nestings_agree(f, g, h, a) <==> composed_head(composed(f, g), h, a) == composed_head(
            f,
            composed(g, h),
            a,
        ),
{
    lemma_left_nesting(f, g, h, a);
    lemma_right_nesting(f(a), g, h);
    let cs = f(a).flat_map(g);
    if cs.len() > 0 {
        lemma_flat_map_unfold(cs, h);
    }
}

/// Associativity, of pulls. Let `fg` be an arrow that behaves as the
/// composition of `f` and `g`, and `gh` one that behaves as the
/// composition of `g` and `h`. On an input on which the nestings agree, a
/// pull of `fg` composed with `h` and a pull of `f` composed with `gh`
/// return the same value.
pub proof fn lemma_nested_pulls_agree<A, B, C, D, F, H, FG, GH>(
    f: F,
    h: H,
    fg: FG,
    gh: GH,
    fm: spec_fn(A) -> Seq<B>,
    gm: spec_fn(B) -> Seq<C>,
    hm: spec_fn(C) -> Seq<D>,
    a: A,
    left: Option<D>,
    right: Option<D>,
) where
    F: FnMut(A) -> Vec<B>,
    H: FnMut(C) -> Vec<D>,
    FG: FnMut(A) -> Vec<C>,
    GH: FnMut(B) -> Vec<D>,

    requires
        follows(f, fm),
        follows(h, hm),
        follows(fg, composed(fm, gm)),
        follows(gh, composed(gm, hm)),
        nestings_agree(fm, gm, hm, a),
        yields(fg, h, a, left),
        yields(f, gh, a, right),
    ensures
        left == right,
{
    lemma_pull_is_composed_head(fg, h, composed(fm, gm), hm, a, left);
    lemma_pull_is_composed_head(f, gh, fm, composed(gm, hm), a, right);
    lemma_nesting_is_associative(fm, gm, hm, a);
}

} // verus!
