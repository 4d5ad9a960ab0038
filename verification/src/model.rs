//! The mathematical model of arrows and of their composition.
//!
//! An arrow maps one value to a finite sequence of values. An executable
//! arrow is any `FnMut(X) -> Vec<Y>`; what it may return is whatever its own
//! postcondition admits, so evaluation is described as a relation
//! ([`yields`]). An arrow whose every result is fixed by its argument has a
//! model, a `spec_fn(X) -> Seq<Y>` ([`follows`]), and over models the
//! composition is a function ([`composed_head`]).

use vstd::prelude::*;

verus! {

/// The first element of `s`, if it has one.
pub open spec fn head<T>(s: Seq<T>) -> Option<T> {
    if s.len() > 0 {
        Some(s[0])
    } else {
        None
    }
}

/// The sequence that one application of a composition stands for: its head
/// alone, or nothing.
pub open spec fn at_most_one<T>(r: Option<T>) -> Seq<T> {
    match r {
        Some(c) => seq![c],
        None => Seq::empty(),
    }
}

/// The head of the concatenation, in `f`'s order, of `g(b)` for every `b`
/// that `f` emits for `a`.
pub open spec fn composed_head<A, B, C>(
    f: spec_fn(A) -> Seq<B>,
    g: spec_fn(B) -> Seq<C>,
    a: A,
) -> Option<C> {
    head(f(a).flat_map(g))
}

/// The composition of two models, as a model: applied to `a` it emits the
/// composed head and nothing after it.
pub open spec fn composed<A, B, C>(f: spec_fn(A) -> Seq<B>, g: spec_fn(B) -> Seq<C>) -> spec_fn(
    A,
) -> Seq<C> {
    |a: A| at_most_one(composed_head(f, g, a))
}

/// Every sequence that the arrow `f` can return for an argument is the one
/// that the model `m` gives for it.
pub open spec fn follows<X, Y, F: FnMut(X) -> Vec<Y>>(f: F, m: spec_fn(X) -> Seq<Y>) -> bool {
    forall|x: X, out: Vec<Y>| #[trigger] call_ensures(f, (x,), out) ==> out@ == m(x)
}

/// `f` may be called on `a`, and `g` on every item of whatever `f` returns
/// for `a`.
pub open spec fn accepts<A, B, C, F: FnMut(A) -> Vec<B>, G: FnMut(B) -> Vec<C>>(
    f: F,
    g: G,
    a: A,
) -> bool {
    &&& call_requires(f, (a,))
    &&& forall|bs: Vec<B>, i: int|
        call_ensures(f, (a,), bs) && 0 <= i < bs@.len() ==> call_requires(g, (#[trigger] bs@[i],))
}

/// `outs` is what `g` returned while the items `bs` were fed to it from the
/// left until one of its results was not empty: `outs[i]` is a result of `g`
/// on `bs[i]`, every result but the last is empty, and if items of `bs` were
/// left unvisited then the last result is not empty.
pub open spec fn scanned<B, C, G: FnMut(B) -> Vec<C>>(
    g: G,
    bs: Seq<B>,
    outs: Seq<Vec<C>>,
) -> bool {
    &&& outs.len() <= bs.len()
    &&& forall|i: int| 0 <= i < outs.len() ==> call_ensures(g, (bs[i],), #[trigger] outs[i])
    &&& forall|i: int| 0 <= i < outs.len() - 1 ==> (#[trigger] outs[i])@.len() == 0
    &&& outs.len() < bs.len() ==> outs.len() > 0 && outs.last()@.len() > 0
}

/// What a scan hands back: the head of its last result.
pub open spec fn scan_head<C>(outs: Seq<Vec<C>>) -> Option<C> {
    if outs.len() > 0 {
        head(outs.last()@)
    } else {
        None
    }
}

/// One evaluation of `g` after `f` on `a` can return `r`: `f` is called
/// once on `a`, its items are scanned by `g`, and `r` is the head of the
/// first result of `g` that is not empty, or `None` where every item was
/// visited and every result was empty.
pub open spec fn yields<A, B, C, F: FnMut(A) -> Vec<B>, G: FnMut(B) -> Vec<C>>(
    f: F,
    g: G,
    a: A,
    r: Option<C>,
) -> bool {
    exists|bs: Vec<B>, outs: Seq<Vec<C>>|
        call_ensures(f, (a,), bs) && #[trigger] scanned(g, bs@, outs) && r == scan_head(outs)
}

/// A pull of `g` after `f` on `a` is settled: whatever `f` returns for `a`
/// holds the same items, and whatever `g` returns for one of them has the
/// same head. Arrows that follow a model are settled on every input.
pub open spec fn settled<A, B, C, F: FnMut(A) -> Vec<B>, G: FnMut(B) -> Vec<C>>(
    f: F,
    g: G,
    a: A,
) -> bool {
    &&& forall|bs: Vec<B>, other: Vec<B>|
        #![trigger call_ensures(f, (a,), bs), call_ensures(f, (a,), other)]
        call_ensures(f, (a,), bs) && call_ensures(f, (a,), other) ==> bs@ == other@
    &&& forall|bs: Vec<B>, i: int, cs: Vec<C>, other: Vec<C>|
        #![trigger call_ensures(g, (bs@[i],), cs), call_ensures(g, (bs@[i],), other)]
        call_ensures(f, (a,), bs) && 0 <= i < bs@.len() && call_ensures(g, (bs@[i],), cs)
            && call_ensures(g, (bs@[i],), other) ==> head(cs@) == head(other@)
}

/// Nothing comes out of `g` after `f` on `a`: every result that `g` can
/// return for an item that `f` can emit for `a` is empty. This holds in
/// particular where `f` emits nothing for `a`.
pub open spec fn barren<A, B, C, F: FnMut(A) -> Vec<B>, G: FnMut(B) -> Vec<C>>(
    f: F,
    g: G,
    a: A,
) -> bool {
    forall|bs: Vec<B>, i: int, cs: Vec<C>|
        call_ensures(f, (a,), bs) && 0 <= i < bs@.len() && #[trigger] call_ensures(
            g,
            (bs@[i],),
            cs,
        ) ==> cs@.len() == 0
}

/// The inputs on which the two nestings of three arrows agree: `h` does
/// not drop the head of `f` and `g`, if there is one, unless it drops
/// every element that `f` and `g` reach.
pub open spec fn nestings_agree<A, B, C, D>(
    f: spec_fn(A) -> Seq<B>,
    g: spec_fn(B) -> Seq<C>,
    h: spec_fn(C) -> Seq<D>,
    a: A,
) -> bool {
    composed_head(f, g, a) matches Some(c) ==> h(c).len() > 0 || f(a).flat_map(g).flat_map(
        h,
    ).len() == 0
}

} // verus!
