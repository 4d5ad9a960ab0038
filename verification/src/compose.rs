//! The pairing of two arrows, and the pairing applied to an input.

use crate::model::{accepts, head, scanned, yields};
use core::marker::PhantomData;
use vstd::prelude::*;

verus! {

/// Two arrows, `f` from `A` to sequences of `B` and `g` from `B` to
/// sequences of `C`, held together as one arrow from `A` to `C`.
///
/// The pair owns its arrows and is only a pairing: nothing is evaluated
/// until it is applied to an input.
#[verifier::reject_recursive_types(A)]
#[verifier::reject_recursive_types(B)]
#[verifier::reject_recursive_types(C)]
pub struct KleisliCompose<A, B, C, F, G> where
    A: Copy,
    F: FnMut(A) -> Vec<B>,
    G: FnMut(B) -> Vec<C>,
 {
    _a: PhantomData<A>,
    f: F,
    g: G,
}

impl<A, B, C, F, G> KleisliCompose<A, B, C, F, G> where
    A: Copy,
    F: FnMut(A) -> Vec<B>,
    G: FnMut(B) -> Vec<C>,
 {
    /// The arrow that is applied to the input.
    pub closed spec fn first(&self) -> F {
        self.f
    }

    /// The arrow that is applied to what the first one emits.
    pub closed spec fn second(&self) -> G {
        self.g
    }

    /// Pairs `f` with `g`. Neither arrow is called.
    pub fn new(f: F, g: G) -> (k: Self)
        ensures
            k.first() == f,
            k.second() == g,
    {
        KleisliCompose { _a: PhantomData, f, g }
    }
}

/// Composition of Kleisli arrows (`>=>`): `f`, then `g` on each item that
/// `f` emits. Builds the pair and calls neither arrow.
pub fn kleisli_compose<A, B, C, F, G>(f: F, g: G) -> (k: KleisliCompose<A, B, C, F, G>) where
    A: Copy,
    F: FnMut(A) -> Vec<B>,
    G: FnMut(B) -> Vec<C>,

    ensures
        k.first() == f,
        k.second() == g,
{
    KleisliCompose::new(f, g)
}

/// The pull-based sequence obtained by supplying one input to a composed
/// arrow. It holds a copy of the input and the arrow pair, and keeps no
/// position: every pull evaluates the composition afresh and hands back
/// its head.
#[verifier::reject_recursive_types(A)]
#[verifier::reject_recursive_types(B)]
#[verifier::reject_recursive_types(C)]
pub struct ApplyKleisliCompose<A, B, C, F, G> where
    A: Copy,
    F: FnMut(A) -> Vec<B>,
    G: FnMut(B) -> Vec<C>,
 {
    a: A,
    k: KleisliCompose<A, B, C, F, G>,
}

/// Takes the first element out of `s`.
fn take_head<T>(s: Vec<T>) -> (r: Option<T>)
    ensures
        r == head(s@),
{
    let mut s = s;
    if s.is_empty() {
        None
    } else {
        Some(s.swap_remove(0))
    }
}

impl<A, B, C, F, G> ApplyKleisliCompose<A, B, C, F, G> where
    A: Copy,
    F: FnMut(A) -> Vec<B>,
    G: FnMut(B) -> Vec<C>,
 {
    /// The input that the composition is applied to.
    pub closed spec fn input(&self) -> A {
        self.a
    }

    /// The composition that is applied.
    pub closed spec fn arrows(&self) -> KleisliCompose<A, B, C, F, G> {
        self.k
    }

    /// The arrows accept the input: the first may be called on it, the
    /// second on whatever the first emits for it.
    pub open spec fn ready(&self) -> bool {
        accepts(self.arrows().first(), self.arrows().second(), self.input())
    }

    /// Applies `kc` to `a`. Nothing is evaluated yet.
    pub fn new(a: A, kc: KleisliCompose<A, B, C, F, G>) -> (s: Self)
        ensures
            s.input() == a,
            s.arrows() == kc,
    {
        ApplyKleisliCompose { a, k: kc }
    }

    /// Pulls one element. The first arrow is called on the input once more,
    /// the second on its items from the left until one of its results is
    /// not empty; the head of that result is returned, or `None` if there
    /// is none. The sequence itself is left as it was, so the next pull
    /// starts from the beginning again.
    pub fn next(&mut self) -> (r: Option<C>)
        requires
            old(self).ready(),
        ensures
            *final(self) == *old(self),
            yields(old(self).arrows().first(), old(self).arrows().second(), old(self).input(), r),
    {
        let bs = (self.k.f)(self.a);
        let ghost emitted = bs;
        let ghost mut outs: Seq<Vec<C>> = Seq::empty();
        for b in items: bs
            invariant
                *self == *old(self),
                items.seq() == emitted@,
                call_ensures(self.k.f, (self.a,), emitted),
                outs.len() == items.index(),
                forall|i: int|
                    0 <= i < emitted@.len() ==> call_requires(self.k.g, (#[trigger] emitted@[i],)),
                forall|i: int|
                    0 <= i < outs.len() ==> call_ensures(
                        self.k.g,
                        (emitted@[i],),
                        #[trigger] outs[i],
                    ),
                forall|i: int| 0 <= i < outs.len() ==> (#[trigger] outs[i])@.len() == 0,
        {
            let cs = (self.k.g)(b);
            proof {
                outs = outs.push(cs);
            }
            match take_head(cs) {
                Some(c) => {
                    assert(scanned(self.k.g, emitted@, outs));
                    return Some(c);
                },
                None => {},
            }
        }
        assert(scanned(self.k.g, emitted@, outs));
        None
    }
}

} // verus!
