//! Kleisli composition of arrows.
//!
//! An arrow takes one value and gives back a sequence of values. Two
//! arrows `f: A -> [B]` and `g: B -> [C]` compose into an arrow from `A`
//! to `C` that, for an input `a`, stands for the concatenation in order of
//! `g(b)` for every `b` that `f(a)` emits:
//!
//! ```text
//! let f_g = kleisli_compose(f, g);
//! let mut cs = ApplyKleisliCompose::new(a, f_g);
//! let c = cs.next();
//! ```
//!
//! Evaluation is pull-based and keeps no cursor. Each pull calls `f` on the
//! input again, feeds its items to `g` from the left, and returns the head
//! of the first result that is not empty. Pulling again gives that head
//! again; the elements behind it are never reached.
//!
//! An arrow returns a `Vec`: every call hands out a fresh sequence, so a
//! source that several arrows scan is read again and never used up. The
//! input of a composition is `Copy`, and is handed to the first arrow anew
//! on every pull.

pub mod compose;
pub mod laws;
pub mod model;

pub use crate::compose::{kleisli_compose, ApplyKleisliCompose, KleisliCompose};
