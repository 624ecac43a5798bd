//! Overloadable modification of a value, both by value and through a
//! mutable reference.
//!
//! A type that implements [`Modifier<F>`] carries a change to a value of type
//! `F`. A type that implements [`Modifiable`] gets `set` and `set_mut`, which
//! apply any such modifier: which change runs is decided by the modifier's
//! type. Pairs, triples, options, vectors, wrapped functions and type-erased
//! handles of modifiers are modifiers themselves.
use vstd::prelude::*;

pub mod examples;
mod impls;
mod laws;

pub use impls::{seq_applicable, seq_modifies, ModifierBox, ModifierFunction};
pub use laws::{
    has_one_outcome, lemma_absent_is_no_op, lemma_different_fields_commute,
    lemma_erased_is_transparent, lemma_function_result, lemma_pair_has_one_outcome,
    lemma_pair_in_order, lemma_present_is_plain, lemma_same_field_last_write_wins,
    lemma_set_agrees_with_set_mut,
};

verus! {

/// A value that knows how to modify a target of type `F`.
///
/// A modifier is consumed by the change it makes. What the change is, is
/// stated by `modifies`: which targets may result from a given one.
pub trait Modifier<F> {
    /// Whether this modifier may be applied to `target`.
    spec fn applicable(&self, target: F) -> bool;

    /// Whether applying this modifier may turn `before` into `after`.
    spec fn modifies(&self, before: F, after: F) -> bool;

    /// Modify `target` with `self`.
    fn modify(self, target: &mut F)
        requires
            self.applicable(*old(target)),
        ensures
            self.modifies(*old(target), *final(target)),
    ;
}

/// Gives a type `set` and `set_mut`, which apply any modifier of it.
pub trait Modifiable: Sized {
    /// Modify `self` with `modifier` and hand it back.
    fn set<M: Modifier<Self>>(self, modifier: M) -> (r: Self)
        requires
            modifier.applicable(self),
        ensures
            modifier.modifies(self, r),
    {
        let mut this = self;
        modifier.modify(&mut this);
        this
    }

    /// Modify `self` in place with `modifier`, and return the same reference
    /// for further calls.
    fn set_mut<M: Modifier<Self>>(&mut self, modifier: M) -> (r: &mut Self)
        requires
            modifier.applicable(*old(self)),
        ensures
            modifier.modifies(*old(self), *r),
            *final(self) == *final(r),
    {
        modifier.modify(self);
        self
    }
}

} // verus!
