//! Modifiers built out of other modifiers.
use vstd::prelude::*;

use crate::Modifier;

verus! {

/// A pair applies its first element, then its second, to the same target.
impl<F, A: Modifier<F>, B: Modifier<F>> Modifier<F> for (A, B) {
    open spec fn applicable(&self, target: F) -> bool {
        &&& self.0.applicable(target)
        &&& forall|mid: F| #[trigger] self.0.modifies(target, mid) ==> self.1.applicable(mid)
    }

    open spec fn modifies(&self, before: F, after: F) -> bool {
        exists|mid: F| #[trigger] self.0.modifies(before, mid) && self.1.modifies(mid, after)
    }

    fn modify(self, target: &mut F) {
        let (a, b) = self;
        a.modify(target);
        b.modify(target);
    }
}

/// A triple applies its elements from left to right to the same target.
impl<F, A: Modifier<F>, B: Modifier<F>, C: Modifier<F>> Modifier<F> for (A, B, C) {
    open spec fn applicable(&self, target: F) -> bool {
        &&& self.0.applicable(target)
        &&& forall|m1: F| #[trigger] self.0.modifies(target, m1) ==> self.1.applicable(m1)
        &&& forall|m1: F, m2: F|
            self.0.modifies(target, m1) && #[trigger] self.1.modifies(m1, m2)
                ==> self.2.applicable(m2)
    }

    open spec fn modifies(&self, before: F, after: F) -> bool {
        exists|m1: F, m2: F|
            #[trigger] self.0.modifies(before, m1) && #[trigger] self.1.modifies(m1, m2)
                && self.2.modifies(m2, after)
    }

    fn modify(self, target: &mut F) {
        let (a, b, c) = self;
        a.modify(target);
        b.modify(target);
        c.modify(target);
    }
}

/// An absent modifier leaves the target as it is; a present one applies.
impl<F, M: Modifier<F>> Modifier<F> for Option<M> {
    open spec fn applicable(&self, target: F) -> bool {
        match self {
            Some(m) => m.applicable(target),
            None => true,
        }
    }

    open spec fn modifies(&self, before: F, after: F) -> bool {
        match self {
            Some(m) => m.modifies(before, after),
            None => after == before,
        }
    }

    fn modify(self, target: &mut F) {
        match self {
            Some(m) => m.modify(target),
            None => {},
        }
    }
}

/// Wraps a function from a target to a new target, so that it can modify a
/// target in place.
pub struct ModifierFunction<G>(pub G);

/// The wrapped function takes the target out and its result is written back.
/// The target is swapped with a default value for the duration of the call, so
/// it never holds a value that has been moved away.
impl<T: Default, G: FnOnce(T) -> T> Modifier<T> for ModifierFunction<G> {
    open spec fn applicable(&self, target: T) -> bool {
        self.0.requires((target,))
    }

    open spec fn modifies(&self, before: T, after: T) -> bool {
        self.0.ensures((before,), after)
    }

    fn modify(self, target: &mut T) {
        let mut taken = T::default();
        core::mem::swap(target, &mut taken);
        let f = self.0;
        *target = f(taken);
    }
}

/// A modifier that can be applied from behind a heap-held, type-erased
/// handle. Every modifier is one.
pub trait ModifierBox<F> {
    /// Whether the erased modifier may be applied to `target`.
    spec fn applicable_boxed(&self, target: F) -> bool;

    /// Whether applying the erased modifier may turn `before` into `after`.
    spec fn modifies_boxed(&self, before: F, after: F) -> bool;

    /// Modify `target` with the modifier held in `self`.
    fn modify_boxed(self: Box<Self>, target: &mut F)
        requires
            self.applicable_boxed(*old(target)),
        ensures
            self.modifies_boxed(*old(target), *final(target)),
    ;
}

impl<F, M: Modifier<F>> ModifierBox<F> for M {
    open spec fn applicable_boxed(&self, target: F) -> bool {
        self.applicable(target)
    }

    open spec fn modifies_boxed(&self, before: F, after: F) -> bool {
        self.modifies(before, after)
    }

    fn modify_boxed(self: Box<Self>, target: &mut F) {
        let m = *self;
        m.modify(target);
    }
}

/// An erased handle applies the modifier that it holds.
impl<F> Modifier<F> for Box<dyn ModifierBox<F>> {
    open spec fn applicable(&self, target: F) -> bool {
        (**self).applicable_boxed(target)
    }

    open spec fn modifies(&self, before: F, after: F) -> bool {
        (**self).modifies_boxed(before, after)
    }

    fn modify(self, target: &mut F) {
        self.modify_boxed(target);
    }
}

/// Whether the modifiers of `s` may be applied in order, starting from
/// `target`, whatever each of them turns out to do.
pub open spec fn seq_applicable<F, M: Modifier<F>>(s: Seq<M>, target: F) -> bool
    decreases s.len(),
{
    s.len() == 0 || (s[0].applicable(target) && forall|mid: F|
        #[trigger] s[0].modifies(target, mid) ==> seq_applicable(s.drop_first(), mid))
}

/// Whether applying the modifiers of `s` in order may turn `before` into
/// `after`.
pub open spec fn seq_modifies<F, M: Modifier<F>>(s: Seq<M>, before: F, after: F) -> bool
    decreases s.len(),
{
    if s.len() == 0 {
        after == before
    } else {
        exists|mid: F|
            #[trigger] s[0].modifies(before, mid) && seq_modifies(s.drop_first(), mid, after)
    }
}

/// The modifiers of a vector apply one after another, from the first to the
/// last, to the same target. A vector of erased handles holds a sequence of
/// modifiers whose length and types are chosen at run time.
impl<F, M: Modifier<F>> Modifier<F> for Vec<M> {
    open spec fn applicable(&self, target: F) -> bool {
        seq_applicable(self@, target)
    }

    open spec fn modifies(&self, before: F, after: F) -> bool {
        seq_modifies(self@, before, after)
    }

    fn modify(self, target: &mut F) {
        let mut rest = self;
        while rest.len() > 0
            invariant
                seq_applicable(rest@, *target),
                forall|r: F| #[trigger]
                    seq_modifies(rest@, *target, r) ==> seq_modifies(self@, *old(target), r),
            decreases rest.len(),
        {
            let ghost before = *target;
            let ghost s = rest@;
            let m = rest.remove(0);
            assert(rest@ == s.drop_first());
            m.modify(target);
            assert forall|r: F| #[trigger] seq_modifies(rest@, *target, r) implies seq_modifies(
                self@,
                *old(target),
                r,
            ) by {
                assert(s[0].modifies(before, *target));
                assert(seq_modifies(s, before, r));
            }
        }
        assert(seq_modifies(rest@, *target, *target));
    }
}

} // verus!
