//! What holds of the entry points and the combinators, whatever modifiers
//! they are given.
use vstd::prelude::*;

use crate::examples::{BiggerThing, ModifyFirst, ModifySecond, ModifyX, Thing};
use crate::impls::{ModifierBox, ModifierFunction};
use crate::Modifier;

verus! {

/// Whether applying `m` to `target` has at most one possible outcome.
pub open spec fn has_one_outcome<F, M: Modifier<F>>(m: M, target: F) -> bool {
    forall|a: F, b: F| m.modifies(target, a) && m.modifies(target, b) ==> a == b
}

/// `set` and `set_mut` are held to the same relation between the target
/// before and after, so where a modifier has one possible outcome on a target,
/// the value that `set` returns and the value that `set_mut` leaves are the
/// same.
pub proof fn lemma_set_agrees_with_set_mut<F, M: Modifier<F>>(
    m: M,
    target: F,
    by_value: F,
    in_place: F,
)
    requires
        has_one_outcome(m, target),
        m.modifies(target, by_value),
        m.modifies(target, in_place),
    ensures
        by_value == in_place,
{
}

/// A pair of modifiers with one possible outcome each has one possible
/// outcome.
pub proof fn lemma_pair_has_one_outcome<F, A: Modifier<F>, B: Modifier<F>>(a: A, b: B, target: F)
    requires
        has_one_outcome(a, target),
        forall|mid: F| #[trigger] a.modifies(target, mid) ==> has_one_outcome(b, mid),
    ensures
        has_one_outcome((a, b), target),
{
    assert forall|x: F, y: F|
        (a, b).modifies(target, x) && (a, b).modifies(target, y) implies x == y by {
        let mx = choose|mid: F| #[trigger] a.modifies(target, mid) && b.modifies(mid, x);
        let my = choose|mid: F| #[trigger] a.modifies(target, mid) && b.modifies(mid, y);
        assert(mx == my);
    }
}

/// A pair applies its first element and then its second, the second to what
/// the first left.
pub proof fn lemma_pair_in_order<F, A: Modifier<F>, B: Modifier<F>>(
    a: A,
    b: B,
    target: F,
    after: F,
)
    ensures
        (a, b).applicable(target) == (a.applicable(target) && forall|mid: F|
            #[trigger] a.modifies(target, mid) ==> b.applicable(mid)),
        (a, b).modifies(target, after) == exists|mid: F|
            #[trigger] a.modifies(target, mid) && b.modifies(mid, after),
{
    let pair = (a, b);
    assert(pair.0 == a && pair.1 == b);
}

/// Two writes to the same field: the pair leaves the value of the last one,
/// so the two orders give different targets whenever the values differ.
pub proof fn lemma_same_field_last_write_wins(a: usize, b: usize, target: Thing, after: Thing)
    ensures
        (ModifyX(a), ModifyX(b)).modifies(target, after) <==> after == (Thing { x: b }),
        (ModifyX(b), ModifyX(a)).modifies(target, after) <==> after == (Thing { x: a }),
        a != b ==> !((ModifyX(a), ModifyX(b)).modifies(target, after) && (ModifyX(b), ModifyX(
            a,
        )).modifies(target, after)),
{
    let (ab, ba) = ((ModifyX(a), ModifyX(b)), (ModifyX(b), ModifyX(a)));
    let (xa, xb) = (Thing { x: a }, Thing { x: b });
    assert(ab.0.modifies(target, xa) && ab.1.modifies(xa, xb));
    assert(ba.0.modifies(target, xb) && ba.1.modifies(xb, xa));
}

/// Writes to two different fields commute: both orders of the pair give the
/// target with both values written.
pub proof fn lemma_different_fields_commute(
    a: usize,
    b: usize,
    target: BiggerThing,
    after: BiggerThing,
)
    ensures
        (ModifyFirst(a), ModifySecond(b)).modifies(target, after) <==> after == (BiggerThing {
            first: a,
            second: b,
        }),
        (ModifySecond(b), ModifyFirst(a)).modifies(target, after) <==> after == (BiggerThing {
            first: a,
            second: b,
        }),
{
    let both = BiggerThing { first: a, second: b };
    let (fs, sf) = ((ModifyFirst(a), ModifySecond(b)), (ModifySecond(b), ModifyFirst(a)));
    let m1 = BiggerThing { first: a, ..target };
    let m2 = BiggerThing { second: b, ..target };
    assert(fs.0.modifies(target, m1) && fs.1.modifies(m1, both));
    assert(sf.0.modifies(target, m2) && sf.1.modifies(m2, both));
}

/// An absent modifier may be applied to any target and leaves it unchanged.
pub proof fn lemma_absent_is_no_op<F, M: Modifier<F>>(target: F, after: F)
    ensures
        None::<M>.applicable(target),
        None::<M>.modifies(target, after) <==> after == target,
{
}

/// A present modifier does what the modifier itself does.
pub proof fn lemma_present_is_plain<F, M: Modifier<F>>(m: M, target: F, after: F)
    ensures
        Some(m).applicable(target) == m.applicable(target),
        Some(m).modifies(target, after) == m.modifies(target, after),
{
}

/// A wrapped function may be applied where the function may be called, and
/// turns the target into a result of the function on it.
pub proof fn lemma_function_result<T: Default, G: FnOnce(T) -> T>(f: G, target: T)
    ensures
        ModifierFunction(f).applicable(target) == f.requires((target,)),
        forall|after: T| #[trigger]
            ModifierFunction(f).modifies(target, after) == f.ensures((target,), after),
{
}

/// A modifier behind an erased handle does what the modifier itself does.
pub proof fn lemma_erased_is_transparent<F, M: Modifier<F> + 'static>(m: M, target: F, after: F)
    ensures
        ({
            let h: Box<dyn ModifierBox<F>> = Box::new(m);
            &&& h.applicable(target) == m.applicable(target)
            &&& h.modifies(target, after) == m.modifies(target, after)
        }),
{
}

} // verus!
