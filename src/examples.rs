//! Small targets and modifiers that show the protocol in use.
use vstd::prelude::*;

use crate::{Modifiable, Modifier};

verus! {

/// A target with one field.
#[derive(Debug, Clone, Copy, PartialEq, Eq, Structural)]
pub struct Thing {
    pub x: usize,
}

/// A target with two fields.
#[derive(Debug, Clone, Copy, PartialEq, Eq, Structural)]
pub struct BiggerThing {
    pub first: usize,
    pub second: usize,
}

impl Default for Thing {
    fn default() -> (r: Thing)
        ensures
            r == (Thing { x: 0 }),
    {
        Thing { x: 0 }
    }
}

impl Default for BiggerThing {
    fn default() -> (r: BiggerThing)
        ensures
            r == (BiggerThing { first: 0, second: 0 }),
    {
        BiggerThing { first: 0, second: 0 }
    }
}

impl Modifiable for Thing {}

impl Modifiable for BiggerThing {}

/// Writes its value to `Thing::x`.
pub struct ModifyX(pub usize);

/// Writes its value to `BiggerThing::first`.
pub struct ModifyFirst(pub usize);

/// Writes its value to `BiggerThing::second`.
pub struct ModifySecond(pub usize);

/// Adds its value to `Thing::x`; it applies only where the sum fits in a
/// `usize`.
pub struct AddX(pub usize);

impl Modifier<Thing> for ModifyX {
    open spec fn applicable(&self, target: Thing) -> bool {
        true
    }

    open spec fn modifies(&self, before: Thing, after: Thing) -> bool {
        after == Thing { x: self.0 }
    }

    fn modify(self, thing: &mut Thing) {
        thing.x = self.0;
    }
}

impl Modifier<BiggerThing> for ModifyFirst {
    open spec fn applicable(&self, target: BiggerThing) -> bool {
        true
    }

    open spec fn modifies(&self, before: BiggerThing, after: BiggerThing) -> bool {
        after == BiggerThing { first: self.0, ..before }
    }

    fn modify(self, bigger_thing: &mut BiggerThing) {
        bigger_thing.first = self.0;
    }
}

impl Modifier<BiggerThing> for ModifySecond {
    open spec fn applicable(&self, target: BiggerThing) -> bool {
        true
    }

    open spec fn modifies(&self, before: BiggerThing, after: BiggerThing) -> bool {
        after == BiggerThing { second: self.0, ..before }
    }

    fn modify(self, bigger_thing: &mut BiggerThing) {
        bigger_thing.second = self.0;
    }
}

impl Modifier<Thing> for AddX {
    open spec fn applicable(&self, target: Thing) -> bool {
        target.x + self.0 <= usize::MAX
    }

    open spec fn modifies(&self, before: Thing, after: Thing) -> bool {
        after.x == before.x + self.0
    }

    fn modify(self, thing: &mut Thing) {
        thing.x = thing.x + self.0;
    }
}

} // verus!
