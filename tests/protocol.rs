use modifier::examples::{AddX, BiggerThing, ModifyFirst, ModifySecond, ModifyX, Thing};
use modifier::{Modifiable, ModifierBox, ModifierFunction};

#[test]
fn test_set_and_set_mut() {
    let mut thing = Thing { x: 6 };
    thing.set_mut(ModifyX(8));
    assert_eq!(thing.x, 8);

    let thing = thing.set(ModifyX(9));
    assert_eq!(thing.x, 9);
}

#[test]
fn test_tuple_chains() {
    let thing = Thing { x: 8 }.set((ModifyX(5), ModifyX(112)));
    assert_eq!(thing.x, 112);
}

#[test]
fn test_tuple_different_fields() {
    let bigger_thing = BiggerThing { first: 1, second: 2 }.set((ModifyFirst(10), ModifySecond(12)));
    assert_eq!(bigger_thing.first, 10);
    assert_eq!(bigger_thing.second, 12);
}

#[test]
fn test_function() {
    let mut thing = Thing { x: 42 };
    let function = |Thing { x }| Thing { x: x * 2 };
    thing.set_mut(ModifierFunction(function));
    assert_eq!(thing.x, 84);
}

#[test]
fn set_and_set_mut_agree() {
    let by_value = Thing { x: 3 }.set(AddX(4));
    let mut in_place = Thing { x: 3 };
    in_place.set_mut(AddX(4));
    assert_eq!(by_value, in_place);
    assert_eq!(by_value.x, 7);
}

#[test]
fn set_mut_returns_the_same_place() {
    let mut thing = Thing { x: 1 };
    let r = thing.set_mut(ModifyX(2));
    assert_eq!(r.x, 2);
    r.set_mut(AddX(3)).set_mut(AddX(10));
    assert_eq!(thing.x, 15);
}

#[test]
fn pair_order_decides_last_write() {
    let ab = Thing { x: 0 }.set((ModifyX(1), ModifyX(2)));
    let ba = Thing { x: 0 }.set((ModifyX(2), ModifyX(1)));
    assert_eq!(ab.x, 2);
    assert_eq!(ba.x, 1);
    assert_ne!(ab, ba);
}

#[test]
fn pair_threads_the_target() {
    let thing = Thing { x: 5 }.set((ModifyX(10), AddX(1)));
    assert_eq!(thing.x, 11);
    let thing = Thing { x: 5 }.set((AddX(1), ModifyX(10)));
    assert_eq!(thing.x, 10);
}

#[test]
fn triple_applies_left_to_right() {
    let thing = Thing { x: 1 }.set((AddX(2), ModifyX(7), AddX(3)));
    assert_eq!(thing.x, 10);
}

#[test]
fn absent_modifier_changes_nothing() {
    let thing = Thing { x: 6 }.set(None::<ModifyX>);
    assert_eq!(thing, Thing { x: 6 });
    let bigger = BiggerThing { first: 1, second: 2 }.set(None::<ModifyFirst>);
    assert_eq!(bigger, BiggerThing { first: 1, second: 2 });
}

#[test]
fn present_modifier_applies() {
    let with_some = Thing { x: 6 }.set(Some(AddX(5)));
    let plain = Thing { x: 6 }.set(AddX(5));
    assert_eq!(with_some, plain);
    assert_eq!(with_some.x, 11);
}

#[test]
fn option_inside_a_pair() {
    let thing = Thing { x: 1 }.set((Some(ModifyX(4)), None::<AddX>));
    assert_eq!(thing.x, 4);
    let thing = Thing { x: 1 }.set((None::<ModifyX>, Some(AddX(4))));
    assert_eq!(thing.x, 5);
}

#[test]
fn function_result_is_written_back() {
    let thing = Thing { x: 9 }.set(ModifierFunction(|t: Thing| Thing { x: t.x + 100 }));
    assert_eq!(thing.x, 109);
    let mut bigger = BiggerThing { first: 3, second: 4 };
    bigger.set_mut(ModifierFunction(|b: BiggerThing| BiggerThing { first: b.second, second: b.first }));
    assert_eq!(bigger, BiggerThing { first: 4, second: 3 });
}

#[test]
fn erased_handle_matches_its_modifier() {
    let plain = Thing { x: 2 }.set(AddX(40));
    let handle: Box<dyn ModifierBox<Thing>> = Box::new(AddX(40));
    let erased = Thing { x: 2 }.set(handle);
    assert_eq!(plain, erased);
    assert_eq!(erased.x, 42);
}

#[test]
fn erased_handle_chosen_at_run_time() {
    for add in [true, false] {
        let handle: Box<dyn ModifierBox<Thing>> = if add { Box::new(AddX(1)) } else { Box::new(ModifyX(100)) };
        let thing = Thing { x: 5 }.set(handle);
        assert_eq!(thing.x, if add { 6 } else { 100 });
    }
}

#[test]
fn vector_of_handles_applies_in_order() {
    let handles: Vec<Box<dyn ModifierBox<Thing>>> = vec![Box::new(ModifyX(3)), Box::new(AddX(4)), Box::new(ModifyX(20)), Box::new(AddX(1))];
    let thing = Thing { x: 0 }.set(handles);
    assert_eq!(thing.x, 21);
}

#[test]
fn empty_vector_changes_nothing() {
    let handles: Vec<Box<dyn ModifierBox<Thing>>> = Vec::new();
    let thing = Thing { x: 77 }.set(handles);
    assert_eq!(thing.x, 77);
    let plain: Vec<AddX> = Vec::new();
    let thing = thing.set(plain);
    assert_eq!(thing.x, 77);
}

#[test]
fn vector_of_one_kind() {
    let thing = Thing { x: 1 }.set(vec![AddX(1), AddX(2), AddX(3)]);
    assert_eq!(thing.x, 7);
}

#[test]
fn largest_value_is_kept() {
    let thing = Thing { x: 0 }.set(ModifyX(usize::MAX));
    assert_eq!(thing.x, usize::MAX);
}

#[test]
fn different_fields_commute() {
    let one = BiggerThing { first: 1, second: 2 }.set((ModifyFirst(7), ModifySecond(8)));
    let other = BiggerThing { first: 1, second: 2 }.set((ModifySecond(8), ModifyFirst(7)));
    assert_eq!(one, other);
    assert_eq!(one, BiggerThing { first: 7, second: 8 });
}

#[test]
fn same_field_keeps_the_other_field() {
    let bigger = BiggerThing { first: 1, second: 2 }.set((ModifyFirst(5), ModifyFirst(6)));
    assert_eq!(bigger, BiggerThing { first: 6, second: 2 });
}

#[test]
fn default_targets_are_zero() {
    assert_eq!(Thing::default(), Thing { x: 0 });
    assert_eq!(BiggerThing::default(), BiggerThing { first: 0, second: 0 });
}
