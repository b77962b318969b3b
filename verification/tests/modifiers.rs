use keyboard::modifiers::{ALL_BITS, ALT_BIT, CONTROL_BIT, SHIFT_BIT};
use keyboard::KeyModifiers;
use std::collections::hash_map::DefaultHasher;
use std::hash::{Hash, Hasher};

fn every_set() -> Vec<KeyModifiers> {
    let mut sets = Vec::new();
    for bits in 0u8..8 {
        sets.push(KeyModifiers::from_bits(bits).unwrap());
    }
    sets
}

fn hash_of(modifiers: KeyModifiers) -> u64 {
    let mut hasher = DefaultHasher::new();
    modifiers.hash(&mut hasher);
    hasher.finish()
}

#[test]
fn named_sets_have_their_bits() {
    assert_eq!(KeyModifiers::none().bits(), 0b0000_0000);
    assert_eq!(KeyModifiers::shift().bits(), 0b0000_0001);
    assert_eq!(KeyModifiers::control().bits(), 0b0000_0010);
    assert_eq!(KeyModifiers::alt().bits(), 0b0000_0100);
    assert_eq!(KeyModifiers::empty().bits(), 0);
    assert_eq!(KeyModifiers::all().bits(), 0b0000_0111);
}

#[test]
fn bit_constants_are_distinct_single_bits() {
    assert_eq!(SHIFT_BIT, 1);
    assert_eq!(CONTROL_BIT, 2);
    assert_eq!(ALT_BIT, 4);
    assert_eq!(ALL_BITS, SHIFT_BIT | CONTROL_BIT | ALT_BIT);
}

#[test]
fn none_is_empty_and_equals_empty() {
    assert!(KeyModifiers::none().is_empty());
    assert_eq!(KeyModifiers::none(), KeyModifiers::empty());
    assert!(!KeyModifiers::shift().is_empty());
    assert!(!KeyModifiers::all().is_empty());
}

#[test]
fn is_all_only_with_all_three() {
    assert!(KeyModifiers::all().is_all());
    assert!((KeyModifiers::shift() | KeyModifiers::control() | KeyModifiers::alt()).is_all());
    assert!(!(KeyModifiers::shift() | KeyModifiers::control()).is_all());
    assert!(!KeyModifiers::none().is_all());
}

#[test]
fn from_bits_accepts_the_three_modifier_bits_only() {
    for bits in 0u8..8 {
        assert_eq!(KeyModifiers::from_bits(bits).unwrap().bits(), bits);
    }
    for bits in 8u8..=255 {
        assert_eq!(KeyModifiers::from_bits(bits), None);
    }
}

#[test]
fn from_bits_truncate_drops_other_bits() {
    assert_eq!(KeyModifiers::from_bits_truncate(0xff), KeyModifiers::all());
    assert_eq!(KeyModifiers::from_bits_truncate(0b1111_1010), KeyModifiers::control());
    assert_eq!(KeyModifiers::from_bits_truncate(0b0000_1000), KeyModifiers::none());
    for bits in 0u8..=255 {
        assert_eq!(KeyModifiers::from_bits_truncate(bits).bits(), bits & 0b0000_0111);
    }
}

#[test]
fn union_holds_the_modifiers_of_both() {
    let control_shift = KeyModifiers::control().union(KeyModifiers::shift());
    assert_eq!(control_shift.bits(), 0b0000_0011);
    assert!(control_shift.contains(KeyModifiers::control()));
    assert!(control_shift.contains(KeyModifiers::shift()));
    assert!(!control_shift.contains(KeyModifiers::alt()));
    assert_eq!(control_shift, KeyModifiers::control() | KeyModifiers::shift());
}

#[test]
fn none_is_the_identity_of_union() {
    for modifiers in every_set() {
        assert_eq!(modifiers.union(KeyModifiers::none()), modifiers);
        assert_eq!(KeyModifiers::none().union(modifiers), modifiers);
        assert_eq!(modifiers | KeyModifiers::none(), modifiers);
    }
}

#[test]
fn set_operations_agree_with_the_bit_operations() {
    for a in every_set() {
        for b in every_set() {
            assert_eq!(a.union(b).bits(), a.bits() | b.bits());
            assert_eq!(a.intersection(b).bits(), a.bits() & b.bits());
            assert_eq!(a.difference(b).bits(), a.bits() & !b.bits());
            assert_eq!(a.symmetric_difference(b).bits(), a.bits() ^ b.bits());
            assert_eq!((a | b).bits(), a.bits() | b.bits());
            assert_eq!((a & b).bits(), a.bits() & b.bits());
            assert_eq!((a - b).bits(), a.bits() & !b.bits());
            assert_eq!((a ^ b).bits(), a.bits() ^ b.bits());
            assert_eq!(a.contains(b), a.bits() & b.bits() == b.bits());
            assert_eq!(a.intersects(b), a.bits() & b.bits() != 0);
        }
        assert_eq!(a.complement().bits(), !a.bits() & 0b0000_0111);
        assert_eq!((!a).bits(), !a.bits() & 0b0000_0111);
    }
}

#[test]
fn intersection_and_difference_on_named_sets() {
    let control_shift = KeyModifiers::control() | KeyModifiers::shift();
    let shift_alt = KeyModifiers::shift() | KeyModifiers::alt();
    assert_eq!(control_shift.intersection(shift_alt), KeyModifiers::shift());
    assert_eq!(control_shift.difference(shift_alt), KeyModifiers::control());
    assert_eq!(
        control_shift.symmetric_difference(shift_alt),
        KeyModifiers::control() | KeyModifiers::alt()
    );
    assert_eq!(control_shift.complement(), KeyModifiers::alt());
    assert_eq!(KeyModifiers::none().complement(), KeyModifiers::all());
    assert_eq!(KeyModifiers::all().complement(), KeyModifiers::none());
}

#[test]
fn contains_and_intersects_differ_on_partial_overlap() {
    let control_shift = KeyModifiers::control() | KeyModifiers::shift();
    let shift_alt = KeyModifiers::shift() | KeyModifiers::alt();
    assert!(control_shift.intersects(shift_alt));
    assert!(!control_shift.contains(shift_alt));
    assert!(!control_shift.intersects(KeyModifiers::alt()));
    assert!(control_shift.contains(KeyModifiers::none()));
    assert!(!control_shift.intersects(KeyModifiers::none()));
}

#[test]
fn insert_remove_toggle_and_set_change_in_place() {
    let mut modifiers = KeyModifiers::none();
    modifiers.insert(KeyModifiers::control());
    assert_eq!(modifiers, KeyModifiers::control());
    modifiers.insert(KeyModifiers::shift());
    assert_eq!(modifiers.bits(), 0b0000_0011);
    modifiers.remove(KeyModifiers::control());
    assert_eq!(modifiers, KeyModifiers::shift());
    modifiers.toggle(KeyModifiers::shift() | KeyModifiers::alt());
    assert_eq!(modifiers, KeyModifiers::alt());
    modifiers.set(KeyModifiers::control(), true);
    assert_eq!(modifiers, KeyModifiers::control() | KeyModifiers::alt());
    modifiers.set(KeyModifiers::alt(), false);
    assert_eq!(modifiers, KeyModifiers::control());
}

#[test]
fn assigning_operators_change_in_place() {
    let mut modifiers = KeyModifiers::none();
    modifiers |= KeyModifiers::control();
    modifiers |= KeyModifiers::shift();
    assert_eq!(modifiers.bits(), 0b0000_0011);
    modifiers &= KeyModifiers::shift() | KeyModifiers::alt();
    assert_eq!(modifiers, KeyModifiers::shift());
    modifiers ^= KeyModifiers::all();
    assert_eq!(modifiers, KeyModifiers::control() | KeyModifiers::alt());
    modifiers -= KeyModifiers::alt();
    assert_eq!(modifiers, KeyModifiers::control());
}

#[test]
fn intersecting_with_a_flag_does_not_accumulate() {
    let mut modifiers = KeyModifiers::none();
    modifiers &= KeyModifiers::shift();
    assert_eq!(modifiers, KeyModifiers::none());
}

#[test]
fn sets_are_equal_iff_all_three_flags_match() {
    for a in every_set() {
        for b in every_set() {
            let flags_match = a.contains(KeyModifiers::shift())
                == b.contains(KeyModifiers::shift())
                && a.contains(KeyModifiers::control()) == b.contains(KeyModifiers::control())
                && a.contains(KeyModifiers::alt()) == b.contains(KeyModifiers::alt());
            assert_eq!(a == b, flags_match);
        }
    }
}

#[test]
fn equal_sets_have_equal_hashes() {
    let built = KeyModifiers::shift() | KeyModifiers::alt();
    let read = KeyModifiers::from_bits(0b0000_0101).unwrap();
    assert_eq!(built, read);
    assert_eq!(hash_of(built), hash_of(read));
    for a in every_set() {
        for b in every_set() {
            if a == b {
                assert_eq!(hash_of(a), hash_of(b));
            }
        }
    }
}

#[test]
fn sets_are_ordered_by_their_mask() {
    assert!(KeyModifiers::none() < KeyModifiers::shift());
    assert!(KeyModifiers::shift() < KeyModifiers::control());
    assert!(KeyModifiers::control() < KeyModifiers::alt());
    assert!(KeyModifiers::control() | KeyModifiers::shift() < KeyModifiers::alt());
    assert_eq!(KeyModifiers::all().max(KeyModifiers::alt()), KeyModifiers::all());
}

#[test]
fn sets_are_copied_by_value() {
    let modifiers = KeyModifiers::control();
    let mut copy = modifiers;
    copy.insert(KeyModifiers::alt());
    assert_eq!(modifiers, KeyModifiers::control());
    assert_eq!(copy, KeyModifiers::control() | KeyModifiers::alt());
    assert_eq!(modifiers.clone(), modifiers);
}
