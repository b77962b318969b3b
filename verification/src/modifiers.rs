//! The set of modifier keys held down with a key.
//!
//! [`KeyModifiers`] is a bit mask with one bit for each of shift, control and
//! alt. Its view is the set of [`Modifier`]s whose bit is set, and every
//! operation is specified on that set.

use vstd::prelude::*;
use vstd::std_specs::ops::{BitAndSpecImpl, BitOrSpecImpl, BitXorSpecImpl, NotSpecImpl, SubSpecImpl};

verus! {

/// A modifier key.
#[derive(Debug, PartialEq, Eq, Clone, Copy, Hash, Structural)]
pub enum Modifier {
    /// Either shift key.
    Shift,
    /// Either control key.
    Control,
    /// Either alt key.
    Alt,
}

/// The bit that stands for shift in a [`KeyModifiers`].
pub const SHIFT_BIT: u8 = 0b0000_0001;

/// The bit that stands for control in a [`KeyModifiers`].
pub const CONTROL_BIT: u8 = 0b0000_0010;

/// The bit that stands for alt in a [`KeyModifiers`].
pub const ALT_BIT: u8 = 0b0000_0100;

/// Every bit that stands for a modifier.
pub const ALL_BITS: u8 = 0b0000_0111;

impl Modifier {
    /// The bit that stands for this modifier in a [`KeyModifiers`].
    pub open spec fn bit(self) -> u8 {
        match self {
            Modifier::Shift => SHIFT_BIT,
            Modifier::Control => CONTROL_BIT,
            Modifier::Alt => ALT_BIT,
        }
    }
}

/// The modifiers whose bit is set in `bits`. Bits that stand for no modifier
/// count for nothing.
pub open spec fn modifiers_in(bits: u8) -> Set<Modifier> {
    Set::new(|m: Modifier| bits & m.bit() != 0)
}

/// The mask in which the bits of the modifiers in `modifiers` are set, and no
/// other bit.
pub open spec fn mask_of(modifiers: Set<Modifier>) -> u8 {
    (if modifiers.contains(Modifier::Shift) {
        SHIFT_BIT
    } else {
        0
    }) | (if modifiers.contains(Modifier::Control) {
        CONTROL_BIT
    } else {
        0
    }) | (if modifiers.contains(Modifier::Alt) {
        ALT_BIT
    } else {
        0
    })
}

/// The modifiers that are in exactly one of two sets.
pub open spec fn in_one_of(a: Set<Modifier>, b: Set<Modifier>) -> Set<Modifier> {
    a.difference(b).union(b.difference(a))
}

/// Represents key modifiers (shift, control, alt).
///
/// A value is a set of modifiers, kept as a bit mask: a modifier is in the set
/// if and only if its bit is set. Values are compared, ordered and hashed by
/// that mask.
#[derive(Debug, Clone, Copy, PartialEq, Eq, PartialOrd, Ord, Hash, Structural)]
pub struct KeyModifiers {
    bits: u8,
}

impl View for KeyModifiers {
    type V = Set<Modifier>;

    /// The modifiers that the set holds.
    open spec fn view(&self) -> Set<Modifier> {
        modifiers_in(self.bits())
    }
}

impl KeyModifiers {
    /// The bit mask of the set.
    pub closed spec fn spec_bits(&self) -> u8 {
        self.bits
    }

    /// The value that holds the modifiers in `modifiers` and is well formed.
    pub closed spec fn of_set(modifiers: Set<Modifier>) -> KeyModifiers {
        KeyModifiers { bits: mask_of(modifiers) }
    }

    /// No bit is set but those of shift, control and alt. It holds of every
    /// value that executable code can get hold of.
    #[verifier::type_invariant]
    pub open spec fn wf(self) -> bool {
        self.bits() <= ALL_BITS
    }

    /// The set that holds no modifier.
    pub fn none() -> (result: KeyModifiers)
        ensures
            result@ == Set::<Modifier>::empty(),
            result.wf(),
    {
        proof {
            lemma_modifiers_in_none();
        }
        KeyModifiers { bits: 0 }
    }

    /// The set that holds shift alone.
    pub fn shift() -> (result: KeyModifiers)
        ensures
            result@ == set![Modifier::Shift],
            result.wf(),
    {
        proof {
            lemma_modifiers_in_single(Modifier::Shift);
        }
        KeyModifiers { bits: SHIFT_BIT }
    }

    /// The set that holds control alone.
    pub fn control() -> (result: KeyModifiers)
        ensures
            result@ == set![Modifier::Control],
            result.wf(),
    {
        proof {
            lemma_modifiers_in_single(Modifier::Control);
        }
        KeyModifiers { bits: CONTROL_BIT }
    }

    /// The set that holds alt alone.
    pub fn alt() -> (result: KeyModifiers)
        ensures
            result@ == set![Modifier::Alt],
            result.wf(),
    {
        proof {
            lemma_modifiers_in_single(Modifier::Alt);
        }
        KeyModifiers { bits: ALT_BIT }
    }

    /// Returns an empty set of modifiers.
    pub fn empty() -> (result: KeyModifiers)
        ensures
            result@ == Set::<Modifier>::empty(),
            result.wf(),
    {
        KeyModifiers::none()
    }

    /// Returns the set containing all modifiers.
    pub fn all() -> (result: KeyModifiers)
        ensures
            result@ == Set::<Modifier>::full(),
            result.wf(),
    {
        proof {
            lemma_modifiers_in_all();
        }
        KeyModifiers { bits: ALL_BITS }
    }

    /// Returns the raw value of the modifiers currently stored.
    #[verifier::when_used_as_spec(spec_bits)]
    pub fn bits(&self) -> (bits: u8)
        ensures
            bits == self.spec_bits(),
            bits == mask_of(self@),
    {
        proof {
            use_type_invariant(self);
            lemma_mask_of_modifiers_in(self.bits);
        }
        self.bits
    }

    /// Converts from the underlying bit representation, unless that
    /// representation contains bits that do not correspond to a modifier.
    pub fn from_bits(bits: u8) -> (result: Option<KeyModifiers>)
        ensures
            bits <= ALL_BITS ==> result == Some(KeyModifiers::of_set(modifiers_in(bits))),
            bits > ALL_BITS ==> result is None,
            result matches Some(modifiers) ==> modifiers.bits() == bits,
    {
        proof {
            lemma_truncate(bits);
        }
        if (bits & !ALL_BITS) == 0 {
            proof {
                lemma_mask_of_modifiers_in(bits);
            }
            Some(KeyModifiers { bits })
        } else {
            None
        }
    }

    /// Converts from the underlying bit representation, dropping any bits
    /// that do not correspond to a modifier.
    pub fn from_bits_truncate(bits: u8) -> (result: KeyModifiers)
        ensures
            result@ == modifiers_in(bits),
            result.wf(),
            result.bits() == bits & ALL_BITS,
    {
        proof {
            lemma_truncate(bits);
            lemma_modifiers_in_truncate(bits);
        }
        KeyModifiers { bits: bits & ALL_BITS }
    }

    /// Returns `true` if no modifier is currently stored.
    pub fn is_empty(&self) -> (result: bool)
        ensures
            result == self@.is_empty(),
    {
        proof {
            use_type_invariant(self);
            lemma_modifiers_in_none();
            if self@.is_empty() {
                lemma_modifiers_in_injective(self.bits, 0);
            }
        }
        self.bits == 0
    }

    /// Returns `true` if all modifiers are currently set.
    pub fn is_all(&self) -> (result: bool)
        ensures
            result == self@.is_full(),
    {
        proof {
            use_type_invariant(self);
            lemma_modifiers_in_all();
            if self@.is_full() {
                lemma_modifiers_in_injective(self.bits, ALL_BITS);
            }
        }
        self.bits == ALL_BITS
    }

    /// Returns `true` if there are modifiers common to both `self` and
    /// `other`.
    pub fn intersects(&self, other: KeyModifiers) -> (result: bool)
        ensures
            result == !self@.disjoint(other@),
    {
        proof {
            use_type_invariant(self);
            use_type_invariant(other);
            lemma_modifiers_in_disjoint(self.bits, other.bits);
        }
        (self.bits & other.bits) != 0
    }

    /// Returns `true` if all of the modifiers in `other` are contained within
    /// `self`.
    pub fn contains(&self, other: KeyModifiers) -> (result: bool)
        ensures
            result == other@.subset_of(self@),
    {
        proof {
            use_type_invariant(self);
            use_type_invariant(other);
            lemma_modifiers_in_subset(self.bits, other.bits);
        }
        (self.bits & other.bits) == other.bits
    }

    /// Inserts the modifiers of `other` in place.
    pub fn insert(&mut self, other: KeyModifiers)
        ensures
            final(self)@ == old(self)@.union(other@),
            final(self).wf(),
    {
        *self = self.union(other);
    }

    /// Removes the modifiers of `other` in place.
    pub fn remove(&mut self, other: KeyModifiers)
        ensures
            final(self)@ == old(self)@.difference(other@),
            final(self).wf(),
    {
        *self = self.difference(other);
    }

    /// Toggles the modifiers of `other` in place.
    pub fn toggle(&mut self, other: KeyModifiers)
        ensures
            final(self)@ == in_one_of(old(self)@, other@),
            final(self).wf(),
    {
        *self = self.symmetric_difference(other);
    }

    /// Inserts the modifiers of `other` if `value` is `true`, and removes them
    /// if it is `false`.
    pub fn set(&mut self, other: KeyModifiers, value: bool)
        ensures
            value ==> final(self)@ == old(self)@.union(other@),
            !value ==> final(self)@ == old(self)@.difference(other@),
            final(self).wf(),
    {
        if value {
            self.insert(other);
        } else {
            self.remove(other);
        }
    }

    /// Returns the intersection of the two sets: the modifiers that are in
    /// both.
    pub fn intersection(self, other: KeyModifiers) -> (result: KeyModifiers)
        ensures
            result@ == self@.intersect(other@),
            result.wf(),
    {
        proof {
            use_type_invariant(self);
            use_type_invariant(other);
            lemma_mask_stays_in_range(self.bits, other.bits);
            lemma_modifiers_in_and(self.bits, other.bits);
        }
        KeyModifiers { bits: self.bits & other.bits }
    }

    /// Returns the union of the two sets: the modifiers that are in either.
    pub fn union(self, other: KeyModifiers) -> (result: KeyModifiers)
        ensures
            result@ == self@.union(other@),
            result.wf(),
    {
        proof {
            use_type_invariant(self);
            use_type_invariant(other);
            lemma_mask_stays_in_range(self.bits, other.bits);
            lemma_modifiers_in_or(self.bits, other.bits);
        }
        KeyModifiers { bits: self.bits | other.bits }
    }

    /// Returns the difference of the two sets: the modifiers that are in
    /// `self` and not in `other`.
    pub fn difference(self, other: KeyModifiers) -> (result: KeyModifiers)
        ensures
            result@ == self@.difference(other@),
            result.wf(),
    {
        proof {
            use_type_invariant(self);
            use_type_invariant(other);
            lemma_mask_stays_in_range(self.bits, other.bits);
            lemma_modifiers_in_and_not(self.bits, other.bits);
        }
        KeyModifiers { bits: self.bits & !other.bits }
    }

    /// Returns the symmetric difference of the two sets: the modifiers that
    /// are in exactly one of them.
    pub fn symmetric_difference(self, other: KeyModifiers) -> (result: KeyModifiers)
        ensures
            result@ == in_one_of(self@, other@),
            result.wf(),
    {
        proof {
            use_type_invariant(self);
            use_type_invariant(other);
            lemma_mask_stays_in_range(self.bits, other.bits);
            lemma_modifiers_in_xor(self.bits, other.bits);
        }
        KeyModifiers { bits: self.bits ^ other.bits }
    }

    /// Returns the complement of the set: the modifiers that are not in it.
    pub fn complement(self) -> (result: KeyModifiers)
        ensures
            result@ == self@.complement(),
            result.wf(),
    {
        proof {
            lemma_truncate(!self.bits);
            lemma_modifiers_in_truncate(!self.bits);
            lemma_modifiers_in_not(self.bits);
        }
        KeyModifiers { bits: !self.bits & ALL_BITS }
    }
}

impl BitOrSpecImpl for KeyModifiers {
    open spec fn obeys_bitor_spec() -> bool {
        true
    }

    open spec fn bitor_req(self, other: KeyModifiers) -> bool {
        true
    }

    open spec fn bitor_spec(self, other: KeyModifiers) -> KeyModifiers {
        KeyModifiers::of_set(self@.union(other@))
    }
}

impl core::ops::BitOr for KeyModifiers {
    type Output = KeyModifiers;

    /// Returns the union of the two sets.
    fn bitor(self, other: KeyModifiers) -> (result: KeyModifiers)
        ensures
            result@ == self@.union(other@),
            result.wf(),
    {
        let result = self.union(other);
        proof {
            lemma_of_set_view(result);
        }
        result
    }
}

impl BitAndSpecImpl for KeyModifiers {
    open spec fn obeys_bitand_spec() -> bool {
        true
    }

    open spec fn bitand_req(self, other: KeyModifiers) -> bool {
        true
    }

    open spec fn bitand_spec(self, other: KeyModifiers) -> KeyModifiers {
        KeyModifiers::of_set(self@.intersect(other@))
    }
}

impl core::ops::BitAnd for KeyModifiers {
    type Output = KeyModifiers;

    /// Returns the intersection of the two sets.
    fn bitand(self, other: KeyModifiers) -> (result: KeyModifiers)
        ensures
            result@ == self@.intersect(other@),
            result.wf(),
    {
        let result = self.intersection(other);
        proof {
            lemma_of_set_view(result);
        }
        result
    }
}

impl BitXorSpecImpl for KeyModifiers {
    open spec fn obeys_bitxor_spec() -> bool {
        true
    }

    open spec fn bitxor_req(self, other: KeyModifiers) -> bool {
        true
    }

    open spec fn bitxor_spec(self, other: KeyModifiers) -> KeyModifiers {
        KeyModifiers::of_set(in_one_of(self@, other@))
    }
}

impl core::ops::BitXor for KeyModifiers {
    type Output = KeyModifiers;

    /// Returns the modifiers of `self`, with those of `other` toggled.
    fn bitxor(self, other: KeyModifiers) -> (result: KeyModifiers)
        ensures
            result@ == in_one_of(self@, other@),
            result.wf(),
    {
        let result = self.symmetric_difference(other);
        proof {
            lemma_of_set_view(result);
        }
        result
    }
}

impl SubSpecImpl for KeyModifiers {
    open spec fn obeys_sub_spec() -> bool {
        true
    }

    open spec fn sub_req(self, other: KeyModifiers) -> bool {
        true
    }

    open spec fn sub_spec(self, other: KeyModifiers) -> KeyModifiers {
        KeyModifiers::of_set(self@.difference(other@))
    }
}

impl core::ops::Sub for KeyModifiers {
    type Output = KeyModifiers;

    /// Returns the set difference of the two sets.
    fn sub(self, other: KeyModifiers) -> (result: KeyModifiers)
        ensures
            result@ == self@.difference(other@),
            result.wf(),
    {
        let result = self.difference(other);
        proof {
            lemma_of_set_view(result);
        }
        result
    }
}

impl NotSpecImpl for KeyModifiers {
    open spec fn obeys_not_spec() -> bool {
        true
    }

    open spec fn not_req(self) -> bool {
        true
    }

    open spec fn not_spec(self) -> KeyModifiers {
        KeyModifiers::of_set(self@.complement())
    }
}

impl core::ops::Not for KeyModifiers {
    type Output = KeyModifiers;

    /// Returns the complement of the set.
    fn not(self) -> (result: KeyModifiers)
        ensures
            result@ == self@.complement(),
            result.wf(),
    {
        let result = self.complement();
        proof {
            lemma_of_set_view(result);
        }
        result
    }
}

impl core::ops::BitOrAssign for KeyModifiers {
    /// Adds the modifiers of `other`.
    fn bitor_assign(&mut self, other: KeyModifiers)
        ensures
            final(self)@ == old(self)@.union(other@),
            final(self).wf(),
    {
        self.insert(other);
    }
}

impl core::ops::BitAndAssign for KeyModifiers {
    /// Keeps the modifiers that are in `other` too.
    fn bitand_assign(&mut self, other: KeyModifiers)
        ensures
            final(self)@ == old(self)@.intersect(other@),
            final(self).wf(),
    {
        *self = self.intersection(other);
    }
}

impl core::ops::BitXorAssign for KeyModifiers {
    /// Toggles the modifiers of `other`.
    fn bitxor_assign(&mut self, other: KeyModifiers)
        ensures
            final(self)@ == in_one_of(old(self)@, other@),
            final(self).wf(),
    {
        self.toggle(other);
    }
}

impl core::ops::SubAssign for KeyModifiers {
    /// Removes the modifiers of `other`.
    fn sub_assign(&mut self, other: KeyModifiers)
        ensures
            final(self)@ == old(self)@.difference(other@),
            final(self).wf(),
    {
        self.remove(other);
    }
}

/// How the test of one modifier's bit goes through the bit operations.
proof fn lemma_bit_test(a: u8, b: u8, k: u8)
    by (bit_vector)
    requires
        k == 1 || k == 2 || k == 4,
    ensures
        ((a | b) & k != 0) == ((a & k != 0) || (b & k != 0)),
        ((a & b) & k != 0) == ((a & k != 0) && (b & k != 0)),
        ((a & !b) & k != 0) == ((a & k != 0) && (b & k == 0)),
        ((a ^ b) & k != 0) == ((a & k != 0) != (b & k != 0)),
        (!a & k != 0) == (a & k == 0),
        ((a & 7) & k != 0) == (a & k != 0),
        (0u8 & k) == 0,
        (7u8 & k) != 0,
{
}

/// The bit operations keep two masks of modifier bits within those bits.
proof fn lemma_mask_stays_in_range(a: u8, b: u8)
    by (bit_vector)
    requires
        a <= 7,
        b <= 7,
    ensures
        a | b <= 7,
        a & b <= 7,
        a & !b <= 7,
        a ^ b <= 7,
{
}

/// What masking with all modifier bits does.
proof fn lemma_truncate(a: u8)
    by (bit_vector)
    ensures
        a & 7 <= 7,
        a <= 7 ==> a & 7 == a,
        (a & !7 == 0) == (a <= 7),
{
}

/// Two masks of modifier bits, told apart and compared bit by bit.
proof fn lemma_mask_by_bits(a: u8, b: u8)
    by (bit_vector)
    requires
        a <= 7,
        b <= 7,
    ensures
        (a == b) == ({
            &&& (a & 1 != 0) == (b & 1 != 0)
            &&& (a & 2 != 0) == (b & 2 != 0)
            &&& (a & 4 != 0) == (b & 4 != 0)
        }),
        (a & b == b) == ({
            &&& (b & 1 != 0) ==> (a & 1 != 0)
            &&& (b & 2 != 0) ==> (a & 2 != 0)
            &&& (b & 4 != 0) ==> (a & 4 != 0)
        }),
        (a & b != 0) == ({
            ||| (a & 1 != 0) && (b & 1 != 0)
            ||| (a & 2 != 0) && (b & 2 != 0)
            ||| (a & 4 != 0) && (b & 4 != 0)
        }),
{
}

/// A mask put together from the three modifier bits, each present or not.
proof fn lemma_mask_of_bits(shift: u8, control: u8, alt: u8)
    by (bit_vector)
    requires
        shift == 0 || shift == 1,
        control == 0 || control == 2,
        alt == 0 || alt == 4,
    ensures
        shift | control | alt <= 7,
        ((shift | control | alt) & 1 != 0) == (shift != 0),
        ((shift | control | alt) & 2 != 0) == (control != 0),
        ((shift | control | alt) & 4 != 0) == (alt != 0),
{
}

/// Whether each modifier is in `modifiers_in(bits)`, as a test of its bit.
proof fn lemma_modifiers_in_by_bits(bits: u8)
    ensures
        modifiers_in(bits).contains(Modifier::Shift) == (bits & 1 != 0),
        modifiers_in(bits).contains(Modifier::Control) == (bits & 2 != 0),
        modifiers_in(bits).contains(Modifier::Alt) == (bits & 4 != 0),
{
}

/// No modifier has its bit set in zero.
pub proof fn lemma_modifiers_in_none()
    ensures
        modifiers_in(0) == Set::<Modifier>::empty(),
{
    assert forall|m: Modifier| !(#[trigger] modifiers_in(0).contains(m)) by {
        lemma_bit_test(0, 0, m.bit());
    }
    assert(modifiers_in(0) =~= Set::<Modifier>::empty());
}

/// Every modifier has its bit set in [`ALL_BITS`].
pub proof fn lemma_modifiers_in_all()
    ensures
        modifiers_in(ALL_BITS) == Set::<Modifier>::full(),
{
    assert forall|m: Modifier| #[trigger] modifiers_in(ALL_BITS).contains(m) by {
        lemma_bit_test(0, 0, m.bit());
    }
    assert(modifiers_in(ALL_BITS) =~= Set::<Modifier>::full());
}

/// The bit of a modifier holds that modifier and no other.
pub proof fn lemma_modifiers_in_single(modifier: Modifier)
    ensures
        modifiers_in(modifier.bit()) == set![modifier],
{
    assert(1u8 & 1 != 0 && 1u8 & 2 == 0 && 1u8 & 4 == 0) by (bit_vector);
    assert(2u8 & 1 == 0 && 2u8 & 2 != 0 && 2u8 & 4 == 0) by (bit_vector);
    assert(4u8 & 1 == 0 && 4u8 & 2 == 0 && 4u8 & 4 != 0) by (bit_vector);
    assert forall|m: Modifier| #[trigger]
        modifiers_in(modifier.bit()).contains(m) == set![modifier].contains(m) by {}
    assert(modifiers_in(modifier.bit()) =~= set![modifier]);
}

/// Bits that stand for no modifier change nothing.
pub proof fn lemma_modifiers_in_truncate(bits: u8)
    ensures
        modifiers_in(bits & ALL_BITS) == modifiers_in(bits),
{
    assert forall|m: Modifier| #[trigger]
        modifiers_in(bits & ALL_BITS).contains(m) == modifiers_in(bits).contains(m) by {
        lemma_bit_test(bits, 0, m.bit());
    }
    assert(modifiers_in(bits & ALL_BITS) =~= modifiers_in(bits));
}

/// Bitwise or is the union of the modifiers.
pub proof fn lemma_modifiers_in_or(a: u8, b: u8)
    ensures
        modifiers_in(a | b) == modifiers_in(a).union(modifiers_in(b)),
{
    assert forall|m: Modifier| #[trigger]
        modifiers_in(a | b).contains(m) == modifiers_in(a).union(modifiers_in(b)).contains(
            m,
        ) by {
        lemma_bit_test(a, b, m.bit());
    }
    assert(modifiers_in(a | b) =~= modifiers_in(a).union(modifiers_in(b)));
}

/// Bitwise and is the intersection of the modifiers.
pub proof fn lemma_modifiers_in_and(a: u8, b: u8)
    ensures
        modifiers_in(a & b) == modifiers_in(a).intersect(modifiers_in(b)),
{
    assert forall|m: Modifier| #[trigger]
        modifiers_in(a & b).contains(m) == modifiers_in(a).intersect(modifiers_in(b)).contains(
            m,
        ) by {
        lemma_bit_test(a, b, m.bit());
    }
    assert(modifiers_in(a & b) =~= modifiers_in(a).intersect(modifiers_in(b)));
}

/// Clearing the bits of `b` in `a` is the difference of the modifiers.
pub proof fn lemma_modifiers_in_and_not(a: u8, b: u8)
    ensures
        modifiers_in(a & !b) == modifiers_in(a).difference(modifiers_in(b)),
{
    assert forall|m: Modifier| #[trigger]
        modifiers_in(a & !b).contains(m) == modifiers_in(a).difference(modifiers_in(b)).contains(
            m,
        ) by {
        lemma_bit_test(a, b, m.bit());
    }
    assert(modifiers_in(a & !b) =~= modifiers_in(a).difference(modifiers_in(b)));
}

/// Bitwise exclusive or is the symmetric difference of the modifiers.
pub proof fn lemma_modifiers_in_xor(a: u8, b: u8)
    ensures
        modifiers_in(a ^ b) == in_one_of(modifiers_in(a), modifiers_in(b)),
{
    assert forall|m: Modifier| #[trigger]
        modifiers_in(a ^ b).contains(m) == in_one_of(modifiers_in(a), modifiers_in(b)).contains(
            m,
        ) by {
        lemma_bit_test(a, b, m.bit());
    }
    assert(modifiers_in(a ^ b) =~= in_one_of(modifiers_in(a), modifiers_in(b)));
}

/// Bitwise not is the complement of the modifiers.
pub proof fn lemma_modifiers_in_not(a: u8)
    ensures
        modifiers_in(!a) == modifiers_in(a).complement(),
{
    assert forall|m: Modifier| #[trigger]
        modifiers_in(!a).contains(m) == modifiers_in(a).complement().contains(m) by {
        lemma_bit_test(a, 0, m.bit());
    }
    assert(modifiers_in(!a) =~= modifiers_in(a).complement());
}

/// Among masks of modifier bits, `a & b == b` says that the modifiers of `b`
/// are among those of `a`.
pub proof fn lemma_modifiers_in_subset(a: u8, b: u8)
    requires
        a <= ALL_BITS,
        b <= ALL_BITS,
    ensures
        (a & b == b) == modifiers_in(b).subset_of(modifiers_in(a)),
{
    lemma_mask_by_bits(a, b);
    lemma_modifiers_in_by_bits(a);
    lemma_modifiers_in_by_bits(b);
}

/// Among masks of modifier bits, `a & b != 0` says that `a` and `b` have a
/// modifier in common.
pub proof fn lemma_modifiers_in_disjoint(a: u8, b: u8)
    requires
        a <= ALL_BITS,
        b <= ALL_BITS,
    ensures
        (a & b != 0) == !modifiers_in(a).disjoint(modifiers_in(b)),
{
    lemma_mask_by_bits(a, b);
    lemma_modifiers_in_by_bits(a);
    lemma_modifiers_in_by_bits(b);
}

/// Two masks without other bits that hold the same modifiers are the same.
pub proof fn lemma_modifiers_in_injective(a: u8, b: u8)
    requires
        a <= ALL_BITS,
        b <= ALL_BITS,
        modifiers_in(a) == modifiers_in(b),
    ensures
        a == b,
{
    lemma_mask_by_bits(a, b);
    lemma_modifiers_in_by_bits(a);
    lemma_modifiers_in_by_bits(b);
}

/// The mask of a set of modifiers holds those modifiers and no other bit.
pub proof fn lemma_modifiers_in_mask_of(modifiers: Set<Modifier>)
    ensures
        modifiers_in(mask_of(modifiers)) == modifiers,
        mask_of(modifiers) <= ALL_BITS,
{
    let shift: u8 = if modifiers.contains(Modifier::Shift) { SHIFT_BIT } else { 0 };
    let control: u8 = if modifiers.contains(Modifier::Control) { CONTROL_BIT } else { 0 };
    let alt: u8 = if modifiers.contains(Modifier::Alt) { ALT_BIT } else { 0 };
    lemma_mask_of_bits(shift, control, alt);
    assert forall|m: Modifier| #[trigger]
        modifiers_in(mask_of(modifiers)).contains(m) == modifiers.contains(m) by {}
    assert(modifiers_in(mask_of(modifiers)) =~= modifiers);
}

/// The mask of the modifiers in `bits` is `bits` without the bits that stand
/// for no modifier. So a mask without such bits is the mask of the modifiers
/// in it.
pub proof fn lemma_mask_of_modifiers_in(bits: u8)
    ensures
        mask_of(modifiers_in(bits)) == bits & ALL_BITS,
        bits <= ALL_BITS ==> mask_of(modifiers_in(bits)) == bits,
{
    lemma_truncate(bits);
    lemma_modifiers_in_truncate(bits);
    lemma_modifiers_in_mask_of(modifiers_in(bits));
    lemma_modifiers_in_injective(mask_of(modifiers_in(bits)), bits & ALL_BITS);
}

/// Every set of modifiers is the view of one well-formed value,
/// [`KeyModifiers::of_set`] of it.
pub proof fn lemma_of_set(modifiers: Set<Modifier>)
    ensures
        KeyModifiers::of_set(modifiers).wf(),
        KeyModifiers::of_set(modifiers)@ == modifiers,
        KeyModifiers::of_set(modifiers).bits() == mask_of(modifiers),
{
    lemma_modifiers_in_mask_of(modifiers);
}

/// A well-formed value is known by its view: it is [`KeyModifiers::of_set`] of
/// the modifiers that it holds.
pub proof fn lemma_of_set_view(modifiers: KeyModifiers)
    requires
        modifiers.wf(),
    ensures
        KeyModifiers::of_set(modifiers@) == modifiers,
{
    lemma_mask_of_modifiers_in(modifiers.bits);
}

/// Two sets of modifiers are equal if and only if shift, control and alt are
/// each in both or in neither.
pub proof fn lemma_equal_iff_same_modifiers(a: KeyModifiers, b: KeyModifiers)
    requires
        a.wf(),
        b.wf(),
    ensures
        (a == b) <==> {
            &&& a@.contains(Modifier::Shift) == b@.contains(Modifier::Shift)
            &&& a@.contains(Modifier::Control) == b@.contains(Modifier::Control)
            &&& a@.contains(Modifier::Alt) == b@.contains(Modifier::Alt)
        },
        (a == b) <==> a@ == b@,
        (a == b) <==> a.bits() == b.bits(),
{
    lemma_mask_by_bits(a.bits, b.bits);
    lemma_modifiers_in_by_bits(a.bits);
    lemma_modifiers_in_by_bits(b.bits);
}

/// The empty set is the identity of union: a set united with it, on either
/// side, is the set itself.
pub proof fn lemma_none_is_identity_of_union(modifiers: KeyModifiers)
    requires
        modifiers.wf(),
    ensures
        KeyModifiers::of_set(modifiers@.union(Set::empty())) == modifiers,
        KeyModifiers::of_set(Set::empty().union(modifiers@)) == modifiers,
{
    assert(modifiers@.union(Set::empty()) =~= modifiers@);
    assert(Set::empty().union(modifiers@) =~= modifiers@);
    lemma_of_set_view(modifiers);
}

} // verus!
