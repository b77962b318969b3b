//! Conversions between this crate's key types and crossterm's event types.

use crate::backend::{
    backend_alt, backend_bits, backend_control, backend_insert, backend_intersects, backend_none,
    backend_shift,
};
use crate::key_code::KeyCode;
use crate::modifiers::{
    lemma_mask_of_modifiers_in, lemma_modifiers_in_mask_of, lemma_of_set, lemma_of_set_view,
    mask_of, modifiers_in, KeyModifiers, Modifier, ALL_BITS,
};
use crossterm::event::KeyCode as BackendKeyCode;
use crossterm::event::KeyModifiers as BackendKeyModifiers;
use vstd::prelude::*;
use vstd::std_specs::convert::FromSpecImpl;

verus! {

/// The crossterm key that stands for `key_code`: the variant of the same name,
/// with the payload of `F` and `Char` unchanged.
pub open spec fn backend_key_code(key_code: KeyCode) -> BackendKeyCode {
    match key_code {
        KeyCode::Backspace => BackendKeyCode::Backspace,
        KeyCode::Enter => BackendKeyCode::Enter,
        KeyCode::Left => BackendKeyCode::Left,
        KeyCode::Right => BackendKeyCode::Right,
        KeyCode::Up => BackendKeyCode::Up,
        KeyCode::Down => BackendKeyCode::Down,
        KeyCode::Home => BackendKeyCode::Home,
        KeyCode::End => BackendKeyCode::End,
        KeyCode::PageUp => BackendKeyCode::PageUp,
        KeyCode::PageDown => BackendKeyCode::PageDown,
        KeyCode::Tab => BackendKeyCode::Tab,
        KeyCode::BackTab => BackendKeyCode::BackTab,
        KeyCode::Delete => BackendKeyCode::Delete,
        KeyCode::Insert => BackendKeyCode::Insert,
        KeyCode::F(f_number) => BackendKeyCode::F(f_number),
        KeyCode::Char(character) => BackendKeyCode::Char(character),
        KeyCode::Null => BackendKeyCode::Null,
        KeyCode::Esc => BackendKeyCode::Esc,
    }
}

/// The key that a crossterm key stands for: the variant of the same name, with
/// the payload of `F` and `Char` unchanged.
pub open spec fn key_code_of_backend(val: BackendKeyCode) -> KeyCode {
    match val {
        BackendKeyCode::Backspace => KeyCode::Backspace,
        BackendKeyCode::Enter => KeyCode::Enter,
        BackendKeyCode::Left => KeyCode::Left,
        BackendKeyCode::Right => KeyCode::Right,
        BackendKeyCode::Up => KeyCode::Up,
        BackendKeyCode::Down => KeyCode::Down,
        BackendKeyCode::Home => KeyCode::Home,
        BackendKeyCode::End => KeyCode::End,
        BackendKeyCode::PageUp => KeyCode::PageUp,
        BackendKeyCode::PageDown => KeyCode::PageDown,
        BackendKeyCode::Tab => KeyCode::Tab,
        BackendKeyCode::BackTab => KeyCode::BackTab,
        BackendKeyCode::Delete => KeyCode::Delete,
        BackendKeyCode::Insert => KeyCode::Insert,
        BackendKeyCode::F(f_number) => KeyCode::F(f_number),
        BackendKeyCode::Char(character) => KeyCode::Char(character),
        BackendKeyCode::Null => KeyCode::Null,
        BackendKeyCode::Esc => KeyCode::Esc,
    }
}

impl FromSpecImpl<KeyCode> for BackendKeyCode {
    open spec fn obeys_from_spec() -> bool {
        true
    }

    open spec fn from_spec(key_code: KeyCode) -> BackendKeyCode {
        backend_key_code(key_code)
    }
}

impl From<KeyCode> for BackendKeyCode {
    /// Converts a key into crossterm's key. Every key has one; there is no
    /// failure case.
    fn from(key_code: KeyCode) -> (result: BackendKeyCode)
        ensures
            result == backend_key_code(key_code),
            key_code_of_backend(result) == key_code,
    {
        match key_code {
            KeyCode::Backspace => BackendKeyCode::Backspace,
            KeyCode::Enter => BackendKeyCode::Enter,
            KeyCode::Left => BackendKeyCode::Left,
            KeyCode::Right => BackendKeyCode::Right,
            KeyCode::Up => BackendKeyCode::Up,
            KeyCode::Down => BackendKeyCode::Down,
            KeyCode::Home => BackendKeyCode::Home,
            KeyCode::End => BackendKeyCode::End,
            KeyCode::PageUp => BackendKeyCode::PageUp,
            KeyCode::PageDown => BackendKeyCode::PageDown,
            KeyCode::Tab => BackendKeyCode::Tab,
            KeyCode::BackTab => BackendKeyCode::BackTab,
            KeyCode::Delete => BackendKeyCode::Delete,
            KeyCode::Insert => BackendKeyCode::Insert,
            KeyCode::F(f_number) => BackendKeyCode::F(f_number),
            KeyCode::Char(character) => BackendKeyCode::Char(character),
            KeyCode::Null => BackendKeyCode::Null,
            KeyCode::Esc => BackendKeyCode::Esc,
        }
    }
}

impl FromSpecImpl<BackendKeyCode> for KeyCode {
    open spec fn obeys_from_spec() -> bool {
        true
    }

    open spec fn from_spec(val: BackendKeyCode) -> KeyCode {
        key_code_of_backend(val)
    }
}

impl From<BackendKeyCode> for KeyCode {
    /// Converts crossterm's key into a key. Every crossterm key has one; there
    /// is no failure case.
    fn from(val: BackendKeyCode) -> (result: KeyCode)
        ensures
            result == key_code_of_backend(val),
            backend_key_code(result) == val,
    {
        match val {
            BackendKeyCode::Backspace => KeyCode::Backspace,
            BackendKeyCode::Enter => KeyCode::Enter,
            BackendKeyCode::Left => KeyCode::Left,
            BackendKeyCode::Right => KeyCode::Right,
            BackendKeyCode::Up => KeyCode::Up,
            BackendKeyCode::Down => KeyCode::Down,
            BackendKeyCode::Home => KeyCode::Home,
            BackendKeyCode::End => KeyCode::End,
            BackendKeyCode::PageUp => KeyCode::PageUp,
            BackendKeyCode::PageDown => KeyCode::PageDown,
            BackendKeyCode::Tab => KeyCode::Tab,
            BackendKeyCode::BackTab => KeyCode::BackTab,
            BackendKeyCode::Delete => KeyCode::Delete,
            BackendKeyCode::Insert => KeyCode::Insert,
            BackendKeyCode::F(f_number) => KeyCode::F(f_number),
            BackendKeyCode::Char(character) => KeyCode::Char(character),
            BackendKeyCode::Null => KeyCode::Null,
            BackendKeyCode::Esc => KeyCode::Esc,
        }
    }
}

/// The bit that stands for a modifier in crossterm's mask.
pub open spec fn backend_bit(modifier: Modifier) -> u8 {
    match modifier {
        Modifier::Shift => 0b0000_0001,
        Modifier::Control => 0b0000_0010,
        Modifier::Alt => 0b0000_0100,
    }
}

/// Every bit that stands for a modifier in crossterm's mask.
pub const BACKEND_ALL_BITS: u8 = 0b0000_0111;

/// The modifiers that a crossterm value holds: those whose bit is set in its
/// mask. Bits that stand for no modifier count for nothing.
pub open spec fn backend_modifiers(val: BackendKeyModifiers) -> Set<Modifier> {
    Set::new(|m: Modifier| backend_bits(val) & backend_bit(m) != 0)
}

/// The crossterm mask in which the bits of the modifiers in `modifiers` are
/// set, and no other bit.
pub open spec fn backend_mask_of(modifiers: Set<Modifier>) -> u8 {
    (if modifiers.contains(Modifier::Shift) {
        backend_bit(Modifier::Shift)
    } else {
        0
    }) | (if modifiers.contains(Modifier::Control) {
        backend_bit(Modifier::Control)
    } else {
        0
    }) | (if modifiers.contains(Modifier::Alt) {
        backend_bit(Modifier::Alt)
    } else {
        0
    })
}

/// The set of modifiers that a crossterm value stands for.
pub open spec fn key_modifiers_of_backend(val: BackendKeyModifiers) -> KeyModifiers {
    KeyModifiers::of_set(backend_modifiers(val))
}

impl FromSpecImpl<KeyModifiers> for BackendKeyModifiers {
    /// Of a crossterm value only the mask can be spoken of, so the result is
    /// stated by its mask, in the `ensures` of `from`, and not as a value.
    open spec fn obeys_from_spec() -> bool {
        false
    }

    open spec fn from_spec(key_modifiers: KeyModifiers) -> BackendKeyModifiers {
        choose|val: BackendKeyModifiers| backend_bits(val) == backend_mask_of(key_modifiers@)
    }
}

impl From<KeyModifiers> for BackendKeyModifiers {
    /// Converts a set of modifiers into crossterm's. The result starts from
    /// crossterm's empty value and gains the flag of each modifier in the
    /// set, so it holds every modifier of the set, whether one or several,
    /// and no other bit.
    fn from(key_modifiers: KeyModifiers) -> (result: BackendKeyModifiers)
        ensures
            backend_bits(result) == backend_mask_of(key_modifiers@),
            backend_modifiers(result) == key_modifiers@,
    {
        let mut result = backend_none();

        if key_modifiers.contains(KeyModifiers::shift()) {
            backend_insert(&mut result, backend_shift());
        }
        if key_modifiers.contains(KeyModifiers::control()) {
            backend_insert(&mut result, backend_control());
        }
        if key_modifiers.contains(KeyModifiers::alt()) {
            backend_insert(&mut result, backend_alt());
        }
        proof {
            let shift: u8 = if key_modifiers@.contains(Modifier::Shift) { 1 } else { 0 };
            let control: u8 = if key_modifiers@.contains(Modifier::Control) { 2 } else { 0 };
            lemma_or_with_zero(shift, control);
            lemma_backend_modifiers_of_mask(result, key_modifiers@);
        }
        result
    }
}

impl FromSpecImpl<BackendKeyModifiers> for KeyModifiers {
    open spec fn obeys_from_spec() -> bool {
        true
    }

    open spec fn from_spec(val: BackendKeyModifiers) -> KeyModifiers {
        key_modifiers_of_backend(val)
    }
}

impl From<BackendKeyModifiers> for KeyModifiers {
    /// Converts crossterm's modifiers into a set. The result starts from the
    /// empty set and gains each modifier whose flag is present in `val`, so
    /// it holds every modifier of `val`, whether one or several. Bits of `val`
    /// that stand for no modifier are dropped.
    fn from(val: BackendKeyModifiers) -> (result: KeyModifiers)
        ensures
            result == key_modifiers_of_backend(val),
            result@ == backend_modifiers(val),
            result.wf(),
    {
        let mut result = KeyModifiers::none();

        if backend_intersects(&val, backend_shift()) {
            result.insert(KeyModifiers::shift());
        }
        if backend_intersects(&val, backend_control()) {
            result.insert(KeyModifiers::control());
        }
        if backend_intersects(&val, backend_alt()) {
            result.insert(KeyModifiers::alt());
        }
        proof {
            assert(result@ =~= backend_modifiers(val));
            lemma_of_set_view(result);
        }
        result
    }
}

/// Zero changes nothing under bitwise or.
proof fn lemma_or_with_zero(a: u8, b: u8)
    by (bit_vector)
    ensures
        0u8 | a == a,
        a | 0u8 == a,
        (a | b) | 0u8 == a | b,
{
}

/// Crossterm keeps each modifier in the bit in which this crate keeps it.
pub proof fn lemma_backend_layout(val: BackendKeyModifiers, modifiers: Set<Modifier>)
    ensures
        backend_modifiers(val) == modifiers_in(backend_bits(val)),
        backend_mask_of(modifiers) == mask_of(modifiers),
        BACKEND_ALL_BITS == ALL_BITS,
{
    assert(backend_modifiers(val) =~= modifiers_in(backend_bits(val)));
}

/// A crossterm value whose mask is that of a set of modifiers holds exactly
/// the modifiers of the set: all of them, and no bit besides.
pub proof fn lemma_backend_modifiers_of_mask(val: BackendKeyModifiers, modifiers: Set<Modifier>)
    requires
        backend_bits(val) == backend_mask_of(modifiers),
    ensures
        backend_modifiers(val) == modifiers,
        backend_bits(val) <= BACKEND_ALL_BITS,
{
    lemma_backend_layout(val, modifiers);
    lemma_modifiers_in_mask_of(modifiers);
}

/// Converting a set of modifiers to crossterm and back gives the set again:
/// whatever crossterm value `val` the conversion of `modifiers` returns, the
/// conversion of `val` returns `modifiers`.
pub proof fn lemma_key_modifiers_round_trip(modifiers: KeyModifiers, val: BackendKeyModifiers)
    requires
        modifiers.wf(),
        backend_bits(val) == backend_mask_of(modifiers@),
    ensures
        key_modifiers_of_backend(val) == modifiers,
{
    lemma_backend_modifiers_of_mask(val, modifiers@);
    lemma_of_set_view(modifiers);
}

/// Converting a crossterm value to a set of modifiers and back gives a
/// crossterm value with the same bits of shift, control and alt, and no
/// others. So a value that has no bit but those three comes back with the
/// mask that it had.
pub proof fn lemma_backend_modifiers_round_trip(val: BackendKeyModifiers)
    ensures
        backend_mask_of(key_modifiers_of_backend(val)@) == backend_bits(val) & BACKEND_ALL_BITS,
        backend_bits(val) <= BACKEND_ALL_BITS ==> backend_mask_of(
            key_modifiers_of_backend(val)@,
        ) == backend_bits(val),
{
    lemma_of_set(backend_modifiers(val));
    lemma_backend_layout(val, backend_modifiers(val));
    lemma_mask_of_modifiers_in(backend_bits(val));
}

/// Converting a key to crossterm and back gives the key again, payload
/// included.
pub proof fn lemma_key_code_round_trip(key_code: KeyCode)
    ensures
        key_code_of_backend(backend_key_code(key_code)) == key_code,
{
}

/// Converting a crossterm key to a key and back gives the crossterm key
/// again, payload included.
pub proof fn lemma_backend_key_code_round_trip(val: BackendKeyCode)
    ensures
        backend_key_code(key_code_of_backend(val)) == val,
{
}

/// Every crossterm key stands for exactly one key: some key converts to it,
/// and no two keys do. So no crossterm key is left out, and no two keys
/// share one.
pub proof fn lemma_one_key_code_per_backend_key_code(val: BackendKeyCode)
    ensures
        exists|key_code: KeyCode| #[trigger] backend_key_code(key_code) == val,
        forall|a: KeyCode, b: KeyCode|
            #[trigger] backend_key_code(a) == val && #[trigger] backend_key_code(b) == val ==> a
                == b,
{
    assert(backend_key_code(key_code_of_backend(val)) == val);
    assert forall|a: KeyCode, b: KeyCode|
        #[trigger] backend_key_code(a) == val && #[trigger] backend_key_code(b)
            == val implies a == b by {
        lemma_key_code_round_trip(a);
        lemma_key_code_round_trip(b);
    }
}

/// Every key stands for exactly one crossterm key: some crossterm key
/// converts to it, and no two crossterm keys do.
pub proof fn lemma_one_backend_key_code_per_key_code(key_code: KeyCode)
    ensures
        exists|val: BackendKeyCode| #[trigger] key_code_of_backend(val) == key_code,
        forall|a: BackendKeyCode, b: BackendKeyCode|
            #[trigger] key_code_of_backend(a) == key_code && #[trigger] key_code_of_backend(b)
                == key_code ==> a == b,
{
    assert(key_code_of_backend(backend_key_code(key_code)) == key_code);
    assert forall|a: BackendKeyCode, b: BackendKeyCode|
        #[trigger] key_code_of_backend(a) == key_code && #[trigger] key_code_of_backend(b)
            == key_code implies a == b by {
        lemma_backend_key_code_round_trip(a);
        lemma_backend_key_code_round_trip(b);
    }
}

} // verus!
