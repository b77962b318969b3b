//! What this crate takes on trust about crossterm.
//!
//! Nothing in this module is proved. Each item says in its doc comment which
//! item of crossterm it stands for and what is claimed of it.
//! `crossterm::event::KeyModifiers` is written by the `bitflags!` macro as a
//! struct with the one private field `bits: u8`; the claims below are read
//! off that macro's expansion.

use crossterm::event::KeyCode as BackendKeyCode;
use crossterm::event::KeyModifiers as BackendKeyModifiers;
use vstd::prelude::*;

verus! {

/// `crossterm::event::KeyCode`, declared with its variants. Verus reads the
/// enum as crossterm defines it, so nothing is claimed of it here: the
/// conversions match on it and build it in verified code.
#[verifier::external_type_specification]
pub struct ExBackendKeyCode(BackendKeyCode);

/// `crossterm::event::KeyModifiers`. Its field is private, so a value is
/// opaque here and is known by [`backend_bits`] alone.
#[verifier::external_type_specification]
#[verifier::external_body]
pub struct ExBackendKeyModifiers(BackendKeyModifiers);

/// What a crossterm modifier value holds: its bit mask, the value of its one
/// field, which `crossterm::event::KeyModifiers::bits` returns.
pub uninterp spec fn backend_bits(modifiers: BackendKeyModifiers) -> u8;

/// `crossterm::event::KeyModifiers::NONE`, declared as `0b0000_0000`.
#[verifier::external_body]
pub(crate) fn backend_none() -> (result: BackendKeyModifiers)
    ensures
        backend_bits(result) == 0b0000_0000,
{
    BackendKeyModifiers::NONE
}

/// `crossterm::event::KeyModifiers::SHIFT`, declared as `0b0000_0001`.
#[verifier::external_body]
pub(crate) fn backend_shift() -> (result: BackendKeyModifiers)
    ensures
        backend_bits(result) == 0b0000_0001,
{
    BackendKeyModifiers::SHIFT
}

/// `crossterm::event::KeyModifiers::CONTROL`, declared as `0b0000_0010`.
#[verifier::external_body]
pub(crate) fn backend_control() -> (result: BackendKeyModifiers)
    ensures
        backend_bits(result) == 0b0000_0010,
{
    BackendKeyModifiers::CONTROL
}

/// `crossterm::event::KeyModifiers::ALT`, declared as `0b0000_0100`.
#[verifier::external_body]
pub(crate) fn backend_alt() -> (result: BackendKeyModifiers)
    ensures
        backend_bits(result) == 0b0000_0100,
{
    BackendKeyModifiers::ALT
}

/// `crossterm::event::KeyModifiers::intersects`: true if and only if the two
/// masks have a bit in common (`self.bits & other.bits` is not zero).
#[verifier::external_body]
pub(crate) fn backend_intersects(
    modifiers: &BackendKeyModifiers,
    other: BackendKeyModifiers,
) -> (result: bool)
    ensures
        result == (backend_bits(*modifiers) & backend_bits(other) != 0),
{
    modifiers.intersects(other)
}

/// `crossterm::event::KeyModifiers::insert`, which is
/// `self.bits |= other.bits`.
#[verifier::external_body]
pub(crate) fn backend_insert(modifiers: &mut BackendKeyModifiers, other: BackendKeyModifiers)
    ensures
        backend_bits(*final(modifiers)) == backend_bits(*old(modifiers)) | backend_bits(other),
{
    modifiers.insert(other);
}

} // verus!
