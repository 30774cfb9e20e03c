//! Addressing modes of the audio coprocessor.
//!
//! A mode is a small tagged value: the tag plus up to two bytes of payload
//! fetched from the instruction stream by the dispatcher. Loads, stores and
//! effective-address computation dispatch on the tag.

use vstd::prelude::*;

verus! {

/// An addressing mode with its operand bytes already fetched.
#[derive(Clone, Copy, PartialEq, Eq, Structural, Debug)]
pub enum AddressingMode {
    /// The operand byte itself is the value.
    Immediate(u8),
    /// One byte indexing the direct page.
    Direct(u8),
    /// The direct-page cell that X points at.
    IndirectX,
    /// Word pointer in the direct page, indexed by Y after the load.
    IndirectIndexed(u8),
    /// Direct-page operand indexed by X before the word pointer is loaded.
    IndexedIndirect(u8),
    /// Absolute word address, indexed by X, then dereferenced as a word.
    AbsIndexedIndirect(u16),
    /// Absolute word address.
    Abs(u16),
    /// Absolute word address indexed by X.
    AbsIndexedX(u16),
    /// Absolute word address indexed by Y.
    AbsIndexedY(u16),
    /// Signed offset from the address after the operand byte.
    Rel(i8),
    /// The accumulator.
    A,
    /// The X index register.
    X,
    /// The Y index register.
    Y,
}

} // verus!
