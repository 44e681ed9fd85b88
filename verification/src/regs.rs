//! Register-field primitives: typed views of memory-mapped hardware
//! registers and of the bit fields packed inside them.
//!
//! A `Field` names one bit field of a register by an LSB-aligned mask
//! and a shift; a `FieldValue` is a field together with a value already
//! shifted into place, ready to be written. `RW`, `RO` and `WO` are
//! one-word register cells with read-write, read-only and write-only
//! access. Here a cell holds its word as a plain value, so that every
//! read and write is fully specified; the board glue that maps a cell
//! onto a physical address is outside this crate.

use vstd::prelude::*;

verus! {

/// The integer widths a hardware register can have.
pub trait IntLike: Copy {
}

impl IntLike for u8 {
}

impl IntLike for u16 {
}

impl IntLike for u32 {
}

/// One bit field of a register: `mask` is unshifted (LSB-aligned) and
/// `shift` is the field's offset from bit 0.
#[derive(Clone, Copy)]
pub struct Field<T: IntLike> {
    pub mask: T,
    pub shift: u32,
}

/// A bit field together with a value for it, both shifted into their
/// final position in the register word.
#[derive(Clone, Copy)]
pub struct FieldValue<T: IntLike> {
    pub mask: T,
    pub value: T,
}

impl Field<u8> {
    pub fn new(mask: u8, shift: u32) -> (f: Field<u8>)
        requires
            shift < 8,
        ensures
            f.mask == mask,
            f.shift == shift,
    {
        Field { mask, shift }
    }

    pub fn val(&self, value: u8) -> (fv: FieldValue<u8>)
        requires
            self.shift < 8,
        ensures
            fv.mask == self.mask << self.shift,
            fv.value == (value << self.shift) & (self.mask << self.shift),
    {
        FieldValue::<u8>::new(self.mask, self.shift, value)
    }
}

impl Field<u16> {
    pub fn new(mask: u16, shift: u32) -> (f: Field<u16>)
        requires
            shift < 16,
        ensures
            f.mask == mask,
            f.shift == shift,
    {
        Field { mask, shift }
    }

    pub fn val(&self, value: u16) -> (fv: FieldValue<u16>)
        requires
            self.shift < 16,
        ensures
            fv.mask == self.mask << self.shift,
            fv.value == (value << self.shift) & (self.mask << self.shift),
    {
        FieldValue::<u16>::new(self.mask, self.shift, value)
    }
}

impl Field<u32> {
    pub fn new(mask: u32, shift: u32) -> (f: Field<u32>)
        requires
            shift < 32,
        ensures
            f.mask == mask,
            f.shift == shift,
    {
        Field { mask, shift }
    }

    pub fn val(&self, value: u32) -> (fv: FieldValue<u32>)
        requires
            self.shift < 32,
        ensures
            fv.mask == self.mask << self.shift,
            fv.value == (value << self.shift) & (self.mask << self.shift),
    {
        FieldValue::<u32>::new(self.mask, self.shift, value)
    }
}

impl FieldValue<u8> {
    pub fn new(mask: u8, shift: u32, value: u8) -> (fv: FieldValue<u8>)
        requires
            shift < 8,
        ensures
            fv.mask == mask << shift,
            fv.value == (value << shift) & (mask << shift),
    {
        FieldValue { mask: mask << shift, value: (value << shift) & (mask << shift) }
    }
}

impl FieldValue<u16> {
    pub fn new(mask: u16, shift: u32, value: u16) -> (fv: FieldValue<u16>)
        requires
            shift < 16,
        ensures
            fv.mask == mask << shift,
            fv.value == (value << shift) & (mask << shift),
    {
        FieldValue { mask: mask << shift, value: (value << shift) & (mask << shift) }
    }
}

impl FieldValue<u32> {
    pub fn new(mask: u32, shift: u32, value: u32) -> (fv: FieldValue<u32>)
        requires
            shift < 32,
        ensures
            fv.mask == mask << shift,
            fv.value == (value << shift) & (mask << shift),
    {
        FieldValue { mask: mask << shift, value: (value << shift) & (mask << shift) }
    }

    /// Merges two field values into one write: the union of their
    /// masks, and the union of their (disjointly masked) values.
    pub fn combine(self, other: FieldValue<u32>) -> (fv: FieldValue<u32>)
        ensures
            fv.mask == self.mask | other.mask,
            fv.value == self.value | other.value,
    {
        FieldValue { mask: self.mask | other.mask, value: self.value | other.value }
    }
}

/// A read-write register cell of width `T`.
#[derive(Clone, Copy)]
pub struct RW<T: IntLike> {
    pub value: T,
}

/// A read-only register cell of width `T`.
#[derive(Clone, Copy)]
pub struct RO<T: IntLike> {
    pub value: T,
}

/// A write-only register cell of width `T`.
#[derive(Clone, Copy)]
pub struct WO<T: IntLike> {
    pub value: T,
}

impl RW<u32> {
    pub fn new(value: u32) -> (r: RW<u32>)
        ensures
            r.value == value,
    {
        RW { value }
    }

    pub fn get(&self) -> (v: u32)
        ensures
            v == self.value,
    {
        self.value
    }

    pub fn set(&mut self, value: u32)
        ensures
            final(self).value == value,
    {
        self.value = value;
    }

    /// Reads one field: masks the register word and shifts the field
    /// down to bit 0.
    pub fn read(&self, field: Field<u32>) -> (v: u32)
        requires
            field.shift < 32,
        ensures
            v == (self.value & (field.mask << field.shift)) >> field.shift,
    {
        (self.value & (field.mask << field.shift)) >> field.shift
    }

    /// Replaces the whole register word with the field value's word.
    pub fn write(&mut self, field: FieldValue<u32>)
        ensures
            final(self).value == field.value,
    {
        self.value = field.value;
    }

    /// Read-modify-write: replaces only the bits under the field's mask.
    pub fn modify(&mut self, field: FieldValue<u32>)
        ensures
            final(self).value == (old(self).value & !field.mask) | field.value,
    {
        let reg = self.value;
        self.value = (reg & !field.mask) | field.value;
    }

    pub fn is_set(&self, field: Field<u32>) -> (b: bool)
        requires
            field.shift < 32,
        ensures
            b == (((self.value & (field.mask << field.shift)) >> field.shift) != 0),
    {
        self.read(field) != 0
    }

    pub fn matches(&self, field: FieldValue<u32>) -> (b: bool)
        ensures
            b == ((self.value & field.mask) == field.value),
    {
        (self.value & field.mask) == field.value
    }
}

impl RO<u32> {
    pub fn new(value: u32) -> (r: RO<u32>)
        ensures
            r.value == value,
    {
        RO { value }
    }

    pub fn get(&self) -> (v: u32)
        ensures
            v == self.value,
    {
        self.value
    }

    pub fn read(&self, field: Field<u32>) -> (v: u32)
        requires
            field.shift < 32,
        ensures
            v == (self.value & (field.mask << field.shift)) >> field.shift,
    {
        (self.value & (field.mask << field.shift)) >> field.shift
    }

    pub fn is_set(&self, field: Field<u32>) -> (b: bool)
        requires
            field.shift < 32,
        ensures
            b == (((self.value & (field.mask << field.shift)) >> field.shift) != 0),
    {
        self.read(field) != 0
    }

    pub fn matches(&self, field: FieldValue<u32>) -> (b: bool)
        ensures
            b == ((self.value & field.mask) == field.value),
    {
        (self.value & field.mask) == field.value
    }
}

impl WO<u32> {
    pub fn new(value: u32) -> (r: WO<u32>)
        ensures
            r.value == value,
    {
        WO { value }
    }

    pub fn set(&mut self, value: u32)
        ensures
            final(self).value == value,
    {
        self.value = value;
    }

    pub fn write(&mut self, field: FieldValue<u32>)
        ensures
            final(self).value == field.value,
    {
        self.value = field.value;
    }
}

} // verus!
