//! Single-bit access on machine words.
//!
//! `BitWord` gives every supported word type a checked `get_bit` /
//! `set_bit` pair; an access past the width of the type yields `Overflow`.

use vstd::prelude::*;

verus! {

/// Error for a bit access past the width of the word: `pos` was asked of a
/// word of `bits` bits.
#[derive(Clone, Copy, Debug, PartialEq, Eq, Structural)]
pub struct Overflow {
    pub bits: u8,
    pub pos: u8,
}

impl Overflow {
    pub fn new(bits: u8, pos: u8) -> (r: Self)
        ensures
            r == (Overflow { bits, pos }),
    {
        Self { bits, pos }
    }
}

/// Checked single-bit reads and writes on a word.
///
/// `bit_read` and `bit_write` are the specification-level meaning of the
/// two executable methods; each implementing type defines them over its
/// own bit pattern.
pub trait BitWord: Sized + Copy {
    /// Width of the word in bits.
    spec fn bits() -> u8;

    /// The bit of `self` at position `pos`.
    spec fn bit_read(self, pos: u8) -> bool;

    /// `self` with the bit at position `pos` set to `bit`.
    spec fn bit_write(self, pos: u8, bit: bool) -> Self;

    fn get_bit(self, pos: u8) -> (r: Result<bool, Overflow>)
        ensures
            r is Ok <==> pos < Self::bits(),
            r is Ok ==> r->Ok_0 == self.bit_read(pos),
            r is Err ==> r->Err_0 == (Overflow { bits: Self::bits(), pos });

    fn set_bit(&mut self, pos: u8, bit: bool) -> (r: Result<(), Overflow>)
        ensures
            r is Ok <==> pos < Self::bits(),
            r is Ok ==> *final(self) == old(self).bit_write(pos, bit),
            r is Err ==> *final(self) == *old(self) && r->Err_0 == (Overflow {
                bits: Self::bits(),
                pos,
            });
}

impl BitWord for u8 {
    open spec fn bits() -> u8 {
        8
    }

    open spec fn bit_read(self, pos: u8) -> bool {
        (self >> pos) & 1 == 1
    }

    open spec fn bit_write(self, pos: u8, bit: bool) -> u8 {
        if bit {
            self | (1u8 << pos)
        } else {
            self & !(1u8 << pos)
        }
    }

    fn get_bit(self, pos: u8) -> (r: Result<bool, Overflow>) {
        if pos >= 8 {
            return Err(Overflow::new(8, pos));
        }
        Ok(((self >> pos) & 1) == 1)
    }

    fn set_bit(&mut self, pos: u8, bit: bool) -> (r: Result<(), Overflow>) {
        if pos >= 8 {
            return Err(Overflow::new(8, pos));
        }
        if bit {
            *self = *self | (1u8 << pos);
        } else {
            *self = *self & !(1u8 << pos);
        }
        Ok(())
    }
}

impl BitWord for u16 {
    open spec fn bits() -> u8 {
        16
    }

    open spec fn bit_read(self, pos: u8) -> bool {
        (self >> pos) & 1 == 1
    }

    open spec fn bit_write(self, pos: u8, bit: bool) -> u16 {
        if bit {
            self | (1u16 << pos)
        } else {
            self & !(1u16 << pos)
        }
    }

    fn get_bit(self, pos: u8) -> (r: Result<bool, Overflow>) {
        if pos >= 16 {
            return Err(Overflow::new(16, pos));
        }
        Ok(((self >> pos) & 1) == 1)
    }

    fn set_bit(&mut self, pos: u8, bit: bool) -> (r: Result<(), Overflow>) {
        if pos >= 16 {
            return Err(Overflow::new(16, pos));
        }
        if bit {
            *self = *self | (1u16 << pos);
        } else {
            *self = *self & !(1u16 << pos);
        }
        Ok(())
    }
}

impl BitWord for u32 {
    open spec fn bits() -> u8 {
        32
    }

    open spec fn bit_read(self, pos: u8) -> bool {
        (self >> pos) & 1 == 1
    }

    open spec fn bit_write(self, pos: u8, bit: bool) -> u32 {
        if bit {
            self | (1u32 << pos)
        } else {
            self & !(1u32 << pos)
        }
    }

    fn get_bit(self, pos: u8) -> (r: Result<bool, Overflow>) {
        if pos >= 32 {
            return Err(Overflow::new(32, pos));
        }
        Ok(((self >> pos) & 1) == 1)
    }

    fn set_bit(&mut self, pos: u8, bit: bool) -> (r: Result<(), Overflow>) {
        if pos >= 32 {
            return Err(Overflow::new(32, pos));
        }
        if bit {
            *self = *self | (1u32 << pos);
        } else {
            *self = *self & !(1u32 << pos);
        }
        Ok(())
    }
}

impl BitWord for u64 {
    open spec fn bits() -> u8 {
        64
    }

    open spec fn bit_read(self, pos: u8) -> bool {
        (self >> pos) & 1 == 1
    }

    open spec fn bit_write(self, pos: u8, bit: bool) -> u64 {
        if bit {
            self | (1u64 << pos)
        } else {
            self & !(1u64 << pos)
        }
    }

    fn get_bit(self, pos: u8) -> (r: Result<bool, Overflow>) {
        if pos >= 64 {
            return Err(Overflow::new(64, pos));
        }
        Ok(((self >> pos) & 1) == 1)
    }

    fn set_bit(&mut self, pos: u8, bit: bool) -> (r: Result<(), Overflow>) {
        if pos >= 64 {
            return Err(Overflow::new(64, pos));
        }
        if bit {
            *self = *self | (1u64 << pos);
        } else {
            *self = *self & !(1u64 << pos);
        }
        Ok(())
    }
}

impl BitWord for i32 {
    open spec fn bits() -> u8 {
        32
    }

    open spec fn bit_read(self, pos: u8) -> bool {
        ((self as u32) >> pos) & 1 == 1
    }

    open spec fn bit_write(self, pos: u8, bit: bool) -> i32 {
        if bit {
            ((self as u32) | (1u32 << pos)) as i32
        } else {
            ((self as u32) & !(1u32 << pos)) as i32
        }
    }

    fn get_bit(self, pos: u8) -> (r: Result<bool, Overflow>) {
        if pos >= 32 {
            return Err(Overflow::new(32, pos));
        }
        Ok((((self as u32) >> pos) & 1) == 1)
    }

    fn set_bit(&mut self, pos: u8, bit: bool) -> (r: Result<(), Overflow>) {
        if pos >= 32 {
            return Err(Overflow::new(32, pos));
        }
        if bit {
            *self = ((*self as u32) | (1u32 << pos)) as i32;
        } else {
            *self = ((*self as u32) & !(1u32 << pos)) as i32;
        }
        Ok(())
    }
}

impl BitWord for i64 {
    open spec fn bits() -> u8 {
        64
    }

    open spec fn bit_read(self, pos: u8) -> bool {
        ((self as u64) >> pos) & 1 == 1
    }

    open spec fn bit_write(self, pos: u8, bit: bool) -> i64 {
        if bit {
            ((self as u64) | (1u64 << pos)) as i64
        } else {
            ((self as u64) & !(1u64 << pos)) as i64
        }
    }

    fn get_bit(self, pos: u8) -> (r: Result<bool, Overflow>) {
        if pos >= 64 {
            return Err(Overflow::new(64, pos));
        }
        Ok((((self as u64) >> pos) & 1) == 1)
    }

    fn set_bit(&mut self, pos: u8, bit: bool) -> (r: Result<(), Overflow>) {
        if pos >= 64 {
            return Err(Overflow::new(64, pos));
        }
        if bit {
            *self = ((*self as u64) | (1u64 << pos)) as i64;
        } else {
            *self = ((*self as u64) & !(1u64 << pos)) as i64;
        }
        Ok(())
    }
}

/// The big-endian register split of a 32-bit value: two words, high
/// half first — the layout two consecutive holding registers give.
pub fn to_reg_u32(value: u32) -> (r: [u16; 2])
    ensures
        r@ == seq![(value >> 16) as u16, value as u16],
{
    let r = [(value >> 16) as u16, value as u16];
    proof {
        assert(r@ =~= seq![(value >> 16) as u16, value as u16]);
    }
    r
}

/// The big-endian register split of a 64-bit value: four words, highest
/// first.
pub fn to_reg_u64(value: u64) -> (r: [u16; 4])
    ensures
        r@ == seq![
            (value >> 48) as u16,
            (value >> 32) as u16,
            (value >> 16) as u16,
            value as u16,
        ],
{
    let r = [(value >> 48) as u16, (value >> 32) as u16, (value >> 16) as u16, value as u16];
    proof {
        assert(r@ =~= seq![
            (value >> 48) as u16,
            (value >> 32) as u16,
            (value >> 16) as u16,
            value as u16,
        ]);
    }
    r
}

/// The big-endian register split of a 128-bit value: eight words,
/// highest first.
pub fn to_reg_u128(value: u128) -> (r: [u16; 8])
    ensures
        r@ == seq![
            (value >> 112) as u16,
            (value >> 96) as u16,
            (value >> 80) as u16,
            (value >> 64) as u16,
            (value >> 48) as u16,
            (value >> 32) as u16,
            (value >> 16) as u16,
            value as u16,
        ],
{
    let r = [
        (value >> 112) as u16,
        (value >> 96) as u16,
        (value >> 80) as u16,
        (value >> 64) as u16,
        (value >> 48) as u16,
        (value >> 32) as u16,
        (value >> 16) as u16,
        value as u16,
    ];
    proof {
        assert(r@ =~= seq![
            (value >> 112) as u16,
            (value >> 96) as u16,
            (value >> 80) as u16,
            (value >> 64) as u16,
            (value >> 48) as u16,
            (value >> 32) as u16,
            (value >> 16) as u16,
            value as u16,
        ]);
    }
    r
}

/// The register split of a signed 32-bit value: the split of its bit
/// pattern.
pub fn to_reg_i32(value: i32) -> (r: [u16; 2])
    ensures
        r@ == seq![((value as u32) >> 16) as u16, (value as u32) as u16],
{
    to_reg_u32(value as u32)
}

/// The register split of a signed 64-bit value.
pub fn to_reg_i64(value: i64) -> (r: [u16; 4])
    ensures
        r@ == seq![
            ((value as u64) >> 48) as u16,
            ((value as u64) >> 32) as u16,
            ((value as u64) >> 16) as u16,
            (value as u64) as u16,
        ],
{
    to_reg_u64(value as u64)
}

/// The register split of a signed 128-bit value.
pub fn to_reg_i128(value: i128) -> (r: [u16; 8])
    ensures
        r@ == seq![
            ((value as u128) >> 112) as u16,
            ((value as u128) >> 96) as u16,
            ((value as u128) >> 80) as u16,
            ((value as u128) >> 64) as u16,
            ((value as u128) >> 48) as u16,
            ((value as u128) >> 32) as u16,
            ((value as u128) >> 16) as u16,
            (value as u128) as u16,
        ],
{
    to_reg_u128(value as u128)
}

} // verus!
