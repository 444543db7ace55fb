use vstd::prelude::*;

verus! {

/// All-ones mask of an operand of `width` bytes.
pub open spec fn width_mask(width: nat) -> u64 {
    if width == 1 {
        0xffu64
    } else if width == 2 {
        0xffffu64
    } else if width == 4 {
        0xffff_ffffu64
    } else {
        0xffff_ffff_ffff_ffffu64
    }
}

/// An operand width the engine models: 1, 2, 4 or 8 bytes.
pub open spec fn is_operand_width(width: nat) -> bool {
    width == 1 || width == 2 || width == 4 || width == 8
}

/// An unsigned integer of one of the modelled operand widths, seen as the
/// bit pattern it carries in the low bytes of a 64-bit word.
pub trait Operand: Copy + Sized {
    /// Width of the type in bytes.
    spec fn width() -> nat;

    /// The value zero-extended to 64 bits.
    spec fn bits(self) -> u64;

    /// Size of the type in bytes.
    fn size() -> (r: usize)
        ensures
            r as nat == Self::width(),
    ;

    /// The value zero-extended to 64 bits.
    fn to_u64(self) -> (r: u64)
        ensures
            r == self.bits(),
    ;

    /// The low bytes of `v`, as many as the type holds.
    fn from_u64(v: u64) -> (r: Self)
        ensures
            r.bits() == v & width_mask(Self::width()),
    ;

    /// The width is one of the modelled widths and a value has no bits
    /// beyond it.
    proof fn lemma_bits_in_width(self)
        ensures
            is_operand_width(Self::width()),
            self.bits() & width_mask(Self::width()) == self.bits(),
    ;

    /// Two values with the same bit pattern are the same value.
    proof fn lemma_bits_injective(self, other: Self)
        ensures
            self.bits() == other.bits() ==> self == other,
    ;
}

impl Operand for u8 {
    open spec fn width() -> nat {
        1
    }

    open spec fn bits(self) -> u64 {
        self as u64
    }

    fn size() -> (r: usize) {
        1
    }

    fn to_u64(self) -> (r: u64) {
        self as u64
    }

    fn from_u64(v: u64) -> (r: u8) {
        let r = v as u8;
        assert(r as u64 == v & 0xffu64) by (bit_vector)
            requires
                r == v as u8,
        ;
        r
    }

    proof fn lemma_bits_in_width(self) {
        let s = self;
        assert(s as u64 & 0xffu64 == s as u64) by (bit_vector);
    }

    proof fn lemma_bits_injective(self, other: u8) {
    }
}

impl Operand for u16 {
    open spec fn width() -> nat {
        2
    }

    open spec fn bits(self) -> u64 {
        self as u64
    }

    fn size() -> (r: usize) {
        2
    }

    fn to_u64(self) -> (r: u64) {
        self as u64
    }

    fn from_u64(v: u64) -> (r: u16) {
        let r = v as u16;
        assert(r as u64 == v & 0xffffu64) by (bit_vector)
            requires
                r == v as u16,
        ;
        r
    }

    proof fn lemma_bits_in_width(self) {
        let s = self;
        assert(s as u64 & 0xffffu64 == s as u64) by (bit_vector);
    }

    proof fn lemma_bits_injective(self, other: u16) {
    }
}

impl Operand for u32 {
    open spec fn width() -> nat {
        4
    }

    open spec fn bits(self) -> u64 {
        self as u64
    }

    fn size() -> (r: usize) {
        4
    }

    fn to_u64(self) -> (r: u64) {
        self as u64
    }

    fn from_u64(v: u64) -> (r: u32) {
        let r = v as u32;
        assert(r as u64 == v & 0xffff_ffffu64) by (bit_vector)
            requires
                r == v as u32,
        ;
        r
    }

    proof fn lemma_bits_in_width(self) {
        let s = self;
        assert(s as u64 & 0xffff_ffffu64 == s as u64) by (bit_vector);
    }

    proof fn lemma_bits_injective(self, other: u32) {
    }
}

impl Operand for u64 {
    open spec fn width() -> nat {
        8
    }

    open spec fn bits(self) -> u64 {
        self
    }

    fn size() -> (r: usize) {
        8
    }

    fn to_u64(self) -> (r: u64) {
        self
    }

    fn from_u64(v: u64) -> (r: u64) {
        assert(v & 0xffff_ffff_ffff_ffffu64 == v) by (bit_vector);
        v
    }

    proof fn lemma_bits_in_width(self) {
        let s = self;
        assert(s & 0xffff_ffff_ffff_ffffu64 == s) by (bit_vector);
    }

    proof fn lemma_bits_injective(self, other: u64) {
    }
}

} // verus!
