use vstd::prelude::*;
use crate::operand::{Operand, is_operand_width};

verus! {

/// Overflow flag.
pub const FLAG_OF: u64 = 0x800;

/// Sign flag.
pub const FLAG_SF: u64 = 0x80;

/// Zero flag.
pub const FLAG_ZF: u64 = 0x40;

/// Parity flag.
pub const FLAG_PF: u64 = 0x4;

/// Reserved flag bit, always set by the processor.
pub const FLAG_RESERVED: u64 = 0x2;

/// Carry flag.
pub const FLAG_CF: u64 = 0x1;

/// The status bits that TEST and OR define: OF, SF, ZF, PF, the reserved bit
/// and CF.
pub const X86_FLAGS_STATUS: u64 = FLAG_OF | FLAG_SF | FLAG_ZF | FLAG_PF | FLAG_RESERVED | FLAG_CF;

/// Bit `i` of `v`, as 0 or 1.
pub open spec fn bit_of(v: u64, i: u64) -> nat {
    ((v >> i) & 1u64) as nat
}

/// Number of set bits among the `n` lowest bits of `v`.
pub open spec fn ones_below(v: u64, n: nat) -> nat
    decreases n,
{
    if n == 0 {
        0
    } else {
        ones_below(v, (n - 1) as nat) + bit_of(v, (n - 1) as u64)
    }
}

/// The low byte of `v` has an even number of set bits (the parity flag rule).
pub open spec fn even_parity(v: u64) -> bool {
    ones_below(v, 8) % 2 == 0
}

/// The most significant bit of a `width`-byte result is set.
pub open spec fn sign_bit(v: u64, width: nat) -> bool {
    (v >> ((8 * width - 1) as u64)) & 1u64 == 1u64
}

/// Status bits that a logical instruction (TEST, OR) leaves for a result of
/// `width` bytes: SF from the sign bit, ZF when the result is zero, PF from
/// the parity of the low byte, the reserved bit set, OF and CF clear.
pub open spec fn status_flags(result: u64, width: nat) -> u64 {
    (if sign_bit(result, width) { FLAG_SF } else { 0u64 }) | (if result == 0 { FLAG_ZF } else { 0u64 })
        | (if even_parity(result) { FLAG_PF } else { 0u64 }) | FLAG_RESERVED
}

/// The flags word after the status bits are replaced by `status`; every other
/// bit is kept.
pub open spec fn merge_status(flags: u64, status: u64) -> u64 {
    (flags & !X86_FLAGS_STATUS) | status
}

proof fn lemma_bit_at_most_one(v: u64, i: u64)
    by (bit_vector)
    ensures
        (v >> i) & 1u64 <= 1u64,
{
}

/// Whether the low byte of `v` has an even number of set bits.
pub fn parity_even(v: u64) -> (r: bool)
    ensures
        r == even_parity(v),
{
    let mut count: u64 = 0;
    let mut i: u64 = 0;
    while i < 8
        invariant
            i <= 8,
            count == ones_below(v, i as nat),
            count <= i,
        decreases 8 - i,
    {
        proof {
            lemma_bit_at_most_one(v, i);
        }
        count = count + ((v >> i) & 1);
        i = i + 1;
    }
    count % 2 == 0
}

/// Status bits of a logical instruction whose result is `result`, of
/// `width` bytes, in the layout that LAHF gives them.
pub fn status_flags_for(result: u64, width: u64) -> (r: u16)
    requires
        is_operand_width(width as nat),
    ensures
        r as u64 == status_flags(result, width as nat),
{
    let sf: u64 = if (result >> (8 * width - 1)) & 1 == 1 {
        FLAG_SF
    } else {
        0
    };
    let zf: u64 = if result == 0 {
        FLAG_ZF
    } else {
        0
    };
    let pf: u64 = if parity_even(result) {
        FLAG_PF
    } else {
        0
    };
    let f: u64 = sf | zf | pf | FLAG_RESERVED;
    assert(f <= 0xffff) by (bit_vector)
        requires
            f == sf | zf | pf | 2u64,
            sf <= 0xff,
            zf <= 0xff,
            pf <= 0xff,
    ;
    f as u16
}

/// Status bits that `TEST value1, value2` leaves on 8-bit operands.
pub fn x86_flags_for_test8(value1: u8, value2: u8) -> (r: u16)
    ensures
        r as u64 == status_flags((value1 & value2) as u64, 1),
{
    status_flags_for((value1 & value2) as u64, 1)
}

/// Performs `OR memory, immediate`: stores the OR of the two in `memory` and
/// returns the status bits the instruction leaves.
pub fn x86_simulate_or<T: Operand>(immediate: T, memory: &mut T) -> (r: u16)
    ensures
        final(memory).bits() == immediate.bits() | old(memory).bits(),
        r as u64 == status_flags(final(memory).bits(), T::width()),
{
    let a = immediate.to_u64();
    let b = memory.to_u64();
    let result = a | b;
    proof {
        immediate.lemma_bits_in_width();
        memory.lemma_bits_in_width();
        let m = crate::operand::width_mask(T::width());
        assert((a | b) & m == a | b) by (bit_vector)
            requires
                a & m == a,
                b & m == b,
        ;
    }
    *memory = T::from_u64(result);
    status_flags_for(result, T::size() as u64)
}

proof fn lemma_merge_bits(flags: u64, sf: u64, zf: u64, pf: u64)
    by (bit_vector)
    requires
        sf == 0 || sf == 0x80,
        zf == 0 || zf == 0x40,
        pf == 0 || pf == 4,
    ensures
        ((flags & !0x8c7u64) | (sf | zf | pf | 2u64)) & 0x80u64 != 0 <==> sf != 0,
        ((flags & !0x8c7u64) | (sf | zf | pf | 2u64)) & 0x40u64 != 0 <==> zf != 0,
        ((flags & !0x8c7u64) | (sf | zf | pf | 2u64)) & 0x4u64 != 0 <==> pf != 0,
        ((flags & !0x8c7u64) | (sf | zf | pf | 2u64)) & 0x800u64 == 0,
        ((flags & !0x8c7u64) | (sf | zf | pf | 2u64)) & 0x1u64 == 0,
        ((flags & !0x8c7u64) | (sf | zf | pf | 2u64)) & 0x2u64 != 0,
        ((flags & !0x8c7u64) | (sf | zf | pf | 2u64)) & !0x8c7u64 == flags & !0x8c7u64,
{
}

/// Merging the status of a logical instruction's result into a flags word
/// sets SF exactly when the result's sign bit is set, ZF exactly when the
/// result is zero and PF exactly when its low byte has even parity; it clears
/// OF and CF, sets the reserved bit, and keeps every bit outside the status
/// bits.
pub proof fn lemma_status_flags_bits(result: u64, width: nat, flags: u64)
    requires
        is_operand_width(width),
    ensures
        (merge_status(flags, status_flags(result, width)) & FLAG_SF != 0) == sign_bit(result, width),
        (merge_status(flags, status_flags(result, width)) & FLAG_ZF != 0) == (result == 0),
        (merge_status(flags, status_flags(result, width)) & FLAG_PF != 0) == even_parity(result),
        merge_status(flags, status_flags(result, width)) & FLAG_OF == 0,
        merge_status(flags, status_flags(result, width)) & FLAG_CF == 0,
        merge_status(flags, status_flags(result, width)) & FLAG_RESERVED != 0,
        merge_status(flags, status_flags(result, width)) & !X86_FLAGS_STATUS == flags
            & !X86_FLAGS_STATUS,
{
    let sf: u64 = if sign_bit(result, width) { FLAG_SF } else { 0u64 };
    let zf: u64 = if result == 0 { FLAG_ZF } else { 0u64 };
    let pf: u64 = if even_parity(result) { FLAG_PF } else { 0u64 };
    assert(X86_FLAGS_STATUS == 0x8c7u64) by (bit_vector);
    lemma_merge_bits(flags, sf, zf, pf);
}

/// After `TEST a, b` on 8-bit operands: ZF is set exactly when `a & b` is
/// zero, SF equals bit 7 of `a & b`, PF is set exactly when `a & b` has even
/// parity, OF and CF are clear, the reserved bit is set, and every bit
/// outside the status bits keeps its value.
pub proof fn lemma_test8_flags(a: u8, b: u8, flags: u64)
    ensures
        (merge_status(flags, status_flags((a & b) as u64, 1)) & FLAG_ZF != 0) == ((a & b) == 0),
        (merge_status(flags, status_flags((a & b) as u64, 1)) >> 7u64) & 1u64 == (((a & b) >> 7u8)
            & 1u8) as u64,
        (merge_status(flags, status_flags((a & b) as u64, 1)) & FLAG_PF != 0) == even_parity(
            (a & b) as u64,
        ),
        merge_status(flags, status_flags((a & b) as u64, 1)) & FLAG_OF == 0,
        merge_status(flags, status_flags((a & b) as u64, 1)) & FLAG_CF == 0,
        merge_status(flags, status_flags((a & b) as u64, 1)) & FLAG_RESERVED != 0,
        merge_status(flags, status_flags((a & b) as u64, 1)) & !X86_FLAGS_STATUS == flags
            & !X86_FLAGS_STATUS,
{
    let x = (a & b) as u64;
    let nf = merge_status(flags, status_flags(x, 1));
    lemma_status_flags_bits(x, 1, flags);
    let s = sign_bit(x, 1);
    assert(s == ((x >> 7u64) & 1u64 == 1u64));
    assert(((nf & 0x80u64 != 0) == ((x >> 7u64) & 1u64 == 1u64)) ==> (nf >> 7u64) & 1u64 == (((a
        & b) >> 7u8) & 1u8) as u64) by (bit_vector)
        requires
            x == (a & b) as u64,
    ;
}

} // verus!
