//! Decoding of CPU identification registers.
//!
//! The identification instruction itself is a raw hardware instruction
//! and runs outside the library; what it returns is plain register
//! values, and the bit-field decoding of those values is verified here.

use vstd::prelude::*;

verus! {

/// The stepping field: the low four bits of the version register.
pub open spec fn spec_stepping(eax: u32) -> u8 {
    (eax & 0xF) as u8
}

/// The model field: the base model in the low nibble, the extended
/// model above it.
pub open spec fn spec_model(eax: u32) -> u8 {
    (((eax >> 4) & 0xF) | (((eax >> 16) & 0xF) << 4)) as u8
}

/// The family: the base family plus the extended family, reduced to
/// the eight bits the field stores.
pub open spec fn spec_family(eax: u32) -> u8 {
    ((((eax >> 8) & 0xF) + ((eax >> 20) & 0xFF)) % 256) as u8
}

/// Decodes the version register into (family, model, stepping).
pub fn cpuid_version_fields(eax: u32) -> (r: (u8, u8, u8))
    ensures
        r.0 == spec_family(eax),
        r.1 == spec_model(eax),
        r.2 == spec_stepping(eax),
{
    proof {
        assert(eax & 0xF < 256 && (((eax >> 4) & 0xF) | (((eax >> 16) & 0xF) << 4)) < 256
            && (eax >> 8) & 0xF <= 15 && (eax >> 20) & 0xFF <= 255) by (bit_vector);
    }
    let stepping = (eax & 0xF) as u8;
    let model = (((eax >> 4) & 0xF) | (((eax >> 16) & 0xF) << 4)) as u8;
    let sum: u32 = ((eax >> 8) & 0xF) + ((eax >> 20) & 0xFF);
    let family = (sum % 256) as u8;
    (family, model, stepping)
}

/// Whether a feature register has `bit` set.
pub fn feature_bit(reg: u32, bit: u32) -> (r: bool)
    requires
        bit < 32,
    ensures
        r == (reg & (1u32 << bit) != 0),
{
    reg & (1u32 << bit) != 0
}

/// The byte stream a register block spells out, each register least
/// significant byte first.
pub open spec fn le_bytes_of(words: Seq<u32>) -> Seq<u8> {
    Seq::new(words.len() * 4, |i: int| ((words[i / 4] >> (8 * (i % 4))) & 0xFF) as u8)
}

/// The brand string carried by the twelve extended-leaf registers, 48
/// bytes in register order.
pub fn brand_bytes(regs: &Vec<u32>) -> (r: Vec<u8>)
    requires
        regs@.len() == 12,
    ensures
        r@ == le_bytes_of(regs@),
{
    let mut out: Vec<u8> = Vec::new();
    let mut i: usize = 0;
    while i < regs.len()
        invariant
            i <= regs@.len(),
            out@.len() == 4 * i,
            forall|j: int| 0 <= j < out@.len() ==> out@[j] == le_bytes_of(regs@)[j],
        decreases regs@.len() - i,
    {
        let w = regs[i];
        out.push((w & 0xFF) as u8);
        out.push(((w >> 8) & 0xFF) as u8);
        out.push(((w >> 16) & 0xFF) as u8);
        out.push(((w >> 24) & 0xFF) as u8);
        proof {
            assert((w >> 0) & 0xFF == w & 0xFF) by (bit_vector);
        }
        i = i + 1;
    }
    proof {
        assert(out@ =~= le_bytes_of(regs@));
    }
    out
}

/// Index of the first zero byte, or the length when none occurs.
pub open spec fn first_nul(s: Seq<u8>) -> int
    decreases s.len(),
{
    if s.len() == 0 {
        0
    } else if s[0] == 0 {
        0
    } else {
        1 + first_nul(s.drop_first())
    }
}

/// The printable prefix of a fixed-size string field: everything before
/// the first zero byte.
pub fn prefix_before_nul(bytes: &[u8]) -> (r: Vec<u8>)
    ensures
        0 <= first_nul(bytes@) <= bytes@.len(),
        r@ == bytes@.take(first_nul(bytes@)),
{
    let n = bytes.len();
    let mut out: Vec<u8> = Vec::new();
    let mut i: usize = 0;
    proof {
        assert(bytes@.skip(0) =~= bytes@);
        assert(bytes@.take(0) =~= Seq::<u8>::empty());
    }
    while i < n && bytes[i] != 0
        invariant
            n == bytes@.len(),
            i <= n,
            out@ == bytes@.take(i as int),
            first_nul(bytes@) == i + first_nul(bytes@.skip(i as int)),
        decreases n - i,
    {
        proof {
            assert(bytes@.skip(i as int).drop_first() =~= bytes@.skip(i as int + 1));
            assert(bytes@.take(i as int + 1) =~= bytes@.take(i as int).push(bytes@[i as int]));
        }
        out.push(bytes[i]);
        i = i + 1;
    }
    proof {
        assert(first_nul(bytes@.skip(i as int)) == 0);
    }
    out
}

/// The twelve vendor-string bytes, assembled from the three registers
/// in their hardware order, each register least significant byte first.
pub fn vendor_bytes(ebx: u32, edx: u32, ecx: u32) -> (r: Vec<u8>)
    ensures
        r@.len() == 12,
        r@[0] == (ebx & 0xFF) as u8,
        r@[1] == ((ebx >> 8) & 0xFF) as u8,
        r@[2] == ((ebx >> 16) & 0xFF) as u8,
        r@[3] == ((ebx >> 24) & 0xFF) as u8,
        r@[4] == (edx & 0xFF) as u8,
        r@[5] == ((edx >> 8) & 0xFF) as u8,
        r@[6] == ((edx >> 16) & 0xFF) as u8,
        r@[7] == ((edx >> 24) & 0xFF) as u8,
        r@[8] == (ecx & 0xFF) as u8,
        r@[9] == ((ecx >> 8) & 0xFF) as u8,
        r@[10] == ((ecx >> 16) & 0xFF) as u8,
        r@[11] == ((ecx >> 24) & 0xFF) as u8,
{
    let mut out: Vec<u8> = Vec::new();
    out.push((ebx & 0xFF) as u8);
    out.push(((ebx >> 8) & 0xFF) as u8);
    out.push(((ebx >> 16) & 0xFF) as u8);
    out.push(((ebx >> 24) & 0xFF) as u8);
    out.push((edx & 0xFF) as u8);
    out.push(((edx >> 8) & 0xFF) as u8);
    out.push(((edx >> 16) & 0xFF) as u8);
    out.push(((edx >> 24) & 0xFF) as u8);
    out.push((ecx & 0xFF) as u8);
    out.push(((ecx >> 8) & 0xFF) as u8);
    out.push(((ecx >> 16) & 0xFF) as u8);
    out.push(((ecx >> 24) & 0xFF) as u8);
    out
}

} // verus!
