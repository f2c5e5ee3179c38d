//! Fields packed into register bytes and words.
use vstd::prelude::*;

verus! {

/// The field of `x` that starts at bit `off` and is selected by `mask`.
pub open spec fn get8(x: u8, off: u8, mask: u8) -> u8 {
    (x >> off) & mask
}

/// `x` with the field at bit `off` selected by `mask` replaced by `v`.
pub open spec fn set8(x: u8, off: u8, mask: u8, v: u8) -> u8 {
    (x & !(mask << off)) | ((v & mask) << off)
}

/// The field of `x` that starts at bit `off` and is selected by `mask`.
pub open spec fn get16(x: u16, off: u16, mask: u16) -> u16 {
    (x >> off) & mask
}

/// `x` with the field at bit `off` selected by `mask` replaced by `v`.
pub open spec fn set16(x: u16, off: u16, mask: u16, v: u16) -> u16 {
    (x & !(mask << off)) | ((v & mask) << off)
}

/// A byte mask of the low 1 to 4 bits placed at `off` within the byte.
pub open spec fn field_fits8(off: u8, mask: u8) -> bool {
    &&& off < 8
    &&& (mask == 1 || mask == 3 || mask == 7 || mask == 15)
    &&& (mask << off) >> off == mask
}

/// Writing a field and reading it back gives the value written, and the
/// other fields of the byte keep their values.
pub proof fn lemma_field8(x: u8, v: u8, off: u8, mask: u8, off2: u8, mask2: u8)
    requires
        field_fits8(off, mask),
        field_fits8(off2, mask2),
        v <= mask,
    ensures
        get8(set8(x, off, mask, v), off, mask) == v,
        (mask << off) & (mask2 << off2) == 0 ==> get8(set8(x, off, mask, v), off2, mask2) == get8(
            x,
            off2,
            mask2,
        ),
{
    assert(get8(set8(x, off, mask, v), off, mask) == v) by (bit_vector)
        requires
            off < 8,
            mask == 1 || mask == 3 || mask == 7 || mask == 15,
            (mask << off) >> off == mask,
            v <= mask,
    ;
    assert((mask << off) & (mask2 << off2) == 0 ==> get8(set8(x, off, mask, v), off2, mask2) == get8(x, off2, mask2)) by (bit_vector)
        requires
            off < 8,
            off2 < 8,
            (mask << off) >> off == mask,
            (mask2 << off2) >> off2 == mask2,
    ;
}

/// A word mask of the low bits placed at `off` within the word.
pub open spec fn field_fits16(off: u16, mask: u16) -> bool {
    &&& off < 16
    &&& (mask == 1 || mask == 3 || mask == 7 || mask == 15 || mask == 0x3ff || mask == 0xff
        || mask == 0xffff)
    &&& (mask << off) >> off == mask
}

/// Writing a field of a word and reading it back gives the value written,
/// and the other fields of the word keep their values.
pub proof fn lemma_field16(x: u16, v: u16, off: u16, mask: u16, off2: u16, mask2: u16)
    requires
        field_fits16(off, mask),
        field_fits16(off2, mask2),
        v <= mask,
    ensures
        get16(set16(x, off, mask, v), off, mask) == v,
        (mask << off) & (mask2 << off2) == 0 ==> get16(set16(x, off, mask, v), off2, mask2) == get16(
            x,
            off2,
            mask2,
        ),
{
    assert(get16(set16(x, off, mask, v), off, mask) == v) by (bit_vector)
        requires
            off < 16,
            (mask << off) >> off == mask,
            v <= mask,
            mask == 1 || mask == 3 || mask == 7 || mask == 15 || mask == 0x3ff || mask == 0xff
                || mask == 0xffff,
    ;
    assert((mask << off) & (mask2 << off2) == 0 ==> get16(set16(x, off, mask, v), off2, mask2) == get16(x, off2, mask2)) by (bit_vector)
        requires
            off < 16,
            off2 < 16,
            (mask << off) >> off == mask,
            (mask2 << off2) >> off2 == mask2,
    ;
}

} // verus!
