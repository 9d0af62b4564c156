use vstd::prelude::*;

verus! {

/// The 64-bit value whose high half is `high` and whose low half is `low`.
pub open spec fn packed(high: u32, low: u32) -> u64 {
    ((high as u64) << 32u64) | (low as u64)
}

/// The high 32 bits of `data`: the status code of a dual return.
pub fn from_high_half(data: u64) -> (r: u32)
    ensures
        r as int == data as int / 0x1_0000_0000,
{
    proof {
        assert((data >> 32u64) == data / 0x1_0000_0000) by (bit_vector);
    }
    (data >> 32u64) as u32
}

/// The low 32 bits of `data`: the region handle of a dual return.
pub fn from_low_half(data: u64) -> (r: u32)
    ensures
        r as int == data as int % 0x1_0000_0000,
{
    proof {
        assert((data & 0xFFFF_FFFFu64) == data % 0x1_0000_0000) by (bit_vector);
    }
    (data & 0xFFFF_FFFFu64) as u32
}

/// Packs a status code and a handle into one dual return value, as the host does.
pub fn pack_halves(high: u32, low: u32) -> (r: u64)
    ensures
        r == packed(high, low),
        r as int == high as int * 0x1_0000_0000 + low as int,
{
    let r = ((high as u64) << 32u64) | (low as u64);
    proof {
        let h = high as u64;
        let l = low as u64;
        assert(h <= 0xFFFF_FFFFu64 && l <= 0xFFFF_FFFFu64 ==> ((h << 32u64) | l) == h * 0x1_0000_0000u64 + l) by (bit_vector);
    }
    r
}

/// Decoding a packed dual return gives back the code and the handle that were packed.
pub proof fn lemma_halves_round_trip(code: u32, handle: u32)
    ensures
        packed(code, handle) as int / 0x1_0000_0000 == code as int,
        packed(code, handle) as int % 0x1_0000_0000 == handle as int,
{
    let h = code as u64;
    let l = handle as u64;
    assert(h <= 0xFFFF_FFFFu64 && l <= 0xFFFF_FFFFu64 ==> ((h << 32u64) | l) / 0x1_0000_0000u64 == h
        && ((h << 32u64) | l) % 0x1_0000_0000u64 == l) by (bit_vector);
}

} // verus!
