use vstd::prelude::*;

verus! {

/// The fixed 64-entry NES system palette, as 8-bit RGB triples.
pub const NES_PALETTE: [[u8; 3]; 64] = [
    [84, 84, 84], [0, 30, 116], [8, 16, 144], [48, 0, 136],
    [68, 0, 100], [92, 0, 48], [84, 4, 0], [60, 24, 0],
    [32, 42, 0], [8, 58, 0], [0, 64, 0], [0, 60, 0],
    [0, 50, 60], [0, 0, 0], [0, 0, 0], [0, 0, 0],
    [152, 150, 152], [8, 76, 196], [48, 50, 236], [92, 30, 228],
    [136, 20, 176], [160, 20, 100], [152, 34, 32], [120, 60, 0],
    [84, 90, 0], [40, 114, 0], [8, 124, 0], [0, 118, 40],
    [0, 102, 120], [0, 0, 0], [0, 0, 0], [0, 0, 0],
    [236, 238, 236], [76, 154, 236], [120, 124, 236], [176, 98, 236],
    [228, 84, 236], [236, 88, 180], [236, 106, 100], [212, 136, 32],
    [160, 170, 0], [116, 196, 0], [76, 208, 32], [56, 204, 108],
    [56, 180, 204], [60, 60, 60], [0, 0, 0], [0, 0, 0],
    [236, 238, 236], [168, 204, 236], [188, 188, 236], [212, 178, 236],
    [236, 174, 236], [236, 174, 212], [236, 180, 176], [228, 196, 144],
    [204, 210, 120], [180, 222, 120], [168, 226, 144], [152, 226, 180],
    [160, 214, 228], [160, 162, 160], [0, 0, 0], [0, 0, 0],
];

/// A 16-bit address as a number, from its high and low bytes.
pub open spec fn addr_of(high: u8, low: u8) -> int {
    high as int * 256 + low as int
}

/// Joins a high and a low byte into a 16-bit address.
pub fn get_addr(high: u8, low: u8) -> (r: u16)
    ensures
        r == addr_of(high, low),
{
    (high as u16) * 256 + (low as u16)
}

/// The high byte of a 16-bit value.
pub fn high_byte(v: u16) -> (r: u8)
    ensures
        r == v / 256,
{
    (v / 256) as u8
}

/// The low byte of a 16-bit value.
pub fn low_byte(v: u16) -> (r: u8)
    ensures
        r == v % 256,
{
    (v % 256) as u8
}

/// `2^k` for the bit positions of a byte.
pub open spec fn pow2_byte(k: int) -> int {
    if k <= 0 {
        1
    } else if k == 1 {
        2
    } else if k == 2 {
        4
    } else if k == 3 {
        8
    } else if k == 4 {
        16
    } else if k == 5 {
        32
    } else if k == 6 {
        64
    } else {
        128
    }
}

/// Bit `k` (0 = least significant) of a byte.
pub open spec fn bit(v: u8, k: int) -> bool {
    (v as int / pow2_byte(k)) % 2 == 1
}

/// Contribution of a flag to a byte at bit `k`.
pub open spec fn flag_value(f: bool, k: int) -> int {
    if f {
        pow2_byte(k)
    } else {
        0
    }
}

/// `2^k` for a bit position of a byte.
pub fn pow2_u8(k: u8) -> (r: u8)
    requires
        k < 8,
    ensures
        r == pow2_byte(k as int),
{
    if k == 0 {
        1
    } else if k == 1 {
        2
    } else if k == 2 {
        4
    } else if k == 3 {
        8
    } else if k == 4 {
        16
    } else if k == 5 {
        32
    } else if k == 6 {
        64
    } else {
        128
    }
}

/// A byte is the sum of its bits.
pub proof fn lemma_byte_bits(v: u8)
    ensures
        v as int == flag_value(bit(v, 7), 7) + flag_value(bit(v, 6), 6) + flag_value(bit(v, 5), 5)
            + flag_value(bit(v, 4), 4) + flag_value(bit(v, 3), 3) + flag_value(bit(v, 2), 2)
            + flag_value(bit(v, 1), 1) + flag_value(bit(v, 0), 0),
        v as int % 4 == flag_value(bit(v, 1), 1) + flag_value(bit(v, 0), 0),
{
    assert(v as int == (v / 128) % 2 * 128 + (v / 64) % 2 * 64 + (v / 32) % 2 * 32 + (v / 16) % 2 * 16
        + (v / 8) % 2 * 8 + (v / 4) % 2 * 4 + (v / 2) % 2 * 2 + v % 2) by (bit_vector);
    assert(v % 4 == (v / 2) % 2 * 2 + v % 2) by (bit_vector);
}

/// Tests bit `k` of a byte.
pub fn test_bit(v: u8, k: u8) -> (r: bool)
    requires
        k < 8,
    ensures
        r == bit(v, k as int),
{
    (v / pow2_u8(k)) % 2 == 1
}

/// A vector of `n` zero bytes.
pub fn zeroed(n: usize) -> (r: Vec<u8>)
    ensures
        r@ == Seq::new(n as nat, |i: int| 0u8),
{
    let mut r: Vec<u8> = Vec::with_capacity(n);
    let mut i: usize = 0;
    while i < n
        invariant
            i <= n,
            r@ == Seq::new(i as nat, |j: int| 0u8),
        decreases n - i,
    {
        r.push(0);
        i = i + 1;
        assert(r@ =~= Seq::new(i as nat, |j: int| 0u8));
    }
    r
}

} // verus!
