//! Byte and word arithmetic shared by the register file and the sequencer.
//!
//! The contracts of the crate speak of bytes as numbers. The facts that link
//! the machine's bitwise operations to that arithmetic are proved here once.

use vstd::prelude::*;

verus! {

/// The value of a carry or borrow bit as a number.
pub open spec fn bit(c: bool) -> int {
    if c { 1 } else { 0 }
}

/// The byte `b` widened to a word.
pub open spec fn word(b: u8) -> u16 {
    b as u16
}

/// The low byte of a word.
pub open spec fn lo(w: u16) -> u8 {
    (w % 256) as u8
}

/// The high byte of a word.
pub open spec fn hi(w: u16) -> u8 {
    (w / 256) as u8
}

/// The word whose low byte is `l` and whose high byte is `h`.
pub open spec fn join(l: u8, h: u8) -> u16 {
    (h * 256 + l) as u16
}

/// `w` advanced by `n`, modulo 2^16.
pub open spec fn word_add(w: u16, n: int) -> u16 {
    ((w + n) % 65536) as u16
}

/// `b` advanced by `n`, modulo 2^8.
pub open spec fn byte_add(b: u8, n: int) -> u8 {
    ((b + n) % 256) as u8
}

/// A relative branch offset read as a signed number in `-128..=127`.
pub open spec fn signed(b: u8) -> int {
    if b < 128 { b as int } else { b - 256 }
}

/// Whether two addresses lie in different 256-byte pages.
pub open spec fn page_differs(a: u16, b: u16) -> bool {
    hi(a) != hi(b)
}

/// The address in the page of `page` with the low byte of `offset`.
pub open spec fn same_page(page: u16, offset: u16) -> u16 {
    join(lo(offset), hi(page))
}

/// `v` with the bits of `m` set when `to` holds and cleared when it does not.
pub open spec fn masked(v: u8, m: u8, to: bool) -> u8 {
    if to { v | m } else { v & !m }
}

/// Whether `m` has exactly one bit set.
pub open spec fn single_bit(m: u8) -> bool {
    m == 1 || m == 2 || m == 4 || m == 8 || m == 16 || m == 32 || m == 64 || m == 128
}

/// A bit that was written reads back as written.
pub proof fn lemma_masked_same(v: u8, m: u8, to: bool)
    requires
        m != 0,
    ensures
        (masked(v, m, to) & m != 0) == to,
{
    assert((v | m) & m == m) by (bit_vector);
    assert((v & !m) & m == 0) by (bit_vector);
}

/// Writing the bits of one mask leaves the bits of a disjoint mask as they were.
pub proof fn lemma_masked_other(v: u8, m: u8, k: u8, to: bool)
    requires
        single_bit(m),
        single_bit(k),
        m != k,
    ensures
        masked(v, m, to) & k == v & k,
{
    assert(single_bit(m) && single_bit(k) && m != k ==> m & k == 0) by (bit_vector);
    assert(m & k == 0 ==> (v | m) & k == v & k) by (bit_vector);
    assert(m & k == 0 ==> (v & !m) & k == v & k) by (bit_vector);
}

/// Writes of two different bits can be made in either order.
pub proof fn lemma_masks_commute(v: u8, m: u8, k: u8, to: bool, too: bool)
    requires
        single_bit(m),
        single_bit(k),
        m != k,
    ensures
        masked(masked(v, m, to), k, too) == masked(masked(v, k, too), m, to),
{
    assert(single_bit(m) && single_bit(k) && m != k ==> m & k == 0) by (bit_vector);
    assert(m & k == 0 ==> (v | m) | k == (v | k) | m) by (bit_vector);
    assert(m & k == 0 ==> (v | m) & !k == (v & !k) | m) by (bit_vector);
    assert(m & k == 0 ==> (v & !m) | k == (v | k) & !m) by (bit_vector);
    assert(m & k == 0 ==> (v & !m) & !k == (v & !k) & !m) by (bit_vector);
}

/// The top bit of a byte is set exactly when the byte is at least 128.
pub proof fn lemma_top_bit(v: u8)
    ensures
        (v & 0x80 != 0) == (v >= 128),
        (v & 0x40 != 0) == (v % 128 >= 64),
        (v & 0x01 != 0) == (v % 2 == 1),
{
    assert((v & 0x80 != 0) == (v >= 128)) by (bit_vector);
    assert((v & 0x40 != 0) == (v % 128 >= 64)) by (bit_vector);
    assert((v & 0x01 != 0) == (v % 2 == 1)) by (bit_vector);
}

/// A word is the join of its two bytes, and a join splits into its parts.
pub proof fn lemma_join_split(l: u8, h: u8, w: u16)
    ensures
        lo(join(l, h)) == l,
        hi(join(l, h)) == h,
        join(lo(w), hi(w)) == w,
{
}

pub(crate) fn widen(b: u8) -> (r: u16)
    ensures
        r == word(b),
{
    b as u16
}

pub(crate) fn low_byte(w: u16) -> (r: u8)
    ensures
        r == lo(w),
{
    proof {
        assert(w & 0xFF == w % 256) by (bit_vector);
    }
    (w & 0xFF) as u8
}

pub(crate) fn high_byte(w: u16) -> (r: u8)
    ensures
        r == hi(w),
{
    proof {
        assert(w >> 8 == w / 256) by (bit_vector);
    }
    (w >> 8) as u8
}

pub(crate) fn make_word(l: u8, h: u8) -> (r: u16)
    ensures
        r == join(l, h),
{
    let lw: u16 = l as u16;
    let hw: u16 = h as u16;
    proof {
        assert(lw | (hw << 8) == hw * 256 + lw) by (bit_vector)
            requires
                lw < 256,
                hw < 256,
        ;
    }
    lw | (hw << 8)
}

pub(crate) fn bool_byte(c: bool) -> (r: u8)
    ensures
        r == bit(c),
{
    if c { 1 } else { 0 }
}

/// Writes the bits of `m` in `v`.
pub(crate) fn set_mask(v: u8, m: u8, to: bool) -> (r: u8)
    ensures
        r == masked(v, m, to),
{
    let cleared: u8 = v & !m;
    proof {
        assert((v & !m) | m == v | m) by (bit_vector);
    }
    if to { cleared | m } else { cleared }
}

pub(crate) fn byte_plus(b: u8, n: u8) -> (r: u8)
    ensures
        r == byte_add(b, n as int),
{
    let sum: u16 = b as u16 + n as u16;
    if sum >= 256 { (sum - 256) as u8 } else { sum as u8 }
}

pub(crate) fn byte_inc(b: u8) -> (r: u8)
    ensures
        r == byte_add(b, 1),
{
    if b == 255 { 0 } else { b + 1 }
}

pub(crate) fn byte_dec(b: u8) -> (r: u8)
    ensures
        r == byte_add(b, -1),
{
    if b == 0 { 255 } else { b - 1 }
}

pub(crate) fn word_inc(w: u16) -> (r: u16)
    ensures
        r == word_add(w, 1),
{
    if w == 0xFFFF { 0 } else { w + 1 }
}

pub(crate) fn word_plus(w: u16, n: u8) -> (r: u16)
    ensures
        r == word_add(w, n as int),
{
    let sum: u32 = w as u32 + n as u32;
    if sum >= 65536 { (sum - 65536) as u16 } else { sum as u16 }
}

/// `w` moved by the signed offset that `off` encodes.
pub(crate) fn word_offset(w: u16, off: u8) -> (r: u16)
    ensures
        r == word_add(w, signed(off)),
{
    if off < 128 {
        word_plus(w, off)
    } else {
        let back: u32 = 256 - off as u32;
        let wide: u32 = w as u32;
        if wide >= back { (wide - back) as u16 } else { (wide + 65536 - back) as u16 }
    }
}

pub(crate) fn crosses_page(a: u16, b: u16) -> (r: bool)
    ensures
        r == page_differs(a, b),
{
    high_byte(a) != high_byte(b)
}

pub(crate) fn in_page(page: u16, offset: u16) -> (r: u16)
    ensures
        r == same_page(page, offset),
{
    make_word(low_byte(offset), high_byte(page))
}

/// `b` shifted left by one place; the top bit falls out.
pub(crate) fn shift_left(b: u8) -> (r: u8)
    ensures
        r == (b * 2) % 256,
{
    proof {
        assert(b << 1 == (b * 2) % 256) by (bit_vector);
    }
    b << 1
}

/// `b` shifted right by one place; the low bit falls out.
pub(crate) fn shift_right(b: u8) -> (r: u8)
    ensures
        r == b / 2,
{
    proof {
        assert(b >> 1 == b / 2) by (bit_vector);
    }
    b >> 1
}

/// The complement of a byte.
pub(crate) fn complement(b: u8) -> (r: u8)
    ensures
        r == 255 - b,
{
    proof {
        assert(!b == 255 - b) by (bit_vector);
    }
    !b
}

} // verus!
