//! Fixed-width integers as bytes, in either byte order.
use vstd::prelude::*;

verus! {

/// The order in which the bytes of a multi-byte field are laid out.
#[derive(Clone, Copy, Debug, PartialEq, Eq, Structural)]
pub enum ByteOrder {
    /// Least significant byte first.
    Little,
    /// Most significant byte first.
    Big,
}

/// Calls `u16::to_ne_bytes`, which gives the two bytes of `v` in the order of
/// the machine: one of the two orders.
#[verifier::external_body]
fn native_u16(v: u16) -> (bytes: Vec<u8>)
    ensures
        bytes@ == u16_bytes(v, ByteOrder::Little) || bytes@ == u16_bytes(v, ByteOrder::Big),
{
    v.to_ne_bytes().to_vec()
}

impl ByteOrder {
    /// The byte order of the machine that runs this: the order in which it
    /// lays out the number one. Which of the two it is depends on the machine.
    pub fn host() -> (order: ByteOrder) {
        let probe = native_u16(1);
        ByteOrder::of_layout(probe.as_slice())
    }

    /// The byte order that a layout of the number one shows: little where the
    /// first byte is the one, big otherwise. For the two bytes of the number
    /// one in either order, it is that order.
    pub fn of_layout(layout: &[u8]) -> (order: ByteOrder)
        ensures
            order == (if layout@.len() > 0 && layout@[0] == 1 {
                ByteOrder::Little
            } else {
                ByteOrder::Big
            }),
            forall|o: ByteOrder| layout@ == #[trigger] u16_bytes(1, o) ==> order == o,
    {
        assert(u16_le(1).len() == 2);
        assert(u16_le(1).reverse().len() == 2);
        assert(u16_le(1)[0] == 1);
        assert(u16_le(1).reverse()[0] == 0);
        if layout.len() > 0 && layout[0] == 1 {
            ByteOrder::Little
        } else {
            ByteOrder::Big
        }
    }
}

/// The four bytes of `v`, least significant first.
pub open spec fn u32_le(v: u32) -> Seq<u8> {
    seq![
        (v % 256) as u8,
        (v / 256 % 256) as u8,
        (v / 65536 % 256) as u8,
        (v / 16777216) as u8,
    ]
}

/// The two bytes of `v`, least significant first.
pub open spec fn u16_le(v: u16) -> Seq<u8> {
    seq![(v % 256) as u8, (v / 256) as u8]
}

/// The number whose bytes, least significant first, are `b0 .. b3`.
pub open spec fn u32_of_le(b0: u8, b1: u8, b2: u8, b3: u8) -> u32 {
    (b0 + 256 * b1 + 65536 * b2 + 16777216 * b3) as u32
}

/// The number whose bytes, least significant first, are `b0` and `b1`.
pub open spec fn u16_of_le(b0: u8, b1: u8) -> u16 {
    (b0 + 256 * b1) as u16
}

/// The two's complement bit pattern of `x`.
pub open spec fn i32_bits(x: i32) -> u32 {
    if x >= 0 {
        x as u32
    } else {
        (x + 0x1_0000_0000) as u32
    }
}

/// The signed number whose two's complement bit pattern is `v`.
pub open spec fn i32_of_bits(v: u32) -> i32 {
    if v < 0x8000_0000 {
        v as i32
    } else {
        (v - 0x1_0000_0000) as i32
    }
}

/// The two's complement bit pattern of `x`.
pub open spec fn i16_bits(x: i16) -> u16 {
    if x >= 0 {
        x as u16
    } else {
        (x + 0x1_0000) as u16
    }
}

/// The signed number whose two's complement bit pattern is `v`.
pub open spec fn i16_of_bits(v: u16) -> i16 {
    if v < 0x8000 {
        v as i16
    } else {
        (v - 0x1_0000) as i16
    }
}

/// Bytes given least significant first, laid out in `order`.
pub open spec fn arrange(le: Seq<u8>, order: ByteOrder) -> Seq<u8> {
    match order {
        ByteOrder::Little => le,
        ByteOrder::Big => le.reverse(),
    }
}

/// The four bytes of `v` in `order`.
pub open spec fn u32_bytes(v: u32, order: ByteOrder) -> Seq<u8> {
    arrange(u32_le(v), order)
}

/// The two bytes of `v` in `order`.
pub open spec fn u16_bytes(v: u16, order: ByteOrder) -> Seq<u8> {
    arrange(u16_le(v), order)
}

/// The number that four bytes in `order` stand for.
pub open spec fn u32_of_bytes(s: Seq<u8>, order: ByteOrder) -> u32
    recommends
        s.len() == 4,
{
    match order {
        ByteOrder::Little => u32_of_le(s[0], s[1], s[2], s[3]),
        ByteOrder::Big => u32_of_le(s[3], s[2], s[1], s[0]),
    }
}

/// The number that two bytes in `order` stand for.
pub open spec fn u16_of_bytes(s: Seq<u8>, order: ByteOrder) -> u16
    recommends
        s.len() == 2,
{
    match order {
        ByteOrder::Little => u16_of_le(s[0], s[1]),
        ByteOrder::Big => u16_of_le(s[1], s[0]),
    }
}

/// Reading back what was written gives the number again, in either order.
pub proof fn lemma_u32_round_trip(v: u32, order: ByteOrder)
    ensures
        u32_bytes(v, order).len() == 4,
        u32_of_bytes(u32_bytes(v, order), order) == v,
{
    let le = u32_le(v);
    assert(le.len() == 4);
    assert(le.reverse().len() == 4);
    assert(le.reverse()[0] == le[3]);
    assert(le.reverse()[1] == le[2]);
    assert(le.reverse()[2] == le[1]);
    assert(le.reverse()[3] == le[0]);
}

/// Reading back what was written gives the number again, in either order.
pub proof fn lemma_u16_round_trip(v: u16, order: ByteOrder)
    ensures
        u16_bytes(v, order).len() == 2,
        u16_of_bytes(u16_bytes(v, order), order) == v,
{
    let le = u16_le(v);
    assert(le.len() == 2);
    assert(le.reverse().len() == 2);
    assert(le.reverse()[0] == le[1]);
    assert(le.reverse()[1] == le[0]);
}

/// The bytes of a number put together from four bytes are those bytes.
pub proof fn lemma_u32_le_of_le(b0: u8, b1: u8, b2: u8, b3: u8)
    ensures
        u32_le(u32_of_le(b0, b1, b2, b3)) =~= seq![b0, b1, b2, b3],
{
    let lo: int = b0 + 256 * b1;
    let mid: int = lo + 65536 * b2;
    let v: int = mid + 16777216 * b3;
    assert(0 <= lo < 65536);
    assert(0 <= mid < 16777216);
    assert(v / 16777216 == b3);
    assert(v / 65536 == b2 + 256 * b3);
    assert(v / 256 == b1 + 256 * b2 + 65536 * b3);
    assert(v % 256 == b0);
    assert((v / 256) % 256 == b1);
    assert((v / 65536) % 256 == b2);
}

/// Writing what was read gives the bytes again, in either order.
pub proof fn lemma_u32_bytes_of_bytes(s: Seq<u8>, order: ByteOrder)
    requires
        s.len() == 4,
    ensures
        u32_bytes(u32_of_bytes(s, order), order) =~= s,
{
    match order {
        ByteOrder::Little => {
            lemma_u32_le_of_le(s[0], s[1], s[2], s[3]);
        },
        ByteOrder::Big => {
            lemma_u32_le_of_le(s[3], s[2], s[1], s[0]);
            let le = seq![s[3], s[2], s[1], s[0]];
            assert(le.reverse() =~= s);
        },
    }
}

/// Writing what was read gives the bytes again, in either order.
pub proof fn lemma_u16_bytes_of_bytes(s: Seq<u8>, order: ByteOrder)
    requires
        s.len() == 2,
    ensures
        u16_bytes(u16_of_bytes(s, order), order) =~= s,
{
    let v = u16_of_bytes(s, order);
    let le = u16_le(v);
    assert(le.len() == 2);
    assert(le.reverse().len() == 2);
    assert(le.reverse()[0] == le[1]);
    assert(le.reverse()[1] == le[0]);
}

/// The bit pattern of a signed number stands for that number.
pub proof fn lemma_signed_bits(x: i32, y: i16)
    ensures
        i32_of_bits(i32_bits(x)) == x,
        i16_of_bits(i16_bits(y)) == y,
{
}

/// A bit pattern is the bit pattern of the signed number it stands for.
pub proof fn lemma_bits_signed(v: u32, w: u16)
    ensures
        i32_bits(i32_of_bits(v)) == v,
        i16_bits(i16_of_bits(w)) == w,
{
}

/// The two's complement bit pattern of `x`.
pub fn bits_of_i32(x: i32) -> (v: u32)
    ensures
        v == i32_bits(x),
{
    if x >= 0 {
        x as u32
    } else {
        let low: u32 = (x + 0x7fff_ffff + 1) as u32;
        low + 0x8000_0000
    }
}

/// The signed number whose two's complement bit pattern is `v`.
pub fn i32_from_bits(v: u32) -> (x: i32)
    ensures
        x == i32_of_bits(v),
{
    if v < 0x8000_0000 {
        v as i32
    } else {
        let low: i32 = (v - 0x8000_0000) as i32;
        low - 0x7fff_ffff - 1
    }
}

/// The two's complement bit pattern of `x`.
pub fn bits_of_i16(x: i16) -> (v: u16)
    ensures
        v == i16_bits(x),
{
    if x >= 0 {
        x as u16
    } else {
        let low: u16 = (x + 0x7fff + 1) as u16;
        low + 0x8000
    }
}

/// The signed number whose two's complement bit pattern is `v`.
pub fn i16_from_bits(v: u16) -> (x: i16)
    ensures
        x == i16_of_bits(v),
{
    if v < 0x8000 {
        v as i16
    } else {
        let low: i16 = (v - 0x8000) as i16;
        low - 0x7fff - 1
    }
}

/// Appends the four bytes of `v` to `out`, in `order`.
pub fn put_u32(out: &mut Vec<u8>, v: u32, order: ByteOrder)
    ensures
        final(out)@ =~= old(out)@ + u32_bytes(v, order),
{
    let b0: u8 = (v % 256) as u8;
    let b1: u8 = (v / 256 % 256) as u8;
    let b2: u8 = (v / 65536 % 256) as u8;
    let b3: u8 = (v / 16777216) as u8;
    match order {
        ByteOrder::Little => {
            out.push(b0);
            out.push(b1);
            out.push(b2);
            out.push(b3);
        },
        ByteOrder::Big => {
            out.push(b3);
            out.push(b2);
            out.push(b1);
            out.push(b0);
        },
    }
}

/// Appends the two bytes of `v` to `out`, in `order`.
pub fn put_u16(out: &mut Vec<u8>, v: u16, order: ByteOrder)
    ensures
        final(out)@ =~= old(out)@ + u16_bytes(v, order),
{
    let b0: u8 = (v % 256) as u8;
    let b1: u8 = (v / 256) as u8;
    match order {
        ByteOrder::Little => {
            out.push(b0);
            out.push(b1);
        },
        ByteOrder::Big => {
            out.push(b1);
            out.push(b0);
        },
    }
}

/// Reads the four bytes of `bytes` that start at `at`, in `order`.
pub fn get_u32(bytes: &[u8], at: usize, order: ByteOrder) -> (v: u32)
    requires
        at + 4 <= bytes@.len(),
    ensures
        v == u32_of_bytes(bytes@.subrange(at as int, at + 4), order),
{
    let a: u32 = bytes[at] as u32;
    let b: u32 = bytes[at + 1] as u32;
    let c: u32 = bytes[at + 2] as u32;
    let d: u32 = bytes[at + 3] as u32;
    match order {
        ByteOrder::Little => a + 256 * b + 65536 * c + 16777216 * d,
        ByteOrder::Big => d + 256 * c + 65536 * b + 16777216 * a,
    }
}

/// Reads the two bytes of `bytes` that start at `at`, in `order`.
pub fn get_u16(bytes: &[u8], at: usize, order: ByteOrder) -> (v: u16)
    requires
        at + 2 <= bytes@.len(),
    ensures
        v == u16_of_bytes(bytes@.subrange(at as int, at + 2), order),
{
    let a: u16 = bytes[at] as u16;
    let b: u16 = bytes[at + 1] as u16;
    match order {
        ByteOrder::Little => a + 256 * b,
        ByteOrder::Big => b + 256 * a,
    }
}

} // verus!
