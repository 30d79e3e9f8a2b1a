//! Little-endian words and the fat-pointer header that crosses the ABI.

use vstd::prelude::*;

verus! {

/// The value of four bytes read as a little-endian word.
pub open spec fn le_u32(bytes: Seq<u8>) -> int
    recommends
        bytes.len() == 4,
{
    bytes[0] as int + bytes[1] as int * 0x100 + bytes[2] as int * 0x1_0000 + bytes[3] as int
        * 0x100_0000
}

/// The four bytes that hold `n` as a little-endian word.
pub open spec fn le_bytes(n: u32) -> Seq<u8> {
    seq![
        (n as int % 0x100) as u8,
        (n as int / 0x100 % 0x100) as u8,
        (n as int / 0x1_0000 % 0x100) as u8,
        (n as int / 0x100_0000) as u8,
    ]
}

/// Little-endian read of a `u32` from a slice of exactly four bytes.
pub fn read_u32(ptr: &[u8]) -> (n: u32)
    requires
        ptr@.len() == 4,
    ensures
        n as int == le_u32(ptr@),
{
    let b0: u32 = ptr[0] as u32;
    let b1: u32 = ptr[1] as u32;
    let b2: u32 = ptr[2] as u32;
    let b3: u32 = ptr[3] as u32;
    assert(b1 << 8 == b1 * 0x100 && b2 << 16 == b2 * 0x1_0000 && b3 << 24 == b3 * 0x100_0000)
        by (bit_vector)
        requires
            b1 < 0x100 && b2 < 0x100 && b3 < 0x100,
    ;
    b0 + (b1 << 8) + (b2 << 16) + (b3 << 24)
}

/// Little-endian write of a `u32` into a slice of exactly four bytes.
pub fn write_u32(ptr: &mut [u8], n: u32)
    requires
        old(ptr)@.len() == 4,
    ensures
        final(ptr)@ == le_bytes(n),
{
    assert((n & 0xFF) == n % 0x100 && ((n & 0xFF00) >> 8) == n / 0x100 % 0x100 && ((n & 0xFF0000)
        >> 16) == n / 0x1_0000 % 0x100 && ((n & 0xFF000000) >> 24) == n / 0x100_0000 && n
        / 0x100_0000 < 0x100) by (bit_vector);
    ptr[0] = (n & 0xFF) as u8;
    ptr[1] = ((n & 0xFF00) >> 8) as u8;
    ptr[2] = ((n & 0xFF0000) >> 16) as u8;
    ptr[3] = ((n & 0xFF000000) >> 24) as u8;
    assert(ptr@ =~= le_bytes(n));
}

/// Writing a word and reading it back gives the word.
pub proof fn lemma_read_after_write(n: u32)
    ensures
        le_bytes(n).len() == 4,
        le_u32(le_bytes(n)) == n as int,
{
}

/// Four bytes are the little-endian form of the word that they read as.
pub proof fn lemma_write_after_read(bytes: Seq<u8>)
    requires
        bytes.len() == 4,
    ensures
        0 <= le_u32(bytes) <= u32::MAX,
        le_bytes(le_u32(bytes) as u32) == bytes,
{
    let b0: u32 = bytes[0] as u32;
    let b1: u32 = bytes[1] as u32;
    let b2: u32 = bytes[2] as u32;
    let b3: u32 = bytes[3] as u32;
    let n: u32 = (b0 + b1 * 0x100 + b2 * 0x1_0000 + b3 * 0x100_0000) as u32;
    assert(n % 0x100 == b0 && n / 0x100 % 0x100 == b1 && n / 0x1_0000 % 0x100 == b2 && n
        / 0x100_0000 == b3) by (bit_vector)
        requires
            b0 < 0x100 && b1 < 0x100 && b2 < 0x100 && b3 < 0x100,
            n == b0 + b1 * 0x100 + b2 * 0x1_0000 + b3 * 0x100_0000,
    ;
    assert(le_bytes(n) =~= bytes);
}

/// A fat pointer: the address of the first byte of an owned region of the
/// guest's heap, and the number of bytes in it.
///
/// Whoever receives the pair owns the region and must release it with exactly
/// this address and length.
#[derive(Debug, Clone, Copy, PartialEq, Eq, Structural)]
pub struct Pair {
    pub ptr: u32,
    pub len: u32,
}

impl Pair {
    /// The eight-byte header of the pair: the address, then the length.
    pub open spec fn header(self) -> Seq<u8> {
        le_bytes(self.ptr) + le_bytes(self.len)
    }

    /// The pair that an eight-byte header holds.
    pub open spec fn of_header(header: Seq<u8>) -> Pair
        recommends
            header.len() == 8,
    {
        Pair {
            ptr: le_u32(header.subrange(0, 4)) as u32,
            len: le_u32(header.subrange(4, 8)) as u32,
        }
    }

    /// A pair of the given address and length.
    pub fn new(ptr: u32, len: u32) -> (pair: Pair)
        ensures
            pair == (Pair { ptr, len }),
    {
        Pair { ptr, len }
    }

    /// Reads the pair out of the eight bytes of a header.
    pub fn from_bytes(header: &[u8]) -> (pair: Pair)
        requires
            header@.len() == 8,
        ensures
            pair == Pair::of_header(header@),
    {
        let ptr = read_u32(&header[0..4]);
        let len = read_u32(&header[4..8]);
        Pair { ptr, len }
    }

    /// Writes the pair as a fresh eight-byte header.
    pub fn into_bytes(self) -> (bytes: Vec<u8>)
        ensures
            bytes@ == self.header(),
            bytes@.len() == 8,
    {
        let mut bytes: Vec<u8> = Vec::with_capacity(8);
        for i in 0..8usize
            invariant
                bytes@.len() == i,
        {
            bytes.push(0);
        }
        let (low, high) = bytes.as_mut_slice().split_at_mut(4);
        write_u32(low, self.ptr);
        write_u32(high, self.len);
        assert(bytes@ =~= self.header());
        bytes
    }
}

/// A header that was written from a pair reads back as that pair.
pub proof fn lemma_header_round_trip(pair: Pair)
    ensures
        pair.header().len() == 8,
        Pair::of_header(pair.header()) == pair,
{
    assert(pair.header().subrange(0, 4) =~= le_bytes(pair.ptr));
    assert(pair.header().subrange(4, 8) =~= le_bytes(pair.len));
    lemma_read_after_write(pair.ptr);
    lemma_read_after_write(pair.len);
}

/// Eight bytes are the header of the pair that they read as.
pub proof fn lemma_header_of_pair(header: Seq<u8>)
    requires
        header.len() == 8,
    ensures
        Pair::of_header(header).header() == header,
{
    let low = header.subrange(0, 4);
    let high = header.subrange(4, 8);
    lemma_write_after_read(low);
    lemma_write_after_read(high);
    assert(low + high =~= header);
}

} // verus!
