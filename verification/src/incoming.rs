//! The inbound dispatcher: what the host asks of the guest.
//!
//! The host enters the guest through one function with an opcode and two
//! arguments. The functions here say what is asked and read the records that
//! the host wrote; the embedding program touches the memory.

use crate::data::{read_u32, le_u32, Pair};
use vstd::prelude::*;

verus! {

/// Asks for a region of the guest's heap.
pub const ALLOC: u32 = 0;

/// Gives a region of the guest's heap back.
pub const DEALLOC: u32 = 1;

/// Invokes a registered callback.
pub const CALLBACK: u32 = 2;

/// The answer to an opcode that the dispatcher does not know: -1 as a pointer.
pub const UNKNOWN: u32 = 0xFFFF_FFFF;

/// The length in bytes of the record that describes a callback's invocation.
pub const RECORD_LEN: usize = 12;

/// What the host asks with one entry into the dispatcher.
#[derive(Debug, Clone, Copy, PartialEq, Eq, Structural)]
pub enum Incoming {
    /// Allocate `size` bytes and answer with their address.
    Alloc { size: u32 },
    /// Release the region at `ptr` of `len` bytes and answer with null.
    Dealloc { ptr: u32, len: u32 },
    /// Invoke the callback that the record at `record` describes, and answer
    /// with the address of a fresh header for its result, or with null.
    Callback { record: u32 },
    /// Nothing that the guest knows: answer with [`UNKNOWN`] and touch no
    /// memory.
    Unknown,
}

/// What an entry into the dispatcher asks, by its opcode and arguments.
pub open spec fn decoded(op: u32, a: u32, b: u32) -> Incoming {
    if op == ALLOC {
        Incoming::Alloc { size: a }
    } else if op == DEALLOC {
        Incoming::Dealloc { ptr: a, len: b }
    } else if op == CALLBACK {
        Incoming::Callback { record: a }
    } else {
        Incoming::Unknown
    }
}

/// Routes one entry of the host into the guest.
pub fn incoming(op: u32, a: u32, b: u32) -> (asked: Incoming)
    ensures
        asked == decoded(op, a, b),
{
    match op {
        ALLOC => Incoming::Alloc { size: a },
        DEALLOC => Incoming::Dealloc { ptr: a, len: b },
        CALLBACK => Incoming::Callback { record: a },
        _ => Incoming::Unknown,
    }
}

/// The answer that the host gets once what it asked is done, where `made` is
/// the address that the work has made, if it made one: the region of an
/// allocation, or the header of a callback's result.
pub open spec fn answered(asked: Incoming, made: Option<u32>) -> u32 {
    match asked {
        Incoming::Alloc { .. } | Incoming::Callback { .. } => match made {
            Some(addr) => addr,
            None => 0,
        },
        Incoming::Dealloc { .. } => 0,
        Incoming::Unknown => UNKNOWN,
    }
}

/// The number that the dispatcher returns to the host: the address that the
/// work has made, null where it has made none or has released a region, and
/// [`UNKNOWN`] for an opcode that the guest does not know.
pub fn reply(asked: Incoming, made: Option<u32>) -> (answer: u32)
    ensures
        answer == answered(asked, made),
{
    match asked {
        Incoming::Alloc { .. } | Incoming::Callback { .. } => match made {
            Some(addr) => addr,
            None => 0,
        },
        Incoming::Dealloc { .. } => 0,
        Incoming::Unknown => UNKNOWN,
    }
}

/// The bytes of a region that was just allocated: `size` of them, all zero.
pub open spec fn fresh_region(size: usize) -> Seq<u8> {
    Seq::new(size as nat, |i: int| 0u8)
}

/// A fresh region of exactly `size` bytes, which the host will own. The
/// region is its own room: its length is the number of bytes that were asked
/// for, so whoever gets its address may write that many. The host is promised
/// nothing of what the bytes hold; they are zero.
pub fn allocate(size: usize) -> (region: Vec<u8>)
    requires
        size <= isize::MAX,
    ensures
        region@ == fresh_region(size),
{
    let region = vec![0u8; size];
    assert(region@ =~= fresh_region(size));
    region
}

/// The record of one invocation: which callback, and where the JSON text of
/// its argument lies. The guest owns both the record and that text.
#[derive(Debug, Clone, Copy, PartialEq, Eq, Structural)]
pub struct CallbackRecord {
    pub id: u32,
    pub args: Pair,
}

impl CallbackRecord {
    /// The record that twelve bytes hold: three little-endian words, the
    /// callback's id, then the address and the length of the argument.
    pub open spec fn of_bytes(bytes: Seq<u8>) -> CallbackRecord
        recommends
            bytes.len() == 12,
    {
        CallbackRecord {
            id: le_u32(bytes.subrange(0, 4)) as u32,
            args: Pair {
                ptr: le_u32(bytes.subrange(4, 8)) as u32,
                len: le_u32(bytes.subrange(8, 12)) as u32,
            },
        }
    }

    /// Reads a record out of the twelve bytes that the host wrote.
    pub fn from_bytes(bytes: &[u8]) -> (record: CallbackRecord)
        requires
            bytes@.len() == RECORD_LEN,
        ensures
            record == CallbackRecord::of_bytes(bytes@),
    {
        let id = read_u32(&bytes[0..4]);
        let ptr = read_u32(&bytes[4..8]);
        let len = read_u32(&bytes[8..12]);
        CallbackRecord { id, args: Pair { ptr, len } }
    }
}

/// The header that answers a callback's invocation: none where the callback
/// gave no value, else the eight bytes of the fat pointer of its result.
pub fn callback_reply(result: Option<Pair>) -> (header: Option<Vec<u8>>)
    ensures
        result is None ==> header is None,
        result matches Some(pair) ==> header matches Some(bytes) && bytes@ == pair.header(),
{
    match result {
        Some(pair) => Some(pair.into_bytes()),
        None => None,
    }
}

} // verus!
