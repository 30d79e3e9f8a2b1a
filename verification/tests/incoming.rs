use stasis::data::Pair;
use stasis::incoming::{
    allocate, callback_reply, incoming, reply, CallbackRecord, Incoming, ALLOC, CALLBACK, DEALLOC,
    RECORD_LEN, UNKNOWN,
};

#[test]
fn inbound_opcodes_are_fixed() {
    assert_eq!(ALLOC, 0);
    assert_eq!(DEALLOC, 1);
    assert_eq!(CALLBACK, 2);
    assert_eq!(UNKNOWN, (-1i32) as u32);
    assert_eq!(RECORD_LEN, 12);
}

#[test]
fn alloc_is_routed() {
    assert_eq!(incoming(0, 64, 0), Incoming::Alloc { size: 64 });
    assert_eq!(incoming(0, 0, 9), Incoming::Alloc { size: 0 });
}

#[test]
fn dealloc_is_routed() {
    assert_eq!(incoming(1, 0x1000, 24), Incoming::Dealloc { ptr: 0x1000, len: 24 });
}

#[test]
fn callback_is_routed() {
    assert_eq!(incoming(2, 0x2000, 0), Incoming::Callback { record: 0x2000 });
}

#[test]
fn unknown_opcode_is_refused() {
    assert_eq!(incoming(99, 1, 2), Incoming::Unknown);
    assert_eq!(incoming(3, 0, 0), Incoming::Unknown);
    assert_eq!(incoming(u32::MAX, 0, 0), Incoming::Unknown);
}

#[test]
fn allocate_gives_a_region_of_the_size() {
    let region = allocate(32);
    assert_eq!(region.len(), 32);
    assert!(region.capacity() >= 32);
    assert_eq!(region, vec![0u8; 32]);
    assert_eq!(allocate(1), vec![0u8]);
}

#[test]
fn allocate_of_nothing_is_empty() {
    assert!(allocate(0).is_empty());
}

#[test]
fn record_is_three_words() {
    let record = CallbackRecord::from_bytes(&[7, 0, 0, 0, 0x00, 0x10, 0, 0, 0x2A, 0, 0, 0]);
    assert_eq!(record, CallbackRecord { id: 7, args: Pair { ptr: 0x1000, len: 42 } });
}

#[test]
fn record_of_large_words() {
    let record = CallbackRecord::from_bytes(&[0xFF; 12]);
    assert_eq!(record, CallbackRecord { id: u32::MAX, args: Pair { ptr: u32::MAX, len: u32::MAX } });
}

#[test]
fn reply_to_a_callback() {
    assert_eq!(callback_reply(None), None);
    assert_eq!(
        callback_reply(Some(Pair { ptr: 0x0102_0304, len: 3 })),
        Some(vec![4, 3, 2, 1, 3, 0, 0, 0])
    );
}

#[test]
fn unknown_opcode_answers_minus_one() {
    let asked = incoming(99, 0, 0);
    assert_eq!(reply(asked, None), 0xFFFF_FFFF);
    assert_eq!(reply(asked, None) as i32, -1);
    assert_eq!(reply(asked, Some(16)), 0xFFFF_FFFF);
}

#[test]
fn dealloc_answers_null() {
    assert_eq!(reply(incoming(1, 64, 8), None), 0);
    assert_eq!(reply(incoming(1, 64, 8), Some(64)), 0);
}

#[test]
fn alloc_and_callback_answer_with_the_address() {
    assert_eq!(reply(incoming(0, 8, 0), Some(0x3000)), 0x3000);
    assert_eq!(reply(incoming(2, 0x2000, 0), Some(0x4000)), 0x4000);
    assert_eq!(reply(incoming(2, 0x2000, 0), None), 0);
}
