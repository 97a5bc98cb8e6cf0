//! Raw events as the service queues them, and how their bytes are read.

use vstd::prelude::*;

use crate::{CallHandle, CallbackId};

verus! {

/// The kind that marks an event as the completion of an asynchronous call.
pub const CALL_COMPLETED: CallbackId = 703;

/// Size in bytes of the record carried by a call-completed event.
pub const CALL_COMPLETED_SIZE: usize = 16;

/// One event taken from the service's queue.
///
/// `byte_length` is the payload size the service declared; `payload` holds
/// the bytes that actually came with the event.
#[derive(Clone, Debug)]
pub struct RawEvent {
    pub kind: CallbackId,
    pub payload: Vec<u8>,
    pub byte_length: i32,
}

/// A raw event as a mathematical value.
pub ghost struct EventModel {
    pub kind: CallbackId,
    pub payload: Seq<u8>,
    pub byte_length: i32,
}

impl View for RawEvent {
    type V = EventModel;

    open spec fn view(&self) -> EventModel {
        EventModel { kind: self.kind, payload: self.payload@, byte_length: self.byte_length }
    }
}

/// The record inside a call-completed event: which call finished, the kind
/// of its result and the size of that result.
#[derive(Clone, Copy, Debug, PartialEq, Eq, Structural)]
pub struct CallCompleted {
    pub call_handle: CallHandle,
    pub kind: CallbackId,
    pub byte_length: u32,
}

/// What an event turns out to be once its framing has been checked.
#[derive(Clone, Copy, Debug, PartialEq, Eq, Structural)]
pub enum EventClass {
    /// The completion of an asynchronous call.
    Completion(CallCompleted),
    /// An ordinary event of the given kind.
    Notification(CallbackId),
    /// The bytes do not match what the event declares.
    Undecodable,
}

/// 256 to the power `n`.
pub open spec fn pow256(n: nat) -> nat
    decreases n,
{
    if n == 0 {
        1
    } else {
        256 * pow256((n - 1) as nat)
    }
}

/// The number that `bytes` spell in little-endian order.
pub open spec fn le_value(bytes: Seq<u8>) -> nat
    decreases bytes.len(),
{
    if bytes.len() == 0 {
        0
    } else {
        bytes[0] as nat + 256 * le_value(bytes.skip(1))
    }
}

/// The signed 32-bit number whose two's-complement pattern is `bits`.
pub open spec fn signed32(bits: nat) -> int {
    if bits < 0x8000_0000 {
        bits as int
    } else {
        bits - 0x1_0000_0000
    }
}

/// The completion record that `payload` holds: present exactly when the
/// payload has the record's size.
pub open spec fn completion_of(payload: Seq<u8>) -> Option<CallCompleted> {
    if payload.len() == CALL_COMPLETED_SIZE {
        Some(
            CallCompleted {
                call_handle: le_value(payload.subrange(0, 8)) as u64,
                kind: signed32(le_value(payload.subrange(8, 12))) as i32,
                byte_length: le_value(payload.subrange(12, 16)) as u32,
            },
        )
    } else {
        None
    }
}

impl EventModel {
    /// The declared length agrees with the bytes that came.
    pub open spec fn well_framed(self) -> bool {
        self.payload.len() == self.byte_length
    }

    /// What the event is, going by its framing, its kind and its bytes.
    pub open spec fn class(self) -> EventClass {
        if !self.well_framed() {
            EventClass::Undecodable
        } else if self.kind == CALL_COMPLETED {
            match completion_of(self.payload) {
                Some(call) => EventClass::Completion(call),
                None => EventClass::Undecodable,
            }
        } else {
            EventClass::Notification(self.kind)
        }
    }
}

/// A little-endian number of `n` bytes is below 256 to the `n`.
pub proof fn lemma_le_value_bound(bytes: Seq<u8>)
    ensures
        le_value(bytes) < pow256(bytes.len()),
    decreases bytes.len(),
{
    if bytes.len() > 0 {
        lemma_le_value_bound(bytes.skip(1));
    }
}

/// The values of `pow256` at the widths the records use.
pub proof fn lemma_pow256_widths()
    ensures
        pow256(4) == 0x1_0000_0000,
        pow256(8) == 0x1_0000_0000_0000_0000,
{
    reveal_with_fuel(pow256, 9);
}

/// Reads `width` bytes of `bytes`, starting at `start`, as one
/// little-endian number.
pub fn read_le(bytes: &Vec<u8>, start: usize, width: usize) -> (value: u64)
    requires
        width <= 8,
        start + width <= bytes.len(),
    ensures
        value == le_value(bytes@.subrange(start as int, start + width)),
{
    let mut value: u64 = 0;
    let mut left: usize = width;
    let ghost end = start + width;
    while left > 0
        invariant
            left <= width <= 8,
            end == start + width,
            end <= bytes.len(),
            value == le_value(bytes@.subrange(start + left, end)),
        decreases left,
    {
        left = left - 1;
        let ghost tail = bytes@.subrange(start + left + 1, end);
        let ghost whole = bytes@.subrange(start + left, end);
        proof {
            assert(whole.skip(1) =~= tail);
            assert(whole[0] == bytes@[start + left]);
            lemma_le_value_bound(tail);
            lemma_le_value_bound(whole);
            lemma_pow256_monotonic(whole.len(), 8);
            lemma_pow256_widths();
        }
        value = value * 256 + bytes[start + left] as u64;
    }
    value
}

/// `pow256` grows with its argument.
pub proof fn lemma_pow256_monotonic(a: nat, b: nat)
    requires
        a <= b,
    ensures
        pow256(a) <= pow256(b),
    decreases b,
{
    if a < b {
        lemma_pow256_monotonic(a, (b - 1) as nat);
    }
}

/// Reads the record of a call-completed event from its payload.
pub fn decode_call_completed(payload: &Vec<u8>) -> (record: Option<CallCompleted>)
    ensures
        record == completion_of(payload@),
{
    if payload.len() != CALL_COMPLETED_SIZE {
        return None;
    }
    let call_handle = read_le(payload, 0, 8);
    let kind_bits = read_le(payload, 8, 4);
    let length_bits = read_le(payload, 12, 4);
    proof {
        lemma_le_value_bound(payload@.subrange(8, 12));
        lemma_le_value_bound(payload@.subrange(12, 16));
        lemma_pow256_widths();
    }
    let kind: i32 = if kind_bits < 0x8000_0000 {
        kind_bits as i32
    } else {
        (kind_bits as i64 - 0x1_0000_0000) as i32
    };
    Some(CallCompleted { call_handle, kind, byte_length: length_bits as u32 })
}

impl RawEvent {
    /// Checks the event's framing and tells what it is.
    pub fn classify(&self) -> (class: EventClass)
        ensures
            class == self@.class(),
    {
        if self.byte_length < 0 || self.payload.len() != self.byte_length as usize {
            EventClass::Undecodable
        } else if self.kind == CALL_COMPLETED {
            match decode_call_completed(&self.payload) {
                Some(call) => EventClass::Completion(call),
                None => EventClass::Undecodable,
            }
        } else {
            EventClass::Notification(self.kind)
        }
    }
}

} // verus!
