//! Paging: a payload of any length is cut into segments of at most the
//! payload capacity, one wire record each. The last record carries the final
//! flag, and an empty payload still gives one (empty, final) record.
use crate::endian::ByteOrder;
use crate::wire::{decode_record, lemma_encode_decode, WireMessage, WireRecord, PAYLOAD_CAPACITY};
use vstd::prelude::*;

verus! {

/// The number of segments that a payload of `len` bytes is cut into: `len`
/// divided by the capacity, rounded up, and never less than one.
pub open spec fn segment_count(len: nat) -> nat {
    if len == 0 {
        1
    } else {
        ((len + PAYLOAD_CAPACITY - 1) / (PAYLOAD_CAPACITY as int)) as nat
    }
}

/// Where segment `i` of a payload of `len` bytes ends.
pub open spec fn segment_end(len: nat, i: int) -> int {
    if (i + 1) * PAYLOAD_CAPACITY <= len {
        (i + 1) * PAYLOAD_CAPACITY
    } else {
        len as int
    }
}

/// The bytes of segment `i` of `payload`.
pub open spec fn segment_bytes(payload: Seq<u8>, i: int) -> Seq<u8> {
    payload.subrange(i * PAYLOAD_CAPACITY, segment_end(payload.len(), i))
}

/// The headers that every record of one message shares.
pub struct Routing {
    pub reply_queue_id: i32,
    pub sender_process_id: u32,
    pub message_type: i16,
}

/// Record `i` of the message that carries `payload` under `routing`.
pub open spec fn segment(payload: Seq<u8>, routing: Routing, i: int) -> WireRecord {
    WireRecord {
        reply_queue_id: routing.reply_queue_id,
        sender_process_id: routing.sender_process_id,
        message_type: routing.message_type,
        is_final: i == segment_count(payload.len()) - 1,
        payload: segment_bytes(payload, i),
    }
}

/// The records of the message that carries `payload` under `routing`, in
/// the order in which they are sent.
pub open spec fn frames(payload: Seq<u8>, routing: Routing) -> Seq<WireRecord> {
    Seq::new(segment_count(payload.len()), |i: int| segment(payload, routing, i))
}

/// The records that a sequence of messages stands for.
pub open spec fn records(messages: Seq<WireMessage>) -> Seq<WireRecord> {
    Seq::new(messages.len(), |i: int| messages[i]@)
}

/// The payloads of `records`, one after the other.
pub open spec fn joined(records: Seq<WireRecord>) -> Seq<u8>
    decreases records.len(),
{
    if records.len() == 0 {
        Seq::empty()
    } else {
        joined(records.drop_last()) + records.last().payload
    }
}

/// The bounds of the segments: every segment but the last is full, the last
/// ends where the payload ends, and only an empty payload has an empty segment.
pub proof fn lemma_segment_bounds(len: nat, i: int)
    requires
        0 <= i < segment_count(len),
    ensures
        i * PAYLOAD_CAPACITY <= segment_end(len, i) <= len,
        segment_end(len, i) - i * PAYLOAD_CAPACITY <= PAYLOAD_CAPACITY,
        i < segment_count(len) - 1 ==> segment_end(len, i) == (i + 1) * PAYLOAD_CAPACITY,
        i == segment_count(len) - 1 ==> segment_end(len, i) == len,
        len > 0 ==> segment_end(len, i) > i * PAYLOAD_CAPACITY,
{
}

/// The segment count is the payload length divided by the capacity, rounded
/// up, with a minimum of one.
pub proof fn lemma_segment_count(len: nat)
    ensures
        segment_count(len) >= 1,
        len > 0 ==> (segment_count(len) - 1) * PAYLOAD_CAPACITY < len <= segment_count(len)
            * PAYLOAD_CAPACITY,
        len <= PAYLOAD_CAPACITY ==> segment_count(len) == 1,
{
}

/// Exactly the last record of a message carries the final flag, every record
/// fits the payload capacity, and every record before the last is full.
pub proof fn lemma_final_flag(payload: Seq<u8>, routing: Routing, i: int)
    requires
        0 <= i < frames(payload, routing).len(),
    ensures
        frames(payload, routing)[i].is_final <==> i == frames(payload, routing).len() - 1,
        frames(payload, routing)[i].wf(),
        frames(payload, routing)[i].length_and_flag() % 128 <= PAYLOAD_CAPACITY,
        !frames(payload, routing)[i].is_final ==> frames(payload, routing)[i].payload.len()
            == PAYLOAD_CAPACITY,
{
    lemma_segment_bounds(payload.len(), i);
}

/// Every record of a message comes through the wire unchanged: its bytes have
/// the record size and decode to the record again, in either byte order.
pub proof fn lemma_frame_on_the_wire(payload: Seq<u8>, routing: Routing, order: ByteOrder, i: int)
    requires
        0 <= i < frames(payload, routing).len(),
    ensures
        decode_record(frames(payload, routing)[i].encode(order), order) == Some(
            frames(payload, routing)[i],
        ),
{
    lemma_final_flag(payload, routing, i);
    lemma_encode_decode(frames(payload, routing)[i], order);
}

/// The payloads of the first `k` records of a message are the first bytes of
/// its payload, up to where record `k - 1` ends.
pub proof fn lemma_joined_prefix(payload: Seq<u8>, routing: Routing, k: int)
    requires
        0 <= k <= segment_count(payload.len()),
    ensures
        joined(frames(payload, routing).take(k)) =~= payload.subrange(
            0,
            if k == 0 {
                0
            } else {
                segment_end(payload.len(), k - 1)
            },
        ),
    decreases k,
{
    let all = frames(payload, routing);
    if k > 0 {
        lemma_joined_prefix(payload, routing, k - 1);
        lemma_segment_bounds(payload.len(), k - 1);
        if k > 1 {
            lemma_segment_bounds(payload.len(), k - 2);
        }
        assert(all.take(k).drop_last() =~= all.take(k - 1));
        assert(all.take(k).last() == segment(payload, routing, k - 1));
    }
}

/// The payloads of the records of a message, joined in order, are its payload.
pub proof fn lemma_joined_frames(payload: Seq<u8>, routing: Routing)
    ensures
        joined(frames(payload, routing)) =~= payload,
{
    let all = frames(payload, routing);
    let n = segment_count(payload.len()) as int;
    lemma_joined_prefix(payload, routing, n);
    lemma_segment_bounds(payload.len(), n - 1);
    assert(all.take(n) =~= all);
}

/// Cuts `payload` into the records of one message: segments of at most the
/// payload capacity, in order, the final flag on the last one only.
pub fn frame_message(
    payload: &[u8],
    message_type: i16,
    reply_queue_id: i32,
    sender_process_id: u32,
) -> (out: Vec<WireMessage>)
    ensures
        records(out@) == frames(
            payload@,
            Routing { reply_queue_id, sender_process_id, message_type },
        ),
        out@.len() == segment_count(payload@.len()),
{
    let ghost routing = Routing { reply_queue_id, sender_process_id, message_type };
    let len: usize = payload.len();
    let mut out: Vec<WireMessage> = Vec::new();
    let mut start: usize = 0;
    let mut done: bool = false;
    while !done
        invariant
            len == payload@.len(),
            routing == (Routing { reply_queue_id, sender_process_id, message_type }),
            out@.len() <= segment_count(len as nat),
            done <==> out@.len() == segment_count(len as nat),
            !done ==> start == out@.len() * PAYLOAD_CAPACITY,
            !done ==> start <= len,
            forall|j: int| 0 <= j < out@.len() ==> (#[trigger] out@[j])@ == segment(payload@, routing, j),
        decreases segment_count(len as nat) - out@.len(),
    {
        let ghost i: int = out@.len() as int;
        proof {
            lemma_segment_bounds(len as nat, i);
        }
        let rest: usize = len - start;
        let is_final: bool = rest <= PAYLOAD_CAPACITY;
        let end: usize = if is_final {
            len
        } else {
            start + PAYLOAD_CAPACITY
        };
        assert(end == segment_end(len as nat, i));
        assert(is_final <==> i == segment_count(len as nat) - 1);
        let chunk: Vec<u8> = copy_range(payload, start, end);
        let made = WireMessage::new(reply_queue_id, sender_process_id, message_type, is_final, chunk);
        match made {
            Some(message) => {
                out.push(message);
            },
            None => {
                assert(false);
            },
        }
        start = end;
        done = is_final;
    }
    assert(records(out@) =~= frames(payload@, routing));
    out
}

/// The bytes of `bytes` from `start` up to `end`.
pub fn copy_range(bytes: &[u8], start: usize, end: usize) -> (out: Vec<u8>)
    requires
        start <= end <= bytes@.len(),
    ensures
        out@ == bytes@.subrange(start as int, end as int),
{
    let mut out: Vec<u8> = Vec::with_capacity(end - start);
    let mut i: usize = start;
    while i < end
        invariant
            start <= i <= end <= bytes@.len(),
            out@ =~= bytes@.subrange(start as int, i as int),
        decreases end - i,
    {
        out.push(bytes[i]);
        i += 1;
    }
    out
}

} // verus!
