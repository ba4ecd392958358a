//! The wire record: the fixed-size unit that travels over a message queue.
//!
//! | offset | field                    | size |
//! |--------|--------------------------|------|
//! | 0      | reply queue id           | 4, signed   |
//! | 4      | sender process id        | 4, unsigned |
//! | 8      | application message type | 2, signed   |
//! | 10     | segment length and flag  | 1    |
//! | 11     | payload                  | 100  |
//!
//! Bit 7 of the byte at offset 10 marks the final segment of a message; its
//! low seven bits count the payload bytes that are meaningful.
use crate::endian::{
    bits_of_i16, bits_of_i32, get_u16, get_u32, i16_bits, i16_from_bits, i16_of_bits, i32_bits,
    i32_from_bits, i32_of_bits, lemma_bits_signed, lemma_signed_bits, lemma_u16_bytes_of_bytes,
    lemma_u16_round_trip, lemma_u32_bytes_of_bytes, lemma_u32_round_trip, put_u16, put_u32,
    u16_bytes, u16_of_bytes, u32_bytes, u32_of_bytes, ByteOrder,
};
use vstd::prelude::*;

verus! {

/// How many payload bytes one record can carry.
pub const PAYLOAD_CAPACITY: usize = 100;

/// The size of the fields that precede the payload.
pub const HEADER_SIZE: usize = 11;

/// The size of an encoded record.
pub const RECORD_SIZE: usize = 111;

/// The bit of the length byte that marks the final segment.
pub const FINAL_FLAG: u8 = 0x80;

/// The bits of the length byte that hold the segment length.
pub const LENGTH_MASK: u8 = 0x7f;

/// The reply queue id of a message that expects no reply.
pub const NO_REPLY: i32 = -1;

/// The message class under which every record is queued.
pub const TRANSPORT_TYPE_TAG: i64 = 0x7654;

/// A wire record as a mathematical value.
pub struct WireRecord {
    pub reply_queue_id: i32,
    pub sender_process_id: u32,
    pub message_type: i16,
    pub is_final: bool,
    pub payload: Seq<u8>,
}

/// `n` zero bytes.
pub open spec fn padding(n: nat) -> Seq<u8> {
    Seq::new(n, |i: int| 0u8)
}

impl WireRecord {
    /// The payload fits the record.
    pub open spec fn wf(self) -> bool {
        self.payload.len() <= PAYLOAD_CAPACITY
    }

    /// The byte at offset 10: the payload length, with bit 7 set on a final segment.
    pub open spec fn length_and_flag(self) -> u8 {
        if self.is_final {
            (self.payload.len() + 128) as u8
        } else {
            self.payload.len() as u8
        }
    }

    /// The eleven bytes that precede the payload.
    pub open spec fn header(self, order: ByteOrder) -> Seq<u8> {
        u32_bytes(i32_bits(self.reply_queue_id), order) + u32_bytes(self.sender_process_id, order)
            + u16_bytes(i16_bits(self.message_type), order) + seq![self.length_and_flag()]
    }

    /// The record as bytes: header, payload, zero padding up to the record size.
    pub open spec fn encode(self, order: ByteOrder) -> Seq<u8> {
        self.header(order) + self.payload + padding((PAYLOAD_CAPACITY - self.payload.len()) as nat)
    }

    /// Whether the sender waits for a reply.
    pub open spec fn expects_reply(self) -> bool {
        self.reply_queue_id != NO_REPLY
    }
}

/// The segment length that a length byte holds.
pub open spec fn length_of(byte: u8) -> nat {
    (byte % 128) as nat
}

/// Whether a length byte marks the final segment.
pub open spec fn final_of(byte: u8) -> bool {
    byte >= 128
}

/// The record that `bytes` encode, if they encode one: they must have the
/// record size and a segment length within the payload capacity.
pub open spec fn decode_record(bytes: Seq<u8>, order: ByteOrder) -> Option<WireRecord> {
    if bytes.len() != RECORD_SIZE || length_of(bytes[10]) > PAYLOAD_CAPACITY {
        None
    } else {
        Some(
            WireRecord {
                reply_queue_id: i32_of_bits(u32_of_bytes(bytes.subrange(0, 4), order)),
                sender_process_id: u32_of_bytes(bytes.subrange(4, 8), order),
                message_type: i16_of_bits(u16_of_bytes(bytes.subrange(8, 10), order)),
                is_final: final_of(bytes[10]),
                payload: bytes.subrange(11, 11 + length_of(bytes[10]) as int),
            },
        )
    }
}

/// An encoded record has the record size, and decodes to the record it was
/// made from.
pub proof fn lemma_encode_decode(r: WireRecord, order: ByteOrder)
    requires
        r.wf(),
    ensures
        r.encode(order).len() == RECORD_SIZE,
        decode_record(r.encode(order), order) == Some(r),
{
    let a = u32_bytes(i32_bits(r.reply_queue_id), order);
    let b = u32_bytes(r.sender_process_id, order);
    let c = u16_bytes(i16_bits(r.message_type), order);
    let bytes = r.encode(order);
    lemma_u32_round_trip(i32_bits(r.reply_queue_id), order);
    lemma_u32_round_trip(r.sender_process_id, order);
    lemma_u16_round_trip(i16_bits(r.message_type), order);
    lemma_signed_bits(r.reply_queue_id, r.message_type);
    assert(bytes.len() == 111);
    assert(bytes.subrange(0, 4) =~= a);
    assert(bytes.subrange(4, 8) =~= b);
    assert(bytes.subrange(8, 10) =~= c);
    assert(bytes[10] == r.length_and_flag());
    assert(length_of(bytes[10]) == r.payload.len());
    assert(final_of(bytes[10]) == r.is_final);
    assert(bytes.subrange(11, 11 + r.payload.len() as int) =~= r.payload);
}

/// Bytes that decode to a record, and whose unused payload bytes are zero,
/// are the encoding of that record.
pub proof fn lemma_decode_encode(bytes: Seq<u8>, order: ByteOrder)
    requires
        decode_record(bytes, order).is_some(),
        forall|i: int| 11 + length_of(bytes[10]) <= i < RECORD_SIZE ==> bytes[i] == 0,
    ensures
        decode_record(bytes, order).unwrap().wf(),
        decode_record(bytes, order).unwrap().encode(order) =~= bytes,
{
    let r = decode_record(bytes, order).unwrap();
    lemma_u32_bytes_of_bytes(bytes.subrange(0, 4), order);
    lemma_u32_bytes_of_bytes(bytes.subrange(4, 8), order);
    lemma_u16_bytes_of_bytes(bytes.subrange(8, 10), order);
    lemma_bits_signed(
        u32_of_bytes(bytes.subrange(0, 4), order),
        u16_of_bytes(bytes.subrange(8, 10), order),
    );
    assert(r.length_and_flag() == bytes[10]);
    let a = u32_bytes(i32_bits(r.reply_queue_id), order);
    let b = u32_bytes(r.sender_process_id, order);
    let c = u16_bytes(i16_bits(r.message_type), order);
    assert(a =~= bytes.subrange(0, 4));
    assert(b =~= bytes.subrange(4, 8));
    assert(c =~= bytes.subrange(8, 10));
    assert(r.header(order) =~= bytes.subrange(0, 11));
}

/// One wire record: the header fields and the meaningful payload bytes.
#[derive(Debug, PartialEq, Eq)]
pub struct WireMessage {
    reply_queue_id: i32,
    sender_process_id: u32,
    message_type: i16,
    is_final: bool,
    payload: Vec<u8>,
}

impl View for WireMessage {
    type V = WireRecord;

    closed spec fn view(&self) -> WireRecord {
        WireRecord {
            reply_queue_id: self.reply_queue_id,
            sender_process_id: self.sender_process_id,
            message_type: self.message_type,
            is_final: self.is_final,
            payload: self.payload@,
        }
    }
}

impl WireMessage {
    #[verifier::type_invariant]
    spec fn inv(&self) -> bool {
        self.payload@.len() <= PAYLOAD_CAPACITY
    }

    /// A record with the given fields, if the payload fits the capacity.
    pub fn new(
        reply_queue_id: i32,
        sender_process_id: u32,
        message_type: i16,
        is_final: bool,
        payload: Vec<u8>,
    ) -> (r: Option<WireMessage>)
        ensures
            r.is_some() <==> payload@.len() <= PAYLOAD_CAPACITY,
            r matches Some(m) ==> m@ == (WireRecord {
                reply_queue_id,
                sender_process_id,
                message_type,
                is_final,
                payload: payload@,
            }),
    {
        if payload.len() <= PAYLOAD_CAPACITY {
            Some(WireMessage { reply_queue_id, sender_process_id, message_type, is_final, payload })
        } else {
            None
        }
    }

    /// The queue on which the sender waits for a reply, or `NO_REPLY`.
    pub fn reply_queue_id(&self) -> (r: i32)
        ensures
            r == self@.reply_queue_id,
    {
        self.reply_queue_id
    }

    /// Whether the sender waits for a reply.
    pub fn expects_reply(&self) -> (r: bool)
        ensures
            r == self@.expects_reply(),
    {
        self.reply_queue_id != NO_REPLY
    }

    /// The process that sent the record.
    pub fn sender_process_id(&self) -> (r: u32)
        ensures
            r == self@.sender_process_id,
    {
        self.sender_process_id
    }

    /// The application's message type.
    pub fn application_message_type(&self) -> (r: i16)
        ensures
            r == self@.message_type,
    {
        self.message_type
    }

    /// Whether this is the final segment of its message.
    pub fn is_final(&self) -> (r: bool)
        ensures
            r == self@.is_final,
    {
        self.is_final
    }

    /// The meaningful payload bytes.
    pub fn payload(&self) -> (r: &[u8])
        ensures
            r@ == self@.payload,
            r@.len() <= PAYLOAD_CAPACITY,
    {
        proof {
            use_type_invariant(self);
        }
        self.payload.as_slice()
    }

    /// The number of meaningful payload bytes.
    pub fn segment_length(&self) -> (r: usize)
        ensures
            r == self@.payload.len(),
            r <= PAYLOAD_CAPACITY,
    {
        proof {
            use_type_invariant(self);
        }
        self.payload.len()
    }

    /// The byte at offset 10: the segment length in the low seven bits, the
    /// final flag in bit 7.
    pub fn segment_length_and_flag(&self) -> (r: u8)
        ensures
            r == self@.length_and_flag(),
            length_of(r) == self@.payload.len(),
            final_of(r) == self@.is_final,
    {
        proof {
            use_type_invariant(self);
        }
        let len: u8 = self.payload.len() as u8;
        if self.is_final {
            assert(len | 0x80 == len + 128) by (bit_vector)
                requires
                    len <= 100,
            ;
            len | FINAL_FLAG
        } else {
            len
        }
    }

    /// The record as bytes in the given byte order.
    pub fn encode(&self, order: ByteOrder) -> (bytes: Vec<u8>)
        ensures
            bytes@ == self@.encode(order),
            bytes@.len() == RECORD_SIZE,
    {
        proof {
            use_type_invariant(self);
            lemma_encode_decode(self@, order);
        }
        let mut out: Vec<u8> = Vec::with_capacity(RECORD_SIZE);
        put_u32(&mut out, bits_of_i32(self.reply_queue_id), order);
        put_u32(&mut out, self.sender_process_id, order);
        put_u16(&mut out, bits_of_i16(self.message_type), order);
        out.push(self.segment_length_and_flag());
        assert(out@ =~= self@.header(order));
        let n: usize = self.payload.len();
        let mut i: usize = 0;
        while i < n
            invariant
                n == self.payload@.len(),
                i <= n,
                out@ =~= self@.header(order) + self.payload@.subrange(0, i as int),
            decreases n - i,
        {
            out.push(self.payload[i]);
            i += 1;
        }
        assert(self.payload@.subrange(0, n as int) =~= self.payload@);
        let mut k: usize = n;
        while k < PAYLOAD_CAPACITY
            invariant
                n == self.payload@.len(),
                n <= k <= PAYLOAD_CAPACITY,
                out@ =~= self@.header(order) + self.payload@ + padding((k - n) as nat),
            decreases PAYLOAD_CAPACITY - k,
        {
            out.push(0u8);
            k += 1;
        }
        assert(out@ =~= self@.encode(order));
        out
    }

    /// The record that `bytes` hold in the given byte order. There is none
    /// where `bytes` has not the record size, or where the length byte counts
    /// more than the payload capacity.
    pub fn decode(bytes: &[u8], order: ByteOrder) -> (r: Option<WireMessage>)
        ensures
            r.is_some() == decode_record(bytes@, order).is_some(),
            r matches Some(m) ==> decode_record(bytes@, order) == Some(m@),
    {
        if bytes.len() != RECORD_SIZE {
            return None;
        }
        let tag: u8 = bytes[10];
        let len: u8 = tag & LENGTH_MASK;
        let is_final: bool = tag & FINAL_FLAG == FINAL_FLAG;
        assert(tag & 0x7f == tag % 128) by (bit_vector);
        assert((tag & 0x80 == 0x80) == (tag >= 128)) by (bit_vector);
        if len as usize > PAYLOAD_CAPACITY {
            return None;
        }
        let reply_queue_id: i32 = i32_from_bits(get_u32(bytes, 0, order));
        let sender_process_id: u32 = get_u32(bytes, 4, order);
        let message_type: i16 = i16_from_bits(get_u16(bytes, 8, order));
        let end: usize = HEADER_SIZE + len as usize;
        let mut payload: Vec<u8> = Vec::with_capacity(len as usize);
        let mut i: usize = HEADER_SIZE;
        while i < end
            invariant
                bytes@.len() == RECORD_SIZE,
                HEADER_SIZE <= i <= end <= RECORD_SIZE,
                payload@ =~= bytes@.subrange(HEADER_SIZE as int, i as int),
            decreases end - i,
        {
            payload.push(bytes[i]);
            i += 1;
        }
        Some(WireMessage { reply_queue_id, sender_process_id, message_type, is_final, payload })
    }
}

} // verus!
