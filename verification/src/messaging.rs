//! The two ends of an exchange: the channel on which requests are sent to the
//! daemon, and the private channel on which one reply comes back.
//!
//! The queues themselves belong to the operating system. This module decides
//! what is asked of it and what its answers mean: which key and flags open a
//! queue, which records make up a message, and what the records of a reply
//! amount to. A status of `-1` is the operating system's refusal.
use crate::endian::{i32_from_bits, i32_of_bits, ByteOrder};
use crate::error::CoreError;
use crate::paging::{frame_message, frames, records, Routing};
use crate::reassembly::{reassemble, run, start, Assembly, Reassembly};
use crate::response::{decode_response, json_string_member, payload_text};
use crate::wire::{decode_record, WireMessage, WireRecord, NO_REPLY, PAYLOAD_CAPACITY};
use vstd::prelude::*;
use vstd::utf8::{decode_utf8, valid_utf8};

verus! {

/// The status with which the operating system refuses a call.
pub const REFUSED: i32 = -1;

/// The flag that has a queue created where there is none.
pub const IPC_CREAT: i32 = 0o1000;

/// The command that removes a queue.
pub const IPC_RMID: i32 = 0;

/// Read and write access for the owner, the group and everyone else.
pub const QUEUE_MODE: u16 = 0o666;

/// The seed that, together with the path of the pid file, makes the key of
/// the daemon's queue.
pub const PROJECT_SEED: u8 = 0x50;

/// A kind of request: its type on the wire, and whether a reply is awaited.
pub trait MessageHandler {
    fn type_id() -> i16;

    fn expect_response() -> bool;
}

/// The flags with which a queue is opened: the permission bits of `mode`,
/// and the flag that creates the queue where there is none.
pub open spec fn spec_open_flags(mode: u16) -> i32 {
    (mode % 512 + IPC_CREAT) as i32
}

/// The flags with which a queue is opened: the permission bits of `mode`,
/// and the flag that creates the queue where there is none.
pub fn open_flags(mode: u16) -> (flags: i32)
    ensures
        flags == spec_open_flags(mode),
{
    let bits: u16 = mode & 0o777;
    assert(bits == mode % 512) by (bit_vector)
        requires
            bits == mode & 0o777,
    ;
    let flags: i32 = bits as i32;
    assert(flags | 0o1000 == flags + 0o1000) by (bit_vector)
        requires
            0 <= flags < 512,
    ;
    flags | IPC_CREAT
}

/// The key of the private reply queue of the process `pid`: the process id
/// itself, read as a signed number.
pub fn reply_queue_key(pid: u32) -> (key: i32)
    ensures
        key == i32_of_bits(pid),
{
    i32_from_bits(pid)
}

/// The path as a C string, if it can be one: the bytes of the path and a
/// closing zero byte. A path that holds a zero byte cannot.
pub open spec fn spec_c_path(path: Seq<u8>) -> Option<Seq<u8>> {
    if path.contains(0u8) {
        None
    } else {
        Some(path + seq![0u8])
    }
}

/// The C string of a path names that path and no other: two paths that give
/// the same C string are the same path.
pub proof fn lemma_c_path_names_one_path(a: Seq<u8>, b: Seq<u8>)
    requires
        spec_c_path(a) is Some,
        spec_c_path(a) == spec_c_path(b),
    ensures
        a == b,
{
    let ca = a + seq![0u8];
    let cb = b + seq![0u8];
    assert(ca.drop_last() =~= a);
    assert(cb.drop_last() =~= b);
}

/// The canonical path of the pid file as the C string from which the key of
/// the daemon's queue is made. `canonical` is the path in absolute form, free
/// of symbolic links, or nothing where it could not be brought into that
/// form.
pub fn resolve_queue_path(canonical: Option<&[u8]>) -> (r: Result<Vec<u8>, CoreError>)
    ensures
        match canonical {
            Some(path) => match spec_c_path(path@) {
                Some(c_path) => r matches Ok(bytes) && bytes@ == c_path,
                None => r == Err::<Vec<u8>, CoreError>(CoreError::PathResolution),
            },
            None => r == Err::<Vec<u8>, CoreError>(CoreError::PathResolution),
        },
{
    match canonical {
        None => Err(CoreError::PathResolution),
        Some(path) => {
            let n: usize = path.len();
            let mut out: Vec<u8> = Vec::with_capacity(n);
            let mut i: usize = 0;
            while i < n
                invariant
                    canonical == Some(path),
                    n == path@.len(),
                    i <= n,
                    out@ =~= path@.subrange(0, i as int),
                    !path@.subrange(0, i as int).contains(0u8),
                decreases n - i,
            {
                if path[i] == 0 {
                    assert(path@[i as int] == 0u8);
                    assert(path@.contains(0u8));
                    return Err(CoreError::PathResolution);
                }
                out.push(path[i]);
                proof {
                    let before = path@.subrange(0, i as int);
                    let after = path@.subrange(0, i + 1);
                    assert(after =~= before.push(path@[i as int]));
                    assert forall|k: int| 0 <= k < after.len() implies after[k] != 0u8 by {
                        if k < i {
                            assert(before[k] == after[k]);
                            assert(before.contains(before[k]));
                        }
                    }
                }
                i += 1;
            }
            assert(path@.subrange(0, n as int) =~= path@);
            out.push(0u8);
            Ok(out)
        },
    }
}

/// The channel on which requests are sent to the daemon.
#[derive(Debug, PartialEq, Eq)]
pub struct MessageChannel {
    msq_id: i32,
}

/// The private channel on which the reply to one request comes back.
#[derive(Debug, PartialEq, Eq)]
pub struct ResponseChannel {
    response_chan: i32,
}

/// The channel to the daemon, given what the operating system answered when
/// it was asked to open or create the queue: the id of the queue, or `-1`
/// with the `reason` for which it refused.
pub fn open_message_channel(opened: i32, reason: String) -> (r: Result<MessageChannel, CoreError>)
    ensures
        opened != REFUSED ==> (r matches Ok(channel) && channel.id() == opened),
        opened == REFUSED ==> r == Err::<MessageChannel, CoreError>(CoreError::QueueOpen(reason)),
{
    if opened == REFUSED {
        Err(CoreError::QueueOpen(reason))
    } else {
        Ok(MessageChannel { msq_id: opened })
    }
}

/// The private reply channel, given what the operating system answered when
/// it was asked to open or create the queue under the key of the requesting
/// process: the id of the queue, or `-1` with the `reason` for which it
/// refused.
pub fn create_receive_channel(opened: i32, reason: String) -> (r: Result<
    ResponseChannel,
    CoreError,
>)
    ensures
        opened != REFUSED ==> (r matches Ok(channel) && channel.id() == opened),
        opened == REFUSED ==> r == Err::<ResponseChannel, CoreError>(CoreError::QueueOpen(reason)),
{
    if opened == REFUSED {
        Err(CoreError::QueueOpen(reason))
    } else {
        Ok(ResponseChannel { response_chan: opened })
    }
}

/// The reply queue id that the records of a message carry: the id of the
/// reply channel, or `NO_REPLY` where there is none.
pub open spec fn reply_id(reply: Option<&ResponseChannel>) -> i32 {
    match reply {
        Some(channel) => channel.id(),
        None => NO_REPLY,
    }
}

/// The records of a message whose kind has the type `type_id` and awaits a
/// reply or not: where it awaits none, the records name no reply queue.
pub open spec fn frames_of_kind(
    payload: Seq<u8>,
    type_id: i16,
    awaited: bool,
    reply_queue_id: i32,
    sender_process_id: u32,
) -> Seq<WireRecord> {
    frames(
        payload,
        Routing {
            reply_queue_id: if awaited {
                reply_queue_id
            } else {
                NO_REPLY
            },
            sender_process_id,
            message_type: type_id,
        },
    )
}

impl MessageChannel {
    #[verifier::type_invariant]
    spec fn inv(&self) -> bool {
        self.msq_id != REFUSED
    }

    /// The id of the queue.
    pub closed spec fn id(&self) -> i32 {
        self.msq_id
    }

    /// The id of the queue, which the operating system gave and never is `-1`.
    pub fn queue_id(&self) -> (id: i32)
        ensures
            id == self.id(),
            id != REFUSED,
    {
        proof {
            use_type_invariant(self);
        }
        self.msq_id
    }

    /// The one record that carries the segment `msg`, as the bytes that go
    /// onto the queue.
    pub fn send_paged_message(
        &self,
        type_id: i16,
        receive_chan: i32,
        sender_process_id: u32,
        msg: &[u8],
        fin: bool,
        order: ByteOrder,
    ) -> (r: Option<Vec<u8>>)
        ensures
            r.is_some() <==> msg@.len() <= PAYLOAD_CAPACITY,
            r matches Some(bytes) ==> bytes@ == (WireRecord {
                reply_queue_id: receive_chan,
                sender_process_id,
                message_type: type_id,
                is_final: fin,
                payload: msg@,
            }).encode(order),
    {
        let payload = crate::paging::copy_range(msg, 0, msg.len());
        assert(msg@.subrange(0, msg@.len() as int) =~= msg@);
        match WireMessage::new(receive_chan, sender_process_id, type_id, fin, payload) {
            Some(message) => Some(message.encode(order)),
            None => None,
        }
    }

    /// The records of the message that carries `payload`: its segments in
    /// order, each with the given type, the id of the reply channel (or
    /// `NO_REPLY`) and the sender's process id, the last one final.
    pub fn plan_message(
        &self,
        payload: &[u8],
        type_id: i16,
        reply: Option<&ResponseChannel>,
        sender_process_id: u32,
    ) -> (out: Vec<WireMessage>)
        ensures
            records(out@) == frames(
                payload@,
                Routing {
                    reply_queue_id: reply_id(reply),
                    sender_process_id,
                    message_type: type_id,
                },
            ),
    {
        let reply_queue_id: i32 = match reply {
            Some(channel) => channel.queue_id(),
            None => NO_REPLY,
        };
        frame_message(payload, type_id, reply_queue_id, sender_process_id)
    }

    /// The records of a message of the kind `T` that carries `payload`. The
    /// kind gives the type; where it awaits no reply, the records name no
    /// reply queue, whatever `reply` is.
    pub fn send_message<T: MessageHandler>(
        &self,
        payload: &[u8],
        reply: Option<&ResponseChannel>,
        sender_process_id: u32,
    ) -> (out: Vec<WireMessage>)
        ensures
            exists|type_id: i16, awaited: bool|
                records(out@) == #[trigger] frames_of_kind(
                    payload@,
                    type_id,
                    awaited,
                    reply_id(reply),
                    sender_process_id,
                ),
    {
        let type_id: i16 = T::type_id();
        let awaited: bool = T::expect_response();
        let out = if awaited {
            self.plan_message(payload, type_id, reply, sender_process_id)
        } else {
            self.plan_message(payload, type_id, None, sender_process_id)
        };
        assert(records(out@) == frames_of_kind(
            payload@,
            type_id,
            awaited,
            reply_id(reply),
            sender_process_id,
        ));
        out
    }

    /// What pushing one record came to: `status` is what the operating system
    /// answered, `-1` with the `reason` where it refused.
    pub fn pushed(&self, status: i32, reason: String) -> (r: Result<(), CoreError>)
        ensures
            status != REFUSED ==> r == Ok::<(), CoreError>(()),
            status == REFUSED ==> r == Err::<(), CoreError>(CoreError::Send(reason)),
    {
        if status == REFUSED {
            Err(CoreError::Send(reason))
        } else {
            Ok(())
        }
    }
}

/// Whether `r` is what the reply `text` amounts to, given what came of
/// reading it as the expected result.
pub open spec fn is_outcome<R>(
    text: Seq<char>,
    expected: Result<R, String>,
    r: Result<R, CoreError>,
) -> bool {
    match expected {
        Ok(value) => r == Ok::<R, CoreError>(value),
        Err(detail) => match json_string_member(text, "error"@) {
            Some(message) => r matches Err(CoreError::Server(m)) && m@ == message,
            None => r == Err::<R, CoreError>(CoreError::Protocol(detail)),
        },
    }
}

/// Whether `r` is the reply that a reassembly in the given state holds, with
/// `parse` to read its text as the expected result: none while the final
/// segment is missing, and none where the payload is no UTF-8 text.
pub open spec fn is_reply<R, F: FnOnce(&str) -> Result<R, String>>(
    state: Assembly,
    parse: F,
    r: Result<R, CoreError>,
) -> bool {
    match state {
        Assembly::Collecting(_) => r == Err::<R, CoreError>(CoreError::Incomplete),
        Assembly::Done(bytes) => if valid_utf8(bytes) {
            exists|text: &str, expected: Result<R, String>|
                text@ == decode_utf8(bytes) && #[trigger] parse.ensures((text,), expected)
                    && is_outcome(text@, expected, r)
        } else {
            r == Err::<R, CoreError>(CoreError::Decode)
        },
    }
}

impl ResponseChannel {
    #[verifier::type_invariant]
    spec fn inv(&self) -> bool {
        self.response_chan != REFUSED
    }

    /// The id of the queue.
    pub closed spec fn id(&self) -> i32 {
        self.response_chan
    }

    /// The id of the queue, which the operating system gave and never is `-1`.
    pub fn queue_id(&self) -> (id: i32)
        ensures
            id == self.id(),
            id != REFUSED,
            id != NO_REPLY,
    {
        proof {
            use_type_invariant(self);
        }
        self.response_chan
    }

    /// What pulling one record came to: `status` is what the operating system
    /// answered, `-1` with the `reason` where it refused, and `record` holds
    /// the bytes that it delivered.
    pub fn pulled(&self, status: i64, record: &[u8], order: ByteOrder, reason: String) -> (r:
        Result<WireMessage, CoreError>)
        ensures
            status == REFUSED ==> r == Err::<WireMessage, CoreError>(CoreError::Receive(reason)),
            status != REFUSED ==> match decode_record(record@, order) {
                Some(decoded) => r matches Ok(message) && message@ == decoded,
                None => r == Err::<WireMessage, CoreError>(CoreError::Malformed),
            },
    {
        if status == -1 {
            return Err(CoreError::Receive(reason));
        }
        match WireMessage::decode(record, order) {
            Some(message) => Ok(message),
            None => Err(CoreError::Malformed),
        }
    }

    /// The reply that a finished reassembly holds. The payload is read as
    /// UTF-8 text; `parse` reads the text as the expected result, and only
    /// where it fails is the text read as an error reply of the daemon. A
    /// reassembly that has not seen its final segment holds no reply.
    pub fn receive_assembled<R, F: FnOnce(&str) -> Result<R, String>>(
        &self,
        state: Reassembly,
        parse: F,
    ) -> (r: Result<R, CoreError>)
        requires
            forall|text: &str| parse.requires((text,)),
        ensures
            is_reply(state@, parse, r),
    {
        match state.into_payload() {
            None => Err(CoreError::Incomplete),
            Some(bytes) => match payload_text(bytes) {
                Err(_) => Err(CoreError::Decode),
                Ok(owned) => {
                    let text: &str = owned.as_str();
                    let expected = parse(text);
                    let ghost seen = expected;
                    let r = decode_response(text, expected);
                    assert(parse.ensures((text,), seen) && is_outcome(text@, seen, r));
                    r
                },
            },
        }
    }

    /// The reply that `segments` carry. They are reassembled in order up to
    /// the first final one; the payload is read as UTF-8 text; `parse` reads
    /// the text as the expected result, and only where it fails is the text
    /// read as an error reply of the daemon.
    pub fn receive_message<R, F: FnOnce(&str) -> Result<R, String>>(
        &self,
        segments: &[WireMessage],
        parse: F,
    ) -> (r: Result<R, CoreError>)
        requires
            forall|text: &str| parse.requires((text,)),
        ensures
            is_reply(run(start(), records(segments@)), parse, r),
    {
        self.receive_assembled(reassemble(segments), parse)
    }

    /// What removing the queue came to: `status` is what the operating system
    /// answered, `-1` with the `reason` where it refused. Either way the
    /// channel is given up.
    pub fn close(self, status: i32, reason: String) -> (r: Result<(), CoreError>)
        ensures
            status != REFUSED ==> r == Ok::<(), CoreError>(()),
            status == REFUSED ==> r == Err::<(), CoreError>(CoreError::Close(reason)),
    {
        if status == REFUSED {
            Err(CoreError::Close(reason))
        } else {
            Ok(())
        }
    }
}

} // verus!
