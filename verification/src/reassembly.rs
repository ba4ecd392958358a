//! Reassembly of a paged message, one wire record at a time.
//!
//! The receiver starts out collecting with an empty buffer. Each record
//! appends its payload; the record with the final flag completes the message.
//! What arrives after that belongs to no message and changes nothing.
use crate::paging::{
    frames, joined, lemma_joined_prefix, lemma_segment_bounds, records, segment_count, Routing,
};
use crate::wire::{WireMessage, WireRecord};
use vstd::prelude::*;

verus! {

/// The state of a reassembly as a mathematical value.
pub enum Assembly {
    /// No final segment was seen yet; the bytes so far.
    Collecting(Seq<u8>),
    /// The final segment was seen; the whole payload.
    Done(Seq<u8>),
}

/// The state before any record was seen.
pub open spec fn start() -> Assembly {
    Assembly::Collecting(Seq::empty())
}

/// The state after one more record.
pub open spec fn step(state: Assembly, record: WireRecord) -> Assembly {
    match state {
        Assembly::Collecting(buffer) => if record.is_final {
            Assembly::Done(buffer + record.payload)
        } else {
            Assembly::Collecting(buffer + record.payload)
        },
        Assembly::Done(bytes) => Assembly::Done(bytes),
    }
}

/// The state after the given records, taken in order.
pub open spec fn run(state: Assembly, records: Seq<WireRecord>) -> Assembly
    decreases records.len(),
{
    if records.len() == 0 {
        state
    } else {
        step(run(state, records.drop_last()), records.last())
    }
}

/// As long as no record of a run carries the final flag, the run is still
/// collecting, and holds the payloads joined in order.
pub proof fn lemma_run_collecting(records: Seq<WireRecord>)
    requires
        forall|i: int| 0 <= i < records.len() ==> !(#[trigger] records[i]).is_final,
    ensures
        run(start(), records) == Assembly::Collecting(joined(records)),
    decreases records.len(),
{
    if records.len() > 0 {
        let init = records.drop_last();
        assert forall|i: int| 0 <= i < init.len() implies !(#[trigger] init[i]).is_final by {
            assert(init[i] == records[i]);
        }
        lemma_run_collecting(init);
    }
}

/// Where only the last record of a run carries the final flag, the run is
/// done, and holds the payloads joined in order.
pub proof fn lemma_run_done(records: Seq<WireRecord>)
    requires
        records.len() > 0,
        forall|i: int|
            0 <= i < records.len() ==> ((#[trigger] records[i]).is_final <==> i == records.len()
                - 1),
    ensures
        run(start(), records) == Assembly::Done(joined(records)),
{
    let init = records.drop_last();
    assert forall|i: int| 0 <= i < init.len() implies !(#[trigger] init[i]).is_final by {
        assert(init[i] == records[i]);
    }
    lemma_run_collecting(init);
}

/// A message that was cut into records and reassembled is the message again:
/// the run over the records of any payload is done and holds that payload.
pub proof fn lemma_round_trip(payload: Seq<u8>, routing: Routing)
    ensures
        run(start(), frames(payload, routing)) == Assembly::Done(payload),
{
    let all = frames(payload, routing);
    let n = segment_count(payload.len()) as int;
    lemma_run_done(all);
    lemma_joined_prefix(payload, routing, n);
    lemma_segment_bounds(payload.len(), n - 1);
    assert(all.take(n) =~= all);
    assert(joined(all) =~= payload);
}

/// A message of which a record is still missing is incomplete: over any
/// proper prefix of its records the run is still collecting.
pub proof fn lemma_prefix_incomplete(payload: Seq<u8>, routing: Routing, k: int)
    requires
        0 <= k < frames(payload, routing).len(),
    ensures
        run(start(), frames(payload, routing).take(k)) is Collecting,
{
    lemma_run_collecting(frames(payload, routing).take(k));
}

/// A run that is done stays as it is, whatever follows.
pub proof fn lemma_done_is_terminal(bytes: Seq<u8>, records: Seq<WireRecord>)
    ensures
        run(Assembly::Done(bytes), records) == Assembly::Done(bytes),
    decreases records.len(),
{
    if records.len() > 0 {
        lemma_done_is_terminal(bytes, records.drop_last());
    }
}

/// The state of a reassembly.
#[derive(Debug, PartialEq, Eq)]
pub enum Reassembly {
    /// No final segment was seen yet; the bytes so far.
    Collecting(Vec<u8>),
    /// The final segment was seen; the whole payload.
    Done(Vec<u8>),
}

impl View for Reassembly {
    type V = Assembly;

    open spec fn view(&self) -> Assembly {
        match self {
            Reassembly::Collecting(buffer) => Assembly::Collecting(buffer@),
            Reassembly::Done(bytes) => Assembly::Done(bytes@),
        }
    }
}

impl Reassembly {
    /// The state before any record was seen.
    pub fn new() -> (state: Reassembly)
        ensures
            state@ == start(),
    {
        Reassembly::Collecting(Vec::new())
    }

    /// Whether the final segment was seen.
    pub fn is_done(&self) -> (done: bool)
        ensures
            done == (self@ is Done),
    {
        match self {
            Reassembly::Collecting(_) => false,
            Reassembly::Done(_) => true,
        }
    }

    /// The state after `message`.
    pub fn step(self, message: &WireMessage) -> (next: Reassembly)
        ensures
            next@ == step(self@, message@),
    {
        match self {
            Reassembly::Collecting(mut buffer) => {
                let ghost before = buffer@;
                let bytes = message.payload();
                let n: usize = bytes.len();
                let mut i: usize = 0;
                while i < n
                    invariant
                        n == bytes@.len(),
                        i <= n,
                        buffer@ =~= before + bytes@.subrange(0, i as int),
                    decreases n - i,
                {
                    buffer.push(bytes[i]);
                    i += 1;
                }
                assert(bytes@.subrange(0, n as int) =~= bytes@);
                if message.is_final() {
                    Reassembly::Done(buffer)
                } else {
                    Reassembly::Collecting(buffer)
                }
            },
            Reassembly::Done(bytes) => Reassembly::Done(bytes),
        }
    }

    /// The payload, once the final segment was seen.
    pub fn into_payload(self) -> (payload: Option<Vec<u8>>)
        ensures
            match self@ {
                Assembly::Done(bytes) => payload matches Some(p) && p@ == bytes,
                Assembly::Collecting(_) => payload is None,
            },
    {
        match self {
            Reassembly::Collecting(_) => None,
            Reassembly::Done(bytes) => Some(bytes),
        }
    }
}

/// Runs the reassembly over `messages`, in order, from the start.
pub fn reassemble(messages: &[WireMessage]) -> (state: Reassembly)
    ensures
        state@ == run(start(), records(messages@)),
{
    let mut state = Reassembly::new();
    let n: usize = messages.len();
    let mut i: usize = 0;
    while i < n
        invariant
            n == messages@.len(),
            i <= n,
            state@ == run(start(), records(messages@).take(i as int)),
        decreases n - i,
    {
        proof {
            let next = records(messages@).take(i + 1);
            assert(next.drop_last() =~= records(messages@).take(i as int));
            assert(next.last() == messages@[i as int]@);
        }
        state = state.step(&messages[i]);
        i += 1;
    }
    assert(records(messages@).take(n as int) =~= records(messages@));
    state
}

} // verus!
