//! The source contract: checkpointed incremental polling.
//!
//! A source is Idle while its local buffer is empty and Draining while it
//! still serves already-fetched events. One upstream fetch fills the buffer;
//! draining pops the buffered items in order, advancing the cursor once per
//! item, so that within one source events are delivered in checkpoint order,
//! one increment per event, with no reordering.

use vstd::prelude::*;
use crate::checkpoint::{checkpoint_of_text, lemma_checkpoint_round_trip};
use crate::errors::SourceReason;
use crate::text::u64_dec;

verus! {

/// One unit of incoming raw data: bytes off a wire, or text.
#[derive(Debug, Clone, PartialEq, Eq)]
pub enum RawData {
    Bytes(Vec<u8>),
    Chars(String),
}

impl RawData {
    /// Wraps text as raw data.
    pub fn from_string(s: String) -> (r: RawData)
        ensures
            r == RawData::Chars(s),
    {
        RawData::Chars(s)
    }
}

/// One incoming event: a unit of raw data with a per-source sequence number,
/// the source's identifier, and key-value metadata tags. Event identifiers
/// are source-local: unique and increasing within a source's lifetime.
#[derive(Debug, Clone, PartialEq, Eq)]
pub struct SourceEvent {
    pub id: u64,
    pub source: String,
    pub data: RawData,
    pub tags: Vec<(String, String)>,
}

impl SourceEvent {
    /// Builds one event.
    pub fn new(id: u64, source: String, data: RawData, tags: Vec<(String, String)>) -> (r:
        SourceEvent)
        ensures
            r.id == id,
            r.source == source,
            r.data == data,
            r.tags == tags,
    {
        SourceEvent { id, source, data, tags }
    }
}

/// Copies a tag set.
pub fn clone_tags(tags: &Vec<(String, String)>) -> (r: Vec<(String, String)>)
    ensures
        r@ == tags@,
{
    let mut out: Vec<(String, String)> = Vec::new();
    let mut i: usize = 0;
    while i < tags.len()
        invariant
            i <= tags@.len(),
            out@ == tags@.take(i as int),
        decreases tags@.len() - i,
    {
        let pair = (tags[i].0.clone(), tags[i].1.clone());
        out.push(pair);
        proof {
            assert(out@ =~= tags@.take(i + 1));
        }
        i = i + 1;
    }
    proof {
        assert(tags@.take(tags@.len() as int) =~= tags@);
    }
    out
}

/// The connector-independent core of an incremental source: its identifier
/// (also the checkpoint key), the cursor, the local buffer of fetched but
/// undelivered row payloads, and the tags stamped onto every event.
pub struct SourceCore {
    pub key: String,
    pub checkpoint: u64,
    pub buffer: Vec<String>,
    pub tags: Vec<(String, String)>,
}

impl SourceCore {
    /// Whether the source is Draining: fetched events are still buffered.
    pub open spec fn is_draining(&self) -> bool {
        self.buffer@.len() > 0
    }

    /// A source anchored at a restored cursor, with an empty buffer (Idle).
    pub fn new(key: String, tags: Vec<(String, String)>, checkpoint: u64) -> (r: SourceCore)
        ensures
            r.key == key,
            r.tags == tags,
            r.checkpoint == checkpoint,
            !r.is_draining(),
    {
        SourceCore { key, checkpoint, buffer: Vec::new(), tags }
    }

    /// The stable, caller-supplied name: the checkpoint key and event tag.
    pub fn identifier(&self) -> (r: &str)
        ensures
            r@ == self.key@,
    {
        self.key.as_str()
    }

    /// Accepts the rows of one upstream fetch, anchored at the current
    /// cursor. An empty result is end-of-data and leaves the source Idle;
    /// a non-empty result makes it Draining.
    pub fn fill(&mut self, rows: Vec<String>) -> (r: Result<(), SourceReason>)
        requires
            !old(self).is_draining(),
        ensures
            final(self).key == old(self).key,
            final(self).tags == old(self).tags,
            final(self).checkpoint == old(self).checkpoint,
            match r {
                Ok(()) => rows@.len() > 0 && final(self).buffer@ == rows@,
                Err(e) => rows@.len() == 0 && e is Eof && !final(self).is_draining(),
            },
    {
        if rows.len() == 0 {
            return Err(SourceReason::Eof);
        }
        self.buffer = rows;
        Ok(())
    }

    /// Delivers every buffered event, in fetch order, advancing the cursor
    /// once per event: event `j` of the batch carries id `checkpoint + j + 1`,
    /// and afterwards the cursor equals the old cursor plus the batch size.
    /// The source is Idle again afterwards.
    pub fn drain(&mut self) -> (events: Vec<SourceEvent>)
        requires
            old(self).checkpoint + old(self).buffer@.len() <= u64::MAX,
        ensures
            final(self).key == old(self).key,
            final(self).tags == old(self).tags,
            !final(self).is_draining(),
            final(self).checkpoint == old(self).checkpoint + old(self).buffer@.len(),
            events@.len() == old(self).buffer@.len(),
            forall|j: int|
                0 <= j < events@.len() ==> {
                    let e = #[trigger] events@[j];
                    &&& e.id == old(self).checkpoint + j + 1
                    &&& e.source@ == old(self).key@
                    &&& e.tags@ == old(self).tags@
                    &&& e.data matches RawData::Chars(p) && p@ == old(self).buffer@[j]@
                },
    {
        let ghost cp0 = self.checkpoint;
        let ghost buf0 = self.buffer@;
        let n = self.buffer.len();
        let mut events: Vec<SourceEvent> = Vec::new();
        let mut i: usize = 0;
        while i < n
            invariant
                n == buf0.len(),
                cp0 + n <= u64::MAX,
                i <= n,
                self.key == old(self).key,
                self.tags == old(self).tags,
                self.buffer@ == buf0,
                cp0 == old(self).checkpoint,
                self.checkpoint == cp0 + i,
                events@.len() == i,
                forall|j: int|
                    0 <= j < i ==> {
                        let e = #[trigger] events@[j];
                        &&& e.id == cp0 + j + 1
                        &&& e.source@ == old(self).key@
                        &&& e.tags@ == old(self).tags@
                        &&& e.data matches RawData::Chars(p) && p@ == buf0[j]@
                    },
            decreases n - i,
        {
            let payload = self.buffer[i].clone();
            self.checkpoint = self.checkpoint + 1;
            let ev = SourceEvent::new(
                self.checkpoint,
                self.key.clone(),
                RawData::from_string(payload),
                clone_tags(&self.tags),
            );
            events.push(ev);
            i = i + 1;
        }
        self.buffer.clear();
        events
    }
}

/// The running total of a sequence of batch sizes.
pub open spec fn total_delivered(batch_lens: Seq<nat>) -> nat
    decreases batch_lens.len(),
{
    if batch_lens.len() == 0 {
        0
    } else {
        total_delivered(batch_lens.drop_last()) + batch_lens.last()
    }
}

/// The cursor after a run of successful deliveries, each advancing the
/// cursor by its batch size, as `drain` does.
pub open spec fn checkpoint_after_run(start: nat, batch_lens: Seq<nat>) -> nat
    decreases batch_lens.len(),
{
    if batch_lens.len() == 0 {
        start
    } else {
        checkpoint_after_run(start, batch_lens.drop_last()) + batch_lens.last()
    }
}

/// After any number of consecutive successful deliveries with no restart,
/// the cursor equals its starting value plus the total number of events
/// returned across those calls; a source starting from a fresh store
/// (cursor zero) therefore holds exactly the count of delivered events.
/// Each `drain` advances the cursor by exactly its batch size, so a run of
/// receive calls walks this fold.
pub proof fn lemma_checkpoint_counts_delivered(start: nat, batch_lens: Seq<nat>)
    ensures
        checkpoint_after_run(start, batch_lens) == start + total_delivered(batch_lens),
    decreases batch_lens.len(),
{
    if batch_lens.len() > 0 {
        lemma_checkpoint_counts_delivered(start, batch_lens.drop_last());
    }
}

/// Restarting from a persisted cursor of `k` never replays: the stored text
/// written for `k` reads back as exactly `k`, so a rebuilt source holds a
/// cursor `cp >= k` (the cursor only grows) and anchors its next fetch at
/// that cursor; and event `j` of any delivery from such a source carries id
/// `cp + j + 1 > k`, so no event with sequence position `k` or lower is
/// ever returned again. The only addition to the stated property is the
/// cursor's machine limit.
pub proof fn lemma_restart_never_replays(k: u64, cp: u64, n_delivered: nat, j: nat)
    requires
        cp >= k,
        j < n_delivered,
        cp + n_delivered <= u64::MAX,
    ensures
        checkpoint_of_text(u64_dec(k as nat)) == Some(k as nat),
        cp + j + 1 > k,
{
    lemma_checkpoint_round_trip(k);
}

} // verus!
