//! The batching state machine: records are queued as samples come in, a
//! batch is handed out whenever the queue reaches the batch size, and on stop
//! whatever remains is handed out as a final, possibly partial, batch.

use crate::primitives::MAX_PLAINTEXT_LEN;
use crate::queue::BatchQueue;
use crate::record::{is_record_of, plausible_temperature, process, sample_bytes, Metadata, Payload, RecordError, SensorReading};
use vstd::prelude::*;

verus! {

/// Where the pipeline stands in its life.
#[derive(Debug, Clone, Copy, PartialEq, Eq, Structural)]
pub enum Phase {
    /// Taking samples.
    Running,
    /// Stopped taking samples; the final batch is being written.
    Draining,
    /// Done.
    Stopped,
}

/// A group of records to be written together, with its batch index.
pub struct Batch {
    pub index: u64,
    pub records: Vec<Payload>,
}

/// Queue, batch size, next batch index and phase of a pipeline run, with a
/// ghost log of every record accepted and every record handed out in a batch.
pub struct Pipeline {
    queue: BatchQueue,
    batch_size: usize,
    next_index: u64,
    phase: Phase,
    accepted: Ghost<Seq<Payload>>,
    released: Ghost<Seq<Payload>>,
}

/// A copy of a record's metadata.
pub fn copy_metadata(m: &Metadata) -> (r: Metadata)
    ensures
        r == *m,
{
    Metadata { device_id: m.device_id.clone(), timestamp: m.timestamp, data_hash: m.data_hash.clone() }
}

/// The metadata of each record, in order.
pub fn metadata_of(records: &[Payload]) -> (r: Vec<Metadata>)
    ensures
        r@.len() == records@.len(),
        forall|i: int| 0 <= i < records@.len() ==> r@[i] == #[trigger] records@[i].metadata,
{
    let mut out: Vec<Metadata> = Vec::new();
    let mut i: usize = 0;
    while i < records.len()
        invariant
            i <= records@.len(),
            out@.len() == i,
            forall|j: int| 0 <= j < i ==> out@[j] == #[trigger] records@[j].metadata,
        decreases records@.len() - i,
    {
        out.push(copy_metadata(&records[i].metadata));
        i = i + 1;
    }
    out
}

impl Pipeline {
    /// Records waiting in the queue, oldest first.
    pub closed spec fn pending(&self) -> Seq<Payload> {
        self.queue@
    }

    /// Number of records in a full batch.
    pub closed spec fn size(&self) -> nat {
        self.batch_size as nat
    }

    /// Index that the next written batch gets.
    pub closed spec fn index(&self) -> u64 {
        self.next_index
    }

    /// The current phase.
    pub closed spec fn stage(&self) -> Phase {
        self.phase
    }

    /// Every record accepted so far, in order of arrival.
    pub closed spec fn accepted(&self) -> Seq<Payload> {
        self.accepted@
    }

    /// Every record handed out in a batch so far, batch after batch.
    pub closed spec fn released(&self) -> Seq<Payload> {
        self.released@
    }

    /// The batch size is positive; each accepted record is either handed out
    /// (once, in order) or still queued; while running the queue never holds a
    /// full batch, and once stopped taking samples it is empty.
    pub open spec fn wf(&self) -> bool {
        &&& self.size() > 0
        &&& self.released() + self.pending() == self.accepted()
        &&& self.stage() == Phase::Running ==> self.pending().len() < self.size()
        &&& self.stage() != Phase::Running ==> self.pending().len() == 0
    }

    /// A running pipeline with an empty queue, writing batches of `batch_size`
    /// records starting at index 0.
    pub fn new(batch_size: usize) -> (r: Pipeline)
        requires
            batch_size > 0,
        ensures
            r.wf(),
            r.pending() == Seq::<Payload>::empty(),
            r.size() == batch_size,
            r.index() == 0,
            r.stage() == Phase::Running,
            r.accepted() == Seq::<Payload>::empty(),
    {
        let r = Pipeline {
            queue: BatchQueue::new(),
            batch_size,
            next_index: 0,
            phase: Phase::Running,
            accepted: Ghost(Seq::empty()),
            released: Ghost(Seq::empty()),
        };
        assert(r.released() + r.pending() =~= r.accepted());
        r
    }

    /// Number of records waiting in the queue.
    pub fn pending_len(&self) -> (r: usize)
        ensures
            r == self.pending().len(),
    {
        self.queue.len()
    }

    /// Number of records in a full batch.
    pub fn batch_size(&self) -> (r: usize)
        ensures
            r == self.size(),
    {
        self.batch_size
    }

    /// Index that the next written batch gets.
    pub fn next_index(&self) -> (r: u64)
        ensures
            r == self.index(),
    {
        self.next_index
    }

    /// The current phase.
    pub fn phase(&self) -> (r: Phase)
        ensures
            r == self.stage(),
    {
        self.phase
    }

    /// Takes one sample: turns it into a record under `key` and queues it.
    /// When the queue then holds a full batch, the whole queue is handed out
    /// as a batch with the next index. A rejected sample leaves the pipeline
    /// as it was.
    pub fn ingest(&mut self, sample: &SensorReading, key: &[u8; 32]) -> (r: Result<Option<Batch>, RecordError>)
        requires
            old(self).wf(),
            old(self).stage() == Phase::Running,
        ensures
            final(self).wf(),
            final(self).stage() == Phase::Running,
            final(self).size() == old(self).size(),
            final(self).index() == old(self).index(),
            !plausible_temperature(sample.readings.temperature as int)
                ==> r == Err::<Option<Batch>, RecordError>(RecordError::InvalidSample),
            plausible_temperature(sample.readings.temperature as int) && sample_bytes(*sample).len() > MAX_PLAINTEXT_LEN
                ==> r == Err::<Option<Batch>, RecordError>(RecordError::EncryptionFailed),
            plausible_temperature(sample.readings.temperature as int) && sample_bytes(*sample).len() <= MAX_PLAINTEXT_LEN
                ==> r is Ok,
            r is Err ==> final(self).pending() == old(self).pending() && final(self).accepted() == old(self).accepted(),
            r is Ok ==> final(self).accepted().drop_last() == old(self).accepted()
                && is_record_of(final(self).accepted().last(), *sample, key@),
            r matches Ok(None) ==> {
                &&& final(self).pending().len() == old(self).pending().len() + 1
                &&& final(self).pending().drop_last() == old(self).pending()
                &&& is_record_of(final(self).pending().last(), *sample, key@)
            },
            r matches Ok(Some(b)) ==> {
                &&& b.records@.len() == old(self).size()
                &&& b.records@.drop_last() == old(self).pending()
                &&& is_record_of(b.records@.last(), *sample, key@)
                &&& b.index == old(self).index()
                &&& final(self).pending().len() == 0
                &&& final(self).released() == old(self).released() + b.records@
            },
            r matches Ok(None) ==> final(self).released() == old(self).released(),
    {
        let record = match process(sample, key) {
            Ok(p) => p,
            Err(e) => {
                return Err(e);
            },
        };
        let ghost before = self.queue@;
        self.queue.push(record);
        self.accepted = Ghost(self.accepted@.push(record));
        assert(self.queue@.drop_last() =~= before);
        assert(self.accepted@.drop_last() =~= old(self).accepted@);
        if self.queue.len() >= self.batch_size {
            let records = self.queue.drain_up_to(self.batch_size);
            assert(records@ =~= before.push(record));
            assert(self.queue@.len() == 0);
            self.released = Ghost(self.released@ + records@);
            assert(self.released() + self.pending() =~= self.accepted());
            Ok(Some(Batch { index: self.next_index, records }))
        } else {
            assert(self.released() + self.pending() =~= self.accepted());
            Ok(None)
        }
    }

    /// Stops taking samples and hands out whatever remains queued as the final
    /// batch, with the next index; `None` when nothing remains, and the
    /// pipeline is then stopped. Outside the running phase it does nothing.
    pub fn stop(&mut self) -> (r: Option<Batch>)
        requires
            old(self).wf(),
        ensures
            final(self).wf(),
            final(self).size() == old(self).size(),
            final(self).index() == old(self).index(),
            final(self).pending().len() == 0,
            final(self).accepted() == old(self).accepted(),
            final(self).released() == final(self).accepted(),
            r matches Some(b) ==> final(self).released() == old(self).released() + b.records@,
            r is None ==> final(self).released() == old(self).released(),
            old(self).stage() != Phase::Running ==> r is None && final(self).stage() == old(self).stage(),
            old(self).stage() == Phase::Running && old(self).pending().len() == 0
                ==> r is None && final(self).stage() == Phase::Stopped,
            old(self).stage() == Phase::Running && old(self).pending().len() > 0 ==> {
                &&& r matches Some(b)
                &&& b.records@ == old(self).pending()
                &&& b.index == old(self).index()
                &&& final(self).stage() == Phase::Draining
            },
    {
        if self.phase != Phase::Running {
            return None;
        }
        let ghost before = self.queue@;
        let records = self.queue.drain_up_to(self.batch_size);
        assert(records@ =~= before);
        self.released = Ghost(self.released@ + records@);
        assert(self.released() + self.pending() =~= self.accepted());
        if records.len() == 0 {
            self.phase = Phase::Stopped;
            None
        } else {
            self.phase = Phase::Draining;
            Some(Batch { index: self.next_index, records })
        }
    }

    /// Reports whether the batch last handed out was written. A written batch
    /// moves the next index on by one (it stays at the largest index); a
    /// batch that failed is lost and its index is used again. After the final
    /// batch the pipeline is stopped.
    pub fn flush_done(&mut self, written: bool)
        requires
            old(self).wf(),
        ensures
            final(self).wf(),
            final(self).size() == old(self).size(),
            final(self).pending() == old(self).pending(),
            final(self).accepted() == old(self).accepted(),
            final(self).released() == old(self).released(),
            final(self).index() == (if written && old(self).index() < u64::MAX {
                (old(self).index() + 1) as u64
            } else {
                old(self).index()
            }),
            final(self).stage() == (if old(self).stage() == Phase::Draining {
                Phase::Stopped
            } else {
                old(self).stage()
            }),
    {
        if written && self.next_index < u64::MAX {
            self.next_index = self.next_index + 1;
        }
        if self.phase == Phase::Draining {
            self.phase = Phase::Stopped;
        }
    }
}

} // verus!
