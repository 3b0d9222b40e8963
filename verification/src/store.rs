//! The store that gathers the records of a run and emits them as one batch.
//!
//! Records are appended in the order in which the calls return. Nothing is
//! written while the traced program runs: at shutdown the whole run is
//! written as one text, once. A store that has emitted its batch is drained:
//! it keeps what it emitted, takes no further records and emits nothing more.

use vstd::prelude::*;
use crate::codec::{encode_batch, encoded_batch};
use crate::document::{Json, json_text};
use crate::error::TraceError;
use crate::record::{TraceRecord, TraceRecordView, record_views};

verus! {

/// The records of a run, in the order in which they were appended.
#[derive(Debug)]
pub struct TraceStore {
    records: Vec<TraceRecord>,
    drained: bool,
}

/// The mathematical content of a [`TraceStore`].
pub struct StoreView {
    pub records: Seq<TraceRecordView>,
    pub drained: bool,
}

/// What a flush hands to the persistence sink: the text of the whole batch,
/// and the number of records in it.
#[derive(Clone, Debug, PartialEq, Eq)]
pub struct Batch {
    pub text: String,
    pub count: usize,
}

/// The most records for which room is made before the first append. A
/// request for room is refused by the allocator once its size in bytes
/// passes the largest signed machine integer; this bound keeps every
/// request far below that on machines of 32 and of 64 bits.
pub const MAX_PRESIZED: usize = 1_048_576;

/// A store that holds nothing and has emitted nothing.
pub open spec fn empty_store() -> StoreView {
    StoreView { records: Seq::empty(), drained: false }
}

/// The store after an attempt to append `record`: a store that is not
/// drained holds the record behind the earlier ones; a drained store is
/// unchanged.
pub open spec fn appended(store: StoreView, record: TraceRecordView) -> StoreView {
    if store.drained {
        store
    } else {
        StoreView { records: store.records.push(record), drained: false }
    }
}

/// The store after a flush that succeeded: drained, with its records as they
/// were.
pub open spec fn flushed(store: StoreView) -> StoreView {
    StoreView { records: store.records, drained: true }
}

/// What a flush returns and leaves behind, given how the writing of the batch
/// ended. A drained store emits nothing and is unchanged. Else, where the
/// batch was written, it is emitted and the store is drained; where writing
/// failed, the failure is reported and the store is unchanged.
pub open spec fn flush_outcome(store: StoreView, written: Result<Seq<char>, TraceError>) -> (
    StoreView,
    Result<Option<(Seq<char>, nat)>, TraceError>,
) {
    if store.drained {
        (store, Ok(None))
    } else {
        match written {
            Ok(text) => (flushed(store), Ok(Some((text, store.records.len())))),
            Err(e) => (store, Err(e)),
        }
    }
}

/// The view of the result of a flush.
pub open spec fn flush_result_view(r: Result<Option<Batch>, TraceError>) -> Result<
    Option<(Seq<char>, nat)>,
    TraceError,
> {
    match r {
        Ok(Some(batch)) => Ok(Some((batch.text@, batch.count as nat))),
        Ok(None) => Ok(None),
        Err(e) => Err(e),
    }
}

/// The view of the result of writing a batch.
pub open spec fn written_view(r: Result<String, TraceError>) -> Result<Seq<char>, TraceError> {
    match r {
        Ok(text) => Ok(text@),
        Err(e) => Err(e),
    }
}

impl View for TraceStore {
    type V = StoreView;

    closed spec fn view(&self) -> StoreView {
        StoreView { records: record_views(self.records@), drained: self.drained }
    }
}

impl TraceStore {
    /// An empty store.
    pub fn new() -> (store: TraceStore)
        ensures
            store@ == empty_store(),
    {
        let store = TraceStore { records: Vec::new(), drained: false };
        assert(store@.records =~= Seq::empty());
        store
    }

    /// An empty store, with room made ahead for the records of a run.
    ///
    /// `capacity` is a hint at the number of records to come. Room is made
    /// for that many, up to [`MAX_PRESIZED`]; the store grows as it fills, so
    /// the hint bounds nothing. It bears on speed alone: whatever the hint,
    /// the store that comes back is the empty one.
    pub fn with_capacity(capacity: usize) -> (store: TraceStore)
        ensures
            store@ == empty_store(),
    {
        let room: usize = if capacity <= MAX_PRESIZED {
            capacity
        } else {
            MAX_PRESIZED
        };
        let store = TraceStore { records: Vec::with_capacity(room), drained: false };
        assert(store@.records =~= Seq::empty());
        store
    }

    /// The number of records in the store.
    pub fn len(&self) -> (n: usize)
        ensures
            n == self@.records.len(),
    {
        self.records.len()
    }

    /// Whether the store holds no record.
    pub fn is_empty(&self) -> (r: bool)
        ensures
            r == (self@.records.len() == 0),
    {
        self.records.len() == 0
    }

    /// Whether the store has emitted its batch.
    pub fn is_drained(&self) -> (r: bool)
        ensures
            r == self@.drained,
    {
        self.drained
    }

    /// The records in the store, in append order.
    pub fn records(&self) -> (r: &Vec<TraceRecord>)
        ensures
            record_views(r@) == self@.records,
    {
        &self.records
    }

    /// Append a record behind those already in the store. A drained store
    /// rejects the record and is unchanged.
    pub fn append(&mut self, record: TraceRecord) -> (r: Result<(), TraceError>)
        ensures
            final(self)@ == appended(old(self)@, record@),
            old(self)@.drained ==> r == Err::<(), TraceError>(TraceError::StoreDrained),
            !old(self)@.drained ==> r == Ok::<(), TraceError>(()),
    {
        if self.drained {
            return Err(TraceError::StoreDrained);
        }
        self.records.push(record);
        assert(self@.records =~= old(self)@.records.push(record@));
        Ok(())
    }

    /// The document of the batch that the store holds.
    pub fn batch_document(&self) -> (doc: Json)
        ensures
            doc@ == encoded_batch(self@.records),
    {
        encode_batch(&self.records)
    }

    /// Conclude a flush whose batch was handed to a writer, with what the
    /// writer returned. Where the writer failed, the failure is reported,
    /// nothing is retried and the store is unchanged.
    pub fn conclude_flush(&mut self, written: Result<String, TraceError>) -> (r: Result<
        Option<Batch>,
        TraceError,
    >)
        ensures
            final(self)@ == flush_outcome(old(self)@, written_view(written)).0,
            flush_result_view(r) == flush_outcome(old(self)@, written_view(written)).1,
    {
        if self.drained {
            return Ok(None);
        }
        match written {
            Ok(text) => {
                self.drained = true;
                Ok(Some(Batch { text, count: self.records.len() }))
            },
            Err(e) => Err(e),
        }
    }

    /// Emit every record of the store, in append order, as one batch, and
    /// mark the store drained.
    ///
    /// A store that is not drained emits its batch: the JSON text of the
    /// batch document, with the number of records in it. That holds of the
    /// empty store too, whose batch is the empty list. A drained store emits
    /// nothing and is unchanged, so a second flush is idle.
    pub fn flush_all(&mut self) -> (r: Result<Option<Batch>, TraceError>)
        ensures
            old(self)@.drained ==> r == Ok::<Option<Batch>, TraceError>(None),
            old(self)@.drained ==> final(self)@ == old(self)@,
            !old(self)@.drained ==> r is Ok,
            !old(self)@.drained ==> r->Ok_0 is Some,
            !old(self)@.drained ==> r->Ok_0->Some_0.text@ == json_text(
                encoded_batch(old(self)@.records),
            ),
            !old(self)@.drained ==> r->Ok_0->Some_0.count == old(self)@.records.len(),
            !old(self)@.drained ==> final(self)@ == flushed(old(self)@),
    {
        if self.drained {
            return Ok(None);
        }
        let written = self.batch_document().render();
        self.conclude_flush(written)
    }
}

impl Default for TraceStore {
    fn default() -> (store: TraceStore)
        ensures
            store@ == empty_store(),
    {
        TraceStore::new()
    }
}

/// A flush drains the store, so the next flush emits nothing and leaves the
/// store, and with it the records already emitted, as it found them.
pub proof fn lemma_second_flush_is_idle(store: StoreView, text: Seq<char>, again: Result<
    Seq<char>,
    TraceError,
>)
    ensures
        ({
            let first = flush_outcome(store, Ok(text));
            let second = flush_outcome(first.0, again);
            &&& first.0.drained
            &&& first.0.records == store.records
            &&& second.0 == first.0
            &&& second.1 == Ok::<Option<(Seq<char>, nat)>, TraceError>(None)
        }),
{
}

/// A drained store is closed: it takes no further record and emits nothing,
/// however the writing of a batch would end, so what it emitted stays as it
/// was.
pub proof fn lemma_drained_store_is_closed(
    store: StoreView,
    record: TraceRecordView,
    written: Result<Seq<char>, TraceError>,
)
    requires
        store.drained,
    ensures
        appended(store, record) == store,
        flush_outcome(store, written) == (
            store,
            Ok::<Option<(Seq<char>, nat)>, TraceError>(None),
        ),
{
}

/// Appending to a store that is not drained adds the record at the end and
/// keeps the earlier ones in their places, so that a flush emits the records
/// in append order.
pub proof fn lemma_append_keeps_order(store: StoreView, record: TraceRecordView)
    requires
        !store.drained,
    ensures
        appended(store, record).records == store.records.push(record),
        !appended(store, record).drained,
        appended(store, record).records.len() == store.records.len() + 1,
        appended(store, record).records[store.records.len() as int] == record,
        forall|i: int|
            0 <= i < store.records.len() ==> appended(store, record).records[i]
                == #[trigger] store.records[i],
{
}

} // verus!
