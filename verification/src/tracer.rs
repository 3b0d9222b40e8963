//! The tracer: the filter, the record builder and the store, put together as
//! the host's call hook uses them.
//!
//! For each call the hook first asks [`Tracer::qualifies`]. Only for a call
//! that qualifies does it take the snapshot, let the call run, ask for the
//! type of what came back, and hand all of it to [`Tracer::record_call`]. At
//! shutdown it calls [`Tracer::flush_all`] and writes the batch out.

use vstd::prelude::*;
use crate::argument::{Binding, BindingView, binding_views};
use crate::codec::encoded_batch;
use crate::document::json_text;
use crate::error::TraceError;
use crate::filter::{call_qualifies, qualifies};
use crate::record::{TraceRecord, built_record, entries_announced, optional_view};
use crate::store::{Batch, StoreView, TraceStore};
use crate::store::{appended, empty_store, flushed};

verus! {

/// What became of a call that was handed to the tracer.
#[derive(Clone, Copy, Debug, PartialEq, Eq, Structural)]
pub enum CallOutcome {
    /// The call's record is in the store.
    Recorded,
    /// The call does not qualify for tracing.
    Filtered,
    /// The call qualifies, but no record could be made or kept.
    Rejected(TraceError),
}

/// The working directory at startup, and the store of the run.
#[derive(Debug)]
pub struct Tracer {
    working_dir: String,
    store: TraceStore,
}

/// The mathematical content of a [`Tracer`].
pub struct TracerView {
    pub working_dir: Seq<char>,
    pub store: StoreView,
}

impl View for Tracer {
    type V = TracerView;

    closed spec fn view(&self) -> TracerView {
        TracerView { working_dir: self.working_dir@, store: self.store@ }
    }
}

/// What becomes of a call: it is filtered where it does not qualify; else it
/// is rejected where the store is drained, where its name is empty, or where
/// its snapshot is shorter than announced; else it is recorded.
pub open spec fn call_outcome(
    tracer: TracerView,
    name: Seq<char>,
    filename: Seq<char>,
    snapshot: Seq<BindingView>,
    positional_count: u32,
    keyword_only_count: u32,
    flags: u32,
) -> CallOutcome {
    if !qualifies(name, filename, tracer.working_dir) {
        CallOutcome::Filtered
    } else if tracer.store.drained {
        CallOutcome::Rejected(TraceError::StoreDrained)
    } else if name.len() == 0 {
        CallOutcome::Rejected(TraceError::EmptyName)
    } else if snapshot.len() < entries_announced(positional_count, keyword_only_count, flags) {
        CallOutcome::Rejected(
            TraceError::SnapshotTooShort {
                needed: entries_announced(positional_count, keyword_only_count, flags) as u64,
                found: snapshot.len() as u64,
            },
        )
    } else {
        CallOutcome::Recorded
    }
}

/// The tracer after a call was handed to it: a recorded call's record stands
/// at the end of the store; any other call leaves the tracer as it was.
pub open spec fn after_call(
    tracer: TracerView,
    name: Seq<char>,
    filename: Seq<char>,
    snapshot: Seq<BindingView>,
    positional_count: u32,
    keyword_only_count: u32,
    flags: u32,
    return_type: Option<Seq<char>>,
) -> TracerView {
    if call_outcome(tracer, name, filename, snapshot, positional_count, keyword_only_count, flags)
        == CallOutcome::Recorded {
        TracerView {
            working_dir: tracer.working_dir,
            store: appended(
                tracer.store,
                built_record(
                    name,
                    filename,
                    snapshot,
                    positional_count as nat,
                    keyword_only_count as nat,
                    flags,
                    return_type,
                ),
            ),
        }
    } else {
        tracer
    }
}

impl Tracer {
    /// A tracer for a process that started in `working_dir`, with an empty
    /// store. `capacity` is a hint at the number of records to come, as for
    /// [`TraceStore::with_capacity`].
    pub fn new(working_dir: &str, capacity: usize) -> (tracer: Tracer)
        ensures
            tracer@ == (TracerView { working_dir: working_dir@, store: empty_store() }),
    {
        Tracer { working_dir: working_dir.to_owned(), store: TraceStore::with_capacity(capacity) }
    }

    /// The working directory that calls are held against.
    pub fn working_dir(&self) -> (r: &String)
        ensures
            r@ == self@.working_dir,
    {
        &self.working_dir
    }

    /// The store of the run.
    pub fn store(&self) -> (r: &TraceStore)
        ensures
            r@ == self@.store,
    {
        &self.store
    }

    /// Whether a call is traced. The hook asks this at entry, before it reads
    /// anything else of the call: for a call that does not qualify no
    /// snapshot is taken and no type is asked for.
    pub fn qualifies(&self, name: &str, filename: &str) -> (r: bool)
        ensures
            r == qualifies(name@, filename@, self@.working_dir),
    {
        call_qualifies(name, filename, self.working_dir.as_str())
    }

    /// Record a call that has returned.
    ///
    /// `snapshot`, the counts and the flags are the call's as taken at entry;
    /// `return_type` names the type of what the call produced, `None` where
    /// that value could not be resolved. A call that does not qualify, or of
    /// which no record can be made, leaves the tracer unchanged.
    pub fn record_call(
        &mut self,
        name: &str,
        filename: &str,
        snapshot: &Vec<Binding>,
        positional_count: u32,
        keyword_only_count: u32,
        flags: u32,
        return_type: &Option<String>,
    ) -> (outcome: CallOutcome)
        ensures
            outcome == call_outcome(
                old(self)@,
                name@,
                filename@,
                binding_views(snapshot@),
                positional_count,
                keyword_only_count,
                flags,
            ),
            final(self)@ == after_call(
                old(self)@,
                name@,
                filename@,
                binding_views(snapshot@),
                positional_count,
                keyword_only_count,
                flags,
                optional_view(*return_type),
            ),
    {
        if !call_qualifies(name, filename, self.working_dir.as_str()) {
            return CallOutcome::Filtered;
        }
        if self.store.is_drained() {
            return CallOutcome::Rejected(TraceError::StoreDrained);
        }
        let built = TraceRecord::build(
            name,
            filename,
            snapshot,
            positional_count,
            keyword_only_count,
            flags,
            return_type,
        );
        match built {
            Err(e) => CallOutcome::Rejected(e),
            Ok(record) => {
                let _ = self.store.append(record);
                CallOutcome::Recorded
            },
        }
    }

    /// Emit the run's records as one batch and drain the store. A second
    /// flush emits nothing.
    pub fn flush_all(&mut self) -> (r: Result<Option<Batch>, TraceError>)
        ensures
            final(self)@.working_dir == old(self)@.working_dir,
            old(self)@.store.drained ==> r == Ok::<Option<Batch>, TraceError>(None),
            old(self)@.store.drained ==> final(self)@ == old(self)@,
            !old(self)@.store.drained ==> r is Ok,
            !old(self)@.store.drained ==> r->Ok_0 is Some,
            !old(self)@.store.drained ==> r->Ok_0->Some_0.text@ == json_text(
                encoded_batch(old(self)@.store.records),
            ),
            !old(self)@.store.drained ==> r->Ok_0->Some_0.count
                == old(self)@.store.records.len(),
            !old(self)@.store.drained ==> final(self)@.store == flushed(old(self)@.store),
    {
        self.store.flush_all()
    }
}

/// A call that does not qualify leaves no trace: no record is made of it and
/// the store is as it was.
pub proof fn lemma_excluded_call_leaves_no_trace(
    tracer: TracerView,
    name: Seq<char>,
    filename: Seq<char>,
    snapshot: Seq<BindingView>,
    positional_count: u32,
    keyword_only_count: u32,
    flags: u32,
    return_type: Option<Seq<char>>,
)
    requires
        !qualifies(name, filename, tracer.working_dir),
    ensures
        call_outcome(tracer, name, filename, snapshot, positional_count, keyword_only_count, flags)
            == CallOutcome::Filtered,
        after_call(
            tracer,
            name,
            filename,
            snapshot,
            positional_count,
            keyword_only_count,
            flags,
            return_type,
        ) == tracer,
{
}

/// A recorded call adds exactly one record, at the end of the store, and that
/// record pairs the arguments as bound at entry with the type of what the
/// call returned.
pub proof fn lemma_recorded_call_is_appended(
    tracer: TracerView,
    name: Seq<char>,
    filename: Seq<char>,
    snapshot: Seq<BindingView>,
    positional_count: u32,
    keyword_only_count: u32,
    flags: u32,
    return_type: Option<Seq<char>>,
)
    requires
        call_outcome(tracer, name, filename, snapshot, positional_count, keyword_only_count, flags)
            == CallOutcome::Recorded,
    ensures
        after_call(
            tracer,
            name,
            filename,
            snapshot,
            positional_count,
            keyword_only_count,
            flags,
            return_type,
        ).store.records == tracer.store.records.push(
            built_record(
                name,
                filename,
                snapshot,
                positional_count as nat,
                keyword_only_count as nat,
                flags,
                return_type,
            ),
        ),
        qualifies(name, filename, tracer.working_dir),
{
}

} // verus!
