//! The record of one completed call.

use vstd::prelude::*;
use crate::argument::{Argument, ArgumentView, Binding, BindingView};
use crate::argument::{argument_views, binding_views, recorded_type, resolve_type};
use crate::classify::{classified, classify, in_classification_order, slots_needed};
use crate::classify::{flags_variadic_keyword, flags_variadic_positional};
use crate::classify::{has_variadic_keyword, has_variadic_positional, is_in_classification_order};
use crate::classify::slots_announced;
use crate::error::TraceError;

verus! {

/// One completed call: its name, where its source lies, its classified
/// arguments as bound at entry, and the type of what it returned.
///
/// A record is made once, when the call has returned, and never changes. Its
/// name is not empty and its arguments stand in classification order.
#[derive(Debug, PartialEq, Eq)]
pub struct TraceRecord {
    name: String,
    filename: String,
    args: Vec<Argument>,
    returns: String,
}

/// The mathematical content of a [`TraceRecord`].
pub struct TraceRecordView {
    pub name: Seq<char>,
    pub filename: Seq<char>,
    pub args: Seq<ArgumentView>,
    pub returns: Seq<char>,
}

/// What holds of every record: the name is not empty, and the arguments are
/// in classification order.
pub open spec fn record_well_formed(r: TraceRecordView) -> bool {
    &&& r.name.len() > 0
    &&& in_classification_order(r.args)
}

/// The record of a call, from what was observed of it.
pub open spec fn built_record(
    name: Seq<char>,
    filename: Seq<char>,
    snapshot: Seq<BindingView>,
    positional_count: nat,
    keyword_only_count: nat,
    flags: u32,
    return_type: Option<Seq<char>>,
) -> TraceRecordView {
    TraceRecordView {
        name,
        filename,
        args: classified(
            snapshot,
            positional_count,
            keyword_only_count,
            flags_variadic_positional(flags),
            flags_variadic_keyword(flags),
        ),
        returns: recorded_type(return_type),
    }
}

/// The number of snapshot entries that a call with these counts and flags
/// announces.
pub open spec fn entries_announced(
    positional_count: u32,
    keyword_only_count: u32,
    flags: u32,
) -> nat {
    slots_needed(
        positional_count as nat,
        keyword_only_count as nat,
        flags_variadic_positional(flags),
        flags_variadic_keyword(flags),
    )
}

/// The view of an optional string.
pub open spec fn optional_view(s: Option<String>) -> Option<Seq<char>> {
    match s {
        Some(t) => Some(t@),
        None => None,
    }
}

impl View for TraceRecord {
    type V = TraceRecordView;

    closed spec fn view(&self) -> TraceRecordView {
        TraceRecordView {
            name: self.name@,
            filename: self.filename@,
            args: argument_views(self.args@),
            returns: self.returns@,
        }
    }
}

impl TraceRecord {
    #[verifier::type_invariant]
    spec fn well_formed(self) -> bool {
        record_well_formed(self@)
    }

    /// Build the record of a call that has returned.
    ///
    /// `snapshot` is the call's local variables as bound at entry, with the
    /// counts and flags of its declaration; `return_type` names the type of
    /// the value that the call produced, or is `None` where that value could
    /// not be resolved, which is recorded as `<unknown>`.
    ///
    /// An empty name is rejected, and so is a snapshot shorter than the
    /// declaration announces.
    pub fn build(
        name: &str,
        filename: &str,
        snapshot: &Vec<Binding>,
        positional_count: u32,
        keyword_only_count: u32,
        flags: u32,
        return_type: &Option<String>,
    ) -> (r: Result<TraceRecord, TraceError>)
        ensures
            name@.len() == 0 ==> r == Err::<TraceRecord, TraceError>(TraceError::EmptyName),
            name@.len() > 0 && snapshot.len() < entries_announced(
                positional_count,
                keyword_only_count,
                flags,
            ) ==> r == Err::<TraceRecord, TraceError>(
                TraceError::SnapshotTooShort {
                    needed: entries_announced(positional_count, keyword_only_count, flags) as u64,
                    found: snapshot.len() as u64,
                },
            ),
            name@.len() > 0 && snapshot.len() >= entries_announced(
                positional_count,
                keyword_only_count,
                flags,
            ) ==> r is Ok && r->Ok_0@ == built_record(
                name@,
                filename@,
                binding_views(snapshot@),
                positional_count as nat,
                keyword_only_count as nat,
                flags,
                optional_view(*return_type),
            ),
            r is Ok && *return_type is None ==> r->Ok_0@.returns == "<unknown>"@,
    {
        if name.is_empty() {
            return Err(TraceError::EmptyName);
        }
        let variadic_positional = has_variadic_positional(flags);
        let variadic_keyword = has_variadic_keyword(flags);
        let needed: u64 = slots_announced(
            positional_count,
            keyword_only_count,
            variadic_positional,
            variadic_keyword,
        );
        let found: u64 = snapshot.len() as u64;
        if found < needed {
            return Err(TraceError::SnapshotTooShort { needed, found });
        }
        let args = classify(
            snapshot,
            positional_count,
            keyword_only_count,
            variadic_positional,
            variadic_keyword,
        );
        Ok(
            TraceRecord {
                name: name.to_owned(),
                filename: filename.to_owned(),
                args,
                returns: resolve_type(return_type),
            },
        )
    }

    /// Make a record from its four parts, where they form one: the name is
    /// not empty and the arguments are in classification order.
    pub fn from_parts(name: String, filename: String, args: Vec<Argument>, returns: String) -> (r:
        Option<TraceRecord>)
        ensures
            r is Some <==> name@.len() > 0 && in_classification_order(argument_views(args@)),
            r is Some ==> r->Some_0@ == (TraceRecordView {
                name: name@,
                filename: filename@,
                args: argument_views(args@),
                returns: returns@,
            }),
    {
        if name.as_str().is_empty() || !is_in_classification_order(&args) {
            None
        } else {
            Some(TraceRecord { name, filename, args, returns })
        }
    }

    /// The call's name.
    pub fn name(&self) -> (r: &String)
        ensures
            r@ == self@.name,
            r@.len() > 0,
    {
        proof {
            use_type_invariant(self);
        }
        &self.name
    }

    /// Where the call's source lies.
    pub fn filename(&self) -> (r: &String)
        ensures
            r@ == self@.filename,
    {
        &self.filename
    }

    /// The call's classified arguments, in classification order.
    pub fn args(&self) -> (r: &Vec<Argument>)
        ensures
            argument_views(r@) == self@.args,
            in_classification_order(self@.args),
    {
        proof {
            use_type_invariant(self);
        }
        &self.args
    }

    /// The name of the type of the value that the call returned.
    pub fn return_type(&self) -> (r: &String)
        ensures
            r@ == self@.returns,
    {
        &self.returns
    }
}

impl Clone for TraceRecord {
    fn clone(&self) -> (r: TraceRecord)
        ensures
            r@ == self@,
    {
        proof {
            use_type_invariant(self);
        }
        let mut args: Vec<Argument> = Vec::with_capacity(self.args.len());
        let mut i: usize = 0;
        while i < self.args.len()
            invariant
                i <= self.args.len(),
                args.len() == i,
                forall|k: int| 0 <= k < i ==> (#[trigger] args@[k])@ == self.args@[k]@,
            decreases self.args.len() - i,
        {
            args.push(self.args[i].duplicate());
            i = i + 1;
        }
        assert(argument_views(args@) =~= argument_views(self.args@));
        TraceRecord {
            name: self.name.clone(),
            filename: self.filename.clone(),
            args,
            returns: self.returns.clone(),
        }
    }
}

/// The views of a sequence of records, entry by entry.
pub open spec fn record_views(s: Seq<TraceRecord>) -> Seq<TraceRecordView> {
    Seq::new(s.len(), |i: int| s[i]@)
}

} // verus!
