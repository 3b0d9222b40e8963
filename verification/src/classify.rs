//! Classification of a call's local-variable snapshot into typed arguments.
//!
//! The host lays the snapshot out in a fixed order: the positional
//! parameters, then the keyword-only parameters, then the slot that collects
//! surplus positional arguments, then the slot that collects surplus keyword
//! arguments. Classification reads the four windows of that layout and lists
//! them as positional, variadic positional, keyword-only, variadic keyword.

use vstd::prelude::*;
use crate::argument::{Argument, ArgumentKind, ArgumentView, Binding, BindingView};
use crate::argument::{argument_of, argument_views, binding_views};

verus! {

/// The bit of a call's flags that announces a variadic positional parameter.
pub const HAS_VARIADIC_POSITIONAL: u32 = 0x04;

/// The bit of a call's flags that announces a variadic keyword parameter.
pub const HAS_VARIADIC_KEYWORD: u32 = 0x08;

/// Whether the flags announce a variadic positional parameter.
pub open spec fn flags_variadic_positional(flags: u32) -> bool {
    flags & HAS_VARIADIC_POSITIONAL != 0
}

/// Whether the flags announce a variadic keyword parameter.
pub open spec fn flags_variadic_keyword(flags: u32) -> bool {
    flags & HAS_VARIADIC_KEYWORD != 0
}

/// Whether the flags announce a variadic positional parameter.
pub fn has_variadic_positional(flags: u32) -> (r: bool)
    ensures
        r == flags_variadic_positional(flags),
{
    flags & HAS_VARIADIC_POSITIONAL != 0
}

/// Whether the flags announce a variadic keyword parameter.
pub fn has_variadic_keyword(flags: u32) -> (r: bool)
    ensures
        r == flags_variadic_keyword(flags),
{
    flags & HAS_VARIADIC_KEYWORD != 0
}

/// One if the flag is set, zero if not.
pub open spec fn slot(present: bool) -> nat {
    if present {
        1
    } else {
        0
    }
}

/// The number of snapshot entries that the arity metadata announces, which is
/// also the number of arguments that classification yields.
pub open spec fn slots_needed(
    positional_count: nat,
    keyword_only_count: nat,
    variadic_positional: bool,
    variadic_keyword: bool,
) -> nat {
    positional_count + keyword_only_count + slot(variadic_positional) + slot(variadic_keyword)
}

/// The positional window: the first `positional_count` entries.
pub open spec fn positional_window(s: Seq<BindingView>, positional_count: nat) -> Seq<
    ArgumentView,
> {
    Seq::new(positional_count, |i: int| argument_of(s[i], ArgumentKind::Positional))
}

/// The keyword-only window: the `keyword_only_count` entries that follow the
/// positional window.
pub open spec fn keyword_only_window(
    s: Seq<BindingView>,
    positional_count: nat,
    keyword_only_count: nat,
) -> Seq<ArgumentView> {
    Seq::new(
        keyword_only_count,
        |i: int| argument_of(s[positional_count + i], ArgumentKind::KeywordOnly),
    )
}

/// The variadic positional slot: the entry right after the keyword-only
/// window, where the flags announce one.
pub open spec fn variadic_positional_slot(
    s: Seq<BindingView>,
    positional_count: nat,
    keyword_only_count: nat,
    variadic_positional: bool,
) -> Seq<ArgumentView> {
    if variadic_positional {
        seq![
            argument_of(
                s[(positional_count + keyword_only_count) as int],
                ArgumentKind::VariadicPositional,
            ),
        ]
    } else {
        Seq::empty()
    }
}

/// The variadic keyword slot: the entry after the keyword-only window and
/// after the variadic positional slot, if there is one.
pub open spec fn variadic_keyword_slot(
    s: Seq<BindingView>,
    positional_count: nat,
    keyword_only_count: nat,
    variadic_positional: bool,
    variadic_keyword: bool,
) -> Seq<ArgumentView> {
    if variadic_keyword {
        seq![
            argument_of(
                s[(positional_count + keyword_only_count + slot(variadic_positional)) as int],
                ArgumentKind::VariadicKeyword,
            ),
        ]
    } else {
        Seq::empty()
    }
}

/// The classified arguments of a snapshot: the positional window, the
/// variadic positional slot, the keyword-only window, the variadic keyword
/// slot, in this order.
pub open spec fn classified(
    s: Seq<BindingView>,
    positional_count: nat,
    keyword_only_count: nat,
    variadic_positional: bool,
    variadic_keyword: bool,
) -> Seq<ArgumentView> {
    positional_window(s, positional_count) + variadic_positional_slot(
        s,
        positional_count,
        keyword_only_count,
        variadic_positional,
    ) + keyword_only_window(s, positional_count, keyword_only_count) + variadic_keyword_slot(
        s,
        positional_count,
        keyword_only_count,
        variadic_positional,
        variadic_keyword,
    )
}

/// The place of a kind in the order in which classification lists the kinds.
pub open spec fn kind_rank(kind: ArgumentKind) -> int {
    match kind {
        ArgumentKind::Positional => 0,
        ArgumentKind::VariadicPositional => 1,
        ArgumentKind::KeywordOnly => 2,
        ArgumentKind::VariadicKeyword => 3,
    }
}

/// Whether a kind collects surplus arguments.
pub open spec fn is_variadic(kind: ArgumentKind) -> bool {
    kind == ArgumentKind::VariadicPositional || kind == ArgumentKind::VariadicKeyword
}

/// Whether `later` may follow `earlier` in a list of classified arguments:
/// kinds never go back in rank, and a variadic kind is not repeated.
pub open spec fn may_follow(earlier: ArgumentKind, later: ArgumentKind) -> bool {
    &&& kind_rank(earlier) <= kind_rank(later)
    &&& is_variadic(earlier) ==> kind_rank(earlier) < kind_rank(later)
}

/// Whether the arguments stand in the order positional, variadic positional,
/// keyword-only, variadic keyword, with at most one of each variadic kind.
pub open spec fn in_classification_order(args: Seq<ArgumentView>) -> bool {
    forall|i: int, j: int|
        #![trigger args[i], args[j]]
        0 <= i < j < args.len() ==> may_follow(args[i].kind, args[j].kind)
}

/// Classification yields one argument for each announced entry: the
/// positional entries in snapshot order, then the variadic positional entry if
/// any, then the keyword-only entries in snapshot order, then the variadic
/// keyword entry if any. The result is therefore in classification order,
/// whatever the counts and flags.
pub proof fn lemma_classified_layout(
    s: Seq<BindingView>,
    positional_count: nat,
    keyword_only_count: nat,
    variadic_positional: bool,
    variadic_keyword: bool,
)
    ensures
        classified(
            s,
            positional_count,
            keyword_only_count,
            variadic_positional,
            variadic_keyword,
        ).len() == slots_needed(
            positional_count,
            keyword_only_count,
            variadic_positional,
            variadic_keyword,
        ),
        forall|i: int|
            0 <= i < positional_count ==> #[trigger] classified(
                s,
                positional_count,
                keyword_only_count,
                variadic_positional,
                variadic_keyword,
            )[i] == argument_of(s[i], ArgumentKind::Positional),
        variadic_positional ==> classified(
            s,
            positional_count,
            keyword_only_count,
            variadic_positional,
            variadic_keyword,
        )[positional_count as int] == argument_of(
            s[(positional_count + keyword_only_count) as int],
            ArgumentKind::VariadicPositional,
        ),
        forall|i: int|
            0 <= i < keyword_only_count ==> #[trigger] classified(
                s,
                positional_count,
                keyword_only_count,
                variadic_positional,
                variadic_keyword,
            )[positional_count + slot(variadic_positional) + i] == argument_of(
                s[positional_count + i],
                ArgumentKind::KeywordOnly,
            ),
        variadic_keyword ==> classified(
            s,
            positional_count,
            keyword_only_count,
            variadic_positional,
            variadic_keyword,
        )[(positional_count + slot(variadic_positional) + keyword_only_count) as int] == argument_of(
            s[(positional_count + keyword_only_count + slot(variadic_positional)) as int],
            ArgumentKind::VariadicKeyword,
        ),
        in_classification_order(
            classified(
                s,
                positional_count,
                keyword_only_count,
                variadic_positional,
                variadic_keyword,
            ),
        ),
{
}

/// The number of snapshot entries that the arity metadata announces.
pub fn slots_announced(
    positional_count: u32,
    keyword_only_count: u32,
    variadic_positional: bool,
    variadic_keyword: bool,
) -> (needed: u64)
    ensures
        needed == slots_needed(
            positional_count as nat,
            keyword_only_count as nat,
            variadic_positional,
            variadic_keyword,
        ),
{
    let mut needed: u64 = positional_count as u64 + keyword_only_count as u64;
    if variadic_positional {
        needed = needed + 1;
    }
    if variadic_keyword {
        needed = needed + 1;
    }
    needed
}

/// Classify the snapshot of a call.
///
/// The snapshot must hold at least the announced number of entries: to hand
/// over a shorter one is a fault of the caller, who tests the length first
/// (see [`slots_announced`]). The result is the list of classified arguments,
/// one for each announced entry; entries beyond the announced ones are other
/// local variables and are not read.
pub fn classify(
    snapshot: &Vec<Binding>,
    positional_count: u32,
    keyword_only_count: u32,
    variadic_positional: bool,
    variadic_keyword: bool,
) -> (args: Vec<Argument>)
    requires
        snapshot.len() >= slots_needed(
            positional_count as nat,
            keyword_only_count as nat,
            variadic_positional,
            variadic_keyword,
        ),
    ensures
        argument_views(args@) == classified(
            binding_views(snapshot@),
            positional_count as nat,
            keyword_only_count as nat,
            variadic_positional,
            variadic_keyword,
        ),
        args.len() == slots_needed(
            positional_count as nat,
            keyword_only_count as nat,
            variadic_positional,
            variadic_keyword,
        ),
        in_classification_order(argument_views(args@)),
{
    let ghost s = binding_views(snapshot@);
    let ghost pc = positional_count as nat;
    let ghost kc = keyword_only_count as nat;
    let ghost goal = classified(s, pc, kc, variadic_positional, variadic_keyword);
    proof {
        lemma_classified_layout(s, pc, kc, variadic_positional, variadic_keyword);
    }
    let positional: usize = positional_count as usize;
    let keyword_only: usize = keyword_only_count as usize;
    let mut args: Vec<Argument> = Vec::new();
    let mut i: usize = 0;
    while i < positional
        invariant
            i <= positional,
            positional + keyword_only <= snapshot.len(),
            positional == pc,
            s == binding_views(snapshot@),
            args.len() == i,
            goal.len() >= pc,
            forall|k: int| 0 <= k < pc ==> #[trigger] goal[k] == argument_of(s[k], ArgumentKind::Positional),
            forall|k: int| 0 <= k < i ==> (#[trigger] args@[k])@ == goal[k],
        decreases positional - i,
    {
        args.push(Argument::from_binding(&snapshot[i], ArgumentKind::Positional));
        i = i + 1;
    }
    let mut base: usize = positional;
    if variadic_positional {
        args.push(
            Argument::from_binding(
                &snapshot[positional + keyword_only],
                ArgumentKind::VariadicPositional,
            ),
        );
        base = base + 1;
    }
    let mut j: usize = 0;
    while j < keyword_only
        invariant
            j <= keyword_only,
            positional + keyword_only <= snapshot.len(),
            positional == pc,
            keyword_only == kc,
            base == pc + slot(variadic_positional),
            s == binding_views(snapshot@),
            args.len() == base + j,
            goal.len() >= base + kc,
            forall|k: int|
                0 <= k < kc ==> #[trigger] goal[base + k] == argument_of(
                    s[pc + k],
                    ArgumentKind::KeywordOnly,
                ),
            forall|k: int| 0 <= k < base + j ==> (#[trigger] args@[k])@ == goal[k],
        decreases keyword_only - j,
    {
        args.push(Argument::from_binding(&snapshot[positional + j], ArgumentKind::KeywordOnly));
        j = j + 1;
    }
    if variadic_keyword {
        args.push(
            Argument::from_binding(&snapshot[base + keyword_only], ArgumentKind::VariadicKeyword),
        );
    }
    args
}

/// The place of a kind in the order in which classification lists the kinds.
pub fn rank_of(kind: ArgumentKind) -> (r: u8)
    ensures
        r == kind_rank(kind),
{
    match kind {
        ArgumentKind::Positional => 0,
        ArgumentKind::VariadicPositional => 1,
        ArgumentKind::KeywordOnly => 2,
        ArgumentKind::VariadicKeyword => 3,
    }
}

/// Whether an argument of kind `later` may follow one of kind `earlier`.
pub fn kind_may_follow(earlier: ArgumentKind, later: ArgumentKind) -> (r: bool)
    ensures
        r == may_follow(earlier, later),
{
    let a: u8 = rank_of(earlier);
    let b: u8 = rank_of(later);
    if a == 1 || a == 3 {
        a < b
    } else {
        a <= b
    }
}

/// Whether the argument at `i + 1` may follow the argument at `i`.
pub open spec fn neighbours_in_order(args: Seq<ArgumentView>, i: int) -> bool {
    may_follow(args[i].kind, args[i + 1].kind)
}

/// Where each argument may follow the one before it, a later argument may
/// follow an earlier one.
pub proof fn lemma_may_follow_chain(args: Seq<ArgumentView>, i: int, j: int)
    requires
        forall|k: int| 0 <= k < args.len() - 1 ==> #[trigger] neighbours_in_order(args, k),
        0 <= i < j < args.len(),
    ensures
        may_follow(args[i].kind, args[j].kind),
    decreases j - i,
{
    assert(neighbours_in_order(args, j - 1));
    if i < j - 1 {
        lemma_may_follow_chain(args, i, j - 1);
    }
}

/// Where each argument may follow the one before it, the arguments are in
/// classification order.
pub proof fn lemma_neighbours_in_order(args: Seq<ArgumentView>)
    requires
        forall|k: int| 0 <= k < args.len() - 1 ==> #[trigger] neighbours_in_order(args, k),
    ensures
        in_classification_order(args),
{
    assert forall|i: int, j: int| 0 <= i < j < args.len() implies may_follow(
        #[trigger] args[i].kind,
        #[trigger] args[j].kind,
    ) by {
        lemma_may_follow_chain(args, i, j);
    }
}

/// Whether the arguments stand in classification order.
pub fn is_in_classification_order(args: &Vec<Argument>) -> (r: bool)
    ensures
        r == in_classification_order(argument_views(args@)),
{
    let ghost views = argument_views(args@);
    let mut i: usize = 1;
    while i < args.len()
        invariant
            1 <= i,
            views == argument_views(args@),
            forall|k: int|
                0 <= k < i - 1 && k < views.len() - 1 ==> #[trigger] neighbours_in_order(views, k),
        decreases args.len() - i,
    {
        if !kind_may_follow(args[i - 1].kind, args[i].kind) {
            return false;
        }
        assert(neighbours_in_order(views, i - 1));
        i = i + 1;
    }
    proof {
        lemma_neighbours_in_order(views);
    }
    true
}

} // verus!
