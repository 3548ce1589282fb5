//! Finding out why a function is unsafe: the function is looked up by its
//! selector, its body is classified, and calls to unsafe functions of the
//! unit are followed until a cause is found that is no such call.
//!
//! - [`unsafety_visitor`] classifies a body; [`occurrence`] and
//!   [`ownership`] state what holds of every classification.
//! - [`output`] makes the report out of [`diagnostic`] blocks, with the
//!   iterator [`adaptors`] it groups the reasons with.

pub mod adaptors;
pub mod diagnostic;
pub mod occurrence;
pub mod output;
pub mod ownership;
pub mod unsafety_visitor;

use crate::error::WhyNotError;
use crate::safe::diagnostic::{Diagnostic, DiagnosticView};
use crate::safe::output::{
    blocks_view, external_note, is_report, lemma_external_call_is_noted,
};
pub use crate::safe::output::{span_label, SafeOutput};
use crate::safe::ownership::{
    all_owned_by, lemma_body_violations_are_operations, lemma_classification_owned,
};
use crate::safe::unsafety_visitor::{
    body_violations, check_unsafety, classification, UnsafeOpKind, Violation,
};
use crate::selector::{normalize_selector, normalized_selector};
use crate::text::ends_with;
use crate::unit::{DefKind, Definition, FnHeader, LocalDefId, Unit, Unsafety};
use std::collections::VecDeque;
use vstd::prelude::*;

verus! {

/// How many functions of a chain of calls are classified before the search
/// gives up and reports the chain itself.
pub const CHAIN_BUDGET: u32 = 10;

/// The budget with which each function of the chain is classified.
pub const VISIT_BUDGET: u32 = 100;

/// Only functions with a body can be selected: free functions and functions
/// of `impl` blocks, not declarations in traits or `extern` blocks.
pub open spec fn is_candidate(kind: DefKind) -> bool {
    kind is Fn || kind is ImplFn
}

/// Whether `def` is a function that the selector `suffix` names: its path
/// ends with `suffix`, letter for letter.
pub open spec fn selects(suffix: Seq<char>, def: Definition) -> bool {
    is_candidate(def.kind) && suffix.is_suffix_of(def.path@)
}

/// Whether the selector names `id`: it is the first function in
/// declaration order whose path ends with the selector, a leading `::` or
/// `crate::` of the selector left aside.
pub open spec fn resolves_to(unit: &Unit, selector: Seq<char>, id: LocalDefId) -> bool {
    &&& unit.defines(id)
    &&& selects(normalized_selector(selector), unit.def(id))
    &&& forall|j: int|
        0 <= j < id.local_def_index ==> !selects(
            normalized_selector(selector),
            #[trigger] unit.defs@[j],
        )
}

/// Whether the selector names no function of the unit.
pub open spec fn resolves_to_nothing(unit: &Unit, selector: Seq<char>) -> bool {
    forall|j: int|
        0 <= j < unit.defs@.len() ==> !selects(
            normalized_selector(selector),
            #[trigger] unit.defs@[j],
        )
}

/// A selector names one function at most: of the functions whose paths end
/// with it, the one that is declared first.
pub proof fn lemma_resolution_is_unique(
    unit: &Unit,
    selector: Seq<char>,
    a: LocalDefId,
    b: LocalDefId,
)
    requires
        resolves_to(unit, selector, a),
        resolves_to(unit, selector, b),
    ensures
        a == b,
{
    if a.local_def_index < b.local_def_index {
        assert(!selects(normalized_selector(selector), unit.defs@[a.local_def_index as int]));
    }
    if b.local_def_index < a.local_def_index {
        assert(!selects(normalized_selector(selector), unit.defs@[b.local_def_index as int]));
    }
}

/// What the analysis of a function comes to.
#[derive(Debug)]
pub enum Verdict {
    /// The function is not marked unsafe: there is nothing to explain, and
    /// `message` says so.
    NotUnsafe { fun_id: LocalDefId, message: &'static str },
    /// The function is marked unsafe, and the report says why.
    Unsafe { fun_id: LocalDefId, report: Vec<Diagnostic> },
}

/// What is said of a function that is not marked unsafe.
pub open spec fn not_unsafe_message() -> Seq<char> {
    "function is not unsafe"@
}

/// The analysis of one function, named by a selector.
pub struct FakeCallback {
    pub selector: String,
}

impl FakeCallback {
    /// Explains the function that the selector names.
    ///
    /// A function that is not marked unsafe needs no explanation, whatever
    /// its body holds: nothing is searched for, and the verdict says that
    /// the function is not unsafe. For one that is marked unsafe the reasons
    /// are searched for and reported. It fails exactly when the selector
    /// names no function.
    pub fn run(&self, unit: &Unit) -> (r: Result<Verdict, WhyNotError>)
        ensures
            match r {
                Ok(Verdict::NotUnsafe { fun_id, message }) => {
                    &&& resolves_to(unit, self.selector@, fun_id)
                    &&& unit.def(fun_id).header.unsafety is Normal
                    &&& message@ == not_unsafe_message()
                },
                Ok(Verdict::Unsafe { fun_id, report }) => {
                    &&& resolves_to(unit, self.selector@, fun_id)
                    &&& unit.def(fun_id).header.unsafety is Unsafe
                    &&& reasons_of(unit, fun_id).len() > 0
                    &&& is_report(unit, reasons_of(unit, fun_id), blocks_view(report@))
                },
                Err(e) => {
                    &&& resolves_to_nothing(unit, self.selector@)
                    &&& e matches WhyNotError::SelectorNotFound { selector }
                    &&& selector@ == self.selector@
                },
            },
    {
        let (fun_id, header) = match self.search(unit) {
            Ok(found) => found,
            Err(e) => {
                return Err(e);
            },
        };
        if header.unsafety == Unsafety::Normal {
            return Ok(Verdict::NotUnsafe { fun_id, message: "function is not unsafe" });
        }
        let reasons = match self.find_unsafe_things(unit, fun_id) {
            Ok(reasons) => reasons,
            Err(e) => {
                return Err(e);
            },
        };
        let report = SafeOutput { reasons }.print(unit, fun_id);
        Ok(Verdict::Unsafe { fun_id, report })
    }

    /// Looks the selector up: the first function in declaration order whose
    /// path ends with the selector, a leading `::` or `crate::` of the
    /// selector left aside, and the header of that function.
    ///
    /// It fails with [`WhyNotError::SelectorNotFound`], which restates the
    /// selector, exactly when the selector names no function.
    pub fn search(&self, unit: &Unit) -> (r: Result<(LocalDefId, FnHeader), WhyNotError>)
        ensures
            match r {
                Ok((id, header)) => {
                    &&& resolves_to(unit, self.selector@, id)
                    &&& header == unit.def(id).header
                },
                Err(e) => {
                    &&& resolves_to_nothing(unit, self.selector@)
                    &&& e matches WhyNotError::SelectorNotFound { selector }
                    &&& selector@ == self.selector@
                },
            },
    {
        let suffix = normalize_selector(self.selector.as_str());
        let mut i: usize = 0;
        while i < unit.defs.len()
            invariant
                i <= unit.defs.len(),
                suffix@ == normalized_selector(self.selector@),
                forall|j: int| 0 <= j < i ==> !selects(suffix@, #[trigger] unit.defs@[j]),
            decreases unit.defs.len() - i,
        {
            let def = &unit.defs[i];
            let candidate = match def.kind {
                DefKind::Fn | DefKind::ImplFn => true,
                _ => false,
            };
            if candidate && ends_with(def.path.as_str(), suffix) {
                return Ok((LocalDefId { local_def_index: i }, def.header));
            }
            i += 1;
        }
        Err(WhyNotError::SelectorNotFound { selector: self.selector.clone() })
    }
}

/// The reasons that are no call to an unsafe function: causes of their own.
pub open spec fn is_terminal() -> spec_fn(Violation) -> bool {
    |v: Violation| !v.kind.is_delegating()
}

/// The calls to unsafe functions: reasons that the callee may explain.
pub open spec fn is_delegating() -> spec_fn(Violation) -> bool {
    |v: Violation| v.kind.is_delegating()
}

/// Whether every record of `s` is a call to an unsafe function.
pub open spec fn all_calls(s: Seq<Violation>) -> bool {
    forall|i: int| 0 <= i < s.len() ==> (#[trigger] s[i]).kind.is_delegating()
}

/// Whether every record of `s` is a cause of its own.
pub open spec fn all_causes(s: Seq<Violation>) -> bool {
    forall|i: int| 0 <= i < s.len() ==> !(#[trigger] s[i]).kind.is_delegating()
}

/// Whether the causes of `s` stand before its calls to unsafe functions: no
/// call is followed by a cause.
pub open spec fn causes_first(s: Seq<Violation>) -> bool {
    forall|i: int, j: int|
        0 <= i < j < s.len() ==> !((#[trigger] s[i]).kind.is_delegating() && !(
        #[trigger] s[j]).kind.is_delegating())
}

/// The function of the unit that the search goes on with after `reason`:
/// the callee of a call to an unsafe function that the unit defines.
pub open spec fn followed_callee(unit: &Unit, reason: Violation) -> Option<LocalDefId> {
    match reason.kind {
        UnsafeOpKind::CallToUnsafeFunction(Some(callee)) => if unit.defines(callee) {
            Some(callee)
        } else {
            None
        },
        _ => None,
    }
}

/// How one round of the search ends.
pub ghost enum Round {
    /// The search is over, and these are the reasons.
    Answer { reasons: Seq<Violation> },
    /// The search goes on in `callee`, with these calls followed and this
    /// queue of calls not yet looked into.
    Follow { callee: LocalDefId, followed: Seq<Violation>, queue: Seq<Violation> },
}

/// One round of the search: `current` is the function to classify,
/// `followed` the calls that the search went along to reach it, `queue` the
/// calls to unsafe functions that were found and not yet looked into.
///
/// The round classifies `current` and puts its calls to unsafe functions at
/// the end of the queue.
/// - If `current` has any other reason, the search is over. The answer
///   holds those causes first, then the calls that were followed, then the
///   queue.
/// - Otherwise the first call of the queue is taken as followed. If its
///   callee is a function of the unit, the search goes on there. If not,
///   the search is over: the answer holds the calls that were followed,
///   that call the last of them, then the rest of the queue.
/// - With no cause and nothing in the queue the search is over with the
///   calls that were followed.
pub open spec fn search_round(
    unit: &Unit,
    current: LocalDefId,
    followed: Seq<Violation>,
    queue: Seq<Violation>,
) -> Round {
    let found = classification(unit, current);
    let terminal = found.filter(is_terminal());
    let queue = queue + found.filter(is_delegating());
    if terminal.len() > 0 || queue.len() == 0 {
        Round::Answer { reasons: terminal + followed + queue }
    } else {
        match followed_callee(unit, queue.first()) {
            Some(callee) => Round::Follow {
                callee,
                followed: followed.push(queue.first()),
                queue: queue.drop_first(),
            },
            None => Round::Answer { reasons: followed + queue },
        }
    }
}

/// What a search has found, and how many functions it classified.
pub ghost struct Attribution {
    pub reasons: Seq<Violation>,
    pub rounds: nat,
}

/// The search, from the state it is in, with a budget of `budget` rounds:
/// round follows round until one ends the search. Without budget the search
/// ends with the chain of calls it went along, and the queue after it.
pub open spec fn attribute(
    unit: &Unit,
    current: LocalDefId,
    followed: Seq<Violation>,
    queue: Seq<Violation>,
    budget: nat,
) -> Attribution
    decreases budget,
{
    if budget == 0 {
        Attribution { reasons: followed + queue, rounds: 0 }
    } else {
        match search_round(unit, current, followed, queue) {
            Round::Answer { reasons } => Attribution { reasons, rounds: 1 },
            Round::Follow { callee, followed, queue } => {
                let rest = attribute(unit, callee, followed, queue, (budget - 1) as nat);
                Attribution { reasons: rest.reasons, rounds: rest.rounds + 1 }
            },
        }
    }
}

/// The reasons for which `fun_id` is unsafe: the answer of the search that
/// starts there with nothing followed, nothing queued and the whole budget.
pub open spec fn reasons_of(unit: &Unit, fun_id: LocalDefId) -> Seq<Violation> {
    attribute(unit, fun_id, Seq::empty(), Seq::empty(), CHAIN_BUDGET as nat).reasons
}

/// Whether every record of `s` is reported under a function of the unit.
pub open spec fn owners_defined(unit: &Unit, s: Seq<Violation>) -> bool {
    forall|i: int| 0 <= i < s.len() ==> unit.defines((#[trigger] s[i]).owner)
}

/// A sequence falls into the items that meet a predicate and those that do
/// not.
proof fn lemma_filter_partition(s: Seq<Violation>)
    ensures
        s.filter(is_terminal()).len() + s.filter(is_delegating()).len() == s.len(),
    decreases s.len(),
{
    reveal(Seq::filter);
    if s.len() > 0 {
        lemma_filter_partition(s.drop_last());
    }
}

/// The causes among records are causes, the calls are calls, and both are
/// of the owner that all the records have.
proof fn lemma_filter_keeps(unit: &Unit, s: Seq<Violation>, owner: LocalDefId)
    requires
        all_owned_by(s, owner),
        s.len() > 0 ==> unit.defines(owner),
    ensures
        all_causes(s.filter(is_terminal())),
        all_calls(s.filter(is_delegating())),
        owners_defined(unit, s.filter(is_terminal())),
        owners_defined(unit, s.filter(is_delegating())),
    decreases s.len(),
{
    reveal(Seq::filter);
    if s.len() > 0 {
        lemma_filter_keeps(unit, s.drop_last(), owner);
    }
}

/// What classifying a function yields falls into causes and calls, all of
/// them recorded under functions of the unit.
proof fn lemma_classification_keeps(unit: &Unit, def: LocalDefId)
    ensures
        all_causes(classification(unit, def).filter(is_terminal())),
        all_calls(classification(unit, def).filter(is_delegating())),
        owners_defined(unit, classification(unit, def).filter(is_terminal())),
        owners_defined(unit, classification(unit, def).filter(is_delegating())),
{
    lemma_classification_owned(unit, def);
    lemma_filter_keeps(unit, classification(unit, def), def);
}

impl FakeCallback {
    /// Classifies `def_id` and sorts what it finds: calls to unsafe functions
    /// go to the end of `possible_reasons`, everything else to the end of
    /// `reasons`.
    ///
    /// Each call takes one from `depth`. With nothing left to take the call
    /// fails with [`WhyNotError::InternalBudgetExceeded`] and changes
    /// nothing.
    pub fn find_unsafe_things_(
        &self,
        unit: &Unit,
        def_id: LocalDefId,
        reasons: &mut Vec<Violation>,
        possible_reasons: &mut VecDeque<Violation>,
        depth: &mut u32,
    ) -> (r: Result<(), WhyNotError>)
        ensures
            match r {
                Ok(()) => {
                    &&& *old(depth) > 1
                    &&& *final(depth) == *old(depth) - 1
                    &&& final(reasons)@ == old(reasons)@ + classification(unit, def_id).filter(
                        is_terminal(),
                    )
                    &&& final(possible_reasons)@ == old(possible_reasons)@ + classification(
                        unit,
                        def_id,
                    ).filter(is_delegating())
                },
                Err(e) => {
                    &&& e is InternalBudgetExceeded
                    &&& *old(depth) <= 1
                    &&& *final(depth) == *old(depth)
                    &&& final(reasons)@ == old(reasons)@
                    &&& final(possible_reasons)@ == old(possible_reasons)@
                },
            },
    {
        if *depth <= 1 {
            return Err(WhyNotError::InternalBudgetExceeded);
        }
        *depth -= 1;
        let res = check_unsafety(unit, def_id);
        let mut i: usize = 0;
        while i < res.len()
            invariant
                i <= res.len(),
                reasons@ == old(reasons)@ + res@.take(i as int).filter(is_terminal()),
                possible_reasons@ == old(possible_reasons)@ + res@.take(i as int).filter(
                    is_delegating(),
                ),
            decreases res.len() - i,
        {
            proof {
                reveal(Seq::filter);
                assert(res@.take(i + 1).drop_last() == res@.take(i as int));
            }
            let violation = res[i];
            if violation.kind.is_delegating() {
                possible_reasons.push_back(violation);
            } else {
                reasons.push(violation);
            }
            i += 1;
        }
        assert(res@.take(i as int) == res@);
        Ok(())
    }

    /// Finds out why `fun_id` is unsafe.
    ///
    /// The function is classified. Where it is unsafe only for calling
    /// unsafe functions, the first such call is followed into its callee, as
    /// long as the callee is a function of the unit and at most
    /// [`CHAIN_BUDGET`] functions have been classified.
    ///
    /// The result holds the causes found in the last function first, then
    /// the calls that were followed, then the calls that were found and not
    /// followed: no call stands before a cause. It holds at least one reason
    /// if classifying `fun_id` yields any.
    pub fn find_unsafe_things(&self, unit: &Unit, fun_id: LocalDefId) -> (r: Result<
        Vec<Violation>,
        WhyNotError,
    >)
        ensures
            r matches Ok(reasons) && {
                &&& reasons@ == reasons_of(unit, fun_id)
                &&& causes_first(reasons@)
                &&& owners_defined(unit, reasons@)
                &&& classification(unit, fun_id).len() > 0 ==> reasons@.len() > 0
            },
    {
        let mut reasons: Vec<Violation> = Vec::new();
        let mut followed: Vec<Violation> = Vec::new();
        let mut possible_reasons: VecDeque<Violation> = VecDeque::new();
        let mut did = fun_id;
        let mut loopctr: u32 = CHAIN_BUDGET;
        let mut done = false;
        let ghost answer = reasons_of(unit, fun_id);
        proof {
            lemma_search_is_bounded(unit, fun_id, Seq::empty(), Seq::empty(), CHAIN_BUDGET as nat);
            lemma_causes_come_first(
                unit,
                fun_id,
                Seq::empty(),
                Seq::empty(),
                CHAIN_BUDGET as nat,
            );
        }
        while loopctr > 0 && !done
            invariant
                all_causes(reasons@),
                all_calls(followed@),
                all_calls(possible_reasons@),
                owners_defined(unit, reasons@),
                owners_defined(unit, followed@),
                owners_defined(unit, possible_reasons@),
                !done ==> reasons@.len() == 0 && answer == attribute(
                    unit,
                    did,
                    followed@,
                    possible_reasons@,
                    loopctr as nat,
                ).reasons,
                done ==> answer == reasons@ + followed@ + possible_reasons@,
            decreases loopctr,
        {
            let mut depth = VISIT_BUDGET;
            match self.find_unsafe_things_(
                unit,
                did,
                &mut reasons,
                &mut possible_reasons,
                &mut depth,
            ) {
                Ok(()) => {},
                Err(e) => {
                    return Err(e);
                },
            }
            proof {
                lemma_classification_keeps(unit, did);
            }
            loopctr -= 1;
            if reasons.len() > 0 {
                // a cause that is no call: the search is over
                done = true;
            } else {
                match possible_reasons.pop_front() {
                    None => {
                        done = true;
                    },
                    Some(violation) => {
                        followed.push(violation);
                        let callee = match violation.kind {
                            UnsafeOpKind::CallToUnsafeFunction(Some(callee)) => {
                                match unit.get(callee) {
                                    Some(_) => Some(callee),
                                    None => None,
                                }
                            },
                            _ => None,
                        };
                        match callee {
                            Some(callee) => {
                                did = callee;
                            },
                            None => {
                                // the callee is no function of this unit:
                                // there is nothing to look into
                                done = true;
                            },
                        }
                    },
                }
            }
        }
        assert(answer == reasons@ + followed@ + possible_reasons@);
        let ghost causes = reasons@;
        let mut i: usize = 0;
        while i < followed.len()
            invariant
                i <= followed.len(),
                reasons@ == causes + followed@.take(i as int),
                owners_defined(unit, reasons@),
                owners_defined(unit, followed@),
            decreases followed.len() - i,
        {
            reasons.push(followed[i]);
            assert(followed@.take(i + 1) == followed@.take(i as int).push(followed@[i as int]));
            i += 1;
        }
        assert(followed@.take(i as int) == followed@);
        while possible_reasons.len() > 0
            invariant
                answer == reasons@ + possible_reasons@,
                owners_defined(unit, reasons@),
                owners_defined(unit, possible_reasons@),
            decreases possible_reasons.len(),
        {
            match possible_reasons.pop_front() {
                Some(violation) => reasons.push(violation),
                None => {},
            }
        }
        Ok(reasons)
    }
}

/// Causes followed by calls: the causes stand first.
proof fn lemma_causes_then_calls(causes: Seq<Violation>, calls: Seq<Violation>)
    requires
        all_causes(causes),
        all_calls(calls),
    ensures
        causes_first(causes + calls),
{
    let s = causes + calls;
    assert forall|i: int, j: int| 0 <= i < j < s.len() implies !((
    #[trigger] s[i]).kind.is_delegating() && !(#[trigger] s[j]).kind.is_delegating()) by {
        if j < causes.len() {
            assert(s[i] == causes[i]);
        } else {
            assert(s[j] == calls[j - causes.len()]);
        }
    }
}

/// Calls followed by calls are calls.
proof fn lemma_calls_and_calls(a: Seq<Violation>, b: Seq<Violation>)
    requires
        all_calls(a),
        all_calls(b),
    ensures
        all_calls(a + b),
{
    let s = a + b;
    assert forall|i: int| 0 <= i < s.len() implies (#[trigger] s[i]).kind.is_delegating() by {
        if i < a.len() {
            assert(s[i] == a[i]);
        } else {
            assert(s[i] == b[i - a.len()]);
        }
    }
}

/// The answer of a search holds its causes before its calls to unsafe
/// functions: once a cause is found, it and the causes beside it come
/// first, and every call, followed or only queued, comes after them.
pub proof fn lemma_causes_come_first(
    unit: &Unit,
    current: LocalDefId,
    followed: Seq<Violation>,
    queue: Seq<Violation>,
    budget: nat,
)
    requires
        all_calls(followed),
        all_calls(queue),
    ensures
        causes_first(attribute(unit, current, followed, queue, budget).reasons),
    decreases budget,
{
    let none = Seq::<Violation>::empty();
    if budget == 0 {
        lemma_calls_and_calls(followed, queue);
        lemma_causes_then_calls(none, followed + queue);
        assert(none + (followed + queue) == followed + queue);
    } else {
        let found = classification(unit, current);
        let terminal = found.filter(is_terminal());
        let queue2 = queue + found.filter(is_delegating());
        lemma_classification_keeps(unit, current);
        lemma_calls_and_calls(queue, found.filter(is_delegating()));
        lemma_calls_and_calls(followed, queue2);
        if terminal.len() > 0 || queue2.len() == 0 {
            lemma_causes_then_calls(terminal, followed + queue2);
            assert(terminal + (followed + queue2) == terminal + followed + queue2);
        } else {
            match followed_callee(unit, queue2.first()) {
                Some(callee) => {
                    lemma_causes_come_first(
                        unit,
                        callee,
                        followed.push(queue2.first()),
                        queue2.drop_first(),
                        (budget - 1) as nat,
                    );
                },
                None => {
                    lemma_causes_then_calls(none, followed + queue2);
                    assert(none + (followed + queue2) == followed + queue2);
                },
            }
        }
    }
}

/// A search never classifies more functions than its budget allows, and
/// it loses nothing of what was followed or queued. Where classifying the
/// function it starts with yields anything, it finds at least one reason.
pub proof fn lemma_search_is_bounded(
    unit: &Unit,
    current: LocalDefId,
    followed: Seq<Violation>,
    queue: Seq<Violation>,
    budget: nat,
)
    ensures
        attribute(unit, current, followed, queue, budget).rounds <= budget,
        attribute(unit, current, followed, queue, budget).reasons.len() >= followed.len()
            + queue.len(),
        budget > 0 && classification(unit, current).len() > 0 ==> attribute(
            unit,
            current,
            followed,
            queue,
            budget,
        ).reasons.len() > followed.len() + queue.len(),
    decreases budget,
{
    if budget > 0 {
        lemma_filter_partition(classification(unit, current));
        match search_round(unit, current, followed, queue) {
            Round::Answer { .. } => {},
            Round::Follow { callee, followed, queue } => {
                lemma_search_is_bounded(unit, callee, followed, queue, (budget - 1) as nat);
            },
        }
    }
}

/// A function that is marked unsafe always has a reason: classifying it
/// yields at least one record.
pub proof fn lemma_unsafe_function_has_a_reason(unit: &Unit, fun_id: LocalDefId)
    requires
        unit.defines(fun_id),
        unit.def(fun_id).header.unsafety is Unsafe,
        !(unit.def(fun_id).kind is Closure),
    ensures
        classification(unit, fun_id).len() > 0,
{
}

/// The search for the reasons of any function ends within
/// [`CHAIN_BUDGET`] rounds, whatever the functions of the unit call: a
/// chain of calls that comes back to where it began is cut off by the
/// budget. For a function that is marked unsafe it ends with at least one
/// reason.
pub proof fn lemma_search_ends(unit: &Unit, fun_id: LocalDefId)
    ensures
        attribute(unit, fun_id, Seq::empty(), Seq::empty(), CHAIN_BUDGET as nat).rounds
            <= CHAIN_BUDGET,
        unit.defines(fun_id) && unit.def(fun_id).header.unsafety is Unsafe && !(unit.def(
            fun_id,
        ).kind is Closure) ==> reasons_of(unit, fun_id).len() > 0,
{
    lemma_search_is_bounded(unit, fun_id, Seq::empty(), Seq::empty(), CHAIN_BUDGET as nat);
}

/// What is filtered out of a single record: the record or nothing.
proof fn lemma_filter_one(v: Violation, pred: spec_fn(Violation) -> bool)
    ensures
        seq![v].filter(pred) == if pred(v) {
            seq![v]
        } else {
            Seq::<Violation>::empty()
        },
{
    reveal(Seq::filter);
    let s = seq![v];
    assert(s.drop_last().filter(pred) == Seq::<Violation>::empty());
    assert(Seq::<Violation>::empty().push(v) == s);
}

/// Where every record is a call, the calls are all of them and the causes
/// none.
proof fn lemma_filter_calls(s: Seq<Violation>)
    requires
        all_calls(s),
    ensures
        s.filter(is_delegating()) == s,
        s.filter(is_terminal()) == Seq::<Violation>::empty(),
    decreases s.len(),
{
    reveal(Seq::filter);
    if s.len() > 0 {
        lemma_filter_calls(s.drop_last());
        assert(s.drop_last().push(s.last()) == s);
    }
}

/// The round of a function that is unsafe for nothing but one call to an
/// unsafe function of the unit, with nothing queued: the call is followed,
/// and the search goes on in the callee.
proof fn lemma_round_of_sole_call(
    unit: &Unit,
    current: LocalDefId,
    followed: Seq<Violation>,
    call: Violation,
    callee: LocalDefId,
)
    requires
        classification(unit, current) == seq![call],
        followed_callee(unit, call) == Some(callee),
    ensures
        search_round(unit, current, followed, Seq::empty()) == (Round::Follow {
            callee,
            followed: followed.push(call),
            queue: Seq::empty(),
        }),
{
    lemma_filter_one(call, is_terminal());
    lemma_filter_one(call, is_delegating());
    let queue = Seq::<Violation>::empty() + seq![call];
    assert(queue == seq![call]);
    assert(queue.drop_first() == Seq::<Violation>::empty());
}

/// Whether every function of the unit is unsafe for one thing only: a call
/// to an unsafe function of the unit. In such a unit every chain of calls
/// goes on for ever.
pub open spec fn only_delegates(unit: &Unit) -> bool {
    forall|def: LocalDefId| #[trigger]
        unit.defines(def) ==> classification(unit, def).len() == 1 && followed_callee(
            unit,
            classification(unit, def)[0],
        ) is Some
}

/// Where every chain of calls goes on for ever, the search spends its whole
/// budget and answers with the chain it went along: one call for each
/// round.
pub proof fn lemma_endless_chain_is_cut(
    unit: &Unit,
    current: LocalDefId,
    followed: Seq<Violation>,
    budget: nat,
)
    requires
        only_delegates(unit),
        unit.defines(current),
    ensures
        attribute(unit, current, followed, Seq::empty(), budget).rounds == budget,
        attribute(unit, current, followed, Seq::empty(), budget).reasons.len() == followed.len()
            + budget,
    decreases budget,
{
    if budget > 0 {
        let call = classification(unit, current)[0];
        let callee = followed_callee(unit, call)->0;
        assert(classification(unit, current) == seq![call]);
        lemma_round_of_sole_call(unit, current, followed, call, callee);
        lemma_endless_chain_is_cut(unit, callee, followed.push(call), (budget - 1) as nat);
    }
}

/// A function that holds a cause of its own is explained by itself: the
/// search ends in its first round, with the causes of the function followed
/// by its calls to unsafe functions. The causes are the operations of the
/// body that are no calls to unsafe functions, in their order; none of them
/// says that the function is unsafe by choice.
pub proof fn lemma_cause_ends_search(unit: &Unit, fun_id: LocalDefId, i: int)
    requires
        0 <= i < body_violations(unit, fun_id).len(),
        !body_violations(unit, fun_id)[i].kind.is_delegating(),
    ensures
        classification(unit, fun_id) == body_violations(unit, fun_id),
        body_violations(unit, fun_id).filter(is_terminal()).len() > 0,
        forall|k: int|
            0 <= k < body_violations(unit, fun_id).filter(is_terminal()).len() ==> {
                let cause = #[trigger] body_violations(unit, fun_id).filter(is_terminal())[k];
                !(cause.kind is CallToUnsafeFunction) && !(cause.kind is ChoosenUnsafe)
            },
        attribute(unit, fun_id, Seq::empty(), Seq::empty(), CHAIN_BUDGET as nat) == (Attribution {
            reasons: body_violations(unit, fun_id).filter(is_terminal()) + body_violations(
                unit,
                fun_id,
            ).filter(is_delegating()),
            rounds: 1,
        }),
{
    let none = Seq::<Violation>::empty();
    let found = body_violations(unit, fun_id);
    found.lemma_filter_contains(is_terminal(), i);
    let terminal = found.filter(is_terminal());
    let delegating = found.filter(is_delegating());
    assert(terminal + none + (none + delegating) == terminal + delegating);
    lemma_body_violations_are_operations(unit, fun_id);
    assert forall|k: int| 0 <= k < terminal.len() implies {
        let cause = #[trigger] terminal[k];
        !(cause.kind is CallToUnsafeFunction) && !(cause.kind is ChoosenUnsafe)
    } by {
        found.lemma_filter_pred(is_terminal(), k);
        found.lemma_filter_contains_rev(is_terminal(), terminal[k]);
    }
}

/// A function that is unsafe for nothing but a call to an unsafe function
/// of the unit is explained by its callee: where the callee holds a cause
/// of its own, the search ends in its second round. The answer holds the
/// causes of the callee first, then the call that was followed, then the
/// callee's calls to unsafe functions.
pub proof fn lemma_sole_call_is_followed(
    unit: &Unit,
    fun_id: LocalDefId,
    call: Violation,
    callee: LocalDefId,
)
    requires
        classification(unit, fun_id) == seq![call],
        call.kind == UnsafeOpKind::CallToUnsafeFunction(Some(callee)),
        unit.defines(callee),
        classification(unit, callee).filter(is_terminal()).len() > 0,
    ensures
        attribute(unit, fun_id, Seq::empty(), Seq::empty(), CHAIN_BUDGET as nat) == (Attribution {
            reasons: classification(unit, callee).filter(is_terminal()) + seq![call]
                + classification(unit, callee).filter(is_delegating()),
            rounds: 2,
        }),
{
    let none = Seq::<Violation>::empty();
    let terminal = classification(unit, callee).filter(is_terminal());
    let delegating = classification(unit, callee).filter(is_delegating());
    // the first round follows the call
    lemma_round_of_sole_call(unit, fun_id, none, call, callee);
    assert(none.push(call) == seq![call]);
    // the second round finds the cause
    assert(search_round(unit, callee, seq![call], none) == (Round::Answer {
        reasons: terminal + seq![call] + (none + delegating),
    }));
    assert(none + delegating == delegating);
    let second = attribute(unit, callee, seq![call], none, (CHAIN_BUDGET - 1) as nat);
    assert(second == (Attribution { reasons: terminal + seq![call] + delegating, rounds: 1 }));
}

/// A function that is unsafe only for its calls, the first of them to an
/// unsafe function outside the unit, is explained by that call: the search
/// ends in its first round, with the calls of the function in the order
/// they were found.
pub proof fn lemma_external_call_ends_search(unit: &Unit, fun_id: LocalDefId)
    requires
        classification(unit, fun_id).len() > 0,
        all_calls(classification(unit, fun_id)),
        classification(unit, fun_id)[0].kind == UnsafeOpKind::CallToUnsafeFunction(None),
    ensures
        attribute(unit, fun_id, Seq::empty(), Seq::empty(), CHAIN_BUDGET as nat) == (Attribution {
            reasons: classification(unit, fun_id),
            rounds: 1,
        }),
{
    let none = Seq::<Violation>::empty();
    let found = classification(unit, fun_id);
    lemma_filter_calls(found);
    let queue = none + found.filter(is_delegating());
    assert(queue == found);
    assert(none + queue == found);
    assert(search_round(unit, fun_id, none, none) == (Round::Answer { reasons: found }));
}

/// A function that is unsafe only for its calls, the first of them to an
/// unsafe function outside the unit, is reported in a single block, which
/// notes that the function calls an external unsafe function.
pub proof fn lemma_external_call_is_reported(
    unit: &Unit,
    fun_id: LocalDefId,
    report: Seq<DiagnosticView>,
)
    requires
        classification(unit, fun_id).len() > 0,
        all_calls(classification(unit, fun_id)),
        classification(unit, fun_id)[0].kind == UnsafeOpKind::CallToUnsafeFunction(None),
        is_report(unit, reasons_of(unit, fun_id), report),
    ensures
        report.len() == 1,
        report[0].owner == fun_id,
        report[0].notes == seq![external_note()],
{
    lemma_external_call_ends_search(unit, fun_id);
    lemma_classification_owned(unit, fun_id);
    lemma_external_call_is_noted(unit, fun_id, classification(unit, fun_id), report);
}

} // verus!
