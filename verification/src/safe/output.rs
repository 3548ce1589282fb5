//! The report: the reasons, grouped by the function they were found in.

use crate::safe::adaptors::{
    concat_groups, group_by, is_grouped_by_owner, is_sorted_by_owner, owned_by, sorted_by_key,
    sorted_by_owner, unique_by, unique_by_span,
};
use crate::safe::diagnostic::{Diagnostic, DiagnosticView, Label, LabelStyle, LabelView, Severity};
use crate::safe::owners_defined;
use crate::safe::unsafety_visitor::{chosen_unsafe, UnsafeOpKind, Violation};
use crate::unit::{LocalDefId, Span, Unit};
use vstd::prelude::*;
use vstd::string::StringExecFns;

verus! {

/// The message of the label that marks the function of a block.
pub open spec fn header_message() -> Seq<char> {
    "function is unsafe because:"@
}

/// The message of the leading block.
pub open spec fn leading_message() -> Seq<char> {
    "Function is unsafe"@
}

/// The note of a block whose causes are all calls to functions outside the
/// unit.
pub open spec fn external_note() -> Seq<char> {
    "this function calls an external unsafe function"@
}

/// The note of a block with a cause that is no call.
pub open spec fn fundamental_note() -> Seq<char> {
    "this function does a fundamentally unsafe operation"@
}

/// The label of `style` on `span` in file `id`; without a message it says
/// nothing.
pub fn span_label(id: usize, span: Span, style: LabelStyle, message: Option<String>) -> (r: Label)
    ensures
        r@ == (LabelView {
            style,
            file_id: id,
            start: span.lo,
            end: span.hi,
            message: match message {
                Some(m) => m@,
                None => Seq::empty(),
            },
        }),
{
    let message = match message {
        Some(m) => m,
        None => String::new(),
    };
    Label { style, file_id: id, start: span.lo, end: span.hi, message }
}

/// The callee that a reason can be named by: the function of the unit that
/// the reason calls.
pub open spec fn named_callee(unit: &Unit, kind: UnsafeOpKind) -> Option<LocalDefId> {
    match kind.callee() {
        Some(did) => match did.as_local() {
            Some(callee) => if unit.defines(callee) {
                Some(callee)
            } else {
                None
            },
            None => None,
        },
        None => None,
    }
}

/// A reason is a cause in its own right unless it is a call to a function
/// of the unit, which only points to where the cause may lie.
pub open spec fn is_primary(unit: &Unit, kind: UnsafeOpKind) -> bool {
    named_callee(unit, kind) is None
}

/// The kinds that are calls.
pub open spec fn is_call(kind: UnsafeOpKind) -> bool {
    kind is CallToUnsafeFunction || kind is CallToFunctionWith
}

/// The label of the function that a block is about: on its signature.
pub open spec fn header_label(unit: &Unit, owner: LocalDefId) -> LabelView {
    LabelView {
        style: LabelStyle::Primary,
        file_id: unit.def(owner).span.file,
        start: unit.def(owner).span.lo,
        end: unit.def(owner).span.hi,
        message: header_message(),
    }
}

/// The label of a reason. A cause is marked as primary and described in a
/// few words; a call to a function of the unit is marked as secondary and
/// names the callee by its path.
pub open spec fn reason_label(unit: &Unit, reason: Violation) -> LabelView {
    LabelView {
        style: if is_primary(unit, reason.kind) {
            LabelStyle::Primary
        } else {
            LabelStyle::Secondary
        },
        file_id: reason.span.file,
        start: reason.span.lo,
        end: reason.span.hi,
        message: match named_callee(unit, reason.kind) {
            Some(callee) => reason.kind.spec_description(unit.def(callee).path@),
            None => reason.kind.spec_simple_description(),
        },
    }
}

/// The notes of a block with the reasons `group`: none if no reason is a
/// cause; that the function calls an external unsafe function if every
/// cause is a call; else that it does a fundamentally unsafe operation.
pub open spec fn group_notes(unit: &Unit, group: Seq<Violation>) -> Seq<Seq<char>> {
    if forall|i: int| 0 <= i < group.len() ==> !is_primary(unit, (#[trigger] group[i]).kind) {
        Seq::empty()
    } else if forall|i: int|
        0 <= i < group.len() && is_primary(unit, (#[trigger] group[i]).kind) ==> is_call(
            group[i].kind,
        ) {
        seq![external_note()]
    } else {
        seq![fundamental_note()]
    }
}

/// The block for the function `owner` with the reasons `group`: the label
/// of the function, then the label of each reason. The leading block is a
/// note with a message, the others are help without.
pub open spec fn block(
    unit: &Unit,
    owner: LocalDefId,
    group: Seq<Violation>,
    leading: bool,
) -> DiagnosticView {
    DiagnosticView {
        owner,
        severity: if leading {
            Severity::Note
        } else {
            Severity::Help
        },
        message: if leading {
            leading_message()
        } else {
            Seq::empty()
        },
        labels: seq![header_label(unit, owner)] + group.map_values(
            |reason: Violation| reason_label(unit, reason),
        ),
        notes: group_notes(unit, group),
    }
}

/// Whether `blocks` is the report of `reasons`.
///
/// Of the reasons with one span only the first counts. There is one block
/// for each function that owns a reason that counts, in ascending order of
/// the functions' indices; the block of a function holds the reasons that
/// count and that it owns, in their order. The first block is the leading
/// one.
pub open spec fn is_report(
    unit: &Unit,
    reasons: Seq<Violation>,
    blocks: Seq<DiagnosticView>,
) -> bool {
    let unique = unique_by_span(reasons);
    &&& forall|i: int, j: int|
        0 <= i < j < blocks.len() ==> (#[trigger] blocks[i]).owner.local_def_index < (
        #[trigger] blocks[j]).owner.local_def_index
    &&& forall|i: int|
        0 <= i < blocks.len() ==> {
            let group = unique.filter(owned_by((#[trigger] blocks[i]).owner.local_def_index));
            group.len() > 0 && blocks[i] == block(unit, blocks[i].owner, group, i == 0)
        }
    &&& forall|k: int|
        0 <= k < unique.len() ==> exists|i: int|
            0 <= i < blocks.len() && (#[trigger] blocks[i]).owner == (#[trigger] unique[k]).owner
}

/// The reasons that are reported for `checked_fn`: the reasons that were
/// found, or, where none was found, the one reason that the function is
/// unsafe by choice.
pub open spec fn reported(
    unit: &Unit,
    reasons: Seq<Violation>,
    checked_fn: LocalDefId,
) -> Seq<Violation> {
    if reasons.len() == 0 {
        seq![chosen_unsafe(unit, checked_fn)]
    } else {
        reasons
    }
}

/// The blocks as values.
pub open spec fn blocks_view(blocks: Seq<Diagnostic>) -> Seq<DiagnosticView> {
    blocks.map_values(|d: Diagnostic| d@)
}

/// The reasons for which a function is unsafe, ready to be reported.
pub struct SafeOutput {
    /// The reasons, the most serious first.
    pub reasons: Vec<Violation>,
}

/// Whether each group holds records, all of them of the group's owner.
pub open spec fn groups_hold_their_owner(groups: Seq<(usize, Vec<Violation>)>) -> bool {
    &&& forall|i: int| 0 <= i < groups.len() ==> (#[trigger] groups[i]).1@.len() > 0
    &&& forall|i: int, k: int|
        0 <= i < groups.len() && 0 <= k < groups[i].1@.len() ==> (#[trigger] groups[i].1@[k]).owner.local_def_index
            == groups[i].0
}

/// Each record of a group is among the records of all groups.
proof fn lemma_concat_contains(groups: Seq<(usize, Vec<Violation>)>, i: int, k: int)
    requires
        0 <= i < groups.len(),
        0 <= k < groups[i].1@.len(),
    ensures
        concat_groups(groups).contains(groups[i].1@[k]),
    decreases groups.len(),
{
    let init = concat_groups(groups.drop_last());
    let last = groups.last().1@;
    if i == groups.len() - 1 {
        assert((init + last)[init.len() + k] == last[k]);
    } else {
        lemma_concat_contains(groups.drop_last(), i, k);
        let p = choose|p: int| 0 <= p < init.len() && init[p] == groups[i].1@[k];
        assert((init + last)[p] == init[p]);
    }
}

/// Where the records of all groups are sorted by owner, the owners of the
/// groups do not fall.
proof fn lemma_owners_ascend(groups: Seq<(usize, Vec<Violation>)>, i: int, j: int)
    requires
        groups_hold_their_owner(groups),
        sorted_by_owner(concat_groups(groups)),
        0 <= i < j < groups.len(),
    ensures
        groups[i].0 <= groups[j].0,
    decreases groups.len(),
{
    let init = concat_groups(groups.drop_last());
    let last = groups.last().1@;
    let all = concat_groups(groups);
    if j == groups.len() - 1 {
        lemma_concat_contains(groups.drop_last(), i, 0);
        let p = choose|p: int| 0 <= p < init.len() && init[p] == groups[i].1@[0];
        assert(all[p] == groups[i].1@[0]);
        assert(all[init.len() as int] == groups[j].1@[0]);
    } else {
        assert forall|a: int, b: int| 0 <= a <= b < init.len() implies init[a].owner.local_def_index
            <= init[b].owner.local_def_index by {
            assert(all[a] == init[a]);
            assert(all[b] == init[b]);
        }
        lemma_owners_ascend(groups.drop_last(), i, j);
    }
}

/// Where also two groups that follow each other differ in the owner, the
/// owners of the groups rise.
proof fn lemma_owners_rise(groups: Seq<(usize, Vec<Violation>)>, i: int, j: int)
    requires
        is_grouped_by_owner(groups, concat_groups(groups)),
        sorted_by_owner(concat_groups(groups)),
        0 <= i < j < groups.len(),
    ensures
        groups[i].0 < groups[j].0,
    decreases j - i,
{
    lemma_owners_ascend(groups, j - 1, j);
    if i < j - 1 {
        lemma_owners_rise(groups, i, j - 1);
    }
}

/// What is filtered by a predicate that all records meet is everything.
proof fn lemma_filter_all(s: Seq<Violation>, index: usize)
    requires
        forall|k: int| 0 <= k < s.len() ==> (#[trigger] s[k]).owner.local_def_index == index,
    ensures
        s.filter(owned_by(index)) == s,
    decreases s.len(),
{
    reveal(Seq::filter);
    if s.len() > 0 {
        lemma_filter_all(s.drop_last(), index);
    }
}

/// What is filtered by a predicate that no record meets is nothing.
proof fn lemma_filter_none(s: Seq<Violation>, index: usize)
    requires
        forall|k: int| 0 <= k < s.len() ==> (#[trigger] s[k]).owner.local_def_index != index,
    ensures
        s.filter(owned_by(index)) == Seq::<Violation>::empty(),
    decreases s.len(),
{
    reveal(Seq::filter);
    if s.len() > 0 {
        lemma_filter_none(s.drop_last(), index);
    }
}

/// Where no two groups have one owner, the records of all groups that an
/// owner has are the records of its group.
proof fn lemma_filter_concat(groups: Seq<(usize, Vec<Violation>)>, index: usize)
    requires
        groups_hold_their_owner(groups),
        forall|i: int, j: int|
            0 <= i < j < groups.len() ==> (#[trigger] groups[i]).0 != (#[trigger] groups[j]).0,
    ensures
        forall|i: int|
            0 <= i < groups.len() && (#[trigger] groups[i]).0 == index ==> concat_groups(
                groups,
            ).filter(owned_by(index)) == groups[i].1@,
        (forall|i: int| 0 <= i < groups.len() ==> (#[trigger] groups[i]).0 != index)
            ==> concat_groups(groups).filter(owned_by(index)) == Seq::<Violation>::empty(),
    decreases groups.len(),
{
    if groups.len() > 0 {
        let init = concat_groups(groups.drop_last());
        let last = groups.last();
        lemma_filter_concat(groups.drop_last(), index);
        Seq::filter_distributes_over_add(init, last.1@, owned_by(index));
        if last.0 == index {
            lemma_filter_all(last.1@, index);
            assert(init.filter(owned_by(index)) == Seq::<Violation>::empty());
        } else {
            lemma_filter_none(last.1@, index);
            assert forall|i: int|
                0 <= i < groups.len() && (#[trigger] groups[i]).0 == index implies concat_groups(
                groups,
            ).filter(owned_by(index)) == groups[i].1@ by {
                assert(groups.drop_last()[i] == groups[i]);
            }
        }
    }
}

/// The groups that come of sorting records by owner and cutting the result
/// into runs: their owners rise, each holds the records of its owner in
/// their first order, and every owner of a record has its group.
proof fn lemma_groups_by_owner(
    unique: Seq<Violation>,
    sorted: Seq<Violation>,
    groups: Seq<(usize, Vec<Violation>)>,
)
    requires
        is_sorted_by_owner(sorted, unique),
        is_grouped_by_owner(groups, sorted),
    ensures
        forall|i: int, j: int|
            0 <= i < j < groups.len() ==> (#[trigger] groups[i]).0 < (#[trigger] groups[j]).0,
        forall|i: int|
            0 <= i < groups.len() ==> (#[trigger] groups[i]).1@ == unique.filter(
                owned_by(groups[i].0),
            ),
        forall|k: int|
            0 <= k < unique.len() ==> exists|i: int|
                0 <= i < groups.len() && (#[trigger] groups[i]).0 == (
                #[trigger] unique[k]).owner.local_def_index,
{
    assert forall|i: int, j: int| 0 <= i < j < groups.len() implies (#[trigger] groups[i]).0 < (
    #[trigger] groups[j]).0 by {
        lemma_owners_rise(groups, i, j);
    }
    assert forall|i: int| 0 <= i < groups.len() implies (#[trigger] groups[i]).1@
        == unique.filter(owned_by(groups[i].0)) by {
        lemma_filter_concat(groups, groups[i].0);
    }
    assert forall|k: int| 0 <= k < unique.len() implies exists|i: int|
        0 <= i < groups.len() && (#[trigger] groups[i]).0 == (
        #[trigger] unique[k]).owner.local_def_index by {
        let index = unique[k].owner.local_def_index;
        lemma_filter_concat(groups, index);
        unique.lemma_filter_contains(owned_by(index), k);
    }
}

/// What stays of `s` when each span is kept once was in `s`.
proof fn lemma_unique_within(s: Seq<Violation>, k: int)
    requires
        0 <= k < unique_by_span(s).len(),
    ensures
        s.contains(unique_by_span(s)[k]),
    decreases s.len(),
{
    if s.len() > 0 {
        let init = unique_by_span(s.drop_last());
        if k < init.len() {
            lemma_unique_within(s.drop_last(), k);
            let p = choose|p: int| 0 <= p < s.len() - 1 && s.drop_last()[p] == init[k];
            assert(s[p] == init[k]);
        } else {
            assert(s[s.len() - 1] == s.last());
        }
    }
}

/// The function of the unit that `kind` calls, if it calls one.
fn named_callee_of(unit: &Unit, kind: &UnsafeOpKind) -> (r: Option<LocalDefId>)
    ensures
        r == named_callee(unit, *kind),
{
    match kind.callee() {
        Some(did) => match did.as_local() {
            Some(callee) => match unit.get(callee) {
                Some(_) => Some(callee),
                None => None,
            },
            None => None,
        },
        None => None,
    }
}

impl SafeOutput {
    /// Makes the report of why `checked_fn` is unsafe: one block for each
    /// function that owns a reason, in the order of the functions'
    /// declarations.
    ///
    /// Without any reason the report falls back to the one reason that
    /// `checked_fn` is unsafe by choice. Reasons that share a span with an
    /// earlier reason are left out. Each block marks its function, then each
    /// of the function's reasons in the order they were found: a cause as
    /// primary, a call to a function of the unit as secondary. The first
    /// block is a note, the others are help.
    pub fn print(self, unit: &Unit, checked_fn: LocalDefId) -> (r: Vec<Diagnostic>)
        requires
            owners_defined(unit, self.reasons@),
            unit.defines(checked_fn),
        ensures
            is_report(unit, reported(unit, self.reasons@, checked_fn), blocks_view(r@)),
    {
        let ghost given = self.reasons@;
        let mut found = self.reasons;
        if found.len() == 0 {
            found.push(
                Violation {
                    kind: UnsafeOpKind::ChoosenUnsafe,
                    owner: checked_fn,
                    span: unit.defs[checked_fn.local_def_index].span,
                },
            );
        }
        assert(found@ == reported(unit, given, checked_fn));
        let ghost reasons = found@;
        let unique = unique_by(found);
        let ghost unique_reasons = unique@;
        let sorted = sorted_by_key(unique);
        let ghost sorted_reasons = sorted@;
        let groups = group_by(sorted);
        proof {
            lemma_groups_by_owner(unique_reasons, sorted_reasons, groups@);
            assert forall|i: int| 0 <= i < groups@.len() implies unit.defines(
                LocalDefId { local_def_index: (#[trigger] groups@[i]).0 },
            ) by {
                let group = unique_reasons.filter(owned_by(groups@[i].0));
                unique_reasons.lemma_filter_contains_rev(owned_by(groups@[i].0), group[0]);
                let k = choose|k: int|
                    0 <= k < unique_reasons.len() && unique_reasons[k] == group[0];
                lemma_unique_within(reasons, k);
            }
        }
        let mut blocks: Vec<Diagnostic> = Vec::new();
        let mut first = true;
        let mut g: usize = 0;
        while g < groups.len()
            invariant
                g <= groups.len(),
                blocks@.len() == g,
                first == (g == 0),
                groups_hold_their_owner(groups@),
                forall|i: int|
                    0 <= i < groups@.len() ==> unit.defines(
                        LocalDefId { local_def_index: (#[trigger] groups@[i]).0 },
                    ),
                forall|i: int|
                    0 <= i < g ==> (#[trigger] blocks@[i])@ == block(
                        unit,
                        LocalDefId { local_def_index: groups@[i].0 },
                        groups@[i].1@,
                        i == 0,
                    ),
            decreases groups.len() - g,
        {
            let did = LocalDefId { local_def_index: groups[g].0 };
            let group = &groups[g].1;
            let block = Self::block_for(unit, did, group, first);
            first = false;
            blocks.push(block);
            g += 1;
        }
        proof {
            let views = blocks_view(blocks@);
            assert forall|k: int| 0 <= k < unique_reasons.len() implies exists|i: int|
                0 <= i < views.len() && (#[trigger] views[i]).owner == (
                #[trigger] unique_reasons[k]).owner by {
                let i = choose|i: int|
                    0 <= i < groups@.len() && (#[trigger] groups@[i]).0
                        == unique_reasons[k].owner.local_def_index;
                assert(views[i] == blocks@[i]@);
            }
        }
        blocks
    }

    /// The block for the function `owner` with the reasons `group`.
    fn block_for(unit: &Unit, owner: LocalDefId, group: &Vec<Violation>, leading: bool) -> (r:
        Diagnostic)
        requires
            unit.defines(owner),
        ensures
            r@ == block(unit, owner, group@, leading),
    {
        let mut labels: Vec<Label> = Vec::new();
        labels.push(
            span_label(
                unit.defs[owner.local_def_index].span.file,
                unit.defs[owner.local_def_index].span,
                LabelStyle::Primary,
                Some(String::from_str("function is unsafe because:")),
            ),
        );
        let mut primary_reason = false;
        let mut primary_reason_is_extern = true;
        let mut k: usize = 0;
        while k < group.len()
            invariant
                k <= group.len(),
                labels@.map_values(|l: Label| l@) == seq![header_label(unit, owner)]
                    + group@.take(k as int).map_values(
                    |reason: Violation| reason_label(unit, reason),
                ),
                primary_reason == exists|i: int|
                    0 <= i < k && is_primary(unit, (#[trigger] group@[i]).kind),
                primary_reason_is_extern == forall|i: int|
                    0 <= i < k && is_primary(unit, (#[trigger] group@[i]).kind) ==> is_call(
                        group@[i].kind,
                    ),
            decreases group.len() - k,
        {
            let reason = &group[k];
            let label = match named_callee_of(unit, &reason.kind) {
                Some(callee) => span_label(
                    reason.span.file,
                    reason.span,
                    LabelStyle::Secondary,
                    Some(
                        reason.kind.description_and_note(
                            unit.defs[callee.local_def_index].path.as_str(),
                        ).0,
                    ),
                ),
                None => {
                    primary_reason = true;
                    match reason.kind {
                        UnsafeOpKind::CallToUnsafeFunction(_)
                        | UnsafeOpKind::CallToFunctionWith(_) => {},
                        _ => {
                            primary_reason_is_extern = false;
                        },
                    }
                    span_label(
                        reason.span.file,
                        reason.span,
                        LabelStyle::Primary,
                        Some(String::from_str(reason.kind.simple_description())),
                    )
                },
            };
            let ghost before = labels@;
            labels.push(label);
            proof {
                assert(labels@.map_values(|l: Label| l@) == before.map_values(|l: Label| l@).push(
                    label@,
                ));
            }
            k += 1;
        }
        assert(group@.take(k as int) == group@);
        let mut notes: Vec<String> = Vec::new();
        if primary_reason {
            if primary_reason_is_extern {
                notes.push(String::from_str("this function calls an external unsafe function"));
            } else {
                notes.push(
                    String::from_str("this function does a fundamentally unsafe operation"),
                );
            }
        }
        let (severity, message) = if leading {
            (Severity::Note, String::from_str("Function is unsafe"))
        } else {
            (Severity::Help, String::new())
        };
        let block = Diagnostic { owner, severity, message, labels, notes };
        assert(block@.notes == group_notes(unit, group@));
        block
    }
}

/// A report of given reasons is one report only: the reasons settle every
/// block of it.
pub proof fn lemma_report_is_unique(
    unit: &Unit,
    reasons: Seq<Violation>,
    a: Seq<DiagnosticView>,
    b: Seq<DiagnosticView>,
)
    requires
        is_report(unit, reasons, a),
        is_report(unit, reasons, b),
    ensures
        a == b,
{
    lemma_same_owners(unit, reasons, a, b, a.len() as int);
    lemma_same_owners(unit, reasons, b, a, b.len() as int);
    if a.len() < b.len() {
        lemma_owner_has_block(unit, reasons, b, a, a.len() as int);
    }
    if b.len() < a.len() {
        lemma_owner_has_block(unit, reasons, a, b, b.len() as int);
    }
    assert forall|i: int| 0 <= i < a.len() implies a[i] == b[i] by {
        assert(a[i].owner == b[i].owner);
    }
}

/// The owner of a block of one report has a block in any other report of
/// the same reasons.
proof fn lemma_owner_has_block(
    unit: &Unit,
    reasons: Seq<Violation>,
    a: Seq<DiagnosticView>,
    b: Seq<DiagnosticView>,
    i: int,
) -> (j: int)
    requires
        is_report(unit, reasons, a),
        is_report(unit, reasons, b),
        0 <= i < a.len(),
    ensures
        0 <= j < b.len(),
        b[j].owner == a[i].owner,
{
    let unique = unique_by_span(reasons);
    let index = a[i].owner.local_def_index;
    let group = unique.filter(owned_by(index));
    unique.lemma_filter_contains_rev(owned_by(index), group[0]);
    unique.lemma_filter_pred(owned_by(index), 0);
    let k = choose|k: int| 0 <= k < unique.len() && unique[k] == group[0];
    let j = choose|j: int| 0 <= j < b.len() && (#[trigger] b[j]).owner == unique[k].owner;
    j
}

/// Two reports of the same reasons have the same owners in their first `n`
/// blocks, as far as both have that many.
proof fn lemma_same_owners(
    unit: &Unit,
    reasons: Seq<Violation>,
    a: Seq<DiagnosticView>,
    b: Seq<DiagnosticView>,
    n: int,
)
    requires
        is_report(unit, reasons, a),
        is_report(unit, reasons, b),
        0 <= n <= a.len(),
    ensures
        forall|i: int| 0 <= i < n && i < b.len() ==> (#[trigger] a[i]).owner == b[i].owner,
    decreases n,
{
    if n > 0 {
        lemma_same_owners(unit, reasons, a, b, n - 1);
        let i = n - 1;
        if i < b.len() {
            // the owner of a[i] has a block b[j], and that of b[i] a block a[l]
            let j = lemma_owner_has_block(unit, reasons, a, b, i);
            let l = lemma_owner_has_block(unit, reasons, b, a, i);
            if j < i {
                assert(a[j].owner == b[j].owner);
                assert(a[j].owner.local_def_index < a[i].owner.local_def_index);
            }
            if l < i {
                assert(a[l].owner == b[l].owner);
                assert(b[l].owner.local_def_index < b[i].owner.local_def_index);
            }
            if j > i {
                assert(b[i].owner.local_def_index < b[j].owner.local_def_index);
            }
            if l > i {
                assert(a[i].owner.local_def_index < a[l].owner.local_def_index);
            }
        }
    }
}

/// Where all reasons are of one function, every report of them is a single
/// block: the leading block of that function, with the reasons that are
/// left when each span is kept once.
pub proof fn lemma_report_of_one_function(
    unit: &Unit,
    owner: LocalDefId,
    reasons: Seq<Violation>,
    blocks: Seq<DiagnosticView>,
)
    requires
        reasons.len() > 0,
        forall|i: int| 0 <= i < reasons.len() ==> (#[trigger] reasons[i]).owner == owner,
        is_report(unit, reasons, blocks),
    ensures
        blocks.len() == 1,
        blocks[0] == block(unit, owner, unique_by_span(reasons), true),
{
    let unique = unique_by_span(reasons);
    lemma_unique_keeps_first(reasons);
    assert forall|k: int| 0 <= k < unique.len() implies (#[trigger] unique[k]).owner == owner by {
        lemma_unique_within(reasons, k);
    }
    let j = choose|j: int| 0 <= j < blocks.len() && (#[trigger] blocks[j]).owner == unique[0].owner;
    assert forall|i: int| 0 <= i < blocks.len() implies (#[trigger] blocks[i]).owner == owner by {
        let group = unique.filter(owned_by(blocks[i].owner.local_def_index));
        unique.lemma_filter_contains_rev(owned_by(blocks[i].owner.local_def_index), group[0]);
        unique.lemma_filter_pred(owned_by(blocks[i].owner.local_def_index), 0);
    }
    if blocks.len() > 1 {
        assert(blocks[0].owner.local_def_index < blocks[1].owner.local_def_index);
    }
    lemma_filter_all(unique, owner.local_def_index);
}

/// Where a function is unsafe only for its calls, and the first of them is
/// a call to a function outside the unit, every report of those calls is a
/// single block that notes that the function calls an external unsafe
/// function.
pub proof fn lemma_external_call_is_noted(
    unit: &Unit,
    owner: LocalDefId,
    calls: Seq<Violation>,
    blocks: Seq<DiagnosticView>,
)
    requires
        calls.len() > 0,
        forall|i: int|
            0 <= i < calls.len() ==> (#[trigger] calls[i]).owner == owner && is_call(
                calls[i].kind,
            ),
        is_primary(unit, calls[0].kind),
        is_report(unit, calls, blocks),
    ensures
        blocks.len() == 1,
        blocks[0].owner == owner,
        blocks[0].notes == seq![external_note()],
{
    let unique = unique_by_span(calls);
    lemma_report_of_one_function(unit, owner, calls, blocks);
    lemma_unique_keeps_first(calls);
    assert forall|k: int| 0 <= k < unique.len() implies is_call((#[trigger] unique[k]).kind) by {
        lemma_unique_within(calls, k);
    }
    assert(is_primary(unit, unique[0].kind));
}

/// Without any reason, the report of a function is a single block: the
/// function is marked at its signature, and the one reason, labelled there
/// too, is that it is unsafe by choice.
pub proof fn lemma_report_falls_back(
    unit: &Unit,
    checked_fn: LocalDefId,
    blocks: Seq<DiagnosticView>,
)
    requires
        is_report(unit, reported(unit, Seq::empty(), checked_fn), blocks),
    ensures
        blocks.len() == 1,
        blocks[0] == block(unit, checked_fn, seq![chosen_unsafe(unit, checked_fn)], true),
        blocks[0].labels == seq![
            header_label(unit, checked_fn),
            reason_label(unit, chosen_unsafe(unit, checked_fn)),
        ],
        reason_label(unit, chosen_unsafe(unit, checked_fn)).message
            == UnsafeOpKind::ChoosenUnsafe.spec_simple_description(),
        blocks[0].notes == seq![fundamental_note()],
{
    let chosen = chosen_unsafe(unit, checked_fn);
    let reasons = seq![chosen];
    lemma_report_of_one_function(unit, checked_fn, reasons, blocks);
    lemma_unique_keeps_first(reasons);
    assert(reasons.drop_last() == Seq::<Violation>::empty());
    assert(unique_by_span(reasons.drop_last()) == Seq::<Violation>::empty());
    assert(unique_by_span(reasons) == reasons);
    assert(is_primary(unit, reasons[0].kind));
    assert(!is_call(reasons[0].kind));
}

/// What stays of `s` when each span is kept once begins as `s` does.
proof fn lemma_unique_keeps_first(s: Seq<Violation>)
    requires
        s.len() > 0,
    ensures
        unique_by_span(s).len() > 0,
        unique_by_span(s)[0] == s[0],
    decreases s.len(),
{
    if s.len() > 1 {
        lemma_unique_keeps_first(s.drop_last());
    } else {
        assert(unique_by_span(s.drop_last()) == Seq::<Violation>::empty());
    }
}

} // verus!
