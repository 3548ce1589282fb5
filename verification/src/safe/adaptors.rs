//! The iterator adaptors of `itertools` that the report is made with, each
//! with what it is relied on for.

use crate::safe::unsafety_visitor::Violation;
use itertools::Itertools;
use vstd::prelude::*;

verus! {

/// The records of `s` with each span kept once: of the records of one span
/// the first stays, and what stays keeps its order.
pub open spec fn unique_by_span(s: Seq<Violation>) -> Seq<Violation>
    decreases s.len(),
{
    if s.len() == 0 {
        s
    } else if exists|i: int| 0 <= i < s.len() - 1 && s[i].span == s.last().span {
        unique_by_span(s.drop_last())
    } else {
        unique_by_span(s.drop_last()).push(s.last())
    }
}

/// The records that are reported under the definition with index `index`.
pub open spec fn owned_by(index: usize) -> spec_fn(Violation) -> bool {
    |v: Violation| v.owner.local_def_index == index
}

/// Whether the owners' indices never fall along `s`.
pub open spec fn sorted_by_owner(s: Seq<Violation>) -> bool {
    forall|i: int, j: int|
        0 <= i <= j < s.len() ==> s[i].owner.local_def_index <= s[j].owner.local_def_index
}

/// Whether `sorted` holds the records of `s` in the order of their owners'
/// indices, the records of one owner in the order they have in `s`.
pub open spec fn is_sorted_by_owner(sorted: Seq<Violation>, s: Seq<Violation>) -> bool {
    &&& sorted.len() == s.len()
    &&& sorted_by_owner(sorted)
    &&& forall|index: usize| #[trigger]
        sorted.filter(owned_by(index)) == s.filter(owned_by(index))
}

/// The records of the groups, one group after the other.
pub open spec fn concat_groups(groups: Seq<(usize, Vec<Violation>)>) -> Seq<Violation>
    decreases groups.len(),
{
    if groups.len() == 0 {
        Seq::empty()
    } else {
        concat_groups(groups.drop_last()) + groups.last().1@
    }
}

/// Whether `groups` cuts `s` into its runs of records of one owner: each
/// group is a run with its owner's index, no group is empty, the groups in
/// their order make up `s`, and two groups that follow each other differ in
/// the owner.
pub open spec fn is_grouped_by_owner(
    groups: Seq<(usize, Vec<Violation>)>,
    s: Seq<Violation>,
) -> bool {
    &&& concat_groups(groups) == s
    &&& forall|i: int| 0 <= i < groups.len() ==> (#[trigger] groups[i]).1@.len() > 0
    &&& forall|i: int, k: int|
        0 <= i < groups.len() && 0 <= k < groups[i].1@.len() ==> (#[trigger] groups[i].1@[k]).owner.local_def_index
            == groups[i].0
    &&& forall|i: int|
        0 <= i < groups.len() - 1 ==> (#[trigger] groups[i]).0 != groups[i + 1].0
}

/// `Itertools::unique_by`, keyed by the span: of the records that share a
/// span only the first is handed on, and those handed on keep their order.
#[verifier::external_body]
pub(crate) fn unique_by(reasons: Vec<Violation>) -> (r: Vec<Violation>)
    ensures
        r@ == unique_by_span(reasons@),
{
    reasons.into_iter().unique_by(|v| (v.span.file, v.span.lo, v.span.hi)).collect()
}

/// `Itertools::sorted_by_key`, keyed by the owner's index: the same records
/// in ascending order of the key. The sort is that of `slice::sort_by_key`,
/// which leaves records with equal keys in their order.
#[verifier::external_body]
pub(crate) fn sorted_by_key(reasons: Vec<Violation>) -> (r: Vec<Violation>)
    ensures
        is_sorted_by_owner(r@, reasons@),
{
    reasons.into_iter().sorted_by_key(|v| v.owner.local_def_index).collect()
}

/// `Itertools::group_by`, keyed by the owner's index: the runs of records
/// with one key that follow each other, each with its key, in their order.
#[verifier::external_body]
pub(crate) fn group_by(reasons: Vec<Violation>) -> (r: Vec<(usize, Vec<Violation>)>)
    ensures
        is_grouped_by_owner(r@, reasons@),
{
    let mut groups = Vec::new();
    for (owner, group) in &reasons.into_iter().group_by(|v| v.owner.local_def_index) {
        groups.push((owner, group.collect()));
    }
    groups
}

} // verus!
