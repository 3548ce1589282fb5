use cargo_whynot::error::WhyNotError;
use cargo_whynot::safe::unsafety_visitor::{UnsafeOpKind, Violation};
use cargo_whynot::safe::{FakeCallback, CHAIN_BUDGET, VISIT_BUDGET};
use cargo_whynot::thir::{Block, Expr, ExprKind, Stmt, Ty, TyKind};
use cargo_whynot::unit::{
    DefId, DefKind, Definition, FnHeader, LocalDefId, Span, Unit, Unsafety,
};
use std::collections::VecDeque;

fn span(lo: usize) -> Span {
    Span { file: 0, lo, hi: lo + 2 }
}

fn ty(kind: TyKind, unsafe_fn_sig: bool) -> Ty {
    Ty { kind, is_freeze: true, is_copy: true, unsafe_fn_sig }
}

fn expr(kind: ExprKind, lo: usize) -> Expr {
    Expr { kind, ty: ty(TyKind::Other, false), span: span(lo) }
}

/// A call to the unsafe function `callee`, at `lo`.
fn call_unsafe(callee: DefId, lo: usize) -> Expr {
    let fun = Expr {
        kind: ExprKind::Literal,
        ty: ty(TyKind::FnDef { def_id: callee, target_features: vec![] }, true),
        span: span(lo),
    };
    expr(ExprKind::Call { fun: Box::new(fun), args: vec![] }, lo)
}

/// A dereference of a raw pointer, at `lo`.
fn deref_raw(lo: usize) -> Expr {
    let pointer = Expr { kind: ExprKind::VarRef, ty: ty(TyKind::RawPtr, false), span: span(lo) };
    expr(ExprKind::Deref { arg: Box::new(pointer) }, lo)
}

/// A body that holds `exprs` as its statements.
fn body(exprs: Vec<Expr>) -> Option<Expr> {
    let stmts = exprs.into_iter().map(|expr| Stmt::Expr { expr }).collect();
    Some(expr(ExprKind::Block { body: Block { stmts, expr: None } }, 0))
}

fn local(index: usize) -> DefId {
    DefId { krate: 0, index }
}

fn id(index: usize) -> LocalDefId {
    LocalDefId { local_def_index: index }
}

const EXTERNAL: DefId = DefId { krate: 3, index: 0 };

fn def(path: &str, kind: DefKind, unsafety: Unsafety, body: Option<Expr>) -> Definition {
    Definition {
        path: path.to_string(),
        kind,
        header: FnHeader { unsafety },
        span: span(1000 + path.len()),
        target_features: vec![],
        body,
    }
}

fn unsafe_fn(path: &str, body: Option<Expr>) -> Definition {
    def(path, DefKind::Fn, Unsafety::Unsafe, body)
}

fn unit(defs: Vec<Definition>) -> Unit {
    Unit { defs, is_like_wasm: false }
}

fn callback(selector: &str) -> FakeCallback {
    FakeCallback { selector: selector.to_string() }
}

fn found(unit: &Unit, index: usize) -> Vec<Violation> {
    callback("").find_unsafe_things(unit, id(index)).unwrap()
}

fn violation(kind: UnsafeOpKind, owner: usize, lo: usize) -> Violation {
    Violation { kind, owner: id(owner), span: span(lo) }
}

fn calls(callee: usize) -> UnsafeOpKind {
    UnsafeOpKind::CallToUnsafeFunction(Some(id(callee)))
}

#[test]
fn selector_picks_the_first_match_in_declaration_order() {
    let unit = unit(vec![
        def("crate::mod::foo", DefKind::Fn, Unsafety::Unsafe, None),
        def("crate::mod::bar::foo", DefKind::Fn, Unsafety::Normal, None),
    ]);
    assert_eq!(
        callback("foo").search(&unit),
        Ok((id(0), FnHeader { unsafety: Unsafety::Unsafe }))
    );
    assert_eq!(
        callback("bar::foo").search(&unit),
        Ok((id(1), FnHeader { unsafety: Unsafety::Normal }))
    );
    assert_eq!(
        callback("mod::foo").search(&unit),
        Ok((id(0), FnHeader { unsafety: Unsafety::Unsafe }))
    );
}

#[test]
fn selector_matches_the_end_of_the_path_letter_for_letter() {
    let unit = unit(vec![
        def("a::xfoo", DefKind::Fn, Unsafety::Normal, None),
        def("a::foo", DefKind::Fn, Unsafety::Normal, None),
        def("a::foo::inner", DefKind::Fn, Unsafety::Normal, None),
    ]);
    // a plain test of the ending: a segment need not match whole
    assert_eq!(callback("foo").search(&unit).unwrap().0, id(0));
    assert_eq!(callback("::foo").search(&unit).unwrap().0, id(0));
    assert_eq!(callback("a::foo").search(&unit).unwrap().0, id(1));
    assert_eq!(callback("inner").search(&unit).unwrap().0, id(2));
    assert_eq!(callback("a::foo::inner").search(&unit).unwrap().0, id(2));
    // the empty selector ends every path
    assert_eq!(callback("").search(&unit).unwrap().0, id(0));
}

#[test]
fn selector_prefixes_are_left_aside() {
    let unit = unit(vec![
        def("other", DefKind::Fn, Unsafety::Normal, None),
        def("m::f", DefKind::Fn, Unsafety::Normal, None),
    ]);
    assert_eq!(callback("m::f").search(&unit).unwrap().0, id(1));
    assert_eq!(callback("::m::f").search(&unit).unwrap().0, id(1));
    assert_eq!(callback("crate::m::f").search(&unit).unwrap().0, id(1));
    // only one prefix is taken off
    assert!(callback("::crate::m::f").search(&unit).is_err());
    assert!(callback("crate::crate::m::f").search(&unit).is_err());
}

#[test]
fn only_functions_with_a_body_are_candidates() {
    let unit = unit(vec![
        def("t::f", DefKind::TraitFn, Unsafety::Unsafe, None),
        def("e::f", DefKind::ForeignFn, Unsafety::Unsafe, None),
        def("s::f", DefKind::Other, Unsafety::Normal, None),
        def("c::f", DefKind::Closure, Unsafety::Normal, None),
        def("i::f", DefKind::ImplFn, Unsafety::Unsafe, None),
        def("m::f", DefKind::Fn, Unsafety::Normal, None),
    ]);
    assert_eq!(callback("f").search(&unit).unwrap().0, id(4));
    assert_eq!(callback("m::f").search(&unit).unwrap().0, id(5));
    assert_eq!(
        callback("t::f").search(&unit),
        Err(WhyNotError::SelectorNotFound { selector: "t::f".to_string() })
    );
    assert!(callback("e::f").search(&unit).is_err());
    assert!(callback("s::f").search(&unit).is_err());
    assert!(callback("c::f").search(&unit).is_err());
}

#[test]
fn selector_that_names_nothing_is_restated() {
    let unit = unit(vec![def("m::f", DefKind::Fn, Unsafety::Normal, None)]);
    let error = callback("crate::g").search(&unit).unwrap_err();
    assert_eq!(error, WhyNotError::SelectorNotFound { selector: "crate::g".to_string() });
    assert_eq!(error.message(), "no such function found: crate::g");
    assert!(callback("x").search(&Unit { defs: vec![], is_like_wasm: false }).is_err());
}

#[test]
fn a_function_with_a_cause_of_its_own_is_explained_in_one_round() {
    let unit = unit(vec![
        unsafe_fn("f", body(vec![call_unsafe(local(1), 10), deref_raw(20), call_unsafe(EXTERNAL, 30)])),
        unsafe_fn("g", body(vec![deref_raw(40)])),
    ]);
    // the cause first, then the calls; `g` is not looked into
    assert_eq!(
        found(&unit, 0),
        vec![
            violation(UnsafeOpKind::DerefOfRawPointer, 0, 20),
            violation(calls(1), 0, 10),
            violation(UnsafeOpKind::CallToUnsafeFunction(None), 0, 30),
        ]
    );
}

#[test]
fn a_function_that_only_calls_is_explained_by_its_callee() {
    let unit = unit(vec![
        unsafe_fn("f", body(vec![call_unsafe(local(1), 10)])),
        unsafe_fn("g", body(vec![deref_raw(40)])),
    ]);
    // the cause that was found in the callee first, then the call that led there
    assert_eq!(
        found(&unit, 0),
        vec![violation(UnsafeOpKind::DerefOfRawPointer, 1, 40), violation(calls(1), 0, 10)]
    );
}

#[test]
fn the_search_goes_down_more_than_one_level() {
    let unit = unit(vec![
        unsafe_fn("a", body(vec![call_unsafe(local(1), 10)])),
        unsafe_fn("b", body(vec![call_unsafe(local(2), 20)])),
        unsafe_fn("c", body(vec![call_unsafe(local(3), 30)])),
        unsafe_fn("d", body(vec![deref_raw(40), call_unsafe(local(0), 41)])),
    ]);
    assert_eq!(
        found(&unit, 0),
        vec![
            violation(UnsafeOpKind::DerefOfRawPointer, 3, 40),
            violation(calls(1), 0, 10),
            violation(calls(2), 1, 20),
            violation(calls(3), 2, 30),
            violation(calls(0), 3, 41),
        ]
    );
}

#[test]
fn only_the_first_call_is_followed_and_the_others_are_kept() {
    let unit = unit(vec![
        unsafe_fn("a", body(vec![call_unsafe(local(1), 10), call_unsafe(local(2), 11)])),
        unsafe_fn("b", body(vec![call_unsafe(local(2), 20)])),
        unsafe_fn("c", body(vec![deref_raw(30)])),
    ]);
    // round 1 queues both calls of `a` and follows the first; round 2 queues
    // the call of `b` behind the second call of `a`, which is followed next
    assert_eq!(
        found(&unit, 0),
        vec![
            violation(UnsafeOpKind::DerefOfRawPointer, 2, 30),
            violation(calls(1), 0, 10),
            violation(calls(2), 0, 11),
            violation(calls(2), 1, 20),
        ]
    );
}

#[test]
fn a_call_to_an_external_function_ends_the_search() {
    let unit = unit(vec![
        unsafe_fn("f", body(vec![call_unsafe(EXTERNAL, 10), call_unsafe(local(1), 11)])),
        unsafe_fn("g", body(vec![deref_raw(40)])),
    ]);
    assert_eq!(
        found(&unit, 0),
        vec![
            violation(UnsafeOpKind::CallToUnsafeFunction(None), 0, 10),
            violation(calls(1), 0, 11),
        ]
    );
}

#[test]
fn a_single_call_to_an_external_function() {
    let unit = unit(vec![unsafe_fn("f", body(vec![call_unsafe(EXTERNAL, 10)]))]);
    assert_eq!(
        found(&unit, 0),
        vec![violation(UnsafeOpKind::CallToUnsafeFunction(None), 0, 10)]
    );
}

#[test]
fn a_callee_that_the_unit_does_not_hold_is_not_followed() {
    let unit = unit(vec![unsafe_fn("f", body(vec![call_unsafe(local(9), 10)]))]);
    assert_eq!(found(&unit, 0), vec![violation(calls(9), 0, 10)]);
}

#[test]
fn an_empty_unsafe_function_is_unsafe_by_choice() {
    let unit = unit(vec![
        unsafe_fn("m::f", body(vec![])),
        unsafe_fn("m::unsafety_not_really", body(vec![])),
        unsafe_fn("m::declared", None),
    ]);
    let at = unit.defs[1].span;
    assert_eq!(
        found(&unit, 1),
        vec![Violation { kind: UnsafeOpKind::ChoosenUnsafe, owner: id(1), span: at }]
    );
    assert_eq!(found(&unit, 2).len(), 1);
    assert_eq!(found(&unit, 2)[0].kind, UnsafeOpKind::ChoosenUnsafe);
}

#[test]
fn a_callee_that_is_unsafe_by_choice_explains_its_caller() {
    let unit = unit(vec![
        unsafe_fn("f", body(vec![call_unsafe(local(1), 10)])),
        unsafe_fn("g", body(vec![])),
    ]);
    let at = unit.defs[1].span;
    assert_eq!(
        found(&unit, 0),
        vec![
            Violation { kind: UnsafeOpKind::ChoosenUnsafe, owner: id(1), span: at },
            violation(calls(1), 0, 10),
        ]
    );
}

#[test]
fn a_cycle_of_calls_is_cut_off_by_the_budget() {
    let unit = unit(vec![
        unsafe_fn("a", body(vec![call_unsafe(local(1), 10)])),
        unsafe_fn("b", body(vec![call_unsafe(local(0), 20)])),
    ]);
    let reasons = found(&unit, 0);
    assert_eq!(CHAIN_BUDGET, 10);
    assert_eq!(reasons.len(), 10);
    for (round, reason) in reasons.iter().enumerate() {
        if round % 2 == 0 {
            assert_eq!(*reason, violation(calls(1), 0, 10));
        } else {
            assert_eq!(*reason, violation(calls(0), 1, 20));
        }
    }
}

#[test]
fn a_function_that_calls_itself_is_cut_off_by_the_budget() {
    let unit = unit(vec![unsafe_fn("a", body(vec![call_unsafe(local(0), 10)]))]);
    assert_eq!(found(&unit, 0), vec![violation(calls(0), 0, 10); 10]);
}

#[test]
fn a_chain_longer_than_the_budget_is_reported_as_far_as_it_was_followed() {
    let mut defs = vec![];
    for i in 0..12 {
        defs.push(unsafe_fn("f", body(vec![call_unsafe(local(i + 1), 10 * i)])));
    }
    defs.push(unsafe_fn("last", body(vec![deref_raw(500)])));
    let unit = unit(defs);
    let expected: Vec<Violation> = (0..10).map(|i| violation(calls(i + 1), i, 10 * i)).collect();
    assert_eq!(found(&unit, 0), expected);
    // two rounds further down the end of the chain is within reach
    let reasons = found(&unit, 3);
    assert_eq!(reasons.len(), 10);
    assert_eq!(reasons[0], violation(UnsafeOpKind::DerefOfRawPointer, 12, 500));
    assert_eq!(reasons[1], violation(calls(4), 3, 30));
    assert_eq!(reasons[9], violation(calls(12), 11, 110));
}

#[test]
fn one_round_sorts_causes_from_calls() {
    let unit = unit(vec![unsafe_fn(
        "f",
        body(vec![call_unsafe(local(1), 10), deref_raw(20), call_unsafe(EXTERNAL, 30), deref_raw(40)]),
    )]);
    let mut reasons = vec![violation(UnsafeOpKind::UseOfInlineAssembly, 7, 1)];
    let mut possible_reasons = VecDeque::from(vec![violation(calls(5), 7, 2)]);
    let mut depth = VISIT_BUDGET;
    assert_eq!(
        callback("").find_unsafe_things_(&unit, id(0), &mut reasons, &mut possible_reasons, &mut depth),
        Ok(())
    );
    assert_eq!(depth, 99);
    assert_eq!(
        reasons,
        vec![
            violation(UnsafeOpKind::UseOfInlineAssembly, 7, 1),
            violation(UnsafeOpKind::DerefOfRawPointer, 0, 20),
            violation(UnsafeOpKind::DerefOfRawPointer, 0, 40),
        ]
    );
    assert_eq!(
        Vec::from(possible_reasons),
        vec![
            violation(calls(5), 7, 2),
            violation(calls(1), 0, 10),
            violation(UnsafeOpKind::CallToUnsafeFunction(None), 0, 30),
        ]
    );
}

#[test]
fn one_round_without_budget_fails_and_changes_nothing() {
    let unit = unit(vec![unsafe_fn("f", body(vec![deref_raw(20)]))]);
    for budget in [0, 1] {
        let mut reasons = vec![violation(UnsafeOpKind::UseOfInlineAssembly, 7, 1)];
        let mut possible_reasons = VecDeque::from(vec![violation(calls(5), 7, 2)]);
        let mut depth = budget;
        assert_eq!(
            callback("").find_unsafe_things_(
                &unit,
                id(0),
                &mut reasons,
                &mut possible_reasons,
                &mut depth
            ),
            Err(WhyNotError::InternalBudgetExceeded)
        );
        assert_eq!(depth, budget);
        assert_eq!(reasons, vec![violation(UnsafeOpKind::UseOfInlineAssembly, 7, 1)]);
        assert_eq!(Vec::from(possible_reasons), vec![violation(calls(5), 7, 2)]);
    }
    let mut reasons = vec![];
    let mut possible_reasons = VecDeque::new();
    let mut depth = 2;
    assert!(callback("")
        .find_unsafe_things_(&unit, id(0), &mut reasons, &mut possible_reasons, &mut depth)
        .is_ok());
    assert_eq!(depth, 1);
}

#[test]
fn no_call_stands_before_a_cause() {
    let unit = unit(vec![
        unsafe_fn("a", body(vec![call_unsafe(EXTERNAL, 5), call_unsafe(local(1), 10), call_unsafe(local(2), 11)])),
        unsafe_fn("b", body(vec![call_unsafe(local(2), 20), call_unsafe(EXTERNAL, 21)])),
        unsafe_fn("c", body(vec![call_unsafe(local(0), 29), deref_raw(30), call_unsafe(EXTERNAL, 31), deref_raw(32)])),
    ]);
    for start in 0..3 {
        let reasons = found(&unit, start);
        let first_call =
            reasons.iter().position(|r| r.kind.is_delegating()).unwrap_or(reasons.len());
        assert!(reasons[first_call..].iter().all(|r| r.kind.is_delegating()), "{:?}", reasons);
    }
    assert_eq!(
        found(&unit, 2),
        vec![
            violation(UnsafeOpKind::DerefOfRawPointer, 2, 30),
            violation(UnsafeOpKind::DerefOfRawPointer, 2, 32),
            violation(calls(0), 2, 29),
            violation(UnsafeOpKind::CallToUnsafeFunction(None), 2, 31),
        ]
    );
    // `a` stops at its first call, which leaves the unit
    assert_eq!(
        found(&unit, 0),
        vec![
            violation(UnsafeOpKind::CallToUnsafeFunction(None), 0, 5),
            violation(calls(1), 0, 10),
            violation(calls(2), 0, 11),
        ]
    );
}

#[test]
fn nothing_is_found_where_classifying_yields_nothing() {
    let unit = unit(vec![
        def("safe", DefKind::Fn, Unsafety::Normal, body(vec![])),
        unsafe_fn("f", body(vec![call_unsafe(local(0), 10)])),
    ]);
    // a function that is not marked unsafe and holds nothing
    assert_eq!(found(&unit, 0), vec![]);
    // an identifier that the unit does not hold
    assert_eq!(found(&unit, 7), vec![]);
    // a callee that yields nothing leaves the call that led to it
    assert_eq!(found(&unit, 1), vec![violation(calls(0), 1, 10)]);
    let mut reasons = vec![];
    let mut possible_reasons = VecDeque::new();
    let mut depth = VISIT_BUDGET;
    assert_eq!(
        callback("").find_unsafe_things_(&unit, id(0), &mut reasons, &mut possible_reasons, &mut depth),
        Ok(())
    );
    assert_eq!(depth, 99);
    assert_eq!(reasons, vec![]);
    assert!(possible_reasons.is_empty());
}

#[test]
fn one_round_takes_unsafe_by_choice_for_a_cause() {
    let unit = unit(vec![unsafe_fn("f", body(vec![]))]);
    let at = unit.defs[0].span;
    let mut reasons = vec![];
    let mut possible_reasons = VecDeque::new();
    let mut depth = 2;
    assert!(callback("")
        .find_unsafe_things_(&unit, id(0), &mut reasons, &mut possible_reasons, &mut depth)
        .is_ok());
    assert_eq!(reasons, vec![Violation { kind: UnsafeOpKind::ChoosenUnsafe, owner: id(0), span: at }]);
    assert!(possible_reasons.is_empty());
}
