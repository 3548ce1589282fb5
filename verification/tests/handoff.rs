use cargo_whynot::error::WhyNotError;
use cargo_whynot::handoff::{read_handoff, Handoff};
use cargo_whynot::opts::Coloring;
use cargo_whynot::thir::{Ty, TyKind};
use cargo_whynot::unit::{DefKind, Definition, FnHeader, LocalDefId, Span, Unit, Unsafety};
use cargo_whynot::{
    ENV_VAR_WHYNOT_COLORING, ENV_VAR_WHYNOT_MODE, ENV_VAR_WHYNOT_SELECTOR,
    WHYNOT_RUSTC_WRAPPER_ERROR,
};

#[test]
fn names_of_the_variables() {
    assert_eq!(ENV_VAR_WHYNOT_MODE, "__CARGO-WHYNOT_MODE");
    assert_eq!(ENV_VAR_WHYNOT_COLORING, "__CARGO-WHYNOT_COLORING");
    assert_eq!(ENV_VAR_WHYNOT_SELECTOR, "__CARGO-WHYNOT_SELECTOR");
}

#[test]
fn a_complete_request_is_read() {
    assert_eq!(
        read_handoff(Some("safe"), Some("crate::m::f"), Some("never")),
        Ok(Handoff { selector: "crate::m::f".to_string(), coloring: Coloring::Never })
    );
    assert_eq!(
        read_handoff(Some("safe"), Some("f"), Some("auto")),
        Ok(Handoff { selector: "f".to_string(), coloring: Coloring::Auto })
    );
    assert_eq!(
        read_handoff(Some("safe"), Some("::f"), Some("always")),
        Ok(Handoff { selector: "::f".to_string(), coloring: Coloring::Always })
    );
}

#[test]
fn anything_missing_means_that_the_outer_tool_did_not_start_the_run() {
    let incomplete = [
        (None, Some("f"), Some("auto")),
        (Some("unsafe"), Some("f"), Some("auto")),
        (Some(""), Some("f"), Some("auto")),
        (Some("Safe"), Some("f"), Some("auto")),
        (Some("safe"), None, Some("auto")),
        (Some("safe"), Some("f"), None),
        (Some("safe"), Some("f"), Some("blue")),
        (Some("safe"), Some("f"), Some("")),
        (None, None, None),
        // what is missing counts before what is wrong
        (None, Some("no selector"), Some("auto")),
        (Some("safe"), Some("no selector"), None),
    ];
    for (mode, selector, coloring) in incomplete {
        assert_eq!(
            read_handoff(mode, selector, coloring),
            Err(WhyNotError::EnvironmentMissing),
            "{:?} {:?} {:?}",
            mode,
            selector,
            coloring
        );
    }
    assert_eq!(WhyNotError::EnvironmentMissing.message(), WHYNOT_RUSTC_WRAPPER_ERROR);
    assert_eq!(WHYNOT_RUSTC_WRAPPER_ERROR, "ran `cargo whynot rustc` outside of wrapper");
}

#[test]
fn a_text_that_is_no_selector_is_refused() {
    match read_handoff(Some("safe"), Some("crate::a b"), Some("auto")) {
        Err(WhyNotError::InvalidSelector { selector, .. }) => assert_eq!(selector, "a b"),
        other => panic!("{:?}", other),
    }
    match read_handoff(Some("safe"), Some(""), Some("auto")) {
        Err(WhyNotError::InvalidSelector { selector, reason }) => {
            assert_eq!(selector, "");
            assert_eq!(reason, "Empty path");
        }
        other => panic!("{:?}", other),
    }
}

#[test]
fn a_unit_hands_out_its_definitions() {
    let def = |path: &str| Definition {
        path: path.to_string(),
        kind: DefKind::Fn,
        header: FnHeader { unsafety: Unsafety::Normal },
        span: Span { file: 0, lo: 0, hi: 1 },
        target_features: vec![],
        body: None,
    };
    let unit = Unit { defs: vec![def("a"), def("b")], is_like_wasm: false };
    assert_eq!(unit.get(LocalDefId { local_def_index: 0 }).unwrap().path, "a");
    assert_eq!(unit.get(LocalDefId { local_def_index: 1 }).unwrap().path, "b");
    assert!(unit.get(LocalDefId { local_def_index: 2 }).is_none());
    assert!(unit.get(LocalDefId { local_def_index: usize::MAX }).is_none());
}

#[test]
fn what_a_type_says_of_itself() {
    let ty = |kind, is_copy| Ty { kind, is_freeze: true, is_copy, unsafe_fn_sig: false };
    let adt = |is_union, layout_constrained, is_manually_drop| {
        ty(TyKind::Adt { is_union, layout_constrained, is_manually_drop }, false)
    };
    assert!(adt(true, false, false).is_union());
    assert!(!adt(false, true, true).is_union());
    assert!(adt(false, true, false).is_layout_constrained());
    assert!(!adt(true, false, true).is_layout_constrained());
    assert!(adt(false, false, true).is_manually_drop());
    assert!(!adt(true, true, false).is_manually_drop());
    assert!(ty(TyKind::RawPtr, true).is_unsafe_ptr());
    assert!(!ty(TyKind::Other, true).is_unsafe_ptr());
    assert!(!ty(TyKind::RawPtr, true).is_union());
    assert!(!ty(TyKind::Other, true).is_layout_constrained());
    assert!(!ty(TyKind::Other, true).is_manually_drop());
    // `Copy` or `ManuallyDrop`: either is enough
    assert!(ty(TyKind::Other, true).overwrites_without_drop());
    assert!(adt(false, false, true).overwrites_without_drop());
    assert!(!adt(false, false, false).overwrites_without_drop());
    assert!(!ty(TyKind::Other, false).overwrites_without_drop());
}
