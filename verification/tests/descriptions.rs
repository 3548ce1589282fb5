use cargo_whynot::error::WhyNotError;
use cargo_whynot::safe::unsafety_visitor::UnsafeOpKind;
use cargo_whynot::unit::{DefId, LocalDefId};

fn all_kinds() -> Vec<UnsafeOpKind> {
    vec![
        UnsafeOpKind::CallToUnsafeFunction(Some(LocalDefId { local_def_index: 1 })),
        UnsafeOpKind::CallToUnsafeFunction(None),
        UnsafeOpKind::UseOfInlineAssembly,
        UnsafeOpKind::InitializingTypeWith,
        UnsafeOpKind::UseOfMutableStatic,
        UnsafeOpKind::UseOfExternStatic,
        UnsafeOpKind::DerefOfRawPointer,
        UnsafeOpKind::AssignToDroppingUnionField,
        UnsafeOpKind::AccessToUnionField,
        UnsafeOpKind::MutationOfLayoutConstrainedField,
        UnsafeOpKind::BorrowOfLayoutConstrainedField,
        UnsafeOpKind::CallToFunctionWith(DefId { krate: 2, index: 3 }),
        UnsafeOpKind::ChoosenUnsafe,
    ]
}

#[test]
fn simple_descriptions() {
    let expected = [
        "call to unsafe function",
        "call to unsafe function",
        "use of inline assembly",
        "initializing type with `rustc_layout_scalar_valid_range` attr",
        "use of mutable static",
        "use of extern static",
        "dereference of raw pointer",
        "assignment to union field that might need dropping",
        "access to union field",
        "mutation of layout constrained field",
        "borrow of layout constrained field with interior mutability",
        "call to function with `#[target_feature]`",
        "unsafe by choice",
    ];
    for (kind, expected) in all_kinds().iter().zip(expected) {
        assert_eq!(kind.simple_description(), expected);
    }
}

#[test]
fn descriptions_name_the_callee_where_there_is_one() {
    let local = UnsafeOpKind::CallToUnsafeFunction(Some(LocalDefId { local_def_index: 1 }));
    assert_eq!(
        local.description_and_note("unsafe_mod::unsafety").0,
        "call to unsafe function `unsafe_mod::unsafety`"
    );
    let unknown = UnsafeOpKind::CallToUnsafeFunction(None);
    assert_eq!(unknown.description_and_note("ignored").0, "call to unsafe function");
    let featured = UnsafeOpKind::CallToFunctionWith(DefId { krate: 2, index: 3 });
    assert_eq!(
        featured.description_and_note("core::arch::f").0,
        "call to function `core::arch::f` with `#[target_feature]`"
    );
    assert_eq!(featured.description_and_note("").0, "call to function `` with `#[target_feature]`");
}

#[test]
fn descriptions_without_a_callee_are_the_simple_ones() {
    for kind in all_kinds() {
        if kind.callee().is_none() {
            assert_eq!(kind.description_and_note("path").0, kind.simple_description());
        }
    }
}

#[test]
fn notes() {
    let expected = [
        "consult the function's documentation for information on how to avoid undefined behavior",
        "consult the function's documentation for information on how to avoid undefined behavior",
        "inline assembly is entirely unchecked and can cause undefined behavior",
        "initializing a layout restricted type's field with a value outside the valid range is undefined behavior",
        "mutable statics can be mutated by multiple threads: aliasing violations or data races will cause undefined behavior",
        "extern statics are not controlled by the Rust type system: invalid data, aliasing violations or data races will cause undefined behavior",
        "raw pointers may be null, dangling or unaligned; they can violate aliasing rules and cause data races: all of these are undefined behavior",
        "the previous content of the field will be dropped, which causes undefined behavior if the field was not properly initialized",
        "the field may not be properly initialized: using uninitialized data will cause undefined behavior",
        "mutating layout constrained fields cannot statically be checked for valid values",
        "references to fields of layout constrained fields lose the constraints. Coupled with interior mutability, the field can be changed to invalid values",
        "can only be called if the required target features are available",
        "can only be called if the required target features are available",
    ];
    for (kind, expected) in all_kinds().iter().zip(expected) {
        assert_eq!(kind.description_and_note("p").1, expected);
    }
}

#[test]
fn only_calls_to_unsafe_functions_delegate() {
    for kind in all_kinds() {
        assert_eq!(
            kind.is_delegating(),
            matches!(kind, UnsafeOpKind::CallToUnsafeFunction(_)),
            "{:?}",
            kind
        );
    }
}

#[test]
fn callees() {
    assert_eq!(
        UnsafeOpKind::CallToUnsafeFunction(Some(LocalDefId { local_def_index: 4 })).callee(),
        Some(DefId { krate: 0, index: 4 })
    );
    assert_eq!(UnsafeOpKind::CallToUnsafeFunction(None).callee(), None);
    assert_eq!(
        UnsafeOpKind::CallToFunctionWith(DefId { krate: 2, index: 3 }).callee(),
        Some(DefId { krate: 2, index: 3 })
    );
    assert_eq!(UnsafeOpKind::DerefOfRawPointer.callee(), None);
}

#[test]
fn local_and_external_identifiers() {
    assert_eq!(
        DefId { krate: 0, index: 9 }.as_local(),
        Some(LocalDefId { local_def_index: 9 })
    );
    assert_eq!(DefId { krate: 1, index: 9 }.as_local(), None);
    assert_eq!(LocalDefId { local_def_index: 9 }.to_def_id(), DefId { krate: 0, index: 9 });
}

#[test]
fn error_messages() {
    assert_eq!(
        WhyNotError::SelectorNotFound { selector: "a::b".to_string() }.message(),
        "no such function found: a::b"
    );
    assert_eq!(
        WhyNotError::InternalBudgetExceeded.message(),
        "the search for the cause exceeded its budget"
    );
    assert_eq!(
        WhyNotError::InvalidSelector { selector: "a-b".to_string(), reason: "why".to_string() }
            .message(),
        "invalid selector `a-b`: why"
    );
}
