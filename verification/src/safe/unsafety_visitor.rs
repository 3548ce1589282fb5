//! The classifier: which operations of a typed body need an unsafe context.

use crate::thir::{Arm, BindingMode, Block, BorrowKind, Expr, ExprKind, Guard, Pat, PatKind, Stmt, TyKind};
use crate::unit::{DefId, DefKind, LocalDefId, Span, Symbol, Unit, Unsafety};
use vstd::prelude::*;

verus! {

/// Why an operation needs an unsafe context.
#[derive(Clone, Copy, PartialEq, Debug)]
pub enum UnsafeOpKind {
    /// A call to an unsafe function, with the callee where it is a function of
    /// the unit under analysis.
    CallToUnsafeFunction(Option<LocalDefId>),
    UseOfInlineAssembly,
    InitializingTypeWith,
    UseOfMutableStatic,
    UseOfExternStatic,
    DerefOfRawPointer,
    AssignToDroppingUnionField,
    AccessToUnionField,
    MutationOfLayoutConstrainedField,
    BorrowOfLayoutConstrainedField,
    /// A call to a function that requires target features the caller lacks.
    CallToFunctionWith(DefId),
    /// The function is marked unsafe, yet nothing in its body needs it.
    ChoosenUnsafe,
}

/// One operation that needs an unsafe context.
#[derive(Clone, Copy, PartialEq, Debug)]
pub struct Violation {
    pub kind: UnsafeOpKind,
    /// The function under whose name the operation is reported.
    pub owner: LocalDefId,
    pub span: Span,
}

impl UnsafeOpKind {
    /// Only a call to an unsafe function may be explained by looking into
    /// the callee; every other kind is a reason of its own.
    pub open spec fn spec_is_delegating(&self) -> bool {
        *self is CallToUnsafeFunction
    }

    /// Only a call to an unsafe function may be explained by looking into
    /// the callee; every other kind is a reason of its own.
    #[verifier::when_used_as_spec(spec_is_delegating)]
    pub fn is_delegating(&self) -> (r: bool)
        ensures
            r == self.spec_is_delegating(),
    {
        matches!(self, UnsafeOpKind::CallToUnsafeFunction(_))
    }

    /// The callee that the kind names, if it names one.
    pub open spec fn spec_callee(&self) -> Option<DefId> {
        match *self {
            UnsafeOpKind::CallToUnsafeFunction(Some(id)) => Some(id.spec_to_def_id()),
            UnsafeOpKind::CallToFunctionWith(id) => Some(id),
            _ => None,
        }
    }

    /// The callee that the kind names, if it names one.
    #[verifier::when_used_as_spec(spec_callee)]
    pub fn callee(&self) -> (r: Option<DefId>)
        ensures
            r == self.spec_callee(),
    {
        match self {
            UnsafeOpKind::CallToUnsafeFunction(Some(id)) => Some(id.to_def_id()),
            UnsafeOpKind::CallToFunctionWith(id) => Some(*id),
            _ => None,
        }
    }

    pub open spec fn spec_simple_description(&self) -> Seq<char> {
        match *self {
            UnsafeOpKind::CallToUnsafeFunction(_) => "call to unsafe function"@,
            UnsafeOpKind::UseOfInlineAssembly => "use of inline assembly"@,
            UnsafeOpKind::InitializingTypeWith =>
                "initializing type with `rustc_layout_scalar_valid_range` attr"@,
            UnsafeOpKind::UseOfMutableStatic => "use of mutable static"@,
            UnsafeOpKind::UseOfExternStatic => "use of extern static"@,
            UnsafeOpKind::DerefOfRawPointer => "dereference of raw pointer"@,
            UnsafeOpKind::AssignToDroppingUnionField =>
                "assignment to union field that might need dropping"@,
            UnsafeOpKind::AccessToUnionField => "access to union field"@,
            UnsafeOpKind::MutationOfLayoutConstrainedField =>
                "mutation of layout constrained field"@,
            UnsafeOpKind::BorrowOfLayoutConstrainedField =>
                "borrow of layout constrained field with interior mutability"@,
            UnsafeOpKind::CallToFunctionWith(_) => "call to function with `#[target_feature]`"@,
            UnsafeOpKind::ChoosenUnsafe => "unsafe by choice"@,
        }
    }

    /// A few words that name the kind.
    pub fn simple_description(&self) -> (r: &'static str)
        ensures
            r@ == self.spec_simple_description(),
    {
        match self {
            UnsafeOpKind::CallToUnsafeFunction(_) => "call to unsafe function",
            UnsafeOpKind::UseOfInlineAssembly => "use of inline assembly",
            UnsafeOpKind::InitializingTypeWith =>
                "initializing type with `rustc_layout_scalar_valid_range` attr",
            UnsafeOpKind::UseOfMutableStatic => "use of mutable static",
            UnsafeOpKind::UseOfExternStatic => "use of extern static",
            UnsafeOpKind::DerefOfRawPointer => "dereference of raw pointer",
            UnsafeOpKind::AssignToDroppingUnionField =>
                "assignment to union field that might need dropping",
            UnsafeOpKind::AccessToUnionField => "access to union field",
            UnsafeOpKind::MutationOfLayoutConstrainedField =>
                "mutation of layout constrained field",
            UnsafeOpKind::BorrowOfLayoutConstrainedField =>
                "borrow of layout constrained field with interior mutability",
            UnsafeOpKind::CallToFunctionWith(_) => "call to function with `#[target_feature]`",
            UnsafeOpKind::ChoosenUnsafe => "unsafe by choice",
        }
    }

    /// The description that names the callee by `callee_path` where the kind
    /// has a callee, and the simple description where it has none.
    pub open spec fn spec_description(&self, callee_path: Seq<char>) -> Seq<char> {
        match *self {
            UnsafeOpKind::CallToUnsafeFunction(Some(_)) => "call to unsafe function `"@
                + callee_path + "`"@,
            UnsafeOpKind::CallToFunctionWith(_) => "call to function `"@ + callee_path
                + "` with `#[target_feature]`"@,
            _ => self.spec_simple_description(),
        }
    }

    pub open spec fn spec_note(&self) -> Seq<char> {
        match *self {
            UnsafeOpKind::CallToUnsafeFunction(_) =>
                "consult the function's documentation for information on how to avoid undefined behavior"@,
            UnsafeOpKind::UseOfInlineAssembly =>
                "inline assembly is entirely unchecked and can cause undefined behavior"@,
            UnsafeOpKind::InitializingTypeWith =>
                "initializing a layout restricted type's field with a value outside the valid range is undefined behavior"@,
            UnsafeOpKind::UseOfMutableStatic =>
                "mutable statics can be mutated by multiple threads: aliasing violations or data races will cause undefined behavior"@,
            UnsafeOpKind::UseOfExternStatic =>
                "extern statics are not controlled by the Rust type system: invalid data, aliasing violations or data races will cause undefined behavior"@,
            UnsafeOpKind::DerefOfRawPointer =>
                "raw pointers may be null, dangling or unaligned; they can violate aliasing rules and cause data races: all of these are undefined behavior"@,
            UnsafeOpKind::AssignToDroppingUnionField =>
                "the previous content of the field will be dropped, which causes undefined behavior if the field was not properly initialized"@,
            UnsafeOpKind::AccessToUnionField =>
                "the field may not be properly initialized: using uninitialized data will cause undefined behavior"@,
            UnsafeOpKind::MutationOfLayoutConstrainedField =>
                "mutating layout constrained fields cannot statically be checked for valid values"@,
            UnsafeOpKind::BorrowOfLayoutConstrainedField =>
                "references to fields of layout constrained fields lose the constraints. Coupled with interior mutability, the field can be changed to invalid values"@,
            UnsafeOpKind::CallToFunctionWith(_) =>
                "can only be called if the required target features are available"@,
            UnsafeOpKind::ChoosenUnsafe =>
                "can only be called if the required target features are available"@,
        }
    }

    /// The description of the kind, naming the callee by `callee_path` where
    /// there is one, and a note on what can go wrong.
    pub fn description_and_note(&self, callee_path: &str) -> (r: (String, &'static str))
        ensures
            r.0@ == self.spec_description(callee_path@),
            r.1@ == self.spec_note(),
    {
        match self {
            UnsafeOpKind::CallToUnsafeFunction(did) => (
                if did.is_some() {
                    let mut s = String::from_str("call to unsafe function `");
                    s.append(callee_path);
                    s.append("`");
                    s
                } else {
                    String::from_str(self.simple_description())
                },
                "consult the function's documentation for information on how to avoid undefined behavior",
            ),
            UnsafeOpKind::UseOfInlineAssembly => (
                String::from_str(self.simple_description()),
                "inline assembly is entirely unchecked and can cause undefined behavior",
            ),
            UnsafeOpKind::InitializingTypeWith => (
                String::from_str(self.simple_description()),
                "initializing a layout restricted type's field with a value outside the valid range is undefined behavior",
            ),
            UnsafeOpKind::UseOfMutableStatic => (
                String::from_str(self.simple_description()),
                "mutable statics can be mutated by multiple threads: aliasing violations or data races will cause undefined behavior",
            ),
            UnsafeOpKind::UseOfExternStatic => (
                String::from_str(self.simple_description()),
                "extern statics are not controlled by the Rust type system: invalid data, aliasing violations or data races will cause undefined behavior",
            ),
            UnsafeOpKind::DerefOfRawPointer => (
                String::from_str(self.simple_description()),
                "raw pointers may be null, dangling or unaligned; they can violate aliasing rules and cause data races: all of these are undefined behavior",
            ),
            UnsafeOpKind::AssignToDroppingUnionField => (
                String::from_str(self.simple_description()),
                "the previous content of the field will be dropped, which causes undefined behavior if the field was not properly initialized",
            ),
            UnsafeOpKind::AccessToUnionField => (
                String::from_str(self.simple_description()),
                "the field may not be properly initialized: using uninitialized data will cause undefined behavior",
            ),
            UnsafeOpKind::MutationOfLayoutConstrainedField => (
                String::from_str(self.simple_description()),
                "mutating layout constrained fields cannot statically be checked for valid values",
            ),
            UnsafeOpKind::BorrowOfLayoutConstrainedField => (
                String::from_str(self.simple_description()),
                "references to fields of layout constrained fields lose the constraints. Coupled with interior mutability, the field can be changed to invalid values",
            ),
            UnsafeOpKind::CallToFunctionWith(_) => (
                {
                    let mut s = String::from_str("call to function `");
                    s.append(callee_path);
                    s.append("` with `#[target_feature]`");
                    s
                },
                "can only be called if the required target features are available",
            ),
            UnsafeOpKind::ChoosenUnsafe => (
                String::from_str(self.simple_description()),
                "can only be called if the required target features are available",
            ),
        }
    }
}

/// What an assignment tells the expressions of its target.
#[derive(Clone, Copy, Debug)]
pub struct AssignmentInfo {
    /// The assigned type is `Copy` or `ManuallyDrop`: nothing is dropped
    /// when the old value is overwritten.
    pub overwrites_without_drop: bool,
    /// The whole assignment.
    pub span: Span,
}

/// Whether every required feature is among the available ones.
pub open spec fn features_available(required: Seq<Symbol>, available: Seq<Symbol>) -> bool {
    forall|i: int| 0 <= i < required.len() ==> available.contains(#[trigger] required[i])
}

/// The expressions through which an assignment reaches its target: they hand
/// the assignment's information on to their operand. Every other expression
/// starts afresh.
pub open spec fn keeps_assignment_info(kind: ExprKind) -> bool {
    kind is Field || kind is VarRef || kind is UpvarRef || kind is Scope || kind is Cast
}

/// Whether the place that `expr` denotes lies in a field of a type with a
/// restricted valid range. The search follows an expression as long as it
/// stays in the same place: it does not look behind a dereference.
pub open spec fn in_layout_constrained_place(expr: Expr) -> bool
    decreases expr,
{
    match expr.kind {
        ExprKind::Field { lhs } => lhs.ty.is_layout_constrained() || in_layout_constrained_place(
            *lhs,
        ),
        ExprKind::Scope { value } => in_layout_constrained_place(*value),
        ExprKind::Index { lhs, index } => in_layout_constrained_place(*lhs)
            || in_layout_constrained_place(*index),
        ExprKind::PlaceTypeAscription { source } | ExprKind::ValueTypeAscription { source } =>
            in_layout_constrained_place(*source),
        _ => false,
    }
}

/// The patterns that take something out of the value they match. A wildcard
/// takes nothing; an alternative or a type ascription only wraps patterns.
pub open spec fn reads_matched_value(kind: PatKind) -> bool {
    !(kind is Wild || kind is Or || kind is AscribeUserType)
}

/// Looks for places in a field of a type with a restricted valid range.
pub struct LayoutConstrainedPlaceVisitor {
    pub found: bool,
}

impl LayoutConstrainedPlaceVisitor {
    pub fn new() -> (r: Self)
        ensures
            !r.found,
    {
        LayoutConstrainedPlaceVisitor { found: false }
    }

    /// Sets `found` if the place of `expr` lies in such a field.
    pub fn visit_expr(&mut self, expr: &Expr)
        ensures
            final(self).found == (old(self).found || in_layout_constrained_place(*expr)),
        decreases expr,
    {
        match &expr.kind {
            ExprKind::Field { lhs } => {
                if lhs.ty.is_layout_constrained() {
                    self.found = true;
                }
                self.visit_expr(lhs);
            },
            ExprKind::Scope { value } => {
                self.visit_expr(value);
            },
            ExprKind::Index { lhs, index } => {
                self.visit_expr(lhs);
                self.visit_expr(index);
            },
            ExprKind::PlaceTypeAscription { source } | ExprKind::ValueTypeAscription { source } => {
                self.visit_expr(source);
            },
            _ => {},
        }
    }
}

/// Whether `v` holds `x`.
fn contains_symbol(v: &Vec<Symbol>, x: Symbol) -> (r: bool)
    ensures
        r == v@.contains(x),
{
    let mut i: usize = 0;
    while i < v.len()
        invariant
            i <= v.len(),
            forall|j: int| 0 <= j < i ==> v@[j] != x,
        decreases v.len() - i,
    {
        if v[i] == x {
            return true;
        }
        i += 1;
    }
    false
}

/// Whether every feature of `required` is in `available`.
fn has_features(required: &Vec<Symbol>, available: &Vec<Symbol>) -> (r: bool)
    ensures
        r == features_available(required@, available@),
{
    let mut i: usize = 0;
    while i < required.len()
        invariant
            i <= required.len(),
            forall|j: int| 0 <= j < i ==> available@.contains(#[trigger] required@[j]),
        decreases required.len() - i,
    {
        if !contains_symbol(available, required[i]) {
            return false;
        }
        i += 1;
    }
    true
}

/// Walks one typed body and records what needs an unsafe context.
pub struct UnsafetyVisitor<'a> {
    /// The target features of the function that is analysed.
    pub body_target_features: &'a Vec<Symbol>,
    /// Whether calls to functions with more target features are harmless on
    /// this target.
    pub is_like_wasm: bool,
    /// The function under whose name the findings are recorded; closures in
    /// its body are recorded under it too.
    pub current_did: LocalDefId,
}

impl<'a> UnsafetyVisitor<'a> {
    /// The record of an operation of kind `kind` at `span`.
    pub open spec fn violation(&self, kind: UnsafeOpKind, span: Span) -> Violation {
        Violation { kind, owner: self.current_did, span }
    }

    /// What a call through `fun` needs.
    pub open spec fn call_requires(&self, fun: Expr) -> Option<UnsafeOpKind> {
        if fun.ty.unsafe_fn_sig {
            Some(
                UnsafeOpKind::CallToUnsafeFunction(
                    match fun.ty.kind {
                        TyKind::FnDef { def_id, .. } => def_id.as_local(),
                        _ => None,
                    },
                ),
            )
        } else {
            match fun.ty.kind {
                TyKind::FnDef { def_id, target_features } => if !self.is_like_wasm
                    && !features_available(target_features@, self.body_target_features@) {
                    Some(UnsafeOpKind::CallToFunctionWith(def_id))
                } else {
                    None
                },
                _ => None,
            }
        }
    }

    /// What a dereference of `arg` needs.
    pub open spec fn deref_requires(arg: Expr) -> Option<UnsafeOpKind> {
        match arg.kind {
            ExprKind::StaticRef { is_mutable, is_foreign } => if is_mutable {
                Some(UnsafeOpKind::UseOfMutableStatic)
            } else if is_foreign {
                Some(UnsafeOpKind::UseOfExternStatic)
            } else {
                None
            },
            _ => if arg.ty.is_unsafe_ptr() {
                Some(UnsafeOpKind::DerefOfRawPointer)
            } else {
                None
            },
        }
    }

    /// What a borrow of `arg` needs.
    pub open spec fn borrow_requires(borrow_kind: BorrowKind, arg: Expr) -> Option<UnsafeOpKind> {
        if in_layout_constrained_place(arg) {
            if borrow_kind is Mut {
                Some(UnsafeOpKind::MutationOfLayoutConstrainedField)
            } else if !arg.ty.is_freeze {
                Some(UnsafeOpKind::BorrowOfLayoutConstrainedField)
            } else {
                None
            }
        } else {
            None
        }
    }

    /// What the expression itself needs, its operands left aside, and where
    /// that is reported. `assignment_info` is what reached the expression
    /// from an enclosing assignment.
    pub open spec fn expr_requires(
        &self,
        expr: Expr,
        assignment_info: Option<AssignmentInfo>,
    ) -> Option<(UnsafeOpKind, Span)> {
        match expr.kind {
            ExprKind::Call { fun, .. } => match self.call_requires(*fun) {
                Some(kind) => Some((kind, expr.span)),
                None => None,
            },
            ExprKind::Deref { arg } => match Self::deref_requires(*arg) {
                Some(kind) => Some((kind, expr.span)),
                None => None,
            },
            ExprKind::InlineAsm { .. } => Some((UnsafeOpKind::UseOfInlineAssembly, expr.span)),
            ExprKind::Adt { .. } => if expr.ty.is_layout_constrained() {
                Some((UnsafeOpKind::InitializingTypeWith, expr.span))
            } else {
                None
            },
            ExprKind::Field { lhs } => if lhs.ty.is_union() {
                match assignment_info {
                    Some(info) => if info.overwrites_without_drop {
                        None
                    } else {
                        Some((UnsafeOpKind::AssignToDroppingUnionField, info.span))
                    },
                    None => Some((UnsafeOpKind::AccessToUnionField, expr.span)),
                }
            } else {
                None
            },
            ExprKind::Assign { lhs, .. } | ExprKind::AssignOp { lhs, .. } => {
                if in_layout_constrained_place(*lhs) {
                    Some((UnsafeOpKind::MutationOfLayoutConstrainedField, expr.span))
                } else {
                    None
                }
            },
            ExprKind::Borrow { borrow_kind, arg } => match Self::borrow_requires(
                borrow_kind,
                *arg,
            ) {
                Some(kind) => Some((kind, expr.span)),
                None => None,
            },
            ExprKind::Let { expr: scrutinee, .. } => if scrutinee.ty.is_union() {
                Some((UnsafeOpKind::AccessToUnionField, expr.span))
            } else {
                None
            },
            _ => None,
        }
    }

    /// No record, or the one record of `found`.
    pub open spec fn recorded(&self, found: Option<(UnsafeOpKind, Span)>) -> Seq<Violation> {
        match found {
            Some((kind, span)) => seq![self.violation(kind, span)],
            None => Seq::empty(),
        }
    }

    /// Everything that `expr` and the expressions and patterns below it need,
    /// in the order of a walk that takes each expression before its operands
    /// and the operands from left to right.
    ///
    /// An assignment visits its target with the information of the
    /// assignment and its value without. The body of a closure is part of the
    /// walk.
    pub open spec fn expr_violations(
        &self,
        expr: Expr,
        assignment_info: Option<AssignmentInfo>,
    ) -> Seq<Violation>
        decreases expr, 1int,
    {
        let inherited = if keeps_assignment_info(expr.kind) {
            assignment_info
        } else {
            None
        };
        self.recorded(self.expr_requires(expr, inherited)) + match expr.kind {
            ExprKind::Closure { body } => self.expr_violations(*body, None),
            ExprKind::Assign { lhs, rhs } => self.expr_violations(
                *lhs,
                Some(
                    AssignmentInfo {
                        overwrites_without_drop: lhs.ty.overwrites_without_drop(),
                        span: expr.span,
                    },
                ),
            ) + self.expr_violations(*rhs, None),
            _ => self.walk_expr_violations(expr, inherited),
        }
    }

    /// What the expression in `expr` needs, if there is one.
    pub open spec fn opt_expr_violations(&self, expr: Option<Box<Expr>>) -> Seq<Violation>
        decreases expr,
    {
        match expr {
            Some(e) => self.expr_violations(*e, None),
            None => Seq::empty(),
        }
    }

    /// What the operands of `expr` need, one after the other. An operand
    /// that is the only one receives `assignment_info`.
    pub open spec fn walk_expr_violations(
        &self,
        expr: Expr,
        assignment_info: Option<AssignmentInfo>,
    ) -> Seq<Violation>
        decreases expr, 0int,
    {
        match expr.kind {
            ExprKind::Scope { value }
            | ExprKind::Box { value }
            | ExprKind::Repeat { value }
            | ExprKind::Yield { value } => self.expr_violations(*value, assignment_info),
            ExprKind::Deref { arg }
            | ExprKind::Unary { arg }
            | ExprKind::Borrow { arg, .. }
            | ExprKind::AddressOf { arg } => self.expr_violations(*arg, assignment_info),
            ExprKind::Cast { source }
            | ExprKind::Use { source }
            | ExprKind::NeverToAny { source }
            | ExprKind::Pointer { source }
            | ExprKind::PlaceTypeAscription { source }
            | ExprKind::ValueTypeAscription { source } => self.expr_violations(
                *source,
                assignment_info,
            ),
            ExprKind::Loop { body } => self.expr_violations(*body, assignment_info),
            ExprKind::Field { lhs } => self.expr_violations(*lhs, assignment_info),
            ExprKind::If { cond, then, else_opt } => self.expr_violations(*cond, None)
                + self.expr_violations(*then, None) + self.opt_expr_violations(else_opt),
            ExprKind::Call { fun, args } => self.expr_violations(*fun, None)
                + self.exprs_violations(args@),
            ExprKind::Binary { lhs, rhs }
            | ExprKind::LogicalOp { lhs, rhs }
            | ExprKind::Assign { lhs, rhs }
            | ExprKind::AssignOp { lhs, rhs } => self.expr_violations(*lhs, None)
                + self.expr_violations(*rhs, None),
            ExprKind::Index { lhs, index } => self.expr_violations(*lhs, None)
                + self.expr_violations(*index, None),
            ExprKind::Let { expr: scrutinee, pat } => self.expr_violations(*scrutinee, None)
                + self.pat_violations(*pat, false, false),
            ExprKind::Match { scrutinee, arms } => self.expr_violations(*scrutinee, None)
                + self.arms_violations(arms@),
            ExprKind::Block { body } => self.block_violations(body),
            ExprKind::Break { value } | ExprKind::Return { value } => self.opt_expr_violations(
                value,
            ),
            ExprKind::Array { fields } | ExprKind::Tuple { fields } => self.exprs_violations(
                fields@,
            ),
            ExprKind::Adt { fields, base } => self.exprs_violations(fields@)
                + self.opt_expr_violations(base),
            ExprKind::InlineAsm { operands } => self.exprs_violations(operands@),
            ExprKind::Closure { .. }
            | ExprKind::VarRef
            | ExprKind::UpvarRef
            | ExprKind::Continue
            | ExprKind::ConstBlock
            | ExprKind::Literal
            | ExprKind::NonHirLiteral
            | ExprKind::NamedConst
            | ExprKind::ConstParam
            | ExprKind::StaticRef { .. }
            | ExprKind::ThreadLocalRef => Seq::empty(),
        }
    }

    /// What the expressions of `exprs` need, one after the other.
    pub open spec fn exprs_violations(&self, exprs: Seq<Expr>) -> Seq<Violation>
        decreases exprs,
    {
        if exprs.len() == 0 {
            Seq::empty()
        } else {
            self.exprs_violations(exprs.drop_last()) + self.expr_violations(exprs.last(), None)
        }
    }

    /// What a block needs: its statements, then its final expression.
    pub open spec fn block_violations(&self, block: Block) -> Seq<Violation>
        decreases block,
    {
        self.stmts_violations(block.stmts@) + self.opt_expr_violations(block.expr)
    }

    /// What the block in `block` needs, if there is one.
    pub open spec fn opt_block_violations(&self, block: Option<Block>) -> Seq<Violation>
        decreases block,
    {
        match block {
            Some(b) => self.block_violations(b),
            None => Seq::empty(),
        }
    }

    /// What a statement needs. A `let` takes its initializer first, then its
    /// pattern, then the block of its `else`.
    pub open spec fn stmt_violations(&self, stmt: Stmt) -> Seq<Violation>
        decreases stmt,
    {
        match stmt {
            Stmt::Expr { expr } => self.expr_violations(expr, None),
            Stmt::Let { initializer, pattern, else_block } => (match initializer {
                Some(init) => self.expr_violations(init, None),
                None => Seq::empty(),
            }) + self.pat_violations(pattern, false, false) + self.opt_block_violations(
                else_block,
            ),
        }
    }

    /// What the statements of `stmts` need, one after the other.
    pub open spec fn stmts_violations(&self, stmts: Seq<Stmt>) -> Seq<Violation>
        decreases stmts,
    {
        if stmts.len() == 0 {
            Seq::empty()
        } else {
            self.stmts_violations(stmts.drop_last()) + self.stmt_violations(stmts.last())
        }
    }

    /// What a match arm needs: its guard, then its pattern, then its body.
    pub open spec fn arm_violations(&self, arm: Arm) -> Seq<Violation>
        decreases arm,
    {
        (match arm.guard {
            Some(Guard::If { cond }) => self.expr_violations(cond, None),
            Some(Guard::IfLet { pat, expr }) => self.pat_violations(pat, false, false)
                + self.expr_violations(expr, None),
            None => Seq::empty(),
        }) + self.pat_violations(arm.pattern, false, false) + self.expr_violations(arm.body, None)
    }

    /// What the arms of `arms` need, one after the other.
    pub open spec fn arms_violations(&self, arms: Seq<Arm>) -> Seq<Violation>
        decreases arms,
    {
        if arms.len() == 0 {
            Seq::empty()
        } else {
            self.arms_violations(arms.drop_last()) + self.arm_violations(arms.last())
        }
    }

    /// What a binding needs that takes a reference into a type with a
    /// restricted valid range.
    pub open spec fn binding_requires(mode: BindingMode, inside_adt: bool) -> Option<UnsafeOpKind> {
        match mode {
            BindingMode::ByRef { borrow_kind, referent_is_freeze } => if !inside_adt {
                None
            } else if borrow_kind is Mut {
                Some(UnsafeOpKind::MutationOfLayoutConstrainedField)
            } else if !referent_is_freeze {
                Some(UnsafeOpKind::BorrowOfLayoutConstrainedField)
            } else {
                None
            },
            BindingMode::ByValue => None,
        }
    }

    /// Everything that `pat` and the patterns below it need.
    ///
    /// `in_union_destructure` says that the pattern stands below a pattern
    /// that takes a union apart: there every pattern that takes something out
    /// of the value is an access to a union field, and nothing below it is
    /// looked at. `inside_adt` says that it stands below a pattern of a type
    /// with a restricted valid range, with no dereference in between.
    pub open spec fn pat_violations(
        &self,
        pat: Pat,
        in_union_destructure: bool,
        inside_adt: bool,
    ) -> Seq<Violation>
        decreases pat,
    {
        if in_union_destructure && reads_matched_value(pat.kind) {
            seq![self.violation(UnsafeOpKind::AccessToUnionField, pat.span)]
        } else {
            match pat.kind {
                PatKind::Leaf { subpatterns } => if pat.ty.is_union() {
                    self.pats_violations(subpatterns@, true, inside_adt)
                } else if pat.ty.is_layout_constrained() {
                    self.pats_violations(subpatterns@, in_union_destructure, true)
                } else {
                    self.pats_violations(subpatterns@, in_union_destructure, inside_adt)
                },
                PatKind::Binding { mode, subpattern } => self.recorded(
                    match Self::binding_requires(mode, inside_adt) {
                        Some(kind) => Some((kind, pat.span)),
                        None => None,
                    },
                ) + self.opt_pat_violations(subpattern, in_union_destructure, inside_adt),
                PatKind::Deref { subpattern } => self.pat_violations(
                    *subpattern,
                    in_union_destructure,
                    false,
                ),
                PatKind::AscribeUserType { subpattern } => self.pat_violations(
                    *subpattern,
                    in_union_destructure,
                    inside_adt,
                ),
                PatKind::Variant { subpatterns } => self.pats_violations(
                    subpatterns@,
                    in_union_destructure,
                    inside_adt,
                ),
                PatKind::Slice { prefix, slice, suffix }
                | PatKind::Array { prefix, slice, suffix } => self.pats_violations(
                    prefix@,
                    in_union_destructure,
                    inside_adt,
                ) + self.opt_pat_violations(slice, in_union_destructure, inside_adt)
                    + self.pats_violations(suffix@, in_union_destructure, inside_adt),
                PatKind::Or { pats } => self.pats_violations(
                    pats@,
                    in_union_destructure,
                    inside_adt,
                ),
                PatKind::Wild | PatKind::Constant | PatKind::Range => Seq::empty(),
            }
        }
    }

    /// What the pattern in `pat` needs, if there is one.
    pub open spec fn opt_pat_violations(
        &self,
        pat: Option<Box<Pat>>,
        in_union_destructure: bool,
        inside_adt: bool,
    ) -> Seq<Violation>
        decreases pat,
    {
        match pat {
            Some(p) => self.pat_violations(*p, in_union_destructure, inside_adt),
            None => Seq::empty(),
        }
    }

    /// What the patterns of `pats` need, one after the other.
    pub open spec fn pats_violations(
        &self,
        pats: Seq<Pat>,
        in_union_destructure: bool,
        inside_adt: bool,
    ) -> Seq<Violation>
        decreases pats,
    {
        if pats.len() == 0 {
            Seq::empty()
        } else {
            self.pats_violations(pats.drop_last(), in_union_destructure, inside_adt)
                + self.pat_violations(pats.last(), in_union_destructure, inside_adt)
        }
    }

    /// The field of a union, read or written.
    ///
    /// Outside the target of an assignment the access is a read and is
    /// recorded as an access to a union field, at the access. In the target
    /// of an assignment it is a write: nothing is recorded for it where the
    /// assigned type is `Copy` or `ManuallyDrop`, and an assignment to a
    /// field that may need dropping is recorded, at the assignment, where it
    /// is neither. What the expression of the union needs follows in both
    /// cases.
    pub proof fn lemma_union_field(
        &self,
        expr: Expr,
        assignment_info: Option<AssignmentInfo>,
    )
        requires
            expr.kind is Field,
            expr.kind->Field_lhs.ty.is_union(),
        ensures
            self.expr_violations(expr, assignment_info) == (match assignment_info {
                None => seq![self.violation(UnsafeOpKind::AccessToUnionField, expr.span)],
                Some(info) => if info.overwrites_without_drop {
                    Seq::empty()
                } else {
                    seq![self.violation(UnsafeOpKind::AssignToDroppingUnionField, info.span)]
                },
            }) + self.expr_violations(*expr.kind->Field_lhs, assignment_info),
    {
        assert(keeps_assignment_info(expr.kind));
        assert(self.walk_expr_violations(expr, assignment_info) == self.expr_violations(
            *expr.kind->Field_lhs,
            assignment_info,
        ));
        assert(self.expr_violations(expr, assignment_info) == self.recorded(
            self.expr_requires(expr, assignment_info),
        ) + self.walk_expr_violations(expr, assignment_info));
    }

    /// An assignment to the field of a union. It is recorded, once and at
    /// the assignment, exactly if the type of the field is neither `Copy`
    /// nor `ManuallyDrop`; nothing is recorded for the access to the field
    /// itself. Before that record stands the record of a mutation, if the
    /// target lies in a field of a type with a restricted valid range. What
    /// the expression of the union and the assigned value need follows.
    pub proof fn lemma_union_field_assignment(
        &self,
        expr: Expr,
        assignment_info: Option<AssignmentInfo>,
    )
        requires
            expr.kind is Assign,
            expr.kind->Assign_lhs.kind is Field,
            expr.kind->Assign_lhs.kind->Field_lhs.ty.is_union(),
        ensures
            self.expr_violations(expr, assignment_info) == (
            if in_layout_constrained_place(*expr.kind->Assign_lhs) {
                seq![self.violation(UnsafeOpKind::MutationOfLayoutConstrainedField, expr.span)]
            } else {
                Seq::empty()
            }) + (if expr.kind->Assign_lhs.ty.overwrites_without_drop() {
                Seq::empty()
            } else {
                seq![self.violation(UnsafeOpKind::AssignToDroppingUnionField, expr.span)]
            }) + self.expr_violations(
                *expr.kind->Assign_lhs.kind->Field_lhs,
                Some(
                    AssignmentInfo {
                        overwrites_without_drop: expr.kind->Assign_lhs.ty.overwrites_without_drop(),
                        span: expr.span,
                    },
                ),
            ) + self.expr_violations(*expr.kind->Assign_rhs, None),
    {
        let info = AssignmentInfo {
            overwrites_without_drop: expr.kind->Assign_lhs.ty.overwrites_without_drop(),
            span: expr.span,
        };
        self.lemma_union_field(*expr.kind->Assign_lhs, Some(info));
    }

    /// Records that the operation at `span` needs an unsafe context.
    fn requires_unsafe(&self, violations: &mut Vec<Violation>, span: Span, kind: UnsafeOpKind)
        ensures
            final(violations)@ == old(violations)@.push(self.violation(kind, span)),
    {
        violations.push(Violation { kind, owner: self.current_did, span });
    }

    /// Visits `expr` and everything below it, and appends what needs an
    /// unsafe context to `violations`.
    ///
    /// `assignment_info` is `Some` when `expr` is the target of an
    /// assignment, or is reached from the target through expressions that
    /// stay in its place.
    pub fn visit_expr(
        &self,
        expr: &Expr,
        assignment_info: Option<AssignmentInfo>,
        violations: &mut Vec<Violation>,
    )
        ensures
            final(violations)@ == old(violations)@ + self.expr_violations(*expr, assignment_info),
        decreases expr, 1int,
    {
        // could we be in the target of an assignment to a field?
        let assignment_info = match &expr.kind {
            ExprKind::Field { .. }
            | ExprKind::VarRef
            | ExprKind::UpvarRef
            | ExprKind::Scope { .. }
            | ExprKind::Cast { .. } => assignment_info,
            _ => None,
        };
        match &expr.kind {
            ExprKind::Call { fun, .. } => {
                if fun.ty.unsafe_fn_sig {
                    let func_id = match &fun.ty.kind {
                        TyKind::FnDef { def_id, .. } => def_id.as_local(),
                        _ => None,
                    };
                    self.requires_unsafe(
                        violations,
                        expr.span,
                        UnsafeOpKind::CallToUnsafeFunction(func_id),
                    );
                } else {
                    match &fun.ty.kind {
                        TyKind::FnDef { def_id, target_features } => {
                            // A callee with target features that the caller
                            // lacks needs an unsafe context, except where
                            // the target makes no difference between them.
                            if !self.is_like_wasm && !has_features(
                                target_features,
                                self.body_target_features,
                            ) {
                                self.requires_unsafe(
                                    violations,
                                    expr.span,
                                    UnsafeOpKind::CallToFunctionWith(*def_id),
                                );
                            }
                        },
                        _ => {},
                    }
                }
            },
            ExprKind::Deref { arg } => {
                match &arg.kind {
                    ExprKind::StaticRef { is_mutable, is_foreign } => {
                        if *is_mutable {
                            self.requires_unsafe(
                                violations,
                                expr.span,
                                UnsafeOpKind::UseOfMutableStatic,
                            );
                        } else if *is_foreign {
                            self.requires_unsafe(
                                violations,
                                expr.span,
                                UnsafeOpKind::UseOfExternStatic,
                            );
                        }
                    },
                    _ => {
                        if arg.ty.is_unsafe_ptr() {
                            self.requires_unsafe(
                                violations,
                                expr.span,
                                UnsafeOpKind::DerefOfRawPointer,
                            );
                        }
                    },
                }
            },
            ExprKind::InlineAsm { .. } => {
                self.requires_unsafe(violations, expr.span, UnsafeOpKind::UseOfInlineAssembly);
            },
            ExprKind::Adt { .. } => {
                if expr.ty.is_layout_constrained() {
                    self.requires_unsafe(violations, expr.span, UnsafeOpKind::InitializingTypeWith);
                }
            },
            ExprKind::Closure { body } => {
                // The closure's body is walked on its own and recorded
                // under the function that holds the closure.
                self.visit_expr(body, None, violations);
                return ;
            },
            ExprKind::Field { lhs } => {
                if lhs.ty.is_union() {
                    match assignment_info {
                        Some(info) => {
                            // Only `Copy` and `ManuallyDrop` count as not dropping.
                            if !info.overwrites_without_drop {
                                self.requires_unsafe(
                                    violations,
                                    info.span,
                                    UnsafeOpKind::AssignToDroppingUnionField,
                                );
                            }
                        },
                        None => {
                            self.requires_unsafe(
                                violations,
                                expr.span,
                                UnsafeOpKind::AccessToUnionField,
                            );
                        },
                    }
                }
            },
            ExprKind::Assign { lhs, rhs } => {
                // First, is a layout constrained field mutated?
                let mut visitor = LayoutConstrainedPlaceVisitor::new();
                visitor.visit_expr(lhs);
                if visitor.found {
                    self.requires_unsafe(
                        violations,
                        expr.span,
                        UnsafeOpKind::MutationOfLayoutConstrainedField,
                    );
                }
                // Second, the target is visited as such, so that a write to
                // a union field is told from a read.
                let info = AssignmentInfo {
                    overwrites_without_drop: lhs.ty.overwrites_without_drop(),
                    span: expr.span,
                };
                self.visit_expr(lhs, Some(info), violations);
                self.visit_expr(rhs, None, violations);
                return ;  // everything has been visited
            },
            ExprKind::AssignOp { lhs, .. } => {
                // A compound assignment reads its target: no information
                // is handed down.
                let mut visitor = LayoutConstrainedPlaceVisitor::new();
                visitor.visit_expr(lhs);
                if visitor.found {
                    self.requires_unsafe(
                        violations,
                        expr.span,
                        UnsafeOpKind::MutationOfLayoutConstrainedField,
                    );
                }
            },
            ExprKind::Borrow { borrow_kind, arg } => {
                let mut visitor = LayoutConstrainedPlaceVisitor::new();
                visitor.visit_expr(arg);
                if visitor.found {
                    match borrow_kind {
                        BorrowKind::Mut => {
                            self.requires_unsafe(
                                violations,
                                expr.span,
                                UnsafeOpKind::MutationOfLayoutConstrainedField,
                            );
                        },
                        BorrowKind::Shallow | BorrowKind::Shared | BorrowKind::Unique => {
                            if !arg.ty.is_freeze {
                                self.requires_unsafe(
                                    violations,
                                    expr.span,
                                    UnsafeOpKind::BorrowOfLayoutConstrainedField,
                                );
                            }
                        },
                    }
                }
            },
            ExprKind::Let { expr: scrutinee, .. } => {
                if scrutinee.ty.is_union() {
                    self.requires_unsafe(violations, expr.span, UnsafeOpKind::AccessToUnionField);
                }
            },
            _ => {},
        }
        assert(violations@ == old(violations)@ + self.recorded(
            self.expr_requires(*expr, assignment_info),
        ));
        self.walk_expr(expr, assignment_info, violations);
    }

    /// Visits the expression in `expr`, if there is one.
    fn visit_opt_expr(&self, expr: &Option<Box<Expr>>, violations: &mut Vec<Violation>)
        ensures
            final(violations)@ == old(violations)@ + self.opt_expr_violations(*expr),
        decreases expr,
    {
        match expr {
            Some(e) => self.visit_expr(e, None, violations),
            None => {},
        }
    }

    /// Visits the operands of `expr`, one after the other.
    pub fn walk_expr(
        &self,
        expr: &Expr,
        assignment_info: Option<AssignmentInfo>,
        violations: &mut Vec<Violation>,
    )
        ensures
            final(violations)@ == old(violations)@ + self.walk_expr_violations(
                *expr,
                assignment_info,
            ),
        decreases expr, 0int,
    {
        match &expr.kind {
            ExprKind::Scope { value }
            | ExprKind::Box { value }
            | ExprKind::Repeat { value }
            | ExprKind::Yield { value } => {
                self.visit_expr(value, assignment_info, violations);
            },
            ExprKind::Deref { arg }
            | ExprKind::Unary { arg }
            | ExprKind::Borrow { arg, .. }
            | ExprKind::AddressOf { arg } => {
                self.visit_expr(arg, assignment_info, violations);
            },
            ExprKind::Cast { source }
            | ExprKind::Use { source }
            | ExprKind::NeverToAny { source }
            | ExprKind::Pointer { source }
            | ExprKind::PlaceTypeAscription { source }
            | ExprKind::ValueTypeAscription { source } => {
                self.visit_expr(source, assignment_info, violations);
            },
            ExprKind::Loop { body } => {
                self.visit_expr(body, assignment_info, violations);
            },
            ExprKind::Field { lhs } => {
                self.visit_expr(lhs, assignment_info, violations);
            },
            ExprKind::If { cond, then, else_opt } => {
                self.visit_expr(cond, None, violations);
                self.visit_expr(then, None, violations);
                self.visit_opt_expr(else_opt, violations);
            },
            ExprKind::Call { fun, args } => {
                self.visit_expr(fun, None, violations);
                self.visit_exprs(args, violations);
            },
            ExprKind::Binary { lhs, rhs }
            | ExprKind::LogicalOp { lhs, rhs }
            | ExprKind::Assign { lhs, rhs }
            | ExprKind::AssignOp { lhs, rhs } => {
                self.visit_expr(lhs, None, violations);
                self.visit_expr(rhs, None, violations);
            },
            ExprKind::Index { lhs, index } => {
                self.visit_expr(lhs, None, violations);
                self.visit_expr(index, None, violations);
            },
            ExprKind::Let { expr: scrutinee, pat } => {
                self.visit_expr(scrutinee, None, violations);
                self.visit_pat(pat, false, false, violations);
            },
            ExprKind::Match { scrutinee, arms } => {
                self.visit_expr(scrutinee, None, violations);
                self.visit_arms(arms, violations);
            },
            ExprKind::Block { body } => {
                self.visit_block(body, violations);
            },
            ExprKind::Break { value } | ExprKind::Return { value } => {
                self.visit_opt_expr(value, violations);
            },
            ExprKind::Array { fields } | ExprKind::Tuple { fields } => {
                self.visit_exprs(fields, violations);
            },
            ExprKind::Adt { fields, base } => {
                self.visit_exprs(fields, violations);
                self.visit_opt_expr(base, violations);
            },
            ExprKind::InlineAsm { operands } => {
                self.visit_exprs(operands, violations);
            },
            ExprKind::Closure { .. }
            | ExprKind::VarRef
            | ExprKind::UpvarRef
            | ExprKind::Continue
            | ExprKind::ConstBlock
            | ExprKind::Literal
            | ExprKind::NonHirLiteral
            | ExprKind::NamedConst
            | ExprKind::ConstParam
            | ExprKind::StaticRef { .. }
            | ExprKind::ThreadLocalRef => {},
        }
    }

    /// Visits the expressions of `exprs`, one after the other.
    fn visit_exprs(&self, exprs: &Vec<Expr>, violations: &mut Vec<Violation>)
        ensures
            final(violations)@ == old(violations)@ + self.exprs_violations(exprs@),
        decreases exprs,
    {
        let mut i: usize = 0;
        while i < exprs.len()
            invariant
                i <= exprs.len(),
                violations@ == old(violations)@ + self.exprs_violations(exprs@.take(i as int)),
            decreases exprs.len() - i,
        {
            assert(exprs@.take(i + 1).drop_last() == exprs@.take(i as int));
            self.visit_expr(&exprs[i], None, violations);
            i += 1;
        }
        assert(exprs@.take(i as int) == exprs@);
    }

    /// Visits the statements of a block, then its final expression.
    pub fn visit_block(&self, block: &Block, violations: &mut Vec<Violation>)
        ensures
            final(violations)@ == old(violations)@ + self.block_violations(*block),
        decreases block,
    {
        let mut i: usize = 0;
        while i < block.stmts.len()
            invariant
                i <= block.stmts.len(),
                violations@ == old(violations)@ + self.stmts_violations(
                    block.stmts@.take(i as int),
                ),
            decreases block.stmts.len() - i,
        {
            assert(block.stmts@.take(i + 1).drop_last() == block.stmts@.take(i as int));
            self.visit_stmt(&block.stmts[i], violations);
            i += 1;
        }
        assert(block.stmts@.take(i as int) == block.stmts@);
        self.visit_opt_expr(&block.expr, violations);
    }

    /// Visits a statement.
    fn visit_stmt(&self, stmt: &Stmt, violations: &mut Vec<Violation>)
        ensures
            final(violations)@ == old(violations)@ + self.stmt_violations(*stmt),
        decreases stmt,
    {
        match stmt {
            Stmt::Expr { expr } => {
                self.visit_expr(expr, None, violations);
            },
            Stmt::Let { initializer, pattern, else_block } => {
                match initializer {
                    Some(init) => self.visit_expr(init, None, violations),
                    None => {},
                }
                self.visit_pat(pattern, false, false, violations);
                match else_block {
                    Some(block) => self.visit_block(block, violations),
                    None => {},
                }
            },
        }
    }

    /// Visits a match arm: its guard, then its pattern, then its body.
    fn visit_arm(&self, arm: &Arm, violations: &mut Vec<Violation>)
        ensures
            final(violations)@ == old(violations)@ + self.arm_violations(*arm),
        decreases arm,
    {
        match &arm.guard {
            Some(Guard::If { cond }) => {
                self.visit_expr(cond, None, violations);
            },
            Some(Guard::IfLet { pat, expr }) => {
                self.visit_pat(pat, false, false, violations);
                self.visit_expr(expr, None, violations);
            },
            None => {},
        }
        self.visit_pat(&arm.pattern, false, false, violations);
        self.visit_expr(&arm.body, None, violations);
    }

    /// Visits the arms of a match, one after the other.
    fn visit_arms(&self, arms: &Vec<Arm>, violations: &mut Vec<Violation>)
        ensures
            final(violations)@ == old(violations)@ + self.arms_violations(arms@),
        decreases arms,
    {
        let mut i: usize = 0;
        while i < arms.len()
            invariant
                i <= arms.len(),
                violations@ == old(violations)@ + self.arms_violations(arms@.take(i as int)),
            decreases arms.len() - i,
        {
            assert(arms@.take(i + 1).drop_last() == arms@.take(i as int));
            self.visit_arm(&arms[i], violations);
            i += 1;
        }
        assert(arms@.take(i as int) == arms@);
    }

    /// Visits `pat` and everything below it, and appends what needs an
    /// unsafe context to `violations`.
    ///
    /// The two flags say where the pattern stands: below a pattern that
    /// takes a union apart, and below a pattern of a type with a restricted
    /// valid range. They hold for the patterns below as far as the pattern
    /// itself does not change them.
    pub fn visit_pat(
        &self,
        pat: &Pat,
        in_union_destructure: bool,
        inside_adt: bool,
        violations: &mut Vec<Violation>,
    )
        ensures
            final(violations)@ == old(violations)@ + self.pat_violations(
                *pat,
                in_union_destructure,
                inside_adt,
            ),
        decreases pat,
    {
        if in_union_destructure {
            match &pat.kind {
                // a binding takes the value out of the union;
                // the others match only if the value is read
                PatKind::Binding { .. }
                | PatKind::Constant
                | PatKind::Variant { .. }
                | PatKind::Leaf { .. }
                | PatKind::Deref { .. }
                | PatKind::Range
                | PatKind::Slice { .. }
                | PatKind::Array { .. } => {
                    self.requires_unsafe(violations, pat.span, UnsafeOpKind::AccessToUnionField);
                    return ;  // nothing below can add to this
                },
                // a wildcard takes nothing; these two only wrap patterns
                PatKind::Wild | PatKind::Or { .. } | PatKind::AscribeUserType { .. } => {},
            }
        }
        match &pat.kind {
            PatKind::Leaf { subpatterns } => {
                if pat.ty.is_union() {
                    self.visit_pats(subpatterns, true, inside_adt, violations);
                } else if pat.ty.is_layout_constrained() {
                    self.visit_pats(subpatterns, in_union_destructure, true, violations);
                } else {
                    self.visit_pats(subpatterns, in_union_destructure, inside_adt, violations);
                }
            },
            PatKind::Binding { mode, subpattern } => {
                match mode {
                    BindingMode::ByRef { borrow_kind, referent_is_freeze } => {
                        if inside_adt {
                            match borrow_kind {
                                BorrowKind::Shallow | BorrowKind::Shared | BorrowKind::Unique => {
                                    if !*referent_is_freeze {
                                        self.requires_unsafe(
                                            violations,
                                            pat.span,
                                            UnsafeOpKind::BorrowOfLayoutConstrainedField,
                                        );
                                    }
                                },
                                BorrowKind::Mut => {
                                    self.requires_unsafe(
                                        violations,
                                        pat.span,
                                        UnsafeOpKind::MutationOfLayoutConstrainedField,
                                    );
                                },
                            }
                        }
                    },
                    BindingMode::ByValue => {},
                }
                self.visit_opt_pat(subpattern, in_union_destructure, inside_adt, violations);
            },
            PatKind::Deref { subpattern } => {
                self.visit_pat(subpattern, in_union_destructure, false, violations);
            },
            PatKind::AscribeUserType { subpattern } => {
                self.visit_pat(subpattern, in_union_destructure, inside_adt, violations);
            },
            PatKind::Variant { subpatterns } => {
                self.visit_pats(subpatterns, in_union_destructure, inside_adt, violations);
            },
            PatKind::Slice { prefix, slice, suffix } | PatKind::Array { prefix, slice, suffix } => {
                self.visit_pats(prefix, in_union_destructure, inside_adt, violations);
                self.visit_opt_pat(slice, in_union_destructure, inside_adt, violations);
                self.visit_pats(suffix, in_union_destructure, inside_adt, violations);
            },
            PatKind::Or { pats } => {
                self.visit_pats(pats, in_union_destructure, inside_adt, violations);
            },
            PatKind::Wild | PatKind::Constant | PatKind::Range => {},
        }
    }

    /// Visits the pattern in `pat`, if there is one.
    fn visit_opt_pat(
        &self,
        pat: &Option<Box<Pat>>,
        in_union_destructure: bool,
        inside_adt: bool,
        violations: &mut Vec<Violation>,
    )
        ensures
            final(violations)@ == old(violations)@ + self.opt_pat_violations(
                *pat,
                in_union_destructure,
                inside_adt,
            ),
        decreases pat,
    {
        match pat {
            Some(p) => self.visit_pat(p, in_union_destructure, inside_adt, violations),
            None => {},
        }
    }

    /// Visits the patterns of `pats`, one after the other.
    fn visit_pats(
        &self,
        pats: &Vec<Pat>,
        in_union_destructure: bool,
        inside_adt: bool,
        violations: &mut Vec<Violation>,
    )
        ensures
            final(violations)@ == old(violations)@ + self.pats_violations(
                pats@,
                in_union_destructure,
                inside_adt,
            ),
        decreases pats,
    {
        let mut i: usize = 0;
        while i < pats.len()
            invariant
                i <= pats.len(),
                violations@ == old(violations)@ + self.pats_violations(
                    pats@.take(i as int),
                    in_union_destructure,
                    inside_adt,
                ),
            decreases pats.len() - i,
        {
            assert(pats@.take(i + 1).drop_last() == pats@.take(i as int));
            self.visit_pat(&pats[i], in_union_destructure, inside_adt, violations);
            i += 1;
        }
        assert(pats@.take(i as int) == pats@);
    }
}

/// The visitor for the body of `def`: it knows the target features of `def`
/// and records under its name.
pub open spec fn visitor_for<'a>(unit: &'a Unit, def: LocalDefId) -> UnsafetyVisitor<'a>
    recommends
        unit.defines(def),
{
    UnsafetyVisitor {
        body_target_features: &unit.def(def).target_features,
        is_like_wasm: unit.is_like_wasm,
        current_did: def,
    }
}

/// What the body of `def` holds that needs an unsafe context, in the order
/// of the walk. It is empty for a closure, whose body is walked with the
/// function that holds it, for a definition without a body, and for an
/// identifier that the unit does not define.
#[verifier::opaque]
pub open spec fn body_violations(unit: &Unit, def: LocalDefId) -> Seq<Violation> {
    if !unit.defines(def) || unit.def(def).kind is Closure {
        Seq::empty()
    } else {
        match unit.def(def).body {
            Some(root) => visitor_for(unit, def).expr_violations(root, None),
            None => Seq::empty(),
        }
    }
}

/// The record that a function is unsafe by choice: placed at its signature.
pub open spec fn chosen_unsafe(unit: &Unit, def: LocalDefId) -> Violation
    recommends
        unit.defines(def),
{
    Violation { kind: UnsafeOpKind::ChoosenUnsafe, owner: def, span: unit.def(def).span }
}

/// What classifying `def` yields: what its body holds that needs an unsafe
/// context, in the order of the walk. Where the walk finds nothing and `def`
/// is a function marked unsafe, it is the one record that the function is
/// unsafe by choice, so that a function marked unsafe always has a reason.
pub open spec fn classification(unit: &Unit, def: LocalDefId) -> Seq<Violation> {
    let found = body_violations(unit, def);
    if found.len() == 0 && unit.defines(def) && unit.def(def).header.unsafety is Unsafe && !(
    unit.def(def).kind is Closure) {
        seq![chosen_unsafe(unit, def)]
    } else {
        found
    }
}

/// Classifies `def`: every operation in its body that needs an unsafe
/// context, with its kind and place, in the order of the walk.
///
/// A function that is marked unsafe and holds no such operation is unsafe
/// by choice, and that is the one record returned for it. Nothing is
/// returned for a closure, whose body is walked with the function that holds
/// it, for an identifier that the unit does not define, and for a
/// definition that is not marked unsafe and holds no such operation.
pub fn check_unsafety(unit: &Unit, def: LocalDefId) -> (r: Vec<Violation>)
    ensures
        r@ == classification(unit, def),
{
    reveal(body_violations);
    let mut violations: Vec<Violation> = Vec::new();
    let definition = match unit.get(def) {
        Some(definition) => definition,
        None => {
            return violations;
        },
    };
    // Closures are handled by their owner
    if matches!(definition.kind, DefKind::Closure) {
        return violations;
    }
    match &definition.body {
        Some(root) => {
            let visitor = UnsafetyVisitor {
                body_target_features: &definition.target_features,
                is_like_wasm: unit.is_like_wasm,
                current_did: def,
            };
            visitor.visit_expr(root, None, &mut violations);
        },
        None => {},
    }
    if violations.len() == 0 && definition.header.unsafety == Unsafety::Unsafe {
        violations.push(
            Violation { kind: UnsafeOpKind::ChoosenUnsafe, owner: def, span: definition.span },
        );
    }
    violations
}

} // verus!
