//! Nothing is missed: an operation that needs an unsafe context is recorded
//! wherever it stands in a body.

use crate::safe::unsafety_visitor::{
    keeps_assignment_info, AssignmentInfo, UnsafetyVisitor, Violation,
};
use crate::thir::{Arm, Block, Expr, ExprKind, Guard, Stmt};
use vstd::prelude::*;

verus! {

/// Whether `node` is `expr` or an expression below it. The body of a closure
/// is below the closure.
pub open spec fn occurs_in(node: Expr, expr: Expr) -> bool
    decreases expr, 1int,
{
    node == expr || occurs_below(node, expr)
}

/// Whether `node` is the expression in `expr`, if there is one, or below it.
pub open spec fn occurs_in_opt(node: Expr, expr: Option<Box<Expr>>) -> bool
    decreases expr,
{
    match expr {
        Some(e) => occurs_in(node, *e),
        None => false,
    }
}

/// Whether `node` is an operand of `expr` or below one.
pub open spec fn occurs_below(node: Expr, expr: Expr) -> bool
    decreases expr, 0int,
{
    match expr.kind {
        ExprKind::Scope { value }
        | ExprKind::Box { value }
        | ExprKind::Repeat { value }
        | ExprKind::Yield { value } => occurs_in(node, *value),
        ExprKind::Deref { arg }
        | ExprKind::Unary { arg }
        | ExprKind::Borrow { arg, .. }
        | ExprKind::AddressOf { arg } => occurs_in(node, *arg),
        ExprKind::Cast { source }
        | ExprKind::Use { source }
        | ExprKind::NeverToAny { source }
        | ExprKind::Pointer { source }
        | ExprKind::PlaceTypeAscription { source }
        | ExprKind::ValueTypeAscription { source } => occurs_in(node, *source),
        ExprKind::Loop { body } | ExprKind::Closure { body } => occurs_in(node, *body),
        ExprKind::Field { lhs } => occurs_in(node, *lhs),
        ExprKind::If { cond, then, else_opt } => occurs_in(node, *cond) || occurs_in(node, *then)
            || occurs_in_opt(node, else_opt),
        ExprKind::Call { fun, args } => occurs_in(node, *fun) || occurs_in_exprs(node, args@),
        ExprKind::Binary { lhs, rhs }
        | ExprKind::LogicalOp { lhs, rhs }
        | ExprKind::Assign { lhs, rhs }
        | ExprKind::AssignOp { lhs, rhs } => occurs_in(node, *lhs) || occurs_in(node, *rhs),
        ExprKind::Index { lhs, index } => occurs_in(node, *lhs) || occurs_in(node, *index),
        ExprKind::Let { expr: scrutinee, .. } => occurs_in(node, *scrutinee),
        ExprKind::Match { scrutinee, arms } => occurs_in(node, *scrutinee) || occurs_in_arms(
            node,
            arms@,
        ),
        ExprKind::Block { body } => occurs_in_block(node, body),
        ExprKind::Break { value } | ExprKind::Return { value } => occurs_in_opt(node, value),
        ExprKind::Array { fields } | ExprKind::Tuple { fields } => occurs_in_exprs(node, fields@),
        ExprKind::Adt { fields, base } => occurs_in_exprs(node, fields@) || occurs_in_opt(
            node,
            base,
        ),
        ExprKind::InlineAsm { operands } => occurs_in_exprs(node, operands@),
        ExprKind::VarRef
        | ExprKind::UpvarRef
        | ExprKind::Continue
        | ExprKind::ConstBlock
        | ExprKind::Literal
        | ExprKind::NonHirLiteral
        | ExprKind::NamedConst
        | ExprKind::ConstParam
        | ExprKind::StaticRef { .. }
        | ExprKind::ThreadLocalRef => false,
    }
}

/// Whether `node` is one of `exprs` or below one.
pub open spec fn occurs_in_exprs(node: Expr, exprs: Seq<Expr>) -> bool
    decreases exprs,
{
    exprs.len() > 0 && (occurs_in_exprs(node, exprs.drop_last()) || occurs_in(node, exprs.last()))
}

/// Whether `node` stands in a statement of the block or in its final
/// expression.
pub open spec fn occurs_in_block(node: Expr, block: Block) -> bool
    decreases block,
{
    occurs_in_stmts(node, block.stmts@) || occurs_in_opt(node, block.expr)
}

/// Whether `node` stands in the statement: in its expression, or in the
/// initializer or the `else` of a `let`.
pub open spec fn occurs_in_stmt(node: Expr, stmt: Stmt) -> bool
    decreases stmt,
{
    match stmt {
        Stmt::Expr { expr } => occurs_in(node, expr),
        Stmt::Let { initializer, else_block, .. } => (match initializer {
            Some(init) => occurs_in(node, init),
            None => false,
        }) || (match else_block {
            Some(block) => occurs_in_block(node, block),
            None => false,
        }),
    }
}

/// Whether `node` stands in one of `stmts`.
pub open spec fn occurs_in_stmts(node: Expr, stmts: Seq<Stmt>) -> bool
    decreases stmts,
{
    stmts.len() > 0 && (occurs_in_stmts(node, stmts.drop_last()) || occurs_in_stmt(
        node,
        stmts.last(),
    ))
}

/// Whether `node` stands in the guard or in the body of the arm.
pub open spec fn occurs_in_arm(node: Expr, arm: Arm) -> bool
    decreases arm,
{
    (match arm.guard {
        Some(Guard::If { cond }) => occurs_in(node, cond),
        Some(Guard::IfLet { expr, .. }) => occurs_in(node, expr),
        None => false,
    }) || occurs_in(node, arm.body)
}

/// Whether `node` stands in one of `arms`.
pub open spec fn occurs_in_arms(node: Expr, arms: Seq<Arm>) -> bool
    decreases arms,
{
    arms.len() > 0 && (occurs_in_arms(node, arms.drop_last()) || occurs_in_arm(node, arms.last()))
}

/// What two sequences hold, one after the other, holds what either holds.
proof fn lemma_contains_either(a: Seq<Violation>, b: Seq<Violation>, v: Violation)
    requires
        a.contains(v) || b.contains(v),
    ensures
        (a + b).contains(v),
{
    if a.contains(v) {
        let i = choose|i: int| 0 <= i < a.len() && a[i] == v;
        assert((a + b)[i] == v);
    } else {
        let i = choose|i: int| 0 <= i < b.len() && b[i] == v;
        assert((a + b)[a.len() + i] == v);
    }
}

impl<'a> UnsafetyVisitor<'a> {
    /// The record of what `node` needs by itself, outside the target of an
    /// assignment.
    pub open spec fn own_record(&self, node: Expr) -> Option<Violation> {
        match self.expr_requires(node, None) {
            Some((kind, span)) => Some(self.violation(kind, span)),
            None => None,
        }
    }

    /// Every expression of a body is looked at. If `node` stands anywhere in
    /// `expr` and by itself needs an unsafe context, whatever surrounds it,
    /// then what it needs is among what is found in `expr`.
    ///
    /// The one expression whose needs depend on what surrounds it is the
    /// access to a field, which may be the target of an assignment; it is
    /// left out here.
    pub proof fn lemma_nothing_is_missed(
        &self,
        node: Expr,
        expr: Expr,
        assignment_info: Option<AssignmentInfo>,
    )
        requires
            occurs_in(node, expr),
            !(node.kind is Field),
            self.own_record(node) is Some,
        ensures
            self.expr_violations(expr, assignment_info).contains(
                self.own_record(node)->0,
            ),
        decreases expr, 1int,
    {
        let found = self.own_record(node)->0;
        let inherited = if keeps_assignment_info(expr.kind) {
            assignment_info
        } else {
            None
        };
        let own = self.recorded(self.expr_requires(expr, inherited));
        if node == expr {
            assert(own[0] == found);
            assert(self.expr_violations(expr, assignment_info)[0] == found);
        } else {
            match expr.kind {
                ExprKind::Closure { body } => {
                    self.lemma_nothing_is_missed(node, *body, None);
                    lemma_contains_either(own, self.expr_violations(*body, None), found);
                },
                ExprKind::Assign { lhs, rhs } => {
                    let info = Some(
                        AssignmentInfo {
                            overwrites_without_drop: lhs.ty.overwrites_without_drop(),
                            span: expr.span,
                        },
                    );
                    if occurs_in(node, *lhs) {
                        self.lemma_nothing_is_missed(node, *lhs, info);
                    } else {
                        self.lemma_nothing_is_missed(node, *rhs, None);
                    }
                    lemma_contains_either(
                        self.expr_violations(*lhs, info),
                        self.expr_violations(*rhs, None),
                        found,
                    );
                    lemma_contains_either(
                        own,
                        self.expr_violations(*lhs, info) + self.expr_violations(*rhs, None),
                        found,
                    );
                },
                _ => {
                    self.lemma_nothing_is_missed_below(node, expr, inherited);
                    lemma_contains_either(own, self.walk_expr_violations(expr, inherited), found);
                },
            }
        }
    }

    proof fn lemma_nothing_is_missed_in_opt(&self, node: Expr, expr: Option<Box<Expr>>)
        requires
            occurs_in_opt(node, expr),
            !(node.kind is Field),
            self.own_record(node) is Some,
        ensures
            self.opt_expr_violations(expr).contains(
                self.own_record(node)->0,
            ),
        decreases expr,
    {
        match expr {
            Some(e) => self.lemma_nothing_is_missed(node, *e, None),
            None => {},
        }
    }

    proof fn lemma_nothing_is_missed_below(
        &self,
        node: Expr,
        expr: Expr,
        assignment_info: Option<AssignmentInfo>,
    )
        requires
            occurs_below(node, expr),
            !(expr.kind is Closure),
            !(node.kind is Field),
            self.own_record(node) is Some,
        ensures
            self.walk_expr_violations(expr, assignment_info).contains(
                self.own_record(node)->0,
            ),
        decreases expr, 0int,
    {
        let found = self.own_record(node)->0;
        match expr.kind {
            ExprKind::Scope { value }
            | ExprKind::Box { value }
            | ExprKind::Repeat { value }
            | ExprKind::Yield { value } => {
                self.lemma_nothing_is_missed(node, *value, assignment_info);
            },
            ExprKind::Deref { arg }
            | ExprKind::Unary { arg }
            | ExprKind::Borrow { arg, .. }
            | ExprKind::AddressOf { arg } => {
                self.lemma_nothing_is_missed(node, *arg, assignment_info);
            },
            ExprKind::Cast { source }
            | ExprKind::Use { source }
            | ExprKind::NeverToAny { source }
            | ExprKind::Pointer { source }
            | ExprKind::PlaceTypeAscription { source }
            | ExprKind::ValueTypeAscription { source } => {
                self.lemma_nothing_is_missed(node, *source, assignment_info);
            },
            ExprKind::Loop { body } => {
                self.lemma_nothing_is_missed(node, *body, assignment_info);
            },
            ExprKind::Field { lhs } => {
                self.lemma_nothing_is_missed(node, *lhs, assignment_info);
            },
            ExprKind::If { cond, then, else_opt } => {
                let a = self.expr_violations(*cond, None);
                let b = self.expr_violations(*then, None);
                let c = self.opt_expr_violations(else_opt);
                if occurs_in(node, *cond) {
                    self.lemma_nothing_is_missed(node, *cond, None);
                    lemma_contains_either(a, b, found);
                } else if occurs_in(node, *then) {
                    self.lemma_nothing_is_missed(node, *then, None);
                    lemma_contains_either(a, b, found);
                } else {
                    self.lemma_nothing_is_missed_in_opt(node, else_opt);
                }
                lemma_contains_either(a + b, c, found);
            },
            ExprKind::Call { fun, args } => {
                if occurs_in(node, *fun) {
                    self.lemma_nothing_is_missed(node, *fun, None);
                } else {
                    self.lemma_nothing_is_missed_in_exprs(node, args@);
                }
                lemma_contains_either(
                    self.expr_violations(*fun, None),
                    self.exprs_violations(args@),
                    found,
                );
            },
            ExprKind::Binary { lhs, rhs }
            | ExprKind::LogicalOp { lhs, rhs }
            | ExprKind::Assign { lhs, rhs }
            | ExprKind::AssignOp { lhs, rhs } => {
                if occurs_in(node, *lhs) {
                    self.lemma_nothing_is_missed(node, *lhs, None);
                } else {
                    self.lemma_nothing_is_missed(node, *rhs, None);
                }
                lemma_contains_either(
                    self.expr_violations(*lhs, None),
                    self.expr_violations(*rhs, None),
                    found,
                );
            },
            ExprKind::Index { lhs, index } => {
                if occurs_in(node, *lhs) {
                    self.lemma_nothing_is_missed(node, *lhs, None);
                } else {
                    self.lemma_nothing_is_missed(node, *index, None);
                }
                lemma_contains_either(
                    self.expr_violations(*lhs, None),
                    self.expr_violations(*index, None),
                    found,
                );
            },
            ExprKind::Let { expr: scrutinee, pat } => {
                self.lemma_nothing_is_missed(node, *scrutinee, None);
                lemma_contains_either(
                    self.expr_violations(*scrutinee, None),
                    self.pat_violations(*pat, false, false),
                    found,
                );
            },
            ExprKind::Match { scrutinee, arms } => {
                if occurs_in(node, *scrutinee) {
                    self.lemma_nothing_is_missed(node, *scrutinee, None);
                } else {
                    self.lemma_nothing_is_missed_in_arms(node, arms@);
                }
                lemma_contains_either(
                    self.expr_violations(*scrutinee, None),
                    self.arms_violations(arms@),
                    found,
                );
            },
            ExprKind::Block { body } => {
                self.lemma_nothing_is_missed_in_block(node, body);
            },
            ExprKind::Break { value } | ExprKind::Return { value } => {
                self.lemma_nothing_is_missed_in_opt(node, value);
            },
            ExprKind::Array { fields } | ExprKind::Tuple { fields } => {
                self.lemma_nothing_is_missed_in_exprs(node, fields@);
            },
            ExprKind::Adt { fields, base } => {
                if occurs_in_exprs(node, fields@) {
                    self.lemma_nothing_is_missed_in_exprs(node, fields@);
                } else {
                    self.lemma_nothing_is_missed_in_opt(node, base);
                }
                lemma_contains_either(
                    self.exprs_violations(fields@),
                    self.opt_expr_violations(base),
                    found,
                );
            },
            ExprKind::InlineAsm { operands } => {
                self.lemma_nothing_is_missed_in_exprs(node, operands@);
            },
            ExprKind::Closure { .. }
            | ExprKind::VarRef
            | ExprKind::UpvarRef
            | ExprKind::Continue
            | ExprKind::ConstBlock
            | ExprKind::Literal
            | ExprKind::NonHirLiteral
            | ExprKind::NamedConst
            | ExprKind::ConstParam
            | ExprKind::StaticRef { .. }
            | ExprKind::ThreadLocalRef => {},
        }
    }

    proof fn lemma_nothing_is_missed_in_exprs(&self, node: Expr, exprs: Seq<Expr>)
        requires
            occurs_in_exprs(node, exprs),
            !(node.kind is Field),
            self.own_record(node) is Some,
        ensures
            self.exprs_violations(exprs).contains(
                self.own_record(node)->0,
            ),
        decreases exprs,
    {
        let found = self.own_record(node)->0;
        if occurs_in_exprs(node, exprs.drop_last()) {
            self.lemma_nothing_is_missed_in_exprs(node, exprs.drop_last());
        } else {
            self.lemma_nothing_is_missed(node, exprs.last(), None);
        }
        lemma_contains_either(
            self.exprs_violations(exprs.drop_last()),
            self.expr_violations(exprs.last(), None),
            found,
        );
    }

    proof fn lemma_nothing_is_missed_in_block(&self, node: Expr, block: Block)
        requires
            occurs_in_block(node, block),
            !(node.kind is Field),
            self.own_record(node) is Some,
        ensures
            self.block_violations(block).contains(
                self.own_record(node)->0,
            ),
        decreases block,
    {
        let found = self.own_record(node)->0;
        if occurs_in_stmts(node, block.stmts@) {
            self.lemma_nothing_is_missed_in_stmts(node, block.stmts@);
        } else {
            self.lemma_nothing_is_missed_in_opt(node, block.expr);
        }
        lemma_contains_either(
            self.stmts_violations(block.stmts@),
            self.opt_expr_violations(block.expr),
            found,
        );
    }

    proof fn lemma_nothing_is_missed_in_stmt(&self, node: Expr, stmt: Stmt)
        requires
            occurs_in_stmt(node, stmt),
            !(node.kind is Field),
            self.own_record(node) is Some,
        ensures
            self.stmt_violations(stmt).contains(
                self.own_record(node)->0,
            ),
        decreases stmt,
    {
        let found = self.own_record(node)->0;
        match stmt {
            Stmt::Expr { expr } => {
                self.lemma_nothing_is_missed(node, expr, None);
            },
            Stmt::Let { initializer, pattern, else_block } => {
                let a = match initializer {
                    Some(init) => self.expr_violations(init, None),
                    None => Seq::empty(),
                };
                let b = self.pat_violations(pattern, false, false);
                let c = self.opt_block_violations(else_block);
                if initializer is Some && occurs_in(node, initializer->0) {
                    self.lemma_nothing_is_missed(node, initializer->0, None);
                    lemma_contains_either(a, b, found);
                } else {
                    self.lemma_nothing_is_missed_in_block(node, else_block->0);
                }
                lemma_contains_either(a + b, c, found);
            },
        }
    }

    proof fn lemma_nothing_is_missed_in_stmts(&self, node: Expr, stmts: Seq<Stmt>)
        requires
            occurs_in_stmts(node, stmts),
            !(node.kind is Field),
            self.own_record(node) is Some,
        ensures
            self.stmts_violations(stmts).contains(
                self.own_record(node)->0,
            ),
        decreases stmts,
    {
        let found = self.own_record(node)->0;
        if occurs_in_stmts(node, stmts.drop_last()) {
            self.lemma_nothing_is_missed_in_stmts(node, stmts.drop_last());
        } else {
            self.lemma_nothing_is_missed_in_stmt(node, stmts.last());
        }
        lemma_contains_either(
            self.stmts_violations(stmts.drop_last()),
            self.stmt_violations(stmts.last()),
            found,
        );
    }

    proof fn lemma_nothing_is_missed_in_arm(&self, node: Expr, arm: Arm)
        requires
            occurs_in_arm(node, arm),
            !(node.kind is Field),
            self.own_record(node) is Some,
        ensures
            self.arm_violations(arm).contains(
                self.own_record(node)->0,
            ),
        decreases arm,
    {
        let found = self.own_record(node)->0;
        let a = match arm.guard {
            Some(Guard::If { cond }) => self.expr_violations(cond, None),
            Some(Guard::IfLet { pat, expr }) => self.pat_violations(pat, false, false)
                + self.expr_violations(expr, None),
            None => Seq::empty(),
        };
        let b = self.pat_violations(arm.pattern, false, false);
        let c = self.expr_violations(arm.body, None);
        if occurs_in(node, arm.body) {
            self.lemma_nothing_is_missed(node, arm.body, None);
        } else {
            match arm.guard {
                Some(Guard::If { cond }) => {
                    self.lemma_nothing_is_missed(node, cond, None);
                },
                Some(Guard::IfLet { pat, expr }) => {
                    self.lemma_nothing_is_missed(node, expr, None);
                    lemma_contains_either(
                        self.pat_violations(pat, false, false),
                        self.expr_violations(expr, None),
                        found,
                    );
                },
                None => {},
            }
            lemma_contains_either(a, b, found);
        }
        lemma_contains_either(a + b, c, found);
    }

    proof fn lemma_nothing_is_missed_in_arms(&self, node: Expr, arms: Seq<Arm>)
        requires
            occurs_in_arms(node, arms),
            !(node.kind is Field),
            self.own_record(node) is Some,
        ensures
            self.arms_violations(arms).contains(
                self.own_record(node)->0,
            ),
        decreases arms,
    {
        let found = self.own_record(node)->0;
        if occurs_in_arms(node, arms.drop_last()) {
            self.lemma_nothing_is_missed_in_arms(node, arms.drop_last());
        } else {
            self.lemma_nothing_is_missed_in_arm(node, arms.last());
        }
        lemma_contains_either(
            self.arms_violations(arms.drop_last()),
            self.arm_violations(arms.last()),
            found,
        );
    }
}

} // verus!
