//! What holds of every finding of a walk: it is recorded under the function
//! whose body is walked, and it is an operation of that body, never the mark
//! of a function that is unsafe by choice.

use crate::safe::unsafety_visitor::{
    body_violations, classification, keeps_assignment_info, reads_matched_value, visitor_for,
    AssignmentInfo, UnsafetyVisitor, Violation,
};
use crate::thir::{Arm, Block, Expr, ExprKind, Guard, Pat, PatKind, Stmt};
use crate::unit::{LocalDefId, Unit};
use vstd::prelude::*;

verus! {

/// Whether every record of `s` is reported under `owner`.
pub open spec fn all_owned_by(s: Seq<Violation>, owner: LocalDefId) -> bool {
    forall|i: int| 0 <= i < s.len() ==> (#[trigger] s[i]).owner == owner
}

/// Whether every record of `s` is an operation that a walk found for
/// `owner`: reported under `owner`, and of a kind other than unsafe by
/// choice.
pub open spec fn all_walked_by(s: Seq<Violation>, owner: LocalDefId) -> bool {
    forall|i: int|
        0 <= i < s.len() ==> (#[trigger] s[i]).owner == owner && !(s[i].kind is ChoosenUnsafe)
}

impl<'a> UnsafetyVisitor<'a> {
    /// Everything that is found in an expression is an operation of the
    /// body, recorded under the function that the visitor stands for.
    pub proof fn lemma_expr_violations_owned(
        &self,
        expr: Expr,
        assignment_info: Option<AssignmentInfo>,
    )
        ensures
            all_walked_by(self.expr_violations(expr, assignment_info), self.current_did),
        decreases expr, 1int,
    {
        let inherited = if keeps_assignment_info(expr.kind) {
            assignment_info
        } else {
            None
        };
        match expr.kind {
            ExprKind::Closure { body } => {
                self.lemma_expr_violations_owned(*body, None);
            },
            ExprKind::Assign { lhs, rhs } => {
                self.lemma_expr_violations_owned(
                    *lhs,
                    Some(
                        AssignmentInfo {
                            overwrites_without_drop: lhs.ty.overwrites_without_drop(),
                            span: expr.span,
                        },
                    ),
                );
                self.lemma_expr_violations_owned(*rhs, None);
            },
            _ => {
                self.lemma_walk_expr_violations_owned(expr, inherited);
            },
        }
    }

    proof fn lemma_opt_expr_violations_owned(&self, expr: Option<Box<Expr>>)
        ensures
            all_walked_by(self.opt_expr_violations(expr), self.current_did),
        decreases expr,
    {
        match expr {
            Some(e) => self.lemma_expr_violations_owned(*e, None),
            None => {},
        }
    }

    proof fn lemma_walk_expr_violations_owned(
        &self,
        expr: Expr,
        assignment_info: Option<AssignmentInfo>,
    )
        ensures
            all_walked_by(self.walk_expr_violations(expr, assignment_info), self.current_did),
        decreases expr, 0int,
    {
        match expr.kind {
            ExprKind::Scope { value }
            | ExprKind::Box { value }
            | ExprKind::Repeat { value }
            | ExprKind::Yield { value } => {
                self.lemma_expr_violations_owned(*value, assignment_info);
            },
            ExprKind::Deref { arg }
            | ExprKind::Unary { arg }
            | ExprKind::Borrow { arg, .. }
            | ExprKind::AddressOf { arg } => {
                self.lemma_expr_violations_owned(*arg, assignment_info);
            },
            ExprKind::Cast { source }
            | ExprKind::Use { source }
            | ExprKind::NeverToAny { source }
            | ExprKind::Pointer { source }
            | ExprKind::PlaceTypeAscription { source }
            | ExprKind::ValueTypeAscription { source } => {
                self.lemma_expr_violations_owned(*source, assignment_info);
            },
            ExprKind::Loop { body } => {
                self.lemma_expr_violations_owned(*body, assignment_info);
            },
            ExprKind::Field { lhs } => {
                self.lemma_expr_violations_owned(*lhs, assignment_info);
            },
            ExprKind::If { cond, then, else_opt } => {
                self.lemma_expr_violations_owned(*cond, None);
                self.lemma_expr_violations_owned(*then, None);
                self.lemma_opt_expr_violations_owned(else_opt);
            },
            ExprKind::Call { fun, args } => {
                self.lemma_expr_violations_owned(*fun, None);
                self.lemma_exprs_violations_owned(args@);
            },
            ExprKind::Binary { lhs, rhs }
            | ExprKind::LogicalOp { lhs, rhs }
            | ExprKind::Assign { lhs, rhs }
            | ExprKind::AssignOp { lhs, rhs } => {
                self.lemma_expr_violations_owned(*lhs, None);
                self.lemma_expr_violations_owned(*rhs, None);
            },
            ExprKind::Index { lhs, index } => {
                self.lemma_expr_violations_owned(*lhs, None);
                self.lemma_expr_violations_owned(*index, None);
            },
            ExprKind::Let { expr: scrutinee, pat } => {
                self.lemma_expr_violations_owned(*scrutinee, None);
                self.lemma_pat_violations_owned(*pat, false, false);
            },
            ExprKind::Match { scrutinee, arms } => {
                self.lemma_expr_violations_owned(*scrutinee, None);
                self.lemma_arms_violations_owned(arms@);
            },
            ExprKind::Block { body } => {
                self.lemma_block_violations_owned(body);
            },
            ExprKind::Break { value } | ExprKind::Return { value } => {
                self.lemma_opt_expr_violations_owned(value);
            },
            ExprKind::Array { fields } | ExprKind::Tuple { fields } => {
                self.lemma_exprs_violations_owned(fields@);
            },
            ExprKind::Adt { fields, base } => {
                self.lemma_exprs_violations_owned(fields@);
                self.lemma_opt_expr_violations_owned(base);
            },
            ExprKind::InlineAsm { operands } => {
                self.lemma_exprs_violations_owned(operands@);
            },
            ExprKind::Closure { .. }
            | ExprKind::VarRef
            | ExprKind::UpvarRef
            | ExprKind::Continue
            | ExprKind::ConstBlock
            | ExprKind::Literal
            | ExprKind::NonHirLiteral
            | ExprKind::NamedConst
            | ExprKind::ConstParam
            | ExprKind::StaticRef { .. }
            | ExprKind::ThreadLocalRef => {},
        }
    }

    proof fn lemma_exprs_violations_owned(&self, exprs: Seq<Expr>)
        ensures
            all_walked_by(self.exprs_violations(exprs), self.current_did),
        decreases exprs,
    {
        if exprs.len() > 0 {
            self.lemma_exprs_violations_owned(exprs.drop_last());
            self.lemma_expr_violations_owned(exprs.last(), None);
        }
    }

    proof fn lemma_block_violations_owned(&self, block: Block)
        ensures
            all_walked_by(self.block_violations(block), self.current_did),
        decreases block,
    {
        self.lemma_stmts_violations_owned(block.stmts@);
        self.lemma_opt_expr_violations_owned(block.expr);
    }

    proof fn lemma_stmt_violations_owned(&self, stmt: Stmt)
        ensures
            all_walked_by(self.stmt_violations(stmt), self.current_did),
        decreases stmt,
    {
        match stmt {
            Stmt::Expr { expr } => {
                self.lemma_expr_violations_owned(expr, None);
            },
            Stmt::Let { initializer, pattern, else_block } => {
                match initializer {
                    Some(init) => self.lemma_expr_violations_owned(init, None),
                    None => {},
                }
                self.lemma_pat_violations_owned(pattern, false, false);
                match else_block {
                    Some(b) => self.lemma_block_violations_owned(b),
                    None => {},
                }
            },
        }
    }

    proof fn lemma_stmts_violations_owned(&self, stmts: Seq<Stmt>)
        ensures
            all_walked_by(self.stmts_violations(stmts), self.current_did),
        decreases stmts,
    {
        if stmts.len() > 0 {
            self.lemma_stmts_violations_owned(stmts.drop_last());
            self.lemma_stmt_violations_owned(stmts.last());
        }
    }

    proof fn lemma_arm_violations_owned(&self, arm: Arm)
        ensures
            all_walked_by(self.arm_violations(arm), self.current_did),
        decreases arm,
    {
        match arm.guard {
            Some(Guard::If { cond }) => {
                self.lemma_expr_violations_owned(cond, None);
            },
            Some(Guard::IfLet { pat, expr }) => {
                self.lemma_pat_violations_owned(pat, false, false);
                self.lemma_expr_violations_owned(expr, None);
            },
            None => {},
        }
        self.lemma_pat_violations_owned(arm.pattern, false, false);
        self.lemma_expr_violations_owned(arm.body, None);
    }

    proof fn lemma_arms_violations_owned(&self, arms: Seq<Arm>)
        ensures
            all_walked_by(self.arms_violations(arms), self.current_did),
        decreases arms,
    {
        if arms.len() > 0 {
            self.lemma_arms_violations_owned(arms.drop_last());
            self.lemma_arm_violations_owned(arms.last());
        }
    }

    /// Everything that is found in a pattern is an operation of the body,
    /// recorded under the function that the visitor stands for.
    pub proof fn lemma_pat_violations_owned(
        &self,
        pat: Pat,
        in_union_destructure: bool,
        inside_adt: bool,
    )
        ensures
            all_walked_by(
                self.pat_violations(pat, in_union_destructure, inside_adt),
                self.current_did,
            ),
        decreases pat,
    {
        if in_union_destructure && reads_matched_value(pat.kind) {
        } else {
            match pat.kind {
                PatKind::Leaf { subpatterns } => {
                    self.lemma_pats_violations_owned(subpatterns@, true, inside_adt);
                    self.lemma_pats_violations_owned(subpatterns@, in_union_destructure, true);
                    self.lemma_pats_violations_owned(
                        subpatterns@,
                        in_union_destructure,
                        inside_adt,
                    );
                },
                PatKind::Binding { mode, subpattern } => {
                    self.lemma_opt_pat_violations_owned(
                        subpattern,
                        in_union_destructure,
                        inside_adt,
                    );
                },
                PatKind::Deref { subpattern } => {
                    self.lemma_pat_violations_owned(*subpattern, in_union_destructure, false);
                },
                PatKind::AscribeUserType { subpattern } => {
                    self.lemma_pat_violations_owned(
                        *subpattern,
                        in_union_destructure,
                        inside_adt,
                    );
                },
                PatKind::Variant { subpatterns } => {
                    self.lemma_pats_violations_owned(
                        subpatterns@,
                        in_union_destructure,
                        inside_adt,
                    );
                },
                PatKind::Slice { prefix, slice, suffix }
                | PatKind::Array { prefix, slice, suffix } => {
                    self.lemma_pats_violations_owned(prefix@, in_union_destructure, inside_adt);
                    self.lemma_opt_pat_violations_owned(slice, in_union_destructure, inside_adt);
                    self.lemma_pats_violations_owned(suffix@, in_union_destructure, inside_adt);
                },
                PatKind::Or { pats } => {
                    self.lemma_pats_violations_owned(pats@, in_union_destructure, inside_adt);
                },
                PatKind::Wild | PatKind::Constant | PatKind::Range => {},
            }
        }
    }

    proof fn lemma_opt_pat_violations_owned(
        &self,
        pat: Option<Box<Pat>>,
        in_union_destructure: bool,
        inside_adt: bool,
    )
        ensures
            all_walked_by(
                self.opt_pat_violations(pat, in_union_destructure, inside_adt),
                self.current_did,
            ),
        decreases pat,
    {
        match pat {
            Some(p) => self.lemma_pat_violations_owned(*p, in_union_destructure, inside_adt),
            None => {},
        }
    }

    proof fn lemma_pats_violations_owned(
        &self,
        pats: Seq<Pat>,
        in_union_destructure: bool,
        inside_adt: bool,
    )
        ensures
            all_walked_by(
                self.pats_violations(pats, in_union_destructure, inside_adt),
                self.current_did,
            ),
        decreases pats,
    {
        if pats.len() > 0 {
            self.lemma_pats_violations_owned(pats.drop_last(), in_union_destructure, inside_adt);
            self.lemma_pat_violations_owned(pats.last(), in_union_destructure, inside_adt);
        }
    }
}

/// What is found in the body of a function is recorded under that function.
pub proof fn lemma_body_violations_owned(unit: &Unit, def: LocalDefId)
    ensures
        all_owned_by(body_violations(unit, def), def),
{
    lemma_body_violations_walked(unit, def);
}

/// What is found in the body of a function is an operation of the body: no
/// record of it says that the function is unsafe by choice.
pub proof fn lemma_body_violations_are_operations(unit: &Unit, def: LocalDefId)
    ensures
        forall|i: int|
            0 <= i < body_violations(unit, def).len() ==> !((#[trigger] body_violations(
                unit,
                def,
            )[i]).kind is ChoosenUnsafe),
{
    lemma_body_violations_walked(unit, def);
}

/// What classifying a function yields is recorded under that function, and
/// only a function of the unit yields anything.
pub proof fn lemma_classification_owned(unit: &Unit, def: LocalDefId)
    ensures
        all_owned_by(classification(unit, def), def),
        classification(unit, def).len() > 0 ==> unit.defines(def),
{
    lemma_body_violations_walked(unit, def);
    reveal(body_violations);
}

proof fn lemma_body_violations_walked(unit: &Unit, def: LocalDefId)
    ensures
        all_walked_by(body_violations(unit, def), def),
{
    reveal(body_violations);
    if unit.defines(def) && !(unit.def(def).kind is Closure) {
        match unit.def(def).body {
            Some(root) => visitor_for(unit, def).lemma_expr_violations_owned(root, None),
            None => {},
        }
    }
}

} // verus!
