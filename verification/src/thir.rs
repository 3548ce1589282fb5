//! The typed body of a function, reduced to what the unsafety rules read.
//!
//! A body is a tree of expressions, blocks, statements, match arms and
//! patterns. Each expression and pattern carries the facts about its type
//! that a rule may ask for. Children are held in the order in which they are
//! visited.

use crate::unit::{DefId, Span, Symbol};
use vstd::prelude::*;

verus! {

/// The shape of a type, as far as the rules tell shapes apart.
#[derive(Clone, Debug)]
pub enum TyKind {
    /// A struct, enum or union.
    Adt {
        is_union: bool,
        /// The type declares a valid range narrower than its representation.
        layout_constrained: bool,
        /// The type is `ManuallyDrop`.
        is_manually_drop: bool,
    },
    /// A raw pointer.
    RawPtr,
    /// The type of one function item.
    FnDef {
        def_id: DefId,
        /// The target features that the function requires.
        target_features: Vec<Symbol>,
    },
    /// Any other type.
    Other,
}

/// What the rules read of a type.
#[derive(Clone, Debug)]
pub struct Ty {
    pub kind: TyKind,
    /// The type has no interior mutability.
    pub is_freeze: bool,
    /// Values of the type can be copied bit by bit.
    pub is_copy: bool,
    /// The type is callable and its signature is `unsafe`.
    pub unsafe_fn_sig: bool,
}

impl Ty {
    pub open spec fn spec_is_union(&self) -> bool {
        self.kind matches TyKind::Adt { is_union, .. } && is_union
    }

    /// Whether this is a union type.
    #[verifier::when_used_as_spec(spec_is_union)]
    pub fn is_union(&self) -> (r: bool)
        ensures
            r == self.spec_is_union(),
    {
        match &self.kind {
            TyKind::Adt { is_union, .. } => *is_union,
            _ => false,
        }
    }

    pub open spec fn spec_is_layout_constrained(&self) -> bool {
        self.kind matches TyKind::Adt { layout_constrained, .. } && layout_constrained
    }

    /// Whether this is a struct, enum or union with a restricted valid range.
    #[verifier::when_used_as_spec(spec_is_layout_constrained)]
    pub fn is_layout_constrained(&self) -> (r: bool)
        ensures
            r == self.spec_is_layout_constrained(),
    {
        match &self.kind {
            TyKind::Adt { layout_constrained, .. } => *layout_constrained,
            _ => false,
        }
    }

    pub open spec fn spec_is_manually_drop(&self) -> bool {
        self.kind matches TyKind::Adt { is_manually_drop, .. } && is_manually_drop
    }

    /// Whether this is `ManuallyDrop`.
    #[verifier::when_used_as_spec(spec_is_manually_drop)]
    pub fn is_manually_drop(&self) -> (r: bool)
        ensures
            r == self.spec_is_manually_drop(),
    {
        match &self.kind {
            TyKind::Adt { is_manually_drop, .. } => *is_manually_drop,
            _ => false,
        }
    }

    pub open spec fn spec_is_unsafe_ptr(&self) -> bool {
        self.kind is RawPtr
    }

    /// Whether this is a raw pointer type.
    #[verifier::when_used_as_spec(spec_is_unsafe_ptr)]
    pub fn is_unsafe_ptr(&self) -> (r: bool)
        ensures
            r == self.spec_is_unsafe_ptr(),
    {
        matches!(&self.kind, TyKind::RawPtr)
    }

    /// Whether a value of this type can be overwritten without running a
    /// destructor: the type is `Copy` or `ManuallyDrop`.
    pub open spec fn spec_overwrites_without_drop(&self) -> bool {
        self.spec_is_manually_drop() || self.is_copy
    }

    /// Whether a value of this type can be overwritten without running a
    /// destructor: the type is `Copy` or `ManuallyDrop`.
    #[verifier::when_used_as_spec(spec_overwrites_without_drop)]
    pub fn overwrites_without_drop(&self) -> (r: bool)
        ensures
            r == self.spec_overwrites_without_drop(),
    {
        self.is_manually_drop() || self.is_copy
    }
}

/// How a borrow takes its place.
#[derive(Clone, Copy, Debug, PartialEq, Eq, Structural)]
pub enum BorrowKind {
    Shared,
    Shallow,
    Unique,
    Mut,
}

/// How a binding pattern takes the value it matches.
#[derive(Clone, Copy, Debug, PartialEq, Eq, Structural)]
pub enum BindingMode {
    ByValue,
    ByRef {
        borrow_kind: BorrowKind,
        /// The type behind the reference has no interior mutability.
        referent_is_freeze: bool,
    },
}

/// An expression of a typed body.
#[derive(Debug)]
pub struct Expr {
    pub kind: ExprKind,
    pub ty: Ty,
    pub span: Span,
}

#[derive(Debug)]
pub enum ExprKind {
    Scope { value: Box<Expr> },
    Box { value: Box<Expr> },
    If { cond: Box<Expr>, then: Box<Expr>, else_opt: Option<Box<Expr>> },
    Call { fun: Box<Expr>, args: Vec<Expr> },
    Deref { arg: Box<Expr> },
    Binary { lhs: Box<Expr>, rhs: Box<Expr> },
    LogicalOp { lhs: Box<Expr>, rhs: Box<Expr> },
    Unary { arg: Box<Expr> },
    Cast { source: Box<Expr> },
    Use { source: Box<Expr> },
    NeverToAny { source: Box<Expr> },
    Pointer { source: Box<Expr> },
    Loop { body: Box<Expr> },
    Let { expr: Box<Expr>, pat: Box<Pat> },
    Match { scrutinee: Box<Expr>, arms: Vec<Arm> },
    Block { body: Block },
    Assign { lhs: Box<Expr>, rhs: Box<Expr> },
    AssignOp { lhs: Box<Expr>, rhs: Box<Expr> },
    Field { lhs: Box<Expr> },
    Index { lhs: Box<Expr>, index: Box<Expr> },
    VarRef,
    UpvarRef,
    Borrow { borrow_kind: BorrowKind, arg: Box<Expr> },
    AddressOf { arg: Box<Expr> },
    Break { value: Option<Box<Expr>> },
    Continue,
    Return { value: Option<Box<Expr>> },
    ConstBlock,
    Repeat { value: Box<Expr> },
    Array { fields: Vec<Expr> },
    Tuple { fields: Vec<Expr> },
    /// A struct, enum-variant or union literal; its `ty` is the type built.
    Adt { fields: Vec<Expr>, base: Option<Box<Expr>> },
    PlaceTypeAscription { source: Box<Expr> },
    ValueTypeAscription { source: Box<Expr> },
    /// A closure, with the root of its own body.
    Closure { body: Box<Expr> },
    Literal,
    NonHirLiteral,
    NamedConst,
    ConstParam,
    /// A reference to a global.
    StaticRef { is_mutable: bool, is_foreign: bool },
    /// Inline assembly, with the operands that are expressions.
    InlineAsm { operands: Vec<Expr> },
    ThreadLocalRef,
    Yield { value: Box<Expr> },
}

#[derive(Debug)]
pub struct Block {
    pub stmts: Vec<Stmt>,
    pub expr: Option<Box<Expr>>,
}

#[derive(Debug)]
pub enum Stmt {
    Expr { expr: Expr },
    Let { initializer: Option<Expr>, pattern: Pat, else_block: Option<Block> },
}

#[derive(Debug)]
pub enum Guard {
    If { cond: Expr },
    IfLet { pat: Pat, expr: Expr },
}

#[derive(Debug)]
pub struct Arm {
    pub guard: Option<Guard>,
    pub pattern: Pat,
    pub body: Expr,
}

/// A pattern of a typed body.
#[derive(Debug)]
pub struct Pat {
    pub kind: PatKind,
    pub ty: Ty,
    pub span: Span,
}

#[derive(Debug)]
pub enum PatKind {
    Wild,
    AscribeUserType { subpattern: Box<Pat> },
    Binding { mode: BindingMode, subpattern: Option<Box<Pat>> },
    Variant { subpatterns: Vec<Pat> },
    /// A struct, tuple or union pattern; its `ty` is the type taken apart.
    Leaf { subpatterns: Vec<Pat> },
    Deref { subpattern: Box<Pat> },
    Constant,
    Range,
    Slice { prefix: Vec<Pat>, slice: Option<Box<Pat>>, suffix: Vec<Pat> },
    Array { prefix: Vec<Pat>, slice: Option<Box<Pat>>, suffix: Vec<Pat> },
    Or { pats: Vec<Pat> },
}

} // verus!
