//! The compiled unit as the engine sees it: identifiers, source spans and the
//! table of definitions with their qualified paths and typed bodies.

use crate::thir::Expr;
use vstd::prelude::*;

verus! {

/// An interned name, such as the name of a target feature.
pub type Symbol = u32;

/// The crate number of the unit under analysis.
pub const LOCAL_CRATE: u32 = 0;

/// A region of one source file, in bytes.
#[derive(Clone, Copy, Debug, PartialEq, Eq, Hash)]
pub struct Span {
    /// Index of the source file in the source map.
    pub file: usize,
    /// Offset of the first byte, from the start of the file.
    pub lo: usize,
    /// Offset one past the last byte.
    pub hi: usize,
}

/// Identifies a definition of any crate.
#[derive(Clone, Copy, Debug, PartialEq, Eq, Hash)]
pub struct DefId {
    pub krate: u32,
    pub index: usize,
}

/// Identifies a definition of the unit under analysis: an index into
/// [`Unit::defs`], which is also its place in declaration order.
#[derive(Clone, Copy, Debug, PartialEq, Eq, Hash)]
pub struct LocalDefId {
    pub local_def_index: usize,
}

impl DefId {
    /// The local identifier, if the definition belongs to the unit under analysis.
    pub open spec fn spec_as_local(self) -> Option<LocalDefId> {
        if self.krate == LOCAL_CRATE {
            Some(LocalDefId { local_def_index: self.index })
        } else {
            None
        }
    }

    /// The local identifier, if the definition belongs to the unit under analysis.
    #[verifier::when_used_as_spec(spec_as_local)]
    pub fn as_local(self) -> (r: Option<LocalDefId>)
        ensures
            r == self.spec_as_local(),
    {
        if self.krate == LOCAL_CRATE {
            Some(LocalDefId { local_def_index: self.index })
        } else {
            None
        }
    }
}

impl LocalDefId {
    /// The same definition, named from outside the unit.
    pub open spec fn spec_to_def_id(self) -> DefId {
        DefId { krate: LOCAL_CRATE, index: self.local_def_index }
    }

    /// The same definition, named from outside the unit.
    #[verifier::when_used_as_spec(spec_to_def_id)]
    pub fn to_def_id(self) -> (r: DefId)
        ensures
            r == self.spec_to_def_id(),
    {
        DefId { krate: LOCAL_CRATE, index: self.local_def_index }
    }
}

/// The safety qualifier of a function signature.
#[derive(Clone, Copy, Debug, PartialEq, Eq, Structural)]
pub enum Unsafety {
    Normal,
    Unsafe,
}

/// What a function's signature declares besides its types.
#[derive(Clone, Copy, Debug, PartialEq, Eq, Structural)]
pub struct FnHeader {
    pub unsafety: Unsafety,
}

/// What sort of item a definition is.
#[derive(Clone, Copy, Debug, PartialEq, Eq, Structural)]
pub enum DefKind {
    /// A free function with a body.
    Fn,
    /// A function in an `impl` block.
    ImplFn,
    /// A function declared in a trait.
    TraitFn,
    /// A function declared in an `extern` block.
    ForeignFn,
    /// A closure; its body is analysed as part of the function that holds it.
    Closure,
    /// Anything that is not a function.
    Other,
}

/// One definition of the unit.
#[derive(Debug)]
pub struct Definition {
    /// The qualified path, segments separated by `::`.
    pub path: String,
    pub kind: DefKind,
    pub header: FnHeader,
    /// Where the definition's signature stands.
    pub span: Span,
    /// The target features that the definition is compiled with.
    pub target_features: Vec<Symbol>,
    /// The root of the typed body, where there is one.
    pub body: Option<Expr>,
}

/// Everything the engine reads of one compilation.
#[derive(Debug)]
pub struct Unit {
    /// The definitions, in declaration order.
    pub defs: Vec<Definition>,
    /// Whether the target treats target features as wasm does, where a call to
    /// a function with more features than the caller needs no unsafe context.
    pub is_like_wasm: bool,
}

impl Unit {
    /// Whether `id` names a definition of this unit.
    pub open spec fn defines(self, id: LocalDefId) -> bool {
        (id.local_def_index as int) < self.defs@.len()
    }

    /// The definition that `id` names.
    pub open spec fn def(self, id: LocalDefId) -> Definition
        recommends
            self.defines(id),
    {
        self.defs@[id.local_def_index as int]
    }

    /// The definition that `id` names, if this unit has it.
    pub fn get(&self, id: LocalDefId) -> (r: Option<&Definition>)
        ensures
            r is Some <==> self.defines(id),
            r matches Some(d) ==> *d == self.def(id),
    {
        if id.local_def_index < self.defs.len() {
            Some(&self.defs[id.local_def_index])
        } else {
            None
        }
    }
}

} // verus!
