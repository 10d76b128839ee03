//! What can go wrong while a library is opened and its symbols are bound.

use vstd::prelude::*;
use vstd::std_specs::cmp::PartialEqSpecImpl;
use crate::bundle::Phase;

verus! {

/// The platform would not open a library.
#[derive(Clone, Copy, PartialEq, Eq, Structural, Debug)]
pub enum LoadError {
    /// The platform knows no library under the identifier.
    NotFound,
    /// The platform knows the library and refused to load it.
    LoadFailed,
}

/// A library does not export a symbol.
#[derive(Debug)]
pub enum SymbolError {
    /// No export carries the name held here.
    NotFound(String),
}

impl SymbolError {
    /// The name that was looked for.
    pub open spec fn name(&self) -> Seq<char> {
        self->0@
    }
}

impl PartialEq for SymbolError {
    fn eq(&self, other: &Self) -> (equal: bool) {
        match (self, other) {
            (SymbolError::NotFound(a), SymbolError::NotFound(b)) => *a == *b,
        }
    }
}

impl PartialEqSpecImpl for SymbolError {
    open spec fn obeys_eq_spec() -> bool {
        true
    }

    open spec fn eq_spec(&self, other: &Self) -> bool {
        self.name() == other.name()
    }
}

/// A run of bytes cannot be handed over as a string that ends at its first
/// zero byte, because it holds a zero byte.
#[derive(Clone, Copy, PartialEq, Eq, Structural, Debug)]
pub struct NulError {
    /// The place of the first zero byte.
    pub position: usize,
}

/// Why a bundle could not be built.
#[derive(Debug)]
pub enum BindError {
    /// The library could not be opened.
    Load(LoadError),
    /// The library was opened and lacks a symbol; it has been closed again.
    Symbol(SymbolError),
}

impl BindError {
    /// The phase in which construction came to a halt.
    pub fn phase(&self) -> (phase: Phase)
        ensures
            phase == match self {
                BindError::Load(_) => Phase::Loading,
                BindError::Symbol(_) => Phase::PartiallyBound,
            },
    {
        match self {
            BindError::Load(_) => Phase::Loading,
            BindError::Symbol(_) => Phase::PartiallyBound,
        }
    }
}

impl PartialEq for BindError {
    fn eq(&self, other: &Self) -> (equal: bool) {
        match (self, other) {
            (BindError::Load(a), BindError::Load(b)) => *a == *b,
            (BindError::Symbol(a), BindError::Symbol(b)) => *a == *b,
            _ => false,
        }
    }
}

impl PartialEqSpecImpl for BindError {
    open spec fn obeys_eq_spec() -> bool {
        true
    }

    open spec fn eq_spec(&self, other: &Self) -> bool {
        match (self, other) {
            (BindError::Load(a), BindError::Load(b)) => a == b,
            (BindError::Symbol(a), BindError::Symbol(b)) => a.name() == b.name(),
            _ => false,
        }
    }
}

} // verus!
