//! The structural model of the syntax the transform works on.
//!
//! A function definition is kept as plain values: the signature rendered as
//! text (kept verbatim in the output), the declared parameters in order, and
//! the body rendered as a block of text. A context specification is the text
//! of an expression together with its shape: a closure literal, or any other
//! expression ("plain").

use vstd::prelude::*;

verus! {

/// A declared parameter of the function being transformed: either the
/// receiver (the value the method is called on, named `self` in its own
/// scope), or a named parameter bound to a bare identifier.
///
/// Parameters bound to any other pattern (ignored or destructured) are not
/// supported; parsing such a function is rejected.
pub enum Param {
    Receiver,
    Named(String),
}

/// Spec-level value of a [`Param`].
pub enum ParamV {
    Receiver,
    Named(Seq<char>),
}

impl View for Param {
    type V = ParamV;

    open spec fn view(&self) -> ParamV {
        match self {
            Param::Receiver => ParamV::Receiver,
            Param::Named(id) => ParamV::Named(id@),
        }
    }
}

/// The context specification handed to the transform: the source text of an
/// expression, classified by its shape. A closure literal carries the number
/// of parameters it declares and is invoked with a reference to one function
/// parameter per declared parameter — the leading ones, in declaration
/// order, possibly none. Any other expression is spliced into the emitted
/// body unmodified.
pub enum ContextSpec {
    Closure(String, usize),
    Plain(String),
}

/// Spec-level value of a [`ContextSpec`].
pub enum ContextSpecV {
    Closure(Seq<char>, nat),
    Plain(Seq<char>),
}

impl View for ContextSpec {
    type V = ContextSpecV;

    open spec fn view(&self) -> ContextSpecV {
        match self {
            ContextSpec::Closure(src, arity) => ContextSpecV::Closure(src@, *arity as nat),
            ContextSpec::Plain(src) => ContextSpecV::Plain(src@),
        }
    }
}

/// The shape of a context expression as the parser reports it: a closure
/// literal together with the number of parameters it declares, or any other
/// expression.
pub enum ContextClass {
    Closure(usize),
    Plain,
}

/// Spec-level value of a [`ContextClass`].
pub enum ContextClassV {
    Closure(nat),
    Plain,
}

impl View for ContextClass {
    type V = ContextClassV;

    open spec fn view(&self) -> ContextClassV {
        match self {
            ContextClass::Closure(arity) => ContextClassV::Closure(*arity as nat),
            ContextClass::Plain => ContextClassV::Plain,
        }
    }
}

/// A function definition: its header text (attributes, visibility, name,
/// generics, parameter list, return type — everything before the body block,
/// preserved verbatim in the output), its declared parameters in order, and
/// its body block text.
pub struct FnDef {
    pub sig: String,
    pub params: Vec<Param>,
    pub body: String,
}

/// Spec-level value of a [`FnDef`].
pub struct FnDefV {
    pub sig: Seq<char>,
    pub params: Seq<ParamV>,
    pub body: Seq<char>,
}

impl View for FnDef {
    type V = FnDefV;

    open spec fn view(&self) -> FnDefV {
        FnDefV {
            sig: self.sig@,
            params: self.params@.map_values(|p: Param| p@),
            body: self.body@,
        }
    }
}

} // verus!
