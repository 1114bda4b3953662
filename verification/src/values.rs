use vstd::prelude::*;

verus! {

/// Compile-time type tags used in native function signatures.  These are the
/// static counterparts of the runtime value variants; they carry no payload.
#[derive(Clone, Copy, PartialEq, Eq, Structural, Debug)]
pub enum SemanticType {
    Void,
    Bool,
    Int,
    Double,
    Str,
}

/// Identity of one native function in the catalog.  Every registered binding
/// and every invocation is keyed by one of these, so the signature table and
/// the dispatch table cannot drift apart.
#[derive(Clone, Copy, PartialEq, Eq, Structural, Debug)]
pub enum NativeId {
    Print,
    Println,
    Input,
    MinI,
    MaxI,
    MinD,
    MaxD,
    AbsI,
    AbsD,
    ClampI,
    ClampD,
    Pi,
    Factorial,
    Sqrt,
    Sin,
    Cos,
    Tan,
    Asin,
    Acos,
    Atan,
    Atan2,
}

/// A native module recognized by the catalog.
#[derive(Clone, Copy, PartialEq, Eq, Structural, Debug)]
pub enum ModuleId {
    Io,
    Math,
}

/// A runtime value.  The tag fully determines which operations are legal;
/// there is no implicit coercion between tags.  A `Double` carries the
/// IEEE-754 bit pattern of the 64-bit floating-point value, so that the
/// dispatch logic can be reasoned about exactly; the embedding converts
/// to and from its own floating-point representation at the boundary.
#[derive(Clone, Debug)]
pub enum Value {
    Void,
    Bool(bool),
    Int(i64),
    Double(u64),
    Str(String),
    NativeFunction(NativeId),
}

impl Value {
    /// The static type tag of this value, or `None` for a callable, which has
    /// no counterpart among the signature type tags.
    pub open spec fn semantic_type(self) -> Option<SemanticType> {
        match self {
            Value::Void => Some(SemanticType::Void),
            Value::Bool(_) => Some(SemanticType::Bool),
            Value::Int(_) => Some(SemanticType::Int),
            Value::Double(_) => Some(SemanticType::Double),
            Value::Str(_) => Some(SemanticType::Str),
            Value::NativeFunction(_) => None,
        }
    }
}

/// The signature of one native function: its name, its parameter types in
/// order, and its return type.  This is all the static analyzer needs to
/// predeclare the function; no implementation is attached.
#[derive(Clone, Debug)]
pub struct FuncSig {
    pub name: String,
    pub params: Vec<SemanticType>,
    pub ret: SemanticType,
}

} // verus!
