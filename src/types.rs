use vstd::prelude::*;

verus! {

/// Index of a struct handle in the module that declares a signature.
#[derive(Clone, Copy, Debug, PartialEq, Eq, Structural)]
pub struct StructHandleIndex(pub u16);

/// A type descriptor used to declare argument and return types.
#[derive(Debug, PartialEq, Eq)]
pub enum SignatureToken {
    Bool,
    U64,
    String,
    ByteArray,
    Address,
    Struct(StructHandleIndex, Vec<SignatureToken>),
    Reference(Box<SignatureToken>),
    MutableReference(Box<SignatureToken>),
    TypeParameter(u16),
}

/// A generic-kind constraint; carried through signatures, never evaluated here.
#[derive(Clone, Copy, Debug, PartialEq, Eq, Structural)]
pub enum Kind {
    All,
    Resource,
    Unrestricted,
}

/// The declared type signature of a function.
#[derive(Debug, PartialEq, Eq)]
pub struct FunctionSignature {
    pub return_types: Vec<SignatureToken>,
    pub arg_types: Vec<SignatureToken>,
    pub kind_constraints: Vec<Kind>,
}

/// A runtime value, as the interpreter hands it to a native function.
#[derive(Debug, PartialEq, Eq)]
pub enum Value {
    Bool(bool),
    U64(u64),
    Address(Vec<u8>),
    ByteArray(Vec<u8>),
    /// A reference to a container value; natives read it, never change it.
    Vector(Vec<Value>),
}

} // verus!
