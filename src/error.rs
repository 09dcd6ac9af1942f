//! The error carrier shared by both engines.
use vstd::prelude::*;

verus! {

/// The shape that a reconstruction request asked for, named in a type error.
#[derive(Debug, Clone, Copy, PartialEq, Eq)]
pub enum Expected {
    Bool,
    I8,
    I16,
    I32,
    I64,
    I128,
    U8,
    U16,
    U32,
    U64,
    U128,
    F32,
    F64,
    Char,
    Str,
    Bytes,
    Optional,
    Unit,
    UnitStruct,
    NewtypeStruct,
    Sequence,
    Tuple,
    TupleStruct,
    Mapping,
    Struct,
    Enum,
    UnitVariant,
    NewtypeVariant,
    TupleVariant,
    StructVariant,
}

/// A broken step of the key-then-value discipline of maps.
#[derive(Debug, Clone, Copy, PartialEq, Eq)]
pub enum Protocol {
    /// A value was given or requested while no key was pending.
    ValueWithoutKey,
    /// A key was given or requested while the previous entry's value was pending.
    KeyAfterKey,
}

/// What went wrong in a conversion.
#[derive(Debug, Clone, PartialEq, Eq)]
pub enum ErrorKind {
    /// The value has another shape than the one requested.
    InvalidType(Expected),
    /// A number does not fit the requested width and signedness.
    OutOfRange,
    /// A type, unit, variant or field name differs from the requested one.
    NameMismatch,
    /// A fixed-length request met a sequence of another length.
    LengthMismatch { expected: usize, found: usize },
    /// A declared struct field is not (or no longer) in the source.
    FieldNotFound(String),
    /// A value holding a float was used as a map key.
    NotHashable,
    /// A caller broke the key-then-value order of a map.
    ProtocolViolation(Protocol),
    /// A free-form message, such as one handed up by a format.
    Custom(String),
}

/// The one error carrier of both conversion engines.
#[derive(Debug, Clone, PartialEq, Eq)]
pub struct Error(pub ErrorKind);

impl Error {
    /// An error that carries a free-form message.
    pub fn custom(msg: String) -> (r: Error)
        ensures
            r == Error(ErrorKind::Custom(msg)),
    {
        Error(ErrorKind::Custom(msg))
    }

    pub fn kind(&self) -> (r: &ErrorKind)
        ensures
            *r == self.0,
    {
        &self.0
    }

    /// Whether the error reports a bug in a caller's use of the protocol rather
    /// than bad input data.
    pub fn is_protocol_violation(&self) -> (r: bool)
        ensures
            r == (self.0 is ProtocolViolation),
    {
        match self.0 {
            ErrorKind::ProtocolViolation(_) => true,
            _ => false,
        }
    }
}

} // verus!
