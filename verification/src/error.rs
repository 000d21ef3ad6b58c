use vstd::prelude::*;
use crate::_type::{Type, Types};

verus! {

/// Why a Rainbow program could not be decoded.
///
/// `UnexpectedEnd` and `UnknownType` are the inputs on which a read runs past
/// the end of the bytecode or meets a byte that names no type; decoding stops
/// there with that error.
#[derive(Debug)]
pub enum ParseError {
    /// A read at this offset ran past the end of the bytecode.
    UnexpectedEnd { at: usize },
    /// The bytecode string whose length byte is at `at` claims `len` bytes that
    /// the bytecode does not have.
    StringOutOfBounds { at: usize, len: usize },
    /// The bytecode string whose length byte is at `at` is not UTF-8.
    InvalidUtf8 { at: usize },
    /// A dynamic number announced a byte length that is not 1..=8.
    UnsupportedByteLength(u8),
    /// A type byte that names no type.
    UnknownType(u8),
    /// An immediate value of a type that immediates cannot have.
    UnsupportedImmediate(Types),
    /// An opcode that names no instruction, and where it stands.
    UnknownInstruction { opcode: u8, at: usize },
    /// A conditional block named a constant that does not exist.
    UnknownConst(String),
    /// As `UnknownConst`, where the upper-case spelling of the name exists.
    UnknownConstSimilar { name: String, similar: String },
    /// A conditional block with a comparison byte that is not 0..=5.
    UnknownCondition(u8),
    /// A conditional block whose kind byte is not 0..=3.
    UnknownConditionalBlock(u8),
    /// Imported files nest deeper than the decoder follows.
    ImportTooDeep(String),
    /// A file is imported whose bytecode the decoder was not given.
    ImportMissing(String),
    /// A data constant of a type that the data section cannot hold.
    UnsupportedDataType(Type),
    /// A scope or frame would need more slots than a `usize` counts.
    TooLarge,
}


/// The content of a decoding error.
pub enum ParseErrorV {
    UnexpectedEnd { at: usize },
    StringOutOfBounds { at: usize, len: usize },
    InvalidUtf8 { at: usize },
    UnsupportedByteLength(u8),
    UnknownType(u8),
    UnsupportedImmediate(Types),
    UnknownInstruction { opcode: u8, at: usize },
    UnknownConst(Seq<char>),
    UnknownConstSimilar { name: Seq<char>, similar: Seq<char> },
    UnknownCondition(u8),
    UnknownConditionalBlock(u8),
    ImportTooDeep(Seq<char>),
    ImportMissing(Seq<char>),
    UnsupportedDataType(Seq<Types>),
    TooLarge,
}

impl View for ParseError {
    type V = ParseErrorV;

    open spec fn view(&self) -> ParseErrorV {
        match self {
            ParseError::UnexpectedEnd { at } => ParseErrorV::UnexpectedEnd { at: *at },
            ParseError::StringOutOfBounds { at, len } => ParseErrorV::StringOutOfBounds { at: *at, len: *len },
            ParseError::InvalidUtf8 { at } => ParseErrorV::InvalidUtf8 { at: *at },
            ParseError::UnsupportedByteLength(b) => ParseErrorV::UnsupportedByteLength(*b),
            ParseError::UnknownType(b) => ParseErrorV::UnknownType(*b),
            ParseError::UnsupportedImmediate(t) => ParseErrorV::UnsupportedImmediate(*t),
            ParseError::UnknownInstruction { opcode, at } => ParseErrorV::UnknownInstruction { opcode: *opcode, at: *at },
            ParseError::UnknownConst(n) => ParseErrorV::UnknownConst(n@),
            ParseError::UnknownConstSimilar { name, similar } => ParseErrorV::UnknownConstSimilar { name: name@, similar: similar@ },
            ParseError::UnknownCondition(b) => ParseErrorV::UnknownCondition(*b),
            ParseError::UnknownConditionalBlock(b) => ParseErrorV::UnknownConditionalBlock(*b),
            ParseError::ImportTooDeep(n) => ParseErrorV::ImportTooDeep(n@),
            ParseError::ImportMissing(n) => ParseErrorV::ImportMissing(n@),
            ParseError::UnsupportedDataType(t) => ParseErrorV::UnsupportedDataType(t@),
            ParseError::TooLarge => ParseErrorV::TooLarge,
        }
    }
}

/// A decoding outcome with each side taken through its view function.
pub open spec fn result_view<T, V>(r: Result<T, ParseError>, f: spec_fn(T) -> V) -> Result<V, ParseErrorV> {
    match r {
        Ok(t) => Ok(f(t)),
        Err(e) => Err(e@),
    }
}

/// A specified outcome whose error has no text, as an outcome over error views.
pub open spec fn err_view<V>(r: Result<V, ParseError>) -> Result<V, ParseErrorV> {
    match r {
        Ok(v) => Ok(v),
        Err(e) => Err(e@),
    }
}

} // verus!
