//! The parsing capability and its error taxonomy.

use vstd::prelude::*;

verus! {

/// Why a byte slice failed to parse as a protocol layer.
///
/// Unknown but well-formed enumerated field values are not errors: they
/// decode to a catch-all variant of the field's type instead.
#[derive(Debug, Clone, Copy, PartialEq, Eq, Structural)]
pub enum ParseError {
    /// Fewer bytes remain than a fixed-width field requires.
    Truncated,
    /// A value lies outside a structural constraint of the layer.
    Malformed,
}

/// The parsing capability: a protocol packet type that can be decoded from a
/// raw byte slice, never reading past its end.
pub trait Parse: Sized {
    /// Whether `data` parses successfully as this layer.
    spec fn parse_ok(data: Seq<u8>) -> bool;

    /// How a successfully parsed value relates to the bytes it came from.
    spec fn models(self, data: Seq<u8>) -> bool;

    /// The error returned when `data` does not parse.
    spec fn parse_fail(data: Seq<u8>) -> ParseError;

    /// Decodes `data`, returning a typed packet value or a parse error.
    fn parse(data: &[u8]) -> (r: Result<Self, ParseError>)
        ensures
            match r {
                Ok(p) => Self::parse_ok(data@) && p.models(data@),
                Err(e) => !Self::parse_ok(data@) && e == Self::parse_fail(data@),
            },
    ;
}

} // verus!
