//! The decoded transparency payload, modelled with plain values.
//!
//! The host program decodes the feed's JSON text and hands the tree over in
//! these types. A decoded number arrives as the bit pattern of the 64-bit
//! float that represents it (or, where no float can, as its textual
//! rendering); a decoded string arrives together with the outcome of parsing
//! it as a 64-bit float, which the host computes since the library cannot.
//! Everything the monitor's logic reads of a value is therefore a plain
//! integer, boolean or string, and the logic over them is verified.

use vstd::prelude::*;

verus! {

/// A number decoded from the JSON payload.
pub enum JsonNumber {
    /// The decoder could represent the number as a 64-bit float; this is
    /// that float's bit pattern.
    Representable { bits: u64 },
    /// The decoder could not represent the number as a 64-bit float; its
    /// textual rendering is kept for the error report.
    OutOfRange { rendered: String },
}

/// The outcome of parsing a decoded string as a 64-bit float.
pub enum NumericParse {
    /// The parse succeeded; the bit pattern of the resulting float. The
    /// float may still be non-finite (the parser accepts spellings of
    /// infinities and NaN), which the library rejects itself.
    Parsed { bits: u64 },
    /// The parse failed; the parser's diagnostic message.
    Failed { message: String },
}

/// One member of a decoded JSON object.
pub struct JsonField {
    pub name: String,
    pub value: JsonValue,
}

/// A decoded JSON value: the tagged union over the six JSON kinds.
pub enum JsonValue {
    Number(JsonNumber),
    /// A JSON string, together with the host's attempt to parse it as a
    /// 64-bit float.
    Text { value: String, parse: NumericParse },
    Bool(bool),
    Array(Vec<JsonValue>),
    Object(Vec<JsonField>),
    Null,
}

/// The kind of a JSON value that the aggregator never coerces to a number.
#[derive(Debug, PartialEq, Eq, Structural)]
pub enum UncoercibleKind {
    Bool,
    Array,
    Object,
    Null,
}

impl UncoercibleKind {
    /// The kind's name as it appears in error reports.
    pub fn label(&self) -> (s: &'static str)
        ensures
            s@ == match *self {
                UncoercibleKind::Bool => "bool"@,
                UncoercibleKind::Array => "array"@,
                UncoercibleKind::Object => "object"@,
                UncoercibleKind::Null => "null"@,
            },
    {
        match self {
            UncoercibleKind::Bool => "bool",
            UncoercibleKind::Array => "array",
            UncoercibleKind::Object => "object",
            UncoercibleKind::Null => "null",
        }
    }
}

} // verus!
