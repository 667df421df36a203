//! The monitor's error taxonomy: one flat enum per concern, every failure of
//! a run one of its variants, the first failure aborting the run. Failures
//! that originate outside the library (the HTTP transport, the JSON decoder,
//! the notification dispatcher) arrive as their diagnostic messages.

use vstd::prelude::*;
use crate::model::UncoercibleKind;

verus! {

/// Why a single supply field's value could not be coerced to a finite
/// 64-bit float.
#[derive(Debug)]
pub enum SupplyValueParseError {
    /// The decoded number has no 64-bit float representation; its textual
    /// rendering.
    NumberOutOfRange { value: String },
    /// The string value did not parse as a float: the string and the
    /// parser's diagnostic.
    InvalidString { value: String, message: String },
    /// The value is of a kind that is never coerced.
    UnsupportedType { value_type: UncoercibleKind },
    /// The coercion produced a non-finite float with this bit pattern.
    NonFinite { bits: u64 },
}

/// Why a monitor run failed. Each variant belongs to one stage of the
/// fetch, parse, aggregate, notify pipeline.
#[derive(Debug)]
pub enum CheckTetherSupplyCommandRunError {
    /// The HTTP round trip to the transparency endpoint failed.
    FetchTransparencyFailed { message: String },
    /// The endpoint answered with a status outside the success range.
    UnexpectedStatus { status: u16 },
    /// The response body was not JSON of the expected shape.
    ParseTransparencyFailed { message: String },
    /// No field of the supply mapping carried the supply-field prefix.
    NoSupplyFields,
    /// A supply field's value could not be coerced; the offending key and
    /// the reason.
    InvalidSupplyValue { key: String, source: SupplyValueParseError },
    /// The notification dispatcher could not be constructed.
    BuildDispatcherFailed { message: String },
    /// Sending the notification failed.
    SendNotificationFailed { message: String },
}

} // verus!
