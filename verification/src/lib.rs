//! Monitor for the USDT transparency feed.
//!
//! The library holds every decision the monitor makes: validating the HTTP
//! status of the feed response, locating the supply mapping inside the decoded
//! payload, selecting and coercing the supply fields, comparing the aggregate
//! against the operator's minimum, and building the notification that reports
//! a shortfall. Network transfers and 64-bit floating-point arithmetic cannot
//! be verified, so the surrounding binary performs them and exchanges plain
//! values (strings, bit patterns of floats) with this crate.

use vstd::prelude::*;

pub mod aggregate;
pub mod bits;
pub mod errors;
pub mod model;
pub mod notify;
pub mod payload;

verus! {

/// An HTTP status code in the success range accepted by the fetch stage.
pub open spec fn status_is_success(status: u16) -> bool {
    200 <= status && status < 300
}

/// Decides whether the transparency endpoint answered with a success status.
pub fn status_acceptable(status: u16) -> (r: bool)
    ensures
        r == status_is_success(status),
{
    200 <= status && status < 300
}

/// Validates the fetch stage's HTTP status: any status outside the success
/// range fails the run with that status, and nothing further is attempted.
pub fn ensure_success_status(status: u16) -> (r: Result<
    (),
    errors::CheckTetherSupplyCommandRunError,
>)
    ensures
        r is Ok <==> status_is_success(status),
        r matches Err(e) ==> e == (errors::CheckTetherSupplyCommandRunError::UnexpectedStatus {
            status,
        }),
{
    if status_acceptable(status) {
        Ok(())
    } else {
        Err(errors::CheckTetherSupplyCommandRunError::UnexpectedStatus { status })
    }
}

} // verus!
