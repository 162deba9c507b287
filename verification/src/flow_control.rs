//! Mapping numeric status codes onto a coarse outcome.
use vstd::prelude::*;

verus! {

/// Coarse outcome of an operation.
pub enum Status {
    Success,
    Error,
    Pending,
}

/// Classifies an HTTP-style status code: 200 succeeds, the 400 and 500
/// ranges fail, everything else is still pending.
pub fn check_status(code: u32) -> (r: Status)
    ensures
        r is Success <==> code == 200,
        r is Error <==> 400 <= code <= 599,
        r is Pending <==> !(code == 200 || 400 <= code <= 599),
{
    match code {
        200 => Status::Success,
        400..=499 => Status::Error,
        500..=599 => Status::Error,
        _ => Status::Pending,
    }
}

} // verus!
