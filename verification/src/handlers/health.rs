use vstd::prelude::*;
use crate::types::ApiResponse;

verus! {

/// The answer of a service that is up.
pub fn health_check() -> (r: ApiResponse<&'static str>)
    ensures
        r.success,
        r.data == Some("Solana HTTP server is running!"),
        r.error is None,
{
    ApiResponse::success("Solana HTTP server is running!")
}

} // verus!
