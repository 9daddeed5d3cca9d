//! A helper for routes.

use crate::responses::JsonResponse;
use vstd::prelude::*;

verus! {

/// Runs `handler` on a request that passed its guard, and answers a request that did
/// not with the guard's own response.
pub fn handle_request<T, F>(request: Result<T, JsonResponse>, handler: F) -> (response: JsonResponse)
    where F: FnOnce(T) -> JsonResponse
    requires
        request matches Ok(req) ==> handler.requires((req,)),
    ensures
        match request {
            Ok(req) => handler.ensures((req,), response),
            Err(err) => response == err,
        },
{
    match request {
        Ok(req) => handler(req),
        Err(err) => err,
    }
}

} // verus!
