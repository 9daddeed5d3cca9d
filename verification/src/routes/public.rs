//! The index route.

use crate::guard::PublicRequest;
use crate::responses::{success_response, JsonResponse, JsonResponseView, ResponseData, ResponseDataView};
use crate::utils::handle_request;
use vstd::prelude::*;

verus! {

/// The index route: reports the service as running to every request that passed the
/// public guard.
pub fn index<C>(request: Result<PublicRequest<C>, JsonResponse>) -> (response: JsonResponse)
    ensures
        match request {
            Ok(_) => response@ == JsonResponseView::success(ResponseDataView::Running),
            Err(err) => response == err,
        },
{
    let handler = |_req: PublicRequest<C>| -> (response: JsonResponse)
        ensures
            response@ == JsonResponseView::success(ResponseDataView::Running),
        {
            success_response(ResponseData::Running)
        };
    handle_request(request, handler)
}

} // verus!
