//! Listing, creating and deleting shopping items.

use crate::guard::{AdminRequest, PublicRequest};
use crate::models::item::{NewShoppingItem, ShoppingItem};
use crate::responses::{
    error_response, success_response, JsonResponse, JsonResponseView, ResponseData,
    ResponseDataView, Status,
};
use crate::routes::Step;
use vstd::prelude::*;

verus! {

/// The listing of items, up to the point where storage is read. A request that passed
/// the public guard goes on to [`get_all_items_loaded`], with the items whose name
/// holds the search text where the request has one, and with all items where it has
/// none.
pub fn get_all_items<C>(request: Result<PublicRequest<C>, JsonResponse>, q: Option<String>) -> (step:
    Step<(PublicRequest<C>, Option<String>)>)
    ensures
        match request {
            Err(err) => step matches Step::Respond(response) && response == err,
            Ok(req) => step matches Step::Continue(next) && next == (req, q),
        },
{
    match request {
        Ok(req) => Step::Continue((req, q)),
        Err(err) => Step::Respond(err),
    }
}

/// Ends the listing of items with what storage gave.
pub fn get_all_items_loaded(items: Vec<ShoppingItem>) -> (response: JsonResponse)
    ensures
        response@ == JsonResponseView::success(ResponseDataView::Items(items.deep_view())),
{
    success_response(ResponseData::Items(items))
}

/// The creation of an item, up to the point where it is stored. A request that is not
/// answered here goes on to [`post_new_item_inserted`] once storage was asked to insert
/// the item.
pub fn post_new_item<C>(
    request: Result<AdminRequest<C>, JsonResponse>,
    new_item: Option<NewShoppingItem>,
) -> (step: Step<(AdminRequest<C>, NewShoppingItem)>)
    ensures
        match request {
            Err(err) => step matches Step::Respond(response) && response == err,
            Ok(req) => match new_item {
                None => step matches Step::Respond(response) && response@
                    == JsonResponseView::failure(
                    Status::BadRequest,
                    "Failed to parse new item data"@,
                ),
                Some(item) => step matches Step::Continue(next) && next == (req, item),
            },
        },
{
    match request {
        Ok(req) => match new_item {
            Some(item_data) => Step::Continue((req, item_data)),
            None => Step::Respond(
                error_response(Status::BadRequest, "Failed to parse new item data"),
            ),
        },
        Err(err) => Step::Respond(err),
    }
}

/// The creation of an item once storage has answered the insertion. After a successful
/// insertion the request goes on to [`post_new_item_fetched`] with the item that was
/// inserted last.
pub fn post_new_item_inserted<C>(request: AdminRequest<C>, inserted: bool) -> (step: Step<
    AdminRequest<C>,
>)
    ensures
        if inserted {
            step matches Step::Continue(next) && next == request
        } else {
            step matches Step::Respond(response) && response@ == JsonResponseView::failure(
                Status::InternalServerError,
                "Failed to insert item"@,
            )
        },
{
    if inserted {
        Step::Continue(request)
    } else {
        Step::Respond(error_response(Status::InternalServerError, "Failed to insert item"))
    }
}

/// Ends the creation of an item with the stored item, if storage could hand it back.
pub fn post_new_item_fetched(fetched: Option<ShoppingItem>) -> (response: JsonResponse)
    ensures
        response@ == match fetched {
            Some(item) => JsonResponseView::success(ResponseDataView::Item(item@)),
            None => JsonResponseView::failure(
                Status::InternalServerError,
                "Failed to insert item"@,
            ),
        },
{
    match fetched {
        Some(inserted_item) => success_response(ResponseData::Item(inserted_item)),
        None => error_response(Status::InternalServerError, "Failed to insert item"),
    }
}

/// The deletion of an item, up to the point where the item is looked up. A request
/// that passed the admin guard goes on to [`delete_item_found`] with the item stored
/// under `item_id`.
pub fn delete_item<C>(request: Result<AdminRequest<C>, JsonResponse>, item_id: i32) -> (step: Step<
    (AdminRequest<C>, i32),
>)
    ensures
        match request {
            Err(err) => step matches Step::Respond(response) && response == err,
            Ok(req) => step matches Step::Continue(next) && next == (req, item_id),
        },
{
    match request {
        Ok(req) => Step::Continue((req, item_id)),
        Err(err) => Step::Respond(err),
    }
}

/// The deletion of an item once the item was looked up. An item that exists is the one
/// to delete, and the request goes on to [`delete_item_deleted`] once storage was asked
/// to delete it.
pub fn delete_item_found<C>(request: AdminRequest<C>, found: Option<ShoppingItem>) -> (step: Step<
    (AdminRequest<C>, ShoppingItem),
>)
    ensures
        match found {
            Some(item) => step matches Step::Continue(next) && next == (request, item),
            None => step matches Step::Respond(response) && response@
                == JsonResponseView::failure(Status::NotFound, "Item not found"@),
        },
{
    match found {
        Some(item) => Step::Continue((request, item)),
        None => Step::Respond(error_response(Status::NotFound, "Item not found")),
    }
}

/// Ends the deletion of an item: the deleted item on success.
pub fn delete_item_deleted(item: ShoppingItem, deleted: bool) -> (response: JsonResponse)
    ensures
        response@ == if deleted {
            JsonResponseView::success(ResponseDataView::Item(item@))
        } else {
            JsonResponseView::failure(Status::InternalServerError, "Failed to delete user"@)
        },
{
    if deleted {
        success_response(ResponseData::Item(item))
    } else {
        error_response(Status::InternalServerError, "Failed to delete user")
    }
}

} // verus!
