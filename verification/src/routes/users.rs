//! Listing, creating and deleting users.

use crate::guard::AdminRequest;
use crate::models::{NewUser, NewUserView, User};
use crate::responses::{
    error_response, success_response, JsonResponse, JsonResponseView, ResponseData,
    ResponseDataView, Status,
};
use crate::routes::Step;
use crate::state::password_hash;
use vstd::prelude::*;

verus! {

/// The body of a request that creates a user.
pub struct NewUserData {
    pub display_name: String,
    pub username: String,
    pub password: String,
    pub is_admin: bool,
}

/// The listing of users, up to the point where storage is read. A request that passed
/// the admin guard goes on to [`get_users_listed`] with all stored users.
pub fn get_users<C>(request: Result<AdminRequest<C>, JsonResponse>) -> (step: Step<AdminRequest<C>>)
    ensures
        match request {
            Err(err) => step matches Step::Respond(response) && response == err,
            Ok(req) => step matches Step::Continue(next) && next == req,
        },
{
    match request {
        Ok(req) => Step::Continue(req),
        Err(err) => Step::Respond(err),
    }
}

/// Ends the listing of users with what storage holds.
pub fn get_users_listed(users: Vec<User>) -> (response: JsonResponse)
    ensures
        response@ == JsonResponseView::success(ResponseDataView::Users(users.deep_view())),
{
    success_response(ResponseData::Users(users))
}

/// The creation of a user, up to the point where the account is stored. The password
/// of the body is hashed with the salt and the parameters of the request's state, and
/// a request that is not answered here goes on to [`post_new_user_inserted`] once
/// storage was asked to insert the account.
pub fn post_new_user<C>(request: Result<AdminRequest<C>, JsonResponse>, new_user: Option<NewUserData>) -> (step:
    Step<(AdminRequest<C>, NewUser)>)
    ensures
        match request {
            Err(err) => step matches Step::Respond(response) && response == err,
            Ok(req) => match new_user {
                None => step matches Step::Respond(response) && response@
                    == JsonResponseView::failure(
                    Status::BadRequest,
                    "Failed to parse new user data"@,
                ),
                Some(data) => match password_hash(
                    data.password@,
                    req.0.state.pwd_salt@,
                    req.0.state.pwd_config,
                ) {
                    None => step matches Step::Respond(response) && response@
                        == JsonResponseView::failure(
                        Status::InternalServerError,
                        "Failed to insert user"@,
                    ),
                    Some(hash) => step matches Step::Continue(next) && next.0 == req && next.1@
                        == (NewUserView {
                        display_name: data.display_name@,
                        username: data.username@,
                        password_hash: hash,
                        is_admin: data.is_admin,
                    }),
                },
            },
        },
{
    match request {
        Ok(req) => match new_user {
            Some(user_data) => match req.0.state.try_hash_password(user_data.password.as_str()) {
                Some(password_hash) => {
                    let account = NewUser {
                        display_name: user_data.display_name,
                        username: user_data.username,
                        password_hash,
                        is_admin: user_data.is_admin,
                    };
                    Step::Continue((req, account))
                },
                None => Step::Respond(
                    error_response(Status::InternalServerError, "Failed to insert user"),
                ),
            },
            None => Step::Respond(
                error_response(Status::BadRequest, "Failed to parse new user data"),
            ),
        },
        Err(err) => Step::Respond(err),
    }
}

/// The creation of a user once storage has answered the insertion. After a successful
/// insertion the request goes on to [`post_new_user_fetched`] with the user that was
/// inserted last.
pub fn post_new_user_inserted<C>(request: AdminRequest<C>, inserted: bool) -> (step: Step<
    AdminRequest<C>,
>)
    ensures
        if inserted {
            step matches Step::Continue(next) && next == request
        } else {
            step matches Step::Respond(response) && response@ == JsonResponseView::failure(
                Status::InternalServerError,
                "Failed to insert user"@,
            )
        },
{
    if inserted {
        Step::Continue(request)
    } else {
        Step::Respond(error_response(Status::InternalServerError, "Failed to insert user"))
    }
}

/// Ends the creation of a user with the stored account, if storage could hand it back.
pub fn post_new_user_fetched(fetched: Option<User>) -> (response: JsonResponse)
    ensures
        response@ == match fetched {
            Some(user) => JsonResponseView::success(ResponseDataView::User(user@)),
            None => JsonResponseView::failure(
                Status::InternalServerError,
                "Failed to insert user"@,
            ),
        },
{
    match fetched {
        Some(inserted_user) => success_response(ResponseData::User(inserted_user)),
        None => error_response(Status::InternalServerError, "Failed to insert user"),
    }
}

/// The deletion of a user, up to the point where the user is looked up. No
/// administrator deletes the account that the request's own token names. A request
/// that is not answered here goes on to [`delete_user_found`] with the user stored
/// under `user_id`.
pub fn delete_user<C>(request: Result<AdminRequest<C>, JsonResponse>, user_id: i32) -> (step: Step<
    (AdminRequest<C>, i32),
>)
    ensures
        match request {
            Err(err) => step matches Step::Respond(response) && response == err,
            Ok(req) => if user_id == req.0.token.user_id {
                step matches Step::Respond(response) && response@ == JsonResponseView::failure(
                    Status::Forbidden,
                    "Cannot delete self"@,
                )
            } else {
                step matches Step::Continue(next) && next == (req, user_id)
            },
        },
{
    match request {
        Ok(req) => {
            if user_id == req.0.token.user_id {
                Step::Respond(error_response(Status::Forbidden, "Cannot delete self"))
            } else {
                Step::Continue((req, user_id))
            }
        },
        Err(err) => Step::Respond(err),
    }
}

/// The deletion of a user once the user was looked up. A user that exists is the one
/// to delete, and the request goes on to [`delete_user_deleted`] once storage was asked
/// to delete it.
pub fn delete_user_found<C>(request: AdminRequest<C>, found: Option<User>) -> (step: Step<
    (AdminRequest<C>, User),
>)
    ensures
        match found {
            Some(user) => step matches Step::Continue(next) && next == (request, user),
            None => step matches Step::Respond(response) && response@
                == JsonResponseView::failure(Status::NotFound, "User not found"@),
        },
{
    match found {
        Some(user) => Step::Continue((request, user)),
        None => Step::Respond(error_response(Status::NotFound, "User not found")),
    }
}

/// Ends the deletion of a user: the deleted account on success.
pub fn delete_user_deleted(user: User, deleted: bool) -> (response: JsonResponse)
    ensures
        response@ == if deleted {
            JsonResponseView::success(ResponseDataView::User(user@))
        } else {
            JsonResponseView::failure(Status::InternalServerError, "Failed to delete user"@)
        },
{
    if deleted {
        success_response(ResponseData::User(user))
    } else {
        error_response(Status::InternalServerError, "Failed to delete user")
    }
}

} // verus!
