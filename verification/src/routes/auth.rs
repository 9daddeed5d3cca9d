//! The login exchange and the refresh exchange.

use crate::claims::refresh_tag;
use crate::clock::{clock_limit, get_timestamp_ms};
use crate::guard::PublicRequest;
use crate::models::{User, UserView};
use crate::responses::{
    error_response, success_response, JsonResponse, JsonResponseView, ResponseData,
    ResponseDataView, Status,
};
use crate::routes::Step;
use crate::state::password_matches;
use crate::token::{
    accepted_claims, access_claims, generate_access_token_at, generate_refresh_token_at,
    issued_token, lemma_no_type_confusion, lemma_refresh_token_lifetime,
    lemma_refresh_token_round_trip, refresh_claims, verify_refresh_token_at,
    ACCESS_TOKEN_EXPIRY, REFRESH_TOKEN_EXPIRY,
};
use vstd::prelude::*;

verus! {

/// The body of a login request.
pub struct BasicAuth {
    pub username: String,
    pub password: String,
}

/// The body of a request that exchanges a refresh token.
pub struct JwtRefresh {
    pub token: String,
}

/// The login exchange, up to the point where the user has to be looked up. A request
/// that did not pass the public guard gets the guard's response, one without a readable
/// body is a bad request. Every other request goes on to [`basic_auth_found_at`] with
/// the user stored under the username of its body.
pub fn basic_auth<C>(request: Result<PublicRequest<C>, JsonResponse>, auth: Option<BasicAuth>) -> (step:
    Step<(PublicRequest<C>, BasicAuth)>)
    ensures
        match request {
            Err(err) => step matches Step::Respond(response) && response == err,
            Ok(req) => match auth {
                None => step matches Step::Respond(response) && response@
                    == JsonResponseView::failure(Status::BadRequest, "Invalid body data"@),
                Some(body) => step matches Step::Continue(next) && next == (req, body),
            },
        },
{
    match request {
        Ok(req) => match auth {
            Some(body) => Step::Continue((req, body)),
            None => Step::Respond(error_response(Status::BadRequest, "Invalid body data")),
        },
        Err(err) => Step::Respond(err),
    }
}

/// The response of the login exchange once the user was looked up, when the clock reads
/// `now`: the two tokens for a user whose stored hash matches the password, and a
/// refusal for an unknown username or a wrong password.
pub open spec fn login_response(
    found: Option<UserView>,
    password: Seq<char>,
    secret: Seq<u8>,
    now: u128,
) -> JsonResponseView {
    match found {
        Some(user) => if password_matches(user.password_hash, password) {
            JsonResponseView::success(
                ResponseDataView::Login {
                    refresh_token: issued_token(refresh_claims(user, now), secret),
                    access_token: issued_token(access_claims(user, now), secret),
                },
            )
        } else {
            JsonResponseView::failure(Status::Forbidden, "Wrong password"@)
        },
        None => JsonResponseView::failure(Status::Forbidden, "Username not found."@),
    }
}

/// Ends the login exchange at clock reading `now`, with the user that storage holds
/// under the username of `body`, if any.
pub fn basic_auth_found_at<C>(
    request: &PublicRequest<C>,
    body: &BasicAuth,
    found: Option<User>,
    now: u128,
) -> (response: JsonResponse)
    requires
        now + REFRESH_TOKEN_EXPIRY <= u128::MAX,
    ensures
        response@ == login_response(
            found.deep_view(),
            body.password@,
            request.state.jwt_key@,
            now,
        ),
{
    match found {
        Some(user) => {
            if request.state.verify_password(user.password_hash.as_str(), body.password.as_str()) {
                success_response(
                    ResponseData::Login {
                        refresh_token: generate_refresh_token_at(&user, &request.state.jwt_key, now),
                        access_token: generate_access_token_at(&user, &request.state.jwt_key, now),
                    },
                )
            } else {
                error_response(Status::Forbidden, "Wrong password")
            }
        },
        None => error_response(Status::Forbidden, "Username not found."),
    }
}

/// Ends the login exchange against the wall clock: the response is that of
/// [`basic_auth_found_at`] for the reading taken during the call.
pub fn basic_auth_found<C>(request: &PublicRequest<C>, body: &BasicAuth, found: Option<User>) -> (response:
    JsonResponse)
    ensures
        exists|now: u128|
            now <= clock_limit() && response@ == #[trigger] login_response(
                found.deep_view(),
                body.password@,
                request.state.jwt_key@,
                now,
            ),
{
    let now: u128 = get_timestamp_ms();
    basic_auth_found_at(request, body, found, now)
}

/// The step that the refresh exchange takes first, when the clock reads `now`. A
/// request that did not pass the public guard gets the guard's response, one without a
/// readable body is a bad request, and one whose token is not accepted as a refresh
/// token is refused, whatever was wrong with the token. Every other request goes on
/// with the identifier of the user that the token names.
pub open spec fn refresh_step<C>(
    request: Result<PublicRequest<C>, JsonResponse>,
    refresh: Option<JwtRefresh>,
    now: u128,
    step: Step<(PublicRequest<C>, i32)>,
) -> bool {
    match request {
        Err(err) => step matches Step::Respond(response) && response == err,
        Ok(req) => match refresh {
            None => step matches Step::Respond(response) && response@
                == JsonResponseView::failure(Status::BadRequest, "Failed to parse body"@),
            Some(body) => match accepted_claims(
                body.token@,
                req.state.jwt_key@,
                refresh_tag(),
                now,
            ) {
                None => step matches Step::Respond(response) && response@
                    == JsonResponseView::failure(Status::Forbidden, "Invalid JWT"@),
                Some(claims) => step matches Step::Continue(next) && next == (req, claims.user_id),
            },
        },
    }
}

/// The refresh exchange at clock reading `now`, up to the point where the user has to
/// be looked up. A request that is not answered here goes on to
/// [`refresh_jwt_found_at`] with the user stored under the identifier in the token.
pub fn refresh_jwt_at<C>(
    request: Result<PublicRequest<C>, JsonResponse>,
    refresh: Option<JwtRefresh>,
    now: u128,
) -> (step: Step<(PublicRequest<C>, i32)>)
    ensures
        refresh_step(request, refresh, now, step),
{
    match request {
        Ok(req) => match refresh {
            Some(refresh_token) => {
                match verify_refresh_token_at(refresh_token.token.as_str(), &req.state.jwt_key, now) {
                    Some(tok) => Step::Continue((req, tok.user_id)),
                    None => Step::Respond(error_response(Status::Forbidden, "Invalid JWT")),
                }
            },
            None => Step::Respond(error_response(Status::BadRequest, "Failed to parse body")),
        },
        Err(err) => Step::Respond(err),
    }
}

/// The refresh exchange against the wall clock: the step is that of [`refresh_jwt_at`]
/// for the reading taken during the call.
pub fn refresh_jwt<C>(request: Result<PublicRequest<C>, JsonResponse>, refresh: Option<JwtRefresh>) -> (step:
    Step<(PublicRequest<C>, i32)>)
    ensures
        exists|now: u128|
            now <= clock_limit() && #[trigger] refresh_step(request, refresh, now, step),
{
    let now: u128 = get_timestamp_ms();
    refresh_jwt_at(request, refresh, now)
}

/// The response of the refresh exchange once the user was looked up, when the clock
/// reads `now`: a fresh access token for a user that still exists.
pub open spec fn refresh_response(found: Option<UserView>, secret: Seq<u8>, now: u128) -> JsonResponseView {
    match found {
        Some(user) => if issued_token(access_claims(user, now), secret).len() > 0 {
            JsonResponseView::success(
                ResponseDataView::Token { token: issued_token(access_claims(user, now), secret) },
            )
        } else {
            JsonResponseView::failure(Status::InternalServerError, "Failed to generate token"@)
        },
        None => JsonResponseView::failure(Status::Forbidden, "No user found."@),
    }
}

/// Ends the refresh exchange at clock reading `now`, with the user that storage holds
/// under the identifier in the token, if any.
pub fn refresh_jwt_found_at<C>(request: &PublicRequest<C>, found: Option<User>, now: u128) -> (response:
    JsonResponse)
    requires
        now + ACCESS_TOKEN_EXPIRY <= u128::MAX,
    ensures
        response@ == refresh_response(found.deep_view(), request.state.jwt_key@, now),
{
    match found {
        Some(user) => {
            let access_token = generate_access_token_at(&user, &request.state.jwt_key, now);
            if !access_token.as_str().is_empty() {
                success_response(ResponseData::Token { token: access_token })
            } else {
                error_response(Status::InternalServerError, "Failed to generate token")
            }
        },
        None => error_response(Status::Forbidden, "No user found."),
    }
}

/// Ends the refresh exchange against the wall clock: the response is that of
/// [`refresh_jwt_found_at`] for the reading taken during the call.
pub fn refresh_jwt_found<C>(request: &PublicRequest<C>, found: Option<User>) -> (response:
    JsonResponse)
    ensures
        exists|now: u128|
            now <= clock_limit() && response@ == #[trigger] refresh_response(
                found.deep_view(),
                request.state.jwt_key@,
                now,
            ),
{
    let now: u128 = get_timestamp_ms();
    refresh_jwt_found_at(request, found, now)
}

/// The refresh exchange takes no access token. Whatever user an access token was issued
/// to and whenever, the exchange refuses it as an invalid token.
pub proof fn lemma_refresh_refuses_access_tokens<C>(
    request: PublicRequest<C>,
    refresh: JwtRefresh,
    user: UserView,
    issued_at: u128,
    now: u128,
    step: Step<(PublicRequest<C>, i32)>,
)
    requires
        refresh.token@ == issued_token(access_claims(user, issued_at), request.state.jwt_key@),
        refresh_step(Ok(request), Some(refresh), now, step),
    ensures
        step is Respond,
        step->Respond_0@ == JsonResponseView::failure(Status::Forbidden, "Invalid JWT"@),
{
    lemma_no_type_confusion(user, request.state.jwt_key@, issued_at, now);
}

/// The refresh exchange takes no expired refresh token: from the instant of its expiry
/// on, the exchange refuses it as an invalid token, with the same words as it has for a
/// token of the wrong kind.
pub proof fn lemma_refresh_refuses_expired_tokens<C>(
    request: PublicRequest<C>,
    refresh: JwtRefresh,
    user: UserView,
    issued_at: u128,
    now: u128,
    step: Step<(PublicRequest<C>, i32)>,
)
    requires
        issued_at + REFRESH_TOKEN_EXPIRY <= u128::MAX,
        now >= issued_at + REFRESH_TOKEN_EXPIRY,
        refresh.token@ == issued_token(refresh_claims(user, issued_at), request.state.jwt_key@),
        refresh_step(Ok(request), Some(refresh), now, step),
    ensures
        step is Respond,
        step->Respond_0@ == JsonResponseView::failure(Status::Forbidden, "Invalid JWT"@),
{
    lemma_refresh_token_lifetime(user, request.state.jwt_key@, issued_at, now);
}

/// The refresh exchange goes on with the user that a refresh token names, for every
/// refresh token that was issued and has not expired.
pub proof fn lemma_refresh_takes_valid_tokens<C>(
    request: PublicRequest<C>,
    refresh: JwtRefresh,
    user: UserView,
    issued_at: u128,
    now: u128,
    step: Step<(PublicRequest<C>, i32)>,
)
    requires
        issued_at + REFRESH_TOKEN_EXPIRY <= u128::MAX,
        now < issued_at + REFRESH_TOKEN_EXPIRY,
        refresh.token@ == issued_token(refresh_claims(user, issued_at), request.state.jwt_key@),
        refresh.token@.len() > 0,
        refresh_step(Ok(request), Some(refresh), now, step),
    ensures
        step is Continue,
        step->Continue_0 == (request, user.id),
{
    lemma_refresh_token_round_trip(user, request.state.jwt_key@, issued_at, now);
}

} // verus!
