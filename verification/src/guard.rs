//! The three guards of a request. Each builds on the one below it and adds one check:
//! the public guard needs the provisioned state, the user guard a valid access token,
//! the admin guard the admin flag inside that token.

use crate::clock::{clock_limit, get_timestamp_ms};
use crate::outcome::Outcome;
use crate::responses::{error_response, JsonResponse, JsonResponseView, Status};
use crate::state::StateInstance;
use crate::claims::{access_tag, AccessJwtToken};
use crate::models::UserView;
use crate::token::{
    accepted_claims, access_claims, issued_token, lemma_access_token_round_trip,
    verify_access_token_at, ACCESS_TOKEN_EXPIRY,
};
use vstd::prelude::*;

verus! {

/// The scheme prefix of an `Authorization` header that carries a bearer token.
pub open spec fn bearer_prefix() -> Seq<char> {
    "Bearer "@
}

/// The token in the value of an `Authorization` header: what follows the scheme prefix,
/// where the value begins with it.
pub open spec fn bearer_token(header_value: Seq<char>) -> Option<Seq<char>> {
    if bearer_prefix().is_prefix_of(header_value) {
        Some(header_value.skip(bearer_prefix().len() as int))
    } else {
        None
    }
}

/// Takes the token out of the value of an `Authorization` header. The token itself is
/// not looked at.
pub fn extract_jwt_from_header(header_value: &str) -> (token: Option<String>)
    ensures
        token.deep_view() == bearer_token(header_value@),
{
    let prefix = "Bearer ";
    proof {
        reveal_strlit("Bearer ");
    }
    let length: usize = header_value.unicode_len();
    if length < 7 {
        return None;
    }
    let mut index: usize = 0;
    while index < 7
        invariant
            index <= 7 <= length,
            length == header_value@.len(),
            prefix@ == bearer_prefix(),
            prefix@.len() == 7,
            forall|i: int| 0 <= i < index ==> header_value@[i] == prefix@[i],
        decreases 7 - index,
    {
        if header_value.get_char(index) != prefix.get_char(index) {
            return None;
        }
        index += 1;
    }
    let token = header_value.substring_char(7, length);
    Some(token.to_owned())
}

/// A rejection: the status, and the response that reports it.
pub open spec fn rejection(error: (Status, JsonResponse), status: Status, message: Seq<char>) -> bool {
    error.0 == status && error.1@ == JsonResponseView::failure(status, message)
}

/// The rejection with the given status and message.
fn create_error(status: Status, message: &str) -> (error: (Status, JsonResponse))
    ensures
        rejection(error, status, message@),
{
    (status, error_response(status, message))
}

/// The principal of a request that needs no credential: the provisioned state alone.
pub struct PublicRequest<C> {
    pub state: StateInstance<C>,
}

/// The principal of a request that showed a valid access token: the provisioned state
/// and the verified claims.
pub struct UserRequest<C> {
    pub state: StateInstance<C>,
    pub token: AccessJwtToken,
}

/// The principal of a request whose verified claims carry the admin flag. It holds the
/// user principal it was made of.
pub struct AdminRequest<C>(pub UserRequest<C>);

/// What the public guard resolves to, from the outcome of provisioning: the principal
/// around the provisioned state, a rejection with the status of a failed provisioning,
/// or the forward that provisioning gave.
pub open spec fn public_guard<C, F>(
    app: Outcome<StateInstance<C>, (Status, ()), F>,
    resolved: Outcome<PublicRequest<C>, (Status, JsonResponse), F>,
) -> bool {
    match app {
        Outcome::Success(state) => resolved matches Outcome::Success(principal) && principal.state
            == state,
        Outcome::Failure(err) => resolved matches Outcome::Failure(e) && rejection(
            e,
            err.0,
            "Failed to connect to database"@,
        ),
        Outcome::Forward(forward) => resolved matches Outcome::Forward(f) && f == forward,
    }
}

/// What the user guard resolves to, for a request with the given `Authorization`
/// header, on top of the resolved public guard, when the clock reads `now`. The checks
/// come in a fixed order and the first that fails decides: the public guard, the
/// presence of the header, the bearer prefix, the token. A forward and a rejection of
/// the public guard come out as they went in.
pub open spec fn user_guard<C, F>(
    auth_header: Option<Seq<char>>,
    public: Outcome<PublicRequest<C>, (Status, JsonResponse), F>,
    now: u128,
    resolved: Outcome<UserRequest<C>, (Status, JsonResponse), F>,
) -> bool {
    match public {
        Outcome::Forward(forward) => resolved matches Outcome::Forward(f) && f == forward,
        Outcome::Failure(error) => resolved matches Outcome::Failure(e) && e == error,
        Outcome::Success(principal) => match auth_header {
            None => resolved matches Outcome::Failure(e) && rejection(
                e,
                Status::Unauthorized,
                "No auth credentials"@,
            ),
            Some(value) => match bearer_token(value) {
                None => resolved matches Outcome::Failure(e) && rejection(
                    e,
                    Status::Unauthorized,
                    "No Bearer token"@,
                ),
                Some(token) => match accepted_claims(
                    token,
                    principal.state.jwt_key@,
                    access_tag(),
                    now,
                ) {
                    None => resolved matches Outcome::Failure(e) && rejection(
                        e,
                        Status::Unauthorized,
                        "Invalid JWT token"@,
                    ),
                    Some(claims) => resolved matches Outcome::Success(user) && user.state
                        == principal.state && user.token@ == claims,
                },
            },
        },
    }
}

/// What the admin guard resolves to on top of the resolved user guard. Only the admin
/// flag inside the verified claims counts. A forward and a rejection of the user guard
/// come out as they went in.
pub open spec fn admin_guard<C, F>(
    user_request: Outcome<UserRequest<C>, (Status, JsonResponse), F>,
    resolved: Outcome<AdminRequest<C>, (Status, JsonResponse), F>,
) -> bool {
    match user_request {
        Outcome::Success(user) => if user.token.is_admin {
            resolved matches Outcome::Success(admin) && admin.0 == user
        } else {
            resolved matches Outcome::Failure(e) && rejection(
                e,
                Status::Forbidden,
                "Admin access required"@,
            )
        },
        Outcome::Failure(error) => resolved matches Outcome::Failure(e) && e == error,
        Outcome::Forward(forward) => resolved matches Outcome::Forward(f) && f == forward,
    }
}

/// What a route behind the user guard gets for a request, from the outcome of
/// provisioning and the `Authorization` header, when the clock reads `now`: the whole
/// chain of checks up to the user guard.
pub open spec fn user_chain<C, F>(
    auth_header: Option<Seq<char>>,
    app: Outcome<StateInstance<C>, (Status, ()), F>,
    now: u128,
    resolved: Outcome<UserRequest<C>, (Status, JsonResponse), F>,
) -> bool {
    match app {
        Outcome::Forward(forward) => resolved matches Outcome::Forward(f) && f == forward,
        Outcome::Failure(err) => resolved matches Outcome::Failure(e) && rejection(
            e,
            err.0,
            "Failed to connect to database"@,
        ),
        Outcome::Success(state) => match auth_header {
            None => resolved matches Outcome::Failure(e) && rejection(
                e,
                Status::Unauthorized,
                "No auth credentials"@,
            ),
            Some(value) => match bearer_token(value) {
                None => resolved matches Outcome::Failure(e) && rejection(
                    e,
                    Status::Unauthorized,
                    "No Bearer token"@,
                ),
                Some(token) => match accepted_claims(token, state.jwt_key@, access_tag(), now) {
                    None => resolved matches Outcome::Failure(e) && rejection(
                        e,
                        Status::Unauthorized,
                        "Invalid JWT token"@,
                    ),
                    Some(claims) => resolved matches Outcome::Success(user) && user.state
                        == state && user.token@ == claims,
                },
            },
        },
    }
}

/// What a route behind the admin guard gets for a request: the whole chain of checks.
/// It is the chain of the user guard, followed by one more check on what that chain
/// let through.
pub open spec fn admin_chain<C, F>(
    auth_header: Option<Seq<char>>,
    app: Outcome<StateInstance<C>, (Status, ()), F>,
    now: u128,
    resolved: Outcome<AdminRequest<C>, (Status, JsonResponse), F>,
) -> bool {
    match app {
        Outcome::Forward(forward) => resolved matches Outcome::Forward(f) && f == forward,
        Outcome::Failure(err) => resolved matches Outcome::Failure(e) && rejection(
            e,
            err.0,
            "Failed to connect to database"@,
        ),
        Outcome::Success(state) => match auth_header {
            None => resolved matches Outcome::Failure(e) && rejection(
                e,
                Status::Unauthorized,
                "No auth credentials"@,
            ),
            Some(value) => match bearer_token(value) {
                None => resolved matches Outcome::Failure(e) && rejection(
                    e,
                    Status::Unauthorized,
                    "No Bearer token"@,
                ),
                Some(token) => match accepted_claims(token, state.jwt_key@, access_tag(), now) {
                    None => resolved matches Outcome::Failure(e) && rejection(
                        e,
                        Status::Unauthorized,
                        "Invalid JWT token"@,
                    ),
                    Some(claims) => if claims.is_admin {
                        resolved matches Outcome::Success(admin) && admin.0.state == state
                            && admin.0.token@ == claims
                    } else {
                        resolved matches Outcome::Failure(e) && rejection(
                            e,
                            Status::Forbidden,
                            "Admin access required"@,
                        )
                    },
                },
            },
        },
    }
}

impl<C> PublicRequest<C> {
    /// Resolves the public guard for a request, from the outcome of provisioning.
    pub fn from_request<F>(app: Outcome<StateInstance<C>, (Status, ()), F>) -> (resolved: Outcome<
        PublicRequest<C>,
        (Status, JsonResponse),
        F,
    >)
        ensures
            public_guard(app, resolved),
    {
        match app {
            Outcome::Success(state) => Outcome::Success(PublicRequest { state }),
            Outcome::Failure(err) => Outcome::Failure(
                create_error(err.0, "Failed to connect to database"),
            ),
            Outcome::Forward(fwd) => Outcome::Forward(fwd),
        }
    }
}

impl<C> UserRequest<C> {
    /// Resolves the user guard on top of the resolved public guard, at clock reading
    /// `now`.
    pub fn from_public_at<F>(
        auth_header: Option<&str>,
        public: Outcome<PublicRequest<C>, (Status, JsonResponse), F>,
        now: u128,
    ) -> (resolved: Outcome<UserRequest<C>, (Status, JsonResponse), F>)
        ensures
            user_guard(auth_header.deep_view(), public, now, resolved),
    {
        match public {
            Outcome::Success(principal) => match auth_header {
                Some(auth_token) => match extract_jwt_from_header(auth_token) {
                    Some(valid_jwt_string) => match verify_access_token_at(
                        valid_jwt_string.as_str(),
                        &principal.state.jwt_key,
                        now,
                    ) {
                        Some(valid_token) => Outcome::Success(
                            UserRequest { state: principal.state, token: valid_token },
                        ),
                        None => Outcome::Failure(
                            create_error(Status::Unauthorized, "Invalid JWT token"),
                        ),
                    },
                    None => Outcome::Failure(create_error(Status::Unauthorized, "No Bearer token")),
                },
                None => Outcome::Failure(
                    create_error(Status::Unauthorized, "No auth credentials"),
                ),
            },
            Outcome::Failure(err) => Outcome::Failure(err),
            Outcome::Forward(fwd) => Outcome::Forward(fwd),
        }
    }

    /// Resolves the user guard for a request at clock reading `now`, from the outcome of
    /// provisioning and the value of the `Authorization` header, if the request has
    /// one: the public guard first, then the checks of the user guard.
    pub fn from_request_at<F>(
        auth_header: Option<&str>,
        app: Outcome<StateInstance<C>, (Status, ()), F>,
        now: u128,
    ) -> (resolved: Outcome<UserRequest<C>, (Status, JsonResponse), F>)
        ensures
            user_chain(auth_header.deep_view(), app, now, resolved),
    {
        Self::from_public_at(auth_header, PublicRequest::from_request(app), now)
    }

    /// Resolves the user guard for a request against the wall clock: the result is that
    /// of [`UserRequest::from_request_at`] for the reading taken during the call.
    pub fn from_request<F>(
        auth_header: Option<&str>,
        app: Outcome<StateInstance<C>, (Status, ()), F>,
    ) -> (resolved: Outcome<UserRequest<C>, (Status, JsonResponse), F>)
        ensures
            exists|now: u128|
                now <= clock_limit() && #[trigger] user_chain(
                    auth_header.deep_view(),
                    app,
                    now,
                    resolved,
                ),
    {
        let now: u128 = get_timestamp_ms();
        Self::from_request_at(auth_header, app, now)
    }
}

impl<C> AdminRequest<C> {
    /// Resolves the admin guard on top of the resolved user guard.
    pub fn from_user<F>(user_request: Outcome<UserRequest<C>, (Status, JsonResponse), F>) -> (resolved:
        Outcome<AdminRequest<C>, (Status, JsonResponse), F>)
        ensures
            admin_guard(user_request, resolved),
    {
        match user_request {
            Outcome::Success(user) => {
                if user.token.is_admin {
                    Outcome::Success(AdminRequest(user))
                } else {
                    Outcome::Failure(create_error(Status::Forbidden, "Admin access required"))
                }
            },
            Outcome::Failure(err) => Outcome::Failure(err),
            Outcome::Forward(fwd) => Outcome::Forward(fwd),
        }
    }

    /// Resolves the admin guard for a request at clock reading `now`: the user guard
    /// first, then the admin flag of what it let through.
    pub fn from_request_at<F>(
        auth_header: Option<&str>,
        app: Outcome<StateInstance<C>, (Status, ()), F>,
        now: u128,
    ) -> (resolved: Outcome<AdminRequest<C>, (Status, JsonResponse), F>)
        ensures
            admin_chain(auth_header.deep_view(), app, now, resolved),
    {
        Self::from_user(UserRequest::from_request_at(auth_header, app, now))
    }

    /// Resolves the admin guard for a request against the wall clock: the result is
    /// that of [`AdminRequest::from_request_at`] for the reading taken during the call.
    pub fn from_request<F>(
        auth_header: Option<&str>,
        app: Outcome<StateInstance<C>, (Status, ()), F>,
    ) -> (resolved: Outcome<AdminRequest<C>, (Status, JsonResponse), F>)
        ensures
            exists|now: u128|
                now <= clock_limit() && #[trigger] admin_chain(
                    auth_header.deep_view(),
                    app,
                    now,
                    resolved,
                ),
    {
        let now: u128 = get_timestamp_ms();
        Self::from_request_at(auth_header, app, now)
    }

    /// The user principal that this admin principal was made of.
    pub fn user(&self) -> (user: &UserRequest<C>)
        ensures
            *user == self.0,
    {
        &self.0
    }
}

/// The three rejections of the user guard carry three different messages.
pub proof fn lemma_rejections_differ()
    ensures
        "No auth credentials"@ != "No Bearer token"@,
        "No auth credentials"@ != "Invalid JWT token"@,
        "No Bearer token"@ != "Invalid JWT token"@,
{
    reveal_strlit("No auth credentials");
    reveal_strlit("No Bearer token");
    reveal_strlit("Invalid JWT token");
    assert("No auth credentials"@.len() == 19);
    assert("No Bearer token"@.len() == 15);
    assert("Invalid JWT token"@.len() == 17);
}

/// A rejection of the user guard names its cause. On top of a public guard that let the
/// request through, the message tells a missing header, a header without the bearer
/// prefix and a token that was not accepted apart: each message comes with its own
/// cause and with no other.
pub proof fn lemma_rejection_names_its_cause<C, F>(
    auth_header: Option<Seq<char>>,
    public: Outcome<PublicRequest<C>, (Status, JsonResponse), F>,
    now: u128,
    resolved: Outcome<UserRequest<C>, (Status, JsonResponse), F>,
)
    requires
        user_guard(auth_header, public, now, resolved),
        public is Success,
        resolved is Failure,
    ensures
        resolved->Failure_0.0 == Status::Unauthorized,
        resolved->Failure_0.1@.error == Some("No auth credentials"@) <==> auth_header is None,
        resolved->Failure_0.1@.error == Some("No Bearer token"@) <==> (auth_header matches Some(
            value,
        ) && bearer_token(value) is None),
        resolved->Failure_0.1@.error == Some("Invalid JWT token"@) <==> (auth_header matches Some(
            value,
        ) && bearer_token(value) matches Some(token) && accepted_claims(
            token,
            public->Success_0.state.jwt_key@,
            access_tag(),
            now,
        ) is None),
{
    lemma_rejections_differ();
}

/// No user principal without a verified token. Where the user guard lets a request
/// through, the public guard had let it through, the request carried a header with the
/// bearer prefix, and the principal's claims are those of the token behind the prefix:
/// rightly signed under the key of the request's state, tagged as an access token and
/// not expired when the clock reads `now`.
pub proof fn lemma_user_principal_is_verified<C, F>(
    auth_header: Option<Seq<char>>,
    public: Outcome<PublicRequest<C>, (Status, JsonResponse), F>,
    now: u128,
    resolved: Outcome<UserRequest<C>, (Status, JsonResponse), F>,
)
    requires
        user_guard(auth_header, public, now, resolved),
        resolved is Success,
    ensures
        public is Success,
        resolved->Success_0.state == public->Success_0.state,
        auth_header is Some,
        bearer_token(auth_header->0) is Some,
        accepted_claims(
            bearer_token(auth_header->0)->0,
            public->Success_0.state.jwt_key@,
            access_tag(),
            now,
        ) == Some(resolved->Success_0.token@),
        resolved->Success_0.token@.token_type == access_tag(),
        now < resolved->Success_0.token.exp,
{
}

/// A forward is no failure and stays what it was: a request that the public guard
/// forwarded is forwarded by the user guard with the same value, whatever header it
/// carries, and is never turned into a rejection.
pub proof fn lemma_forward_is_preserved<C, F>(
    auth_header: Option<Seq<char>>,
    public: Outcome<PublicRequest<C>, (Status, JsonResponse), F>,
    now: u128,
    resolved: Outcome<UserRequest<C>, (Status, JsonResponse), F>,
)
    requires
        user_guard(auth_header, public, now, resolved),
    ensures
        public is Forward <==> resolved is Forward,
        public is Forward ==> resolved->Forward_0 == public->Forward_0,
{
}

/// The guards build on one another. What the chain of the user guard resolves to is
/// what the user guard resolves to on top of the public guard, and what the chain of
/// the admin guard resolves to is what the admin guard resolves to on top of that: no
/// guard is resolved unless the one below it was.
pub proof fn lemma_chain_is_layered<C, F>(
    auth_header: Option<Seq<char>>,
    app: Outcome<StateInstance<C>, (Status, ()), F>,
    now: u128,
    public: Outcome<PublicRequest<C>, (Status, JsonResponse), F>,
    user: Outcome<UserRequest<C>, (Status, JsonResponse), F>,
    admin: Outcome<AdminRequest<C>, (Status, JsonResponse), F>,
)
    requires
        public_guard(app, public),
        user_guard(auth_header, public, now, user),
        admin_guard(user, admin),
    ensures
        user_chain(auth_header, app, now, user),
        admin_chain(auth_header, app, now, admin),
        admin is Success ==> user is Success && public is Success && app is Success,
        user is Success ==> public is Success && app is Success,
        public is Success ==> app is Success,
{
}

/// The admin guard adds nothing to the claims and takes nothing away. Where it lets a
/// request through, the user guard had let it through with the admin flag set, and the
/// admin principal holds that very user principal; where the flag is not set, the
/// request is refused as forbidden.
pub proof fn lemma_admin_principal_is_the_user<C, F>(
    user_request: Outcome<UserRequest<C>, (Status, JsonResponse), F>,
    resolved: Outcome<AdminRequest<C>, (Status, JsonResponse), F>,
)
    requires
        admin_guard(user_request, resolved),
        user_request is Success,
    ensures
        resolved is Success <==> user_request->Success_0.token.is_admin,
        resolved is Success ==> resolved->Success_0.0 == user_request->Success_0,
        !user_request->Success_0.token.is_admin ==> resolved is Failure && rejection(
            resolved->Failure_0,
            Status::Forbidden,
            "Admin access required"@,
        ),
{
}

/// The value of an `Authorization` header that carries `token` as a bearer token.
pub open spec fn bearer_header(token: Seq<char>) -> Seq<char> {
    bearer_prefix() + token
}

/// The token behind the bearer prefix is found again, whatever it is.
pub proof fn lemma_bearer_header_carries_its_token(token: Seq<char>)
    ensures
        bearer_token(bearer_header(token)) == Some(token),
{
    let header = bearer_header(token);
    let length = bearer_prefix().len() as int;
    assert(header.subrange(0, length) =~= bearer_prefix());
    assert(header.skip(length) =~= token);
}

/// An access token opens what its user may open, and no more. A request that carries,
/// behind the bearer prefix, the access token that was issued to `user` passes the user
/// guard at every clock reading before the token's expiry, with the claims it was
/// issued for. It passes the admin guard where `user` is an administrator, and is
/// refused there as forbidden where `user` is not.
pub proof fn lemma_issued_token_opens_the_guards<C, F>(
    user: UserView,
    state: StateInstance<C>,
    issued_at: u128,
    now: u128,
    as_user: Outcome<UserRequest<C>, (Status, JsonResponse), F>,
    as_admin: Outcome<AdminRequest<C>, (Status, JsonResponse), F>,
)
    requires
        issued_at + ACCESS_TOKEN_EXPIRY <= u128::MAX,
        now < issued_at + ACCESS_TOKEN_EXPIRY,
        issued_token(access_claims(user, issued_at), state.jwt_key@).len() > 0,
        user_chain(
            Some(bearer_header(issued_token(access_claims(user, issued_at), state.jwt_key@))),
            Outcome::Success(state),
            now,
            as_user,
        ),
        admin_chain(
            Some(bearer_header(issued_token(access_claims(user, issued_at), state.jwt_key@))),
            Outcome::Success(state),
            now,
            as_admin,
        ),
    ensures
        as_user is Success,
        as_user->Success_0.token@ == access_claims(user, issued_at),
        as_user->Success_0.token.user_id == user.id,
        as_user->Success_0.token.is_admin == user.is_admin,
        user.is_admin ==> as_admin is Success && as_admin->Success_0.0.token@ == access_claims(
            user,
            issued_at,
        ),
        !user.is_admin ==> as_admin is Failure && rejection(
            as_admin->Failure_0,
            Status::Forbidden,
            "Admin access required"@,
        ),
{
    lemma_bearer_header_carries_its_token(
        issued_token(access_claims(user, issued_at), state.jwt_key@),
    );
    lemma_access_token_round_trip(user, state.jwt_key@, issued_at, now);
}

} // verus!
