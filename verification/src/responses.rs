//! The response envelope: a status beside a body that reports success or an error.

use crate::models::item::{ShoppingItem, ShoppingItemView};
use crate::models::{User, UserView};
use vstd::prelude::*;

verus! {

/// The HTTP status that accompanies a response.
#[derive(Clone, Copy, Debug, PartialEq, Eq, Structural)]
pub enum Status {
    Okay,
    BadRequest,
    Unauthorized,
    Forbidden,
    NotFound,
    InternalServerError,
    ServiceUnavailable,
}

impl Status {
    /// The numeric status code.
    pub open spec fn spec_code(self) -> u16 {
        match self {
            Status::Okay => 200,
            Status::BadRequest => 400,
            Status::Unauthorized => 401,
            Status::Forbidden => 403,
            Status::NotFound => 404,
            Status::InternalServerError => 500,
            Status::ServiceUnavailable => 503,
        }
    }

    /// The status with the given numeric code, where this service uses one.
    pub fn from_code(code: u16) -> (status: Option<Status>)
        ensures
            match status {
                Some(s) => s.spec_code() == code,
                None => forall|s: Status| #[trigger] s.spec_code() != code,
            },
    {
        if code == 200 {
            Some(Status::Okay)
        } else if code == 400 {
            Some(Status::BadRequest)
        } else if code == 401 {
            Some(Status::Unauthorized)
        } else if code == 403 {
            Some(Status::Forbidden)
        } else if code == 404 {
            Some(Status::NotFound)
        } else if code == 500 {
            Some(Status::InternalServerError)
        } else if code == 503 {
            Some(Status::ServiceUnavailable)
        } else {
            None
        }
    }

    /// The numeric status code.
    #[verifier::when_used_as_spec(spec_code)]
    pub fn code(self) -> (code: u16)
        ensures
            code == self.spec_code(),
    {
        match self {
            Status::Okay => 200,
            Status::BadRequest => 400,
            Status::Unauthorized => 401,
            Status::Forbidden => 403,
            Status::NotFound => 404,
            Status::InternalServerError => 500,
            Status::ServiceUnavailable => 503,
        }
    }
}

/// What a successful response carries under `data`.
#[derive(Debug)]
pub enum ResponseData {
    /// Nothing: the JSON `null`.
    Null,
    /// The object that reports the service as running.
    Running,
    /// The pair of tokens handed out at login.
    Login { refresh_token: String, access_token: String },
    /// The access token handed out in exchange for a refresh token.
    Token { token: String },
    User(User),
    Users(Vec<User>),
    Item(ShoppingItem),
    Items(Vec<ShoppingItem>),
}

/// A [`ResponseData`] as mathematical values.
pub enum ResponseDataView {
    Null,
    Running,
    Login { refresh_token: Seq<char>, access_token: Seq<char> },
    Token { token: Seq<char> },
    User(UserView),
    Users(Seq<UserView>),
    Item(ShoppingItemView),
    Items(Seq<ShoppingItemView>),
}

impl View for ResponseData {
    type V = ResponseDataView;

    open spec fn view(&self) -> ResponseDataView {
        match self {
            ResponseData::Null => ResponseDataView::Null,
            ResponseData::Running => ResponseDataView::Running,
            ResponseData::Login { refresh_token, access_token } => ResponseDataView::Login {
                refresh_token: refresh_token@,
                access_token: access_token@,
            },
            ResponseData::Token { token } => ResponseDataView::Token { token: token@ },
            ResponseData::User(user) => ResponseDataView::User(user@),
            ResponseData::Users(users) => ResponseDataView::Users(users.deep_view()),
            ResponseData::Item(item) => ResponseDataView::Item(item@),
            ResponseData::Items(items) => ResponseDataView::Items(items.deep_view()),
        }
    }
}

/// The response envelope: a status beside the three members `success`, `error` and
/// `data` of the JSON body.
#[derive(Debug)]
pub struct JsonResponse {
    pub status: Status,
    pub success: bool,
    pub error: Option<String>,
    pub data: ResponseData,
}

/// A [`JsonResponse`] as mathematical values.
pub struct JsonResponseView {
    pub status: Status,
    pub success: bool,
    pub error: Option<Seq<char>>,
    pub data: ResponseDataView,
}

impl View for JsonResponse {
    type V = JsonResponseView;

    open spec fn view(&self) -> JsonResponseView {
        JsonResponseView {
            status: self.status,
            success: self.success,
            error: self.error.deep_view(),
            data: self.data@,
        }
    }
}

impl DeepView for JsonResponse {
    type V = JsonResponseView;

    open spec fn deep_view(&self) -> JsonResponseView {
        self@
    }
}

impl JsonResponseView {
    /// The envelope of a success: status 200, no error, the given data.
    pub open spec fn success(data: ResponseDataView) -> JsonResponseView {
        JsonResponseView { status: Status::Okay, success: true, error: None, data }
    }

    /// The envelope of a failure: the given status and message, no data.
    pub open spec fn failure(status: Status, error: Seq<char>) -> JsonResponseView {
        JsonResponseView { status, success: false, error: Some(error), data: ResponseDataView::Null }
    }

    /// An envelope is one of the two shapes: it reports success exactly when it holds
    /// no error, a success has status 200, and a failure holds no data.
    pub open spec fn well_formed(self) -> bool {
        &&& self.success <==> self.error is None
        &&& self.success ==> self.status == Status::Okay
        &&& !self.success ==> self.data is Null
    }
}

/// The response for a success that carries `data`.
pub fn success_response(data: ResponseData) -> (response: JsonResponse)
    ensures
        response@ == JsonResponseView::success(data@),
        response@.well_formed(),
{
    JsonResponse { status: Status::Okay, success: true, error: None, data }
}

/// The response for a failure with the given status and message.
pub fn error_response(status: Status, error: &str) -> (response: JsonResponse)
    ensures
        response@ == JsonResponseView::failure(status, error@),
        response@.well_formed(),
{
    JsonResponse { status, success: false, error: Some(error.to_owned()), data: ResponseData::Null }
}

} // verus!
