use api_service::guard::{AdminRequest, PublicRequest, UserRequest};
use api_service::models::item::{NewShoppingItem, ShoppingItem, UnitType, UnitTypeError};
use api_service::models::{NewUser, User};
use api_service::responses::{
    error_response, success_response, JsonResponse, ResponseData, Status,
};
use api_service::routes::item::{
    delete_item, delete_item_deleted, delete_item_found, get_all_items, get_all_items_loaded,
    post_new_item, post_new_item_fetched, post_new_item_inserted,
};
use api_service::routes::public::index;
use api_service::routes::users::{
    delete_user, delete_user_deleted, delete_user_found, get_users, get_users_listed,
    post_new_user, post_new_user_fetched, post_new_user_inserted, NewUserData,
};
use api_service::routes::Step;
use api_service::state::{HashConfig, StateInstance};
use api_service::claims::AccessJwtToken;
use api_service::token::SigningKey;
use api_service::utils::handle_request;

fn state(salt: &str) -> StateInstance<u32> {
    StateInstance {
        connection: 1,
        pwd_salt: String::from(salt),
        pwd_config: HashConfig { time_cost: 1, mem_cost: 64, lanes: 1, hash_length: 32 },
        jwt_key: SigningKey { secret: b"secret-key".to_vec() },
    }
}

fn admin_with(salt: &str, user_id: i32) -> AdminRequest<u32> {
    AdminRequest(UserRequest {
        state: state(salt),
        token: AccessJwtToken {
            token_type: String::from("access"),
            exp: 10,
            user_id,
            display_name: String::from("Root"),
            is_admin: true,
        },
    })
}

fn admin(user_id: i32) -> AdminRequest<u32> {
    admin_with("SaltSaltSaltSalt", user_id)
}

fn user(id: i32) -> User {
    User {
        id,
        display_name: format!("User {}", id),
        username: format!("user{}", id),
        password_hash: String::from("hash"),
        is_admin: false,
    }
}

fn item(id: i32) -> ShoppingItem {
    ShoppingItem {
        id,
        name: format!("Item {}", id),
        description: Some(String::from("fresh")),
        image_url: None,
        default_unit_type: UnitType::Mass,
    }
}

fn rejection() -> JsonResponse {
    error_response(Status::Forbidden, "Admin access required")
}

fn assert_failure(response: &JsonResponse, status: Status, message: &str) {
    assert_eq!(response.status, status);
    assert!(!response.success);
    assert_eq!(response.error.as_deref(), Some(message));
    assert!(matches!(response.data, ResponseData::Null));
}

fn responded<T>(step: Step<T>) -> JsonResponse {
    match step {
        Step::Respond(response) => response,
        Step::Continue(_) => panic!("the route went on"),
    }
}

#[test]
fn status_codes() {
    assert_eq!(Status::Okay.code(), 200);
    assert_eq!(Status::BadRequest.code(), 400);
    assert_eq!(Status::Unauthorized.code(), 401);
    assert_eq!(Status::Forbidden.code(), 403);
    assert_eq!(Status::NotFound.code(), 404);
    assert_eq!(Status::InternalServerError.code(), 500);
    assert_eq!(Status::ServiceUnavailable.code(), 503);
}

#[test]
fn success_envelope() {
    let response = success_response(ResponseData::Token { token: String::from("t") });
    assert_eq!(response.status, Status::Okay);
    assert!(response.success);
    assert!(response.error.is_none());
    assert!(matches!(response.data, ResponseData::Token { token } if token == "t"));
    let empty = success_response(ResponseData::Null);
    assert!(empty.success);
    assert!(matches!(empty.data, ResponseData::Null));
}

#[test]
fn error_envelope() {
    let response = error_response(Status::NotFound, "User not found");
    assert_failure(&response, Status::NotFound, "User not found");
    let blank = error_response(Status::BadRequest, "");
    assert_failure(&blank, Status::BadRequest, "");
}

#[test]
fn handler_runs_on_an_accepted_request() {
    let response = handle_request(Ok(41), |n: i32| {
        success_response(ResponseData::Token { token: format!("{}", n + 1) })
    });
    assert!(matches!(response.data, ResponseData::Token { token } if token == "42"));
}

#[test]
fn handler_is_skipped_on_a_rejected_request() {
    let request: Result<i32, JsonResponse> = Err(rejection());
    let response = handle_request(request, |_| panic!("the handler ran"));
    assert_failure(&response, Status::Forbidden, "Admin access required");
}

#[test]
fn index_reports_the_service_as_running() {
    let response = index(Ok(PublicRequest { state: state("SaltSaltSaltSalt") }));
    assert_eq!(response.status, Status::Okay);
    assert!(response.success);
    assert!(matches!(response.data, ResponseData::Running));
    let request: Result<PublicRequest<u32>, JsonResponse> =
        Err(error_response(Status::ServiceUnavailable, "Failed to connect to database"));
    assert_failure(&index(request), Status::ServiceUnavailable, "Failed to connect to database");
}

#[test]
fn users_are_listed_for_an_administrator() {
    match get_users(Ok(admin(1))) {
        Step::Continue(request) => assert_eq!(request.0.token.user_id, 1),
        Step::Respond(_) => panic!("the route answered early"),
    }
    let request: Result<AdminRequest<u32>, JsonResponse> = Err(rejection());
    assert_failure(&responded(get_users(request)), Status::Forbidden, "Admin access required");
    let response = get_users_listed(vec![user(2), user(1)]);
    assert!(response.success);
    match response.data {
        ResponseData::Users(users) => {
            assert_eq!(users.len(), 2);
            assert_eq!(users[0].id, 2);
            assert_eq!(users[1].username, "user1");
        }
        _ => panic!("the listing holds no users"),
    }
    assert!(matches!(get_users_listed(Vec::new()).data, ResponseData::Users(users) if users.is_empty()));
}

#[test]
fn new_user_gets_a_hashed_password() {
    let data = NewUserData {
        display_name: String::from("New"),
        username: String::from("new"),
        password: String::from("password"),
        is_admin: true,
    };
    match post_new_user(Ok(admin(1)), Some(data)) {
        Step::Continue((request, account)) => {
            assert_eq!(request.0.token.user_id, 1);
            assert_eq!(account.display_name, "New");
            assert_eq!(account.username, "new");
            assert!(account.is_admin);
            assert_eq!(account.password_hash, state("SaltSaltSaltSalt").hash_password("password"));
            assert!(state("x").verify_password(&account.password_hash, "password"));
        }
        Step::Respond(_) => panic!("the route answered early"),
    }
}

#[test]
fn new_user_needs_a_body_and_a_state_that_can_hash() {
    let response = responded(post_new_user(Ok(admin(1)), None));
    assert_failure(&response, Status::BadRequest, "Failed to parse new user data");
    let data = || NewUserData {
        display_name: String::from("New"),
        username: String::from("new"),
        password: String::from("password"),
        is_admin: false,
    };
    let response = responded(post_new_user(Ok(admin_with("short", 1)), Some(data())));
    assert_failure(&response, Status::InternalServerError, "Failed to insert user");
    let request: Result<AdminRequest<u32>, JsonResponse> = Err(rejection());
    let response = responded(post_new_user(request, Some(data())));
    assert_failure(&response, Status::Forbidden, "Admin access required");
}

#[test]
fn new_user_after_the_insertion() {
    assert!(matches!(post_new_user_inserted(admin(1), true), Step::Continue(_)));
    let response = responded(post_new_user_inserted(admin(1), false));
    assert_failure(&response, Status::InternalServerError, "Failed to insert user");
    let response = post_new_user_fetched(Some(user(5)));
    assert!(matches!(response.data, ResponseData::User(stored) if stored.id == 5));
    assert_failure(
        &post_new_user_fetched(None),
        Status::InternalServerError,
        "Failed to insert user",
    );
}

#[test]
fn nobody_deletes_the_own_account() {
    let response = responded(delete_user(Ok(admin(7)), 7));
    assert_failure(&response, Status::Forbidden, "Cannot delete self");
    match delete_user(Ok(admin(7)), 8) {
        Step::Continue((request, user_id)) => {
            assert_eq!(request.0.token.user_id, 7);
            assert_eq!(user_id, 8);
        }
        Step::Respond(_) => panic!("the route answered early"),
    }
    let request: Result<AdminRequest<u32>, JsonResponse> = Err(rejection());
    assert_failure(&responded(delete_user(request, 7)), Status::Forbidden, "Admin access required");
}

#[test]
fn user_deletion_after_the_lookup() {
    let response = responded(delete_user_found(admin(7), None));
    assert_failure(&response, Status::NotFound, "User not found");
    match delete_user_found(admin(7), Some(user(8))) {
        Step::Continue((_, found)) => assert_eq!(found.id, 8),
        Step::Respond(_) => panic!("the route answered early"),
    }
    let response = delete_user_deleted(user(8), true);
    assert!(matches!(response.data, ResponseData::User(gone) if gone.id == 8));
    assert_failure(
        &delete_user_deleted(user(8), false),
        Status::InternalServerError,
        "Failed to delete user",
    );
}

#[test]
fn items_are_listed_for_everyone() {
    let public = || PublicRequest { state: state("SaltSaltSaltSalt") };
    match get_all_items(Ok(public()), Some(String::from("milk"))) {
        Step::Continue((_, query)) => assert_eq!(query.as_deref(), Some("milk")),
        Step::Respond(_) => panic!("the route answered early"),
    }
    match get_all_items(Ok(public()), None) {
        Step::Continue((_, query)) => assert!(query.is_none()),
        Step::Respond(_) => panic!("the route answered early"),
    }
    let request: Result<PublicRequest<u32>, JsonResponse> =
        Err(error_response(Status::ServiceUnavailable, "Failed to connect to database"));
    let response = responded(get_all_items(request, None));
    assert_failure(&response, Status::ServiceUnavailable, "Failed to connect to database");
    let response = get_all_items_loaded(vec![item(3), item(2)]);
    match response.data {
        ResponseData::Items(items) => {
            assert_eq!(items.len(), 2);
            assert_eq!(items[0].name, "Item 3");
            assert_eq!(items[1].default_unit_type, UnitType::Mass);
        }
        _ => panic!("the listing holds no items"),
    }
}

#[test]
fn search_pattern_wraps_the_query() {
    assert_eq!(ShoppingItem::search_pattern("milk"), "%milk%");
    assert_eq!(ShoppingItem::search_pattern(""), "%%");
    assert_eq!(ShoppingItem::search_pattern("50%"), "%50%%");
    assert_eq!(ShoppingItem::search_pattern("caf\u{e9}"), "%caf\u{e9}%");
}

#[test]
fn new_item_steps() {
    let new_item = || NewShoppingItem {
        name: String::from("Flour"),
        description: None,
        image_url: Some(String::from("http://example.org/flour.png")),
        default_unit_type: UnitType::Capacity,
    };
    match post_new_item(Ok(admin(1)), Some(new_item())) {
        Step::Continue((_, item)) => {
            assert_eq!(item.name, "Flour");
            assert!(item.description.is_none());
            assert_eq!(item.image_url.as_deref(), Some("http://example.org/flour.png"));
            assert_eq!(item.default_unit_type, UnitType::Capacity);
        }
        Step::Respond(_) => panic!("the route answered early"),
    }
    let response = responded(post_new_item(Ok(admin(1)), None));
    assert_failure(&response, Status::BadRequest, "Failed to parse new item data");
    let request: Result<AdminRequest<u32>, JsonResponse> = Err(rejection());
    let response = responded(post_new_item(request, Some(new_item())));
    assert_failure(&response, Status::Forbidden, "Admin access required");
    assert!(matches!(post_new_item_inserted(admin(1), true), Step::Continue(_)));
    let response = responded(post_new_item_inserted(admin(1), false));
    assert_failure(&response, Status::InternalServerError, "Failed to insert item");
    let response = post_new_item_fetched(Some(item(9)));
    assert!(matches!(response.data, ResponseData::Item(stored) if stored.id == 9));
    assert_failure(
        &post_new_item_fetched(None),
        Status::InternalServerError,
        "Failed to insert item",
    );
}

#[test]
fn item_deletion_steps() {
    match delete_item(Ok(admin(1)), 12) {
        Step::Continue((_, item_id)) => assert_eq!(item_id, 12),
        Step::Respond(_) => panic!("the route answered early"),
    }
    let request: Result<AdminRequest<u32>, JsonResponse> = Err(rejection());
    assert_failure(&responded(delete_item(request, 12)), Status::Forbidden, "Admin access required");
    let response = responded(delete_item_found(admin(1), None));
    assert_failure(&response, Status::NotFound, "Item not found");
    match delete_item_found(admin(1), Some(item(12))) {
        Step::Continue((_, found)) => assert_eq!(found.id, 12),
        Step::Respond(_) => panic!("the route answered early"),
    }
    let response = delete_item_deleted(item(12), true);
    assert!(matches!(response.data, ResponseData::Item(gone) if gone.id == 12));
    assert_failure(
        &delete_item_deleted(item(12), false),
        Status::InternalServerError,
        "Failed to delete user",
    );
}

#[test]
fn unknown_unit_is_not_found() {
    let error = UnitTypeError::not_found(String::from("no such unit: furlong"));
    assert_eq!(error.msg, "no such unit: furlong");
    assert_eq!(error.status, 404);
}

#[test]
fn user_clone_is_field_for_field() {
    let source = User {
        id: 3,
        display_name: String::from("D"),
        username: String::from("u"),
        password_hash: String::from("h"),
        is_admin: true,
    };
    let copy = source.clone();
    assert_eq!(copy.id, 3);
    assert_eq!(copy.display_name, "D");
    assert_eq!(copy.username, "u");
    assert_eq!(copy.password_hash, "h");
    assert!(copy.is_admin);
    let account = NewUser {
        display_name: String::from("D"),
        username: String::from("u"),
        password_hash: String::from("h"),
        is_admin: false,
    };
    assert_eq!(account.username, "u");
}

#[test]
fn status_of_a_code() {
    for status in [
        Status::Okay,
        Status::BadRequest,
        Status::Unauthorized,
        Status::Forbidden,
        Status::NotFound,
        Status::InternalServerError,
        Status::ServiceUnavailable,
    ] {
        assert_eq!(Status::from_code(status.code()), Some(status));
    }
    assert_eq!(Status::from_code(0), None);
    assert_eq!(Status::from_code(201), None);
    assert_eq!(Status::from_code(402), None);
    assert_eq!(Status::from_code(u16::MAX), None);
}
