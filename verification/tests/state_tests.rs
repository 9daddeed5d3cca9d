use api_service::outcome::Outcome;
use api_service::responses::Status;
use api_service::state::{create_super_user, ApplicationState, HashConfig, StateInstance};
use api_service::token::SigningKey;

const KNOWN_HASH: &str =
    "$argon2i$v=19$m=4096,t=3,p=1$c29tZXNhbHQ$iWh06vD8Fy27wf9npn6FXWiCX4K6pW6Ue1Bnzz07Z8A";

fn config() -> HashConfig {
    HashConfig { time_cost: 3, mem_cost: 4096, lanes: 1, hash_length: 32 }
}

fn state_with(salt: &str, pwd_config: HashConfig) -> StateInstance<()> {
    StateInstance {
        connection: (),
        pwd_salt: String::from(salt),
        pwd_config,
        jwt_key: SigningKey { secret: b"secret-key".to_vec() },
    }
}

fn state() -> StateInstance<()> {
    state_with("somesalt", config())
}

#[test]
fn hash_has_its_known_value() {
    assert_eq!(state().hash_password("password"), KNOWN_HASH);
    assert_eq!(state().try_hash_password("password"), Some(String::from(KNOWN_HASH)));
}

#[test]
fn hash_is_repeatable_and_depends_on_every_input() {
    let first = state().hash_password("password");
    assert_eq!(first, state().hash_password("password"));
    assert_ne!(first, state().hash_password("Password"));
    assert_ne!(first, state_with("othersalt", config()).hash_password("password"));
    let cheaper = HashConfig { time_cost: 2, ..config() };
    assert_ne!(first, state_with("somesalt", cheaper).hash_password("password"));
    let smaller = HashConfig { mem_cost: 2048, ..config() };
    assert_ne!(first, state_with("somesalt", smaller).hash_password("password"));
    let wider = HashConfig { lanes: 2, ..config() };
    assert_ne!(first, state_with("somesalt", wider).hash_password("password"));
    let longer = HashConfig { hash_length: 48, ..config() };
    assert_ne!(first, state_with("somesalt", longer).hash_password("password"));
}

#[test]
fn hash_writes_its_parameters_into_the_encoding() {
    let custom = HashConfig { time_cost: 2, mem_cost: 64, lanes: 2, hash_length: 16 };
    let hash = state_with("SaltSaltSaltSalt", custom).hash_password("pw");
    assert!(hash.starts_with("$argon2i$v=19$m=64,t=2,p=2$U2FsdFNhbHRTYWx0U2FsdA$"));
    assert!(state().verify_password(&hash, "pw"));
}

#[test]
fn empty_password_can_be_hashed() {
    let hash = state().hash_password("");
    assert!(state().verify_password(&hash, ""));
    assert!(!state().verify_password(&hash, " "));
}

#[test]
fn right_password_matches() {
    assert!(state().verify_password(KNOWN_HASH, "password"));
    let hash = state_with("SaltSaltSaltSalt", config()).hash_password("s\u{e9}same \u{1F511}");
    assert!(state().verify_password(&hash, "s\u{e9}same \u{1F511}"));
}

#[test]
fn wrong_password_does_not_match() {
    assert!(!state().verify_password(KNOWN_HASH, "Password"));
    assert!(!state().verify_password(KNOWN_HASH, ""));
    assert!(!state().verify_password(KNOWN_HASH, "password "));
}

#[test]
fn malformed_hash_matches_nothing() {
    for hash in [
        "",
        "password",
        "$",
        "$$$$$",
        "$argon2i$v=19$m=4096,t=3,p=1$c29tZXNhbHQ",
        "$argon2x$v=19$m=4096,t=3,p=1$c29tZXNhbHQ$iWh06vD8Fy27wf9npn6FXWiCX4K6pW6Ue1Bnzz07Z8A",
        "$argon2i$v=19$m=4096,t=0,p=1$c29tZXNhbHQ$iWh06vD8Fy27wf9npn6FXWiCX4K6pW6Ue1Bnzz07Z8A",
        "$argon2i$v=19$m=4096,t=3,p=1$c29tZXNhbHQ$!!!!",
        "x$argon2i$v=19$m=4096,t=3,p=1$c29tZXNhbHQ$iWh06vD8Fy27wf9npn6FXWiCX4K6pW6Ue1Bnzz07Z8A",
    ] {
        assert!(!state().verify_password(hash, "password"));
        assert!(!state().verify_password(hash, ""));
    }
}

#[test]
fn verifying_is_repeatable() {
    for _ in 0..3 {
        assert!(state().verify_password(KNOWN_HASH, "password"));
        assert!(!state().verify_password(KNOWN_HASH, "wrong"));
        assert!(!state().verify_password("", "password"));
    }
}

#[test]
fn config_ranges() {
    assert!(config().is_valid());
    assert!(HashConfig { time_cost: 1, mem_cost: 8, lanes: 1, hash_length: 4 }.is_valid());
    assert!(!HashConfig { time_cost: 0, ..config() }.is_valid());
    assert!(!HashConfig { lanes: 0, ..config() }.is_valid());
    assert!(!HashConfig { lanes: 0x0100_0000, mem_cost: u32::MAX, ..config() }.is_valid());
    assert!(!HashConfig { mem_cost: 7, ..config() }.is_valid());
    assert!(!HashConfig { mem_cost: 15, lanes: 2, ..config() }.is_valid());
    assert!(HashConfig { mem_cost: 16, lanes: 2, ..config() }.is_valid());
    assert!(!HashConfig { hash_length: 3, ..config() }.is_valid());
    assert!(HashConfig { time_cost: u32::MAX, ..config() }.is_valid());
}

#[test]
fn state_that_cannot_hash_says_so() {
    assert!(state().accepts_password("password"));
    assert!(state_with("8 bytes!", config()).accepts_password(""));
    assert!(!state_with("7 bytes", config()).accepts_password("password"));
    assert!(!state_with("", config()).accepts_password("password"));
    assert!(!state_with("somesalt", HashConfig { time_cost: 0, ..config() }).accepts_password("p"));
    assert_eq!(state_with("short", config()).try_hash_password("password"), None);
    assert_eq!(
        state_with("somesalt", HashConfig { mem_cost: 1, ..config() }).try_hash_password("p"),
        None
    );
}

#[test]
fn salt_length_counts_bytes() {
    assert!(state_with("\u{e9}\u{e9}\u{e9}\u{e9}", config()).accepts_password("x"));
    assert!(!state_with("\u{e9}\u{e9}\u{e9}", config()).accepts_password("x"));
}

#[test]
fn instance_copies_the_application_state() {
    let application = ApplicationState {
        connection_pool: "pool",
        pwd_salt: String::from("SaltSaltSaltSalt"),
        pwd_config: config(),
        jwt_key: SigningKey { secret: b"secret-key".to_vec() },
    };
    let instance = application.get_instance(Some(17u8)).unwrap();
    assert_eq!(instance.connection, 17);
    assert_eq!(instance.pwd_salt, "SaltSaltSaltSalt");
    assert_eq!(instance.pwd_config, config());
    assert_eq!(instance.jwt_key.secret, b"secret-key".to_vec());
    assert_eq!(application.connection_pool, "pool");
}

#[test]
fn instance_needs_a_connection() {
    let application = ApplicationState {
        connection_pool: (),
        pwd_salt: String::from("SaltSaltSaltSalt"),
        pwd_config: config(),
        jwt_key: SigningKey { secret: b"secret-key".to_vec() },
    };
    let none: Option<u8> = None;
    assert!(application.get_instance(none).is_err());
}

#[test]
fn provisioning_maps_the_four_cases() {
    let reached: Outcome<Result<StateInstance<()>, ()>, (Status, ()), u16> =
        Outcome::Success(Ok(state()));
    match StateInstance::from_request(reached) {
        Outcome::Success(instance) => assert_eq!(instance.pwd_salt, "somesalt"),
        _ => panic!("provisioning did not succeed"),
    }
    let exhausted: Outcome<Result<StateInstance<()>, ()>, (Status, ()), u16> =
        Outcome::Success(Err(()));
    match StateInstance::from_request(exhausted) {
        Outcome::Failure((status, ())) => {
            assert_eq!(status, Status::ServiceUnavailable);
            assert_eq!(status.code(), 503);
        }
        _ => panic!("a state without a connection was not turned down"),
    }
    let unreachable: Outcome<Result<StateInstance<()>, ()>, (Status, ()), u16> =
        Outcome::Failure((Status::InternalServerError, ()));
    match StateInstance::from_request(unreachable) {
        Outcome::Failure((status, ())) => assert_eq!(status, Status::InternalServerError),
        _ => panic!("a failure did not stay a failure"),
    }
    let forwarded: Outcome<Result<StateInstance<()>, ()>, (Status, ()), u16> =
        Outcome::Forward(404);
    assert!(matches!(StateInstance::from_request(forwarded), Outcome::Forward(404)));
}

#[test]
fn super_user_is_made_once() {
    let account = create_super_user(&state(), String::from("root"), "password", false).unwrap();
    assert_eq!(account.display_name, "Super User");
    assert_eq!(account.username, "root");
    assert_eq!(account.password_hash, KNOWN_HASH);
    assert!(account.is_admin);
    assert!(create_super_user(&state(), String::from("root"), "password", true).is_none());
}
