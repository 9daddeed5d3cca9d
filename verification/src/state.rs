//! The state that the application keeps and hands to each request, and the password
//! hash that works with its salt and parameters.

use crate::models::{NewUser, NewUserView};
use crate::outcome::Outcome;
use crate::responses::Status;
use crate::token::SigningKey;
use vstd::prelude::*;
use vstd::utf8::encode_utf8;

verus! {

/// The cost parameters of the password hash. All of them are explicit.
#[derive(Clone, Copy, Debug, PartialEq, Eq, Structural)]
pub struct HashConfig {
    /// The number of passes over the memory.
    pub time_cost: u32,
    /// The memory used, in KiB.
    pub mem_cost: u32,
    /// The number of lanes.
    pub lanes: u32,
    /// The length of the raw hash, in bytes.
    pub hash_length: u32,
}

impl HashConfig {
    /// The most memory, in KiB, that the hash function takes on this machine.
    pub open spec fn memory_limit() -> int {
        if usize::MAX > 0xFFFF_FFFF {
            0xFFFF_FFFF
        } else {
            0x20_0000
        }
    }

    /// The parameters lie in the ranges that the hash function takes.
    pub open spec fn valid(self) -> bool {
        &&& 1 <= self.lanes <= 0x00FF_FFFF
        &&& 8 * self.lanes <= self.mem_cost <= Self::memory_limit()
        &&& 1 <= self.time_cost
        &&& 4 <= self.hash_length
    }

    /// Tests the parameters against the ranges that the hash function takes.
    pub fn is_valid(&self) -> (valid: bool)
        ensures
            valid == self.valid(),
    {
        let memory_limit: u32 = if usize::MAX > 0xFFFF_FFFF {
            0xFFFF_FFFF
        } else {
            0x20_0000
        };
        1 <= self.lanes && self.lanes <= 0x00FF_FFFF && 8 * self.lanes <= self.mem_cost
            && self.mem_cost <= memory_limit && 1 <= self.time_cost && 4 <= self.hash_length
    }
}

/// Whether `password` can be hashed with `salt` under `config`: the parameters are
/// valid, the salt has at least eight bytes, and neither string is longer than the hash
/// function takes.
pub open spec fn hashable(password: Seq<char>, salt: Seq<char>, config: HashConfig) -> bool {
    &&& config.valid()
    &&& encode_utf8(password).len() <= 0xFFFF_FFFF
    &&& 8 <= encode_utf8(salt).len() <= 0xFFFF_FFFF
}

/// The encoded hash that `argon2::hash_encoded` gives for a password and a salt under
/// these cost parameters, with every other setting at the crate's default; `None` where
/// it reports an error.
pub uninterp spec fn argon2_encoded(
    password: Seq<char>,
    salt: Seq<char>,
    time_cost: u32,
    mem_cost: u32,
    lanes: u32,
    hash_length: u32,
) -> Option<Seq<char>>;

/// What `argon2::verify_encoded` says of an encoded hash and a password: whether they
/// match, or `None` where it reports an error, as it does for a string that is no
/// encoded hash.
pub uninterp spec fn argon2_verified(encoded: Seq<char>, password: Seq<char>) -> Option<bool>;

/// Hashes with `argon2::hash_encoded`. The contract claims that the answer depends on
/// the arguments alone, and that the call succeeds on every input that passes the
/// range checks with which the crate's `Context::new` begins. The memory that the call
/// takes grows with `mem_cost`.
#[verifier::external_body]
fn argon2_hash(password: &str, salt: &str, config: &HashConfig) -> (encoded: Option<String>)
    ensures
        encoded.deep_view() == argon2_encoded(
            password@,
            salt@,
            config.time_cost,
            config.mem_cost,
            config.lanes,
            config.hash_length,
        ),
        hashable(password@, salt@, *config) ==> encoded is Some,
{
    let config = argon2::Config {
        time_cost: config.time_cost,
        mem_cost: config.mem_cost,
        lanes: config.lanes,
        hash_length: config.hash_length,
        ..argon2::Config::default()
    };
    argon2::hash_encoded(password.as_bytes(), salt.as_bytes(), &config).ok()
}

/// Verifies with `argon2::verify_encoded`. The contract claims that the answer depends
/// on the arguments alone. The call takes the memory and the threads that the
/// parameters inside `encoded` ask for.
#[verifier::external_body]
fn argon2_verify(encoded: &str, password: &str) -> (matches: Option<bool>)
    ensures
        matches == argon2_verified(encoded@, password@),
{
    argon2::verify_encoded(encoded, password.as_bytes()).ok()
}

/// The hash stored for `password` under `salt` and `config`, where one can be made.
pub open spec fn password_hash(password: Seq<char>, salt: Seq<char>, config: HashConfig) -> Option<
    Seq<char>,
> {
    if hashable(password, salt, config) {
        argon2_encoded(
            password,
            salt,
            config.time_cost,
            config.mem_cost,
            config.lanes,
            config.hash_length,
        )
    } else {
        None
    }
}

/// Whether `password` is the one that `hash` was made of. A string that is no encoded
/// hash, the empty string among them, matches no password.
pub open spec fn password_matches(hash: Seq<char>, password: Seq<char>) -> bool {
    hash.len() > 0 && argon2_verified(hash, password) == Some(true)
}

/// Reads the answer of the hash function's verifier: only its plain yes is a match. Its
/// no and its refusal to read the hash are both none.
pub fn is_match(verdict: Option<bool>) -> (matches: bool)
    ensures
        matches == (verdict == Some(true)),
{
    match verdict {
        Some(matches) => matches,
        None => false,
    }
}

/// What one request works with: its own database connection, and copies of the salt,
/// the hash parameters and the signing key of the application.
pub struct StateInstance<C> {
    pub connection: C,
    pub pwd_salt: String,
    pub pwd_config: HashConfig,
    pub jwt_key: SigningKey,
}

/// A [`StateInstance`] as mathematical values.
pub struct StateInstanceView<C> {
    pub connection: C,
    pub pwd_salt: Seq<char>,
    pub pwd_config: HashConfig,
    pub jwt_key: Seq<u8>,
}

impl<C> View for StateInstance<C> {
    type V = StateInstanceView<C>;

    open spec fn view(&self) -> StateInstanceView<C> {
        StateInstanceView {
            connection: self.connection,
            pwd_salt: self.pwd_salt@,
            pwd_config: self.pwd_config,
            jwt_key: self.jwt_key@,
        }
    }
}

impl<C> StateInstance<C> {
    /// Whether this state can hash `password`.
    pub open spec fn can_hash(&self, password: Seq<char>) -> bool {
        hashable(password, self.pwd_salt@, self.pwd_config)
    }

    /// Tests whether this state can hash `password`.
    pub fn accepts_password(&self, password: &str) -> (accepted: bool)
        ensures
            accepted == self.can_hash(password@),
    {
        let password_length: usize = password.as_bytes().len();
        let salt_length: usize = self.pwd_salt.as_str().as_bytes().len();
        self.pwd_config.is_valid() && password_length <= 0xFFFF_FFFF && 8 <= salt_length
            && salt_length <= 0xFFFF_FFFF
    }

    /// Hashes `password` with the salt and the parameters of this state.
    pub fn hash_password(&self, password: &str) -> (hash: String)
        requires
            self.can_hash(password@),
        ensures
            Some(hash@) == password_hash(password@, self.pwd_salt@, self.pwd_config),
    {
        argon2_hash(password, self.pwd_salt.as_str(), &self.pwd_config).unwrap()
    }

    /// Hashes `password` where this state can hash it, and gives `None` where it
    /// cannot.
    pub fn try_hash_password(&self, password: &str) -> (hash: Option<String>)
        ensures
            hash.deep_view() == password_hash(password@, self.pwd_salt@, self.pwd_config),
            hash is Some <==> self.can_hash(password@),
    {
        if self.accepts_password(password) {
            Some(self.hash_password(password))
        } else {
            None
        }
    }

    /// Whether `password` is the one that `hash` was made of. A `hash` that is no
    /// encoded hash gives `false`, as a wrong password does.
    pub fn verify_password(&self, hash: &str, password: &str) -> (matches: bool)
        ensures
            matches == password_matches(hash@, password@),
    {
        if hash.is_empty() {
            false
        } else {
            is_match(argon2_verify(hash, password))
        }
    }
}

/// What the application keeps for its whole life: the connection pool, the salt, the
/// hash parameters and the signing key. None of them changes after start-up.
pub struct ApplicationState<P> {
    pub connection_pool: P,
    pub pwd_salt: String,
    pub pwd_config: HashConfig,
    pub jwt_key: SigningKey,
}

impl<P> ApplicationState<P> {
    /// The state for one request, around the connection that the pool gave for it.
    /// Without a connection there is no state.
    pub fn get_instance<C>(&self, connection: Option<C>) -> (instance: Result<StateInstance<C>, ()>)
        ensures
            match connection {
                Some(c) => instance matches Ok(state) && state@ == (StateInstanceView {
                    connection: c,
                    pwd_salt: self.pwd_salt@,
                    pwd_config: self.pwd_config,
                    jwt_key: self.jwt_key@,
                }),
                None => instance is Err,
            },
    {
        match connection {
            Some(conn) => Ok(
                StateInstance {
                    connection: conn,
                    pwd_salt: self.pwd_salt.clone(),
                    pwd_config: self.pwd_config,
                    jwt_key: self.jwt_key.clone(),
                },
            ),
            None => Err(()),
        }
    }
}

impl<C> StateInstance<C> {
    /// Provisions the state of a request from what the application state gave: a state
    /// that could not get its connection turns the request down as service unavailable;
    /// a failure to reach the application state, and a forward, pass through unchanged.
    pub fn from_request<F>(
        state: Outcome<Result<StateInstance<C>, ()>, (Status, ()), F>,
    ) -> (provisioned: Outcome<StateInstance<C>, (Status, ()), F>)
        ensures
            provisioned == match state {
                Outcome::Success(Ok(instance)) => Outcome::Success(instance),
                Outcome::Success(Err(_)) => Outcome::Failure((Status::ServiceUnavailable, ())),
                Outcome::Failure(error) => Outcome::Failure(error),
                Outcome::Forward(forward) => Outcome::Forward(forward),
            },
    {
        match state {
            Outcome::Success(instance) => match instance {
                Ok(inst) => Outcome::Success(inst),
                Err(_) => Outcome::Failure((Status::ServiceUnavailable, ())),
            },
            Outcome::Failure(err) => Outcome::Failure(err),
            Outcome::Forward(fwd) => Outcome::Forward(fwd),
        }
    }
}

/// The administrator account that start-up stores where none with this username
/// exists yet.
pub open spec fn super_user<C>(
    state: &StateInstance<C>,
    username: Seq<char>,
    password: Seq<char>,
) -> NewUserView
    recommends
        state.can_hash(password),
{
    NewUserView {
        display_name: "Super User"@,
        username,
        password_hash: password_hash(password, state.pwd_salt@, state.pwd_config)->0,
        is_admin: true,
    }
}

/// Decides what start-up does about the administrator account. Where an account with
/// this username is stored already, nothing: the step can run any number of times.
/// Where none is, the account to store in place of all administrators.
pub fn create_super_user<C>(
    state: &StateInstance<C>,
    username: String,
    password: &str,
    stored: bool,
) -> (account: Option<NewUser>)
    requires
        !stored ==> state.can_hash(password@),
    ensures
        stored ==> account is None,
        !stored ==> account.deep_view() == Some(super_user(state, username@, password@)),
{
    if stored {
        None
    } else {
        Some(
            NewUser {
                display_name: "Super User".to_owned(),
                username,
                password_hash: state.hash_password(password),
                is_admin: true,
            },
        )
    }
}

/// Verifying a password is repeatable: two answers for the same hash and the same
/// password are the same answer.
pub proof fn lemma_verify_is_repeatable(
    hash: Seq<char>,
    password: Seq<char>,
    first: bool,
    second: bool,
)
    requires
        first == password_matches(hash, password),
        second == password_matches(hash, password),
    ensures
        first == second,
{
}

/// A hash that is malformed matches no password: neither the empty string nor any
/// string that the hash function does not read as an encoded hash.
pub proof fn lemma_malformed_hash_matches_nothing(hash: Seq<char>, password: Seq<char>)
    requires
        hash.len() == 0 || argon2_verified(hash, password) is None,
    ensures
        !password_matches(hash, password),
{
}

} // verus!
