//! Issuing and verifying the two kinds of token. A token is a compact signed string
//! around a claims object; the signature is an HMAC-SHA256 under one shared secret.

use crate::claims::{
    accepted_decoding, access_tag, claims_entries, claims_for, decoding_of, entries_of,
    lemma_tags_differ, refresh_tag, AccessJwtToken, ClaimValue, ClaimValueView, ClaimsView,
    DecodedClaims, DecodedClaimsView, RefreshJwtToken,
};
use crate::clock::{clock_limit, get_timestamp_ms};
use crate::models::{User, UserView};
use hmac::{Hmac, Mac};
use jwt::{SignWithKey, VerifyWithKey};
use serde_json::{Number, Value};
use sha2::Sha256;
use vstd::prelude::*;

verus! {

/// How long a refresh token lives, in milliseconds: thirty days.
pub const REFRESH_TOKEN_EXPIRY: u128 = 30 * 24 * 60 * 60 * 1000;

/// How long an access token lives, in milliseconds: five minutes.
pub const ACCESS_TOKEN_EXPIRY: u128 = 5 * 60 * 1000;

/// The symmetric secret under which tokens are signed and verified.
pub struct SigningKey {
    pub secret: Vec<u8>,
}

impl View for SigningKey {
    type V = Seq<u8>;

    open spec fn view(&self) -> Seq<u8> {
        self.secret@
    }
}

impl Clone for SigningKey {
    fn clone(&self) -> (copy: SigningKey)
        ensures
            copy@ == self@,
    {
        SigningKey { secret: self.secret.clone() }
    }
}

/// The token string that the `jwt` crate's signer gives for the claims object with
/// these entries under the HMAC-SHA256 key made of `secret`, or `None` where it reports
/// an error.
pub uninterp spec fn signed_token(
    claims: Seq<(Seq<char>, ClaimValueView)>,
    secret: Seq<u8>,
) -> Option<Seq<char>>;

/// What the `jwt` crate's verifier finds in `token` under the HMAC-SHA256 key made of
/// `secret`: the entries of the claims object of a well-formed token whose signature is
/// valid, or `None` for any other string.
pub uninterp spec fn verified_claims(token: Seq<char>, secret: Seq<u8>) -> Option<
    Seq<(Seq<char>, ClaimValueView)>,
>;

/// Signs a claims object with `jwt::SignWithKey::sign_with_key`. The key comes from
/// `hmac::Mac::new_from_slice`; the claims object is a `serde_json::Map` that holds
/// each entry of `claims` as the JSON value of its kind. The contract claims of the
/// signer that its answer depends on the entries and the secret alone.
#[verifier::external_body]
fn sign_claims(claims: &Vec<(String, ClaimValue)>, secret: &[u8]) -> (token: Option<String>)
    ensures
        token.deep_view() == signed_token(claims.deep_view(), secret@),
{
    let key: Hmac<Sha256> = Hmac::new_from_slice(secret).ok()?;
    let mut object = serde_json::Map::new();
    for (name, value) in claims {
        let json = match value {
            ClaimValue::Text(text) => Value::from(text.as_str()),
            ClaimValue::Unsigned(number) => Value::from(Number::from_u128(*number)?),
            ClaimValue::Signed(number) => Value::from(Number::from_i128(*number)?),
            ClaimValue::Flag(flag) => Value::from(*flag),
            ClaimValue::Other => Value::Null,
        };
        object.insert(name.clone(), json);
    }
    object.sign_with_key(&key).ok()
}

/// Verifies a token with `jwt::VerifyWithKey::verify_with_key`, under the key that
/// `hmac::Mac::new_from_slice` makes of `secret`, and hands out the entries of the
/// claims object, a `serde_json::Map`, each value as the kind it is. The contract
/// claims that the answer depends on the token and the secret alone.
#[verifier::external_body]
fn verify_claims(token: &str, secret: &[u8]) -> (claims: Option<Vec<(String, ClaimValue)>>)
    ensures
        claims.deep_view() == verified_claims(token@, secret@),
{
    let key: Hmac<Sha256> = Hmac::new_from_slice(secret).ok()?;
    let object: serde_json::Map<String, Value> = token.verify_with_key(&key).ok()?;
    let kind = |value| match value {
        Value::String(text) => ClaimValue::Text(text),
        Value::Bool(flag) => ClaimValue::Flag(flag),
        Value::Number(number) => match (number.as_u128(), number.as_i128()) {
            (Some(unsigned), _) => ClaimValue::Unsigned(unsigned),
            (None, Some(signed)) => ClaimValue::Signed(signed),
            (None, None) => ClaimValue::Other,
        },
        _ => ClaimValue::Other,
    };
    Some(object.into_iter().map(|(name, value)| (name, kind(value))).collect())
}

/// What a token decodes to under `secret`. The empty string, which stands for a token
/// that could not be issued, decodes to nothing.
pub open spec fn decoded_token(token: Seq<char>, secret: Seq<u8>) -> Option<DecodedClaimsView> {
    if token.len() == 0 {
        None
    } else {
        match verified_claims(token, secret) {
            Some(claims) => Some(decoding_of(claims)),
            None => None,
        }
    }
}

/// What becomes of a freshly signed `token` once it was decoded again: it is handed out
/// where it decoded to exactly the claims it was signed for, and replaced by the empty
/// string in every other case.
pub open spec fn confirmed_token(
    token: Seq<char>,
    decoded: Option<DecodedClaimsView>,
    claims: ClaimsView,
) -> Seq<char> {
    if decoded == Some(DecodedClaimsView::of(claims)) {
        token
    } else {
        Seq::empty()
    }
}

/// The token that is handed out for `claims` under `secret`: the signer's token, where
/// it gave one and that token decodes back to `claims` under the same secret; the empty
/// string in every other case.
pub open spec fn issued_token(claims: ClaimsView, secret: Seq<u8>) -> Seq<char> {
    match signed_token(entries_of(claims), secret) {
        Some(token) => confirmed_token(token, decoded_token(token, secret), claims),
        None => Seq::empty(),
    }
}

/// The claims that `token` is accepted with, by an endpoint that expects tokens tagged
/// `tag`, when the clock reads `now`. A bad signature, a wrong tag and a passed expiry
/// all give the same `None`.
pub open spec fn accepted_claims(token: Seq<char>, secret: Seq<u8>, tag: Seq<char>, now: u128)
    -> Option<ClaimsView> {
    accepted_decoding(decoded_token(token, secret), tag, now)
}

/// The claims of the access token issued to `user` when the clock reads `now`.
pub open spec fn access_claims(user: UserView, now: u128) -> ClaimsView {
    claims_for(access_tag(), user, (now + ACCESS_TOKEN_EXPIRY) as u128)
}

/// The claims of the refresh token issued to `user` when the clock reads `now`.
pub open spec fn refresh_claims(user: UserView, now: u128) -> ClaimsView {
    claims_for(refresh_tag(), user, (now + REFRESH_TOKEN_EXPIRY) as u128)
}

/// Decodes `token` under `key`: the claims of a well-formed token with a valid
/// signature. The empty string is turned down without a look at the key.
pub fn decode_token(token: &str, key: &SigningKey) -> (decoded: Option<DecodedClaims>)
    ensures
        decoded.deep_view() == decoded_token(token@, key@),
{
    if token.is_empty() {
        None
    } else {
        match verify_claims(token, key.secret.as_slice()) {
            Some(claims) => Some(DecodedClaims::from_entries(&claims)),
            None => None,
        }
    }
}

/// Whether a decoding holds exactly the claims tagged `tag` for `user` with expiry `exp`.
fn decodes_to(decoded: &DecodedClaims, tag: &str, user: &User, exp: u128) -> (same: bool)
    ensures
        same == (decoded@ == DecodedClaimsView::of(claims_for(tag@, user@, exp))),
{
    let tag_matches = match &decoded.token_type {
        Some(t) => *t == tag.to_owned(),
        None => false,
    };
    let name_matches = match &decoded.display_name {
        Some(n) => *n == user.display_name,
        None => false,
    };
    let exp_matches = match decoded.exp {
        Some(e) => e == exp,
        None => false,
    };
    let id_matches = match decoded.user_id {
        Some(id) => id == user.id,
        None => false,
    };
    let admin_matches = match decoded.is_admin {
        Some(a) => a == user.is_admin,
        None => false,
    };
    tag_matches && name_matches && exp_matches && id_matches && admin_matches
}

/// Decides what is handed out for a freshly signed `token`, given what it decoded to:
/// the token itself where that is exactly the claims tagged `tag` for `user` with
/// expiry `exp`, and the empty string, which no endpoint accepts, in every other case.
pub fn confirm_token(
    token: String,
    decoded: Option<DecodedClaims>,
    tag: &str,
    user: &User,
    exp: u128,
) -> (handed_out: String)
    ensures
        handed_out@ == confirmed_token(token@, decoded.deep_view(), claims_for(tag@, user@, exp)),
{
    match decoded {
        Some(claims) => {
            if decodes_to(&claims, tag, user, exp) {
                token
            } else {
                String::new()
            }
        },
        None => String::new(),
    }
}

/// Signs the claims tagged `tag` for `user` with expiry `exp`, and hands the token out
/// only after it has been decoded back to the same claims under the same key.
fn issue(tag: &str, user: &User, exp: u128, key: &SigningKey) -> (token: String)
    ensures
        token@ == issued_token(claims_for(tag@, user@, exp), key@),
{
    let claims = claims_entries(tag, user, exp);
    match sign_claims(&claims, key.secret.as_slice()) {
        Some(token) => {
            let decoded = decode_token(token.as_str(), key);
            confirm_token(token, decoded, tag, user, exp)
        },
        None => String::new(),
    }
}

/// Issues a refresh token for `user` at clock reading `now`. The token expires
/// [`REFRESH_TOKEN_EXPIRY`] milliseconds later. The empty string stands for a token that
/// could not be issued.
pub fn generate_refresh_token_at(user: &User, key: &SigningKey, now: u128) -> (token: String)
    requires
        now + REFRESH_TOKEN_EXPIRY <= u128::MAX,
    ensures
        token@ == issued_token(refresh_claims(user@, now), key@),
{
    issue("refresh", user, now + REFRESH_TOKEN_EXPIRY, key)
}

/// Issues an access token for `user` at clock reading `now`. The token expires
/// [`ACCESS_TOKEN_EXPIRY`] milliseconds later. The empty string stands for a token that
/// could not be issued.
pub fn generate_access_token_at(user: &User, key: &SigningKey, now: u128) -> (token: String)
    requires
        now + ACCESS_TOKEN_EXPIRY <= u128::MAX,
    ensures
        token@ == issued_token(access_claims(user@, now), key@),
{
    issue("access", user, now + ACCESS_TOKEN_EXPIRY, key)
}

/// Verifies a refresh token at clock reading `now`: its claims, where the signature is
/// valid under `key`, the token is tagged as a refresh token and has not expired.
pub fn verify_refresh_token_at(token: &str, key: &SigningKey, now: u128) -> (claims: Option<
    RefreshJwtToken,
>)
    ensures
        claims.deep_view() == accepted_claims(token@, key@, refresh_tag(), now),
{
    RefreshJwtToken::from_decoded(decode_token(token, key), now)
}

/// Verifies an access token at clock reading `now`: its claims, where the signature is
/// valid under `key`, the token is tagged as an access token and has not expired.
pub fn verify_access_token_at(token: &str, key: &SigningKey, now: u128) -> (claims: Option<
    AccessJwtToken,
>)
    ensures
        claims.deep_view() == accepted_claims(token@, key@, access_tag(), now),
{
    AccessJwtToken::from_decoded(decode_token(token, key), now)
}

/// Issues a refresh token for `user` at the wall clock's reading. The result is that of
/// [`generate_refresh_token_at`] for the reading taken during the call.
pub fn generate_refresh_token(user: &User, key: &SigningKey) -> (token: String)
    ensures
        exists|now: u128|
            now <= clock_limit() && token@ == issued_token(
                #[trigger] refresh_claims(user@, now),
                key@,
            ),
{
    let now: u128 = get_timestamp_ms();
    generate_refresh_token_at(user, key, now)
}

/// Issues an access token for `user` at the wall clock's reading. The result is that of
/// [`generate_access_token_at`] for the reading taken during the call.
pub fn generate_access_token(user: &User, key: &SigningKey) -> (token: String)
    ensures
        exists|now: u128|
            now <= clock_limit() && token@ == issued_token(
                #[trigger] access_claims(user@, now),
                key@,
            ),
{
    let now: u128 = get_timestamp_ms();
    generate_access_token_at(user, key, now)
}

/// Verifies a refresh token against the wall clock. The result is that of
/// [`verify_refresh_token_at`] for the reading taken during the call.
pub fn verify_refresh_token(token: &str, key: &SigningKey) -> (claims: Option<RefreshJwtToken>)
    ensures
        exists|now: u128|
            now <= clock_limit() && claims.deep_view() == #[trigger] accepted_claims(
                token@,
                key@,
                refresh_tag(),
                now,
            ),
{
    let now: u128 = get_timestamp_ms();
    verify_refresh_token_at(token, key, now)
}

/// Verifies an access token against the wall clock. The result is that of
/// [`verify_access_token_at`] for the reading taken during the call.
pub fn verify_access_token(token: &str, key: &SigningKey) -> (claims: Option<AccessJwtToken>)
    ensures
        exists|now: u128|
            now <= clock_limit() && claims.deep_view() == #[trigger] accepted_claims(
                token@,
                key@,
                access_tag(),
                now,
            ),
{
    let now: u128 = get_timestamp_ms();
    verify_access_token_at(token, key, now)
}

/// Nothing is accepted on trust. Whatever an endpoint accepts is a non-empty token that
/// the verifier found well-formed and rightly signed under the secret, is tagged as the
/// endpoint expects, and expires strictly after the clock's reading.
pub proof fn lemma_accepted_claims_are_checked(
    token: Seq<char>,
    secret: Seq<u8>,
    tag: Seq<char>,
    now: u128,
)
    requires
        accepted_claims(token, secret, tag, now) is Some,
    ensures
        token.len() > 0,
        verified_claims(token, secret) is Some,
        accepted_claims(token, secret, tag, now)->0.token_type == tag,
        now < accepted_claims(token, secret, tag, now)->0.exp,
{
}

/// A token that was issued decodes, under the secret it was issued with, to exactly the
/// claims it was issued for.
pub proof fn lemma_issued_token_decodes(claims: ClaimsView, secret: Seq<u8>)
    requires
        issued_token(claims, secret).len() > 0,
    ensures
        decoded_token(issued_token(claims, secret), secret) == Some(DecodedClaimsView::of(claims)),
        DecodedClaimsView::of(claims).complete(),
        DecodedClaimsView::of(claims).claims() == claims,
{
}

/// Expiry is a sharp boundary. A token issued for `claims` is accepted, by the endpoint
/// that expects its tag, at every clock reading strictly before `claims.exp`, and then
/// with exactly the claims it was issued for; from `claims.exp` on it is rejected.
pub proof fn lemma_accepted_until_expiry(claims: ClaimsView, secret: Seq<u8>, now: u128)
    ensures
        now >= claims.exp ==> accepted_claims(
            issued_token(claims, secret),
            secret,
            claims.token_type,
            now,
        ) is None,
        now < claims.exp && issued_token(claims, secret).len() > 0 ==> accepted_claims(
            issued_token(claims, secret),
            secret,
            claims.token_type,
            now,
        ) == Some(claims),
{
    if issued_token(claims, secret).len() > 0 {
        lemma_issued_token_decodes(claims, secret);
    }
}

/// A token is rejected by every endpoint that expects another tag than the one it was
/// issued with, whatever the clock reads.
pub proof fn lemma_other_tag_rejected(
    claims: ClaimsView,
    secret: Seq<u8>,
    tag: Seq<char>,
    now: u128,
)
    requires
        tag != claims.token_type,
    ensures
        accepted_claims(issued_token(claims, secret), secret, tag, now) is None,
{
    if issued_token(claims, secret).len() > 0 {
        lemma_issued_token_decodes(claims, secret);
    }
}

/// Verifying an issued access token gives back the user it was issued to: the same
/// identifier, display name and admin flag, for every clock reading before its expiry.
pub proof fn lemma_access_token_round_trip(
    user: UserView,
    secret: Seq<u8>,
    issued_at: u128,
    verified_at: u128,
)
    requires
        issued_at + ACCESS_TOKEN_EXPIRY <= u128::MAX,
        verified_at < issued_at + ACCESS_TOKEN_EXPIRY,
        issued_token(access_claims(user, issued_at), secret).len() > 0,
    ensures
        accepted_claims(
            issued_token(access_claims(user, issued_at), secret),
            secret,
            access_tag(),
            verified_at,
        ) matches Some(claims) && claims.user_id == user.id && claims.is_admin == user.is_admin
            && claims.display_name == user.display_name && claims.exp == issued_at
            + ACCESS_TOKEN_EXPIRY,
{
    lemma_accepted_until_expiry(access_claims(user, issued_at), secret, verified_at);
}

/// Verifying an issued refresh token gives back the user it was issued to, for every
/// clock reading before its expiry.
pub proof fn lemma_refresh_token_round_trip(
    user: UserView,
    secret: Seq<u8>,
    issued_at: u128,
    verified_at: u128,
)
    requires
        issued_at + REFRESH_TOKEN_EXPIRY <= u128::MAX,
        verified_at < issued_at + REFRESH_TOKEN_EXPIRY,
        issued_token(refresh_claims(user, issued_at), secret).len() > 0,
    ensures
        accepted_claims(
            issued_token(refresh_claims(user, issued_at), secret),
            secret,
            refresh_tag(),
            verified_at,
        ) matches Some(claims) && claims.user_id == user.id && claims.is_admin == user.is_admin
            && claims.display_name == user.display_name && claims.exp == issued_at
            + REFRESH_TOKEN_EXPIRY,
{
    lemma_accepted_until_expiry(refresh_claims(user, issued_at), secret, verified_at);
}

/// A token issued with a time to live is rejected from the instant that lies that long
/// after its issuance, and accepted at every instant before it.
pub proof fn lemma_access_token_lifetime(
    user: UserView,
    secret: Seq<u8>,
    issued_at: u128,
    verified_at: u128,
)
    requires
        issued_at + ACCESS_TOKEN_EXPIRY <= u128::MAX,
    ensures
        verified_at >= issued_at + ACCESS_TOKEN_EXPIRY ==> accepted_claims(
            issued_token(access_claims(user, issued_at), secret),
            secret,
            access_tag(),
            verified_at,
        ) is None,
        verified_at < issued_at + ACCESS_TOKEN_EXPIRY && issued_token(
            access_claims(user, issued_at),
            secret,
        ).len() > 0 ==> accepted_claims(
            issued_token(access_claims(user, issued_at), secret),
            secret,
            access_tag(),
            verified_at,
        ) is Some,
{
    lemma_accepted_until_expiry(access_claims(user, issued_at), secret, verified_at);
}

/// The refresh token's lifetime has the same sharp boundary.
pub proof fn lemma_refresh_token_lifetime(
    user: UserView,
    secret: Seq<u8>,
    issued_at: u128,
    verified_at: u128,
)
    requires
        issued_at + REFRESH_TOKEN_EXPIRY <= u128::MAX,
    ensures
        verified_at >= issued_at + REFRESH_TOKEN_EXPIRY ==> accepted_claims(
            issued_token(refresh_claims(user, issued_at), secret),
            secret,
            refresh_tag(),
            verified_at,
        ) is None,
        verified_at < issued_at + REFRESH_TOKEN_EXPIRY && issued_token(
            refresh_claims(user, issued_at),
            secret,
        ).len() > 0 ==> accepted_claims(
            issued_token(refresh_claims(user, issued_at), secret),
            secret,
            refresh_tag(),
            verified_at,
        ) is Some,
{
    lemma_accepted_until_expiry(refresh_claims(user, issued_at), secret, verified_at);
}

/// A refresh token never passes for an access token, nor an access token for a refresh
/// token, whenever it was issued and whatever the clock reads.
pub proof fn lemma_no_type_confusion(
    user: UserView,
    secret: Seq<u8>,
    issued_at: u128,
    verified_at: u128,
)
    ensures
        accepted_claims(
            issued_token(refresh_claims(user, issued_at), secret),
            secret,
            access_tag(),
            verified_at,
        ) is None,
        accepted_claims(
            issued_token(access_claims(user, issued_at), secret),
            secret,
            refresh_tag(),
            verified_at,
        ) is None,
{
    lemma_tags_differ();
    lemma_other_tag_rejected(refresh_claims(user, issued_at), secret, access_tag(), verified_at);
    lemma_other_tag_rejected(access_claims(user, issued_at), secret, refresh_tag(), verified_at);
}

} // verus!
