//! The claims that a token carries, the claims object they are written into, and the
//! rule by which a decoded claims object is accepted or turned down.

use crate::clock::{expired_at, is_expired_at};
use crate::models::{User, UserView};
use vstd::prelude::*;

verus! {

/// The type tag carried by access tokens.
pub open spec fn access_tag() -> Seq<char> {
    "access"@
}

/// The type tag carried by refresh tokens.
pub open spec fn refresh_tag() -> Seq<char> {
    "refresh"@
}

/// The claims of a token, as mathematical values. Access and refresh tokens carry the
/// same five claims and differ in the type tag.
pub struct ClaimsView {
    pub token_type: Seq<char>,
    pub exp: u128,
    pub user_id: i32,
    pub display_name: Seq<char>,
    pub is_admin: bool,
}

/// The claims of a refresh token.
#[derive(Debug)]
pub struct RefreshJwtToken {
    pub token_type: String,
    pub exp: u128,
    pub user_id: i32,
    pub display_name: String,
    pub is_admin: bool,
}

impl View for RefreshJwtToken {
    type V = ClaimsView;

    open spec fn view(&self) -> ClaimsView {
        ClaimsView {
            token_type: self.token_type@,
            exp: self.exp,
            user_id: self.user_id,
            display_name: self.display_name@,
            is_admin: self.is_admin,
        }
    }
}

impl DeepView for RefreshJwtToken {
    type V = ClaimsView;

    open spec fn deep_view(&self) -> ClaimsView {
        self@
    }
}

/// The claims of an access token.
#[derive(Debug)]
pub struct AccessJwtToken {
    pub token_type: String,
    pub exp: u128,
    pub user_id: i32,
    pub display_name: String,
    pub is_admin: bool,
}

impl View for AccessJwtToken {
    type V = ClaimsView;

    open spec fn view(&self) -> ClaimsView {
        ClaimsView {
            token_type: self.token_type@,
            exp: self.exp,
            user_id: self.user_id,
            display_name: self.display_name@,
            is_admin: self.is_admin,
        }
    }
}

impl DeepView for AccessJwtToken {
    type V = ClaimsView;

    open spec fn deep_view(&self) -> ClaimsView {
        self@
    }
}

/// The value of one claim in the claims object of a token.
#[derive(Debug)]
pub enum ClaimValue {
    /// A JSON string.
    Text(String),
    /// A JSON number that is a whole number written without a sign.
    Unsigned(u128),
    /// A JSON number that is a whole number written with a minus sign.
    Signed(i128),
    /// A JSON boolean.
    Flag(bool),
    /// Any other JSON value.
    Other,
}

/// A [`ClaimValue`] as a mathematical value.
pub enum ClaimValueView {
    Text(Seq<char>),
    Unsigned(u128),
    Signed(i128),
    Flag(bool),
    Other,
}

impl View for ClaimValue {
    type V = ClaimValueView;

    open spec fn view(&self) -> ClaimValueView {
        match self {
            ClaimValue::Text(text) => ClaimValueView::Text(text@),
            ClaimValue::Unsigned(number) => ClaimValueView::Unsigned(*number),
            ClaimValue::Signed(number) => ClaimValueView::Signed(*number),
            ClaimValue::Flag(flag) => ClaimValueView::Flag(*flag),
            ClaimValue::Other => ClaimValueView::Other,
        }
    }
}

impl DeepView for ClaimValue {
    type V = ClaimValueView;

    open spec fn deep_view(&self) -> ClaimValueView {
        self@
    }
}

/// What the claims object of a token holds under each of the five claim names: `None`
/// where the name is absent or its value is of another kind than the claim's.
pub struct DecodedClaims {
    pub token_type: Option<String>,
    pub exp: Option<u128>,
    pub user_id: Option<i32>,
    pub display_name: Option<String>,
    pub is_admin: Option<bool>,
}

/// A [`DecodedClaims`] as mathematical values.
pub struct DecodedClaimsView {
    pub token_type: Option<Seq<char>>,
    pub exp: Option<u128>,
    pub user_id: Option<i32>,
    pub display_name: Option<Seq<char>>,
    pub is_admin: Option<bool>,
}

impl View for DecodedClaims {
    type V = DecodedClaimsView;

    open spec fn view(&self) -> DecodedClaimsView {
        DecodedClaimsView {
            token_type: self.token_type.deep_view(),
            exp: self.exp,
            user_id: self.user_id,
            display_name: self.display_name.deep_view(),
            is_admin: self.is_admin,
        }
    }
}

impl DeepView for DecodedClaims {
    type V = DecodedClaimsView;

    open spec fn deep_view(&self) -> DecodedClaimsView {
        self@
    }
}

impl DecodedClaimsView {
    /// The decoding of a claims object that holds exactly these claims.
    pub open spec fn of(claims: ClaimsView) -> DecodedClaimsView {
        DecodedClaimsView {
            token_type: Some(claims.token_type),
            exp: Some(claims.exp),
            user_id: Some(claims.user_id),
            display_name: Some(claims.display_name),
            is_admin: Some(claims.is_admin),
        }
    }

    /// All five claims are present.
    pub open spec fn complete(self) -> bool {
        &&& self.token_type is Some
        &&& self.exp is Some
        &&& self.user_id is Some
        &&& self.display_name is Some
        &&& self.is_admin is Some
    }

    /// The claims of a complete decoding.
    pub open spec fn claims(self) -> ClaimsView
        recommends
            self.complete(),
    {
        ClaimsView {
            token_type: self.token_type->0,
            exp: self.exp->0,
            user_id: self.user_id->0,
            display_name: self.display_name->0,
            is_admin: self.is_admin->0,
        }
    }
}

/// The value under `name` in a claims object: that of the first entry with this name.
pub open spec fn claim_of(claims: Seq<(Seq<char>, ClaimValueView)>, name: Seq<char>) -> Option<
    ClaimValueView,
>
    decreases claims.len(),
{
    if claims.len() == 0 {
        None
    } else if claims[0].0 == name {
        Some(claims[0].1)
    } else {
        claim_of(claims.skip(1), name)
    }
}

/// The text of a claim that is a string.
pub open spec fn text_claim(value: Option<ClaimValueView>) -> Option<Seq<char>> {
    match value {
        Some(ClaimValueView::Text(text)) => Some(text),
        _ => None,
    }
}

/// The number of a claim that is a whole number without a sign.
pub open spec fn unsigned_claim(value: Option<ClaimValueView>) -> Option<u128> {
    match value {
        Some(ClaimValueView::Unsigned(number)) => Some(number),
        _ => None,
    }
}

/// The number of a claim that is a whole number of 32 bits with a sign.
pub open spec fn integer_claim(value: Option<ClaimValueView>) -> Option<i32> {
    match value {
        Some(ClaimValueView::Unsigned(number)) => if number <= i32::MAX {
            Some(number as i32)
        } else {
            None
        },
        Some(ClaimValueView::Signed(number)) => if i32::MIN <= number <= i32::MAX {
            Some(number as i32)
        } else {
            None
        },
        _ => None,
    }
}

/// The truth value of a claim that is a boolean.
pub open spec fn flag_claim(value: Option<ClaimValueView>) -> Option<bool> {
    match value {
        Some(ClaimValueView::Flag(flag)) => Some(flag),
        _ => None,
    }
}

/// The claim value that stands for a whole number of 32 bits with a sign.
pub open spec fn integer_value(number: i32) -> ClaimValueView {
    if number >= 0 {
        ClaimValueView::Unsigned(number as u128)
    } else {
        ClaimValueView::Signed(number as i128)
    }
}

/// What a claims object holds under the five claim names.
pub open spec fn decoding_of(claims: Seq<(Seq<char>, ClaimValueView)>) -> DecodedClaimsView {
    DecodedClaimsView {
        token_type: text_claim(claim_of(claims, "token_type"@)),
        exp: unsigned_claim(claim_of(claims, "exp"@)),
        user_id: integer_claim(claim_of(claims, "user_id"@)),
        display_name: text_claim(claim_of(claims, "display_name"@)),
        is_admin: flag_claim(claim_of(claims, "is_admin"@)),
    }
}

/// The claims object that is signed for `claims`: five entries under the five claim
/// names.
pub open spec fn entries_of(claims: ClaimsView) -> Seq<(Seq<char>, ClaimValueView)> {
    seq![
        ("token_type"@, ClaimValueView::Text(claims.token_type)),
        ("exp"@, ClaimValueView::Unsigned(claims.exp)),
        ("user_id"@, integer_value(claims.user_id)),
        ("display_name"@, ClaimValueView::Text(claims.display_name)),
        ("is_admin"@, ClaimValueView::Flag(claims.is_admin)),
    ]
}

/// Looks a claim up by its name.
fn find_claim<'a>(claims: &'a Vec<(String, ClaimValue)>, name: &str) -> (found: Option<
    &'a ClaimValue,
>)
    ensures
        found.deep_view() == claim_of(claims.deep_view(), name@),
{
    let wanted = name.to_owned();
    let mut index: usize = 0;
    assert(claims.deep_view().skip(0) =~= claims.deep_view());
    while index < claims.len()
        invariant
            index <= claims.len(),
            wanted@ == name@,
            claim_of(claims.deep_view(), name@) == claim_of(
                claims.deep_view().skip(index as int),
                name@,
            ),
        decreases claims.len() - index,
    {
        assert(claims.deep_view().skip(index as int).skip(1) =~= claims.deep_view().skip(
            index + 1,
        ));
        if claims[index].0 == wanted {
            return Some(&claims[index].1);
        }
        index += 1;
    }
    None
}

impl DecodedClaims {
    /// Reads the five claims out of the entries of a claims object.
    pub fn from_entries(claims: &Vec<(String, ClaimValue)>) -> (decoded: DecodedClaims)
        ensures
            decoded@ == decoding_of(claims.deep_view()),
    {
        let token_type = match find_claim(claims, "token_type") {
            Some(ClaimValue::Text(text)) => Some(text.clone()),
            _ => None,
        };
        let exp = match find_claim(claims, "exp") {
            Some(ClaimValue::Unsigned(number)) => Some(*number),
            _ => None,
        };
        let user_id = match find_claim(claims, "user_id") {
            Some(ClaimValue::Unsigned(number)) => if *number <= 0x7fff_ffff {
                Some(*number as i32)
            } else {
                None
            },
            Some(ClaimValue::Signed(number)) => if -0x8000_0000 <= *number && *number
                <= 0x7fff_ffff {
                Some(*number as i32)
            } else {
                None
            },
            _ => None,
        };
        let display_name = match find_claim(claims, "display_name") {
            Some(ClaimValue::Text(text)) => Some(text.clone()),
            _ => None,
        };
        let is_admin = match find_claim(claims, "is_admin") {
            Some(ClaimValue::Flag(flag)) => Some(*flag),
            _ => None,
        };
        DecodedClaims { token_type, exp, user_id, display_name, is_admin }
    }
}

/// Writes the claims object for the claims tagged `tag` of `user` with expiry `exp`.
pub fn claims_entries(tag: &str, user: &User, exp: u128) -> (claims: Vec<(String, ClaimValue)>)
    ensures
        claims.deep_view() == entries_of(claims_for(tag@, user@, exp)),
{
    let user_id = if user.id >= 0 {
        ClaimValue::Unsigned(user.id as u128)
    } else {
        ClaimValue::Signed(user.id as i128)
    };
    let mut claims: Vec<(String, ClaimValue)> = Vec::new();
    claims.push(("token_type".to_owned(), ClaimValue::Text(tag.to_owned())));
    claims.push(("exp".to_owned(), ClaimValue::Unsigned(exp)));
    claims.push(("user_id".to_owned(), user_id));
    claims.push(("display_name".to_owned(), ClaimValue::Text(user.display_name.clone())));
    claims.push(("is_admin".to_owned(), ClaimValue::Flag(user.is_admin)));
    claims
}

/// The claims that a decoding is accepted with, by an endpoint that expects tokens
/// tagged `tag`, when the clock reads `now`: the decoding must be complete, carry that
/// tag, and expire strictly after `now`.
pub open spec fn accepted_decoding(decoded: Option<DecodedClaimsView>, tag: Seq<char>, now: u128)
    -> Option<ClaimsView> {
    match decoded {
        Some(d) => if d.complete() && d.token_type == Some(tag) && !expired_at(d.exp->0, now) {
            Some(d.claims())
        } else {
            None
        },
        None => None,
    }
}

/// The claims written into a token tagged `tag` that is issued to `user` and expires
/// at `exp`.
pub open spec fn claims_for(tag: Seq<char>, user: UserView, exp: u128) -> ClaimsView {
    ClaimsView {
        token_type: tag,
        exp,
        user_id: user.id,
        display_name: user.display_name,
        is_admin: user.is_admin,
    }
}

/// Accepts a decoding as that of a token tagged `tag` at clock reading `now`, or turns
/// it down. What comes back is the decoding itself, complete.
fn accept(decoded: Option<DecodedClaims>, tag: &str, now: u128) -> (accepted: Option<DecodedClaims>)
    ensures
        match accepted {
            Some(d) => d@.complete() && accepted_decoding(decoded.deep_view(), tag@, now) == Some(
                d@.claims(),
            ),
            None => accepted_decoding(decoded.deep_view(), tag@, now) is None,
        },
{
    match decoded {
        Some(claims) => {
            let tag_matches = match &claims.token_type {
                Some(t) => *t == tag.to_owned(),
                None => false,
            };
            let in_time = match claims.exp {
                Some(exp) => !is_expired_at(exp, now),
                None => false,
            };
            if tag_matches && in_time && claims.user_id.is_some() && claims.display_name.is_some()
                && claims.is_admin.is_some() {
                Some(claims)
            } else {
                None
            }
        },
        None => None,
    }
}

impl RefreshJwtToken {
    /// The claims of a refresh token, from what the token decoded to: they are accepted
    /// at clock reading `now` where the decoding is complete, tagged as a refresh token
    /// and not expired.
    pub fn from_decoded(decoded: Option<DecodedClaims>, now: u128) -> (claims: Option<
        RefreshJwtToken,
    >)
        ensures
            claims.deep_view() == accepted_decoding(decoded.deep_view(), refresh_tag(), now),
    {
        match accept(decoded, "refresh", now) {
            Some(DecodedClaims {
                token_type: Some(token_type),
                exp: Some(exp),
                user_id: Some(user_id),
                display_name: Some(display_name),
                is_admin: Some(is_admin),
            }) => Some(
                RefreshJwtToken { token_type, exp, user_id, display_name, is_admin },
            ),
            _ => None,
        }
    }
}

impl AccessJwtToken {
    /// The claims of an access token, from what the token decoded to: they are accepted
    /// at clock reading `now` where the decoding is complete, tagged as an access token
    /// and not expired.
    pub fn from_decoded(decoded: Option<DecodedClaims>, now: u128) -> (claims: Option<
        AccessJwtToken,
    >)
        ensures
            claims.deep_view() == accepted_decoding(decoded.deep_view(), access_tag(), now),
    {
        match accept(decoded, "access", now) {
            Some(DecodedClaims {
                token_type: Some(token_type),
                exp: Some(exp),
                user_id: Some(user_id),
                display_name: Some(display_name),
                is_admin: Some(is_admin),
            }) => Some(
                AccessJwtToken { token_type, exp, user_id, display_name, is_admin },
            ),
            _ => None,
        }
    }
}

/// The five claim names differ from one another.
pub proof fn lemma_claim_names_differ()
    ensures
        "token_type"@ != "exp"@,
        "token_type"@ != "user_id"@,
        "token_type"@ != "display_name"@,
        "token_type"@ != "is_admin"@,
        "exp"@ != "user_id"@,
        "exp"@ != "display_name"@,
        "exp"@ != "is_admin"@,
        "user_id"@ != "display_name"@,
        "user_id"@ != "is_admin"@,
        "display_name"@ != "is_admin"@,
{
    reveal_strlit("token_type");
    reveal_strlit("exp");
    reveal_strlit("user_id");
    reveal_strlit("display_name");
    reveal_strlit("is_admin");
    assert("token_type"@.len() == 10);
    assert("exp"@.len() == 3);
    assert("user_id"@.len() == 7);
    assert("display_name"@.len() == 12);
    assert("is_admin"@.len() == 8);
}

/// The claims object that is written for a set of claims reads back as exactly those
/// claims, each under its name and in its kind.
pub proof fn lemma_claims_object_reads_back(claims: ClaimsView)
    ensures
        decoding_of(entries_of(claims)) == DecodedClaimsView::of(claims),
{
    lemma_claim_names_differ();
    reveal_with_fuel(claim_of, 6);
}

/// The two type tags differ.
pub proof fn lemma_tags_differ()
    ensures
        access_tag() != refresh_tag(),
{
    reveal_strlit("access");
    reveal_strlit("refresh");
    assert(access_tag().len() == 6);
    assert(refresh_tag().len() == 7);
}

} // verus!
