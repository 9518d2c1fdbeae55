//! Token issuance, token verification and per-request identity.

use vstd::prelude::*;
use vstd::slice::slice_to_vec;
use vstd::string::*;

use crate::bearer::{
    all_header_text, bearer_token, bearer_token_spec, is_blank, lemma_bearer_carries_token,
};
use crate::codec::{read_claims, sign_claims, signed_token, text_view, token_payload};
use crate::decimal::{
    decimal_string, format_i32, lemma_decimal_string_injective, lemma_parse_i32_of_decimal_string,
    parse_i32, parse_i32_spec,
};

verus! {

/// Why a request was not authenticated, or a login not completed.
#[derive(Clone, Copy, Debug, PartialEq, Eq, Structural)]
pub enum AuthError {
    /// The identity provider rejected the login credential.
    WrongCredentials,
    /// The request carries no credential.
    MissingCredentials,
    /// A token could not be signed.
    TokenCreation,
    /// The credential is malformed, wrongly signed or expired.
    InvalidToken,
}

impl AuthError {
    /// The HTTP status that answers this error.
    pub open spec fn status_spec(self) -> u16 {
        match self {
            AuthError::WrongCredentials => 401,
            AuthError::MissingCredentials => 400,
            AuthError::TokenCreation => 500,
            AuthError::InvalidToken => 400,
        }
    }

    /// The message that answers this error.
    pub open spec fn message_spec(self) -> Seq<char> {
        match self {
            AuthError::WrongCredentials => "Wrong credentials"@,
            AuthError::MissingCredentials => "Missing credentials"@,
            AuthError::TokenCreation => "Token creation error"@,
            AuthError::InvalidToken => "Invalid token"@,
        }
    }

    /// The HTTP status that answers this error.
    pub fn status(&self) -> (r: u16)
        ensures
            r == self.status_spec(),
    {
        match self {
            AuthError::WrongCredentials => 401,
            AuthError::MissingCredentials => 400,
            AuthError::TokenCreation => 500,
            AuthError::InvalidToken => 400,
        }
    }

    /// The message that answers this error.
    pub fn message(&self) -> (r: &'static str)
        ensures
            r@ == self.message_spec(),
    {
        match self {
            AuthError::WrongCredentials => "Wrong credentials",
            AuthError::MissingCredentials => "Missing credentials",
            AuthError::TokenCreation => "Token creation error",
            AuthError::InvalidToken => "Invalid token",
        }
    }
}

/// How long a token stays valid after it was minted: fifteen days, in
/// seconds.
pub const SESSION_SECONDS: u64 = 1296000;

/// The signing secret, shared by minting and verification.
pub struct Keys {
    secret: Vec<u8>,
}

impl View for Keys {
    type V = Seq<u8>;

    closed spec fn view(&self) -> Seq<u8> {
        self.secret@
    }
}

/// What a token states: who it was minted for and until when it holds.
pub struct Claims {
    sub: String,
    exp: u64,
}

/// The claims of a token as plain values.
pub struct ClaimsView {
    /// The subject: the decimal text of a user id.
    pub sub: Seq<char>,
    /// The expiry, in seconds since the epoch.
    pub exp: u64,
}

impl View for Claims {
    type V = ClaimsView;

    closed spec fn view(&self) -> ClaimsView {
        ClaimsView { sub: self.sub@, exp: self.exp }
    }
}

impl Claims {
    /// Claims for `sub` that were made at `now` and hold for fifteen days.
    pub fn new(sub: String, now: u64) -> (c: Claims)
        requires
            now + SESSION_SECONDS <= u64::MAX,
        ensures
            c@ == (ClaimsView { sub: sub@, exp: (now + SESSION_SECONDS) as u64 }),
    {
        Claims { sub, exp: now + SESSION_SECONDS }
    }

    /// The subject.
    pub fn sub(&self) -> (r: &str)
        ensures
            r@ == self@.sub,
    {
        self.sub.as_str()
    }

    /// The expiry, in seconds since the epoch.
    pub fn exp(&self) -> (r: u64)
        ensures
            r == self@.exp,
    {
        self.exp
    }

    /// Decides on what a token was read to hold: claims come of it when the
    /// subject and the expiry are both there and the expiry lies after
    /// `now`; anything else is an invalid token.
    pub fn from_payload(sub: Option<String>, exp: Option<u64>, now: u64) -> (r: Result<
        Claims,
        AuthError,
    >)
        ensures
            r is Ok <==> accepted((text_view(sub), exp), now) is Some,
            r matches Ok(c) ==> accepted((text_view(sub), exp), now) == Some(c@),
            r matches Err(e) ==> e == AuthError::InvalidToken,
    {
        match (sub, exp) {
            (Some(sub), Some(exp)) => {
                if exp > now {
                    Ok(Claims { sub, exp })
                } else {
                    Err(AuthError::InvalidToken)
                }
            },
            _ => Err(AuthError::InvalidToken),
        }
    }
}

/// The claims that a token's payload yields at time `now`: both members must
/// be there and the expiry must lie after `now`.
pub open spec fn accepted(payload: (Option<Seq<char>>, Option<u64>), now: u64) -> Option<
    ClaimsView,
> {
    match payload {
        (Some(sub), Some(exp)) => if exp > now {
            Some(ClaimsView { sub, exp })
        } else {
            None
        },
        _ => None,
    }
}

/// The claims that `token` proves at time `now` under `secret`, or `None`
/// where it is rejected.
pub open spec fn verified(token: Seq<char>, secret: Seq<u8>, now: u64) -> Option<ClaimsView> {
    match token_payload(token, secret) {
        Some(payload) => accepted(payload, now),
        None => None,
    }
}

/// The token minted for `user_id` at `now` under `secret`, or `None` where
/// none can be made: its claims are the decimal text of the id and an expiry
/// fifteen days after `now`.
pub open spec fn minted(user_id: i32, secret: Seq<u8>, now: u64) -> Option<Seq<char>> {
    if now + SESSION_SECONDS <= u64::MAX {
        signed_token(decimal_string(user_id as int), (now + SESSION_SECONDS) as u64, secret)
    } else {
        None
    }
}

impl Keys {
    /// Keys that sign and check with `secret`.
    pub fn new(secret: &[u8]) -> (k: Keys)
        ensures
            k@ == secret@,
    {
        Keys { secret: slice_to_vec(secret) }
    }

    /// Signs `claims` into a token.
    pub fn sign(&self, claims: &Claims) -> (r: Result<String, AuthError>)
        ensures
            r is Ok <==> signed_token(claims@.sub, claims@.exp, self@) is Some,
            r matches Ok(token) ==> signed_token(claims@.sub, claims@.exp, self@) == Some(token@),
            r matches Err(e) ==> e == AuthError::TokenCreation,
    {
        match sign_claims(claims.sub.as_str(), claims.exp, self.secret.as_slice()) {
            Ok(token) => Ok(token),
            Err(_) => Err(AuthError::TokenCreation),
        }
    }

    /// Mints a token for `user_id` at time `now`. The token holds for fifteen
    /// days. Where no token can be made the error is `TokenCreation`.
    pub fn mint(&self, user_id: i32, now: u64) -> (r: Result<String, AuthError>)
        ensures
            r is Ok <==> minted(user_id, self@, now) is Some,
            r matches Ok(token) ==> minted(user_id, self@, now) == Some(token@),
            r matches Err(e) ==> e == AuthError::TokenCreation,
    {
        if now > u64::MAX - SESSION_SECONDS {
            return Err(AuthError::TokenCreation);
        }
        let claims = Claims::new(format_i32(user_id), now);
        self.sign(&claims)
    }

    /// Verifies `token` at time `now`: its signature must match these keys
    /// and its expiry must lie after `now`. Every failure is `InvalidToken`.
    pub fn verify(&self, token: &str, now: u64) -> (r: Result<Claims, AuthError>)
        ensures
            r is Ok <==> verified(token@, self@, now) is Some,
            r matches Ok(c) ==> verified(token@, self@, now) == Some(c@),
            r matches Err(e) ==> e == AuthError::InvalidToken,
    {
        match read_claims(token, self.secret.as_slice()) {
            Ok((sub, exp)) => Claims::from_payload(sub, exp, now),
            Err(_) => Err(AuthError::InvalidToken),
        }
    }
}

/// A verified user id.
#[derive(Clone, Copy, Debug, PartialEq, Eq, Structural)]
pub struct Uid(pub i32);

/// The user id that claims with the subject `sub` identify: the subject must
/// be the decimal text of an `i32`.
pub open spec fn subject_id(sub: Seq<char>) -> Result<Uid, AuthError> {
    match parse_i32_spec(sub) {
        Some(id) => Ok(Uid(id)),
        None => Err(AuthError::InvalidToken),
    }
}

/// The identity that a request proves at time `now` under `secret`, given
/// the value of its `Authorization` header if it has one. A request without
/// the header lacks credentials; a header that is no `Bearer` credential, a
/// token that does not verify and a subject that is no user id are each an
/// invalid token.
pub open spec fn identified(header: Option<Seq<char>>, secret: Seq<u8>, now: u64) -> Result<
    Uid,
    AuthError,
> {
    match header {
        None => Err(AuthError::MissingCredentials),
        Some(h) => match bearer_token_spec(h) {
            None => Err(AuthError::InvalidToken),
            Some(token) => match verified(token, secret, now) {
                None => Err(AuthError::InvalidToken),
                Some(claims) => subject_id(claims.sub),
            },
        },
    }
}

/// The view of an optional string slice.
pub open spec fn header_view(header: Option<&str>) -> Option<Seq<char>> {
    match header {
        Some(h) => Some(h@),
        None => None,
    }
}

impl Uid {
    /// The user id that `claims` identify. A subject that is not the decimal
    /// text of an `i32` is an invalid token.
    pub fn from_claims(claims: &Claims) -> (r: Result<Uid, AuthError>)
        ensures
            r == subject_id(claims@.sub),
    {
        match parse_i32(claims.sub.as_str()) {
            Some(id) => Ok(Uid(id)),
            None => Err(AuthError::InvalidToken),
        }
    }

    /// Extracts the identity of a request from the value of its
    /// `Authorization` header, `None` if it has none, at time `now`.
    pub fn from_authorization(header: Option<&str>, keys: &Keys, now: u64) -> (r: Result<
        Uid,
        AuthError,
    >)
        ensures
            r == identified(header_view(header), keys@, now),
    {
        let header = match header {
            Some(h) => h,
            None => {
                return Err(AuthError::MissingCredentials);
            },
        };
        let token = match bearer_token(header) {
            Some(t) => t,
            None => {
                return Err(AuthError::InvalidToken);
            },
        };
        match keys.verify(token, now) {
            Ok(claims) => Uid::from_claims(&claims),
            Err(_) => Err(AuthError::InvalidToken),
        }
    }
}

/// Whether the token that is signed for the claims `sub` and `exp` under
/// `secret`, if there is one, reads back under the same secret as those
/// claims. The token format is expected to do so for all claims; nothing in
/// this crate assumes it.
pub open spec fn reads_back(sub: Seq<char>, exp: u64, secret: Seq<u8>) -> bool {
    signed_token(sub, exp, secret) matches Some(token) ==> token_payload(token, secret) == Some(
        (Some(sub), Some(exp)),
    )
}

/// The claims of a verified token have not expired.
pub proof fn lemma_verified_not_expired(token: Seq<char>, secret: Seq<u8>, now: u64)
    requires
        verified(token, secret, now) is Some,
    ensures
        verified(token, secret, now)->0.exp > now,
{
}

/// Verification consumes nothing and depends on the time only through the
/// expiry: a token that verifies at one time verifies to the same claims at
/// every time before its expiry, and is rejected at every time from its
/// expiry on.
pub proof fn lemma_verified_until_expiry(
    token: Seq<char>,
    secret: Seq<u8>,
    now: u64,
    other: u64,
)
    requires
        verified(token, secret, now) is Some,
    ensures
        other < verified(token, secret, now)->0.exp ==> verified(token, secret, other) == verified(
            token,
            secret,
            now,
        ),
        other >= verified(token, secret, now)->0.exp ==> verified(token, secret, other) is None,
{
}

/// A token whose claims have expired is rejected, whatever else it holds.
pub proof fn lemma_expired_rejected(token: Seq<char>, secret: Seq<u8>, now: u64)
    requires
        token_payload(token, secret) matches Some(payload) && payload.1 matches Some(exp) && exp
            <= now,
    ensures
        verified(token, secret, now) is None,
{
}

/// The subject that a token is minted with identifies the user it was minted
/// for: the decimal text of a user id reads back as that id.
pub proof fn lemma_subject_identifies(user_id: i32)
    ensures
        subject_id(decimal_string(user_id as int)) == Ok::<Uid, AuthError>(Uid(user_id)),
{
    lemma_parse_i32_of_decimal_string(user_id);
}

/// Different users are minted different subjects.
pub proof fn lemma_subjects_differ(a: i32, b: i32)
    requires
        a != b,
    ensures
        decimal_string(a as int) != decimal_string(b as int),
{
    if decimal_string(a as int) == decimal_string(b as int) {
        lemma_decimal_string_injective(a as int, b as int);
    }
}

/// Where the token format reads back what it signed, a token minted for a
/// user verifies, until fifteen days have passed, to claims whose subject is
/// the decimal text of that user's id, and those claims identify that user.
pub proof fn lemma_minted_verifies_while_fresh(
    user_id: i32,
    secret: Seq<u8>,
    minted_at: u64,
    now: u64,
)
    requires
        minted(user_id, secret, minted_at) is Some,
        reads_back(
            decimal_string(user_id as int),
            (minted_at + SESSION_SECONDS) as u64,
            secret,
        ),
        now < minted_at + SESSION_SECONDS,
    ensures
        verified(minted(user_id, secret, minted_at)->0, secret, now) == Some(
            ClaimsView {
                sub: decimal_string(user_id as int),
                exp: (minted_at + SESSION_SECONDS) as u64,
            },
        ),
        subject_id(verified(minted(user_id, secret, minted_at)->0, secret, now)->0.sub) == Ok::<
            Uid,
            AuthError,
        >(Uid(user_id)),
{
    lemma_subject_identifies(user_id);
}

/// Where the token format reads back what it signed, a token minted for a
/// user is rejected once fifteen days have passed.
pub proof fn lemma_minted_rejected_when_stale(
    user_id: i32,
    secret: Seq<u8>,
    minted_at: u64,
    now: u64,
)
    requires
        minted(user_id, secret, minted_at) is Some,
        reads_back(
            decimal_string(user_id as int),
            (minted_at + SESSION_SECONDS) as u64,
            secret,
        ),
        now >= minted_at + SESSION_SECONDS,
    ensures
        verified(minted(user_id, secret, minted_at)->0, secret, now) is None,
{
}

/// A request without the header is answered with `MissingCredentials`, and
/// that with status 400.
pub proof fn lemma_missing_header_rejected(secret: Seq<u8>, now: u64)
    ensures
        identified(None, secret, now) == Err::<Uid, AuthError>(AuthError::MissingCredentials),
        AuthError::MissingCredentials.status_spec() == 400,
{
}

/// A request with the header is identified or answered with `InvalidToken`,
/// and that with status 400; it is identified only by a `Bearer` credential
/// whose token verifies under the secret and whose subject is a user id.
pub proof fn lemma_present_header_rejected_as_invalid(
    header: Seq<char>,
    secret: Seq<u8>,
    now: u64,
)
    ensures
        identified(Some(header), secret, now) is Err ==> identified(Some(header), secret, now)
            == Err::<Uid, AuthError>(AuthError::InvalidToken),
        AuthError::InvalidToken.status_spec() == 400,
        identified(Some(header), secret, now) matches Ok(uid) ==> {
            &&& bearer_token_spec(header) matches Some(token)
            &&& verified(token, secret, now) matches Some(claims)
            &&& parse_i32_spec(claims.sub) == Some(uid.0)
            &&& claims.exp > now
        },
{
}

/// Where the token format reads back what it signed and writes its tokens
/// in header text that begins with no blank, a request that presents a
/// minted token as its `Bearer` credential is identified, until fifteen days
/// have passed, as the user the token was minted for.
pub proof fn lemma_minted_identifies_while_fresh(
    user_id: i32,
    secret: Seq<u8>,
    minted_at: u64,
    now: u64,
)
    requires
        minted(user_id, secret, minted_at) is Some,
        reads_back(
            decimal_string(user_id as int),
            (minted_at + SESSION_SECONDS) as u64,
            secret,
        ),
        all_header_text(minted(user_id, secret, minted_at)->0),
        minted(user_id, secret, minted_at)->0.len() > 0,
        !is_blank(minted(user_id, secret, minted_at)->0[0]),
        now < minted_at + SESSION_SECONDS,
    ensures
        identified(Some("Bearer "@ + minted(user_id, secret, minted_at)->0), secret, now) == Ok::<
            Uid,
            AuthError,
        >(Uid(user_id)),
{
    let token = minted(user_id, secret, minted_at)->0;
    lemma_bearer_carries_token(token);
    lemma_minted_verifies_while_fresh(user_id, secret, minted_at, now);
}

} // verus!
