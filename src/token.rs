use vstd::prelude::*;

use crate::clock::{expiry, expiry_after, now_seconds};
use crate::error::ApiError;
use crate::role::{lemma_role_name_round_trip, role_of_name, Role};
use crate::text::{has_prefix, opt_string, starts_with, strip_prefix_once};

verus! {

/// Lifetime of a session token, in seconds (24 hours).
pub const SESSION_TTL: u64 = 86400;

/// Lifetime of a recovery token, in seconds (5 minutes).
pub const RECOVERY_TTL: u64 = 300;

#[verifier::external_type_specification]
#[verifier::external_body]
pub struct ExJwtError(jsonwebtoken::errors::Error);

/// The decoded payload of a bearer token.
pub struct Claims {
    /// The subject: the account's email.
    pub sub: String,
    /// Present in session tokens, absent in recovery tokens.
    pub role: Option<Role>,
    /// Present in session tokens, absent in recovery tokens.
    pub user_id: Option<i64>,
    /// Expiry, in Unix seconds; the token is invalid from this instant on.
    pub exp: u64,
    /// Issue time, in Unix seconds.
    pub iat: u64,
}

/// The claims of a recovery token: the subject alone, with a short expiry.
pub struct ClaimsFG {
    pub sub: String,
    pub exp: u64,
    pub iat: u64,
}

pub struct ClaimsView {
    pub sub: Seq<char>,
    pub role: Option<Role>,
    pub user_id: Option<int>,
    pub exp: int,
    pub iat: int,
}

pub open spec fn opt_int(o: Option<i64>) -> Option<int> {
    match o {
        Some(v) => Some(v as int),
        None => None,
    }
}

impl View for Claims {
    type V = ClaimsView;

    open spec fn view(&self) -> ClaimsView {
        ClaimsView {
            sub: self.sub@,
            role: self.role,
            user_id: opt_int(self.user_id),
            exp: self.exp as int,
            iat: self.iat as int,
        }
    }
}

/// The claims of a session token issued at `now`.
pub open spec fn session_claims(email: Seq<char>, role: Role, user_id: int, now: int) -> ClaimsView {
    ClaimsView {
        sub: email,
        role: Some(role),
        user_id: Some(user_id),
        exp: expiry(now, SESSION_TTL as int),
        iat: now,
    }
}

/// The claims of a recovery token issued at `now`.
pub open spec fn recovery_claims(email: Seq<char>, now: int) -> ClaimsView {
    ClaimsView { sub: email, role: None, user_id: None, exp: expiry(now, RECOVERY_TTL as int), iat: now }
}

/// The five payload fields of a token, as `jsonwebtoken::decode` gives them back
/// when the HS256 signature made with `secret` verifies and the payload is a JSON
/// object with a string `sub` and unsigned `exp` and `iat`; `None` otherwise.
/// `role` and `user_id` are `None` where absent, null or of another JSON type.
pub uninterp spec fn jwt_fields(token: Seq<char>, secret: Seq<u8>) -> Option<
    (Seq<char>, Option<Seq<char>>, Option<int>, int, int),
>;

pub open spec fn opt_str(o: Option<&str>) -> Option<Seq<char>> {
    match o {
        Some(s) => Some(s@),
        None => None,
    }
}


pub open spec fn fields_view(r: Option<(String, Option<String>, Option<i64>, u64, u64)>) -> Option<
    (Seq<char>, Option<Seq<char>>, Option<int>, int, int),
> {
    match r {
        Some((sub, role, uid, exp, iat)) => Some(
            (sub@, opt_string(role), opt_int(uid), exp as int, iat as int),
        ),
        None => None,
    }
}

/// Relies on `jsonwebtoken::encode` with the default header (HS256) and a key
/// from `EncodingKey::from_secret(secret)`. The payload is a JSON object of the
/// five fields, `null` for an absent role or id. Encoding cannot fail here: an
/// HMAC key matches the HS256 family, serializing a header and a map of JSON
/// values cannot fail, and HMAC signing always yields a signature; the token is
/// `header.payload.signature`. `jsonwebtoken::decode` with a key from the same
/// secret verifies that HMAC and deserializes that same object, so the fields
/// come back unchanged.
#[verifier::external_body]
fn jwt_encode(
    secret: &[u8],
    sub: &str,
    role: Option<&str>,
    user_id: Option<i64>,
    exp: u64,
    iat: u64,
) -> (r: Result<String, jsonwebtoken::errors::Error>)
    ensures
        r is Ok,
        r matches Ok(t) ==> t@.len() > 0,
        r matches Ok(t) ==> jwt_fields(t@, secret@) == Some(
            (sub@, opt_str(role), opt_int(user_id), exp as int, iat as int),
        ),
{
    let payload = std::collections::BTreeMap::from([
        ("sub", serde_json::Value::from(sub)),
        ("role", serde_json::Value::from(role)),
        ("user_id", serde_json::Value::from(user_id)),
        ("exp", serde_json::Value::from(exp)),
        ("iat", serde_json::Value::from(iat)),
    ]);
    let key = jsonwebtoken::EncodingKey::from_secret(secret);
    jsonwebtoken::encode(&jsonwebtoken::Header::default(), &payload, &key)
}

/// Relies on `jsonwebtoken::decode` with HS256, a key from
/// `DecodingKey::from_secret(secret)` and no expiry check (expiry is decided by
/// the caller against an explicit time), then reads the five payload fields.
#[verifier::external_body]
fn jwt_decode(token: &str, secret: &[u8]) -> (r: Option<
    (String, Option<String>, Option<i64>, u64, u64),
>)
    ensures
        fields_view(r) == jwt_fields(token@, secret@),
{
    let mut rules = jsonwebtoken::Validation::new(jsonwebtoken::Algorithm::HS256);
    rules.validate_exp = false;
    let key = jsonwebtoken::DecodingKey::from_secret(secret);
    let data = jsonwebtoken::decode::<serde_json::Map<String, serde_json::Value>>(token, &key, &rules);
    let c = data.ok()?.claims;
    Some((
        c.get("sub")?.as_str()?.to_string(),
        c.get("role").and_then(serde_json::Value::as_str).map(String::from),
        c.get("user_id").and_then(serde_json::Value::as_i64),
        c.get("exp")?.as_u64()?,
        c.get("iat")?.as_u64()?,
    ))
}

/// The claims that a token's payload fields stand for; a role name outside the
/// closed set makes the payload malformed.
pub open spec fn claims_of_fields(f: (Seq<char>, Option<Seq<char>>, Option<int>, int, int)) -> Option<ClaimsView> {
    let (sub, role, user_id, exp, iat) = f;
    match role {
        None => Some(ClaimsView { sub, role: None, user_id, exp, iat }),
        Some(name) => match role_of_name(name) {
            Some(r) => Some(ClaimsView { sub, role: Some(r), user_id, exp, iat }),
            None => None,
        },
    }
}

/// The claims that a token carries under `secret`, with no regard to time.
pub open spec fn token_claims(token: Seq<char>, secret: Seq<u8>) -> Option<ClaimsView> {
    match jwt_fields(token, secret) {
        Some(f) => claims_of_fields(f),
        None => None,
    }
}

/// What parsing a token at time `now` yields: its claims while `now` is before
/// their expiry, nothing at or after it.
pub open spec fn parse_spec(token: Seq<char>, secret: Seq<u8>, now: int) -> Option<ClaimsView> {
    match token_claims(token, secret) {
        Some(c) => if now < c.exp {
            Some(c)
        } else {
            None
        },
        None => None,
    }
}

/// The path prefix whose routes only administrators may use.
pub open spec fn admin_prefix() -> Seq<char> {
    seq!['/', 'p', 'o', 's', 't']
}

/// The scheme word that may precede a token in the `Authorization` header.
pub open spec fn bearer_prefix() -> Seq<char> {
    seq!['B', 'e', 'a', 'r', 'e', 'r', ' ']
}

pub open spec fn strip_bearer(h: Seq<char>) -> Seq<char> {
    if has_prefix(h, bearer_prefix()) {
        h.subrange(bearer_prefix().len() as int, h.len() as int)
    } else {
        h
    }
}

/// The route guard's decision for a request to `path` with the given
/// `Authorization` header value, at time `now`.
pub open spec fn guard_spec(header: Option<Seq<char>>, path: Seq<char>, secret: Seq<u8>, now: int) -> Result<
    ClaimsView,
    ApiError,
> {
    match header {
        None => Err(ApiError::MissingToken),
        Some(h) => match parse_spec(strip_bearer(h), secret, now) {
            None => Err(ApiError::InvalidToken),
            Some(c) => if has_prefix(path, admin_prefix()) && c.role != Some(Role::Admin) {
                Err(ApiError::Forbidden)
            } else {
                Ok(c)
            },
        },
    }
}

impl Claims {
    /// A field-by-field copy.
    pub fn duplicate(&self) -> (r: Claims)
        ensures
            r@ == self@,
    {
        Claims {
            sub: self.sub.clone(),
            role: self.role,
            user_id: self.user_id,
            exp: self.exp,
            iat: self.iat,
        }
    }
}

impl ClaimsFG {
    /// The general claims form of a recovery token: no role and no user id.
    pub fn to_claims(&self) -> (r: Claims)
        ensures
            r@ == (ClaimsView {
                sub: self.sub@,
                role: None,
                user_id: None,
                exp: self.exp as int,
                iat: self.iat as int,
            }),
    {
        Claims { sub: self.sub.clone(), role: None, user_id: None, exp: self.exp, iat: self.iat }
    }
}

/// Issues and checks signed, expiring bearer tokens with one symmetric secret,
/// and guards protected routes with them.
pub struct HelperMiddlewareToken {
    secret: Vec<u8>,
}

impl View for HelperMiddlewareToken {
    type V = Seq<u8>;

    closed spec fn view(&self) -> Seq<u8> {
        self.secret@
    }
}

impl HelperMiddlewareToken {
    /// A codec that signs and verifies with `secret`.
    pub fn new(secret: &[u8]) -> (r: Self)
        ensures
            r@ == secret@,
    {
        let mut v: Vec<u8> = Vec::new();
        let mut i: usize = 0;
        while i < secret.len()
            invariant
                i <= secret@.len(),
                v@ == secret@.subrange(0, i as int),
            decreases secret@.len() - i,
        {
            v.push(secret[i]);
            i = i + 1;
        }
        assert(v@ =~= secret@);
        HelperMiddlewareToken { secret: v }
    }

    /// Signs `claims` into a token that carries exactly them.
    pub fn issue(&self, claims: &Claims) -> (r: String)
        ensures
            r@.len() > 0,
            token_claims(r@, self@) == Some(claims@),
    {
        let role_text: Option<String> = match claims.role {
            Some(role) => Some(role.name()),
            None => None,
        };
        let role_ref: Option<&str> = match &role_text {
            Some(s) => Some(s.as_str()),
            None => None,
        };
        let r = jwt_encode(
            self.secret.as_slice(),
            claims.sub.as_str(),
            role_ref,
            claims.user_id,
            claims.exp,
            claims.iat,
        );
        proof {
            if let Some(role) = claims.role {
                lemma_role_name_round_trip(role);
            }
        }
        match r {
            Ok(t) => t,
            Err(_) => String::new(),
        }
    }

    /// Issues a session token for an account at time `now`: it carries the
    /// role and the user id and expires 24 hours later.
    pub fn create_token(&self, email: &str, role: Role, user_id: i64, now: u64) -> (r: String)
        ensures
            r@.len() > 0,
            token_claims(r@, self@) == Some(session_claims(email@, role, user_id as int, now as int)),
    {
        let claims = Claims {
            sub: String::from_str(email),
            role: Some(role),
            user_id: Some(user_id),
            exp: expiry_after(now, SESSION_TTL),
            iat: now,
        };
        self.issue(&claims)
    }

    /// Issues a recovery token for `email` at time `now`: subject only,
    /// expiring five minutes later.
    pub fn create_token_fg(&self, email: &str, now: u64) -> (r: String)
        ensures
            r@.len() > 0,
            token_claims(r@, self@) == Some(recovery_claims(email@, now as int)),
    {
        let fg = ClaimsFG { sub: String::from_str(email), exp: expiry_after(now, RECOVERY_TTL), iat: now };
        self.issue(&fg.to_claims())
    }

    /// Parses and verifies a token at time `now`: its claims when the signature
    /// verifies, the payload is well formed and `now` is before the expiry.
    pub fn parse(&self, token: &str, now: u64) -> (r: Option<Claims>)
        ensures
            match r {
                Some(c) => parse_spec(token@, self@, now as int) == Some(c@),
                None => parse_spec(token@, self@, now as int) is None,
            },
    {
        match jwt_decode(token, self.secret.as_slice()) {
            None => None,
            Some((sub, role_text, user_id, exp, iat)) => {
                let role = match role_text {
                    None => None,
                    Some(name) => match Role::from_name(name.as_str()) {
                        Some(r) => Some(r),
                        None => {
                            return None;
                        },
                    },
                };
                if now < exp {
                    Some(Claims { sub, role, user_id, exp, iat })
                } else {
                    None
                }
            },
        }
    }

    /// The route guard at time `now`: checks the `Authorization` header value
    /// (an optional `Bearer ` prefix is removed once), then the role that
    /// administrator-only paths ask for.
    pub fn authorize(&self, header: Option<&str>, path: &str, now: u64) -> (r: Result<Claims, ApiError>)
        ensures
            match r {
                Ok(c) => guard_spec(opt_str(header), path@, self@, now as int) == Ok::<ClaimsView, ApiError>(c@),
                Err(e) => guard_spec(opt_str(header), path@, self@, now as int) == Err::<ClaimsView, ApiError>(e),
            },
    {
        let h = match header {
            None => {
                return Err(ApiError::MissingToken);
            },
            Some(h) => h,
        };
        let bearer = "Bearer ";
        let admin = "/post";
        proof {
            reveal_strlit("Bearer ");
            reveal_strlit("/post");
            assert(bearer@ == bearer_prefix());
            assert(admin@ == admin_prefix());
        }
        let token = strip_prefix_once(h, bearer);
        match self.parse(token, now) {
            None => Err(ApiError::InvalidToken),
            Some(c) => {
                let admin_only = starts_with(path, admin);
                let is_admin = match c.role {
                    Some(Role::Admin) => true,
                    _ => false,
                };
                if admin_only && !is_admin {
                    Err(ApiError::Forbidden)
                } else {
                    Ok(c)
                }
            },
        }
    }

    /// The route guard at the current time.
    pub fn verify_token(&self, header: Option<&str>, path: &str) -> (r: Result<Claims, ApiError>)
        ensures
            r matches Ok(c) ==> exists|now: int|
                0 <= now <= i64::MAX && guard_spec(opt_str(header), path@, self@, now) == Ok::<ClaimsView, ApiError>(c@),
            r matches Err(e) ==> exists|now: int|
                0 <= now <= i64::MAX && guard_spec(opt_str(header), path@, self@, now) == Err::<ClaimsView, ApiError>(e),
    {
        let now = now_seconds();
        self.authorize(header, path, now)
    }
}

} // verus!
