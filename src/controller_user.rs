use vstd::prelude::*;

use crate::clock::{expiry, expiry_after, now_seconds};
use crate::error::ApiError;
use crate::model_user::{
    has_email, index_of, login_post, register_post, set_password_post, with_recovery,
    CodeEmailPayload, EmailPayload, LoginRequest, LoginResponse, ModelUser, UpdatePasswordPayload,
    UserPassword, UserRequestRegister, UserView,
};
use crate::password::{bcrypt_accepts, hash_password, verify_password};
use crate::recovery::{generate_code, is_recovery_code, CODE_TTL};
use crate::token::{recovery_claims, token_claims, Claims, HelperMiddlewareToken};

verus! {

/// Requesting a recovery code for `email` at `now` took store `pre` to `post`
/// with result `r` (the plaintext code, to be sent out of band).
pub open spec fn request_code_post(
    pre: Seq<UserView>,
    post: Seq<UserView>,
    email: Seq<char>,
    now: int,
    r: Result<String, ApiError>,
) -> bool {
    if !has_email(pre, email) {
        r == Err::<String, ApiError>(ApiError::EmailNotRegistered) && post == pre
    } else {
        let i = index_of(pre, email);
        match r {
            Ok(code) => {
                &&& is_recovery_code(code@)
                &&& post == with_recovery(pre, i, post[i].recovery)
                &&& post[i].recovery is Some
                &&& post[i].recovery->Some_0.1 == expiry(now, CODE_TTL as int)
                &&& bcrypt_accepts(code@, post[i].recovery->Some_0.0)
            },
            Err(e) => e == ApiError::HashFailure && post == pre,
        }
    }
}

/// The error, if any, with which checking `code` for `email` at `now` fails on store `s`.
pub open spec fn check_code_error(s: Seq<UserView>, email: Seq<char>, code: Seq<char>, now: int) -> Option<ApiError> {
    if !has_email(s, email) {
        Some(ApiError::EmailNotRegistered)
    } else {
        match s[index_of(s, email)].recovery {
            None => Some(ApiError::NoCodePending),
            Some((h, exp)) => if now > exp {
                Some(ApiError::CodeExpired)
            } else if !bcrypt_accepts(code, h) {
                Some(ApiError::InvalidCode)
            } else {
                None
            },
        }
    }
}

/// Checking `code` for `email` at `now` took store `pre` to `post` with result
/// `r`. A failed check changes nothing; a passing one consumes the code and
/// always returns a recovery token.
pub open spec fn check_code_post(
    pre: Seq<UserView>,
    post: Seq<UserView>,
    secret: Seq<u8>,
    email: Seq<char>,
    code: Seq<char>,
    now: int,
    r: Result<String, ApiError>,
) -> bool {
    match check_code_error(pre, email, code, now) {
        Some(e) => r == Err::<String, ApiError>(e) && post == pre,
        None => {
            &&& post == with_recovery(pre, index_of(pre, email), None)
            &&& r is Ok
            &&& r->Ok_0@.len() > 0
            &&& token_claims(r->Ok_0@, secret) == Some(recovery_claims(email, now))
        },
    }
}

/// The account flows: registration, login, session introspection and the
/// three steps of password recovery.
pub struct ControllerUser;

impl ControllerUser {
    /// Registers an account: refused for an email that already has a record.
    pub fn register_user(store: &mut ModelUser, data: &UserRequestRegister) -> (r: Result<i64, ApiError>)
        requires
            old(store).wf(),
        ensures
            final(store).wf(),
            register_post(old(store)@, final(store)@, data.user.name@, data.user.email@, data.user.password@, r),
    {
        match store.verify_email_already_exists(data.user.email.as_str()) {
            Err(e) => Err(e),
            Ok(()) => store.insert_user(data),
        }
    }

    /// Login at the current time.
    pub fn login(store: &ModelUser, codec: &HelperMiddlewareToken, data: &LoginRequest) -> (r: Result<LoginResponse, ApiError>)
        requires
            store.wf(),
        ensures
            exists|now: int|
                0 <= now <= i64::MAX && login_post(store@, codec@, data.user.email@, data.user.password@, now, r),
    {
        let now = now_seconds();
        store.auth_user(codec, data, now)
    }

    /// The identity that the request's validated claims carry.
    pub fn get_me(claims: &Claims) -> (r: Claims)
        ensures
            r@ == claims@,
    {
        claims.duplicate()
    }

    /// Starts recovery at time `now`: a fresh code replaces any pending one, its
    /// digest and expiry (`now` + 15 minutes) are stored, and the plaintext code
    /// is returned for delivery.
    pub fn fg_send_code_to_email_at(store: &mut ModelUser, payload: &EmailPayload, now: u64) -> (r: Result<String, ApiError>)
        requires
            old(store).wf(),
        ensures
            final(store).wf(),
            request_code_post(old(store)@, final(store)@, payload.email@, now as int, r),
    {
        let user = match store.fg_verify_email_already_exists(payload.email.as_str()) {
            Err(e) => {
                return Err(e);
            },
            Ok(u) => u,
        };
        let ghost i = index_of(store@, payload.email@);
        let code = generate_code();
        let hashed = match hash_password(code.as_str(), store.hash_cost()) {
            Err(e) => {
                return Err(e);
            },
            Ok(h) => h,
        };
        let expiration = expiry_after(now, CODE_TTL);
        store.update_user_code(user.id, hashed.as_str(), expiration);
        assert(store@[i] == (UserView { recovery: Some((hashed@, expiration as int)), ..old(store)@[i] }));
        Ok(code)
    }

    /// Starts recovery at the current time.
    pub fn fg_send_code_to_email(store: &mut ModelUser, payload: &EmailPayload) -> (r: Result<String, ApiError>)
        requires
            old(store).wf(),
        ensures
            final(store).wf(),
            exists|now: int|
                0 <= now <= i64::MAX && request_code_post(old(store)@, final(store)@, payload.email@, now, r),
    {
        let now = now_seconds();
        Self::fg_send_code_to_email_at(store, payload, now)
    }

    /// Checks a recovery code at time `now` and consumes it when it passes. An
    /// expired or wrong code leaves the pending code in place.
    pub fn consume_code_at(store: &mut ModelUser, payload: &CodeEmailPayload, now: u64) -> (r: Result<(), ApiError>)
        requires
            old(store).wf(),
        ensures
            final(store).wf(),
            match check_code_error(old(store)@, payload.email@, payload.code@, now as int) {
                Some(e) => r == Err::<(), ApiError>(e) && final(store)@ == old(store)@,
                None => r is Ok && final(store)@ == with_recovery(old(store)@, index_of(old(store)@, payload.email@), None),
            },
    {
        let user = match store.get_user_by_email(payload.email.as_str()) {
            Err(e) => {
                return Err(e);
            },
            Ok(u) => u,
        };
        match &user.recovery {
            None => Err(ApiError::NoCodePending),
            Some(rc) => {
                if now > rc.expires_at {
                    return Err(ApiError::CodeExpired);
                }
                if !verify_password(payload.code.as_str(), rc.code_hash.as_str()) {
                    return Err(ApiError::InvalidCode);
                }
                store.clear_code(user.id);
                Ok(())
            },
        }
    }

    /// Checks a recovery code at time `now`: a passing code is consumed and a
    /// recovery token for the account is issued.
    pub fn fg_check_code_at(
        store: &mut ModelUser,
        codec: &HelperMiddlewareToken,
        payload: &CodeEmailPayload,
        now: u64,
    ) -> (r: Result<String, ApiError>)
        requires
            old(store).wf(),
        ensures
            final(store).wf(),
            check_code_post(old(store)@, final(store)@, codec@, payload.email@, payload.code@, now as int, r),
    {
        match Self::consume_code_at(store, payload, now) {
            Err(e) => Err(e),
            Ok(()) => Ok(codec.create_token_fg(payload.email.as_str(), now)),
        }
    }

    /// Checks a recovery code at the current time.
    pub fn fg_check_code(store: &mut ModelUser, codec: &HelperMiddlewareToken, payload: &CodeEmailPayload) -> (r: Result<String, ApiError>)
        requires
            old(store).wf(),
        ensures
            final(store).wf(),
            exists|now: int|
                0 <= now <= i64::MAX && check_code_post(old(store)@, final(store)@, codec@, payload.email@, payload.code@, now, r),
    {
        let now = now_seconds();
        Self::fg_check_code_at(store, codec, payload, now)
    }

    /// Sets a new password for the account named by the validated claims; the
    /// account is never taken from the request body.
    pub fn fg_update_user_password(store: &mut ModelUser, claims: &Claims, payload: &UpdatePasswordPayload) -> (r: Result<(), ApiError>)
        requires
            old(store).wf(),
        ensures
            final(store).wf(),
            set_password_post(old(store)@, final(store)@, claims.sub@, payload.password@, r),
    {
        let data = UserPassword { email: claims.sub.clone(), password: payload.password.clone() };
        store.fg_update_user_password(&data)
    }
}

} // verus!
