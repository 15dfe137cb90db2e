use vstd::prelude::*;

use crate::controller_user::{check_code_error, check_code_post, request_code_post};
use crate::error::{kind_of, ApiError};
use crate::model_user::{
    emails_unique, has_email, index_of, lemma_index_of, login_post, register_post, with_recovery,
    LoginResponse, UserView,
};
use crate::password::bcrypt_accepts;
use crate::clock::expiry;
use crate::recovery::CODE_TTL;
use crate::token::{parse_spec, recovery_claims, token_claims, ClaimsView};

verus! {

/// Replacing the recovery fields of one record keeps every email where it was.
pub proof fn lemma_with_recovery_keeps_emails(
    s: Seq<UserView>,
    i: int,
    r: Option<(Seq<char>, int)>,
    e: Seq<char>,
)
    requires
        emails_unique(s),
        0 <= i < s.len(),
    ensures
        with_recovery(s, i, r).len() == s.len(),
        forall|j: int| 0 <= j < s.len() ==> (#[trigger] with_recovery(s, i, r)[j]).email == s[j].email,
        emails_unique(with_recovery(s, i, r)),
        has_email(with_recovery(s, i, r), e) == has_email(s, e),
        has_email(s, e) ==> index_of(with_recovery(s, i, r), e) == index_of(s, e),
{
    let t = with_recovery(s, i, r);
    assert forall|j: int| 0 <= j < s.len() implies (#[trigger] t[j]).email == s[j].email by {}
    if has_email(s, e) {
        let k = index_of(s, e);
        assert(t[k].email == e);
        lemma_index_of(t, e, k);
    }
    if has_email(t, e) {
        let k = index_of(t, e);
        assert(s[k].email == e);
    }
}

/// Once an email is registered, registering it again is refused with
/// `EmailTaken` and leaves the store unchanged: no email gets a second record.
pub proof fn law_second_registration_refused(
    s0: Seq<UserView>,
    s1: Seq<UserView>,
    s2: Seq<UserView>,
    name: Seq<char>,
    email: Seq<char>,
    password: Seq<char>,
    r1: Result<i64, ApiError>,
    name2: Seq<char>,
    password2: Seq<char>,
    r2: Result<i64, ApiError>,
)
    requires
        emails_unique(s0),
        register_post(s0, s1, name, email, password, r1),
        r1 is Ok,
        register_post(s1, s2, name2, email, password2, r2),
    ensures
        r2 == Err::<i64, ApiError>(ApiError::EmailTaken),
        s2 == s1,
        emails_unique(s2),
{
    let n = s0.len() as int;
    assert(s1[n].email == email);
    assert(has_email(s1, email));
    assert(forall|j: int| 0 <= j < n ==> #[trigger] s1[j] == s0[j]) by {
        assert(forall|j: int| 0 <= j < n ==> s1.drop_last()[j] == #[trigger] s1[j]);
    }
}

/// A registered (email, password) pair logs in: the result is a non-empty
/// token whose claims name that email as subject and parse at the login time.
pub proof fn law_login_after_registration(
    s0: Seq<UserView>,
    s1: Seq<UserView>,
    secret: Seq<u8>,
    name: Seq<char>,
    email: Seq<char>,
    password: Seq<char>,
    r1: Result<i64, ApiError>,
    now: int,
    r2: Result<LoginResponse, ApiError>,
)
    requires
        emails_unique(s0),
        register_post(s0, s1, name, email, password, r1),
        r1 is Ok,
        login_post(s1, secret, email, password, now, r2),
        0 <= now < u64::MAX,
    ensures
        r2 is Ok,
        r2 matches Ok(resp) ==> {
            &&& resp.user_id == r1->Ok_0
            &&& resp.token@.len() > 0
            &&& token_claims(resp.token@, secret) is Some
            &&& token_claims(resp.token@, secret)->Some_0.sub == email
            &&& parse_spec(resp.token@, secret, now) == token_claims(resp.token@, secret)
        },
{
    let n = s0.len() as int;
    assert(forall|j: int| 0 <= j < n ==> #[trigger] s1[j] == s0[j]) by {
        assert(forall|j: int| 0 <= j < n ==> s1.drop_last()[j] == #[trigger] s1[j]);
    }
    assert(!has_email(s0, email));
    assert(emails_unique(s1));
    assert(s1[n].email == email);
    lemma_index_of(s1, email, n);
}

/// A token carries its claims until their expiry: parsing it before `exp`
/// gives exactly the claims it was issued with, at or after `exp` nothing.
pub proof fn law_parse_of_issued(secret: Seq<u8>, token: Seq<char>, claims: ClaimsView, now: int)
    requires
        token_claims(token, secret) == Some(claims),
    ensures
        now < claims.exp ==> parse_spec(token, secret, now) == Some(claims),
        now >= claims.exp ==> parse_spec(token, secret, now) is None,
{
}

/// A requested code, checked with its own value up to its expiry, passes once,
/// yielding a recovery token, and is consumed: a second check with the same
/// value finds no pending code.
pub proof fn law_recovery_code_single_use(
    s0: Seq<UserView>,
    s1: Seq<UserView>,
    s2: Seq<UserView>,
    s3: Seq<UserView>,
    secret: Seq<u8>,
    email: Seq<char>,
    t0: int,
    r0: Result<String, ApiError>,
    t1: int,
    r1: Result<String, ApiError>,
    t2: int,
    r2: Result<String, ApiError>,
)
    requires
        emails_unique(s0),
        request_code_post(s0, s1, email, t0, r0),
        r0 is Ok,
        t1 <= expiry(t0, CODE_TTL as int),
        check_code_post(s1, s2, secret, email, r0->Ok_0@, t1, r1),
        check_code_post(s2, s3, secret, email, r0->Ok_0@, t2, r2),
    ensures
        check_code_error(s1, email, r0->Ok_0@, t1) is None,
        r1 is Ok,
        token_claims(r1->Ok_0@, secret) == Some(recovery_claims(email, t1)),
        r2 == Err::<String, ApiError>(ApiError::NoCodePending),
        s3 == s2,
{
    let i = index_of(s0, email);
    lemma_with_recovery_keeps_emails(s0, i, s1[i].recovery, email);
    let s1_ = with_recovery(s0, i, s1[i].recovery);
    assert(s1 == s1_);
    lemma_with_recovery_keeps_emails(s1, i, None, email);
}

/// A code checked after its expiry is refused with `CodeExpired`, and the
/// pending digest and expiry stay as they were.
pub proof fn law_expired_code_kept(
    s0: Seq<UserView>,
    s1: Seq<UserView>,
    secret: Seq<u8>,
    email: Seq<char>,
    code: Seq<char>,
    now: int,
    r: Result<String, ApiError>,
)
    requires
        has_email(s0, email),
        s0[index_of(s0, email)].recovery is Some,
        now > s0[index_of(s0, email)].recovery->Some_0.1,
        check_code_post(s0, s1, secret, email, code, now, r),
    ensures
        r == Err::<String, ApiError>(ApiError::CodeExpired),
        s1 == s0,
        s1[index_of(s1, email)].recovery == s0[index_of(s0, email)].recovery,
{
}

/// Login with an unknown email and login with a wrong password fail alike.
pub proof fn law_login_failures_alike(
    s: Seq<UserView>,
    secret: Seq<u8>,
    unknown: Seq<char>,
    any_password: Seq<char>,
    email: Seq<char>,
    wrong: Seq<char>,
    now: int,
    ra: Result<LoginResponse, ApiError>,
    rb: Result<LoginResponse, ApiError>,
)
    requires
        !has_email(s, unknown),
        has_email(s, email),
        !bcrypt_accepts(wrong, s[index_of(s, email)].password),
        login_post(s, secret, unknown, any_password, now, ra),
        login_post(s, secret, email, wrong, now, rb),
    ensures
        ra == rb,
        ra == Err::<LoginResponse, ApiError>(ApiError::InvalidCredentials),
{
}

/// A code check for an unknown email and one with a wrong code fail with the
/// same classification, and neither changes the store.
pub proof fn law_code_failures_alike(
    s0: Seq<UserView>,
    s1: Seq<UserView>,
    s2: Seq<UserView>,
    secret: Seq<u8>,
    unknown: Seq<char>,
    any_code: Seq<char>,
    email: Seq<char>,
    wrong: Seq<char>,
    now: int,
    ra: Result<String, ApiError>,
    rb: Result<String, ApiError>,
)
    requires
        !has_email(s0, unknown),
        has_email(s0, email),
        s0[index_of(s0, email)].recovery is Some,
        now <= s0[index_of(s0, email)].recovery->Some_0.1,
        !bcrypt_accepts(wrong, s0[index_of(s0, email)].recovery->Some_0.0),
        check_code_post(s0, s1, secret, unknown, any_code, now, ra),
        check_code_post(s0, s2, secret, email, wrong, now, rb),
    ensures
        ra is Err && rb is Err,
        kind_of(ra->Err_0) == kind_of(rb->Err_0),
        s1 == s0,
        s2 == s0,
{
}

} // verus!
