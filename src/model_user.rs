use vstd::prelude::*;

use crate::error::ApiError;
use crate::password::{bcrypt_accepts, hash_password, verify_password, DEFAULT_COST};
use crate::role::Role;
use crate::token::{session_claims, token_claims, HelperMiddlewareToken};

verus! {

/// A pending recovery code: only its digest and expiry are kept.
pub struct RecoveryCode {
    pub code_hash: String,
    /// Unix seconds; the code may be used up to and including this instant.
    pub expires_at: u64,
}

/// A credential record.
pub struct User {
    pub id: i64,
    pub name: String,
    pub email: String,
    /// The bcrypt digest of the password.
    pub password: String,
    pub role: Role,
    /// Digest and expiry of the pending recovery code; both or neither.
    pub recovery: Option<RecoveryCode>,
}

/// A request that carries a whole credential record.
pub struct UserRequest {
    pub user: User,
}

/// The identity and recovery fields of a record, as a lookup by email gives them.
pub struct UserCode {
    pub id: i64,
    pub email: String,
    pub recovery: Option<RecoveryCode>,
}

pub struct UserRequestRegisterSchema {
    pub name: String,
    pub email: String,
    pub password: String,
}

pub struct UserRequestRegister {
    pub user: UserRequestRegisterSchema,
}

pub struct UserRequestLoginSchema {
    pub email: String,
    pub password: String,
}

pub struct LoginRequest {
    pub user: UserRequestLoginSchema,
}

pub struct EmailPayload {
    pub email: String,
}

pub struct CodeEmailPayload {
    pub code: String,
    pub email: String,
}

pub struct UpdatePasswordPayload {
    pub password: String,
}

pub struct UserPassword {
    pub email: String,
    pub password: String,
}

/// What a successful login hands back.
pub struct LoginResponse {
    pub token: String,
    pub user_id: i64,
}

pub struct UserView {
    pub id: int,
    pub name: Seq<char>,
    pub email: Seq<char>,
    pub password: Seq<char>,
    pub role: Role,
    pub recovery: Option<(Seq<char>, int)>,
}

pub open spec fn recovery_view(r: Option<RecoveryCode>) -> Option<(Seq<char>, int)> {
    match r {
        Some(c) => Some((c.code_hash@, c.expires_at as int)),
        None => None,
    }
}

impl View for User {
    type V = UserView;

    open spec fn view(&self) -> UserView {
        UserView {
            id: self.id as int,
            name: self.name@,
            email: self.email@,
            password: self.password@,
            role: self.role,
            recovery: recovery_view(self.recovery),
        }
    }
}

impl RecoveryCode {
    /// The pending code that a record's two nullable columns describe: one only
    /// when both are set.
    pub fn from_columns(code_hash: Option<String>, expires_at: Option<u64>) -> (r: Option<RecoveryCode>)
        ensures
            recovery_view(r) == match (code_hash, expires_at) {
                (Some(h), Some(t)) => Some((h@, t as int)),
                _ => None,
            },
    {
        match (code_hash, expires_at) {
            (Some(h), Some(t)) => Some(RecoveryCode { code_hash: h, expires_at: t }),
            _ => None,
        }
    }
}

/// Whether some record has email `e`.
pub open spec fn has_email(s: Seq<UserView>, e: Seq<char>) -> bool {
    exists|i: int| 0 <= i < s.len() && (#[trigger] s[i]).email == e
}

/// The position of the record with email `e`, where there is one.
pub open spec fn index_of(s: Seq<UserView>, e: Seq<char>) -> int {
    choose|i: int| 0 <= i < s.len() && (#[trigger] s[i]).email == e
}

/// No two records share an email.
pub open spec fn emails_unique(s: Seq<UserView>) -> bool {
    forall|i: int, j: int|
        0 <= i < s.len() && 0 <= j < s.len() && i != j ==> (#[trigger] s[i]).email != (#[trigger] s[j]).email
}

/// No two records share an id.
pub open spec fn ids_unique(s: Seq<UserView>) -> bool {
    forall|i: int, j: int|
        0 <= i < s.len() && 0 <= j < s.len() && i != j ==> (#[trigger] s[i]).id != (#[trigger] s[j]).id
}

/// The record at `i` with its recovery fields replaced.
pub open spec fn with_recovery(s: Seq<UserView>, i: int, r: Option<(Seq<char>, int)>) -> Seq<UserView> {
    s.update(i, UserView { recovery: r, ..s[i] })
}

/// The record at `i` with its password digest replaced.
pub open spec fn with_password(s: Seq<UserView>, i: int, p: Seq<char>) -> Seq<UserView> {
    s.update(i, UserView { password: p, ..s[i] })
}

pub proof fn lemma_index_of(s: Seq<UserView>, e: Seq<char>, i: int)
    requires
        emails_unique(s),
        0 <= i < s.len(),
        s[i].email == e,
    ensures
        index_of(s, e) == i,
{
    assert(has_email(s, e));
}

/// The credential store: records kept by email, each email at most once.
pub struct ModelUser {
    users: Vec<User>,
    next_id: i64,
    cost: u32,
}

impl View for ModelUser {
    type V = Seq<UserView>;

    closed spec fn view(&self) -> Seq<UserView> {
        self.users@.map_values(|u: User| u@)
    }
}

impl ModelUser {
    /// The store's invariant: emails and ids unique, every id below the next one.
    pub closed spec fn wf(&self) -> bool {
        &&& emails_unique(self@)
        &&& ids_unique(self@)
        &&& forall|i: int| 0 <= i < self@.len() ==> (#[trigger] self@[i]).id < self.next_id
    }

    /// An empty store that hashes at bcrypt's default work factor.
    pub fn new() -> (r: Self)
        ensures
            r.wf(),
            r@ == Seq::<UserView>::empty(),
            r.cost() == DEFAULT_COST,
    {
        Self::with_cost(DEFAULT_COST)
    }

    /// An empty store that hashes passwords and codes at work factor `cost`.
    pub fn with_cost(cost: u32) -> (r: Self)
        ensures
            r.wf(),
            r@ == Seq::<UserView>::empty(),
            r.cost() == cost,
    {
        let r = ModelUser { users: Vec::new(), next_id: 1, cost };
        assert(r@ =~= Seq::<UserView>::empty());
        r
    }

    /// The work factor used for new digests.
    pub closed spec fn cost(&self) -> u32 {
        self.cost
    }

    /// The work factor used for new digests.
    pub fn hash_cost(&self) -> (c: u32)
        ensures
            c == self.cost(),
    {
        self.cost
    }

    /// The records, in the order they were added.
    pub fn users(&self) -> (r: &Vec<User>)
        ensures
            r@.map_values(|u: User| u@) == self@,
    {
        &self.users
    }

    /// Number of records.
    pub fn len(&self) -> (n: usize)
        ensures
            n == self@.len(),
    {
        self.users.len()
    }

    fn find(&self, email: &str) -> (r: Option<usize>)
        requires
            self.wf(),
        ensures
            match r {
                Some(i) => i < self@.len() && self@[i as int].email == email@ && index_of(self@, email@) == i,
                None => !has_email(self@, email@),
            },
    {
        let target = String::from_str(email);
        let mut i: usize = 0;
        while i < self.users.len()
            invariant
                self.wf(),
                target@ == email@,
                i <= self.users@.len(),
                forall|j: int| 0 <= j < i ==> (#[trigger] self@[j]).email != email@,
            decreases self.users@.len() - i,
        {
            if self.users[i].email == target {
                proof {
                    lemma_index_of(self@, email@, i as int);
                }
                return Some(i);
            }
            i = i + 1;
        }
        None
    }

    fn copy_recovery(r: &Option<RecoveryCode>) -> (c: Option<RecoveryCode>)
        ensures
            recovery_view(c) == recovery_view(*r),
    {
        match r {
            Some(rc) => Some(RecoveryCode { code_hash: rc.code_hash.clone(), expires_at: rc.expires_at }),
            None => None,
        }
    }

    /// Adds a record read from persistent storage, unless its email or id is
    /// already present or its id is the largest one.
    pub fn load_user(&mut self, request: UserRequest) -> (r: bool)
        requires
            old(self).wf(),
        ensures
            final(self).wf(),
            r == (!has_email(old(self)@, request.user.email@) && request.user.id < i64::MAX
                && forall|i: int| 0 <= i < old(self)@.len() ==> (#[trigger] old(self)@[i]).id != request.user.id),
            r ==> final(self)@ == old(self)@.push(request.user@),
            !r ==> final(self)@ == old(self)@,
    {
        let user = request.user;
        if user.id == i64::MAX {
            return false;
        }
        if let Some(_) = self.find(user.email.as_str()) {
            return false;
        }
        let mut i: usize = 0;
        while i < self.users.len()
            invariant
                self.wf(),
                *self == *old(self),
                !has_email(self@, user.email@),
                user.id < i64::MAX,
                user@ == request.user@,
                i <= self.users@.len(),
                forall|j: int| 0 <= j < i ==> (#[trigger] self@[j]).id != user.id,
            decreases self.users@.len() - i,
        {
            if self.users[i].id == user.id {
                assert(self@[i as int].id == user.id);
                assert(old(self)@[i as int].id == request.user.id);
                assert(!(forall|j: int| 0 <= j < old(self)@.len() ==> (#[trigger] old(self)@[j]).id != user.id));
                return false;
            }
            i = i + 1;
        }
        let ghost pre = self@;
        if user.id >= self.next_id {
            self.next_id = user.id + 1;
        }
        self.users.push(user);
        assert(self@ =~= pre.push(user@));
        true
    }

    /// `Err(EmailTaken)` exactly when a record with `email` exists.
    pub fn verify_email_already_exists(&self, email: &str) -> (r: Result<(), ApiError>)
        requires
            self.wf(),
        ensures
            r == if has_email(self@, email@) {
                Err::<(), ApiError>(ApiError::EmailTaken)
            } else {
                Ok::<(), ApiError>(())
            },
    {
        match self.find(email) {
            Some(_) => Err(ApiError::EmailTaken),
            None => Ok(()),
        }
    }

    /// Whether the store has no identifier left for a new record.
    pub closed spec fn ids_exhausted(&self) -> bool {
        self.next_id == i64::MAX
    }

    /// Creates a record with role `User` whose password digest is `digest`.
    /// Refused for an email that already has a record, or when no id is left.
    pub fn insert_user_with_digest(&mut self, data: &UserRequestRegister, digest: String) -> (r: Result<i64, ApiError>)
        requires
            old(self).wf(),
        ensures
            final(self).wf(),
            has_email(old(self)@, data.user.email@) ==> r == Err::<i64, ApiError>(ApiError::EmailTaken)
                && final(self)@ == old(self)@,
            !has_email(old(self)@, data.user.email@) && old(self).ids_exhausted() ==> r == Err::<i64, ApiError>(
                ApiError::StoreFull,
            ) && final(self)@ == old(self)@,
            !has_email(old(self)@, data.user.email@) && !old(self).ids_exhausted() ==> (r matches Ok(id)
                && final(self)@ == old(self)@.push(
                UserView {
                    id: id as int,
                    name: data.user.name@,
                    email: data.user.email@,
                    password: digest@,
                    role: Role::User,
                    recovery: None,
                },
            )),
    {
        let email = data.user.email.as_str();
        if let Some(i) = self.find(email) {
            assert(has_email(self@, email@) && self@[i as int].email == email@);
            return Err(ApiError::EmailTaken);
        }
        if self.next_id == i64::MAX {
            return Err(ApiError::StoreFull);
        }
        let id = self.next_id;
        let user = User {
            id,
            name: data.user.name.clone(),
            email: data.user.email.clone(),
            password: digest,
            role: Role::User,
            recovery: None,
        };
        let ghost pre = self@;
        self.users.push(user);
        self.next_id = id + 1;
        assert(self@ =~= pre.push(user@));
        Ok(id)
    }

    /// Creates a record with role `User` and the digest of the given password.
    /// The store itself refuses a second record for one email.
    pub fn insert_user(&mut self, data: &UserRequestRegister) -> (r: Result<i64, ApiError>)
        requires
            old(self).wf(),
        ensures
            final(self).wf(),
            register_post(old(self)@, final(self)@, data.user.name@, data.user.email@, data.user.password@, r),
    {
        if let Some(i) = self.find(data.user.email.as_str()) {
            assert(self@[i as int].email == data.user.email@);
            return Err(ApiError::EmailTaken);
        }
        let digest = match hash_password(data.user.password.as_str(), self.cost) {
            Ok(d) => d,
            Err(e) => {
                return Err(e);
            },
        };
        let ghost dv = digest@;
        let ghost pre = self@;
        let r = self.insert_user_with_digest(data, digest);
        proof {
            if r is Ok {
                assert(self@.drop_last() =~= pre);
                assert(self@.last().password == dv);
            }
        }
        r
    }

    fn to_user_code(&self, i: usize) -> (r: UserCode)
        requires
            i < self@.len(),
        ensures
            r.id == self@[i as int].id,
            r.email@ == self@[i as int].email,
            recovery_view(r.recovery) == self@[i as int].recovery,
    {
        let u = &self.users[i];
        UserCode { id: u.id, email: u.email.clone(), recovery: Self::copy_recovery(&u.recovery) }
    }

    /// The identity and recovery fields of the record with `email`.
    pub fn get_user_by_email(&self, email: &str) -> (r: Result<UserCode, ApiError>)
        requires
            self.wf(),
        ensures
            !has_email(self@, email@) ==> r == Err::<UserCode, ApiError>(ApiError::EmailNotRegistered),
            has_email(self@, email@) ==> (r matches Ok(u) && user_code_of(u, self@[index_of(self@, email@)])),
    {
        match self.find(email) {
            None => Err(ApiError::EmailNotRegistered),
            Some(i) => Ok(self.to_user_code(i)),
        }
    }

    /// The lookup that starts a recovery request; the same as `get_user_by_email`.
    pub fn fg_verify_email_already_exists(&self, email: &str) -> (r: Result<UserCode, ApiError>)
        requires
            self.wf(),
        ensures
            !has_email(self@, email@) ==> r == Err::<UserCode, ApiError>(ApiError::EmailNotRegistered),
            has_email(self@, email@) ==> (r matches Ok(u) && user_code_of(u, self@[index_of(self@, email@)])),
    {
        self.get_user_by_email(email)
    }

    fn find_id(&self, user_id: i64) -> (r: Option<usize>)
        requires
            self.wf(),
        ensures
            match r {
                Some(i) => i < self@.len() && self@[i as int].id == user_id,
                None => forall|j: int| 0 <= j < self@.len() ==> (#[trigger] self@[j]).id != user_id,
            },
    {
        let mut i: usize = 0;
        while i < self.users.len()
            invariant
                i <= self.users@.len(),
                forall|j: int| 0 <= j < i ==> (#[trigger] self@[j]).id != user_id,
            decreases self.users@.len() - i,
        {
            if self.users[i].id == user_id {
                return Some(i);
            }
            i = i + 1;
        }
        None
    }

    fn set_recovery(&mut self, i: usize, rec: Option<RecoveryCode>)
        requires
            old(self).wf(),
            i < old(self)@.len(),
        ensures
            final(self).wf(),
            final(self)@ == with_recovery(old(self)@, i as int, recovery_view(rec)),
    {
        let u = &self.users[i];
        let nu = User {
            id: u.id,
            name: u.name.clone(),
            email: u.email.clone(),
            password: u.password.clone(),
            role: u.role,
            recovery: rec,
        };
        let ghost pre = self@;
        self.users.set(i, nu);
        assert(self@ =~= with_recovery(pre, i as int, recovery_view(rec)));
    }

    fn set_password(&mut self, i: usize, digest: String)
        requires
            old(self).wf(),
            i < old(self)@.len(),
        ensures
            final(self).wf(),
            final(self)@ == with_password(old(self)@, i as int, digest@),
    {
        let u = &self.users[i];
        let nu = User {
            id: u.id,
            name: u.name.clone(),
            email: u.email.clone(),
            password: digest,
            role: u.role,
            recovery: Self::copy_recovery(&u.recovery),
        };
        let ghost pre = self@;
        let ghost dv = digest@;
        self.users.set(i, nu);
        assert(self@ =~= with_password(pre, i as int, dv));
    }

    /// Stores a new pending code (digest and expiry) on the record with `user_id`,
    /// replacing any earlier one. Without such a record nothing changes.
    pub fn update_user_code(&mut self, user_id: i64, hashed_code: &str, expiration: u64)
        requires
            old(self).wf(),
        ensures
            final(self).wf(),
            forall|i: int| 0 <= i < old(self)@.len() && (#[trigger] old(self)@[i]).id == user_id ==>
                final(self)@ == with_recovery(old(self)@, i, Some((hashed_code@, expiration as int))),
            (forall|i: int| 0 <= i < old(self)@.len() ==> (#[trigger] old(self)@[i]).id != user_id)
                ==> final(self)@ == old(self)@,
    {
        match self.find_id(user_id) {
            Some(i) => {
                let rec = RecoveryCode { code_hash: String::from_str(hashed_code), expires_at: expiration };
                self.set_recovery(i, Some(rec));
            },
            None => {},
        }
    }

    /// Clears both recovery fields of the record with `user_id`.
    pub fn clear_code(&mut self, user_id: i64)
        requires
            old(self).wf(),
        ensures
            final(self).wf(),
            forall|i: int| 0 <= i < old(self)@.len() && (#[trigger] old(self)@[i]).id == user_id ==>
                final(self)@ == with_recovery(old(self)@, i, None),
            (forall|i: int| 0 <= i < old(self)@.len() ==> (#[trigger] old(self)@[i]).id != user_id)
                ==> final(self)@ == old(self)@,
    {
        match self.find_id(user_id) {
            Some(i) => self.set_recovery(i, None),
            None => {},
        }
    }

    /// Replaces the password digest of the record with `email` by `digest`.
    /// Without such a record nothing changes.
    pub fn update_password_digest(&mut self, email: &str, digest: String)
        requires
            old(self).wf(),
        ensures
            final(self).wf(),
            has_email(old(self)@, email@) ==> final(self)@ == with_password(
                old(self)@,
                index_of(old(self)@, email@),
                digest@,
            ),
            !has_email(old(self)@, email@) ==> final(self)@ == old(self)@,
    {
        match self.find(email) {
            Some(i) => self.set_password(i, digest),
            None => {},
        }
    }

    /// Replaces the password of the record with `data.email` by the digest of
    /// `data.password`. Without such a record nothing changes.
    pub fn fg_update_user_password(&mut self, data: &UserPassword) -> (r: Result<(), ApiError>)
        requires
            old(self).wf(),
        ensures
            final(self).wf(),
            set_password_post(old(self)@, final(self)@, data.email@, data.password@, r),
    {
        let digest = match hash_password(data.password.as_str(), self.cost) {
            Ok(d) => d,
            Err(e) => {
                return Err(e);
            },
        };
        self.update_password_digest(data.email.as_str(), digest);
        Ok(())
    }
}

impl ModelUser {
    /// Checks a login's credentials: the id and role of the record with that
    /// email when the password matches its digest. An unknown email and a wrong
    /// password give the same error.
    pub fn check_credentials(&self, data: &LoginRequest) -> (r: Result<(i64, Role), ApiError>)
        requires
            self.wf(),
        ensures
            login_refused(self@, data.user.email@, data.user.password@) ==> r == Err::<(i64, Role), ApiError>(
                ApiError::InvalidCredentials,
            ),
            !login_refused(self@, data.user.email@, data.user.password@) ==> (r matches Ok((id, role))
                && id as int == self@[index_of(self@, data.user.email@)].id
                && role == self@[index_of(self@, data.user.email@)].role),
    {
        match self.find(data.user.email.as_str()) {
            None => Err(ApiError::InvalidCredentials),
            Some(i) => {
                let u = &self.users[i];
                if verify_password(data.user.password.as_str(), u.password.as_str()) {
                    Ok((u.id, u.role))
                } else {
                    Err(ApiError::InvalidCredentials)
                }
            },
        }
    }

    /// Login at time `now`: on accepted credentials, always a session token
    /// carrying the record's role and id.
    pub fn auth_user(&self, codec: &HelperMiddlewareToken, data: &LoginRequest, now: u64) -> (r: Result<LoginResponse, ApiError>)
        requires
            self.wf(),
        ensures
            login_post(self@, codec@, data.user.email@, data.user.password@, now as int, r),
    {
        match self.check_credentials(data) {
            Err(e) => Err(e),
            Ok((user_id, role)) => {
                let token = codec.create_token(data.user.email.as_str(), role, user_id, now);
                Ok(LoginResponse { token, user_id })
            },
        }
    }
}

/// Whether login with (`email`, `password`) is refused by the store `s`.
pub open spec fn login_refused(s: Seq<UserView>, email: Seq<char>, password: Seq<char>) -> bool {
    !has_email(s, email) || !bcrypt_accepts(password, s[index_of(s, email)].password)
}

/// Login with (`email`, `password`) at `now` against store `s` gave `r`.
pub open spec fn login_post(
    s: Seq<UserView>,
    secret: Seq<u8>,
    email: Seq<char>,
    password: Seq<char>,
    now: int,
    r: Result<LoginResponse, ApiError>,
) -> bool {
    if login_refused(s, email, password) {
        r == Err::<LoginResponse, ApiError>(ApiError::InvalidCredentials)
    } else {
        let u = s[index_of(s, email)];
        &&& r is Ok
        &&& r->Ok_0.user_id == u.id
        &&& r->Ok_0.token@.len() > 0
        &&& token_claims(r->Ok_0.token@, secret) == Some(session_claims(email, u.role, u.id, now))
    }
}

/// `u` holds the identity and recovery fields of record `v`.
pub open spec fn user_code_of(u: UserCode, v: UserView) -> bool {
    &&& u.id == v.id
    &&& u.email@ == v.email
    &&& recovery_view(u.recovery) == v.recovery
}

/// Registration of (`name`, `email`, `password`) took store `pre` to `post`
/// with result `r`.
pub open spec fn register_post(
    pre: Seq<UserView>,
    post: Seq<UserView>,
    name: Seq<char>,
    email: Seq<char>,
    password: Seq<char>,
    r: Result<i64, ApiError>,
) -> bool {
    if has_email(pre, email) {
        r == Err::<i64, ApiError>(ApiError::EmailTaken) && post == pre
    } else {
        match r {
            Ok(id) => {
                &&& post.len() == pre.len() + 1
                &&& post.drop_last() == pre
                &&& post.last() == UserView {
                    id: id as int,
                    name,
                    email,
                    password: post.last().password,
                    role: Role::User,
                    recovery: None,
                }
                &&& bcrypt_accepts(password, post.last().password)
            },
            Err(e) => (e == ApiError::HashFailure || e == ApiError::StoreFull) && post == pre,
        }
    }
}

/// Setting the password of the account `email` took store `pre` to `post`.
pub open spec fn set_password_post(
    pre: Seq<UserView>,
    post: Seq<UserView>,
    email: Seq<char>,
    password: Seq<char>,
    r: Result<(), ApiError>,
) -> bool {
    match r {
        Err(e) => e == ApiError::HashFailure && post == pre,
        Ok(_) => if has_email(pre, email) {
            let i = index_of(pre, email);
            &&& post == with_password(pre, i, post[i].password)
            &&& bcrypt_accepts(password, post[i].password)
        } else {
            post == pre
        },
    }
}

} // verus!
