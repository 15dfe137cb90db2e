use vstd::prelude::*;

verus! {

/// The closed set of roles that a credential record and a session token carry.
#[derive(Clone, Copy, Debug, PartialEq, Eq, Structural)]
pub enum Role {
    User,
    Admin,
}

/// The name under which a role travels inside a token and is kept in the store.
pub open spec fn role_name(r: Role) -> Seq<char> {
    match r {
        Role::User => seq!['u', 's', 'e', 'r'],
        Role::Admin => seq!['a', 'd', 'm', 'i', 'n'],
    }
}

/// The role that a name denotes, if any.
pub open spec fn role_of_name(s: Seq<char>) -> Option<Role> {
    if s == role_name(Role::Admin) {
        Some(Role::Admin)
    } else if s == role_name(Role::User) {
        Some(Role::User)
    } else {
        None
    }
}

pub proof fn lemma_role_name_round_trip(r: Role)
    ensures
        role_of_name(role_name(r)) == Some(r),
{
    if r == Role::User {
        assert(role_name(Role::User)[0] != role_name(Role::Admin)[0]);
    }
}

impl Role {
    /// The role's wire name: `"user"` or `"admin"`.
    pub fn name(&self) -> (r: String)
        ensures
            r@ == role_name(*self),
    {
        let r = match self {
            Role::User => String::from_str("user"),
            Role::Admin => String::from_str("admin"),
        };
        proof {
            reveal_strlit("user");
            reveal_strlit("admin");
        }
        r
    }

    /// Reads a wire name back; any other text is no role.
    pub fn from_name(s: &str) -> (r: Option<Role>)
        ensures
            r == role_of_name(s@),
    {
        let owned = String::from_str(s);
        let admin = Role::Admin.name();
        let user = Role::User.name();
        if owned == admin {
            Some(Role::Admin)
        } else if owned == user {
            Some(Role::User)
        } else {
            None
        }
    }
}

impl Role {
    /// Reads the free-form role column of a stored record: only `"admin"` grants
    /// administrator rights, anything else is an ordinary user.
    pub fn from_stored(s: &str) -> (r: Role)
        ensures
            r == (if role_of_name(s@) == Some(Role::Admin) {
                Role::Admin
            } else {
                Role::User
            }),
    {
        match Role::from_name(s) {
            Some(Role::Admin) => Role::Admin,
            _ => Role::User,
        }
    }
}

} // verus!
