//! Accounts of the web backend.
use vstd::prelude::*;
use vstd::string::*;
use crate::text::{str_to_lowercase, ascii_lowercase, to_lowercase, concat2, str_eq};
use crate::db::clock::{new_id, now_millis};
use crate::db::traces::is_trace_instant;

verus! {

/// What an account may do.
#[derive(PartialEq, Eq, Structural, Clone, Copy, Debug)]
pub enum UserRole {
    User,
    Admin,
}

impl Default for UserRole {
    fn default() -> (r: UserRole)
        ensures
            r == UserRole::User,
    {
        UserRole::User
    }
}

/// The role an already lowercased name denotes, or the error text.
pub open spec fn user_role_from_lower(lower: Seq<char>) -> Result<UserRole, Seq<char>> {
    if lower == "admin"@ {
        Ok(UserRole::Admin)
    } else if lower == "user"@ {
        Ok(UserRole::User)
    } else {
        Err("Invalid user role: "@ + lower)
    }
}

/// The lowercase name of a role.
pub open spec fn user_role_name(r: UserRole) -> Seq<char> {
    match r {
        UserRole::User => "user"@,
        UserRole::Admin => "admin"@,
    }
}

impl UserRole {
    /// The database name of the role (`rename_all = "lowercase"`).
    pub fn as_str(&self) -> (r: &'static str)
        ensures
            r@ == user_role_name(*self),
    {
        match self {
            UserRole::User => "user",
            UserRole::Admin => "admin",
        }
    }

    /// Reads a role name in any letter case (`TryFrom<&str>`).
    pub fn try_from(s: &str) -> (r: Result<UserRole, String>)
        ensures
            match (r, user_role_from_lower(str_to_lowercase(s@))) {
                (Ok(a), Ok(b)) => a == b,
                (Err(e), Err(m)) => e@ == m,
                _ => false,
            },
            vstd::utf8::is_ascii_chars(s@) ==> match (
                r,
                user_role_from_lower(ascii_lowercase(s@)),
            ) {
                (Ok(a), Ok(b)) => a == b,
                (Err(e), Err(m)) => e@ == m,
                _ => false,
            },
    {
        let lower = to_lowercase(s);
        if str_eq(lower.as_str(), "admin") {
            Ok(UserRole::Admin)
        } else if str_eq(lower.as_str(), "user") {
            Ok(UserRole::User)
        } else {
            Err(concat2("Invalid user role: ", lower.as_str()))
        }
    }
}

/// Reading the lowercase name of a role gives the role back.
pub proof fn lemma_user_role_roundtrip(r: UserRole)
    ensures
        vstd::utf8::is_ascii_chars(user_role_name(r)),
        ascii_lowercase(user_role_name(r)) == user_role_name(r),
        user_role_from_lower(ascii_lowercase(user_role_name(r))) == Ok::<UserRole, Seq<char>>(r),
{
    reveal_strlit("user");
    reveal_strlit("admin");
    assert(ascii_lowercase(user_role_name(r)) =~= user_role_name(r));
}

/// An account: instants are Unix milliseconds, the id is the 128-bit value
/// of its UUID.
#[derive(Clone, Debug)]
pub struct User {
    pub id: u128,
    pub username: String,
    pub email: String,
    pub email_verified: bool,
    pub password_hash: String,
    pub discord_id: Option<String>,
    pub discord_linked_ms: Option<i64>,
    pub last_password_change_ms: i64,
    pub created_at_ms: i64,
    pub last_login_ms: Option<i64>,
    pub role: UserRole,
}

impl Default for User {
    /// A new, unverified user account without name, mail or password, with a
    /// fresh id, created now.
    fn default() -> (u: User)
        ensures
            u.username@ == Seq::<char>::empty(),
            u.email@ == Seq::<char>::empty(),
            !u.email_verified,
            u.password_hash@ == Seq::<char>::empty(),
            u.discord_id.is_none(),
            u.discord_linked_ms.is_none(),
            is_trace_instant(u.last_password_change_ms),
            is_trace_instant(u.created_at_ms),
            u.last_login_ms.is_none(),
            u.role == UserRole::User,
    {
        let id = new_id();
        let changed = now_millis();
        let created = now_millis();
        User {
            id,
            username: String::new(),
            email: String::new(),
            email_verified: false,
            password_hash: String::new(),
            discord_id: None,
            discord_linked_ms: None,
            last_password_change_ms: changed,
            created_at_ms: created,
            last_login_ms: None,
            role: UserRole::default(),
        }
    }
}

} // verus!
