//! Accounts: registering, logging in, and verifying a mail address.
use vstd::prelude::*;
use crate::db::users::{User, UserRole};
use crate::db::trace_ids::{parse_uuid, uuid_parse};
use crate::db::traces::is_trace_instant;
use crate::text::{owned, trim, trim_spec};
use argon2::password_hash::rand_core::OsRng;
use argon2::password_hash::SaltString;
use argon2::{PasswordHash, PasswordHasher, PasswordVerifier};

verus! {

#[verifier::external_type_specification]
#[verifier::external_body]
pub struct ExPasswordHashError(argon2::password_hash::Error);

#[verifier::external_type_specification]
#[verifier::external_body]
pub struct ExSqlxError(sqlx::Error);

/// Why an account operation failed.
pub enum AuthError {
    InvalidCredentials,
    PasswordHashing(argon2::password_hash::Error),
    DatabaseError(sqlx::Error),
    UsernameTaken,
    EmailTaken,
}

impl AuthError {
    /// A failed password hashing (`From<argon2::password_hash::Error>`).
    pub fn from(e: argon2::password_hash::Error) -> (r: AuthError)
        ensures
            r == AuthError::PasswordHashing(e),
    {
        AuthError::PasswordHashing(e)
    }

    /// The text the error displays.
    pub fn to_string(&self) -> (s: String)
        ensures
            s@ == (match *self {
                AuthError::InvalidCredentials => "invalid crendetials"@,
                AuthError::PasswordHashing(_) => "password hashing failed"@,
                AuthError::DatabaseError(_) => "error creating user"@,
                AuthError::UsernameTaken => "username already taken"@,
                AuthError::EmailTaken => "email already taken"@,
            }),
    {
        match self {
            AuthError::InvalidCredentials => owned("invalid crendetials"),
            AuthError::PasswordHashing(_) => owned("password hashing failed"),
            AuthError::DatabaseError(_) => owned("error creating user"),
            AuthError::UsernameTaken => owned("username already taken"),
            AuthError::EmailTaken => owned("email already taken"),
        }
    }
}

/// Whether a password matches a stored hash: `hash` parses as a PHC hash
/// string (`argon2::PasswordHash::new`) and Argon2 with default settings
/// accepts the password for it (`PasswordVerifier::verify_password`).
pub uninterp spec fn argon2_verifies(password: Seq<char>, hash: Seq<char>) -> bool;

/// Checks a password against a stored hash; a hash that does not parse
/// accepts no password.
#[verifier::external_body]
pub fn verify_password(password: &str, hash: &str) -> (r: bool)
    ensures
        r == argon2_verifies(password@, hash@),
{
    match PasswordHash::new(hash) {
        Ok(parsed) => argon2::Argon2::default().verify_password(password.as_bytes(), &parsed).is_ok(),
        Err(_) => false,
    }
}

/// Hashes a password with Argon2's default settings and a fresh random salt
/// (`SaltString::generate(&mut OsRng)`, `PasswordHasher::hash_password`), as a
/// PHC hash string.  The salt rests on chance, so the hash is not named; what
/// holds of every outcome is that the hash accepts the password it was made
/// from.
#[verifier::external_body]
pub fn hash_password(password: &str) -> (r: Result<String, argon2::password_hash::Error>)
    ensures
        r matches Ok(h) ==> argon2_verifies(password@, h@),
{
    let salt = SaltString::generate(&mut OsRng);
    match argon2::Argon2::default().hash_password(password.as_bytes(), &salt) {
        Ok(h) => Ok(h.to_string()),
        Err(e) => Err(e),
    }
}

/// What a login with `password` gives for the account found under the user
/// name, if any.
pub open spec fn login_spec(user: Option<User>, password: Seq<char>) -> Option<u128> {
    match user {
        Some(u) => if argon2_verifies(password, u.password_hash@) {
            Some(u.id)
        } else {
            None
        },
        None => None,
    }
}

/// The login of the account found under the user name: its id when the
/// password matches, and invalid credentials when there is no such account
/// or the password does not match.
pub fn check_login(user: Option<User>, password: &str) -> (r: Result<u128, AuthError>)
    ensures
        match login_spec(user, password@) {
            Some(id) => r matches Ok(i) && i == id,
            None => r matches Err(AuthError::InvalidCredentials),
        },
{
    match user {
        None => Err(AuthError::InvalidCredentials),
        Some(u) => {
            if verify_password(password, u.password_hash.as_str()) {
                Ok(u.id)
            } else {
                Err(AuthError::InvalidCredentials)
            }
        },
    }
}

/// A registration is refused when the user name or, failing that, the mail
/// address is already taken.
pub fn registration_conflict(username_taken: bool, email_taken: bool) -> (r: Option<AuthError>)
    ensures
        username_taken ==> r matches Some(AuthError::UsernameTaken),
        !username_taken && email_taken ==> r matches Some(AuthError::EmailTaken),
        !username_taken && !email_taken ==> r is None,
{
    if username_taken {
        Some(AuthError::UsernameTaken)
    } else if email_taken {
        Some(AuthError::EmailTaken)
    } else {
        None
    }
}

/// The account a registration creates: a new unverified user with the name,
/// the address and a hash of the password.
pub fn new_account(username: String, email: String, password: &str) -> (r: Result<User, AuthError>)
    ensures
        r matches Ok(u) ==> {
            &&& u.username == username
            &&& u.email == email
            &&& argon2_verifies(password@, u.password_hash@)
            &&& !u.email_verified
            &&& u.discord_id.is_none()
            &&& u.last_login_ms.is_none()
            &&& is_trace_instant(u.created_at_ms)
            &&& u.role == UserRole::User
        },
        r matches Err(e) ==> e is PasswordHashing,
{
    match hash_password(password) {
        Err(e) => Err(AuthError::from(e)),
        Ok(password_hash) => {
            let base = User::default();
            Ok(User { username, email, password_hash, ..base })
        },
    }
}

/// An account that registration created logs in with the password it was
/// registered with; any other password logs in exactly when the stored hash
/// accepts it, and is refused as invalid credentials otherwise.
pub proof fn lemma_registered_account_logs_in(u: User, password: Seq<char>)
    requires
        argon2_verifies(password, u.password_hash@),
    ensures
        login_spec(Some(u), password) == Some(u.id),
        forall|q: Seq<char>|
            #![trigger login_spec(Some(u), q)]
            (login_spec(Some(u), q) == Some(u.id) <==> argon2_verifies(q, u.password_hash@)) && (
            login_spec(Some(u), q) is None <==> !argon2_verifies(q, u.password_hash@)),
{
}

/// What a verification mail asks for: the account whose id is the trimmed
/// subject and the trimmed sender address; nothing when the mail has no
/// subject or no sender address; the parse error's message when the subject
/// is no id.
pub fn mail_verification_target(subject: Option<String>, from_address: Option<String>) -> (r:
    Result<Option<(u128, String)>, String>)
    ensures
        match (subject, from_address) {
            (Some(s), Some(a)) => match uuid_parse(trim_spec(s@)) {
                Ok(id) => r matches Ok(Some((i, addr))) && i == id && addr@ == trim_spec(a@),
                Err((_, m)) => r matches Err(e) && e@ == m,
            },
            _ => r matches Ok(None),
        },
{
    match (subject, from_address) {
        (Some(s), Some(a)) => {
            let t = trim(s.as_str());
            match parse_uuid(t.as_str()) {
                Ok(id) => Ok(Some((id, trim(a.as_str())))),
                Err((_, message)) => Err(message),
            }
        },
        _ => Ok(None),
    }
}

} // verus!
