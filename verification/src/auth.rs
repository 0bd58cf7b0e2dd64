//! Who may call: users, the claims made for them, and the check that a
//! request's token and its tenant belong together.
//!
//! Whether a password fits a stored hash is decided by the `argon2` crate.
use crate::error::{Error, ErrorView};
use crate::ident::{parse_id, uuid_from_text};
use crate::text::same_text;
use vstd::prelude::*;
use vstd::string::*;

verus! {

/// What a user may do.
#[derive(Debug, Clone, Copy, PartialEq, Eq, Structural)]
pub enum Role {
    Admin,
    User,
}

impl Role {
    /// The role as it is stored and sent.
    pub open spec fn code(self) -> Seq<char> {
        match self {
            Role::Admin => "ADMIN"@,
            Role::User => "USER"@,
        }
    }

    /// The role as it is stored and sent.
    pub fn as_str(&self) -> (r: &'static str)
        ensures
            r@ == self.code(),
    {
        match self {
            Role::Admin => "ADMIN",
            Role::User => "USER",
        }
    }

    /// The role that `text` is the stored form of, if it is one.
    pub fn parse(text: &str) -> (r: Option<Role>)
        ensures
            match r {
                Some(role) => role.code() == text@,
                None => forall|role: Role| role.code() != text@,
            },
    {
        if same_text(text, "ADMIN") {
            Some(Role::Admin)
        } else if same_text(text, "USER") {
            Some(Role::User)
        } else {
            None
        }
    }

    /// No two roles are stored alike.
    pub proof fn lemma_code_injective(a: Role, b: Role)
        requires
            a.code() == b.code(),
        ensures
            a == b,
    {
        reveal_strlit("ADMIN");
        reveal_strlit("USER");
        assert("ADMIN"@.len() == 5);
        assert("USER"@.len() == 4);
    }
}

/// A user of a tenant.
#[derive(Debug, PartialEq)]
pub struct User {
    pub id: u128,
    pub tenant_id: u128,
    pub username: String,
    pub password_hash: String,
    pub role: String,
}

/// What is given to log in.
#[derive(Debug, PartialEq)]
pub struct LoginRequest {
    pub username: String,
    pub password: String,
}

/// What is given to register a user.
#[derive(Debug, PartialEq)]
pub struct RegisterRequest {
    pub username: String,
    pub password: String,
    pub role: Role,
}

/// What a token says of its bearer.
#[derive(Debug, PartialEq)]
pub struct Claims {
    /// The user.
    pub sub: u128,
    pub tenant_id: u128,
    pub role: String,
    /// When the token expires, in seconds since 1970.
    pub exp: i64,
}

/// A token with the user that it was made for.
#[derive(Debug, PartialEq)]
pub struct AuthResponse {
    pub token: String,
    pub user: User,
}

impl Clone for User {
    fn clone(&self) -> (r: User)
        ensures
            r == *self,
    {
        User {
            id: self.id,
            tenant_id: self.tenant_id,
            username: self.username.clone(),
            password_hash: self.password_hash.clone(),
            role: self.role.clone(),
        }
    }
}

/// How long a token is good for, in seconds: a day.
pub const TOKEN_LIFETIME: i64 = 86400;

/// Whether `argon2` finds that the password fits the stored hash; it does
/// not where the stored text is no hash at all.
pub uninterp spec fn password_fits(password: Seq<char>, stored_hash: Seq<char>) -> bool;

/// Trusted: `PasswordHash::new` on the stored text, then
/// `PasswordVerifier::verify_password` of `argon2::Argon2::default()` on
/// the password's bytes. Returns whether both succeed, which is the named
/// fit of password and hash.
#[verifier::external_body]
fn outside_verify(password: &str, stored_hash: &str) -> (r: bool)
    ensures
        r == password_fits(password@, stored_hash@),
{
    match argon2::password_hash::PasswordHash::new(stored_hash) {
        Ok(parsed) => argon2::password_hash::PasswordVerifier::verify_password(
            &argon2::Argon2::default(),
            password.as_bytes(),
            &parsed,
        ).is_ok(),
        Err(_) => false,
    }
}

/// Whether the password fits the stored hash.
pub fn verify_password(password: &str, stored_hash: &str) -> (r: bool)
    ensures
        r == password_fits(password@, stored_hash@),
{
    outside_verify(password, stored_hash)
}

/// What is reported for a time from which no expiry can be reckoned.
pub open spec fn invalid_timestamp() -> ErrorView {
    ErrorView::Validation("invalid timestamp"@)
}

/// The claims for a user who logs in at `now`, in seconds since 1970, with
/// a password that `fits` or does not, `user` being the user found under
/// the given name, if any.
pub open spec fn login_outcome(user: Option<User>, tenant_id: u128, fits: bool, now: i64) -> Result<
    Claims,
    ErrorView,
> {
    match user {
        None => Err(ErrorView::Unauthorized),
        Some(user) => if !fits {
            Err(ErrorView::Unauthorized)
        } else if now + TOKEN_LIFETIME > i64::MAX {
            Err(invalid_timestamp())
        } else {
            Ok(
                Claims {
                    sub: user.id,
                    tenant_id,
                    role: user.role,
                    exp: (now + TOKEN_LIFETIME) as i64,
                },
            )
        },
    }
}

/// Decides a login: the claims for the token, good for a day from `now`;
/// refused where there is no such user or the password does not fit.
pub fn login_claims(user: Option<&User>, tenant_id: u128, password: &str, now: i64) -> (r: Result<
    Claims,
    Error,
>)
    ensures
        match user {
            Some(found) => crate::error::result_view(r) == login_outcome(
                Some(*found),
                tenant_id,
                password_fits(password@, found.password_hash@),
                now,
            ),
            None => crate::error::result_view(r) == login_outcome(None, tenant_id, false, now),
        },
{
    match user {
        None => Err(Error::Unauthorized),
        Some(found) => {
            let fits = verify_password(password, found.password_hash.as_str());
            claims_for(found, tenant_id, fits, now)
        },
    }
}

/// The claims for a user whose password was found to fit or not.
pub fn claims_for(user: &User, tenant_id: u128, fits: bool, now: i64) -> (r: Result<Claims, Error>)
    ensures
        crate::error::result_view(r) == login_outcome(Some(*user), tenant_id, fits, now),
{
    if !fits {
        return Err(Error::Unauthorized);
    }
    match now.checked_add(TOKEN_LIFETIME) {
        Some(exp) => Ok(Claims { sub: user.id, tenant_id, role: user.role.clone(), exp }),
        None => Err(Error::Validation(String::from_str("invalid timestamp"))),
    }
}

/// Why a request is turned away before it reaches the core.
#[derive(Debug, Clone, Copy, PartialEq, Eq, Structural)]
pub enum AccessDenied {
    /// No token, or none that holds.
    Unauthorized,
    /// The request names no tenant, or none that can be read.
    BadRequest,
    /// The token was made for another tenant than the request names.
    Forbidden,
}

impl AccessDenied {
    /// The status with which the request is answered.
    pub open spec fn status_spec(self) -> u16 {
        match self {
            AccessDenied::Unauthorized => 401,
            AccessDenied::BadRequest => 400,
            AccessDenied::Forbidden => 403,
        }
    }

    /// The status with which the request is answered.
    pub fn status(&self) -> (r: u16)
        ensures
            r == self.status_spec(),
    {
        match self {
            AccessDenied::Unauthorized => 401,
            AccessDenied::BadRequest => 400,
            AccessDenied::Forbidden => 403,
        }
    }
}

/// The word and the blank before the token in an authorization header.
pub open spec fn bearer_prefix() -> Seq<char> {
    "Bearer "@
}

/// The token of an authorization header: what follows `Bearer `, where
/// the header starts so.
pub open spec fn bearer_token_spec(header: Seq<char>) -> Option<Seq<char>> {
    if header.len() >= 7 && header.subrange(0, 7) == bearer_prefix() {
        Some(header.subrange(7, header.len() as int))
    } else {
        None
    }
}

/// The token of an authorization header.
pub fn bearer_token(header: &str) -> (r: Option<String>)
    ensures
        match r {
            Some(token) => bearer_token_spec(header@) == Some(token@),
            None => bearer_token_spec(header@) is None,
        },
{
    let length = header.unicode_len();
    if length < 7 {
        return None;
    }
    let head = header.substring_char(0, 7);
    if same_text(head, "Bearer ") {
        Some(String::from_str(header.substring_char(7, length)))
    } else {
        None
    }
}

/// Whether a request may pass: `token_tenant` is the tenant that the
/// request's token was made for, if the request has a token that holds;
/// `named_tenant` is what reading the request's tenant header gave. The
/// token is looked at first, and it must be made for the tenant named.
pub open spec fn access_outcome(token_tenant: Option<u128>, named_tenant: Option<u128>) -> Result<
    u128,
    AccessDenied,
> {
    match token_tenant {
        None => Err(AccessDenied::Unauthorized),
        Some(granted) => match named_tenant {
            None => Err(AccessDenied::BadRequest),
            Some(named) => if granted == named {
                Ok(named)
            } else {
                Err(AccessDenied::Forbidden)
            },
        },
    }
}

/// Decides whether a request may pass, from the tenant of its token and
/// the value of its tenant header, where it has them.
pub fn check_access(token_tenant: Option<u128>, tenant_header: Option<&str>) -> (r: Result<
    u128,
    AccessDenied,
>)
    ensures
        r == access_outcome(
            token_tenant,
            match tenant_header {
                Some(text) => uuid_from_text(text@),
                None => None,
            },
        ),
{
    let named = match tenant_header {
        Some(text) => parse_id(text),
        None => None,
    };
    decide_access(token_tenant, named)
}

/// Decides whether a request may pass, from the tenant of its token and
/// the tenant that it names.
pub fn decide_access(token_tenant: Option<u128>, named_tenant: Option<u128>) -> (r: Result<
    u128,
    AccessDenied,
>)
    ensures
        r == access_outcome(token_tenant, named_tenant),
{
    match token_tenant {
        None => Err(AccessDenied::Unauthorized),
        Some(granted) => match named_tenant {
            None => Err(AccessDenied::BadRequest),
            Some(named) => if granted == named {
                Ok(named)
            } else {
                Err(AccessDenied::Forbidden)
            },
        },
    }
}

} // verus!
