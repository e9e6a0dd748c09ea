use vstd::prelude::*;

use crate::error::{fails_as, fails_with, AppError, AppErrorType};
use crate::user::{raw_password_ok, PASSWORD_LENGTH_MESSAGE, CreateUserDto, RetrieveAuthUserDto, RetrieveUserDto, SignInUserDto, User};

verus! {

#[verifier::external_type_specification]
#[verifier::external_body]
pub struct ExBcryptError(bcrypt::BcryptError);

/// Whether a password matches a stored hash: `None` when the hash cannot be read.
pub uninterp spec fn password_verdict(password: Seq<char>, hash: Seq<char>) -> Option<bool>;

/// Relies on `bcrypt::hash` at `bcrypt::DEFAULT_COST`: a salted hash of the
/// password. The salt is random, so nothing is promised of the text.
#[verifier::external_body]
fn hash_password(password: &str) -> (r: Result<String, bcrypt::BcryptError>) {
    bcrypt::hash(password, bcrypt::DEFAULT_COST)
}

/// Relies on `bcrypt::verify`: the answer depends on the password and the hash
/// alone, and a hash that cannot be read is an error.
#[verifier::external_body]
fn verify_password(password: &str, hash: &str) -> (r: Result<bool, bcrypt::BcryptError>)
    ensures
        r matches Ok(b) ==> password_verdict(password@, hash@) == Some(b),
        r is Err ==> password_verdict(password@, hash@) is None,
{
    bcrypt::verify(password, hash)
}

/// What a successful sign-in returns, with the token that the caller issues.
#[derive(Debug)]
pub struct AuthDto {
    pub token: String,
    pub user: RetrieveUserDto,
}

/// The user that a sign-in returns: the stored user without its hash.
pub open spec fn public_user(u: RetrieveAuthUserDto) -> RetrieveUserDto {
    RetrieveUserDto { id: u.id, username: u.username, email: u.email, name: u.name, company_id: u.company_id }
}

/// Sign-up and sign-in decisions. Storing users and issuing tokens are done by
/// the caller.
pub struct AuthService {}

impl AuthService {
    pub fn new() -> (r: AuthService) {
        AuthService {  }
    }

    /// Checks the raw password of a new user and replaces it with its hash;
    /// every other field is kept.
    pub fn sign_up(&self, user: CreateUserDto) -> (r: Result<CreateUserDto, AppError>)
        ensures
            !raw_password_ok(user.password@) ==> fails_as(
                r,
                (AppErrorType::BadRequest, PASSWORD_LENGTH_MESSAGE@, None),
            ),
            raw_password_ok(user.password@) ==> r is Ok || fails_with(r, AppErrorType::InternalServerError),
            r matches Ok(hashed) ==> hashed.username == user.username && hashed.email == user.email
                && hashed.name == user.name && hashed.company_id == user.company_id && hashed.role
                == user.role,
    {
        User::check_raw_password(user.password.as_str())?;
        match hash_password(user.password.as_str()) {
            Ok(hashed_pass) => Ok(
                CreateUserDto {
                    username: user.username,
                    email: user.email,
                    name: user.name,
                    password: hashed_pass,
                    company_id: user.company_id,
                    role: user.role,
                },
            ),
            Err(e) => Err(AppError::internal_from_generic(e)),
        }
    }

    /// The verdict on a stored user, given whether the password matched its hash.
    pub fn sign_in_verdict(&self, existing: RetrieveAuthUserDto, verdict: Option<bool>) -> (r: Result<
        RetrieveUserDto,
        AppError,
    >)
        ensures
            verdict == Some(true) ==> r == Ok::<RetrieveUserDto, AppError>(public_user(existing)),
            verdict == Some(false) ==> fails_with(r, AppErrorType::Unauthorized),
            verdict is None ==> fails_with(r, AppErrorType::InternalServerError),
    {
        match verdict {
            Some(true) => Ok(
                RetrieveUserDto {
                    id: existing.id,
                    username: existing.username,
                    email: existing.email,
                    name: existing.name,
                    company_id: existing.company_id,
                },
            ),
            Some(false) => Err(
                AppError::new(String::from_str("Incorrect password"), AppErrorType::Unauthorized, None),
            ),
            None => Err(
                AppError::new(
                    String::from_str("Stored password hash cannot be read"),
                    AppErrorType::InternalServerError,
                    None,
                ),
            ),
        }
    }

    /// Signs in with credentials against the stored user of that name, if any.
    pub fn sign_in(&self, credentials: SignInUserDto, existing: Option<RetrieveAuthUserDto>) -> (r: Result<
        RetrieveUserDto,
        AppError,
    >)
        ensures
            existing is None ==> fails_with(r, AppErrorType::NotFound),
            existing matches Some(u) ==> match password_verdict(credentials.password@, u.password@) {
                Some(true) => r == Ok::<RetrieveUserDto, AppError>(public_user(u)),
                Some(false) => fails_with(r, AppErrorType::Unauthorized),
                None => fails_with(r, AppErrorType::InternalServerError),
            },
    {
        match existing {
            None => Err(
                AppError::new(
                    String::from_str("User with username \"$1\" does not exist"),
                    AppErrorType::NotFound,
                    Some(vec![credentials.username]),
                ),
            ),
            Some(u) => {
                let verdict = match verify_password(credentials.password.as_str(), u.password.as_str()) {
                    Ok(b) => Some(b),
                    Err(_) => None,
                };
                self.sign_in_verdict(u, verdict)
            },
        }
    }
}

} // verus!
