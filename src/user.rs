use vstd::prelude::*;

use crate::error::{fails_as, AppError, AppErrorType, Failure};
use crate::permission::Role;
use crate::text::{byte_len, regex_match, regex_outcome, PATTERN_FAILURE_MESSAGE};

verus! {

/// Letters and digits, in groups joined by single dots or underscores.
pub const USERNAME_PATTERN: &'static str = r"^[a-zA-Z0-9]+(?:(?:\.|_)[a-zA-Z0-9]+)*$";

/// A lower-case address with a domain of one or two labels and a top-level domain.
pub const EMAIL_PATTERN: &'static str = r"^[a-z0-9](\.?[a-z0-9_-]){0,}@[a-z0-9-]+\.([a-z]{1,6}\.)?[a-z]{2,6}$";

/// A user, who belongs to exactly one company.
#[derive(Debug)]
pub struct User {
    pub id: i64,
    pub username: String,
    pub email: Option<String>,
    pub name: String,
    pub password: String,
    pub company_id: i64,
    pub role: Role,
}

/// A user row as read from the database.
#[derive(Debug)]
pub struct RetrieveUserDb {
    pub id: i64,
    pub username: String,
    pub email: Option<String>,
    pub name: String,
    pub company_id: i64,
}

/// A user row with its password hash, for sign-in.
#[derive(Debug)]
pub struct RetrieveAuthUserDb {
    pub id: i64,
    pub username: String,
    pub email: Option<String>,
    pub name: String,
    pub password: String,
    pub company_id: i64,
}

/// The columns written when a user is created.
#[derive(Debug)]
pub struct CreateUserDb {
    pub email: Option<String>,
    pub username: String,
    pub name: String,
    pub password: String,
    pub company_id: i64,
}

/// A user as returned to callers.
#[derive(Debug)]
pub struct RetrieveUserDto {
    pub id: i64,
    pub username: String,
    pub email: Option<String>,
    pub name: String,
    pub company_id: i64,
}

/// A user with its password hash.
#[derive(Debug)]
pub struct RetrieveAuthUserDto {
    pub id: i64,
    pub username: String,
    pub email: Option<String>,
    pub name: String,
    pub password: String,
    pub company_id: i64,
}

/// A request to create a user with a role.
#[derive(Debug)]
pub struct CreateUserDto {
    pub username: String,
    pub email: Option<String>,
    pub name: String,
    pub password: String,
    pub company_id: i64,
    pub role: Role,
}

/// Sign-in credentials.
#[derive(Debug)]
pub struct SignInUserDto {
    pub username: String,
    pub password: String,
}

pub const USERNAME_LENGTH_MESSAGE: &'static str = "The username must be between 1 and 50 characters long";
pub const USERNAME_FORMAT_MESSAGE: &'static str = "Invalid username: $1";
pub const EMAIL_FORMAT_MESSAGE: &'static str = "Invalid email: $1";
pub const NAME_LENGTH_MESSAGE: &'static str = "The name must be between 1 and 50 characters long";
pub const PASSWORD_LENGTH_MESSAGE: &'static str = "Password must be at least 8 characters long";

/// A username's length is accepted: 1 to 50 bytes.
pub open spec fn username_len_ok(username: Seq<char>) -> bool {
    1 <= byte_len(username) <= 50
}

/// A username is accepted: its length, and a match of the username pattern.
pub open spec fn username_ok(username: Seq<char>) -> bool {
    username_len_ok(username) && regex_outcome(USERNAME_PATTERN@, username) == Some(true)
}

/// An email is accepted: absent, or a match of the email pattern.
pub open spec fn email_ok(email: Option<String>) -> bool {
    match email {
        Some(e) => regex_outcome(EMAIL_PATTERN@, e@) == Some(true),
        None => true,
    }
}

/// A display name is 1 to 50 bytes long.
pub open spec fn name_ok(name: Seq<char>) -> bool {
    1 <= byte_len(name) <= 50
}

/// A raw password is at least 8 bytes long.
pub open spec fn raw_password_ok(password: Seq<char>) -> bool {
    byte_len(password) >= 8
}

/// The failure for an outcome of matching `text` against a pattern: a failed
/// match is the caller's fault, reported with `message` and the text; a
/// pattern that does not compile is ours.
pub open spec fn pattern_failure(matched: Option<bool>, message: Seq<char>, text: Seq<char>) -> Option<Failure> {
    match matched {
        Some(true) => None,
        Some(false) => Some((AppErrorType::BadRequest, message, Some(seq![text]))),
        None => Some((AppErrorType::InternalServerError, PATTERN_FAILURE_MESSAGE@, None)),
    }
}

pub open spec fn username_failure(username: Seq<char>) -> Option<Failure> {
    if !username_len_ok(username) {
        Some((AppErrorType::BadRequest, USERNAME_LENGTH_MESSAGE@, None))
    } else {
        pattern_failure(regex_outcome(USERNAME_PATTERN@, username), USERNAME_FORMAT_MESSAGE@, username)
    }
}

pub open spec fn email_failure(email: Option<String>) -> Option<Failure> {
    match email {
        Some(e) => pattern_failure(regex_outcome(EMAIL_PATTERN@, e@), EMAIL_FORMAT_MESSAGE@, e@),
        None => None,
    }
}

/// The failure of the first check that a new user fails, in the order
/// username, email, name; `None` when every check passes.
pub open spec fn user_failure(username: Seq<char>, email: Option<String>, name: Seq<char>) -> Option<Failure> {
    if username_failure(username) is Some {
        username_failure(username)
    } else if email_failure(email) is Some {
        email_failure(email)
    } else if !name_ok(name) {
        Some((AppErrorType::BadRequest, NAME_LENGTH_MESSAGE@, None))
    } else {
        None
    }
}

/// The row that a request to create a user gives.
pub open spec fn user_row_of(user: CreateUserDto) -> CreateUserDb {
    CreateUserDb {
        email: user.email,
        username: user.username,
        name: user.name,
        password: user.password,
        company_id: user.company_id,
    }
}

fn pattern_error(matched: Option<bool>, message: &str, text: &str) -> (r: Result<(), AppError>)
    ensures
        r is Ok <==> matched == Some(true),
        pattern_failure(matched, message@, text@) matches Some(f) ==> fails_as(r, f),
{
    match matched {
        Some(true) => Ok(()),
        Some(false) => {
            let parameters = vec![String::from_str(text)];
            assert(parameters@.map_values(|s: String| s@) =~= seq![text@]);
            Err(AppError::new(String::from_str(message), AppErrorType::BadRequest, Some(parameters)))
        },
        None => Err(
            AppError::new(String::from_str(PATTERN_FAILURE_MESSAGE), AppErrorType::InternalServerError, None),
        ),
    }
}

impl User {
    pub fn new(
        id: i64,
        username: String,
        email: Option<String>,
        name: String,
        password: String,
        company_id: i64,
        role: Role,
    ) -> (r: User)
        ensures
            r == (User { id, username, email, name, password, company_id, role }),
    {
        User { id, username, email, name, password, company_id, role }
    }

    /// The verdict on a username whose length was accepted, given the outcome of
    /// matching it against the username pattern.
    pub fn username_verdict(username: &str, matched: Option<bool>) -> (r: Result<(), AppError>)
        ensures
            r is Ok <==> matched == Some(true),
            pattern_failure(matched, USERNAME_FORMAT_MESSAGE@, username@) matches Some(f) ==> fails_as(r, f),
    {
        pattern_error(matched, USERNAME_FORMAT_MESSAGE, username)
    }

    pub fn check_username(username: &str) -> (r: Result<(), AppError>)
        ensures
            r is Ok <==> username_ok(username@),
            r is Ok <==> username_failure(username@) is None,
            username_failure(username@) matches Some(f) ==> fails_as(r, f),
    {
        if username.len() == 0 || username.len() > 50 {
            return Err(
                AppError::new(String::from_str(USERNAME_LENGTH_MESSAGE), AppErrorType::BadRequest, None),
            );
        }
        Self::username_verdict(username, regex_match(USERNAME_PATTERN, username))
    }

    /// The verdict on an email, given the outcome of matching it against the
    /// email pattern.
    pub fn email_verdict(email: &str, matched: Option<bool>) -> (r: Result<(), AppError>)
        ensures
            r is Ok <==> matched == Some(true),
            pattern_failure(matched, EMAIL_FORMAT_MESSAGE@, email@) matches Some(f) ==> fails_as(r, f),
    {
        pattern_error(matched, EMAIL_FORMAT_MESSAGE, email)
    }

    pub fn check_email(email: &Option<String>) -> (r: Result<(), AppError>)
        ensures
            r is Ok <==> email_ok(*email),
            r is Ok <==> email_failure(*email) is None,
            email_failure(*email) matches Some(f) ==> fails_as(r, f),
    {
        match email {
            Some(e) => Self::email_verdict(e.as_str(), regex_match(EMAIL_PATTERN, e.as_str())),
            None => Ok(()),
        }
    }

    pub fn check_name(name: &str) -> (r: Result<(), AppError>)
        ensures
            r is Ok <==> name_ok(name@),
            r is Err ==> fails_as(r, (AppErrorType::BadRequest, NAME_LENGTH_MESSAGE@, None)),
    {
        if name.len() == 0 || name.len() > 50 {
            return Err(AppError::new(String::from_str(NAME_LENGTH_MESSAGE), AppErrorType::BadRequest, None));
        }
        Ok(())
    }

    pub fn check_raw_password(password: &str) -> (r: Result<(), AppError>)
        ensures
            r is Ok <==> raw_password_ok(password@),
            r is Err ==> fails_as(r, (AppErrorType::BadRequest, PASSWORD_LENGTH_MESSAGE@, None)),
    {
        if password.len() < 8 {
            return Err(
                AppError::new(String::from_str(PASSWORD_LENGTH_MESSAGE), AppErrorType::BadRequest, None),
            );
        }
        Ok(())
    }
}

impl RetrieveUserDb {
    pub fn to_retrieve_user_dto(self) -> (r: Result<RetrieveUserDto, AppError>)
        ensures
            r matches Ok(d) && d == (RetrieveUserDto {
                id: self.id,
                username: self.username,
                email: self.email,
                name: self.name,
                company_id: self.company_id,
            }),
    {
        Ok(
            RetrieveUserDto {
                id: self.id,
                username: self.username,
                email: self.email,
                name: self.name,
                company_id: self.company_id,
            },
        )
    }
}

impl RetrieveAuthUserDb {
    pub fn to_retrieve_auth_user_dto(self) -> (r: Result<RetrieveAuthUserDto, AppError>)
        ensures
            r matches Ok(d) && d == (RetrieveAuthUserDto {
                id: self.id,
                username: self.username,
                email: self.email,
                name: self.name,
                password: self.password,
                company_id: self.company_id,
            }),
    {
        Ok(
            RetrieveAuthUserDto {
                id: self.id,
                username: self.username,
                email: self.email,
                name: self.name,
                password: self.password,
                company_id: self.company_id,
            },
        )
    }
}

impl CreateUserDb {
    /// Checks username, email and name, in that order, and keeps the columns.
    pub fn from_create_user_dto(user: CreateUserDto) -> (r: Result<CreateUserDb, AppError>)
        ensures
            r is Ok <==> username_ok(user.username@) && email_ok(user.email) && name_ok(user.name@),
            r is Ok <==> user_failure(user.username@, user.email, user.name@) is None,
            r matches Ok(c) ==> c == user_row_of(user),
            user_failure(user.username@, user.email, user.name@) matches Some(f) ==> fails_as(r, f),
    {
        User::check_username(user.username.as_str())?;
        User::check_email(&user.email)?;
        User::check_name(user.name.as_str())?;
        Ok(
            CreateUserDb {
                username: user.username,
                email: user.email,
                name: user.name,
                password: user.password,
                company_id: user.company_id,
            },
        )
    }
}

} // verus!
