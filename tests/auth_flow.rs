use payroll_manager::auth::AuthService;
use payroll_manager::error::AppErrorType;
use payroll_manager::permission::Role;
use payroll_manager::user::{CreateUserDto, RetrieveAuthUserDto, SignInUserDto};

fn stored(hash: String) -> RetrieveAuthUserDto {
    RetrieveAuthUserDto {
        id: 5,
        username: String::from("jane"),
        email: None,
        name: String::from("Jane"),
        password: hash,
        company_id: 2,
    }
}

fn credentials(password: &str) -> SignInUserDto {
    SignInUserDto { username: String::from("jane"), password: String::from(password) }
}

#[test]
fn sign_up_hashes_the_password() {
    let service = AuthService::new();
    let user = CreateUserDto {
        username: String::from("jane"),
        email: None,
        name: String::from("Jane"),
        password: String::from("correct horse"),
        company_id: 2,
        role: Role::User,
    };
    let hashed = service.sign_up(user).unwrap();
    assert_ne!(hashed.password, "correct horse");
    assert!(hashed.password.starts_with("$2"));
    assert!(bcrypt::verify("correct horse", &hashed.password).unwrap());
    assert_eq!((hashed.username.as_str(), hashed.company_id, hashed.role), ("jane", 2, Role::User));
}

#[test]
fn sign_up_refuses_a_short_password() {
    let service = AuthService::new();
    let user = CreateUserDto {
        username: String::from("jane"),
        email: None,
        name: String::from("Jane"),
        password: String::from("short"),
        company_id: 2,
        role: Role::User,
    };
    assert_eq!(service.sign_up(user).unwrap_err().kind(), AppErrorType::BadRequest);
}

#[test]
fn sign_in_outcomes() {
    let service = AuthService::new();
    let hash = bcrypt::hash("s3cret-pass", 4).unwrap();
    let user = service.sign_in(credentials("s3cret-pass"), Some(stored(hash.clone()))).unwrap();
    assert_eq!((user.id, user.username.as_str(), user.company_id), (5, "jane", 2));
    let wrong = service.sign_in(credentials("guess"), Some(stored(hash)));
    assert_eq!(wrong.unwrap_err().kind(), AppErrorType::Unauthorized);
    let unreadable = service.sign_in(credentials("s3cret-pass"), Some(stored(String::from("not a hash"))));
    assert_eq!(unreadable.unwrap_err().kind(), AppErrorType::InternalServerError);
    let missing = service.sign_in(credentials("s3cret-pass"), None);
    assert_eq!(missing.unwrap_err().kind(), AppErrorType::NotFound);
}

#[test]
fn sign_in_verdicts() {
    let service = AuthService::new();
    assert_eq!(service.sign_in_verdict(stored(String::new()), Some(true)).unwrap().id, 5);
    assert_eq!(service.sign_in_verdict(stored(String::new()), Some(false)).unwrap_err().kind(), AppErrorType::Unauthorized);
    assert_eq!(service.sign_in_verdict(stored(String::new()), None).unwrap_err().kind(), AppErrorType::InternalServerError);
}
