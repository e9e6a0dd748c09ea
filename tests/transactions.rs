use payroll_manager::error::{AppError, AppErrorType};
use payroll_manager::permission::{Permission, Role};
use payroll_manager::unit_of_work::{RowRef, TxCommand, TxState, UnitOfWork};
use payroll_manager::user::{CreateUserDto, RetrieveUserDb};
use payroll_manager::user_creation::{CreateUserAction, CreateUserEvent, CreateUserFlow};

fn request(username: &str) -> CreateUserDto {
    CreateUserDto {
        username: String::from(username),
        email: Some(String::from("jane@example.com")),
        name: String::from("Jane"),
        password: String::from("correct horse"),
        company_id: 3,
        role: Role::Admin,
    }
}

fn created() -> RetrieveUserDb {
    RetrieveUserDb {
        id: 41,
        username: String::from("jane"),
        email: Some(String::from("jane@example.com")),
        name: String::from("Jane"),
        company_id: 3,
    }
}

fn db_error(message: &str) -> AppError {
    AppError::new(String::from(message), AppErrorType::InternalServerError, None)
}

fn through_user_insert(flow: &mut CreateUserFlow) {
    assert_eq!(flow.step(CreateUserEvent::Begun(Ok(()))), CreateUserAction::Authorize);
    assert_eq!(flow.step(CreateUserEvent::Authorized(Ok(true))), CreateUserAction::CheckUsername);
    assert_eq!(flow.username(), "jane");
    assert_eq!(flow.step(CreateUserEvent::UsernameTaken(Ok(false))), CreateUserAction::CheckCompany);
    assert_eq!(flow.company_id(), 3);
    assert_eq!(flow.step(CreateUserEvent::CompanyExists(Ok(true))), CreateUserAction::InsertUser);
    let row = flow.row().unwrap();
    assert_eq!((row.username.as_str(), row.name.as_str(), row.company_id), ("jane", "Jane", 3));
    assert!(bcrypt::verify("correct horse", &row.password).unwrap());
    assert_eq!(flow.step(CreateUserEvent::UserInserted(Ok(created()))), CreateUserAction::InsertPermission);
}

#[test]
fn user_and_permission_commit_together() {
    let (mut flow, first) = CreateUserFlow::new(request("jane"));
    assert_eq!(first, CreateUserAction::Begin);
    through_user_insert(&mut flow);
    assert_eq!(*flow.permission().unwrap(), Permission::from_role(41, Role::Admin));
    assert_eq!(flow.step(CreateUserEvent::PermissionInserted(Ok(()))), CreateUserAction::Commit);
    assert_eq!(flow.step(CreateUserEvent::Settled(Ok(()))), CreateUserAction::Finish);
    let user = flow.into_outcome().unwrap().unwrap();
    assert_eq!((user.id, user.username.as_str(), user.name.as_str(), user.company_id), (41, "jane", "Jane", 3));
    assert_eq!(user.email.as_deref(), Some("jane@example.com"));
}

#[test]
fn failed_permission_insert_rolls_back_the_user() {
    let (mut flow, _) = CreateUserFlow::new(request("jane"));
    through_user_insert(&mut flow);
    let next = flow.step(CreateUserEvent::PermissionInserted(Err(db_error("constraint failed"))));
    assert_eq!(next, CreateUserAction::Rollback);
    assert_eq!(flow.step(CreateUserEvent::Settled(Ok(()))), CreateUserAction::Finish);
    assert_eq!(flow.into_outcome().unwrap().unwrap_err().message(), "constraint failed");
}

#[test]
fn refused_commit_is_a_failure() {
    let (mut flow, _) = CreateUserFlow::new(request("jane"));
    through_user_insert(&mut flow);
    flow.step(CreateUserEvent::PermissionInserted(Ok(())));
    assert_eq!(flow.step(CreateUserEvent::Settled(Err(db_error("disk I/O error")))), CreateUserAction::Finish);
    assert!(flow.into_outcome().unwrap().is_err());
}

#[test]
fn taken_username_is_a_conflict() {
    let (mut flow, _) = CreateUserFlow::new(request("jane"));
    flow.step(CreateUserEvent::Begun(Ok(())));
    flow.step(CreateUserEvent::Authorized(Ok(true)));
    assert_eq!(flow.step(CreateUserEvent::UsernameTaken(Ok(true))), CreateUserAction::Rollback);
    flow.step(CreateUserEvent::Settled(Ok(())));
    let e = flow.into_outcome().unwrap().unwrap_err();
    assert_eq!(e.kind(), AppErrorType::Conflict);
    assert_eq!(e.public_view().unwrap().1, vec![String::from("jane")]);
}

#[test]
fn unknown_company_and_invalid_fields_are_bad_requests() {
    let (mut flow, _) = CreateUserFlow::new(request("jane"));
    flow.step(CreateUserEvent::Begun(Ok(())));
    flow.step(CreateUserEvent::Authorized(Ok(true)));
    flow.step(CreateUserEvent::UsernameTaken(Ok(false)));
    assert_eq!(flow.step(CreateUserEvent::CompanyExists(Ok(false))), CreateUserAction::Rollback);
    flow.step(CreateUserEvent::Settled(Ok(())));
    let e = flow.into_outcome().unwrap().unwrap_err();
    assert_eq!(e.kind(), AppErrorType::BadRequest);
    assert_eq!(e.public_view().unwrap().1, vec![String::from("3")]);
    let (mut bad, _) = CreateUserFlow::new(request("jane..doe"));
    bad.step(CreateUserEvent::Begun(Ok(())));
    bad.step(CreateUserEvent::Authorized(Ok(true)));
    bad.step(CreateUserEvent::UsernameTaken(Ok(false)));
    assert_eq!(bad.step(CreateUserEvent::CompanyExists(Ok(true))), CreateUserAction::Rollback);
    bad.step(CreateUserEvent::Settled(Ok(())));
    let e = bad.into_outcome().unwrap().unwrap_err();
    assert_eq!(e.kind(), AppErrorType::BadRequest);
    assert_eq!(e.public_view().unwrap().1, vec![String::from("jane..doe")]);
}

#[test]
fn denied_creation_rolls_back_before_any_check() {
    let (mut flow, _) = CreateUserFlow::new(request("jane"));
    flow.step(CreateUserEvent::Begun(Ok(())));
    assert_eq!(flow.step(CreateUserEvent::Authorized(Ok(false))), CreateUserAction::Rollback);
    flow.step(CreateUserEvent::Settled(Ok(())));
    assert_eq!(flow.into_outcome().unwrap().unwrap_err().kind(), AppErrorType::Forbidden);
    let (mut failed, _) = CreateUserFlow::new(request("jane"));
    failed.step(CreateUserEvent::Begun(Ok(())));
    assert_eq!(failed.step(CreateUserEvent::Authorized(Err(db_error("lookup failed")))), CreateUserAction::Rollback);
}

#[test]
fn short_password_is_refused_after_authorization() {
    let mut short = request("jane");
    short.password = String::from("short");
    let (mut flow, _) = CreateUserFlow::new(short);
    flow.step(CreateUserEvent::Begun(Ok(())));
    assert_eq!(flow.step(CreateUserEvent::Authorized(Ok(true))), CreateUserAction::Rollback);
    flow.step(CreateUserEvent::Settled(Ok(())));
    assert_eq!(flow.into_outcome().unwrap().unwrap_err().kind(), AppErrorType::BadRequest);
}

#[test]
fn failed_begin_finishes_at_once() {
    let (mut flow, _) = CreateUserFlow::new(request("jane"));
    assert_eq!(flow.step(CreateUserEvent::Begun(Err(db_error("pool closed")))), CreateUserAction::Finish);
    assert!(flow.into_outcome().unwrap().is_err());
}

#[test]
fn unit_of_work_lifecycle() {
    let mut u = UnitOfWork::new();
    assert_eq!(u.current(), TxState::Idle);
    assert!(!u.stage(RowRef::Company(1)));
    assert_eq!(u.end(true), None);
    assert_eq!(u.begin(), Some(TxCommand::Begin));
    assert_eq!(u.begin(), None);
    assert!(u.stage(RowRef::Company(1)));
    assert_eq!(u.end(false), Some(TxCommand::Rollback));
    assert_eq!(u.current(), TxState::RolledBack);
    assert!(!u.stage(RowRef::Payroll(2)));
    let mut v = UnitOfWork::new();
    v.begin();
    assert_eq!(v.end(true), Some(TxCommand::Commit));
    v.commit_failed();
    assert_eq!(v.current(), TxState::RolledBack);
}
