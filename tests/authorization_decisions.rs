use payroll_manager::authorization::{
    company_is, create_company, create_payroll, create_user, decide, get_payroll, get_payrolls, needs_tenancy,
    require_allowed, require_permission, retrieve_user, same_company, FORBIDDEN_MESSAGE,
};
use payroll_manager::error::{AppError, AppErrorType};
use payroll_manager::permission::{Operation, Permission, Resource, Role, Scope};

fn lookup_error() -> AppError {
    AppError::new(String::from("connection lost"), AppErrorType::InternalServerError, None)
}

#[test]
fn user_role_cannot_create_a_company() {
    let found = Some(Permission::from_role(5, Role::User));
    assert!(matches!(create_company(&found, 5), Ok(false)));
}

#[test]
fn admin_reads_a_user_of_the_same_company() {
    let found = Some(Permission::from_role(5, Role::Admin));
    assert!(matches!(retrieve_user(&found, 5, 6, true), Ok(true)));
    assert!(matches!(retrieve_user(&found, 5, 6, false), Ok(false)));
}

#[test]
fn super_admin_is_allowed_regardless_of_company() {
    let found = Some(Permission::from_role(1, Role::SuperAdmin));
    assert!(matches!(retrieve_user(&found, 1, 2, false), Ok(true)));
    assert!(matches!(create_company(&found, 1), Ok(true)));
    assert!(matches!(create_payroll(&found, 1, false), Ok(true)));
    assert!(matches!(create_user(&found, 1, false), Ok(true)));
}

#[test]
fn missing_permission_is_forbidden() {
    let found: Option<Permission> = None;
    match retrieve_user(&found, 1, 1, true) {
        Err(e) => assert_eq!(e.kind(), AppErrorType::Forbidden),
        Ok(_) => panic!("a missing permission must be denied"),
    }
    assert!(require_permission(None).is_err());
    assert_eq!(require_permission(Some(Permission::default(4))).unwrap(), Permission::default(4));
}

#[test]
fn user_reads_only_own_profile() {
    let found = Some(Permission::from_role(5, Role::User));
    assert!(matches!(retrieve_user(&found, 5, 5, false), Ok(true)));
    assert!(matches!(retrieve_user(&found, 5, 6, true), Ok(false)));
}

#[test]
fn adding_an_any_bit_keeps_an_allowed_decision() {
    let mut p = Permission::from_role(5, Role::User);
    assert!(decide(&p, Resource::User, Operation::Read, 5, Some(5), false));
    assert!(!decide(&p, Resource::User, Operation::Read, 5, Some(6), false));
    p.grant(Resource::User, Scope::Any(Operation::Read));
    assert!(decide(&p, Resource::User, Operation::Read, 5, Some(5), false));
    assert!(decide(&p, Resource::User, Operation::Read, 5, Some(6), false));
}

#[test]
fn payroll_listing_decisions() {
    let admin = Some(Permission::from_role(2, Role::Admin));
    assert!(matches!(get_payrolls(&admin, 2, None, true), Ok(false)));
    assert!(matches!(get_payrolls(&admin, 2, Some(3), true), Ok(true)));
    let user = Some(Permission::from_role(3, Role::User));
    assert!(matches!(get_payrolls(&user, 3, Some(3), false), Ok(true)));
    assert!(matches!(get_payrolls(&user, 3, Some(4), true), Ok(false)));
    assert!(matches!(get_payroll(&user, 3, 3, false), Ok(true)));
    assert!(matches!(create_payroll(&user, 3, true), Ok(false)));
}

#[test]
fn tenancy_lookup_only_when_it_matters() {
    let admin = Permission::from_role(2, Role::Admin);
    assert!(needs_tenancy(&admin, Resource::User, Operation::Read, 2, Some(3)));
    let root = Permission::from_role(1, Role::SuperAdmin);
    assert!(!needs_tenancy(&root, Resource::User, Operation::Read, 1, Some(3)));
    let user = Permission::from_role(3, Role::User);
    assert!(!needs_tenancy(&user, Resource::User, Operation::Read, 3, Some(3)));
}

#[test]
fn company_lookups_fail_closed() {
    assert!(same_company(&Ok(Some(4)), &Ok(Some(4))));
    assert!(!same_company(&Ok(Some(4)), &Ok(Some(5))));
    assert!(!same_company(&Ok(None), &Ok(None)));
    assert!(!same_company(&Err(lookup_error()), &Ok(Some(4))));
    assert!(company_is(&Ok(Some(9)), 9));
    assert!(!company_is(&Ok(Some(9)), 8));
    assert!(!company_is(&Err(lookup_error()), 9));
}

#[test]
fn decisions_become_permission_to_go_on() {
    assert!(require_allowed(Ok(true)).is_ok());
    let denied = require_allowed(Ok(false)).unwrap_err();
    assert_eq!((denied.kind(), denied.message()), (AppErrorType::Forbidden, FORBIDDEN_MESSAGE));
    let failed = require_allowed(Err(lookup_error())).unwrap_err();
    assert_eq!((failed.kind(), failed.message()), (AppErrorType::InternalServerError, "connection lost"));
}
