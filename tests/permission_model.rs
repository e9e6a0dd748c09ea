use payroll_manager::permission::{Operation, Permission, Resource, Role, Scope};

fn all_scopes() -> Vec<Scope> {
    let ops = [Operation::Create, Operation::Read, Operation::Update, Operation::Delete];
    let mut scopes = Vec::new();
    for op in ops {
        scopes.push(Scope::Any(op));
    }
    for op in ops {
        scopes.push(Scope::SelfCompany(op));
    }
    for op in ops {
        scopes.push(Scope::Owned(op));
    }
    scopes
}

#[test]
fn super_admin_gets_every_any_bit() {
    let p = Permission::from_role(7, Role::SuperAdmin);
    assert_eq!(p, Permission::new(7, 0x000f, 0x000f, 0x000f));
}

#[test]
fn admin_gets_self_company_bits_without_company_create() {
    let p = Permission::from_role(8, Role::Admin);
    assert_eq!(p, Permission::new(8, 0x00f0, 0x00f0, 0x00e0));
    assert!(!p.company(Scope::SelfCompany(Operation::Create)));
    assert!(p.company(Scope::SelfCompany(Operation::Read)));
}

#[test]
fn user_role_gets_owned_read_only() {
    let p = Permission::from_role(9, Role::User);
    assert_eq!(p, Permission::new(9, 0x0200, 0x0200, 0x0200));
}

#[test]
fn from_role_matches_the_table_for_every_scope() {
    for role in [Role::SuperAdmin, Role::Admin, Role::User] {
        let p = Permission::from_role(1, role);
        for resource in [Resource::User, Resource::Payroll, Resource::Company] {
            for scope in all_scopes() {
                let expected = match (role, scope) {
                    (Role::SuperAdmin, Scope::Any(_)) => true,
                    (Role::Admin, Scope::SelfCompany(op)) => {
                        !(resource == Resource::Company && op == Operation::Create)
                    }
                    (Role::User, Scope::Owned(Operation::Read)) => true,
                    _ => false,
                };
                assert_eq!(p.has_scope(resource, scope), expected);
            }
        }
    }
}

#[test]
fn twelve_masks_are_distinct_powers_of_two() {
    let masks: Vec<i16> = all_scopes().iter().map(|s| s.mask()).collect();
    assert_eq!(masks.len(), 12);
    for (i, m) in masks.iter().enumerate() {
        assert!(*m > 0);
        assert_eq!(m & (m - 1), 0);
        for (j, n) in masks.iter().enumerate() {
            if i != j {
                assert_eq!(m & n, 0);
            }
        }
    }
    assert_eq!(Scope::Any(Operation::Create).mask(), 1);
    assert_eq!(Scope::SelfCompany(Operation::Read).mask(), 32);
    assert_eq!(Scope::Owned(Operation::Delete).mask(), 2048);
}

#[test]
fn operation_ordinals() {
    assert_eq!(Operation::Create.value(), 0);
    assert_eq!(Operation::Read.value(), 1);
    assert_eq!(Operation::Update.value(), 2);
    assert_eq!(Operation::Delete.value(), 3);
}

#[test]
fn setters_add_one_bit_to_one_mask() {
    let mut p = Permission::default(3);
    assert_eq!(p, Permission::new(3, 0, 0, 0));
    p.set_user(Scope::Owned(Operation::Update));
    assert_eq!(p.user, 1 << 10);
    assert!(p.user(Scope::Owned(Operation::Update)));
    assert!(!p.payroll(Scope::Owned(Operation::Update)));
    p.set_payroll(Scope::Any(Operation::Read));
    assert_eq!(p.payroll, 2);
    p.set_company(Scope::SelfCompany(Operation::Delete));
    assert_eq!(p.company, 1 << 7);
    p.grant(Resource::Company, Scope::Any(Operation::Create));
    assert_eq!(p.company, (1 << 7) | 1);
    assert!(p.has_scope(Resource::Company, Scope::Any(Operation::Create)));
}
