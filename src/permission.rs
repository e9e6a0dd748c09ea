use vstd::prelude::*;

verus! {

/// The four operations, with ordinals 0 to 3.
#[derive(Debug, Clone, Copy, PartialEq, Eq, Structural)]
pub enum Operation {
    Create,
    Read,
    Update,
    Delete,
}

/// How broad a grant is: every record, records of the actor's own company,
/// or only the actor's own record.
#[derive(Debug, Clone, Copy, PartialEq, Eq, Structural)]
pub enum Scope {
    Any(Operation),
    SelfCompany(Operation),
    Owned(Operation),
}

/// The three role tiers.
#[derive(Debug, Clone, Copy, PartialEq, Eq, Structural)]
pub enum Role {
    SuperAdmin,
    Admin,
    User,
}

/// The protected resource families, each with its own mask in a `Permission`.
#[derive(Debug, Clone, Copy, PartialEq, Eq, Structural)]
pub enum Resource {
    User,
    Payroll,
    Company,
}

pub open spec fn op_ordinal(op: Operation) -> i16 {
    match op {
        Operation::Create => 0,
        Operation::Read => 1,
        Operation::Update => 2,
        Operation::Delete => 3,
    }
}

/// Bit position of a scope: the operation's ordinal plus 0, 4 or 8.
pub open spec fn bit_index(scope: Scope) -> u16 {
    match scope {
        Scope::Any(op) => op_ordinal(op) as u16,
        Scope::SelfCompany(op) => (op_ordinal(op) + 4) as u16,
        Scope::Owned(op) => (op_ordinal(op) + 8) as u16,
    }
}

/// The single bit that stands for a scope.
pub open spec fn scope_mask(scope: Scope) -> i16 {
    1i16 << bit_index(scope)
}

/// Whether a resource mask holds the bit of a scope.
pub open spec fn mask_has(mask: i16, scope: Scope) -> bool {
    mask & scope_mask(scope) != 0
}

/// Which grants each role carries, as in the role table.
pub open spec fn role_grants(role: Role, resource: Resource, scope: Scope) -> bool {
    match role {
        Role::SuperAdmin => scope is Any,
        Role::Admin => match scope {
            Scope::SelfCompany(op) => !(resource == Resource::Company && op == Operation::Create),
            _ => false,
        },
        Role::User => scope == Scope::Owned(Operation::Read),
    }
}

/// The mask that a role gives a resource.
pub open spec fn role_mask(role: Role, resource: Resource) -> i16 {
    match role {
        Role::SuperAdmin => 0x000f,
        Role::Admin => if resource == Resource::Company {
            0x00e0
        } else {
            0x00f0
        },
        Role::User => 0x0200,
    }
}

impl Operation {
    pub fn value(&self) -> (r: i16)
        ensures
            r == op_ordinal(*self),
    {
        match self {
            Operation::Create => 0,
            Operation::Read => 1,
            Operation::Update => 2,
            Operation::Delete => 3,
        }
    }
}

impl Scope {
    /// The scope's bit: `1 << (ordinal + offset)`.
    pub fn mask(&self) -> (r: i16)
        ensures
            r == scope_mask(*self),
            0 <= bit_index(*self) < 12,
    {
        let offset = match self {
            Scope::Any(operation) => operation.value(),
            Scope::SelfCompany(operation) => operation.value() + 4,
            Scope::Owned(operation) => operation.value() + 8,
        };
        1i16 << (offset as u16)
    }
}

/// One user's capabilities: a 16-bit mask per resource family.
#[derive(Debug, Clone, Copy, PartialEq, Eq, Structural)]
pub struct Permission {
    pub user_id: i64,
    pub user: i16,
    pub payroll: i16,
    pub company: i16,
}

impl Permission {
    /// The mask of one resource family.
    pub open spec fn mask_of(&self, resource: Resource) -> i16 {
        match resource {
            Resource::User => self.user,
            Resource::Payroll => self.payroll,
            Resource::Company => self.company,
        }
    }

    /// Whether the permission grants `scope` on `resource`.
    pub open spec fn grants(&self, resource: Resource, scope: Scope) -> bool {
        mask_has(self.mask_of(resource), scope)
    }

    /// A permission with no grants at all.
    pub fn default(user_id: i64) -> (r: Permission)
        ensures
            r == (Permission { user_id, user: 0, payroll: 0, company: 0 }),
    {
        Permission { user_id, user: 0, payroll: 0, company: 0 }
    }

    pub fn new(user_id: i64, user: i16, payroll: i16, company: i16) -> (r: Permission)
        ensures
            r == (Permission { user_id, user, payroll, company }),
    {
        Permission { user_id, user, payroll, company }
    }

    /// The fixed permission of a role.
    pub fn from_role(user_id: i64, role: Role) -> (r: Permission)
        ensures
            r.user_id == user_id,
            r.user == role_mask(role, Resource::User),
            r.payroll == role_mask(role, Resource::Payroll),
            r.company == role_mask(role, Resource::Company),
    {
        let mut permission = Permission::default(user_id);
        match role {
            Role::SuperAdmin => {
                permission.set_user(Scope::Any(Operation::Create));
                permission.set_user(Scope::Any(Operation::Read));
                permission.set_user(Scope::Any(Operation::Update));
                permission.set_user(Scope::Any(Operation::Delete));

                permission.set_payroll(Scope::Any(Operation::Create));
                permission.set_payroll(Scope::Any(Operation::Read));
                permission.set_payroll(Scope::Any(Operation::Update));
                permission.set_payroll(Scope::Any(Operation::Delete));

                permission.set_company(Scope::Any(Operation::Create));
                permission.set_company(Scope::Any(Operation::Read));
                permission.set_company(Scope::Any(Operation::Update));
                permission.set_company(Scope::Any(Operation::Delete));
                assert(0i16 | (1i16 << 0u16) | (1i16 << 1u16) | (1i16 << 2u16) | (1i16 << 3u16)
                    == 0x000f) by (bit_vector);
            },
            Role::Admin => {
                permission.set_user(Scope::SelfCompany(Operation::Create));
                permission.set_user(Scope::SelfCompany(Operation::Read));
                permission.set_user(Scope::SelfCompany(Operation::Update));
                permission.set_user(Scope::SelfCompany(Operation::Delete));

                permission.set_payroll(Scope::SelfCompany(Operation::Create));
                permission.set_payroll(Scope::SelfCompany(Operation::Read));
                permission.set_payroll(Scope::SelfCompany(Operation::Update));
                permission.set_payroll(Scope::SelfCompany(Operation::Delete));

                permission.set_company(Scope::SelfCompany(Operation::Read));
                permission.set_company(Scope::SelfCompany(Operation::Update));
                permission.set_company(Scope::SelfCompany(Operation::Delete));
                assert(0i16 | (1i16 << 4u16) | (1i16 << 5u16) | (1i16 << 6u16) | (1i16 << 7u16)
                    == 0x00f0 && 0i16 | (1i16 << 5u16) | (1i16 << 6u16) | (1i16 << 7u16) == 0x00e0)
                    by (bit_vector);
            },
            Role::User => {
                permission.set_user(Scope::Owned(Operation::Read));
                permission.set_payroll(Scope::Owned(Operation::Read));
                permission.set_company(Scope::Owned(Operation::Read));
                assert(0i16 | (1i16 << 9u16) == 0x0200) by (bit_vector);
            },
        };
        permission
    }

    pub fn user(&self, scope: Scope) -> (r: bool)
        ensures
            r == self.grants(Resource::User, scope),
    {
        self.user & scope.mask() != 0
    }

    pub fn set_user(&mut self, scope: Scope)
        ensures
            *final(self) == (Permission { user: (old(self).user | scope_mask(scope)) as i16, ..*old(self) }),
    {
        self.user = self.user | scope.mask();
    }

    pub fn payroll(&self, scope: Scope) -> (r: bool)
        ensures
            r == self.grants(Resource::Payroll, scope),
    {
        self.payroll & scope.mask() != 0
    }

    pub fn set_payroll(&mut self, scope: Scope)
        ensures
            *final(self) == (Permission { payroll: (old(self).payroll | scope_mask(scope)) as i16, ..*old(self) }),
    {
        self.payroll = self.payroll | scope.mask();
    }

    pub fn company(&self, scope: Scope) -> (r: bool)
        ensures
            r == self.grants(Resource::Company, scope),
    {
        self.company & scope.mask() != 0
    }

    pub fn set_company(&mut self, scope: Scope)
        ensures
            *final(self) == (Permission { company: (old(self).company | scope_mask(scope)) as i16, ..*old(self) }),
    {
        self.company = self.company | scope.mask();
    }

    /// Whether the permission grants `scope` on `resource`.
    pub fn has_scope(&self, resource: Resource, scope: Scope) -> (r: bool)
        ensures
            r == self.grants(resource, scope),
    {
        match resource {
            Resource::User => self.user(scope),
            Resource::Payroll => self.payroll(scope),
            Resource::Company => self.company(scope),
        }
    }

    /// Adds the bit of `scope` to the mask of `resource`.
    pub fn grant(&mut self, resource: Resource, scope: Scope)
        ensures
            *final(self) == with_grant(*old(self), resource, scope),
    {
        match resource {
            Resource::User => self.set_user(scope),
            Resource::Payroll => self.set_payroll(scope),
            Resource::Company => self.set_company(scope),
        }
    }
}

/// `p` with the bit of `scope` added to the mask of `resource`.
pub open spec fn with_grant(p: Permission, resource: Resource, scope: Scope) -> Permission {
    match resource {
        Resource::User => Permission { user: (p.user | scope_mask(scope)) as i16, ..p },
        Resource::Payroll => Permission { payroll: (p.payroll | scope_mask(scope)) as i16, ..p },
        Resource::Company => Permission { company: (p.company | scope_mask(scope)) as i16, ..p },
    }
}


proof fn lemma_bit_of_index(i: u16, j: u16)
    by (bit_vector)
    requires
        0 <= i < 12,
        0 <= j < 12,
    ensures
        (1i16 << i) > 0,
        (1i16 << i) & ((1i16 << i) - 1) as i16 == 0,
        i != j ==> (1i16 << i) & (1i16 << j) == 0,
        i != j ==> (1i16 << i) != (1i16 << j),
{
}

proof fn lemma_table_bits(i: u16)
    by (bit_vector)
    requires
        0 <= i < 16,
    ensures
        (0x000fi16 & (1i16 << i) != 0) == (i < 4),
        (0x00f0i16 & (1i16 << i) != 0) == (4 <= i && i < 8),
        (0x00e0i16 & (1i16 << i) != 0) == (5 <= i && i < 8),
        (0x0200i16 & (1i16 << i) != 0) == (i == 9),
{
}

/// Distinct scopes have distinct bit positions.
pub proof fn lemma_bit_index_injective(a: Scope, b: Scope)
    ensures
        0 <= bit_index(a) < 12,
        a != b ==> bit_index(a) != bit_index(b),
{
}

/// Every scope's mask is a power of two, and the twelve (scope, operation)
/// combinations of a resource never share a bit.
pub proof fn lemma_masks_distinct_powers_of_two(a: Scope, b: Scope)
    ensures
        scope_mask(a) > 0,
        scope_mask(a) & (scope_mask(a) - 1) as i16 == 0,
        a != b ==> scope_mask(a) & scope_mask(b) == 0,
        a != b ==> scope_mask(a) != scope_mask(b),
{
    lemma_bit_index_injective(a, b);
    lemma_bit_of_index(bit_index(a), bit_index(b));
}

/// The permission of each role holds exactly the grants of the role table on
/// every resource, and none of the four bits above the twelve in use.
pub proof fn lemma_role_table_exact(role: Role, resource: Resource, scope: Scope)
    ensures
        mask_has(role_mask(role, resource), scope) <==> role_grants(role, resource, scope),
        forall|i: u16| 12 <= i < 16 ==> #[trigger] (role_mask(role, resource) & (1i16 << i)) == 0,
{
    lemma_table_bits(bit_index(scope));
    assert forall|i: u16| 12 <= i < 16 implies #[trigger] (role_mask(role, resource) & (1i16 << i))
        == 0 by {
        lemma_table_bits(i);
    }
}

} // verus!
