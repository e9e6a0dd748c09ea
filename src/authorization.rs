use vstd::prelude::*;

use crate::error::{fails_as, AppError, AppErrorType};
use crate::permission::{
    scope_mask, with_grant, Operation, Permission, Resource, Scope,
};

verus! {

/// The decision rule: an `Any` grant, or a `SelfCompany` grant when actor and
/// target share a company, or an `Owned` grant when the actor is the target.
pub open spec fn decision(
    p: Permission,
    resource: Resource,
    op: Operation,
    actor_id: i64,
    target_user_id: Option<i64>,
    same_company: bool,
) -> bool {
    ||| p.grants(resource, Scope::Any(op))
    ||| p.grants(resource, Scope::SelfCompany(op)) && same_company
    ||| p.grants(resource, Scope::Owned(op)) && target_user_id == Some(actor_id)
}

/// Whether the tenant lookup can still change the decision.
pub open spec fn tenancy_matters(
    p: Permission,
    resource: Resource,
    op: Operation,
    actor_id: i64,
    target_user_id: Option<i64>,
) -> bool {
    &&& !p.grants(resource, Scope::Any(op))
    &&& !(p.grants(resource, Scope::Owned(op)) && target_user_id == Some(actor_id))
    &&& p.grants(resource, Scope::SelfCompany(op))
}

/// The result of a decision when the actor's permission record may be missing:
/// no record is always a denial.
pub open spec fn guarded_decision(
    found: Option<Permission>,
    resource: Resource,
    op: Operation,
    actor_id: i64,
    target_user_id: Option<i64>,
    same_company: bool,
) -> Result<bool, AppErrorType> {
    match found {
        Some(p) => Ok(decision(p, resource, op, actor_id, target_user_id, same_company)),
        None => Err(AppErrorType::Forbidden),
    }
}

/// Whether a call's result agrees with `guarded_decision`.
pub open spec fn agrees(r: Result<bool, AppError>, expected: Result<bool, AppErrorType>) -> bool {
    match (r, expected) {
        (Ok(a), Ok(b)) => a == b,
        (Err(e), Err(k)) => e.spec_kind() == k,
        _ => false,
    }
}

pub const FORBIDDEN_MESSAGE: &'static str = "You do not have permission to access the requested resource";

/// Turns a decision into permission to go on: a denial is Forbidden, and a
/// decision that could not be taken keeps its error.
pub fn require_allowed(decision: Result<bool, AppError>) -> (r: Result<(), AppError>)
    ensures
        decision == Ok::<bool, AppError>(true) <==> r is Ok,
        decision == Ok::<bool, AppError>(false) ==> fails_as(r, (AppErrorType::Forbidden, FORBIDDEN_MESSAGE@, None)),
        decision matches Err(e) ==> r == Err::<(), AppError>(e),
{
    match decision {
        Ok(true) => Ok(()),
        Ok(false) => Err(AppError::new(String::from_str(FORBIDDEN_MESSAGE), AppErrorType::Forbidden, None)),
        Err(e) => Err(e),
    }
}

/// Turns the permission lookup into a permission, or the denial that a missing
/// record stands for.
pub fn require_permission(found: Option<Permission>) -> (r: Result<Permission, AppError>)
    ensures
        found is None <==> r is Err,
        r matches Ok(p) ==> found == Some(p),
        r matches Err(e) ==> e.spec_kind() == AppErrorType::Forbidden,
{
    match found {
        Some(permission) => Ok(permission),
        None => Err(
            AppError::new(String::from_str("User has not permission"), AppErrorType::Forbidden, None),
        ),
    }
}

/// Whether two company lookups found the same company. A failed or empty
/// lookup never matches.
pub fn same_company(
    actor_company: &Result<Option<i64>, AppError>,
    target_company: &Result<Option<i64>, AppError>,
) -> (r: bool)
    ensures
        r == (actor_company matches Ok(Some(a)) && target_company matches Ok(Some(b)) && a == b),
{
    match (actor_company, target_company) {
        (Ok(Some(a)), Ok(Some(b))) => *a == *b,
        _ => false,
    }
}

/// Whether the actor's company lookup found `company_id`.
pub fn company_is(actor_company: &Result<Option<i64>, AppError>, company_id: i64) -> (r: bool)
    ensures
        r == (actor_company matches Ok(Some(a)) && a == company_id),
{
    match actor_company {
        Ok(Some(a)) => *a == company_id,
        _ => false,
    }
}

/// Whether the decision waits on the tenant lookup: the caller looks up the
/// companies, under the same transaction, only when this holds.
pub fn needs_tenancy(
    permission: &Permission,
    resource: Resource,
    operation: Operation,
    actor_id: i64,
    target_user_id: Option<i64>,
) -> (r: bool)
    ensures
        r == tenancy_matters(*permission, resource, operation, actor_id, target_user_id),
{
    let owned_self = match target_user_id {
        Some(t) => t == actor_id && permission.has_scope(resource, Scope::Owned(operation)),
        None => false,
    };
    !permission.has_scope(resource, Scope::Any(operation)) && !owned_self
        && permission.has_scope(resource, Scope::SelfCompany(operation))
}

/// Allows or denies `operation` on `resource` for the actor.
pub fn decide(
    permission: &Permission,
    resource: Resource,
    operation: Operation,
    actor_id: i64,
    target_user_id: Option<i64>,
    same_company: bool,
) -> (r: bool)
    ensures
        r == decision(*permission, resource, operation, actor_id, target_user_id, same_company),
{
    if permission.has_scope(resource, Scope::Any(operation)) {
        return true;
    }
    if permission.has_scope(resource, Scope::SelfCompany(operation)) && same_company {
        return true;
    }
    match target_user_id {
        Some(t) => t == actor_id && permission.has_scope(resource, Scope::Owned(operation)),
        None => false,
    }
}

/// `decide` on a permission lookup that may have found nothing.
pub fn decide_found(
    found: &Option<Permission>,
    resource: Resource,
    operation: Operation,
    actor_id: i64,
    target_user_id: Option<i64>,
    same_company: bool,
) -> (r: Result<bool, AppError>)
    ensures
        agrees(r, guarded_decision(*found, resource, operation, actor_id, target_user_id, same_company)),
{
    match found {
        Some(p) => Ok(decide(p, resource, operation, actor_id, target_user_id, same_company)),
        None => Err(
            AppError::new(String::from_str("User has not permission"), AppErrorType::Forbidden, None),
        ),
    }
}

/// May the actor create a user in a company? `same_company` tells whether the
/// actor belongs to the new user's company.
pub fn create_user(found: &Option<Permission>, actor_id: i64, same_company: bool) -> (r: Result<bool, AppError>)
    ensures
        agrees(r, guarded_decision(*found, Resource::User, Operation::Create, actor_id, None, same_company)),
{
    decide_found(found, Resource::User, Operation::Create, actor_id, None, same_company)
}

/// May the actor read the profile of `requested_user_id`?
pub fn retrieve_user(
    found: &Option<Permission>,
    actor_id: i64,
    requested_user_id: i64,
    same_company: bool,
) -> (r: Result<bool, AppError>)
    ensures
        agrees(
            r,
            guarded_decision(*found, Resource::User, Operation::Read, actor_id, Some(requested_user_id), same_company),
        ),
{
    decide_found(found, Resource::User, Operation::Read, actor_id, Some(requested_user_id), same_company)
}

/// May the actor create a company? Only an `Any` grant allows it.
pub fn create_company(found: &Option<Permission>, actor_id: i64) -> (r: Result<bool, AppError>)
    ensures
        agrees(r, guarded_decision(*found, Resource::Company, Operation::Create, actor_id, None, false)),
        r matches Ok(b) ==> b == found->0.grants(Resource::Company, Scope::Any(Operation::Create)),
{
    decide_found(found, Resource::Company, Operation::Create, actor_id, None, false)
}

/// May the actor file a payroll document for a user? `same_company` tells
/// whether the actor and the document's owner share a company.
pub fn create_payroll(found: &Option<Permission>, actor_id: i64, same_company: bool) -> (r: Result<bool, AppError>)
    ensures
        agrees(r, guarded_decision(*found, Resource::Payroll, Operation::Create, actor_id, None, same_company)),
{
    decide_found(found, Resource::Payroll, Operation::Create, actor_id, None, same_company)
}

/// May the actor list payroll documents, of one user or of everyone?
pub fn get_payrolls(
    found: &Option<Permission>,
    actor_id: i64,
    requested_user_id: Option<i64>,
    same_company: bool,
) -> (r: Result<bool, AppError>)
    ensures
        agrees(
            r,
            guarded_decision(
                *found,
                Resource::Payroll,
                Operation::Read,
                actor_id,
                requested_user_id,
                requested_user_id is Some && same_company,
            ),
        ),
{
    let scoped = requested_user_id.is_some() && same_company;
    decide_found(found, Resource::Payroll, Operation::Read, actor_id, requested_user_id, scoped)
}

/// May the actor download one payroll document, owned by `owner_user_id`?
pub fn get_payroll(
    found: &Option<Permission>,
    actor_id: i64,
    owner_user_id: i64,
    same_company: bool,
) -> (r: Result<bool, AppError>)
    ensures
        agrees(
            r,
            guarded_decision(*found, Resource::Payroll, Operation::Read, actor_id, Some(owner_user_id), same_company),
        ),
{
    decide_found(found, Resource::Payroll, Operation::Read, actor_id, Some(owner_user_id), same_company)
}

proof fn lemma_or_keeps_bit(m: i16, k: i16, x: i16)
    by (bit_vector)
    ensures
        m & x != 0 ==> (m | k) & x != 0,
{
}

/// Adding a grant keeps every grant that was there.
pub proof fn lemma_grant_keeps(p: Permission, resource: Resource, added: Scope, r2: Resource, scope: Scope)
    ensures
        p.grants(r2, scope) ==> with_grant(p, resource, added).grants(r2, scope),
{
    lemma_or_keeps_bit(p.mask_of(r2), scope_mask(added), scope_mask(scope));
}

/// Monotonicity: adding a grant (in particular an `Any` grant for an operation)
/// never turns an allowed decision into a denial.
pub proof fn lemma_decision_monotonic(
    p: Permission,
    resource: Resource,
    op: Operation,
    actor_id: i64,
    target_user_id: Option<i64>,
    same_company: bool,
    added_resource: Resource,
    added: Scope,
)
    ensures
        decision(p, resource, op, actor_id, target_user_id, same_company) ==> decision(
            with_grant(p, added_resource, added),
            resource,
            op,
            actor_id,
            target_user_id,
            same_company,
        ),
{
    lemma_grant_keeps(p, added_resource, added, resource, Scope::Any(op));
    lemma_grant_keeps(p, added_resource, added, resource, Scope::SelfCompany(op));
    lemma_grant_keeps(p, added_resource, added, resource, Scope::Owned(op));
}

/// When the tenant lookup does not matter, its result cannot change the decision.
pub proof fn lemma_tenancy_irrelevant(
    p: Permission,
    resource: Resource,
    op: Operation,
    actor_id: i64,
    target_user_id: Option<i64>,
)
    ensures
        !tenancy_matters(p, resource, op, actor_id, target_user_id) ==> decision(
            p,
            resource,
            op,
            actor_id,
            target_user_id,
            true,
        ) == decision(p, resource, op, actor_id, target_user_id, false),
{
}

} // verus!
