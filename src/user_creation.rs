use vstd::prelude::*;
use vstd::string::to_string_from_display_ensures;

use crate::auth::AuthService;
use crate::authorization::FORBIDDEN_MESSAGE;
use crate::error::{fails_as, AppError, AppErrorType};
use crate::permission::{role_mask, Permission, Resource, Role};
use crate::unit_of_work::{RowRef, TxState, UnitOfWork};
use crate::user::{
    raw_password_ok, user_failure, user_row_of, CreateUserDb, CreateUserDto, RetrieveUserDb, RetrieveUserDto,
    PASSWORD_LENGTH_MESSAGE,
};

verus! {

pub const USERNAME_TAKEN_MESSAGE: &'static str = "User with username \"$1\" already exists";
pub const COMPANY_MISSING_MESSAGE: &'static str = "Company with id \"$1\" does not exist";

/// Where the creation of a user stands.
#[derive(Debug, Clone, Copy, PartialEq, Eq, Structural)]
pub enum CreateUserPhase {
    Beginning,
    Authorizing,
    CheckingUsername,
    CheckingCompany,
    InsertingUser,
    InsertingPermission,
    Settling,
    Done,
}

/// What the caller performs next, on the connection of the unit of work.
#[derive(Debug, Clone, Copy, PartialEq, Eq, Structural)]
pub enum CreateUserAction {
    Begin,
    /// Take the actor's create-user decision inside the transaction.
    Authorize,
    /// Ask whether `username()` is taken.
    CheckUsername,
    /// Ask whether the company `company_id()` exists.
    CheckCompany,
    /// Insert `row()` and report the created row.
    InsertUser,
    /// Insert `permission()`.
    InsertPermission,
    Commit,
    Rollback,
    Finish,
}

/// The outcome of the action that the caller performed.
pub enum CreateUserEvent {
    Begun(Result<(), AppError>),
    Authorized(Result<bool, AppError>),
    UsernameTaken(Result<bool, AppError>),
    CompanyExists(Result<bool, AppError>),
    UserInserted(Result<RetrieveUserDb, AppError>),
    PermissionInserted(Result<(), AppError>),
    Settled(Result<(), AppError>),
}

pub open spec fn create_user_action_of(phase: CreateUserPhase, tx: TxState) -> CreateUserAction {
    match phase {
        CreateUserPhase::Beginning => CreateUserAction::Begin,
        CreateUserPhase::Authorizing => CreateUserAction::Authorize,
        CreateUserPhase::CheckingUsername => CreateUserAction::CheckUsername,
        CreateUserPhase::CheckingCompany => CreateUserAction::CheckCompany,
        CreateUserPhase::InsertingUser => CreateUserAction::InsertUser,
        CreateUserPhase::InsertingPermission => CreateUserAction::InsertPermission,
        CreateUserPhase::Settling => if tx == TxState::Committed {
            CreateUserAction::Commit
        } else {
            CreateUserAction::Rollback
        },
        CreateUserPhase::Done => CreateUserAction::Finish,
    }
}

pub open spec fn create_user_answers(phase: CreateUserPhase, event: CreateUserEvent) -> bool {
    match event {
        CreateUserEvent::Begun(_) => phase == CreateUserPhase::Beginning,
        CreateUserEvent::Authorized(_) => phase == CreateUserPhase::Authorizing,
        CreateUserEvent::UsernameTaken(_) => phase == CreateUserPhase::CheckingUsername,
        CreateUserEvent::CompanyExists(_) => phase == CreateUserPhase::CheckingCompany,
        CreateUserEvent::UserInserted(_) => phase == CreateUserPhase::InsertingUser,
        CreateUserEvent::PermissionInserted(_) => phase == CreateUserPhase::InsertingPermission,
        CreateUserEvent::Settled(_) => phase == CreateUserPhase::Settling,
    }
}

/// The permission that the role of a new user gives it.
pub open spec fn role_permission(user_id: i64, role: Role) -> Permission {
    Permission {
        user_id,
        user: role_mask(role, Resource::User),
        payroll: role_mask(role, Resource::Payroll),
        company: role_mask(role, Resource::Company),
    }
}

/// The user that a created row is returned as.
pub open spec fn dto_of(c: RetrieveUserDb) -> RetrieveUserDto {
    RetrieveUserDto { id: c.id, username: c.username, email: c.email, name: c.name, company_id: c.company_id }
}

/// Creating a user together with the permission of its role, as one unit of
/// work that also holds the decision to allow it: both rows persist, or
/// neither does.
pub struct CreateUserFlow {
    phase: CreateUserPhase,
    request: Option<CreateUserDto>,
    username: String,
    company_id: i64,
    company_id_text: String,
    role: Role,
    row: Option<CreateUserDb>,
    created: Option<RetrieveUserDb>,
    permission: Option<Permission>,
    uow: UnitOfWork,
    outcome: Option<Result<RetrieveUserDto, AppError>>,
}

impl CreateUserFlow {
    pub closed spec fn phase_spec(&self) -> CreateUserPhase {
        self.phase
    }

    pub closed spec fn unit(&self) -> UnitOfWork {
        self.uow
    }

    pub closed spec fn outcome_spec(&self) -> Option<Result<RetrieveUserDto, AppError>> {
        self.outcome
    }

    pub closed spec fn permission_spec(&self) -> Option<Permission> {
        self.permission
    }

    pub closed spec fn role_spec(&self) -> Role {
        self.role
    }

    pub closed spec fn username_spec(&self) -> Seq<char> {
        self.username@
    }

    pub closed spec fn company_id_spec(&self) -> i64 {
        self.company_id
    }

    /// The company id as text, for the error of a missing company.
    pub closed spec fn company_id_text_spec(&self) -> Seq<char> {
        self.company_id_text@
    }

    /// The request, until its row is built.
    pub closed spec fn request_spec(&self) -> Option<CreateUserDto> {
        self.request
    }

    pub closed spec fn row_spec(&self) -> Option<CreateUserDb> {
        self.row
    }

    /// The user row, once inserted.
    pub closed spec fn created_spec(&self) -> Option<RetrieveUserDb> {
        self.created
    }

    pub closed spec fn wf(&self) -> bool {
        let tx = self.uow.state();
        let staged = self.uow.staged();
        &&& (self.permission matches Some(p) ==> p == role_permission(p.user_id, self.role))
        &&& (self.request matches Some(q) ==> q.username@ == self.username@ && q.company_id == self.company_id
            && q.role == self.role)
        &&& match self.phase {
            CreateUserPhase::Beginning => {
                &&& tx == TxState::Idle && staged.len() == 0 && self.outcome is None
                &&& self.request is Some
            },
            CreateUserPhase::Authorizing | CreateUserPhase::CheckingUsername | CreateUserPhase::CheckingCompany => {
                &&& tx == TxState::Open && staged.len() == 0 && self.outcome is None
                &&& self.request is Some
            },
            CreateUserPhase::InsertingUser => {
                &&& tx == TxState::Open && staged.len() == 0 && self.outcome is None
                &&& self.row is Some
            },
            CreateUserPhase::InsertingPermission => {
                &&& tx == TxState::Open && self.outcome is None
                &&& self.created matches Some(c) && self.permission == Some(role_permission(c.id, self.role))
                    && staged == seq![RowRef::User(c.id)]
            },
            CreateUserPhase::Settling => {
                &&& (tx == TxState::Committed || tx == TxState::RolledBack)
                &&& (tx == TxState::Committed <==> self.outcome matches Some(Ok(_)))
                &&& self.outcome is Some
                &&& (self.outcome matches Some(Ok(dto)) ==> staged == seq![
                    RowRef::User(dto.id),
                    RowRef::Permission(dto.id),
                ] && self.permission == Some(role_permission(dto.id, self.role)))
            },
            CreateUserPhase::Done => {
                &&& self.outcome is Some
                &&& tx != TxState::Open
                &&& (tx == TxState::Committed <==> self.outcome matches Some(Ok(_)))
                &&& (self.outcome matches Some(Ok(dto)) ==> staged == seq![
                    RowRef::User(dto.id),
                    RowRef::Permission(dto.id),
                ] && self.permission == Some(role_permission(dto.id, self.role)))
            },
        }
    }

    /// Starts the creation of the user that `request` describes, with its raw
    /// password.
    pub fn new(request: CreateUserDto) -> (r: (CreateUserFlow, CreateUserAction))
        ensures
            r.0.wf(),
            r.0.phase_spec() == CreateUserPhase::Beginning,
            r.0.request_spec() == Some(request),
            r.0.role_spec() == request.role,
            r.0.username_spec() == request.username@,
            r.0.company_id_spec() == request.company_id,
            exists|text: String|
                to_string_from_display_ensures::<i64>(&request.company_id, text) && r.0.company_id_text_spec()
                    == text@,
            r.0.unit().state() == TxState::Idle,
            r.1 == CreateUserAction::Begin,
    {
        let username = request.username.clone();
        let company_id = request.company_id;
        let company_id_text = company_id.to_string();
        let ghost text = company_id_text;
        let role = request.role;
        let flow = CreateUserFlow {
            phase: CreateUserPhase::Beginning,
            request: Some(request),
            username,
            company_id,
            company_id_text,
            role,
            row: None,
            created: None,
            permission: None,
            uow: UnitOfWork::new(),
            outcome: None,
        };
        assert(to_string_from_display_ensures::<i64>(&company_id, text) && flow.company_id_text_spec() == text@);
        (flow, CreateUserAction::Begin)
    }

    pub fn pending(&self) -> (r: CreateUserAction)
        ensures
            r == create_user_action_of(self.phase_spec(), self.unit().state()),
    {
        match self.phase {
            CreateUserPhase::Beginning => CreateUserAction::Begin,
            CreateUserPhase::Authorizing => CreateUserAction::Authorize,
            CreateUserPhase::CheckingUsername => CreateUserAction::CheckUsername,
            CreateUserPhase::CheckingCompany => CreateUserAction::CheckCompany,
            CreateUserPhase::InsertingUser => CreateUserAction::InsertUser,
            CreateUserPhase::InsertingPermission => CreateUserAction::InsertPermission,
            CreateUserPhase::Settling => match self.uow.current() {
                TxState::Committed => CreateUserAction::Commit,
                _ => CreateUserAction::Rollback,
            },
            CreateUserPhase::Done => CreateUserAction::Finish,
        }
    }

    /// Fails the open unit: the error becomes the outcome and the transaction
    /// is rolled back.
    fn fail(&mut self, e: AppError)
        requires
            old(self).unit().state() == TxState::Open,
        ensures
            *final(self) == (CreateUserFlow {
                phase: CreateUserPhase::Settling,
                outcome: Some(Err(e)),
                uow: final(self).uow,
                ..*old(self)
            }),
            final(self).unit().state() == TxState::RolledBack,
            final(self).unit().staged() == old(self).unit().staged(),
    {
        self.outcome = Some(Err(e));
        let _ = self.uow.end(false);
        self.phase = CreateUserPhase::Settling;
    }

    /// The username to look up.
    pub fn username(&self) -> (r: &str)
        ensures
            r@ == self.username_spec(),
    {
        self.username.as_str()
    }

    /// The company the new user joins.
    pub fn company_id(&self) -> (r: i64)
        ensures
            r == self.company_id_spec(),
    {
        self.company_id
    }

    /// The checked row to insert.
    pub fn row(&self) -> (r: Option<&CreateUserDb>)
        ensures
            r matches Some(row) ==> self.row_spec() == Some(*row),
            r is None ==> self.row_spec() is None,
    {
        self.row.as_ref()
    }

    /// The permission of the new user's role.
    pub fn permission(&self) -> (r: Option<&Permission>)
        ensures
            r matches Some(p) ==> self.permission_spec() == Some(*p),
            r is None ==> self.permission_spec() is None,
    {
        self.permission.as_ref()
    }

    pub fn into_outcome(self) -> (r: Option<Result<RetrieveUserDto, AppError>>)
        ensures
            r == self.outcome_spec(),
    {
        self.outcome
    }

    /// What a step does with an event that answers the pending action.
    pub open spec fn transition(old: CreateUserFlow, new: CreateUserFlow, event: CreateUserEvent) -> bool {
        let rolled_back = new.phase_spec() == CreateUserPhase::Settling && new.unit().state() == TxState::RolledBack
            && new.unit().staged() == old.unit().staged();
        match event {
            CreateUserEvent::Begun(Ok(_)) => new.phase_spec() == CreateUserPhase::Authorizing
                && new.unit().state() == TxState::Open && new.request_spec() == old.request_spec(),
            CreateUserEvent::Begun(Err(e)) => new.phase_spec() == CreateUserPhase::Done
                && new.outcome_spec() == Some(Err::<RetrieveUserDto, AppError>(e)) && new.unit() == old.unit(),
            CreateUserEvent::Authorized(Ok(true)) => {
                let req = old.request_spec()->0;
                if !raw_password_ok(req.password@) {
                    rolled_back && (new.outcome_spec() matches Some(r) && fails_as(
                        r,
                        (AppErrorType::BadRequest, PASSWORD_LENGTH_MESSAGE@, None),
                    ))
                } else {
                    ||| new.phase_spec() == CreateUserPhase::CheckingUsername && (new.request_spec() matches Some(
                        q,
                    ) && q.username == req.username && q.email == req.email && q.name == req.name
                        && q.company_id == req.company_id && q.role == req.role)
                    ||| rolled_back && (new.outcome_spec() matches Some(Err(e)) && e.spec_kind()
                        == AppErrorType::InternalServerError)
                }
            },
            CreateUserEvent::Authorized(Ok(false)) => rolled_back && (new.outcome_spec() matches Some(r)
                && fails_as(r, (AppErrorType::Forbidden, FORBIDDEN_MESSAGE@, None))),
            CreateUserEvent::UsernameTaken(Ok(false)) => new.phase_spec() == CreateUserPhase::CheckingCompany
                && new.request_spec() == old.request_spec(),
            CreateUserEvent::UsernameTaken(Ok(true)) => rolled_back && (new.outcome_spec() matches Some(r)
                && fails_as(r, (AppErrorType::Conflict, USERNAME_TAKEN_MESSAGE@, Some(seq![old.username_spec()])))),
            CreateUserEvent::CompanyExists(Ok(false)) => rolled_back && (new.outcome_spec() matches Some(r)
                && fails_as(
                r,
                (AppErrorType::BadRequest, COMPANY_MISSING_MESSAGE@, Some(seq![old.company_id_text_spec()])),
            )),
            CreateUserEvent::CompanyExists(Ok(true)) => {
                let req = old.request_spec()->0;
                match user_failure(req.username@, req.email, req.name@) {
                    None => new.phase_spec() == CreateUserPhase::InsertingUser && new.row_spec() == Some(
                        user_row_of(req),
                    ) && new.unit() == old.unit(),
                    Some(f) => rolled_back && (new.outcome_spec() matches Some(r) && fails_as(r, f)),
                }
            },
            CreateUserEvent::UserInserted(Ok(c)) => new.phase_spec() == CreateUserPhase::InsertingPermission
                && new.created_spec() == Some(c) && new.permission_spec() == Some(role_permission(c.id, old.role_spec()))
                && new.unit().state() == TxState::Open && new.unit().staged() == seq![RowRef::User(c.id)],
            CreateUserEvent::PermissionInserted(Ok(_)) => {
                let c = old.created_spec()->0;
                &&& new.phase_spec() == CreateUserPhase::Settling
                &&& new.unit().state() == TxState::Committed
                &&& new.unit().staged() == seq![RowRef::User(c.id), RowRef::Permission(c.id)]
                &&& new.outcome_spec() == Some(Ok::<RetrieveUserDto, AppError>(dto_of(c)))
            },
            CreateUserEvent::Settled(Ok(_)) => new.phase_spec() == CreateUserPhase::Done && new.outcome_spec()
                == old.outcome_spec() && new.unit() == old.unit(),
            CreateUserEvent::Settled(Err(e)) => new.phase_spec() == CreateUserPhase::Done && if old.unit().state()
                == TxState::Committed {
                new.outcome_spec() == Some(Err::<RetrieveUserDto, AppError>(e)) && new.unit().state()
                    == TxState::RolledBack
            } else {
                new.outcome_spec() == old.outcome_spec() && new.unit() == old.unit()
            },
            CreateUserEvent::Authorized(Err(e)) | CreateUserEvent::UsernameTaken(Err(e))
            | CreateUserEvent::CompanyExists(Err(e)) | CreateUserEvent::UserInserted(Err(e))
            | CreateUserEvent::PermissionInserted(Err(e)) => rolled_back && new.outcome_spec() == Some(
                Err::<RetrieveUserDto, AppError>(e),
            ),
        }
    }

    /// Takes the outcome of the pending action and returns the next action. An
    /// event that does not answer the pending action changes nothing.
    pub fn step(&mut self, event: CreateUserEvent) -> (action: CreateUserAction)
        requires
            old(self).wf(),
        ensures
            final(self).wf(),
            final(self).role_spec() == old(self).role_spec(),
            final(self).username_spec() == old(self).username_spec(),
            final(self).company_id_spec() == old(self).company_id_spec(),
            final(self).company_id_text_spec() == old(self).company_id_text_spec(),
            action == create_user_action_of(final(self).phase_spec(), final(self).unit().state()),
            !create_user_answers(old(self).phase_spec(), event) ==> *final(self) == *old(self),
            create_user_answers(old(self).phase_spec(), event) ==> Self::transition(*old(self), *final(self), event),
    {
        match (self.phase, event) {
            (CreateUserPhase::Beginning, CreateUserEvent::Begun(Ok(()))) => {
                let _ = self.uow.begin();
                self.phase = CreateUserPhase::Authorizing;
            },
            (CreateUserPhase::Beginning, CreateUserEvent::Begun(Err(e))) => {
                self.outcome = Some(Err(e));
                self.phase = CreateUserPhase::Done;
            },
            (CreateUserPhase::Authorizing, CreateUserEvent::Authorized(Ok(allowed))) => {
                if !allowed {
                    let e = AppError::new(String::from_str(FORBIDDEN_MESSAGE), AppErrorType::Forbidden, None);
                    self.fail(e);
                } else {
                    match self.request.take() {
                        Some(request) => match AuthService::new().sign_up(request) {
                            Ok(hashed) => {
                                self.request = Some(hashed);
                                self.phase = CreateUserPhase::CheckingUsername;
                            },
                            Err(e) => self.fail(e),
                        },
                        None => {},
                    }
                }
            },
            (CreateUserPhase::CheckingUsername, CreateUserEvent::UsernameTaken(Ok(taken))) => {
                if taken {
                    let parameters = vec![self.username.clone()];
                    assert(parameters@.map_values(|s: String| s@) =~= seq![self.username@]);
                    let e = AppError::new(
                        String::from_str(USERNAME_TAKEN_MESSAGE),
                        AppErrorType::Conflict,
                        Some(parameters),
                    );
                    self.fail(e);
                } else {
                    self.phase = CreateUserPhase::CheckingCompany;
                }
            },
            (CreateUserPhase::CheckingCompany, CreateUserEvent::CompanyExists(Ok(exists))) => {
                if !exists {
                    let parameters = vec![self.company_id_text.clone()];
                    assert(parameters@.map_values(|s: String| s@) =~= seq![self.company_id_text@]);
                    let e = AppError::new(
                        String::from_str(COMPANY_MISSING_MESSAGE),
                        AppErrorType::BadRequest,
                        Some(parameters),
                    );
                    self.fail(e);
                } else {
                    match self.request.take() {
                        Some(request) => match CreateUserDb::from_create_user_dto(request) {
                            Ok(row) => {
                                self.row = Some(row);
                                self.phase = CreateUserPhase::InsertingUser;
                            },
                            Err(e) => self.fail(e),
                        },
                        None => {},
                    }
                }
            },
            (CreateUserPhase::InsertingUser, CreateUserEvent::UserInserted(Ok(created))) => {
                let _ = self.uow.stage(RowRef::User(created.id));
                assert(self.uow.staged() =~= seq![RowRef::User(created.id)]);
                self.permission = Some(Permission::from_role(created.id, self.role));
                self.created = Some(created);
                self.phase = CreateUserPhase::InsertingPermission;
            },
            (CreateUserPhase::InsertingPermission, CreateUserEvent::PermissionInserted(Ok(()))) => {
                match self.created.take() {
                    Some(created) => {
                        let _ = self.uow.stage(RowRef::Permission(created.id));
                        assert(self.uow.staged() =~= seq![
                            RowRef::User(created.id),
                            RowRef::Permission(created.id),
                        ]);
                        match created.to_retrieve_user_dto() {
                            Ok(dto) => {
                                self.outcome = Some(Ok(dto));
                                let _ = self.uow.end(true);
                                self.phase = CreateUserPhase::Settling;
                            },
                            Err(e) => self.fail(e),
                        }
                    },
                    None => {},
                }
            },
            (CreateUserPhase::Authorizing, CreateUserEvent::Authorized(Err(e)))
            | (CreateUserPhase::CheckingUsername, CreateUserEvent::UsernameTaken(Err(e)))
            | (CreateUserPhase::CheckingCompany, CreateUserEvent::CompanyExists(Err(e)))
            | (CreateUserPhase::InsertingUser, CreateUserEvent::UserInserted(Err(e)))
            | (CreateUserPhase::InsertingPermission, CreateUserEvent::PermissionInserted(Err(e))) => {
                self.fail(e);
            },
            (CreateUserPhase::Settling, CreateUserEvent::Settled(result)) => {
                match result {
                    Ok(()) => {},
                    Err(e) => {
                        if let TxState::Committed = self.uow.current() {
                            self.uow.commit_failed();
                            self.outcome = Some(Err(e));
                        }
                    },
                }
                self.phase = CreateUserPhase::Done;
            },
            _ => {},
        }
        self.pending()
    }
}

/// A creation that failed at any step, the permission insert included, leaves
/// neither the user row nor the permission row behind.
pub proof fn lemma_failed_creation_persists_nothing(f: CreateUserFlow)
    requires
        f.wf(),
        f.phase_spec() == CreateUserPhase::Done,
        f.outcome_spec() matches Some(Err(_)),
    ensures
        f.unit().persisted() == Seq::<RowRef>::empty(),
{
}

/// A creation that succeeded persists exactly the user row and the permission
/// row of its role, for the new user.
pub proof fn lemma_successful_creation_persists_both(f: CreateUserFlow)
    requires
        f.wf(),
        f.phase_spec() == CreateUserPhase::Done,
        f.outcome_spec() matches Some(Ok(_)),
    ensures
        (f.outcome_spec() matches Some(Ok(dto)) && f.unit().persisted() == seq![
            RowRef::User(dto.id),
            RowRef::Permission(dto.id),
        ] && f.permission_spec() == Some(role_permission(dto.id, f.role_spec()))),
{
}

} // verus!
