use vstd::prelude::*;

verus! {

/// The life of one transaction: `Idle`, then `Open`, then one of the two
/// terminal states.
#[derive(Debug, Clone, Copy, PartialEq, Eq, Structural)]
pub enum TxState {
    Idle,
    Open,
    Committed,
    RolledBack,
}

/// What the caller does to the connection that holds the transaction.
#[derive(Debug, Clone, Copy, PartialEq, Eq, Structural)]
pub enum TxCommand {
    Begin,
    Commit,
    Rollback,
}

/// A row written inside a transaction, by table and id.
#[derive(Debug, Clone, Copy, PartialEq, Eq, Structural)]
pub enum RowRef {
    User(i64),
    Permission(i64),
    Company(i64),
    Payroll(i64),
}

/// One atomic unit: the inner operations that share it stage their writes, and
/// the outward operation that owns it ends it once, by commit or by rollback.
pub struct UnitOfWork {
    state: TxState,
    staged: Vec<RowRef>,
}

impl UnitOfWork {
    pub closed spec fn state(&self) -> TxState {
        self.state
    }

    /// The writes made inside the transaction so far.
    pub closed spec fn staged(&self) -> Seq<RowRef> {
        self.staged@
    }

    /// The rows that outlive the transaction: all of its writes once it is
    /// committed, none otherwise.
    pub open spec fn persisted(&self) -> Seq<RowRef> {
        if self.state() == TxState::Committed {
            self.staged()
        } else {
            Seq::empty()
        }
    }

    pub fn new() -> (r: UnitOfWork)
        ensures
            r.state() == TxState::Idle,
            r.staged() == Seq::<RowRef>::empty(),
    {
        UnitOfWork { state: TxState::Idle, staged: Vec::new() }
    }

    pub fn current(&self) -> (r: TxState)
        ensures
            r == self.state(),
    {
        self.state
    }

    /// Opens the transaction of an idle unit; otherwise nothing changes.
    pub fn begin(&mut self) -> (r: Option<TxCommand>)
        ensures
            old(self).state() == TxState::Idle ==> r == Some(TxCommand::Begin) && final(self).state()
                == TxState::Open && final(self).staged() == old(self).staged(),
            old(self).state() != TxState::Idle ==> r is None && *final(self) == *old(self),
    {
        match self.state {
            TxState::Idle => {
                self.state = TxState::Open;
                Some(TxCommand::Begin)
            },
            _ => None,
        }
    }

    /// Records a write made inside the open transaction.
    pub fn stage(&mut self, row: RowRef) -> (r: bool)
        ensures
            r == (old(self).state() == TxState::Open),
            r ==> final(self).state() == TxState::Open && final(self).staged() == old(self).staged().push(row),
            !r ==> *final(self) == *old(self),
    {
        match self.state {
            TxState::Open => {
                self.staged.push(row);
                true
            },
            _ => false,
        }
    }

    /// Ends the open transaction: commit when the work succeeded, roll back
    /// when it failed. A unit that is not open is left as it is.
    pub fn end(&mut self, success: bool) -> (r: Option<TxCommand>)
        ensures
            old(self).state() == TxState::Open ==> final(self).staged() == old(self).staged() && if success {
                r == Some(TxCommand::Commit) && final(self).state() == TxState::Committed
            } else {
                r == Some(TxCommand::Rollback) && final(self).state() == TxState::RolledBack
            },
            old(self).state() != TxState::Open ==> r is None && *final(self) == *old(self),
    {
        match self.state {
            TxState::Open => {
                if success {
                    self.state = TxState::Committed;
                    Some(TxCommand::Commit)
                } else {
                    self.state = TxState::RolledBack;
                    Some(TxCommand::Rollback)
                }
            },
            _ => None,
        }
    }

    /// The commit was refused: the database discarded the transaction.
    pub fn commit_failed(&mut self)
        ensures
            old(self).state() == TxState::Committed ==> final(self).state() == TxState::RolledBack
                && final(self).staged() == old(self).staged(),
            old(self).state() != TxState::Committed ==> *final(self) == *old(self),
    {
        if let TxState::Committed = self.state {
            self.state = TxState::RolledBack;
        }
    }
}

/// No partial commits: a unit that did not commit leaves no row behind, and a
/// committed unit keeps every write it staged, in order.
pub proof fn lemma_all_or_nothing(u: UnitOfWork)
    ensures
        u.state() != TxState::Committed ==> u.persisted() == Seq::<RowRef>::empty(),
        u.state() == TxState::Committed ==> u.persisted() == u.staged(),
{
}

} // verus!
