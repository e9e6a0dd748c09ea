use vstd::prelude::*;

use crate::error::{AppError, AppErrorType};
use crate::ingestion::{lemma_success_commits_row_and_blob, IngestionSaga};
use crate::payroll::{RetrievePayrollDownloadDataDb, PDF_CONTENT_TYPE};

verus! {

/// What a caller may relay once the stored blob is known to match its row.
#[derive(Debug)]
pub struct DownloadInfo {
    pub filename: String,
    pub content_type: String,
    pub file_size: i64,
}

/// Where a retrieval stands.
#[derive(Debug, Clone, Copy, PartialEq, Eq, Structural)]
pub enum RetrievalPhase {
    Authorizing,
    FetchingMetadata,
    OpeningStream,
    Relaying,
    Failed,
}

/// What the caller performs next.
#[derive(Debug, Clone, Copy, PartialEq, Eq, Structural)]
pub enum RetrievalAction {
    /// Evaluate the read decision for the document.
    CheckPermission,
    /// Read the document's row in one transaction.
    FetchMetadata,
    /// Open a streaming read of `object_key()` and report the store's size.
    OpenStream,
    /// Relay the stream with `info()`.
    Relay,
    /// Stop: `error()` says why; no byte is relayed.
    Abort,
}

/// The outcome of the action that the caller performed.
pub enum RetrievalEvent {
    Authorized(Result<bool, AppError>),
    MetadataFetched(Result<RetrievePayrollDownloadDataDb, AppError>),
    StreamOpened(Result<i64, AppError>),
}

pub open spec fn retrieval_action_of(phase: RetrievalPhase) -> RetrievalAction {
    match phase {
        RetrievalPhase::Authorizing => RetrievalAction::CheckPermission,
        RetrievalPhase::FetchingMetadata => RetrievalAction::FetchMetadata,
        RetrievalPhase::OpeningStream => RetrievalAction::OpenStream,
        RetrievalPhase::Relaying => RetrievalAction::Relay,
        RetrievalPhase::Failed => RetrievalAction::Abort,
    }
}

pub open spec fn retrieval_answers(phase: RetrievalPhase, event: RetrievalEvent) -> bool {
    match event {
        RetrievalEvent::Authorized(_) => phase == RetrievalPhase::Authorizing,
        RetrievalEvent::MetadataFetched(_) => phase == RetrievalPhase::FetchingMetadata,
        RetrievalEvent::StreamOpened(_) => phase == RetrievalPhase::OpeningStream,
    }
}

/// What is relayed for a row whose blob the store reports at `stored_size`
/// bytes: the row's own name, type and size when the sizes agree, else nothing.
pub open spec fn relayed(meta: RetrievePayrollDownloadDataDb, stored_size: i64) -> Option<DownloadInfo> {
    if stored_size == meta.file_size {
        Some(DownloadInfo { filename: meta.filename, content_type: meta.content_type, file_size: meta.file_size })
    } else {
        None
    }
}

/// Compares the store's size of a blob with the size its row records. A
/// mismatch is an internal inconsistency and nothing may be relayed.
pub fn check_stream_size(meta: RetrievePayrollDownloadDataDb, stored_size: i64) -> (r: Result<DownloadInfo, AppError>)
    ensures
        r is Ok <==> stored_size == meta.file_size,
        r matches Ok(info) ==> relayed(meta, stored_size) == Some(info),
        r matches Err(e) ==> e.spec_kind() == AppErrorType::InternalServerError,
{
    if stored_size != meta.file_size {
        return Err(
            AppError::new(
                String::from_str("File size mismatch between the record and the object store"),
                AppErrorType::InternalServerError,
                None,
            ),
        );
    }
    Ok(DownloadInfo { filename: meta.filename, content_type: meta.content_type, file_size: meta.file_size })
}

/// The retrieval of one document: authorization first, then the row, then the
/// stream, whose size must match the row before any byte is relayed.
pub struct Retrieval {
    phase: RetrievalPhase,
    payroll_id: i64,
    object_key: String,
    meta: Option<RetrievePayrollDownloadDataDb>,
    info: Option<DownloadInfo>,
    error: Option<AppError>,
    fetched: Ghost<Option<RetrievePayrollDownloadDataDb>>,
    stored_size: Ghost<Option<i64>>,
}

impl Retrieval {
    pub closed spec fn phase_spec(&self) -> RetrievalPhase {
        self.phase
    }

    pub closed spec fn payroll_id_spec(&self) -> i64 {
        self.payroll_id
    }

    pub closed spec fn info_spec(&self) -> Option<DownloadInfo> {
        self.info
    }

    pub closed spec fn error_spec(&self) -> Option<AppError> {
        self.error
    }

    pub closed spec fn object_key_spec(&self) -> Seq<char> {
        self.object_key@
    }

    /// The row that was fetched, if any.
    pub closed spec fn fetched(&self) -> Option<RetrievePayrollDownloadDataDb> {
        self.fetched@
    }

    /// The size that the store reported, if it was asked.
    pub closed spec fn stored_size(&self) -> Option<i64> {
        self.stored_size@
    }

    pub closed spec fn wf(&self) -> bool {
        &&& (self.phase == RetrievalPhase::Failed <==> self.error is Some)
        &&& (self.phase == RetrievalPhase::Relaying <==> self.info is Some)
        &&& (self.phase == RetrievalPhase::Authorizing || self.phase == RetrievalPhase::FetchingMetadata)
            ==> self.fetched@ is None
        &&& (self.phase == RetrievalPhase::OpeningStream ==> (self.fetched@ matches Some(m)
            && m.object_key@ == self.object_key@ && self.meta == Some(m)))
        &&& (self.stored_size@ is Some ==> self.fetched@ is Some)
        &&& (self.phase != RetrievalPhase::Relaying && self.phase != RetrievalPhase::Failed)
            ==> self.stored_size@ is None
        &&& (self.phase == RetrievalPhase::Relaying ==> (self.fetched@ matches Some(m)
            && self.stored_size@ matches Some(n) && relayed(m, n) == self.info))
    }

    /// Starts the retrieval of the document `payroll_id`.
    pub fn new(payroll_id: i64) -> (r: (Retrieval, RetrievalAction))
        ensures
            r.0.wf(),
            r.0.phase_spec() == RetrievalPhase::Authorizing,
            r.0.payroll_id_spec() == payroll_id,
            r.1 == RetrievalAction::CheckPermission,
    {
        let r = Retrieval {
            phase: RetrievalPhase::Authorizing,
            payroll_id,
            object_key: String::new(),
            meta: None,
            info: None,
            error: None,
            fetched: Ghost(None),
            stored_size: Ghost(None),
        };
        (r, RetrievalAction::CheckPermission)
    }

    fn fail(&mut self, e: AppError)
        ensures
            *final(self) == (Retrieval { phase: RetrievalPhase::Failed, error: Some(e), ..*old(self) }),
    {
        self.error = Some(e);
        self.phase = RetrievalPhase::Failed;
    }

    /// Takes the outcome of the pending action and returns the next action. An
    /// event that does not answer the pending action changes nothing.
    pub fn step(&mut self, event: RetrievalEvent) -> (action: RetrievalAction)
        requires
            old(self).wf(),
        ensures
            final(self).wf(),
            action == retrieval_action_of(final(self).phase_spec()),
            !retrieval_answers(old(self).phase_spec(), event) ==> *final(self) == *old(self),
            retrieval_answers(old(self).phase_spec(), event) ==> match event {
                RetrievalEvent::Authorized(Ok(true)) => final(self).phase_spec() == RetrievalPhase::FetchingMetadata,
                RetrievalEvent::Authorized(Ok(false)) => final(self).phase_spec() == RetrievalPhase::Failed
                    && final(self).error_spec()->0.spec_kind() == AppErrorType::Forbidden,
                RetrievalEvent::Authorized(Err(e)) => final(self).phase_spec() == RetrievalPhase::Failed
                    && final(self).error_spec() == Some(e),
                RetrievalEvent::MetadataFetched(Ok(m)) => final(self).phase_spec() == RetrievalPhase::OpeningStream
                    && final(self).fetched() == Some(m) && final(self).object_key_spec() == m.object_key@,
                RetrievalEvent::MetadataFetched(Err(e)) => final(self).phase_spec() == RetrievalPhase::Failed
                    && final(self).error_spec() == Some(e),
                RetrievalEvent::StreamOpened(Ok(n)) => final(self).stored_size() == Some(n)
                    && final(self).fetched() == old(self).fetched()
                    && if n == old(self).fetched()->0.file_size {
                        final(self).phase_spec() == RetrievalPhase::Relaying
                            && final(self).info_spec() == relayed(old(self).fetched()->0, n)
                    } else {
                        final(self).phase_spec() == RetrievalPhase::Failed && final(self).info_spec() is None
                            && final(self).error_spec()->0.spec_kind() == AppErrorType::InternalServerError
                    },
                RetrievalEvent::StreamOpened(Err(e)) => final(self).phase_spec() == RetrievalPhase::Failed
                    && final(self).error_spec() == Some(e),
            },
    {
        match (self.phase, event) {
            (RetrievalPhase::Authorizing, RetrievalEvent::Authorized(Ok(allowed))) => {
                if allowed {
                    self.phase = RetrievalPhase::FetchingMetadata;
                } else {
                    self.fail(
                        AppError::new(
                            String::from_str("You do not have permission to access the requested resource"),
                            AppErrorType::Forbidden,
                            None,
                        ),
                    );
                }
            },
            (RetrievalPhase::Authorizing, RetrievalEvent::Authorized(Err(e))) => {
                self.fail(e);
            },
            (RetrievalPhase::FetchingMetadata, RetrievalEvent::MetadataFetched(Ok(meta))) => {
                self.object_key = meta.object_key.clone();
                self.fetched = Ghost(Some(meta));
                self.meta = Some(meta);
                self.phase = RetrievalPhase::OpeningStream;
            },
            (RetrievalPhase::FetchingMetadata, RetrievalEvent::MetadataFetched(Err(e))) => {
                self.fail(e);
            },
            (RetrievalPhase::OpeningStream, RetrievalEvent::StreamOpened(Ok(size))) => {
                self.stored_size = Ghost(Some(size));
                match self.meta.take() {
                    Some(m) => {
                        match check_stream_size(m, size) {
                            Ok(info) => {
                                self.info = Some(info);
                                self.phase = RetrievalPhase::Relaying;
                            },
                            Err(e) => self.fail(e),
                        }
                    },
                    None => {},
                }
            },
            (RetrievalPhase::OpeningStream, RetrievalEvent::StreamOpened(Err(e))) => {
                self.fail(e);
            },
            _ => {},
        }
        self.pending()
    }

    /// The key of the blob to stream, once the row is known.
    pub fn object_key(&self) -> (r: &str)
        ensures
            r@ == self.object_key_spec(),
    {
        self.object_key.as_str()
    }

    /// What to relay, once the sizes agreed.
    pub fn info(&self) -> (r: Option<&DownloadInfo>)
        ensures
            r matches Some(i) ==> self.info_spec() == Some(*i),
            r is None ==> self.info_spec() is None,
    {
        self.info.as_ref()
    }

    /// Why the retrieval stopped, if it did.
    pub fn error(&self) -> (r: Option<&AppError>)
        ensures
            r matches Some(e) ==> self.error_spec() == Some(*e),
            r is None ==> self.error_spec() is None,
    {
        self.error.as_ref()
    }

    pub fn phase(&self) -> (r: RetrievalPhase)
        ensures
            r == self.phase_spec(),
    {
        self.phase
    }

    pub fn payroll_id(&self) -> (r: i64)
        ensures
            r == self.payroll_id_spec(),
    {
        self.payroll_id
    }

    pub fn pending(&self) -> (r: RetrievalAction)
        ensures
            r == retrieval_action_of(self.phase_spec()),
    {
        match self.phase {
            RetrievalPhase::Authorizing => RetrievalAction::CheckPermission,
            RetrievalPhase::FetchingMetadata => RetrievalAction::FetchMetadata,
            RetrievalPhase::OpeningStream => RetrievalAction::OpenStream,
            RetrievalPhase::Relaying => RetrievalAction::Relay,
            RetrievalPhase::Failed => RetrievalAction::Abort,
        }
    }
}

/// A relayed download never disagrees with the store: the retrieval relays
/// only when the store's size equals the row's, and then relays the row's own
/// name, type and size.
pub proof fn lemma_relay_only_on_matching_size(r: Retrieval)
    requires
        r.wf(),
        r.phase_spec() == RetrievalPhase::Relaying,
    ensures
        (r.fetched() matches Some(m) && r.stored_size() == Some(m.file_size) && r.info_spec() == Some(
            DownloadInfo { filename: m.filename, content_type: m.content_type, file_size: m.file_size },
        )),
{
}

/// Round trip: a document that an ingestion committed, read back through its
/// row while the store holds the blob that was uploaded for it, is relayed
/// with the ingested name, the accepted media type and the ingested size, and
/// that size is the number of bytes the store holds.
pub proof fn lemma_ingest_then_retrieve(saga: IngestionSaga, meta: RetrievePayrollDownloadDataDb, stored_size: i64)
    requires
        saga.wf(),
        saga.outcome_spec() matches Some(Ok(_)),
        saga.row_spec() is Some,
        meta.object_key == saga.row_spec()->0.object_key,
        meta.filename == saga.row_spec()->0.filename,
        meta.content_type == saga.row_spec()->0.content_type,
        meta.file_size == saga.row_spec()->0.file_size,
        stored_size == saga.row_spec()->0.file_size,
    ensures
        relayed(meta, stored_size) == Some(
            DownloadInfo {
                filename: saga.row_spec()->0.filename,
                content_type: saga.row_spec()->0.content_type,
                file_size: saga.row_spec()->0.file_size,
            },
        ),
        saga.row_spec()->0.content_type@ == PDF_CONTENT_TYPE@,
        relayed(meta, stored_size)->0.file_size == stored_size,
        saga.row_spec()->0.object_key@ == saga.object_key_spec(),
{
    lemma_success_commits_row_and_blob(saga);
}

} // verus!
