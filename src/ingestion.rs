use vstd::prelude::*;
use vstd::string::*;

use crate::error::{AppError, AppErrorType};
use crate::error::{fails_as, Failure};
use crate::payroll::{
    row_failure, CreatePayrollDb, CreatePayrollDto, RetrievePayrollDb, RetrievePayrollDto, PDF_CONTENT_TYPE,
};

verus! {

/// A received upload: where it was saved, under which names, and how many
/// bytes were written.
#[derive(Debug)]
pub struct FileInfo {
    pub file_path: String,
    pub original_file_name: String,
    pub unique_file_name: String,
    pub file_size: i64,
}

/// The message of the error that a failed compensating delete gives; its
/// parameters are the message of the failed insert, then that of the failed
/// delete.
pub const COMPENSATION_FAILURE_MESSAGE: &'static str = "The insert failed ($1) and the uploaded blob could not be deleted ($2)";

/// Where an ingestion stands.
#[derive(Debug, Clone, Copy, PartialEq, Eq, Structural)]
pub enum IngestionPhase {
    CheckingPdf,
    Uploading,
    Inserting,
    Compensating,
    Cleaning,
    Finished,
}

/// What the caller performs next.
#[derive(Debug, Clone, Copy, PartialEq, Eq, Structural)]
pub enum IngestionAction {
    /// Parse the local temporary file as a PDF document.
    CheckPdf,
    /// Upload the temporary file to the object store under the object key,
    /// outside any database transaction.
    Upload,
    /// Insert `row()` in a transaction of its own.
    InsertRow,
    /// Delete the blob that was just uploaded: the compensation of a failed insert.
    DeleteBlob,
    /// Delete the local temporary file.
    RemoveTempFile,
    /// Nothing is left to do: the outcome is ready.
    Finish,
}

/// The outcome of the action that the caller performed.
pub enum IngestionEvent {
    PdfChecked(Result<(), AppError>),
    Uploaded(Result<(), AppError>),
    Inserted(Result<RetrievePayrollDb, AppError>),
    BlobDeleted(Result<(), AppError>),
    TempFileRemoved(Result<(), AppError>),
}

/// The state of the two systems and of the local disk, as the events report it.
pub struct Effects {
    pub blob_stored: bool,
    pub temp_file_exists: bool,
    pub row_committed: bool,
}

/// Which failures the saga went through.
pub struct History {
    pub insert_failed: bool,
    pub compensation_failed: bool,
    pub cleanup_failed: bool,
}

/// The action that each phase waits on.
pub open spec fn action_of(phase: IngestionPhase) -> IngestionAction {
    match phase {
        IngestionPhase::CheckingPdf => IngestionAction::CheckPdf,
        IngestionPhase::Uploading => IngestionAction::Upload,
        IngestionPhase::Inserting => IngestionAction::InsertRow,
        IngestionPhase::Compensating => IngestionAction::DeleteBlob,
        IngestionPhase::Cleaning => IngestionAction::RemoveTempFile,
        IngestionPhase::Finished => IngestionAction::Finish,
    }
}

/// Whether `event` answers the action that `phase` waits on.
pub open spec fn answers(phase: IngestionPhase, event: IngestionEvent) -> bool {
    match event {
        IngestionEvent::PdfChecked(_) => phase == IngestionPhase::CheckingPdf,
        IngestionEvent::Uploaded(_) => phase == IngestionPhase::Uploading,
        IngestionEvent::Inserted(_) => phase == IngestionPhase::Inserting,
        IngestionEvent::BlobDeleted(_) => phase == IngestionPhase::Compensating,
        IngestionEvent::TempFileRemoved(_) => phase == IngestionPhase::Cleaning,
    }
}

/// Steps left before the saga finishes: every answered event lowers it.
pub open spec fn steps_left(phase: IngestionPhase) -> nat {
    match phase {
        IngestionPhase::CheckingPdf => 5,
        IngestionPhase::Uploading => 4,
        IngestionPhase::Inserting => 3,
        IngestionPhase::Compensating => 2,
        IngestionPhase::Cleaning => 1,
        IngestionPhase::Finished => 0,
    }
}

/// The name of an uploaded file ends in `.pdf`.
pub open spec fn pdf_name(name: Seq<char>) -> bool {
    name.len() >= 4 && name.subrange(name.len() - 4, name.len() as int) == seq!['.', 'p', 'd', 'f']
}

/// Whether a file name ends in `.pdf`.
pub fn has_pdf_extension(name: &str) -> (r: bool)
    ensures
        r == pdf_name(name@),
{
    let n = name.unicode_len();
    if n < 4 {
        return false;
    }
    let ok = name.get_char(n - 4) == '.' && name.get_char(n - 3) == 'p' && name.get_char(n - 2) == 'd'
        && name.get_char(n - 1) == 'f';
    proof {
        let tail = name@.subrange(n - 4, n as int);
        if ok {
            assert(tail =~= seq!['.', 'p', 'd', 'f']);
        } else {
            assert(tail[0] != '.' || tail[1] != 'p' || tail[2] != 'd' || tail[3] != 'f');
        }
    }
    ok
}

/// Relies on `chrono::Utc::now`, `DateTime::naive_utc` and the `Display` of
/// `NaiveDateTime`: the current UTC time as text. Nothing is promised of its value.
#[verifier::external_body]
fn now_timestamp() -> (r: String) {
    chrono::Utc::now().naive_utc().to_string()
}

/// The ingestion of one uploaded document: validation, upload, insert,
/// compensation of a failed insert, and removal of the temporary file on
/// every path.
pub struct IngestionSaga {
    phase: IngestionPhase,
    request: Option<CreatePayrollDto>,
    object_key: String,
    filename: String,
    file_size: i64,
    uploaded_at: String,
    max_size: u64,
    row: Option<CreatePayrollDb>,
    insert_error: Option<AppError>,
    outcome: Option<Result<RetrievePayrollDto, AppError>>,
    effects: Ghost<Effects>,
    history: Ghost<History>,
}

impl IngestionSaga {
    pub closed spec fn phase_spec(&self) -> IngestionPhase {
        self.phase
    }

    pub closed spec fn effects(&self) -> Effects {
        self.effects@
    }

    pub closed spec fn history(&self) -> History {
        self.history@
    }

    pub closed spec fn outcome_spec(&self) -> Option<Result<RetrievePayrollDto, AppError>> {
        self.outcome
    }

    pub closed spec fn row_spec(&self) -> Option<CreatePayrollDb> {
        self.row
    }

    pub closed spec fn object_key_spec(&self) -> Seq<char> {
        self.object_key@
    }

    pub closed spec fn insert_error_spec(&self) -> Option<AppError> {
        self.insert_error
    }

    /// The request, until the row is built from it.
    pub closed spec fn request_spec(&self) -> Option<CreatePayrollDto> {
        self.request
    }

    pub closed spec fn object_key_string(&self) -> String {
        self.object_key
    }

    /// The name the file was uploaded with.
    pub closed spec fn filename_spec(&self) -> String {
        self.filename
    }

    /// The number of bytes that were received.
    pub closed spec fn file_size_spec(&self) -> i64 {
        self.file_size
    }

    pub closed spec fn max_size_spec(&self) -> u64 {
        self.max_size
    }

    pub closed spec fn uploaded_at_spec(&self) -> String {
        self.uploaded_at
    }

    /// The saga's invariant: what each phase knows of the two systems and the disk.
    pub closed spec fn wf(&self) -> bool {
        let e = self.effects@;
        let h = self.history@;
        &&& (self.row matches Some(row) ==> row.object_key@ == self.object_key@
            && row.content_type@ == PDF_CONTENT_TYPE@)
        &&& (h.compensation_failed ==> h.insert_failed)
        &&& (h.insert_failed ==> self.outcome is None || self.outcome->0 is Err)
        &&& (h.compensation_failed ==> self.outcome matches Some(Err(_)))
        &&& (h.cleanup_failed ==> self.outcome matches Some(Err(_)))
        &&& (self.outcome matches Some(Ok(_)) ==> e.row_committed && e.blob_stored && self.row is Some)
        &&& (e.row_committed ==> e.blob_stored && self.row is Some)
        &&& (e.row_committed && !h.cleanup_failed ==> self.outcome matches Some(Ok(_)))
        &&& match self.phase {
            IngestionPhase::CheckingPdf => {
                &&& self.request is Some && self.row is None && self.outcome is None
                &&& !e.blob_stored && e.temp_file_exists && !h.insert_failed && !h.cleanup_failed
            },
            IngestionPhase::Uploading => {
                &&& self.row is Some && self.outcome is None
                &&& !e.blob_stored && e.temp_file_exists && !h.insert_failed && !h.cleanup_failed
            },
            IngestionPhase::Inserting => {
                &&& self.row is Some && self.outcome is None
                &&& e.blob_stored && e.temp_file_exists && !h.insert_failed && !h.cleanup_failed
            },
            IngestionPhase::Compensating => {
                &&& self.row is Some && self.outcome is None && self.insert_error is Some
                &&& e.blob_stored && e.temp_file_exists && h.insert_failed && !h.compensation_failed
                &&& !h.cleanup_failed
            },
            IngestionPhase::Cleaning => {
                &&& self.outcome is Some && e.temp_file_exists && !h.cleanup_failed
                &&& (h.insert_failed ==> !e.blob_stored || h.compensation_failed)
            },
            IngestionPhase::Finished => {
                &&& self.outcome is Some
                &&& (e.temp_file_exists ==> h.cleanup_failed)
                &&& (h.insert_failed ==> !e.blob_stored || h.compensation_failed)
            },
        }
    }

    /// The row that a good PDF check builds, field by field from the request
    /// and the upload.
    pub open spec fn built_row(old: IngestionSaga, row: CreatePayrollDb) -> bool {
        let req = old.request_spec()->0;
        &&& row.date == req.date
        &&& row.user_id == req.user_id
        &&& row.object_key == old.object_key_string()
        &&& row.filename == old.filename_spec()
        &&& row.content_type@ == PDF_CONTENT_TYPE@
        &&& row.file_size == old.file_size_spec()
        &&& row.uploaded_at == old.uploaded_at_spec()
    }

    /// The first check that the row of this saga fails, if any.
    pub open spec fn pending_row_failure(old: IngestionSaga) -> Option<Failure> {
        let req = old.request_spec()->0;
        row_failure(
            req.date@,
            old.object_key_spec(),
            old.filename_spec()@,
            PDF_CONTENT_TYPE@,
            old.file_size_spec(),
            old.max_size_spec(),
        )
    }

    /// What a step does with an event that answers the pending action: the next
    /// phase, the outcome, and what the event reports of the two systems and
    /// the disk.
    pub open spec fn transition(old: IngestionSaga, new: IngestionSaga, event: IngestionEvent) -> bool {
        let e = old.effects();
        let h = old.history();
        match event {
            IngestionEvent::PdfChecked(Err(err)) => {
                &&& new.phase_spec() == IngestionPhase::Cleaning
                &&& new.outcome_spec() == Some(Err::<RetrievePayrollDto, AppError>(err))
                &&& new.effects() == e && new.history() == h
            },
            IngestionEvent::PdfChecked(Ok(_)) => {
                &&& new.effects() == e && new.history() == h
                &&& match Self::pending_row_failure(old) {
                    None => new.phase_spec() == IngestionPhase::Uploading && (new.row_spec() matches Some(row)
                        && Self::built_row(old, row)),
                    Some(f) => new.phase_spec() == IngestionPhase::Cleaning && new.row_spec() is None && (
                    new.outcome_spec() matches Some(r) && fails_as(r, f)),
                }
            },
            IngestionEvent::Uploaded(Ok(_)) => {
                &&& new.phase_spec() == IngestionPhase::Inserting
                &&& new.row_spec() == old.row_spec()
                &&& new.effects() == (Effects { blob_stored: true, ..e }) && new.history() == h
            },
            IngestionEvent::Uploaded(Err(err)) => {
                &&& new.phase_spec() == IngestionPhase::Cleaning
                &&& new.outcome_spec() == Some(Err::<RetrievePayrollDto, AppError>(err))
                &&& new.effects() == e && new.history() == h
            },
            IngestionEvent::Inserted(Ok(db)) => {
                &&& new.phase_spec() == IngestionPhase::Cleaning
                &&& new.outcome_spec() == Some(Ok::<RetrievePayrollDto, AppError>(RetrievePayrollDto {
                    id: db.id,
                    date: db.date,
                    user_id: db.user_id,
                    filename: db.filename,
                    file_size: db.file_size,
                }))
                &&& new.effects() == (Effects { row_committed: true, ..e }) && new.history() == h
            },
            IngestionEvent::Inserted(Err(err)) => {
                &&& new.phase_spec() == IngestionPhase::Compensating
                &&& new.insert_error_spec() == Some(err)
                &&& new.effects() == e && new.history() == (History { insert_failed: true, ..h })
            },
            IngestionEvent::BlobDeleted(Ok(_)) => {
                &&& new.phase_spec() == IngestionPhase::Cleaning
                &&& new.outcome_spec() == Some(Err::<RetrievePayrollDto, AppError>(old.insert_error_spec()->0))
                &&& new.effects() == (Effects { blob_stored: false, ..e }) && new.history() == h
            },
            IngestionEvent::BlobDeleted(Err(c)) => {
                &&& new.phase_spec() == IngestionPhase::Cleaning
                &&& (new.outcome_spec() matches Some(r) && fails_as(
                    r,
                    (
                        AppErrorType::InternalServerError,
                        COMPENSATION_FAILURE_MESSAGE@,
                        Some(seq![old.insert_error_spec()->0.spec_message(), c.spec_message()]),
                    ),
                ))
                &&& new.effects() == e && new.history() == (History { compensation_failed: true, ..h })
            },
            IngestionEvent::TempFileRemoved(Ok(_)) => {
                &&& new.phase_spec() == IngestionPhase::Finished
                &&& new.outcome_spec() == old.outcome_spec()
                &&& new.effects() == (Effects { temp_file_exists: false, ..e }) && new.history() == h
            },
            IngestionEvent::TempFileRemoved(Err(r)) => {
                &&& new.phase_spec() == IngestionPhase::Finished
                &&& new.outcome_spec() == Some(Err::<RetrievePayrollDto, AppError>(r))
                &&& new.effects() == e && new.history() == (History { cleanup_failed: true, ..h })
            },
        }
    }

    /// Starts an ingestion; the upload time is taken now.
    pub fn start(
        request: CreatePayrollDto,
        object_key: String,
        original_file_name: String,
        file_size: i64,
        max_size: u64,
    ) -> (r: (IngestionSaga, IngestionAction))
        ensures
            r.0.wf(),
            r.1 == action_of(r.0.phase_spec()),
            r.0.object_key_spec() == object_key@,
            pdf_name(original_file_name@) ==> r.0.phase_spec() == IngestionPhase::CheckingPdf,
            !pdf_name(original_file_name@) ==> r.0.phase_spec() == IngestionPhase::Cleaning
                && (r.0.outcome_spec() matches Some(Err(e)) && e.spec_kind() == AppErrorType::BadRequest),
    {
        let uploaded_at = now_timestamp();
        Self::start_at(request, object_key, original_file_name, file_size, max_size, uploaded_at)
    }

    /// Starts an ingestion of the temporary file that was saved for the upload.
    /// A name that does not end in `.pdf` is refused before anything else.
    pub fn start_at(
        request: CreatePayrollDto,
        object_key: String,
        original_file_name: String,
        file_size: i64,
        max_size: u64,
        uploaded_at: String,
    ) -> (r: (IngestionSaga, IngestionAction))
        ensures
            r.0.wf(),
            r.1 == action_of(r.0.phase_spec()),
            r.0.object_key_spec() == object_key@,
            r.0.effects() == (Effects { blob_stored: false, temp_file_exists: true, row_committed: false }),
            r.0.history() == (History { insert_failed: false, compensation_failed: false, cleanup_failed: false }),
            r.0.request_spec() == Some(request),
            r.0.object_key_string() == object_key,
            r.0.filename_spec() == original_file_name,
            r.0.file_size_spec() == file_size,
            r.0.max_size_spec() == max_size,
            r.0.uploaded_at_spec() == uploaded_at,
            pdf_name(original_file_name@) ==> r.0.phase_spec() == IngestionPhase::CheckingPdf,
            !pdf_name(original_file_name@) ==> r.0.phase_spec() == IngestionPhase::Cleaning
                && (r.0.outcome_spec() matches Some(Err(e)) && e.spec_kind() == AppErrorType::BadRequest),
    {
        let pdf = has_pdf_extension(original_file_name.as_str());
        let outcome = if pdf {
            None
        } else {
            Some(Err(AppError::new(
                String::from_str("Invalid file type: $1"),
                AppErrorType::BadRequest,
                Some(vec![original_file_name.clone()]),
            )))
        };
        let saga = IngestionSaga {
            phase: if pdf { IngestionPhase::CheckingPdf } else { IngestionPhase::Cleaning },
            request: Some(request),
            object_key,
            filename: original_file_name,
            file_size,
            uploaded_at,
            max_size,
            row: None,
            insert_error: None,
            outcome,
            effects: Ghost(Effects { blob_stored: false, temp_file_exists: true, row_committed: false }),
            history: Ghost(History { insert_failed: false, compensation_failed: false, cleanup_failed: false }),
        };
        let action = saga.pending();
        (saga, action)
    }

    /// The action that the saga waits on.
    pub fn pending(&self) -> (r: IngestionAction)
        ensures
            r == action_of(self.phase_spec()),
    {
        match self.phase {
            IngestionPhase::CheckingPdf => IngestionAction::CheckPdf,
            IngestionPhase::Uploading => IngestionAction::Upload,
            IngestionPhase::Inserting => IngestionAction::InsertRow,
            IngestionPhase::Compensating => IngestionAction::DeleteBlob,
            IngestionPhase::Cleaning => IngestionAction::RemoveTempFile,
            IngestionPhase::Finished => IngestionAction::Finish,
        }
    }

    pub fn phase(&self) -> (r: IngestionPhase)
        ensures
            r == self.phase_spec(),
    {
        self.phase
    }

    /// The key under which the blob is stored.
    pub fn object_key(&self) -> (r: &str)
        ensures
            r@ == self.object_key_spec(),
    {
        self.object_key.as_str()
    }

    /// The validated row, once the checks have passed.
    pub fn row(&self) -> (r: Option<&CreatePayrollDb>)
        ensures
            r matches Some(row) ==> self.row_spec() == Some(*row),
            r is None ==> self.row_spec() is None,
    {
        self.row.as_ref()
    }

    /// The outcome, once the saga has finished.
    pub fn into_outcome(self) -> (r: Option<Result<RetrievePayrollDto, AppError>>)
        ensures
            r == self.outcome_spec(),
    {
        self.outcome
    }

    /// Takes the outcome of the pending action and returns the next action. An
    /// event that does not answer the pending action changes nothing.
    pub fn step(&mut self, event: IngestionEvent) -> (action: IngestionAction)
        requires
            old(self).wf(),
        ensures
            final(self).wf(),
            action == action_of(final(self).phase_spec()),
            !answers(old(self).phase_spec(), event) ==> *final(self) == *old(self),
            answers(old(self).phase_spec(), event) ==> Self::transition(*old(self), *final(self), event)
                && steps_left(final(self).phase_spec()) < steps_left(old(self).phase_spec()),
            !(event is PdfChecked) ==> final(self).row_spec() == old(self).row_spec(),
            final(self).object_key_string() == old(self).object_key_string(),
            final(self).filename_spec() == old(self).filename_spec(),
            final(self).file_size_spec() == old(self).file_size_spec(),
            final(self).uploaded_at_spec() == old(self).uploaded_at_spec(),
    {
        match (self.phase, event) {
            (IngestionPhase::CheckingPdf, IngestionEvent::PdfChecked(Ok(()))) => {
                let request = self.request.take();
                match request {
                    Some(request) => {
                        match CreatePayrollDb::from_create_payroll_dto(
                            request,
                            self.object_key.clone(),
                            self.filename.clone(),
                            String::from_str(PDF_CONTENT_TYPE),
                            self.file_size,
                            self.uploaded_at.clone(),
                            self.max_size,
                        ) {
                            Ok(row) => {
                                self.row = Some(row);
                                self.phase = IngestionPhase::Uploading;
                            },
                            Err(e) => {
                                self.outcome = Some(Err(e));
                                self.phase = IngestionPhase::Cleaning;
                            },
                        }
                    },
                    None => {},
                }
            },
            (IngestionPhase::CheckingPdf, IngestionEvent::PdfChecked(Err(e))) => {
                self.outcome = Some(Err(e));
                self.phase = IngestionPhase::Cleaning;
            },
            (IngestionPhase::Uploading, IngestionEvent::Uploaded(Ok(()))) => {
                self.effects = Ghost(Effects { blob_stored: true, ..self.effects@ });
                self.phase = IngestionPhase::Inserting;
            },
            (IngestionPhase::Uploading, IngestionEvent::Uploaded(Err(e))) => {
                self.outcome = Some(Err(e));
                self.phase = IngestionPhase::Cleaning;
            },
            (IngestionPhase::Inserting, IngestionEvent::Inserted(Ok(db))) => {
                self.effects = Ghost(Effects { row_committed: true, ..self.effects@ });
                self.outcome = Some(Ok(db.to_retrieve_payroll_dto()));
                self.phase = IngestionPhase::Cleaning;
            },
            (IngestionPhase::Inserting, IngestionEvent::Inserted(Err(e))) => {
                self.history = Ghost(History { insert_failed: true, ..self.history@ });
                self.insert_error = Some(e);
                self.phase = IngestionPhase::Compensating;
            },
            (IngestionPhase::Compensating, IngestionEvent::BlobDeleted(Ok(()))) => {
                self.effects = Ghost(Effects { blob_stored: false, ..self.effects@ });
                let e = self.insert_error.take();
                match e {
                    Some(e) => {
                        self.outcome = Some(Err(e));
                    },
                    None => {},
                }
                self.phase = IngestionPhase::Cleaning;
            },
            (IngestionPhase::Compensating, IngestionEvent::BlobDeleted(Err(c))) => {
                self.history = Ghost(History { compensation_failed: true, ..self.history@ });
                let insert_message = match &self.insert_error {
                    Some(e) => String::from_str(e.message()),
                    None => String::new(),
                };
                let parameters = vec![insert_message, String::from_str(c.message())];
                assert(parameters@.map_values(|s: String| s@) =~= seq![
                    old(self).insert_error_spec()->0.spec_message(),
                    c.spec_message(),
                ]);
                self.outcome = Some(
                    Err(
                        AppError::new(
                            String::from_str(COMPENSATION_FAILURE_MESSAGE),
                            AppErrorType::InternalServerError,
                            Some(parameters),
                        ),
                    ),
                );
                self.phase = IngestionPhase::Cleaning;
            },
            (IngestionPhase::Cleaning, IngestionEvent::TempFileRemoved(Ok(()))) => {
                self.effects = Ghost(Effects { temp_file_exists: false, ..self.effects@ });
                self.phase = IngestionPhase::Finished;
            },
            (IngestionPhase::Cleaning, IngestionEvent::TempFileRemoved(Err(r))) => {
                self.history = Ghost(History { cleanup_failed: true, ..self.history@ });
                self.outcome = Some(Err(r));
                self.phase = IngestionPhase::Finished;
            },
            _ => {},
        }
        self.pending()
    }
}

/// Once the saga has finished, the local temporary file is gone, unless its
/// removal was the step that failed, and then the saga reports that failure.
pub proof fn lemma_finished_saga_leaves_no_temp_file(s: IngestionSaga)
    requires
        s.wf(),
        s.phase_spec() == IngestionPhase::Finished,
    ensures
        !s.effects().temp_file_exists || (s.history().cleanup_failed && s.outcome_spec() matches Some(
            Err(_),
        )),
{
}

/// When the insert failed, the uploaded blob is no longer stored once the saga
/// has finished, unless the compensating delete failed, and then the saga
/// reports that failure. A failed insert never ends in success.
pub proof fn lemma_failed_insert_leaves_no_blob(s: IngestionSaga)
    requires
        s.wf(),
        s.phase_spec() == IngestionPhase::Finished,
        s.history().insert_failed,
    ensures
        !s.effects().blob_stored || (s.history().compensation_failed && s.outcome_spec() matches Some(
            Err(_),
        )),
        s.outcome_spec() matches Some(Err(_)),
{
}

/// A saga that finished with success left a committed row whose key is the
/// saga's object key and whose blob is stored: no committed row references a
/// missing blob.
pub proof fn lemma_success_commits_row_and_blob(s: IngestionSaga)
    requires
        s.wf(),
        s.outcome_spec() matches Some(Ok(_)),
    ensures
        s.effects().row_committed,
        s.effects().blob_stored,
        (s.row_spec() matches Some(row) && row.object_key@ == s.object_key_spec()
            && row.content_type@ == PDF_CONTENT_TYPE@),
{
}

} // verus!
