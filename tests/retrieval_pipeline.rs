use payroll_manager::error::{AppError, AppErrorType};
use payroll_manager::ingestion::{IngestionEvent, IngestionSaga};
use payroll_manager::payroll::{CreatePayrollDto, RetrievePayrollDb, RetrievePayrollDownloadDataDb};
use payroll_manager::retrieval::{check_stream_size, Retrieval, RetrievalAction, RetrievalEvent, RetrievalPhase};

fn meta(size: i64) -> RetrievePayrollDownloadDataDb {
    RetrievePayrollDownloadDataDb {
        object_key: String::from("key-9"),
        filename: String::from("june.pdf"),
        content_type: String::from("application/pdf"),
        file_size: size,
    }
}

#[test]
fn size_mismatch_aborts_before_any_byte() {
    let (mut r, first) = Retrieval::new(9);
    assert_eq!(first, RetrievalAction::CheckPermission);
    assert_eq!(r.step(RetrievalEvent::Authorized(Ok(true))), RetrievalAction::FetchMetadata);
    assert_eq!(r.step(RetrievalEvent::MetadataFetched(Ok(meta(1000)))), RetrievalAction::OpenStream);
    assert_eq!(r.object_key(), "key-9");
    assert_eq!(r.step(RetrievalEvent::StreamOpened(Ok(900))), RetrievalAction::Abort);
    assert!(r.info().is_none());
    assert_eq!(r.error().unwrap().kind(), AppErrorType::InternalServerError);
    assert_eq!(r.phase(), RetrievalPhase::Failed);
}

#[test]
fn matching_size_relays_the_row() {
    let (mut r, _) = Retrieval::new(9);
    r.step(RetrievalEvent::Authorized(Ok(true)));
    r.step(RetrievalEvent::MetadataFetched(Ok(meta(1000))));
    assert_eq!(r.step(RetrievalEvent::StreamOpened(Ok(1000))), RetrievalAction::Relay);
    let info = r.info().unwrap();
    assert_eq!((info.filename.as_str(), info.content_type.as_str(), info.file_size), ("june.pdf", "application/pdf", 1000));
    assert_eq!(r.payroll_id(), 9);
}

#[test]
fn denial_short_circuits_before_io() {
    let (mut r, _) = Retrieval::new(9);
    assert_eq!(r.step(RetrievalEvent::Authorized(Ok(false))), RetrievalAction::Abort);
    assert_eq!(r.error().unwrap().kind(), AppErrorType::Forbidden);
    assert_eq!(r.step(RetrievalEvent::MetadataFetched(Ok(meta(1)))), RetrievalAction::Abort);
}

#[test]
fn lookup_failures_abort() {
    let (mut r, _) = Retrieval::new(9);
    r.step(RetrievalEvent::Authorized(Ok(true)));
    let e = AppError::new(String::from("no row"), AppErrorType::InternalServerError, None);
    assert_eq!(r.step(RetrievalEvent::MetadataFetched(Err(e))), RetrievalAction::Abort);
    let (mut s, _) = Retrieval::new(9);
    s.step(RetrievalEvent::Authorized(Ok(true)));
    s.step(RetrievalEvent::MetadataFetched(Ok(meta(5))));
    let e = AppError::new(String::from("unknown size"), AppErrorType::InternalServerError, None);
    assert_eq!(s.step(RetrievalEvent::StreamOpened(Err(e))), RetrievalAction::Abort);
}

#[test]
fn stream_size_check() {
    assert_eq!(check_stream_size(meta(1000), 900).unwrap_err().kind(), AppErrorType::InternalServerError);
    assert_eq!(check_stream_size(meta(1000), 1000).unwrap().file_size, 1000);
}

#[test]
fn ingested_document_reads_back_identically() {
    let (mut saga, _) = IngestionSaga::start_at(
        CreatePayrollDto { date: String::from("2024-06"), user_id: 4 },
        String::from("key-9"),
        String::from("june.pdf"),
        1000,
        5000,
        String::from("now"),
    );
    saga.step(IngestionEvent::PdfChecked(Ok(())));
    let row = saga.row().unwrap();
    let stored = RetrievePayrollDownloadDataDb {
        object_key: row.object_key.clone(),
        filename: row.filename.clone(),
        content_type: row.content_type.clone(),
        file_size: row.file_size,
    };
    saga.step(IngestionEvent::Uploaded(Ok(())));
    saga.step(IngestionEvent::Inserted(Ok(RetrievePayrollDb {
        id: 1,
        date: String::from("2024-06"),
        user_id: 4,
        filename: String::from("june.pdf"),
        file_size: 1000,
    })));
    saga.step(IngestionEvent::TempFileRemoved(Ok(())));
    assert!(saga.into_outcome().unwrap().is_ok());
    let (mut r, _) = Retrieval::new(1);
    r.step(RetrievalEvent::Authorized(Ok(true)));
    r.step(RetrievalEvent::MetadataFetched(Ok(stored)));
    assert_eq!(r.step(RetrievalEvent::StreamOpened(Ok(1000))), RetrievalAction::Relay);
    let info = r.info().unwrap();
    assert_eq!((info.filename.as_str(), info.content_type.as_str(), info.file_size), ("june.pdf", "application/pdf", 1000));
}
