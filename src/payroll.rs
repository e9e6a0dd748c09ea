use vstd::prelude::*;

use crate::error::{fails_as, AppError, AppErrorType, Failure};
use crate::text::{byte_len, regex_match, regex_outcome, PATTERN_FAILURE_MESSAGE};

verus! {

/// A period written `YYYY-MM`.
pub const DATE_PATTERN: &'static str = r"^\d{4}-\d{2}$";

/// The one media type that payroll documents may have.
pub const PDF_CONTENT_TYPE: &'static str = "application/pdf";

/// A payroll document: the row that references one blob in the object store.
#[derive(Debug)]
pub struct Payroll {
    pub id: i64,
    pub date: String,
    pub user_id: i64,
    pub object_key: String,
    pub filename: String,
    pub content_type: String,
    pub file_size: i64,
    pub uploaded_at: String,
}

/// The columns written when a payroll document is created.
#[derive(Debug)]
pub struct CreatePayrollDb {
    pub date: String,
    pub user_id: i64,
    pub object_key: String,
    pub filename: String,
    pub content_type: String,
    pub file_size: i64,
    pub uploaded_at: String,
}

/// A payroll row as read back from the database.
#[derive(Debug)]
pub struct RetrievePayrollDb {
    pub id: i64,
    pub date: String,
    pub user_id: i64,
    pub filename: String,
    pub file_size: i64,
}

/// What the download of a document needs from its row.
#[derive(Debug)]
pub struct RetrievePayrollDownloadDataDb {
    pub object_key: String,
    pub filename: String,
    pub content_type: String,
    pub file_size: i64,
}

/// A request to file a payroll document for a user and a period.
#[derive(Debug)]
pub struct CreatePayrollDto {
    pub date: String,
    pub user_id: i64,
}

/// A payroll document as returned to callers.
#[derive(Debug)]
pub struct RetrievePayrollDto {
    pub id: i64,
    pub date: String,
    pub user_id: i64,
    pub filename: String,
    pub file_size: i64,
}

pub const DATE_FORMAT_MESSAGE: &'static str = "Invalid date format: $1";
pub const OBJECT_KEY_LENGTH_MESSAGE: &'static str = "The object key must be between 1 and 255 characters long";
pub const FILENAME_LENGTH_MESSAGE: &'static str = "The filename must be between 1 and 255 characters long";
pub const CONTENT_TYPE_MESSAGE: &'static str = "Invalid content type: $1";
pub const FILE_SIZE_MESSAGE: &'static str = "Invalid file size";

pub open spec fn date_ok(date: Seq<char>) -> bool {
    regex_outcome(DATE_PATTERN@, date) == Some(true)
}

/// The failure of a period: a period that does not match is the caller's
/// fault, a pattern that does not compile is ours.
pub open spec fn date_failure(date: Seq<char>) -> Option<Failure> {
    match regex_outcome(DATE_PATTERN@, date) {
        Some(true) => None,
        Some(false) => Some((AppErrorType::BadRequest, DATE_FORMAT_MESSAGE@, Some(seq![date]))),
        None => Some((AppErrorType::InternalServerError, PATTERN_FAILURE_MESSAGE@, None)),
    }
}

/// Object keys and file names are 1 to 255 bytes long.
pub open spec fn key_or_filename_ok(s: Seq<char>) -> bool {
    1 <= byte_len(s) <= 255
}

pub open spec fn file_size_ok(file_size: i64, max_size: u64) -> bool {
    0 < file_size && file_size as u64 <= max_size
}

/// Every column of a new payroll row is accepted.
pub open spec fn new_row_ok(
    date: Seq<char>,
    object_key: Seq<char>,
    filename: Seq<char>,
    content_type: Seq<char>,
    file_size: i64,
    max_size: u64,
) -> bool {
    &&& date_ok(date)
    &&& key_or_filename_ok(object_key)
    &&& key_or_filename_ok(filename)
    &&& content_type == PDF_CONTENT_TYPE@
    &&& file_size_ok(file_size, max_size)
}

/// The failure of the first check that a new row fails, in the order date,
/// key, filename, content type, size; `None` when every check passes.
pub open spec fn row_failure(
    date: Seq<char>,
    object_key: Seq<char>,
    filename: Seq<char>,
    content_type: Seq<char>,
    file_size: i64,
    max_size: u64,
) -> Option<Failure> {
    if date_failure(date) is Some {
        date_failure(date)
    } else if !key_or_filename_ok(object_key) {
        Some((AppErrorType::BadRequest, OBJECT_KEY_LENGTH_MESSAGE@, None))
    } else if !key_or_filename_ok(filename) {
        Some((AppErrorType::BadRequest, FILENAME_LENGTH_MESSAGE@, None))
    } else if content_type != PDF_CONTENT_TYPE@ {
        Some((AppErrorType::BadRequest, CONTENT_TYPE_MESSAGE@, Some(seq![content_type])))
    } else if !file_size_ok(file_size, max_size) {
        Some((AppErrorType::BadRequest, FILE_SIZE_MESSAGE@, None))
    } else {
        None
    }
}

/// The row that a request and its upload give.
pub open spec fn row_of(
    dto: CreatePayrollDto,
    object_key: String,
    filename: String,
    content_type: String,
    file_size: i64,
    uploaded_at: String,
) -> CreatePayrollDb {
    CreatePayrollDb {
        date: dto.date,
        user_id: dto.user_id,
        object_key,
        filename,
        content_type,
        file_size,
        uploaded_at,
    }
}

impl Payroll {
    /// The verdict on a period, given the outcome of matching it against the
    /// date pattern.
    pub fn date_verdict(date: &str, matched: Option<bool>) -> (r: Result<(), AppError>)
        ensures
            r is Ok <==> matched == Some(true),
            matched == Some(false) ==> fails_as(
                r,
                (AppErrorType::BadRequest, DATE_FORMAT_MESSAGE@, Some(seq![date@])),
            ),
            matched is None ==> fails_as(r, (AppErrorType::InternalServerError, PATTERN_FAILURE_MESSAGE@, None)),
    {
        match matched {
            Some(true) => Ok(()),
            Some(false) => {
                let parameters = vec![String::from_str(date)];
                assert(parameters@.map_values(|s: String| s@) =~= seq![date@]);
                Err(AppError::new(String::from_str(DATE_FORMAT_MESSAGE), AppErrorType::BadRequest, Some(parameters)))
            },
            None => Err(
                AppError::new(String::from_str(PATTERN_FAILURE_MESSAGE), AppErrorType::InternalServerError, None),
            ),
        }
    }

    pub fn check_date(date: &str) -> (r: Result<(), AppError>)
        ensures
            r is Ok <==> date_ok(date@),
            date_failure(date@) matches Some(f) ==> fails_as(r, f),
    {
        Self::date_verdict(date, regex_match(DATE_PATTERN, date))
    }

    pub fn check_object_key(object_key: &str) -> (r: Result<(), AppError>)
        ensures
            r is Ok <==> key_or_filename_ok(object_key@),
            r is Err ==> fails_as(r, (AppErrorType::BadRequest, OBJECT_KEY_LENGTH_MESSAGE@, None)),
    {
        if !(object_key.len() > 0 && object_key.len() <= 255) {
            return Err(
                AppError::new(String::from_str(OBJECT_KEY_LENGTH_MESSAGE), AppErrorType::BadRequest, None),
            );
        }
        Ok(())
    }

    pub fn check_filename(filename: &str) -> (r: Result<(), AppError>)
        ensures
            r is Ok <==> key_or_filename_ok(filename@),
            r is Err ==> fails_as(r, (AppErrorType::BadRequest, FILENAME_LENGTH_MESSAGE@, None)),
    {
        if !(filename.len() > 0 && filename.len() <= 255) {
            return Err(
                AppError::new(String::from_str(FILENAME_LENGTH_MESSAGE), AppErrorType::BadRequest, None),
            );
        }
        Ok(())
    }

    pub fn check_content_type(content_type: &str) -> (r: Result<(), AppError>)
        ensures
            r is Ok <==> content_type@ == PDF_CONTENT_TYPE@,
            r is Err ==> fails_as(r, (AppErrorType::BadRequest, CONTENT_TYPE_MESSAGE@, Some(seq![content_type@]))),
    {
        let given = String::from_str(content_type);
        let accepted = String::from_str(PDF_CONTENT_TYPE);
        if given != accepted {
            let parameters = vec![given];
            assert(parameters@.map_values(|s: String| s@) =~= seq![content_type@]);
            return Err(
                AppError::new(String::from_str(CONTENT_TYPE_MESSAGE), AppErrorType::BadRequest, Some(parameters)),
            );
        }
        Ok(())
    }

    /// A size is accepted when it is positive and at most `max_size` bytes.
    pub fn check_file_size(file_size: i64, max_size: u64) -> (r: Result<(), AppError>)
        ensures
            r is Ok <==> file_size_ok(file_size, max_size),
            r is Err ==> fails_as(r, (AppErrorType::BadRequest, FILE_SIZE_MESSAGE@, None)),
    {
        if file_size <= 0 || (file_size as u64) > max_size {
            return Err(AppError::new(String::from_str(FILE_SIZE_MESSAGE), AppErrorType::BadRequest, None));
        }
        Ok(())
    }

    /// Any upload time is accepted.
    pub fn check_uploaded_at(_uploaded_at: &str) -> (r: Result<(), AppError>)
        ensures
            r is Ok,
    {
        Ok(())
    }
}

impl CreatePayrollDb {
    /// Checks every column, in the order date, key, filename, content type,
    /// size, upload time, and keeps them.
    pub fn from_create_payroll_dto(
        dto: CreatePayrollDto,
        object_key: String,
        filename: String,
        content_type: String,
        file_size: i64,
        uploaded_at: String,
        max_size: u64,
    ) -> (r: Result<CreatePayrollDb, AppError>)
        ensures
            r is Ok <==> new_row_ok(dto.date@, object_key@, filename@, content_type@, file_size, max_size),
            r is Ok <==> row_failure(dto.date@, object_key@, filename@, content_type@, file_size, max_size) is None,
            r matches Ok(row) ==> row == row_of(dto, object_key, filename, content_type, file_size, uploaded_at),
            row_failure(dto.date@, object_key@, filename@, content_type@, file_size, max_size) matches Some(f)
                ==> fails_as(r, f),
    {
        Payroll::check_date(dto.date.as_str())?;
        Payroll::check_object_key(object_key.as_str())?;
        Payroll::check_filename(filename.as_str())?;
        Payroll::check_content_type(content_type.as_str())?;
        Payroll::check_file_size(file_size, max_size)?;
        Payroll::check_uploaded_at(uploaded_at.as_str())?;
        Ok(
            CreatePayrollDb {
                date: dto.date,
                user_id: dto.user_id,
                object_key,
                filename,
                content_type,
                file_size,
                uploaded_at,
            },
        )
    }
}

impl RetrievePayrollDb {
    pub fn to_retrieve_payroll_dto(self) -> (r: RetrievePayrollDto)
        ensures
            r == (RetrievePayrollDto {
                id: self.id,
                date: self.date,
                user_id: self.user_id,
                filename: self.filename,
                file_size: self.file_size,
            }),
    {
        RetrievePayrollDto {
            id: self.id,
            date: self.date,
            user_id: self.user_id,
            filename: self.filename,
            file_size: self.file_size,
        }
    }
}

/// A listing filter: by owner, by period, or both.
#[derive(Debug)]
pub struct PayrollFilterDb {
    pub user_id: Option<i64>,
    pub date: Option<String>,
}

/// A listing filter as a caller asks for it, before it is checked.
#[derive(Debug)]
pub struct PayrollFilterDto {
    pub user_id: Option<i64>,
    pub date: Option<String>,
}

impl PayrollFilterDb {
    pub fn from_payroll_filter_dto(filter: PayrollFilterDto) -> (r: Result<PayrollFilterDb, AppError>)
        ensures
            r is Ok <==> (filter.date matches Some(d) ==> date_ok(d@)),
            r matches Ok(f) ==> f.user_id == filter.user_id && f.date == filter.date,
            filter.date matches Some(d) ==> (date_failure(d@) matches Some(f) ==> fails_as(r, f)),
    {
        if let Some(date) = &filter.date {
            Payroll::check_date(date.as_str())?;
        }
        Ok(PayrollFilterDb { user_id: filter.user_id, date: filter.date })
    }
}

} // verus!
