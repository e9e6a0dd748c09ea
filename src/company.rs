use vstd::prelude::*;

use crate::error::{fails_as, AppError, AppErrorType, Failure};
use crate::text::byte_len;

verus! {

/// A tenant.
#[derive(Debug)]
pub struct Company {
    pub id: i64,
    pub name: String,
}

/// A company row as read from the database.
#[derive(Debug)]
pub struct RetrieveCompanyDb {
    pub id: i64,
    pub name: String,
}

/// The columns written when a company is created.
#[derive(Debug)]
pub struct CreateCompanyDb {
    pub name: String,
}

/// A company as returned to callers.
#[derive(Debug)]
pub struct RetrieveCompanyDto {
    pub id: i64,
    pub name: String,
}

/// A request to create a company.
#[derive(Debug)]
pub struct CreateCompanyDto {
    pub name: String,
}

pub const COMPANY_NAME_LENGTH_MESSAGE: &'static str = "The company name must be between 1 and 50 characters long";
pub const LIMIT_MESSAGE: &'static str = "Limit must be between 1 and 25";
pub const OFFSET_MESSAGE: &'static str = "Offset must be greater than or equal to 0";

/// The failure of a page request: the limit is checked before the offset.
pub open spec fn paging_failure(limit: i64, offset: i64) -> Option<Failure> {
    if !(1 <= limit <= 25) {
        Some((AppErrorType::BadRequest, LIMIT_MESSAGE@, None))
    } else if offset < 0 {
        Some((AppErrorType::BadRequest, OFFSET_MESSAGE@, None))
    } else {
        None
    }
}

/// A company name is 1 to 50 bytes long.
pub open spec fn company_name_ok(name: Seq<char>) -> bool {
    1 <= byte_len(name) <= 50
}

impl Company {
    pub fn new(id: i64, name: String) -> (r: Company)
        ensures
            r.id == id,
            r.name == name,
    {
        Company { id, name }
    }

    pub fn check_name(name: &str) -> (r: Result<(), AppError>)
        ensures
            r is Ok <==> company_name_ok(name@),
            r is Err ==> fails_as(r, (AppErrorType::BadRequest, COMPANY_NAME_LENGTH_MESSAGE@, None)),
    {
        if name.len() == 0 || name.len() > 50 {
            return Err(
                AppError::new(String::from_str(COMPANY_NAME_LENGTH_MESSAGE), AppErrorType::BadRequest, None),
            );
        }
        Ok(())
    }
}

impl RetrieveCompanyDb {
    pub fn to_retrieve_company_dto(self) -> (r: Result<RetrieveCompanyDto, AppError>)
        ensures
            r matches Ok(d) && d.id == self.id && d.name == self.name,
    {
        Ok(RetrieveCompanyDto { id: self.id, name: self.name })
    }
}

impl CreateCompanyDb {
    pub fn from_create_company_dto(company: CreateCompanyDto) -> (r: Result<CreateCompanyDb, AppError>)
        ensures
            r is Ok <==> company_name_ok(company.name@),
            r matches Ok(c) ==> c.name == company.name,
            r is Err ==> fails_as(r, (AppErrorType::BadRequest, COMPANY_NAME_LENGTH_MESSAGE@, None)),
    {
        Company::check_name(company.name.as_str())?;
        Ok(CreateCompanyDb { name: company.name })
    }
}

/// Paging of the company list.
#[derive(Debug)]
pub struct CompanyFilterDb {
    pub limit: i64,
    pub offset: i64,
}

/// Paging as a caller asks for it, before it is checked.
#[derive(Debug)]
pub struct CompanyFilterDto {
    pub limit: i64,
    pub offset: i64,
}

impl CompanyFilterDb {
    pub fn check_limit(limit: i64) -> (r: Result<(), AppError>)
        ensures
            r is Ok <==> 1 <= limit <= 25,
            r is Err ==> fails_as(r, (AppErrorType::BadRequest, LIMIT_MESSAGE@, None)),
    {
        if limit < 1 || limit > 25 {
            return Err(AppError::new(String::from_str(LIMIT_MESSAGE), AppErrorType::BadRequest, None));
        }
        Ok(())
    }

    pub fn check_offset(offset: i64) -> (r: Result<(), AppError>)
        ensures
            r is Ok <==> offset >= 0,
            r is Err ==> fails_as(r, (AppErrorType::BadRequest, OFFSET_MESSAGE@, None)),
    {
        if offset < 0 {
            return Err(AppError::new(String::from_str(OFFSET_MESSAGE), AppErrorType::BadRequest, None));
        }
        Ok(())
    }

    pub fn from_company_filter_dto(filter: CompanyFilterDto) -> (r: Result<CompanyFilterDb, AppError>)
        ensures
            r is Ok <==> 1 <= filter.limit <= 25 && filter.offset >= 0,
            r matches Ok(f) ==> f.limit == filter.limit && f.offset == filter.offset,
            paging_failure(filter.limit, filter.offset) matches Some(f) ==> fails_as(r, f),
    {
        Self::check_limit(filter.limit)?;
        Self::check_offset(filter.offset)?;
        Ok(CompanyFilterDb { limit: filter.limit, offset: filter.offset })
    }
}

} // verus!
