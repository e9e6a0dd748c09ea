use payroll_manager::company::{Company, CompanyFilterDb, CompanyFilterDto, CreateCompanyDb, CreateCompanyDto, RetrieveCompanyDb};
use payroll_manager::error::AppErrorType;
use payroll_manager::payroll::{
    CreatePayrollDb, CreatePayrollDto, Payroll, PayrollFilterDb, PayrollFilterDto, RetrievePayrollDb,
};
use payroll_manager::permission::Role;
use payroll_manager::user::{CreateUserDb, CreateUserDto, RetrieveAuthUserDb, RetrieveUserDb, User};

fn kind_of<T>(r: Result<T, payroll_manager::error::AppError>) -> AppErrorType {
    match r {
        Err(e) => e.kind(),
        Ok(_) => panic!("expected an error"),
    }
}

#[test]
fn company_name_length_bounds() {
    assert!(Company::check_name("Acme").is_ok());
    assert!(Company::check_name(&"a".repeat(50)).is_ok());
    assert_eq!(kind_of(Company::check_name("")), AppErrorType::BadRequest);
    assert_eq!(kind_of(Company::check_name(&"a".repeat(51))), AppErrorType::BadRequest);
    // 26 two-byte characters are 52 bytes.
    assert!(Company::check_name(&"é".repeat(26)).is_err());
    let c = Company::new(3, String::from("Acme"));
    assert_eq!(c.id, 3);
}

#[test]
fn company_conversions_keep_fields() {
    let created = CreateCompanyDb::from_create_company_dto(CreateCompanyDto { name: String::from("Acme") }).unwrap();
    assert_eq!(created.name, "Acme");
    assert!(CreateCompanyDb::from_create_company_dto(CreateCompanyDto { name: String::new() }).is_err());
    let dto = RetrieveCompanyDb { id: 4, name: String::from("Beta") }.to_retrieve_company_dto().unwrap();
    assert_eq!((dto.id, dto.name.as_str()), (4, "Beta"));
}

#[test]
fn company_paging_bounds() {
    assert!(CompanyFilterDb::check_limit(1).is_ok());
    assert!(CompanyFilterDb::check_limit(25).is_ok());
    assert!(CompanyFilterDb::check_limit(0).is_err());
    assert!(CompanyFilterDb::check_limit(26).is_err());
    assert!(CompanyFilterDb::check_offset(0).is_ok());
    assert_eq!(kind_of(CompanyFilterDb::check_offset(-1)), AppErrorType::BadRequest);
    let f = CompanyFilterDb::from_company_filter_dto(CompanyFilterDto { limit: 10, offset: 20 }).unwrap();
    assert_eq!((f.limit, f.offset), (10, 20));
    assert!(CompanyFilterDb::from_company_filter_dto(CompanyFilterDto { limit: 10, offset: -5 }).is_err());
    let both = CompanyFilterDb::from_company_filter_dto(CompanyFilterDto { limit: 0, offset: -5 }).unwrap_err();
    assert_eq!(both.message(), payroll_manager::company::LIMIT_MESSAGE);
    let offset = CompanyFilterDb::from_company_filter_dto(CompanyFilterDto { limit: 5, offset: -5 }).unwrap_err();
    assert_eq!(offset.message(), payroll_manager::company::OFFSET_MESSAGE);
}

#[test]
fn usernames() {
    assert!(User::check_username("john.doe").is_ok());
    assert!(User::check_username("john_doe2").is_ok());
    assert_eq!(kind_of(User::check_username("john..doe")), AppErrorType::BadRequest);
    assert_eq!(kind_of(User::check_username(".john")), AppErrorType::BadRequest);
    assert_eq!(kind_of(User::check_username("")), AppErrorType::BadRequest);
    assert!(User::check_username(&"a".repeat(51)).is_err());
    match User::check_username("bad name") {
        Err(e) => assert_eq!(e.public_view().unwrap().1, vec![String::from("bad name")]),
        Ok(_) => panic!("a space is refused"),
    }
}

#[test]
fn emails() {
    assert!(User::check_email(&None).is_ok());
    assert!(User::check_email(&Some(String::from("jane.doe@example.com"))).is_ok());
    assert!(User::check_email(&Some(String::from("jane@mail.co.uk"))).is_ok());
    assert_eq!(kind_of(User::check_email(&Some(String::from("Jane@example.com")))), AppErrorType::BadRequest);
    assert!(User::check_email(&Some(String::from("jane@example"))).is_err());
    assert!(User::check_email(&Some(String::from("jane@mail.example.co"))).is_err());
}

#[test]
fn names_and_passwords() {
    assert!(User::check_name("Jane").is_ok());
    assert!(User::check_name("").is_err());
    assert!(User::check_name(&"n".repeat(51)).is_err());
    assert!(User::check_raw_password("12345678").is_ok());
    assert_eq!(kind_of(User::check_raw_password("1234567")), AppErrorType::BadRequest);
}

#[test]
fn user_conversions_keep_fields() {
    let dto = CreateUserDto {
        username: String::from("jane"),
        email: None,
        name: String::from("Jane"),
        password: String::from("hash"),
        company_id: 2,
        role: Role::User,
    };
    let row = CreateUserDb::from_create_user_dto(dto).unwrap();
    assert_eq!((row.username.as_str(), row.company_id, row.password.as_str()), ("jane", 2, "hash"));
    let bad = CreateUserDto {
        username: String::from("jane"),
        email: None,
        name: String::new(),
        password: String::from("hash"),
        company_id: 2,
        role: Role::User,
    };
    let e = CreateUserDb::from_create_user_dto(bad).unwrap_err();
    assert_eq!((e.kind(), e.message()), (AppErrorType::BadRequest, payroll_manager::user::NAME_LENGTH_MESSAGE));
    assert_eq!(e.public_view().unwrap().1, Vec::<String>::new());
    let read = RetrieveUserDb {
        id: 1,
        username: String::from("jane"),
        email: Some(String::from("jane@example.com")),
        name: String::from("Jane"),
        company_id: 2,
    }
    .to_retrieve_user_dto()
    .unwrap();
    assert_eq!((read.id, read.company_id, read.email.as_deref()), (1, 2, Some("jane@example.com")));
    let auth = RetrieveAuthUserDb {
        id: 1,
        username: String::from("jane"),
        email: None,
        name: String::from("Jane"),
        password: String::from("h"),
        company_id: 2,
    }
    .to_retrieve_auth_user_dto()
    .unwrap();
    assert_eq!(auth.password, "h");
    let u = User::new(1, String::from("jane"), None, String::from("Jane"), String::from("h"), 2, Role::Admin);
    assert_eq!(u.role, Role::Admin);
}

#[test]
fn payroll_periods() {
    assert!(Payroll::check_date("2024-01").is_ok());
    assert_eq!(kind_of(Payroll::check_date("2024-1")), AppErrorType::BadRequest);
    assert!(Payroll::check_date("2024-01-01").is_err());
    assert!(Payroll::check_date("").is_err());
    assert!(Payroll::date_verdict("x", Some(true)).is_ok());
    assert_eq!(kind_of(Payroll::date_verdict("x", Some(false))), AppErrorType::BadRequest);
    assert_eq!(kind_of(Payroll::date_verdict("x", None)), AppErrorType::InternalServerError);
}

#[test]
fn payroll_columns() {
    assert!(Payroll::check_object_key(&"k".repeat(255)).is_ok());
    assert!(Payroll::check_object_key(&"k".repeat(256)).is_err());
    assert!(Payroll::check_object_key("").is_err());
    assert!(Payroll::check_filename("a.pdf").is_ok());
    assert!(Payroll::check_filename("").is_err());
    assert!(Payroll::check_content_type("application/pdf").is_ok());
    assert_eq!(kind_of(Payroll::check_content_type("image/png")), AppErrorType::BadRequest);
    assert!(Payroll::check_file_size(10, 10).is_ok());
    assert!(Payroll::check_file_size(0, 10).is_err());
    assert!(Payroll::check_file_size(-3, 10).is_err());
    assert!(Payroll::check_file_size(11, 10).is_err());
    assert!(Payroll::check_uploaded_at("anything").is_ok());
}

#[test]
fn payroll_row_from_request() {
    let dto = CreatePayrollDto { date: String::from("2024-03"), user_id: 6 };
    let row = CreatePayrollDb::from_create_payroll_dto(
        dto,
        String::from("key-1"),
        String::from("march.pdf"),
        String::from("application/pdf"),
        1000,
        String::from("2024-03-31 10:00:00"),
        5000,
    )
    .unwrap();
    assert_eq!((row.user_id, row.file_size, row.object_key.as_str()), (6, 1000, "key-1"));
    let too_big = CreatePayrollDb::from_create_payroll_dto(
        CreatePayrollDto { date: String::from("2024-03"), user_id: 6 },
        String::from("key-1"),
        String::from("march.pdf"),
        String::from("application/pdf"),
        6000,
        String::new(),
        5000,
    );
    assert_eq!(kind_of(too_big), AppErrorType::BadRequest);
    let bad_date_and_key = CreatePayrollDb::from_create_payroll_dto(
        CreatePayrollDto { date: String::from("2024/03"), user_id: 6 },
        String::new(),
        String::from("march.pdf"),
        String::from("application/pdf"),
        10,
        String::new(),
        5000,
    )
    .unwrap_err();
    assert_eq!(bad_date_and_key.message(), payroll_manager::payroll::DATE_FORMAT_MESSAGE);
    assert_eq!(bad_date_and_key.public_view().unwrap().1, vec![String::from("2024/03")]);
    let dto = RetrievePayrollDb { id: 1, date: String::from("2024-03"), user_id: 6, filename: String::from("m.pdf"), file_size: 9 }
        .to_retrieve_payroll_dto();
    assert_eq!((dto.id, dto.file_size), (1, 9));
}

#[test]
fn payroll_filters() {
    let f = PayrollFilterDb::from_payroll_filter_dto(PayrollFilterDto { user_id: Some(3), date: None }).unwrap();
    assert_eq!(f.user_id, Some(3));
    assert!(PayrollFilterDb::from_payroll_filter_dto(PayrollFilterDto { user_id: None, date: Some(String::from("2024-02")) }).is_ok());
    assert!(PayrollFilterDb::from_payroll_filter_dto(PayrollFilterDto { user_id: None, date: Some(String::from("Feb")) }).is_err());
}
