use vstd::prelude::*;
use vstd::string::to_string_from_display_ensures;

verus! {

/// The kinds of failure that the library reports.
#[derive(Debug, Clone, Copy, PartialEq, Eq, Structural)]
pub enum AppErrorType {
    BadRequest,
    Unauthorized,
    Forbidden,
    NotFound,
    Conflict,
    UnsupportedMediaType,
    InternalServerError,
    NotImplemented,
}

/// Whether an error's message and parameters may cross the public boundary.
#[derive(Debug, Clone, Copy, PartialEq, Eq, Structural)]
pub enum AppErrorScope {
    Internal,
    Public,
}

/// The scope of each kind: storage and unimplemented failures stay internal.
pub open spec fn scope_of(kind: AppErrorType) -> AppErrorScope {
    match kind {
        AppErrorType::InternalServerError | AppErrorType::NotImplemented => AppErrorScope::Internal,
        _ => AppErrorScope::Public,
    }
}

/// Whether `r` failed with an error of kind `kind`.
pub open spec fn fails_with<T>(r: Result<T, AppError>, kind: AppErrorType) -> bool {
    r matches Err(e) && e.spec_kind() == kind
}

/// A failure as a caller sees it: kind, message and positional parameters.
pub type Failure = (AppErrorType, Seq<char>, Option<Seq<Seq<char>>>);

/// Whether `r` failed with exactly the failure `f`.
pub open spec fn fails_as<T>(r: Result<T, AppError>, f: Failure) -> bool {
    r matches Err(e) && e.spec_kind() == f.0 && e.spec_message() == f.1 && e.spec_parameters() == f.2
}

/// The HTTP status code of each kind.
pub open spec fn status_of(kind: AppErrorType) -> u16 {
    match kind {
        AppErrorType::BadRequest => 400,
        AppErrorType::Unauthorized => 401,
        AppErrorType::Forbidden => 403,
        AppErrorType::NotFound => 404,
        AppErrorType::Conflict => 409,
        AppErrorType::UnsupportedMediaType => 415,
        AppErrorType::InternalServerError => 500,
        AppErrorType::NotImplemented => 501,
    }
}

/// Maps an error kind to its HTTP status code.
pub fn http_error_code(error_type: AppErrorType) -> (r: u16)
    ensures
        r == status_of(error_type),
{
    match error_type {
        AppErrorType::BadRequest => 400,
        AppErrorType::Unauthorized => 401,
        AppErrorType::Forbidden => 403,
        AppErrorType::NotFound => 404,
        AppErrorType::Conflict => 409,
        AppErrorType::UnsupportedMediaType => 415,
        AppErrorType::InternalServerError => 500,
        AppErrorType::NotImplemented => 501,
    }
}

/// An error with a kind, a message and positional parameters for display.
#[derive(Debug)]
pub struct AppError {
    message: String,
    kind: AppErrorType,
    parameters: Option<Vec<String>>,
}

impl AppError {
    pub closed spec fn spec_kind(&self) -> AppErrorType {
        self.kind
    }

    pub closed spec fn spec_message(&self) -> Seq<char> {
        self.message@
    }

    pub closed spec fn spec_parameters(&self) -> Option<Seq<Seq<char>>> {
        match self.parameters {
            Some(p) => Some(p@.map_values(|s: String| s@)),
            None => None,
        }
    }

    pub fn new(message: String, kind: AppErrorType, parameters: Option<Vec<String>>) -> (r: AppError)
        ensures
            r.spec_kind() == kind,
            r.spec_message() == message@,
            r.spec_parameters() == (match parameters {
                Some(p) => Some(p@.map_values(|s: String| s@)),
                None => None,
            }),
    {
        AppError { message, kind, parameters }
    }

    /// The status code that `adapter` gives for this error's kind.
    pub fn code(&self, adapter: impl Fn(AppErrorType) -> u16) -> (r: u16)
        requires
            call_requires(adapter, (self.spec_kind(),)),
        ensures
            call_ensures(adapter, (self.spec_kind(),), r),
    {
        adapter(self.kind)
    }

    /// An internal error built from any error that can be displayed: its text
    /// becomes the message.
    pub fn internal_from_generic<E: std::fmt::Display>(err: E) -> (r: AppError)
        ensures
            r.spec_kind() == AppErrorType::InternalServerError,
            r.spec_parameters() is None,
            exists|text: String| to_string_from_display_ensures::<E>(&err, text) && r.spec_message() == text@,
    {
        let text = err.to_string();
        let r = AppError::new(text, AppErrorType::InternalServerError, None);
        assert(to_string_from_display_ensures::<E>(&err, text) && r.spec_message() == text@);
        r
    }

    /// What may cross the public boundary: nothing of an internal error, the
    /// message and the parameters (none as empty) of a public one.
    pub fn public_view(&self) -> (r: Option<(String, Vec<String>)>)
        ensures
            scope_of(self.spec_kind()) == AppErrorScope::Internal <==> r is None,
            r matches Some(v) ==> v.0@ == self.spec_message() && v.1@.map_values(|s: String| s@)
                == match self.spec_parameters() {
                Some(p) => p,
                None => Seq::empty(),
            },
    {
        match self.scope() {
            AppErrorScope::Internal => None,
            AppErrorScope::Public => {
                let parameters = match &self.parameters {
                    Some(p) => p.clone(),
                    None => Vec::new(),
                };
                proof {
                    if self.parameters is None {
                        assert(parameters@.map_values(|s: String| s@) =~= Seq::<Seq<char>>::empty());
                    }
                }
                Some((self.message.clone(), parameters))
            },
        }
    }

    pub fn message(&self) -> (r: &str)
        ensures
            r@ == self.spec_message(),
    {
        self.message.as_str()
    }

    pub fn kind(&self) -> (r: AppErrorType)
        ensures
            r == self.spec_kind(),
    {
        self.kind
    }

    pub fn scope(&self) -> (r: AppErrorScope)
        ensures
            r == scope_of(self.spec_kind()),
    {
        match self.kind {
            AppErrorType::BadRequest
            | AppErrorType::Unauthorized
            | AppErrorType::Forbidden
            | AppErrorType::NotFound
            | AppErrorType::Conflict
            | AppErrorType::UnsupportedMediaType => AppErrorScope::Public,
            AppErrorType::InternalServerError | AppErrorType::NotImplemented => AppErrorScope::Internal,
        }
    }
}

} // verus!
