use vstd::prelude::*;

verus! {

pub const STATUS_BAD_REQUEST: u16 = 400;

pub const STATUS_UNAUTHORIZED: u16 = 401;

pub const STATUS_NOT_FOUND: u16 = 404;

pub const STATUS_INTERNAL: u16 = 500;

/// An error raised by a service, with the HTTP status it maps to.
#[derive(Debug)]
pub struct ServiceError {
    pub status: u16,
    pub message: String,
    pub details: Option<String>,
}

pub type ServiceResult<T> = Result<T, ServiceError>;

impl ServiceError {
    pub fn new(status: u16, message: &str) -> (r: Self)
        ensures
            r.status == status,
            r.message@ == message@,
            r.details is None,
    {
        ServiceError { status, message: message.to_owned(), details: None }
    }

    pub fn with_details(self, details: String) -> (r: Self)
        ensures
            r.status == self.status,
            r.message@ == self.message@,
            r.details == Some(details),
    {
        ServiceError { status: self.status, message: self.message, details: Some(details) }
    }

    pub fn internal(message: &str) -> (r: Self)
        ensures
            r.status == STATUS_INTERNAL,
            r.message@ == message@,
            r.details is None,
    {
        Self::new(STATUS_INTERNAL, message)
    }

    pub fn not_found(message: &str) -> (r: Self)
        ensures
            r.status == STATUS_NOT_FOUND,
            r.message@ == message@,
            r.details is None,
    {
        Self::new(STATUS_NOT_FOUND, message)
    }

    pub fn unauthorized(message: &str) -> (r: Self)
        ensures
            r.status == STATUS_UNAUTHORIZED,
            r.message@ == message@,
            r.details is None,
    {
        Self::new(STATUS_UNAUTHORIZED, message)
    }

    pub fn bad_request(message: &str) -> (r: Self)
        ensures
            r.status == STATUS_BAD_REQUEST,
            r.message@ == message@,
            r.details is None,
    {
        Self::new(STATUS_BAD_REQUEST, message)
    }

    /// The message shown for this error (what `Display` would print).
    pub fn to_string(&self) -> (r: String)
        ensures
            r@ == self.message@,
    {
        self.message.clone()
    }
}

/// The JSON body sent to a client for a failed request.
#[derive(Debug)]
pub struct ApiError {
    pub status: u16,
    pub error: String,
    pub details: Option<String>,
}

impl ApiError {
    pub fn new(status: u16, error: String, details: Option<String>) -> (r: Self)
        ensures
            r.status == status,
            r.error == error,
            r.details == details,
    {
        ApiError { status, error, details }
    }

    pub fn status(&self) -> (r: u16)
        ensures
            r == self.status,
    {
        self.status
    }
}

impl From<ServiceError> for ApiError {
    fn from(err: ServiceError) -> (r: ApiError) {
        ApiError { status: err.status, error: err.message, details: err.details }
    }
}

impl vstd::std_specs::convert::FromSpecImpl<ServiceError> for ApiError {
    open spec fn obeys_from_spec() -> bool {
        true
    }

    open spec fn from_spec(err: ServiceError) -> ApiError {
        ApiError { status: err.status, error: err.message, details: err.details }
    }
}

} // verus!
