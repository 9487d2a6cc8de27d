use vstd::prelude::*;

verus! {

#[verifier::external_type_specification]
#[verifier::external_body]
pub struct ExPgError(tokio_postgres::Error);

#[verifier::external_type_specification]
#[verifier::external_body]
pub struct ExMapperError(tokio_pg_mapper::Error);

#[verifier::external_type_specification]
#[verifier::external_body]
#[verifier::reject_recursive_types(E)]
pub struct ExPoolError<E>(deadpool::managed::PoolError<E>);

/// The text of a pool error.
pub uninterp spec fn pool_text_of(err: deadpool::managed::PoolError<tokio_postgres::Error>) -> Seq<char>;

/// The text of a driver error.
pub uninterp spec fn pg_text_of(err: tokio_postgres::Error) -> Seq<char>;

/// The text of a row-mapping error.
pub uninterp spec fn mapper_text_of(err: tokio_pg_mapper::Error) -> Seq<char>;

/// Relies on deadpool's PoolError Display: the pool's text for the error,
/// a function of the error alone.
#[verifier::external_body]
fn pool_error_text(err: &deadpool::managed::PoolError<tokio_postgres::Error>) -> (r: String)
    ensures
        r@ == pool_text_of(*err),
{
    err.to_string()
}

/// Relies on tokio_postgres::Error's Display: the driver's text for the
/// error, a function of the error alone.
#[verifier::external_body]
pub(crate) fn pg_error_text(err: &tokio_postgres::Error) -> (r: String)
    ensures
        r@ == pg_text_of(*err),
{
    err.to_string()
}

/// Relies on tokio_pg_mapper::Error's Display: the mapper's text for the
/// error, a function of the error alone.
#[verifier::external_body]
fn mapper_error_text(err: &tokio_pg_mapper::Error) -> (r: String)
    ensures
        r@ == mapper_text_of(*err),
{
    err.to_string()
}

/// The kinds of domain failure.
#[derive(Clone, Copy, Debug, PartialEq, Eq, Structural)]
pub enum AppErrorType {
    /// Opaque internal failure: connection loss, decode failure, unclassified storage error.
    DbError,
    /// A single-entity lookup found nothing.
    NotFoundError,
    /// The input violates a data constraint; the message is safe to show.
    InvalidField,
}

/// A domain error: `message` is safe to expose to API clients, `cause` is
/// kept for diagnostics only.
#[derive(Clone, Debug)]
pub struct AppError {
    pub message: Option<String>,
    pub cause: Option<String>,
    pub error_type: AppErrorType,
}

/// The message shown for a kind when no explicit message is set.
pub open spec fn default_message(kind: AppErrorType) -> Seq<char> {
    match kind {
        AppErrorType::NotFoundError => "The requested item was not found"@,
        AppErrorType::InvalidField => "Invalid value provided"@,
        AppErrorType::DbError => "An unexpected error has occurred"@,
    }
}

/// The transport status that a kind maps to.
pub open spec fn status_of(kind: AppErrorType) -> u16 {
    match kind {
        AppErrorType::DbError => 500,
        AppErrorType::NotFoundError => 404,
        AppErrorType::InvalidField => 400,
    }
}

impl AppError {
    /// The user-facing message: the explicit one if set, else the kind's default.
    pub open spec fn user_message(&self) -> Seq<char> {
        match self.message {
            Some(m) => m@,
            None => default_message(self.error_type),
        }
    }

    /// An unclassified storage failure; the driver's text is kept as the cause only.
    pub fn db(cause: String) -> (r: AppError)
        ensures
            r.error_type == AppErrorType::DbError,
            r.message is None,
            r.cause == Some(cause),
    {
        AppError { message: None, cause: Some(cause), error_type: AppErrorType::DbError }
    }

    /// A storage driver failure: a `DbError` that keeps the driver's text as its cause.
    pub fn from_pg_error(err: &tokio_postgres::Error) -> (r: AppError)
        ensures
            r.error_type == AppErrorType::DbError,
            r.message is None,
            r.cause is Some,
            r.cause->Some_0@ == pg_text_of(*err),
    {
        AppError::db(pg_error_text(err))
    }

    /// A row decoding failure: a `DbError` that keeps the mapper's text as its cause.
    pub fn from_mapper_error(err: &tokio_pg_mapper::Error) -> (r: AppError)
        ensures
            r.error_type == AppErrorType::DbError,
            r.message is None,
            r.cause is Some,
            r.cause->Some_0@ == mapper_text_of(*err),
    {
        AppError::db(mapper_error_text(err))
    }

    /// A failure to obtain a pooled connection: a `DbError` that keeps the
    /// pool's text as its cause.
    pub fn from_pool_error(err: &deadpool::managed::PoolError<tokio_postgres::Error>) -> (r: AppError)
        ensures
            r.error_type == AppErrorType::DbError,
            r.message is None,
            r.cause is Some,
            r.cause->Some_0@ == pool_text_of(*err),
    {
        AppError::db(pool_error_text(err))
    }

    /// An error of the given kind with an explicit user-facing message.
    pub fn with_message(kind: AppErrorType, message: String, cause: Option<String>) -> (r: AppError)
        ensures
            r.error_type == kind,
            r.message == Some(message),
            r.cause == cause,
    {
        AppError { message: Some(message), cause, error_type: kind }
    }

    /// The message to show to API clients.
    pub fn message(&self) -> (r: String)
        ensures
            r@ == self.user_message(),
    {
        match &self.message {
            Some(m) => m.clone(),
            None => match self.error_type {
                AppErrorType::NotFoundError => String::from_str("The requested item was not found"),
                AppErrorType::InvalidField => String::from_str("Invalid value provided"),
                AppErrorType::DbError => String::from_str("An unexpected error has occurred"),
            },
        }
    }

    /// The transport-level status code for this error.
    pub fn status_code(&self) -> (r: u16)
        ensures
            r == status_of(self.error_type),
    {
        match self.error_type {
            AppErrorType::DbError => 500,
            AppErrorType::NotFoundError => 404,
            AppErrorType::InvalidField => 400,
        }
    }

    /// A copy equal to this error in every field.
    pub fn duplicate(&self) -> (r: AppError)
        ensures
            r == *self,
    {
        let message = match &self.message {
            Some(m) => Some(m.clone()),
            None => None,
        };
        let cause = match &self.cause {
            Some(c) => Some(c.clone()),
            None => None,
        };
        AppError { message, cause, error_type: self.error_type }
    }
}

/// The body sent to API clients for an error.
pub struct AppErrorResponse {
    pub error: String,
}

impl AppErrorResponse {
    /// The response body for an error: its user-facing message, never its cause.
    pub fn from_error(e: &AppError) -> (r: AppErrorResponse)
        ensures
            r.error@ == e.user_message(),
    {
        AppErrorResponse { error: e.message() }
    }
}

} // verus!
