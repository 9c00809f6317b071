//! The error taxonomy.
//!
//! Three layers of errors: `ChatterError` for the agent loop and the
//! tools, `DataError` for the store, and `AppError` for the HTTP
//! boundary.  Each error renders to a message whose exact text is part
//! of the contract; types of this library carry no `Display`, so the
//! rendering is an ordinary method.

use vstd::prelude::*;
use crate::json::spec_json_string;
use crate::json::json_string;
use crate::keys::concat_str;

verus! {

/// What the database driver reports of a failed query: either a
/// structured database error, with its message and the optional
/// `where` and `hint` details, or another driver fault rendered to
/// text.
#[derive(Debug)]
pub enum PgError {
    Db { message: String, where_detail: Option<String>, hint: Option<String> },
    Other(String),
}

/// Errors of the agent loop and of the tools.
#[derive(Debug)]
pub enum ChatterError {
    /// LLM transport or protocol fault; fatal to the current stream.
    OpenAIError(String),
    /// Underlying database fault.
    PostgresError(PgError),
    /// Malformed JSON where a value was expected.
    SerializationError(String),
    /// The LLM requested a tool that is not in the registry; fatal.
    UnknownToolCall(String),
    /// A message role that cannot be sent to the LLM.
    UnknownRole(String),
    /// The validated sample holds no column of the geometry type.
    GeometryNotFound,
    /// A semantic fault of a SQL query or of a saved-query lookup.
    QueryError(String),
    /// A saved query could not be built or stored.
    SqlQueryCreationError(String),
    /// A data request could not be built or stored.
    DataRequestCreationError(String),
    /// A tool name with no registered function.
    FunctionNotFound(String),
}

/// The rendered message of a `PgError`, as the driver's text.
pub open spec fn spec_pg_error_text(e: PgError) -> Seq<char> {
    match e {
        PgError::Db { message, where_detail, hint } => message@,
        PgError::Other(s) => s@,
    }
}

/// The rendered message of a `ChatterError`.
pub open spec fn spec_chatter_error_message(e: ChatterError) -> Seq<char> {
    match e {
        ChatterError::OpenAIError(s) => s@,
        ChatterError::PostgresError(pg) => spec_pg_error_text(pg),
        ChatterError::SerializationError(s) => s@,
        ChatterError::UnknownToolCall(s) => "Unknown Tool Call: "@ + s@,
        ChatterError::UnknownRole(s) => "Unknown Role: "@ + s@,
        ChatterError::GeometryNotFound => "Geometry was not found in the query result"@,
        ChatterError::QueryError(s) => "SQL Query Error: "@ + s@,
        ChatterError::SqlQueryCreationError(s) => "SQL query creation error: "@ + s@,
        ChatterError::DataRequestCreationError(s) => "Data request creation error: "@ + s@,
        ChatterError::FunctionNotFound(s) => "Function not found: "@ + s@,
    }
}

impl ChatterError {
    /// Render the error to its user-facing message.
    pub fn message(&self) -> (r: String)
        ensures
            r@ == spec_chatter_error_message(*self),
    {
        match self {
            ChatterError::OpenAIError(s) => s.as_str().to_owned(),
            ChatterError::PostgresError(pg) => match pg {
                PgError::Db { message, where_detail, hint } => message.as_str().to_owned(),
                PgError::Other(s) => s.as_str().to_owned(),
            },
            ChatterError::SerializationError(s) => s.as_str().to_owned(),
            ChatterError::UnknownToolCall(s) => concat_str("Unknown Tool Call: ", s.as_str()),
            ChatterError::UnknownRole(s) => concat_str("Unknown Role: ", s.as_str()),
            ChatterError::GeometryNotFound => "Geometry was not found in the query result".to_owned(
            ),
            ChatterError::QueryError(s) => concat_str("SQL Query Error: ", s.as_str()),
            ChatterError::SqlQueryCreationError(s) => concat_str(
                "SQL query creation error: ",
                s.as_str(),
            ),
            ChatterError::DataRequestCreationError(s) => concat_str(
                "Data request creation error: ",
                s.as_str(),
            ),
            ChatterError::FunctionNotFound(s) => concat_str("Function not found: ", s.as_str()),
        }
    }
}

/// Errors of the conversation store.
#[derive(Debug)]
pub enum DataError {
    /// No record under the requested key.
    DocumentNotFound,
    /// An exclusive-create put found the key already present.
    AlreadyExists,
    /// An optimistic-lock put found the guarded field changed.
    OptimisticLockFailed,
    /// A stored record did not decode to the expected shape, or a
    /// record could not be built from incomplete parts.
    MalformedRecord,
}

/// The rendered message of a `DataError`.
pub open spec fn spec_data_error_message(e: DataError) -> Seq<char> {
    match e {
        DataError::DocumentNotFound => "Document not found"@,
        DataError::AlreadyExists => "Record already exists"@,
        DataError::OptimisticLockFailed => "Optimistic lock failed"@,
        DataError::MalformedRecord => "Malformed record"@,
    }
}

impl DataError {
    /// Render the error to its user-facing message.
    pub fn message(&self) -> (r: String)
        ensures
            r@ == spec_data_error_message(*self),
    {
        match self {
            DataError::DocumentNotFound => "Document not found".to_owned(),
            DataError::AlreadyExists => "Record already exists".to_owned(),
            DataError::OptimisticLockFailed => "Optimistic lock failed".to_owned(),
            DataError::MalformedRecord => "Malformed record".to_owned(),
        }
    }
}

/// Errors of the HTTP boundary.
#[derive(Debug)]
pub enum AppError {
    /// Any unhandled fault: a 500 with a generic message.
    InternalServerError(String),
    /// A conflict, such as writing to an archived thread: a 409 whose
    /// body carries the machine-readable code.
    Conflict(String),
}

/// The HTTP status code of an `AppError` response.
pub open spec fn spec_app_error_status(e: AppError) -> u16 {
    match e {
        AppError::InternalServerError(_) => 500,
        AppError::Conflict(_) => 409,
    }
}

/// The response body of an `AppError`: a generic sentence for an
/// internal fault, and `{"error_code":<code>}` for a conflict.
pub open spec fn spec_app_error_body(e: AppError) -> Seq<char> {
    match e {
        AppError::InternalServerError(_) => "Something went wrong. Please try again later."@,
        AppError::Conflict(code) => "{\"error_code\":"@ + spec_json_string(code@) + "}"@,
    }
}

impl AppError {
    /// The status code and body of the HTTP response for this error.
    pub fn response_parts(&self) -> (r: (u16, String))
        ensures
            r.0 == spec_app_error_status(*self),
            r.1@ == spec_app_error_body(*self),
    {
        match self {
            AppError::InternalServerError(_) => (
                500,
                "Something went wrong. Please try again later.".to_owned(),
            ),
            AppError::Conflict(code) => {
                let mut body = "{\"error_code\":".to_owned();
                let encoded = json_string(code.as_str());
                body.append(encoded.as_str());
                body.append("}");
                proof {
                    assert(body@ =~= spec_app_error_body(*self));
                }
                (409, body)
            },
        }
    }
}

} // verus!
