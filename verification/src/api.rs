use vstd::prelude::*;

verus! {

/// The JSON envelope every HTTP endpoint answers with.
#[derive(Debug, Clone)]
pub struct ApiResponse<T> {
    pub success: bool,
    pub message: String,
    pub data: Option<T>,
}

impl<T> ApiResponse<T> {
    /// A successful answer carrying `data`, with the message "OK".
    pub fn ok(data: T) -> (r: Self)
        ensures
            r.success,
            r.message@ == "OK"@,
            r.data == Some(data),
    {
        ApiResponse { success: true, message: "OK".to_owned(), data: Some(data) }
    }

    /// Same answer as [`ApiResponse::ok`].
    pub fn success(data: T) -> (r: Self)
        ensures
            r.success,
            r.message@ == "OK"@,
            r.data == Some(data),
    {
        Self::ok(data)
    }

    /// A failed answer whose message is `message` and which carries no data.
    pub fn error(message: &str) -> (r: Self)
        ensures
            !r.success,
            r.message@ == message@,
            r.data is None,
    {
        ApiResponse { success: false, message: message.to_owned(), data: None }
    }
}

#[verifier::external_type_specification]
#[verifier::external_body]
pub struct ExIoError(std::io::Error);

#[verifier::external_type_specification]
#[verifier::external_body]
pub struct ExJsonError(serde_json::Error);

/// The service's errors.
#[derive(Debug)]
pub enum HunyiError {
    /// A sensor reading field failed validation.
    Validation { field: String, message: String },
    /// The analytics database refused a request.
    ClickHouse(String),
    /// A pipeline channel refused a message.
    Channel(String),
    /// Reading a file failed.
    Io(std::io::Error),
    /// A JSON document did not parse.
    Json(serde_json::Error),
    /// A configuration was missing or wrong.
    Config(String),
}

/// HTTP status 400 Bad Request.
pub const STATUS_BAD_REQUEST: u16 = 400;

/// HTTP status 500 Internal Server Error.
pub const STATUS_INTERNAL_SERVER_ERROR: u16 = 500;

/// The HTTP status an error is answered with: 400 for what the client sent
/// (validation, configuration, JSON), 500 for everything else.
pub open spec fn error_status(e: HunyiError) -> u16 {
    match e {
        HunyiError::Validation { .. } => STATUS_BAD_REQUEST,
        HunyiError::Config(_) => STATUS_BAD_REQUEST,
        HunyiError::Json(_) => STATUS_BAD_REQUEST,
        _ => STATUS_INTERNAL_SERVER_ERROR,
    }
}

impl HunyiError {
    /// The HTTP status this error is answered with.
    pub fn status_code(&self) -> (r: u16)
        ensures
            r == error_status(*self),
    {
        match self {
            HunyiError::Validation { .. } => STATUS_BAD_REQUEST,
            HunyiError::Config(_) | HunyiError::Json(_) => STATUS_BAD_REQUEST,
            _ => STATUS_INTERNAL_SERVER_ERROR,
        }
    }
}

} // verus!
