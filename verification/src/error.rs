//! The closed set of application errors and their outward form.

use vstd::prelude::*;
use vstd::string::*;
use crate::clock::current_timestamp;
use crate::json::{field, members, Field};

verus! {

/// Every failure the service can report.
#[derive(Debug, Clone)]
pub enum AppError {
    /// The configuration is semantically wrong.
    Config { message: String },
    /// A listener failed to start or to keep running.
    Server { message: String },
    /// A setting is present but cannot be read; `var_name` names it.
    Environment { var_name: String, message: String },
    /// Anything else.
    Internal { message: String },
    /// Malformed caller input.
    Validation { message: String },
}

/// The outward JSON body of an error, field by field.
#[derive(Debug, Clone)]
pub struct ErrorBody {
    pub error_type: String,
    pub message: String,
    pub timestamp: String,
}

/// An error as an HTTP answer: a status code and a JSON body.
#[derive(Debug, Clone)]
pub struct ErrorResponse {
    pub status: u16,
    pub body: ErrorBody,
}

/// The key under which the body of an error is nested.
pub const ERROR_KEY: &'static str = "error";

impl ErrorBody {
    /// The members of the object nested under `error`: `type`, `message`
    /// and `timestamp`.
    pub open spec fn spec_fields(&self) -> Seq<(Seq<char>, Seq<char>)> {
        seq![
            ("type"@, self.error_type@),
            ("message"@, self.message@),
            ("timestamp"@, self.timestamp@),
        ]
    }

    /// The members of the object nested under `error`.
    pub fn fields(&self) -> (object: Vec<Field>)
        ensures
            members(object@) == self.spec_fields(),
    {
        let mut object: Vec<Field> = Vec::new();
        object.push(field("type", self.error_type.as_str()));
        object.push(field("message", self.message.as_str()));
        object.push(field("timestamp", self.timestamp.as_str()));
        assert(members(object@) =~= self.spec_fields());
        object
    }
}

/// Status code sent for malformed caller input.
pub const BAD_REQUEST: u16 = 400;

/// Status code sent for every other failure.
pub const INTERNAL_SERVER_ERROR: u16 = 500;

/// Result type of the fallible operations of the service.
pub type AppResult<T> = Result<T, AppError>;

impl AppError {
    /// The text a reader sees for this error.
    pub open spec fn display(&self) -> Seq<char> {
        match self {
            AppError::Config { message } => "Configuration error: "@ + message@,
            AppError::Server { message } => "Server error: "@ + message@,
            AppError::Environment { var_name, message } => "Environment variable error: "@
                + var_name@ + " - "@ + message@,
            AppError::Internal { message } => "Internal server error: "@ + message@,
            AppError::Validation { message } => "Validation error: "@ + message@,
        }
    }

    /// The machine-readable identifier of the error's kind.
    pub open spec fn kind_name(&self) -> Seq<char> {
        match self {
            AppError::Config { .. } => "configuration_error"@,
            AppError::Server { .. } => "server_error"@,
            AppError::Environment { .. } => "environment_error"@,
            AppError::Internal { .. } => "internal_error"@,
            AppError::Validation { .. } => "validation_error"@,
        }
    }

    /// The HTTP status code the kind maps to.
    pub open spec fn status(&self) -> u16 {
        match self {
            AppError::Validation { .. } => BAD_REQUEST,
            _ => INTERNAL_SERVER_ERROR,
        }
    }

    /// A configuration error with the given message.
    pub fn config(message: &str) -> (e: AppError)
        ensures
            e matches AppError::Config { message: m } && m@ == message@,
    {
        AppError::Config { message: String::from_str(message) }
    }

    /// A server error with the given message.
    pub fn server(message: &str) -> (e: AppError)
        ensures
            e matches AppError::Server { message: m } && m@ == message@,
    {
        AppError::Server { message: String::from_str(message) }
    }

    /// An environment error about `var_name` with the given message.
    pub fn environment(var_name: &str, message: &str) -> (e: AppError)
        ensures
            e matches AppError::Environment { var_name: v, message: m } && v@ == var_name@ && m@
                == message@,
    {
        AppError::Environment {
            var_name: String::from_str(var_name),
            message: String::from_str(message),
        }
    }

    /// An internal error with the given message.
    pub fn internal(message: &str) -> (e: AppError)
        ensures
            e matches AppError::Internal { message: m } && m@ == message@,
    {
        AppError::Internal { message: String::from_str(message) }
    }

    /// A validation error with the given message.
    pub fn validation(message: &str) -> (e: AppError)
        ensures
            e matches AppError::Validation { message: m } && m@ == message@,
    {
        AppError::Validation { message: String::from_str(message) }
    }

    /// The full display string: a prefix fixed by the kind, then the
    /// variable name where there is one, then the message.
    pub fn to_string(&self) -> (s: String)
        ensures
            s@ == self.display(),
    {
        match self {
            AppError::Config { message } => String::from_str("Configuration error: ").concat(
                message.as_str(),
            ),
            AppError::Server { message } => String::from_str("Server error: ").concat(
                message.as_str(),
            ),
            AppError::Environment { var_name, message } => String::from_str(
                "Environment variable error: ",
            ).concat(var_name.as_str()).concat(" - ").concat(message.as_str()),
            AppError::Internal { message } => String::from_str("Internal server error: ").concat(
                message.as_str(),
            ),
            AppError::Validation { message } => String::from_str("Validation error: ").concat(
                message.as_str(),
            ),
        }
    }

    /// The identifier of the error's kind, for clients that branch on it.
    pub fn error_type(&self) -> (t: &'static str)
        ensures
            t@ == self.kind_name(),
    {
        match self {
            AppError::Config { .. } => "configuration_error",
            AppError::Server { .. } => "server_error",
            AppError::Environment { .. } => "environment_error",
            AppError::Internal { .. } => "internal_error",
            AppError::Validation { .. } => "validation_error",
        }
    }

    /// The HTTP status code of the error: 400 for a validation error, 500
    /// for every other kind.
    pub fn status_code(&self) -> (code: u16)
        ensures
            code == self.status(),
            (self is Validation) ==> code == 400,
            !(self is Validation) ==> code == 500,
    {
        match self {
            AppError::Config { .. } => INTERNAL_SERVER_ERROR,
            AppError::Server { .. } => INTERNAL_SERVER_ERROR,
            AppError::Environment { .. } => INTERNAL_SERVER_ERROR,
            AppError::Internal { .. } => INTERNAL_SERVER_ERROR,
            AppError::Validation { .. } => BAD_REQUEST,
        }
    }

    /// The HTTP answer for this error, stamped with the given time.
    pub fn error_response_at(&self, timestamp: String) -> (r: ErrorResponse)
        ensures
            r.status == self.status(),
            r.body.error_type@ == self.kind_name(),
            r.body.message@ == self.display(),
            r.body.timestamp@ == timestamp@,
    {
        ErrorResponse {
            status: self.status_code(),
            body: ErrorBody {
                error_type: String::from_str(self.error_type()),
                message: self.to_string(),
                timestamp,
            },
        }
    }

    /// The HTTP answer for this error, stamped with the current time.
    pub fn error_response(&self) -> (r: ErrorResponse)
        ensures
            r.status == self.status(),
            r.body.error_type@ == self.kind_name(),
            r.body.message@ == self.display(),
    {
        self.error_response_at(current_timestamp())
    }
}

/// Every kind of error maps to one of the two outward status codes, and
/// to 400 exactly when it is a validation error.
pub proof fn lemma_status_is_400_or_500(e: AppError)
    ensures
        e.status() == 400 || e.status() == 500,
        e.status() == 400 <==> e is Validation,
{
}

} // verus!
