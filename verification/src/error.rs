//! The error taxonomy: a closed set of pipeline failures, each mapped
//! deterministically to an HTTP status and the uniform wire envelope.

use vstd::prelude::*;
use vstd::string::StringExecFns;

use crate::models::{ErrorDetail, ErrorResponse};

verus! {

/// The pipeline's failure kinds. Adding a variant forces the mapping in
/// [`AppError::into_response`] to be extended.
pub enum AppError {
    ModelError(String),
    InvalidInput(String),
    InternalServerError(String),
}

impl AppError {
    /// The HTTP status and uniform envelope for this failure; the message
    /// never carries an internal type or a secret, only the detail text
    /// the variant holds.
    pub fn into_response(self) -> (r: (u16, ErrorResponse))
        ensures
            match self {
                AppError::ModelError(detail) => r.0 == 500 && r.1.error.message@
                    == "Model inference failed: "@ + detail@ && r.1.error.error_type@
                    == "server_error"@,
                AppError::InvalidInput(message) => r.0 == 400 && r.1.error.message@ == message@
                    && r.1.error.error_type@ == "invalid_request_error"@,
                AppError::InternalServerError(message) => r.0 == 500 && r.1.error.message@
                    == message@ && r.1.error.error_type@ == "server_error"@,
            },
            r.1.error.code is None,
    {
        match self {
            AppError::ModelError(detail) => (
                500,
                ErrorResponse {
                    error: ErrorDetail {
                        message: "Model inference failed: ".to_owned().concat(detail.as_str()),
                        error_type: "server_error".to_owned(),
                        code: None,
                    },
                },
            ),
            AppError::InvalidInput(message) => (
                400,
                ErrorResponse {
                    error: ErrorDetail {
                        message,
                        error_type: "invalid_request_error".to_owned(),
                        code: None,
                    },
                },
            ),
            AppError::InternalServerError(message) => (
                500,
                ErrorResponse {
                    error: ErrorDetail {
                        message,
                        error_type: "server_error".to_owned(),
                        code: None,
                    },
                },
            ),
        }
    }
}

} // verus!
