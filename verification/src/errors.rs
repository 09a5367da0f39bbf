//! The error taxonomy and the canonical error envelope.
//!
//! Every error response leaving the system is a `HttpError`: a status code, a
//! message, and — only for request-body validation failures — a list of
//! per-field messages.

use vstd::prelude::*;

verus! {

/// One field of a request body that failed validation.
pub struct ValidationError {
    pub field: String,
    pub message: String,
}

/// Mathematical model of a `ValidationError`.
pub struct ValidationErrorView {
    pub field: Seq<char>,
    pub message: Seq<char>,
}

impl View for ValidationError {
    type V = ValidationErrorView;

    open spec fn view(&self) -> ValidationErrorView {
        ValidationErrorView { field: self.field@, message: self.message@ }
    }
}

/// The canonical error envelope: every client or server error produced
/// anywhere in the pipeline carries exactly this shape.
pub struct HttpError {
    pub status: u16,
    pub message: String,
    pub errors: Option<Vec<ValidationError>>,
}

/// Mathematical model of a `HttpError`.
pub struct HttpErrorView {
    pub status: u16,
    pub message: Seq<char>,
    pub errors: Option<Seq<ValidationErrorView>>,
}

impl View for HttpError {
    type V = HttpErrorView;

    open spec fn view(&self) -> HttpErrorView {
        HttpErrorView {
            status: self.status,
            message: self.message@,
            errors: match self.errors {
                Some(v) => Some(v@.map_values(|e: ValidationError| e@)),
                None => None,
            },
        }
    }
}

impl HttpError {
    pub fn new(status: u16, message: String) -> (r: HttpError)
        ensures
            r@ == (HttpErrorView { status, message: message@, errors: None }),
    {
        HttpError { status, message, errors: None }
    }

    pub fn set_errors(self, errors: Vec<ValidationError>) -> (r: HttpError)
        ensures
            r@.status == self@.status,
            r@.message == self@.message,
            r@.errors == Some(errors@.map_values(|e: ValidationError| e@)),
    {
        HttpError { status: self.status, message: self.message, errors: Some(errors) }
    }

    pub fn status(&self) -> (r: u16)
        ensures
            r == self@.status,
    {
        self.status
    }

    pub fn message(&self) -> (r: &String)
        ensures
            r@ == self@.message,
    {
        &self.message
    }

    pub fn bad_request(message: String) -> (r: HttpError)
        ensures
            r@ == (HttpErrorView { status: 400, message: message@, errors: None }),
    {
        HttpError::new(400, message)
    }

    pub fn unauthorized(message: String) -> (r: HttpError)
        ensures
            r@ == (HttpErrorView { status: 401, message: message@, errors: None }),
    {
        HttpError::new(401, message)
    }

    pub fn forbidden(message: String) -> (r: HttpError)
        ensures
            r@ == (HttpErrorView { status: 403, message: message@, errors: None }),
    {
        HttpError::new(403, message)
    }

    pub fn not_found(message: String) -> (r: HttpError)
        ensures
            r@ == (HttpErrorView { status: 404, message: message@, errors: None }),
    {
        HttpError::new(404, message)
    }

    pub fn conflict(message: String) -> (r: HttpError)
        ensures
            r@ == (HttpErrorView { status: 409, message: message@, errors: None }),
    {
        HttpError::new(409, message)
    }

    pub fn too_many_requests(message: String) -> (r: HttpError)
        ensures
            r@ == (HttpErrorView { status: 429, message: message@, errors: None }),
    {
        HttpError::new(429, message)
    }

    pub fn server_error(message: String) -> (r: HttpError)
        ensures
            r@ == (HttpErrorView { status: 500, message: message@, errors: None }),
    {
        HttpError::new(500, message)
    }

    /// A request-body validation failure: a 400 envelope carrying the
    /// per-field messages.
    pub fn validation_error(errors: Vec<ValidationError>) -> (r: HttpError)
        ensures
            r@.status == 400,
            r@.message == "Request body validation failed"@,
            r@.errors == Some(errors@.map_values(|e: ValidationError| e@)),
    {
        let base = HttpError::bad_request("Request body validation failed".to_owned());
        base.set_errors(errors)
    }
}

} // verus!
