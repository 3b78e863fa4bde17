//! What can go wrong when a camera is asked for.

use vstd::prelude::*;

verus! {

/// Why a request for a camera fails.
#[derive(Debug)]
pub enum CameraManagerError {
    CameraNotFound(String),
    InvalidBootstrapField(&'static str),
    MissingBootstrapField(&'static str),
    UnsupportedCaptureEncoding(String),
    WorkerInitialization(String),
}

/// The value of an error.
pub enum ErrorModel {
    CameraNotFound(Seq<char>),
    InvalidBootstrapField(Seq<char>),
    MissingBootstrapField(Seq<char>),
    UnsupportedCaptureEncoding(Seq<char>),
    WorkerInitialization(Seq<char>),
}

impl View for CameraManagerError {
    type V = ErrorModel;

    open spec fn view(&self) -> ErrorModel {
        match self {
            CameraManagerError::CameraNotFound(camera_id) => ErrorModel::CameraNotFound(camera_id@),
            CameraManagerError::InvalidBootstrapField(field) => {
                ErrorModel::InvalidBootstrapField(field@)
            },
            CameraManagerError::MissingBootstrapField(field) => {
                ErrorModel::MissingBootstrapField(field@)
            },
            CameraManagerError::UnsupportedCaptureEncoding(encoding) => {
                ErrorModel::UnsupportedCaptureEncoding(encoding@)
            },
            CameraManagerError::WorkerInitialization(message) => {
                ErrorModel::WorkerInitialization(message@)
            },
        }
    }
}

impl ErrorModel {
    /// The text that tells a user of the error.
    pub open spec fn text(self) -> Seq<char> {
        match self {
            ErrorModel::CameraNotFound(camera_id) => "No camera worker found for "@ + camera_id,
            ErrorModel::InvalidBootstrapField(field) => {
                "Invalid value for bootstrap field "@ + field
            },
            ErrorModel::MissingBootstrapField(field) => "Missing bootstrap field "@ + field,
            ErrorModel::UnsupportedCaptureEncoding(encoding) => {
                "Unsupported capture encoding "@ + encoding
            },
            ErrorModel::WorkerInitialization(message) => message,
        }
    }
}

impl CameraManagerError {
    /// The text that tells a user of the error.
    pub fn message(&self) -> (r: String)
        ensures
            r@ == self@.text(),
    {
        match self {
            CameraManagerError::CameraNotFound(camera_id) => {
                "No camera worker found for ".to_owned().concat(camera_id.as_str())
            },
            CameraManagerError::InvalidBootstrapField(field) => {
                "Invalid value for bootstrap field ".to_owned().concat(field)
            },
            CameraManagerError::MissingBootstrapField(field) => {
                "Missing bootstrap field ".to_owned().concat(field)
            },
            CameraManagerError::UnsupportedCaptureEncoding(encoding) => {
                "Unsupported capture encoding ".to_owned().concat(encoding.as_str())
            },
            CameraManagerError::WorkerInitialization(message) => message.clone(),
        }
    }
}

/// Every error keeps what it tells of.
pub proof fn law_error_value(error: CameraManagerError)
    ensures
        match error {
            CameraManagerError::CameraNotFound(camera_id) => error@ == ErrorModel::CameraNotFound(
                camera_id@,
            ),
            CameraManagerError::InvalidBootstrapField(field) => error@
                == ErrorModel::InvalidBootstrapField(field@),
            CameraManagerError::MissingBootstrapField(field) => error@
                == ErrorModel::MissingBootstrapField(field@),
            CameraManagerError::UnsupportedCaptureEncoding(encoding) => error@
                == ErrorModel::UnsupportedCaptureEncoding(encoding@),
            CameraManagerError::WorkerInitialization(message) => error@
                == ErrorModel::WorkerInitialization(message@),
        },
{
}

/// What a user is told ends with what the error tells of, whole, behind a fixed
/// text that says what is wrong with it; the message on a worker that could not be
/// started stands alone.
pub proof fn law_error_text(detail: Seq<char>)
    ensures
        ErrorModel::CameraNotFound(detail).text() == "No camera worker found for "@ + detail,
        ErrorModel::InvalidBootstrapField(detail).text() == "Invalid value for bootstrap field "@
            + detail,
        ErrorModel::MissingBootstrapField(detail).text() == "Missing bootstrap field "@ + detail,
        ErrorModel::UnsupportedCaptureEncoding(detail).text() == "Unsupported capture encoding "@
            + detail,
        ErrorModel::WorkerInitialization(detail).text() == detail,
{
}

/// Errors of one kind on different things are told differently.
pub proof fn law_error_text_tells_apart(a: Seq<char>, b: Seq<char>)
    requires
        a != b,
    ensures
        ErrorModel::CameraNotFound(a).text() != ErrorModel::CameraNotFound(b).text(),
        ErrorModel::InvalidBootstrapField(a).text() != ErrorModel::InvalidBootstrapField(b).text(),
        ErrorModel::MissingBootstrapField(a).text() != ErrorModel::MissingBootstrapField(b).text(),
        ErrorModel::UnsupportedCaptureEncoding(a).text()
            != ErrorModel::UnsupportedCaptureEncoding(b).text(),
        ErrorModel::WorkerInitialization(a).text() != ErrorModel::WorkerInitialization(b).text(),
{
    lemma_same_tail("No camera worker found for "@, a, b);
    lemma_same_tail("Invalid value for bootstrap field "@, a, b);
    lemma_same_tail("Missing bootstrap field "@, a, b);
    lemma_same_tail("Unsupported capture encoding "@, a, b);
}

proof fn lemma_same_tail(start: Seq<char>, a: Seq<char>, b: Seq<char>)
    ensures
        start + a == start + b ==> a == b,
{
    assert((start + a).skip(start.len() as int) =~= a);
    assert((start + b).skip(start.len() as int) =~= b);
}

} // verus!
