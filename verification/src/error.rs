//! The application's error type.
use vstd::prelude::*;

verus! {

broadcast use vstd::string::group_string_axioms;

/// Errors reported by model installation.
#[derive(Debug, Clone, PartialEq, Eq)]
pub enum AppError {
    IoError(String),
    InstallationError(String),
    NotSupported(String),
    InvalidModel(String),
}

/// The text of an error, as the user sees it.
pub open spec fn app_error_text(e: AppError) -> Seq<char> {
    match e {
        AppError::IoError(m) => "IO Error: "@ + m@,
        AppError::InstallationError(m) => "Installation Error: "@ + m@,
        AppError::NotSupported(m) => "Not Supported: "@ + m@,
        AppError::InvalidModel(m) => "Invalid Model: "@ + m@,
    }
}

impl AppError {
    /// The text of the error, as the user sees it.
    pub fn message(&self) -> (r: String)
        ensures
            r@ == app_error_text(*self),
    {
        match self {
            AppError::IoError(m) => String::from_str("IO Error: ").concat(m.as_str()),
            AppError::InstallationError(m) => String::from_str("Installation Error: ").concat(
                m.as_str(),
            ),
            AppError::NotSupported(m) => String::from_str("Not Supported: ").concat(m.as_str()),
            AppError::InvalidModel(m) => String::from_str("Invalid Model: ").concat(m.as_str()),
        }
    }
}

} // verus!
