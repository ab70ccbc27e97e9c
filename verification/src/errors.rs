//! The errors that a request can end in, with their text and HTTP status.

use vstd::prelude::*;

verus! {

/// Why a request failed.
#[derive(Debug, Clone, PartialEq, Eq)]
pub enum AppError {
    /// What was asked for does not exist.
    NotFound(String),
    /// A parameter or form field was refused.
    Validation(String),
    /// A page template could not be rendered; holds the renderer's message.
    Template(String),
}

/// The text an error is shown with: a heading for its kind, then its detail.
pub open spec fn error_text(e: AppError) -> Seq<char> {
    match e {
        AppError::NotFound(m) => "Не найдено: "@ + m@,
        AppError::Validation(m) => "Ошибка параметров: "@ + m@,
        AppError::Template(m) => "Ошибка шаблона: "@ + m@,
    }
}

/// The HTTP status that an error is answered with.
pub open spec fn error_status(e: AppError) -> u16 {
    match e {
        AppError::NotFound(_) => 404,
        AppError::Validation(_) => 400,
        AppError::Template(_) => 500,
    }
}

/// Whether `e` is a refused parameter with the detail `m`.
pub open spec fn is_validation(e: AppError, m: Seq<char>) -> bool {
    e matches AppError::Validation(d) && d@ == m
}

/// Whether `e` reports something missing, with the detail `m`.
pub open spec fn is_not_found(e: AppError, m: Seq<char>) -> bool {
    e matches AppError::NotFound(d) && d@ == m
}

impl AppError {
    /// A refused parameter with the detail `m`.
    pub fn validation(m: &str) -> (e: AppError)
        ensures
            is_validation(e, m@),
    {
        AppError::Validation(m.to_owned())
    }

    /// Something missing, with the detail `m`.
    pub fn not_found(m: &str) -> (e: AppError)
        ensures
            is_not_found(e, m@),
    {
        AppError::NotFound(m.to_owned())
    }

    /// The text this error is shown with (what `Display` writes).
    pub fn message(&self) -> (s: String)
        ensures
            s@ == error_text(*self),
    {
        let (mut head, m) = match self {
            AppError::NotFound(m) => (String::from_str("Не найдено: "), m),
            AppError::Validation(m) => (String::from_str("Ошибка параметров: "), m),
            AppError::Template(m) => (String::from_str("Ошибка шаблона: "), m),
        };
        head.append(m.as_str());
        head
    }

    /// The HTTP status this error is answered with: 404 for something
    /// missing, 400 for a refused parameter, 500 for a template failure.
    pub fn status_code(&self) -> (code: u16)
        ensures
            code == error_status(*self),
    {
        match self {
            AppError::NotFound(_) => 404,
            AppError::Validation(_) => 400,
            AppError::Template(_) => 500,
        }
    }
}

} // verus!
