//! The failures that the domain reports.

use vstd::prelude::*;

verus! {

/// A failure, with a message for the server's own diagnostics.
#[derive(Debug)]
pub enum DomainError {
    /// A lookup found nothing.
    NotFound(String),
    /// An input broke a rule of the domain.
    Validation(String),
    /// Storage or transport failed.
    Repository(String),
    /// Kept for stores that refuse to overwrite; saving replaces, so nothing raises it.
    AlreadyExists(String),
}

/// A `DomainError` with its message as a sequence of characters.
pub enum ErrorView {
    NotFound(Seq<char>),
    Validation(Seq<char>),
    Repository(Seq<char>),
    AlreadyExists(Seq<char>),
}

impl ErrorView {
    /// The message that the error carries.
    pub open spec fn message(self) -> Seq<char> {
        match self {
            ErrorView::NotFound(m) => m,
            ErrorView::Validation(m) => m,
            ErrorView::Repository(m) => m,
            ErrorView::AlreadyExists(m) => m,
        }
    }

    /// The line that describes the error: its category, a colon, its message.
    pub open spec fn text(self) -> Seq<char> {
        match self {
            ErrorView::NotFound(m) => "Entity not found: "@ + m,
            ErrorView::Validation(m) => "Validation error: "@ + m,
            ErrorView::Repository(m) => "Repository error: "@ + m,
            ErrorView::AlreadyExists(m) => "Entity already exists: "@ + m,
        }
    }
}

impl View for DomainError {
    type V = ErrorView;

    open spec fn view(&self) -> ErrorView {
        match self {
            DomainError::NotFound(m) => ErrorView::NotFound(m@),
            DomainError::Validation(m) => ErrorView::Validation(m@),
            DomainError::Repository(m) => ErrorView::Repository(m@),
            DomainError::AlreadyExists(m) => ErrorView::AlreadyExists(m@),
        }
    }
}

impl DomainError {
    /// The error as one line of text.
    pub fn to_string(&self) -> (s: String)
        ensures
            s@ == self@.text(),
    {
        match self {
            DomainError::NotFound(m) => String::from_str("Entity not found: ").concat(m.as_str()),
            DomainError::Validation(m) => String::from_str("Validation error: ").concat(
                m.as_str(),
            ),
            DomainError::Repository(m) => String::from_str("Repository error: ").concat(
                m.as_str(),
            ),
            DomainError::AlreadyExists(m) => String::from_str("Entity already exists: ").concat(
                m.as_str(),
            ),
        }
    }
}

impl Clone for DomainError {
    fn clone(&self) -> (copy: DomainError)
        ensures
            copy@ == self@,
    {
        match self {
            DomainError::NotFound(m) => DomainError::NotFound(m.clone()),
            DomainError::Validation(m) => DomainError::Validation(m.clone()),
            DomainError::Repository(m) => DomainError::Repository(m.clone()),
            DomainError::AlreadyExists(m) => DomainError::AlreadyExists(m.clone()),
        }
    }
}

impl PartialEq for DomainError {
    fn eq(&self, other: &DomainError) -> (r: bool) {
        match (self, other) {
            (DomainError::NotFound(a), DomainError::NotFound(b)) => *a == *b,
            (DomainError::Validation(a), DomainError::Validation(b)) => *a == *b,
            (DomainError::Repository(a), DomainError::Repository(b)) => *a == *b,
            (DomainError::AlreadyExists(a), DomainError::AlreadyExists(b)) => *a == *b,
            _ => false,
        }
    }
}

impl Eq for DomainError {

}

impl vstd::std_specs::cmp::PartialEqSpecImpl for DomainError {
    open spec fn obeys_eq_spec() -> bool {
        true
    }

    open spec fn eq_spec(&self, other: &DomainError) -> bool {
        self@ == other@
    }
}

} // verus!
