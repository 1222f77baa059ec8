use vstd::prelude::*;
use vstd::string::*;

verus! {

/// Why an operation on the store failed.
#[derive(Debug, PartialEq, Eq)]
pub enum StoreError {
    /// No order with the requested identifier exists in the backend.
    NotFound,
    /// The backend refused a statement because it breaks a constraint.
    Constraint(String),
    /// The backend failed for any other reason; the message is the backend's own.
    Backend(String),
    /// The backend answered with rows that cannot be an order or an item.
    Integrity,
    /// The cache capacity is not a positive number.
    Config,
}

/// The mathematical value of a [`StoreError`].
pub enum StoreErrorView {
    NotFound,
    Constraint(Seq<char>),
    Backend(Seq<char>),
    Integrity,
    Config,
}

impl View for StoreError {
    type V = StoreErrorView;

    open spec fn view(&self) -> StoreErrorView {
        match self {
            StoreError::NotFound => StoreErrorView::NotFound,
            StoreError::Constraint(m) => StoreErrorView::Constraint(m@),
            StoreError::Backend(m) => StoreErrorView::Backend(m@),
            StoreError::Integrity => StoreErrorView::Integrity,
            StoreError::Config => StoreErrorView::Config,
        }
    }
}

impl StoreError {
    /// True for the one error that says the order does not exist.
    pub fn is_not_found(&self) -> (r: bool)
        ensures
            r == (self@ == StoreErrorView::NotFound),
    {
        match self {
            StoreError::NotFound => true,
            _ => false,
        }
    }

    /// A human-readable message for the failure.
    pub fn message(&self) -> (r: String)
        ensures
            r@ == message_of(self@),
    {
        match self {
            StoreError::NotFound => String::from_str("order not found"),
            StoreError::Constraint(m) => m.clone(),
            StoreError::Backend(m) => m.clone(),
            StoreError::Integrity => String::from_str("backend returned an unexpected row"),
            StoreError::Config => String::from_str("invalid cache size"),
        }
    }
}

/// Whether a five-character status code of the backend belongs to the
/// class of constraint violations, whose codes begin with `23`.
pub open spec fn is_constraint_code(code: Seq<char>) -> bool {
    code.len() == 5 && code[0] == '2' && code[1] == '3'
}

/// The failure that stands for an error of the backend.
pub open spec fn backend_failure_of(code: Seq<char>, message: Seq<char>) -> StoreErrorView {
    if is_constraint_code(code) {
        StoreErrorView::Constraint(message)
    } else {
        StoreErrorView::Backend(message)
    }
}

/// Turns an error of the backend into a failure of the store. `code` is the
/// status code that came with the error, or empty where none came; the
/// message is kept as it is.
pub fn backend_failure(code: &str, message: String) -> (e: StoreError)
    ensures
        e@ == backend_failure_of(code@, message@),
{
    if code.unicode_len() == 5 && code.get_char(0) == '2' && code.get_char(1) == '3' {
        StoreError::Constraint(message)
    } else {
        StoreError::Backend(message)
    }
}

/// The message that belongs to each failure.
pub open spec fn message_of(e: StoreErrorView) -> Seq<char> {
    match e {
        StoreErrorView::NotFound => "order not found"@,
        StoreErrorView::Constraint(m) => m,
        StoreErrorView::Backend(m) => m,
        StoreErrorView::Integrity => "backend returned an unexpected row"@,
        StoreErrorView::Config => "invalid cache size"@,
    }
}

} // verus!
