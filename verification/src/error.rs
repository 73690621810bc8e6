use vstd::prelude::*;

use crate::text::push_str;

verus! {

/// Rule violations detected by the application services.
#[derive(Debug, Clone, PartialEq, Eq)]
pub enum DomainError {
    NotFound { entity: &'static str, id: String },
    AlreadyExists { entity: &'static str, id: String },
    Validation { field: &'static str, reason: String },
    InvalidState { entity: &'static str, reason: String },
}

/// The human-readable message of an error.
pub open spec fn domain_error_message(e: DomainError) -> Seq<char> {
    match e {
        DomainError::NotFound { entity, id } => entity@ + " not found: "@ + id@,
        DomainError::AlreadyExists { entity, id } => entity@ + " already exists: "@ + id@,
        DomainError::Validation { field, reason } => "validation failed for "@ + field@ + ": "@
            + reason@,
        DomainError::InvalidState { entity, reason } => "invalid state for "@ + entity@ + ": "@
            + reason@,
    }
}

impl DomainError {
    /// The human-readable message (what `Display` prints).
    pub fn to_string(&self) -> (s: String)
        ensures
            s@ == domain_error_message(*self),
    {
        let mut s = String::new();
        match self {
            DomainError::NotFound { entity, id } => {
                push_str(&mut s, entity);
                push_str(&mut s, " not found: ");
                push_str(&mut s, id.as_str());
            },
            DomainError::AlreadyExists { entity, id } => {
                push_str(&mut s, entity);
                push_str(&mut s, " already exists: ");
                push_str(&mut s, id.as_str());
            },
            DomainError::Validation { field, reason } => {
                push_str(&mut s, "validation failed for ");
                push_str(&mut s, field);
                push_str(&mut s, ": ");
                push_str(&mut s, reason.as_str());
            },
            DomainError::InvalidState { entity, reason } => {
                push_str(&mut s, "invalid state for ");
                push_str(&mut s, entity);
                push_str(&mut s, ": ");
                push_str(&mut s, reason.as_str());
            },
        }
        assert(s@ =~= domain_error_message(*self));
        s
    }
}

} // verus!

verus! {

/// `DomainError` with its strings taken as character sequences.
pub enum DomainErrorView {
    NotFound { entity: Seq<char>, id: Seq<char> },
    AlreadyExists { entity: Seq<char>, id: Seq<char> },
    Validation { field: Seq<char>, reason: Seq<char> },
    InvalidState { entity: Seq<char>, reason: Seq<char> },
}

impl View for DomainError {
    type V = DomainErrorView;

    open spec fn view(&self) -> DomainErrorView {
        match self {
            DomainError::NotFound { entity, id } => DomainErrorView::NotFound {
                entity: entity@,
                id: id@,
            },
            DomainError::AlreadyExists { entity, id } => DomainErrorView::AlreadyExists {
                entity: entity@,
                id: id@,
            },
            DomainError::Validation { field, reason } => DomainErrorView::Validation {
                field: field@,
                reason: reason@,
            },
            DomainError::InvalidState { entity, reason } => DomainErrorView::InvalidState {
                entity: entity@,
                reason: reason@,
            },
        }
    }
}

} // verus!
