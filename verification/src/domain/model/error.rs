//! Failures of the domain layer.

use vstd::prelude::*;
use vstd::std_specs::convert::FromSpecImpl;

verus! {

/// Why something could not be created.
#[derive(Debug)]
pub enum CreateError {
    InvalidData(String),
    Unknown(String),
    Conflict(String),
}

/// A failure to create, as mathematical values.
pub enum CreateErrorView {
    InvalidData(Seq<char>),
    Unknown(Seq<char>),
    Conflict(Seq<char>),
}

impl View for CreateError {
    type V = CreateErrorView;

    open spec fn view(&self) -> CreateErrorView {
        match *self {
            CreateError::InvalidData(detail) => CreateErrorView::InvalidData(detail@),
            CreateError::Unknown(detail) => CreateErrorView::Unknown(detail@),
            CreateError::Conflict(detail) => CreateErrorView::Conflict(detail@),
        }
    }
}

impl CreateError {
    /// The data was not valid; `msg` says why.
    pub fn invalid(msg: &str) -> (r: CreateError)
        ensures
            r@ == CreateErrorView::InvalidData(msg@),
    {
        CreateError::InvalidData(msg.to_string())
    }
}

impl From<&str> for CreateError {
    fn from(msg: &str) -> (r: CreateError)
        ensures
            r@ == CreateErrorView::InvalidData(msg@),
    {
        CreateError::InvalidData(msg.to_string())
    }
}

impl FromSpecImpl<&str> for CreateError {
    open spec fn obeys_from_spec() -> bool {
        false
    }

    open spec fn from_spec(msg: &str) -> CreateError {
        arbitrary()
    }
}

/// What went wrong in an operation of the domain: saving or deleting.
#[derive(Debug)]
pub enum DomainError {
    SaveError(String),
    DeleteError(String),
}

/// A failure of the domain, as mathematical values.
pub enum DomainErrorView {
    SaveError(Seq<char>),
    DeleteError(Seq<char>),
}

impl DomainErrorView {
    /// The text that describes the failure.
    pub open spec fn display(self) -> Seq<char> {
        match self {
            DomainErrorView::DeleteError(detail) => "Item delete error:"@ + detail,
            DomainErrorView::SaveError(detail) => "Item save error:"@ + detail,
        }
    }
}

impl View for DomainError {
    type V = DomainErrorView;

    open spec fn view(&self) -> DomainErrorView {
        match *self {
            DomainError::SaveError(detail) => DomainErrorView::SaveError(detail@),
            DomainError::DeleteError(detail) => DomainErrorView::DeleteError(detail@),
        }
    }
}

impl DomainError {
    /// Saving failed; `msg` says why.
    pub fn save(msg: &str) -> (r: DomainError)
        ensures
            r@ == DomainErrorView::SaveError(msg@),
    {
        DomainError::SaveError(msg.to_string())
    }

    /// Deleting failed; `msg` says why.
    pub fn delete(msg: &str) -> (r: DomainError)
        ensures
            r@ == DomainErrorView::DeleteError(msg@),
    {
        DomainError::DeleteError(msg.to_string())
    }

    /// The text that describes the failure.
    pub fn to_string(&self) -> (text: String)
        ensures
            text@ == self@.display(),
    {
        match self {
            DomainError::DeleteError(detail) => "Item delete error:".to_string().concat(
                detail.as_str(),
            ),
            DomainError::SaveError(detail) => "Item save error:".to_string().concat(
                detail.as_str(),
            ),
        }
    }
}

} // verus!
