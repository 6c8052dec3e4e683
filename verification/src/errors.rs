//! The caller-facing error classes around the core: persistence faults are
//! a class of their own and are never retried by the core.

use vstd::prelude::*;

verus! {

/// A fault of the persistence collaborator.
#[derive(Clone, Copy, PartialEq, Eq, Structural, Debug)]
pub enum RepositoryError {
    /// An update matched nothing, so no data was changed.
    NoRowsAffected,
}

/// What an upload's caller can be told went wrong.
#[derive(Clone, PartialEq, Debug)]
pub enum DescriptiveError {
    Unauthorized,
    Forbidden(String),
    NotFound { resource: String },
    RepositoryError(RepositoryError),
    ReportProcessingError(crate::report::ReportProcessingError),
}

#[verifier::ext_equal]
pub enum DescriptiveErrorV {
    Unauthorized,
    Forbidden(Seq<char>),
    NotFound { resource: Seq<char> },
    RepositoryError(RepositoryError),
    ReportProcessingError(crate::report::ReportProcessingErrorV),
}

impl View for DescriptiveError {
    type V = DescriptiveErrorV;

    open spec fn view(&self) -> DescriptiveErrorV {
        match self {
            DescriptiveError::Unauthorized => DescriptiveErrorV::Unauthorized,
            DescriptiveError::Forbidden(s) => DescriptiveErrorV::Forbidden(s@),
            DescriptiveError::NotFound { resource } => DescriptiveErrorV::NotFound {
                resource: resource@,
            },
            DescriptiveError::RepositoryError(e) => DescriptiveErrorV::RepositoryError(*e),
            DescriptiveError::ReportProcessingError(e)
                => DescriptiveErrorV::ReportProcessingError(e@),
        }
    }
}

} // verus!
