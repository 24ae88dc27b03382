//! The ways a lookup can end without a page.

use vstd::prelude::*;

verus! {

/// The lookup that came back empty.
#[derive(Clone, Copy, Debug, PartialEq, Eq, Structural)]
pub enum Missing {
    /// No provider of the given name under the namespace.
    Provider,
    /// The provider has no published version.
    Version,
    /// The version documents no resource of the given slug.
    Resource,
}

/// Why a lookup failed. Every failure is final: nothing is retried.
#[derive(Debug, PartialEq, Eq)]
pub enum LookupError {
    /// The identifier holds no underscore.
    Parse,
    /// A registry collection was empty.
    NotFound(Missing),
    /// The transport failed, the status was not a success, or the body did
    /// not decode into the expected shape.
    Fetch { cause: String },
    /// A request did not complete in time.
    Timeout,
}

/// Mathematical model of [`LookupError`].
pub enum LookupErrorView {
    Parse,
    NotFound(Missing),
    Fetch { cause: Seq<char> },
    Timeout,
}

impl View for LookupError {
    type V = LookupErrorView;

    open spec fn view(&self) -> LookupErrorView {
        match self {
            LookupError::Parse => LookupErrorView::Parse,
            LookupError::NotFound(what) => LookupErrorView::NotFound(*what),
            LookupError::Fetch { cause } => LookupErrorView::Fetch { cause: cause@ },
            LookupError::Timeout => LookupErrorView::Timeout,
        }
    }
}

impl LookupErrorView {
    /// The text shown to the user for this error.
    pub open spec fn message(self) -> Seq<char> {
        match self {
            LookupErrorView::Parse => "provider not found"@,
            LookupErrorView::NotFound(Missing::Provider) => "provider not found"@,
            LookupErrorView::NotFound(Missing::Version) => "no version found"@,
            LookupErrorView::NotFound(Missing::Resource) => "resource not found"@,
            LookupErrorView::Fetch { cause } => cause,
            LookupErrorView::Timeout => "request timed out"@,
        }
    }
}

/// Model of a result of this library: the model of the value, or of the
/// error.
pub open spec fn outcome<T: View>(result: Result<T, LookupError>) -> Result<T::V, LookupErrorView> {
    match result {
        Ok(value) => Ok(value@),
        Err(e) => Err(e@),
    }
}

impl Clone for LookupError {
    fn clone(&self) -> (copy: LookupError)
        ensures
            copy == *self,
    {
        match self {
            LookupError::Parse => LookupError::Parse,
            LookupError::NotFound(what) => LookupError::NotFound(*what),
            LookupError::Fetch { cause } => LookupError::Fetch { cause: cause.clone() },
            LookupError::Timeout => LookupError::Timeout,
        }
    }
}

impl LookupError {
    /// The text shown to the user for this error.
    pub fn message(&self) -> (text: String)
        ensures
            text@ == self@.message(),
    {
        match self {
            LookupError::Parse => "provider not found".to_owned(),
            LookupError::NotFound(Missing::Provider) => "provider not found".to_owned(),
            LookupError::NotFound(Missing::Version) => "no version found".to_owned(),
            LookupError::NotFound(Missing::Resource) => "resource not found".to_owned(),
            LookupError::Fetch { cause } => cause.clone(),
            LookupError::Timeout => "request timed out".to_owned(),
        }
    }
}

} // verus!
