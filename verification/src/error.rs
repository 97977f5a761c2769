//! The error taxonomy of the library.
//!
//! Every failure a component reports is normalized into one of these forms,
//! each carrying a human-readable message. Delivery failures inside the
//! subscriber registry are recovered internally and never reach this type.

use vstd::prelude::*;

verus! {

/// A normalized failure.
#[derive(Clone, Debug, PartialEq)]
pub enum HarTexError {
    /// A required piece of configuration (for example a credential) was absent.
    ConfigurationMissing { message: String },
    /// A connection to a remote collaborator could not be established.
    ConnectionFailure { message: String },
    /// A remote operation was issued and failed.
    RemoteOperationFailure { message: String },
    /// A handler failed; the message is propagated to the dispatcher's caller
    /// unchanged.
    HandlerFailure { message: String },
    /// An envelope variant that no handler recognizes. Dispatch absorbs this
    /// case silently, so the dispatcher never returns it.
    UnrecognizedVariant { message: String },
}

/// The result type used throughout the library.
pub type HarTexResult<T> = Result<T, HarTexError>;

impl HarTexError {
    /// The human-readable message the failure carries.
    pub open spec fn spec_message(&self) -> Seq<char> {
        match self {
            HarTexError::ConfigurationMissing { message } => message@,
            HarTexError::ConnectionFailure { message } => message@,
            HarTexError::RemoteOperationFailure { message } => message@,
            HarTexError::HandlerFailure { message } => message@,
            HarTexError::UnrecognizedVariant { message } => message@,
        }
    }

    /// Returns the message carried by the failure.
    pub fn message(&self) -> (m: &String)
        ensures
            m@ == self.spec_message(),
    {
        match self {
            HarTexError::ConfigurationMissing { message } => message,
            HarTexError::ConnectionFailure { message } => message,
            HarTexError::RemoteOperationFailure { message } => message,
            HarTexError::HandlerFailure { message } => message,
            HarTexError::UnrecognizedVariant { message } => message,
        }
    }
}

} // verus!
