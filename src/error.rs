//! The closed set of failures surfaced to callers.
use vstd::prelude::*;

verus! {

/// A failure of an operation of this library.
#[derive(Debug, Clone, PartialEq, Eq)]
pub enum AgeError {
    /// A stated precondition was violated (hierarchy, length, policy).
    InvalidOperation { operation: String, reason: String },
    /// Wrong passphrase or corrupt ciphertext.
    AuthenticationFailed,
    /// The underlying Age primitive is missing or non-functional.
    CipherUnavailable,
    /// The security validator refused an input; `rule` names the rule that fired.
    SecurityViolation { rule: String },
    /// A filesystem fault.
    IoError { path: String, kind: String },
    /// An invariant of the library was found broken.
    InternalError { detail: String },
}

/// Result type of the library's fallible operations.
pub type AgeResult<T> = Result<T, AgeError>;

impl AgeError {
    pub open spec fn is_invalid_operation(&self) -> bool {
        self is InvalidOperation
    }

    /// An `InvalidOperation` refusal made by the named operation.
    pub open spec fn is_refusal_by(&self, op: Seq<char>) -> bool {
        match self {
            AgeError::InvalidOperation { operation, .. } => operation@ == op,
            _ => false,
        }
    }

    /// An `InvalidOperation` refusal made by the named operation for the given reason.
    pub open spec fn is_refusal(&self, op: Seq<char>, why: Seq<char>) -> bool {
        match self {
            AgeError::InvalidOperation { operation, reason } => operation@ == op && reason@ == why,
            _ => false,
        }
    }

    pub open spec fn is_security_violation(&self, rule: Seq<char>) -> bool {
        match self {
            AgeError::SecurityViolation { rule: r } => r@ == rule,
            _ => false,
        }
    }
}

} // verus!
