use vstd::prelude::*;
use crate::metadata::MetadataVariant;

verus! {

/// The closed error taxonomy of a verification attempt. The first six kinds
/// come back from the verify-candidate capability; the last two are raised
/// while resolving the bytecode deployed at the requested address.
#[derive(Debug, Clone, PartialEq, Eq)]
pub enum VerificationError {
    /// The source failed to compile under the attempted settings.
    Compilation(Vec<String>),
    /// Everything compiled, but no declared contract's bytecode equals the
    /// deployed bytecode. The only non-fatal kind: the search goes on.
    NoMatchingContracts,
    /// The declared compiler release and the produced bytecode disagree on
    /// structural markers.
    CompilerVersionMismatch(String),
    /// The verifier or compiler invocation could not be set up.
    Initialization(String),
    /// The requested compiler release is not in the toolchain catalogue.
    VersionNotFound(String),
    /// A failure not attributable to the request itself.
    Internal(String),
    /// Nothing is deployed at the requested address.
    NoDeployedCode,
    /// The network capability itself failed; transient and retryable.
    ResolverUnavailable(String),
}

/// A verified match: the contract, the settings that reproduced the
/// deployed bytecode — the metadata variant among them — and the artifacts
/// the compilation yielded.
#[derive(Debug, Clone, PartialEq, Eq)]
pub struct VerificationSuccess {
    pub file_path: String,
    pub contract_name: String,
    pub abi: String,
    pub bytecode: Vec<u8>,
    pub metadata_variant: MetadataVariant,
}

/// The one outcome after which the search tries the next variant.
pub open spec fn non_fatal(e: VerificationError) -> bool {
    e is NoMatchingContracts
}

/// Whether an attempt's outcome lets the search continue: only a clean
/// compile that merely matched no contract does.
pub open spec fn continues(o: Result<VerificationSuccess, VerificationError>) -> bool {
    o matches Err(e) && non_fatal(e)
}

/// Classifies one attempt's outcome: a match or a hard failure halt the
/// whole search, a mere "no matching contracts" sends it onward.
pub fn halts_search(outcome: &Result<VerificationSuccess, VerificationError>) -> (r: bool)
    ensures
        r == !continues(*outcome),
{
    match outcome {
        Err(VerificationError::NoMatchingContracts) => false,
        _ => true,
    }
}

/// How a caller should present an error.
#[derive(Debug, Clone, Copy, PartialEq, Eq, Structural)]
pub enum ErrorClass {
    /// The submitted input was wrong, and the error says why.
    UserFacing,
    /// Verification could not be attempted; the client can act on it.
    ClientActionable,
    /// A server-side failure, never user-actionable.
    ServerSide,
    /// A transient condition; the whole request may be retried.
    Retryable,
}

pub open spec fn error_class_spec(e: VerificationError) -> ErrorClass {
    match e {
        VerificationError::Compilation(_) => ErrorClass::UserFacing,
        VerificationError::NoMatchingContracts => ErrorClass::UserFacing,
        VerificationError::CompilerVersionMismatch(_) => ErrorClass::UserFacing,
        VerificationError::Initialization(_) => ErrorClass::ClientActionable,
        VerificationError::VersionNotFound(_) => ErrorClass::ClientActionable,
        VerificationError::Internal(_) => ErrorClass::ServerSide,
        VerificationError::NoDeployedCode => ErrorClass::ClientActionable,
        VerificationError::ResolverUnavailable(_) => ErrorClass::Retryable,
    }
}

/// Sorts each error kind into the class a caller should report it under.
pub fn classify_error(e: &VerificationError) -> (r: ErrorClass)
    ensures
        r == error_class_spec(*e),
{
    match e {
        VerificationError::Compilation(_) => ErrorClass::UserFacing,
        VerificationError::NoMatchingContracts => ErrorClass::UserFacing,
        VerificationError::CompilerVersionMismatch(_) => ErrorClass::UserFacing,
        VerificationError::Initialization(_) => ErrorClass::ClientActionable,
        VerificationError::VersionNotFound(_) => ErrorClass::ClientActionable,
        VerificationError::Internal(_) => ErrorClass::ServerSide,
        VerificationError::NoDeployedCode => ErrorClass::ClientActionable,
        VerificationError::ResolverUnavailable(_) => ErrorClass::Retryable,
    }
}

} // verus!
