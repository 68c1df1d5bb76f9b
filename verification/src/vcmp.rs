//! Assertions that users may request verifiable credentials for, and the
//! errors of identity management (IMP) and credential requests (VCMP).
use vstd::prelude::*;
use crate::identity::Web3Network;

verus! {

/// The kinds of assertion, with their parameters.
#[derive(Clone, Debug)]
pub enum Assertion {
    A1,
    /// Guild id.
    A2(Vec<u8>),
    /// Guild id, channel id, role id.
    A3(Vec<u8>, Vec<u8>, Vec<u8>),
    /// Minimum amount.
    A4(Vec<u8>),
    /// Original tweet id.
    A5(Vec<u8>),
    A6,
    /// Minimum amount.
    A7(Vec<u8>),
    /// Networks.
    A8(Vec<Web3Network>),
    A9,
    /// Minimum amount.
    A10(Vec<u8>),
    /// Minimum amount.
    A11(Vec<u8>),
    /// Target twitter screen name.
    A12(Vec<u8>),
    /// Participant account.
    A13([u8; 32]),
    A14,
    /// Encoded parameters of an Achainable assertion.
    Achainable(Vec<u8>),
}

/// Why a request failed.
#[derive(Clone, Debug)]
pub enum ErrorDetail {
    ImportError,
    UnauthorizedSigner,
    /// An error inside the STF, as text.
    StfError(Vec<u8>),
    SendStfRequestFailed,
    ParseError,
    /// An error of a data provider, as text.
    DataProviderError(Vec<u8>),
    InvalidIdentity,
    WrongWeb2Handle,
    UnexpectedMessage,
    WrongSignatureType,
    VerifySubstrateSignatureFailed,
    VerifyEvmSignatureFailed,
    RecoverEvmAddressFailed,
}

/// Errors of identity management.
#[derive(Clone, Debug)]
pub enum IMPError {
    SetUserShieldingKeyFailed(ErrorDetail),
    LinkIdentityFailed(ErrorDetail),
    DeactivateIdentityFailed(ErrorDetail),
    ActivateIdentityFailed(ErrorDetail),
    ImportScheduledEnclaveFailed,
    UnclassifiedError(ErrorDetail),
}

/// Errors of credential requests.
#[derive(Clone, Debug)]
pub enum VCMPError {
    RequestVCFailed(Assertion, ErrorDetail),
    UnclassifiedError(ErrorDetail),
}

} // verus!
