//! Errors of executing the calls that the parentchain forwards to the worker
//! (indirect calls).
use vstd::prelude::*;
use crate::executor;
use crate::vcmp::{IMPError, VCMPError};
use parity_scale_codec::Error as CodecError;

verus! {

/// An SGX status code.
#[derive(Clone, Copy, Debug, PartialEq, Eq, Structural)]
pub struct SgxStatus(pub u32);

/// Indirect calls execution error.
#[derive(Debug)]
pub enum Error {
    /// An SGX error, with its status.
    Sgx(SgxStatus),
    /// An error of the STF executor.
    StfExecution(executor::Error),
    /// An error of the node metadata, as text.
    NodeMetadata(String),
    /// An error of the node metadata provider, as text.
    NodeMetadataProvider(String),
    /// A cryptographic error, as text.
    Crypto(String),
    /// Any other error, as text.
    Other(String),
    AccountIdLookup,
    ConvertParentchainBlockNumber,
    IMPHandlingError(IMPError),
    VCMPHandlingError(VCMPError),
    BatchAllHandlingError,
    /// An error of importing a scheduled enclave, as text.
    ImportScheduledEnclave(String),
}

#[verifier::external_type_specification]
#[verifier::external_body]
pub struct ExCodecError(CodecError);

/// The `Debug` text of a codec error (a function of the error alone).
pub uninterp spec fn spec_codec_error_text(e: CodecError) -> Seq<char>;

/// `Debug` text of a codec error (`format!("{:?}", e)`).
#[verifier::external_body]
fn codec_error_text(e: &CodecError) -> (s: String)
    ensures
        s@ == spec_codec_error_text(*e),
{
    format!("{:?}", e)
}

impl From<SgxStatus> for Error {
    fn from(sgx_status: SgxStatus) -> (r: Error) {
        Error::Sgx(sgx_status)
    }
}

impl vstd::std_specs::convert::FromSpecImpl<SgxStatus> for Error {
    open spec fn obeys_from_spec() -> bool {
        true
    }

    open spec fn from_spec(v: SgxStatus) -> Error {
        Error::Sgx(v)
    }
}

impl From<executor::Error> for Error {
    fn from(e: executor::Error) -> (r: Error) {
        Error::StfExecution(e)
    }
}

impl vstd::std_specs::convert::FromSpecImpl<executor::Error> for Error {
    open spec fn obeys_from_spec() -> bool {
        true
    }

    open spec fn from_spec(v: executor::Error) -> Error {
        Error::StfExecution(v)
    }
}

impl From<IMPError> for Error {
    fn from(e: IMPError) -> (r: Error) {
        Error::IMPHandlingError(e)
    }
}

impl vstd::std_specs::convert::FromSpecImpl<IMPError> for Error {
    open spec fn obeys_from_spec() -> bool {
        true
    }

    open spec fn from_spec(v: IMPError) -> Error {
        Error::IMPHandlingError(v)
    }
}

impl From<VCMPError> for Error {
    fn from(e: VCMPError) -> (r: Error) {
        Error::VCMPHandlingError(e)
    }
}

impl vstd::std_specs::convert::FromSpecImpl<VCMPError> for Error {
    open spec fn obeys_from_spec() -> bool {
        true
    }

    open spec fn from_spec(v: VCMPError) -> Error {
        Error::VCMPHandlingError(v)
    }
}

impl Error {
    /// A codec error becomes `Other` with its `Debug` text.
    pub fn from_codec(e: &CodecError) -> (r: Error)
        ensures
            r matches Error::Other(t) && t@ == spec_codec_error_text(*e),
    {
        Error::Other(codec_error_text(e))
    }
}

} // verus!
