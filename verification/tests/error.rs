use parity_scale_codec::Decode;
use tee_worker::error::{Error, SgxStatus};
use tee_worker::executor;
use tee_worker::vcmp::{ErrorDetail, IMPError, VCMPError};

#[test]
fn errors_convert_into_their_variant() {
    assert!(matches!(Error::from(SgxStatus(1)), Error::Sgx(SgxStatus(1))));
    assert!(matches!(Error::from(executor::Error::Codec), Error::StfExecution(executor::Error::Codec)));
    assert!(matches!(Error::from(IMPError::UnclassifiedError(ErrorDetail::ParseError)), Error::IMPHandlingError(_)));
    assert!(matches!(Error::from(VCMPError::UnclassifiedError(ErrorDetail::ParseError)), Error::VCMPHandlingError(_)));
}

#[test]
fn codec_errors_keep_their_text() {
    let e = <u32 as Decode>::decode(&mut &[1u8][..]).unwrap_err();
    match Error::from_codec(&e) {
        Error::Other(text) => assert!(!text.is_empty()),
        other => panic!("unexpected {:?}", other),
    }
}
