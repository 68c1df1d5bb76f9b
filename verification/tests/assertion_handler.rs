use tee_worker::assertion_handler::{
    builder_for, on_failure, on_success, truncate_error_string, AssertionBuildRequest, Builder, Step,
    VcCallback, VcProcess, MAX_ERROR_STRING_LEN,
};
use tee_worker::identity::Identity;
use tee_worker::vcmp::{Assertion, ErrorDetail, VCMPError};

fn request(assertion: Assertion) -> AssertionBuildRequest {
    AssertionBuildRequest {
        shard: [1u8; 32],
        who: Identity::Substrate([2u8; 32]),
        assertion,
        top_hash: [3u8; 32],
        req_ext_hash: [4u8; 32],
    }
}

#[test]
fn every_supported_assertion_has_its_builder() {
    assert_eq!(builder_for(&Assertion::A1), Some(Builder::A1));
    assert_eq!(builder_for(&Assertion::A4(b"10".to_vec())), Some(Builder::A4));
    assert_eq!(builder_for(&Assertion::A8(Vec::new())), Some(Builder::A8));
    assert_eq!(builder_for(&Assertion::A13([0u8; 32])), Some(Builder::A13));
    assert_eq!(builder_for(&Assertion::Achainable(vec![1])), Some(Builder::Achainable));
    assert_eq!(builder_for(&Assertion::A5(Vec::new())), None);
    assert_eq!(builder_for(&Assertion::A9), None);
    assert_eq!(builder_for(&Assertion::A12(Vec::new())), None);
}

#[test]
fn steps_run_in_order_and_end_with_the_hashed_json() {
    let mut p = VcProcess::start(Assertion::A6);
    assert_eq!(p.builder(), Builder::A6);
    let mut seen = vec![p.current_step()];
    while p.current_step() != Step::ToJson {
        p.step_done();
        seen.push(p.current_step());
    }
    assert_eq!(
        seen,
        vec![Step::Build, Step::GetEnclaveAccount, Step::DeriveIssuerDid, Step::Sign, Step::Validate, Step::GetIndex, Step::ToJson]
    );
    let json = r#"{"id":"vc"}"#.to_string();
    let (index, hash, payload) = p.finish([7u8; 32], &json);
    assert_eq!(index, [7u8; 32]);
    assert_eq!(hash, sp_core::hashing::blake2_256(json.as_bytes()));
    assert_eq!(payload, json.as_bytes().to_vec());
}

#[test]
fn a_failed_step_becomes_a_request_error_with_its_text() {
    let mut p = VcProcess::start(Assertion::A4(b"5".to_vec()));
    p.step_done();
    match p.step_failed(b"no account") {
        VCMPError::RequestVCFailed(Assertion::A4(m), ErrorDetail::StfError(t)) => {
            assert_eq!(m, b"5".to_vec());
            assert_eq!(t, b"no account".to_vec());
        },
        e => panic!("unexpected {:?}", e),
    }
}

#[test]
fn a_failed_json_step_is_a_parse_error() {
    let mut p = VcProcess::start(Assertion::A1);
    while p.current_step() != Step::ToJson {
        p.step_done();
    }
    assert!(matches!(p.step_failed(b"bad"), VCMPError::RequestVCFailed(Assertion::A1, ErrorDetail::ParseError)));
}

#[test]
fn error_texts_are_truncated() {
    let long = vec![b'x'; 150];
    assert_eq!(truncate_error_string(&long).len(), MAX_ERROR_STRING_LEN);
    assert_eq!(truncate_error_string(b"short"), b"short".to_vec());
}

#[test]
fn success_reports_the_credential_when_the_enclave_account_is_known() {
    let r = on_success(request(Assertion::A1), Some([9u8; 32]), ([1u8; 32], [2u8; 32], vec![3]));
    match r {
        Some(VcCallback::RequestVcCallback { signer, vc_index, vc_hash, vc_payload, req_ext_hash, .. }) => {
            assert_eq!(signer, [9u8; 32]);
            assert_eq!(vc_index, [1u8; 32]);
            assert_eq!(vc_hash, [2u8; 32]);
            assert_eq!(vc_payload, vec![3]);
            assert_eq!(req_ext_hash, [4u8; 32]);
        },
        other => panic!("unexpected {:?}", other),
    }
    assert!(on_success(request(Assertion::A1), None, ([1u8; 32], [2u8; 32], vec![3])).is_none());
}

#[test]
fn failure_reports_the_error_for_the_requester() {
    let err = VCMPError::UnclassifiedError(ErrorDetail::ParseError);
    match on_failure(request(Assertion::A6), Some([9u8; 32]), err) {
        Some(VcCallback::HandleVcmpError { signer, who: Some(Identity::Substrate(w)), error: VCMPError::UnclassifiedError(ErrorDetail::ParseError), req_ext_hash }) => {
            assert_eq!(signer, [9u8; 32]);
            assert_eq!(w, [2u8; 32]);
            assert_eq!(req_ext_hash, [4u8; 32]);
        },
        other => panic!("unexpected {:?}", other),
    }
    assert!(on_failure(request(Assertion::A6), None, VCMPError::UnclassifiedError(ErrorDetail::ImportError)).is_none());
}

#[test]
fn a_failed_build_ends_the_request_with_the_builders_error() {
    let p = VcProcess::start(Assertion::A4(b"1".to_vec()));
    let e = p.build_failed(VCMPError::RequestVCFailed(Assertion::A4(b"1".to_vec()), ErrorDetail::DataProviderError(b"down".to_vec())));
    match e {
        VCMPError::RequestVCFailed(Assertion::A4(m), ErrorDetail::DataProviderError(t)) => {
            assert_eq!(m, b"1".to_vec());
            assert_eq!(t, b"down".to_vec());
        },
        other => panic!("unexpected {:?}", other),
    }
}
