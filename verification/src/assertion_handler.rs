//! Handling a request for a verifiable credential: build the credential of
//! the requested assertion, have the enclave issue and sign it, and report
//! the result (or the error) back to the parentchain.
//!
//! The steps are performed by the enclave's credential and signing
//! services; this module decides the order of the steps, the error that a
//! failed step becomes, and what is reported at the end.
use vstd::prelude::*;
use crate::hashing::{blake2_256, spec_blake2_256};
use crate::identity::{AccountId, Identity};
use crate::vcmp::{Assertion, ErrorDetail, VCMPError};
use crate::state::slice_to_vec;
use crate::executor::H256;

verus! {

/// The longest error text that a request error carries.
pub const MAX_ERROR_STRING_LEN: usize = 100;

/// A request to build the credential of an assertion.
#[derive(Clone, Debug)]
pub struct AssertionBuildRequest {
    pub shard: H256,
    pub who: Identity,
    pub assertion: Assertion,
    pub top_hash: H256,
    pub req_ext_hash: H256,
}

/// The credential builders.
#[derive(Clone, Copy, Debug, PartialEq, Eq, Structural)]
pub enum Builder {
    A1,
    A2,
    A3,
    A4,
    A6,
    A7,
    A8,
    A10,
    A11,
    A13,
    A14,
    Achainable,
}

/// The builder of an assertion; A5, A9 and A12 have none.
pub open spec fn spec_builder_for(a: Assertion) -> Option<Builder> {
    match a {
        Assertion::A1 => Some(Builder::A1),
        Assertion::A2(_) => Some(Builder::A2),
        Assertion::A3(_, _, _) => Some(Builder::A3),
        Assertion::A4(_) => Some(Builder::A4),
        Assertion::A6 => Some(Builder::A6),
        Assertion::A7(_) => Some(Builder::A7),
        Assertion::A8(_) => Some(Builder::A8),
        Assertion::A10(_) => Some(Builder::A10),
        Assertion::A11(_) => Some(Builder::A11),
        Assertion::A13(_) => Some(Builder::A13),
        Assertion::A14 => Some(Builder::A14),
        Assertion::Achainable(_) => Some(Builder::Achainable),
        _ => None,
    }
}

/// The builder of an assertion, if it has one.
pub fn builder_for(a: &Assertion) -> (b: Option<Builder>)
    ensures
        b == spec_builder_for(*a),
{
    match a {
        Assertion::A1 => Some(Builder::A1),
        Assertion::A2(_) => Some(Builder::A2),
        Assertion::A3(_, _, _) => Some(Builder::A3),
        Assertion::A4(_) => Some(Builder::A4),
        Assertion::A6 => Some(Builder::A6),
        Assertion::A7(_) => Some(Builder::A7),
        Assertion::A8(_) => Some(Builder::A8),
        Assertion::A10(_) => Some(Builder::A10),
        Assertion::A11(_) => Some(Builder::A11),
        Assertion::A13(_) => Some(Builder::A13),
        Assertion::A14 => Some(Builder::A14),
        Assertion::Achainable(_) => Some(Builder::Achainable),
        _ => None,
    }
}

/// The number in an assertion's name (A1 is 1, ...); 0 for the Achainable
/// assertions.
pub open spec fn assertion_number(a: Assertion) -> nat {
    match a {
        Assertion::A1 => 1,
        Assertion::A2(_) => 2,
        Assertion::A3(_, _, _) => 3,
        Assertion::A4(_) => 4,
        Assertion::A5(_) => 5,
        Assertion::A6 => 6,
        Assertion::A7(_) => 7,
        Assertion::A8(_) => 8,
        Assertion::A9 => 9,
        Assertion::A10(_) => 10,
        Assertion::A11(_) => 11,
        Assertion::A12(_) => 12,
        Assertion::A13(_) => 13,
        Assertion::A14 => 14,
        Assertion::Achainable(_) => 0,
    }
}

/// The number in a builder's name; 0 for the Achainable builder.
pub open spec fn builder_number(b: Builder) -> nat {
    match b {
        Builder::A1 => 1,
        Builder::A2 => 2,
        Builder::A3 => 3,
        Builder::A4 => 4,
        Builder::A6 => 6,
        Builder::A7 => 7,
        Builder::A8 => 8,
        Builder::A10 => 10,
        Builder::A11 => 11,
        Builder::A13 => 13,
        Builder::A14 => 14,
        Builder::Achainable => 0,
    }
}

/// Law: every assertion but A5, A9 and A12 is built, and by the builder
/// that bears its name; so two assertions share a builder exactly when they
/// are of the same kind.
pub proof fn lemma_each_assertion_has_its_own_builder(a: Assertion, b: Assertion)
    ensures
        spec_builder_for(a) is None <==> (assertion_number(a) == 5 || assertion_number(a) == 9 || assertion_number(a) == 12),
        spec_builder_for(a) matches Some(k) ==> builder_number(k) == assertion_number(a),
        (spec_builder_for(a) is Some && spec_builder_for(a) == spec_builder_for(b))
            ==> assertion_number(a) == assertion_number(b),
{
}

/// The steps after building the credential, in order.
#[derive(Clone, Copy, Debug, PartialEq, Eq, Structural)]
pub enum Step {
    /// Build the credential with the assertion's builder.
    Build,
    /// Read the enclave's account.
    GetEnclaveAccount,
    /// Set the credential endpoint and derive the issuer's DID from the
    /// enclave account.
    DeriveIssuerDid,
    /// Sign the issuer's enclave measurement and add the proof.
    Sign,
    /// Check the credential.
    Validate,
    /// Compute the credential's index.
    GetIndex,
    /// Serialize the credential to JSON.
    ToJson,
}

/// The step after `s` (the last one stays).
pub open spec fn spec_next_step(s: Step) -> Step {
    match s {
        Step::Build => Step::GetEnclaveAccount,
        Step::GetEnclaveAccount => Step::DeriveIssuerDid,
        Step::DeriveIssuerDid => Step::Sign,
        Step::Sign => Step::Validate,
        Step::Validate => Step::GetIndex,
        Step::GetIndex => Step::ToJson,
        Step::ToJson => Step::ToJson,
    }
}

/// The first `n` bytes of `s` (all of them when it is shorter).
pub open spec fn truncated(s: Seq<u8>, n: int) -> Seq<u8> {
    if s.len() <= n { s } else { s.subrange(0, n) }
}

/// The first bytes of `text`, at most `MAX_ERROR_STRING_LEN`.
pub fn truncate_error_string(text: &[u8]) -> (r: Vec<u8>)
    ensures
        r@ == truncated(text@, MAX_ERROR_STRING_LEN as int),
{
    let n = if text.len() <= MAX_ERROR_STRING_LEN { text.len() } else { MAX_ERROR_STRING_LEN };
    let mut r: Vec<u8> = Vec::new();
    let mut i: usize = 0;
    while i < n
        invariant
            n <= text@.len(),
            n == (if text@.len() <= MAX_ERROR_STRING_LEN { text@.len() } else { MAX_ERROR_STRING_LEN as nat }),
            i <= n,
            r@ == text@.subrange(0, i as int),
        decreases n - i,
    {
        r.push(text[i]);
        i = i + 1;
        assert(r@ =~= text@.subrange(0, i as int));
    }
    assert(text@.len() <= MAX_ERROR_STRING_LEN ==> text@.subrange(0, n as int) =~= text@);
    r
}

/// The result of a credential request: the credential's index, the hash
/// of its JSON, and the JSON.
pub open spec fn spec_vc_result(index: Seq<u8>, json: Seq<char>) -> (Seq<u8>, Seq<u8>, Seq<u8>) {
    (index, spec_blake2_256(vstd::utf8::encode_utf8(json)), vstd::utf8::encode_utf8(json))
}

/// The progress of one credential request.
pub struct VcProcess {
    assertion: Assertion,
    step: Step,
}

impl VcProcess {
    pub closed spec fn assertion(&self) -> Assertion {
        self.assertion
    }

    /// The step to perform next.
    pub closed spec fn step(&self) -> Step {
        self.step
    }

    /// Starts a request for `assertion`, which must have a builder.
    pub fn start(assertion: Assertion) -> (p: VcProcess)
        requires
            spec_builder_for(assertion) is Some,
        ensures
            p.assertion() == assertion,
            p.step() == Step::Build,
    {
        VcProcess { assertion, step: Step::Build }
    }

    /// The builder to build the credential with.
    pub fn builder(&self) -> (b: Builder)
        requires
            spec_builder_for(self.assertion()) is Some,
        ensures
            Some(b) == spec_builder_for(self.assertion()),
    {
        builder_for(&self.assertion).unwrap()
    }

    /// The step to perform next.
    pub fn current_step(&self) -> (s: Step)
        ensures
            s == self.step(),
    {
        self.step
    }

    /// The current step (not the last) succeeded: go on with the next.
    pub fn step_done(&mut self)
        requires
            old(self).step() != Step::ToJson,
        ensures
            final(self).step() == spec_next_step(old(self).step()),
            final(self).assertion() == old(self).assertion(),
    {
        self.step = match self.step {
            Step::Build => Step::GetEnclaveAccount,
            Step::GetEnclaveAccount => Step::DeriveIssuerDid,
            Step::DeriveIssuerDid => Step::Sign,
            Step::Sign => Step::Validate,
            Step::Validate => Step::GetIndex,
            Step::GetIndex => Step::ToJson,
            Step::ToJson => Step::ToJson,
        };
    }

    /// Building the credential failed with `error`: the request ends with
    /// the builder's own error, and no later step runs.
    pub fn build_failed(self, error: VCMPError) -> (e: VCMPError)
        requires
            self.step() == Step::Build,
        ensures
            e == error,
    {
        error
    }

    /// The current step (after building) failed with the error text
    /// `text`, which ends the request: with a parse error when the JSON
    /// could not be made, and with the text, truncated, as an STF error
    /// otherwise.  (A failed build ends the request with the builder's
    /// own error.)
    pub fn step_failed(self, text: &[u8]) -> (e: VCMPError)
        requires
            self.step() != Step::Build,
        ensures
            e matches VCMPError::RequestVCFailed(a, d) && a == self.assertion() && (
                if self.step() == Step::ToJson {
                    d == ErrorDetail::ParseError
                } else {
                    d matches ErrorDetail::StfError(t) && t@ == truncated(text@, MAX_ERROR_STRING_LEN as int)
                }),
    {
        if self.step == Step::ToJson {
            VCMPError::RequestVCFailed(self.assertion, ErrorDetail::ParseError)
        } else {
            VCMPError::RequestVCFailed(self.assertion, ErrorDetail::StfError(truncate_error_string(text)))
        }
    }

    /// The last step produced the JSON of the credential, whose index is
    /// `index`: the request's result.
    pub fn finish(&self, index: H256, json: &String) -> (r: (H256, H256, Vec<u8>))
        requires
            self.step() == Step::ToJson,
        ensures
            r.0 == index,
            (r.0@, r.1@, r.2@) == spec_vc_result(index@, json@),
    {
        let bytes = json.as_str().as_bytes();
        let vc_hash = blake2_256(bytes);
        (index, vc_hash, slice_to_vec(bytes))
    }
}

/// A call that the enclave submits to report a credential request.
#[allow(inconsistent_fields)]
#[derive(Debug)]
pub enum VcCallback {
    /// The credential was issued.
    RequestVcCallback {
        signer: AccountId,
        who: Identity,
        assertion: Assertion,
        vc_index: H256,
        vc_hash: H256,
        vc_payload: Vec<u8>,
        req_ext_hash: H256,
    },
    /// The request failed.
    HandleVcmpError {
        signer: AccountId,
        who: Option<Identity>,
        error: VCMPError,
        req_ext_hash: H256,
    },
}

/// What to submit after a successful request: the credential, signed by
/// the enclave account; nothing when the enclave account is not known.
pub fn on_success(
    req: AssertionBuildRequest,
    enclave_account: Option<AccountId>,
    result: (H256, H256, Vec<u8>),
) -> (c: Option<VcCallback>)
    ensures
        c is Some <==> enclave_account is Some,
        c matches Some(call) ==> call == (VcCallback::RequestVcCallback {
            signer: enclave_account.unwrap(),
            who: req.who,
            assertion: req.assertion,
            vc_index: result.0,
            vc_hash: result.1,
            vc_payload: result.2,
            req_ext_hash: req.req_ext_hash,
        }),
{
    match enclave_account {
        Some(signer) => {
            let (vc_index, vc_hash, vc_payload) = result;
            Some(VcCallback::RequestVcCallback {
                signer,
                who: req.who,
                assertion: req.assertion,
                vc_index,
                vc_hash,
                vc_payload,
                req_ext_hash: req.req_ext_hash,
            })
        },
        None => None,
    }
}

/// What to submit after a failed request: the error, for the requester,
/// signed by the enclave account; nothing when the enclave account is not
/// known.
pub fn on_failure(
    req: AssertionBuildRequest,
    enclave_account: Option<AccountId>,
    error: VCMPError,
) -> (c: Option<VcCallback>)
    ensures
        c is Some <==> enclave_account is Some,
        c matches Some(call) ==> call == (VcCallback::HandleVcmpError {
            signer: enclave_account.unwrap(),
            who: Some(req.who),
            error: error,
            req_ext_hash: req.req_ext_hash,
        }),
{
    match enclave_account {
        Some(signer) => Some(VcCallback::HandleVcmpError {
            signer,
            who: Some(req.who),
            error,
            req_ext_hash: req.req_ext_hash,
        }),
        None => None,
    }
}

} // verus!
