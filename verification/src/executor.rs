//! The executor of the state transition function (STF): it applies trusted
//! calls to the state of a shard and keeps the states of all shards in step
//! with the blocks of the parentchain.
//!
//! An error in the execution machinery (the enclave or the parentchain
//! storage could not be read) is an `Err`, after which the state is as it
//! was and the call can be tried again.  An invalid call (not a call, a bad
//! signature, or a failure inside the STF) is `Ok` with a failed status, so
//! that it can be dropped from the queue.
use vstd::prelude::*;
use std::sync::Arc;
use std::marker::PhantomData;
use std::time::Duration;
use crate::getter::Getter;
use crate::hashing::{blake2_256, spec_blake2_256};
use crate::state::{Externalities, StateDiff, StorageEntry, apply_map, entries_map, into_map, opt_view};

verus! {

/// Identifier of a shard.
pub type ShardIdentifier = [u8; 32];

/// A 256-bit hash.
pub type H256 = [u8; 32];

/// An encoded call to send to the parentchain.
pub type OpaqueCall = Vec<u8>;

/// Errors of the execution machinery.
#[derive(Debug, PartialEq, Eq, Structural)]
pub enum Error {
    /// A call into the untrusted worker (enclave data, parentchain storage) failed.
    OCallApi,
    /// A shard state could not be loaded or written.
    StateHandler,
    /// The state transition function failed.
    Stf,
    /// The trusted operation is not a call.
    InvalidTrustedCallType,
    /// Bytes could not be decoded.
    Codec,
}

/// What to do with the state diff after a successful call.
#[derive(Debug, Clone, Copy, PartialEq, Eq, Structural)]
pub enum StatePostProcessing {
    /// Keep the diff.
    Keep,
    /// Forget the diff.
    Prune,
}

/// A signed trusted call: the STF checks its signature and names the
/// parentchain storage that it depends on.
///
/// Each method is a function of the call and its arguments alone; the spec
/// functions name those results.
pub trait TrustedCallApi {
    /// Whether the call's signature verifies for enclave `mrenclave` and `shard`.
    spec fn spec_verify_signature(&self, mrenclave: [u8; 32], shard: ShardIdentifier) -> bool;

    /// The parentchain storage keys that the call depends on.
    spec fn spec_storage_hashes(&self) -> Vec<Vec<u8>>;

    /// The SCALE encoding of the call.
    spec fn spec_encode(&self) -> Vec<u8>;

    /// Whether the call is signed by its sender for this enclave and shard.
    fn verify_signature(&self, mrenclave: &[u8; 32], shard: &ShardIdentifier) -> (r: bool)
        ensures
            r == self.spec_verify_signature(*mrenclave, *shard),
    ;

    /// The parentchain storage keys to bring up to date before executing.
    fn get_storage_hashes_to_update(&self) -> (r: Vec<Vec<u8>>)
        ensures
            r == self.spec_storage_hashes(),
    ;

    /// The SCALE encoding of the call.
    fn encode(&self) -> (r: Vec<u8>)
        ensures
            r == self.spec_encode(),
    ;
}


/// An operation on a shard: a call (from the parentchain or sent directly
/// to the worker), or a getter.
#[allow(non_camel_case_types)]
#[derive(Clone, Debug)]
pub enum TrustedOperation<C> {
    indirect_call(C),
    direct_call(C),
    get(Getter),
}

/// The call in an operation, if it is one.
pub open spec fn spec_to_call<C>(op: &TrustedOperation<C>) -> Option<&C> {
    match op {
        TrustedOperation::indirect_call(c) => Some(c),
        TrustedOperation::direct_call(c) => Some(c),
        TrustedOperation::get(_) => None,
    }
}

/// The index of a call variant in the encoding of an operation.
pub open spec fn call_variant_index<C>(op: &TrustedOperation<C>) -> u8 {
    match op {
        TrustedOperation::indirect_call(_) => 0,
        TrustedOperation::direct_call(_) => 1,
        TrustedOperation::get(_) => 2,
    }
}

/// The hash of a call operation: BLAKE2-256 of the variant index followed
/// by the encoded call.
pub open spec fn spec_operation_hash<C: TrustedCallApi>(op: &TrustedOperation<C>) -> Seq<u8> {
    match spec_to_call(op) {
        Some(c) => spec_blake2_256(seq![call_variant_index(op)] + c.spec_encode()@),
        None => Seq::empty(),
    }
}

impl<C: TrustedCallApi> TrustedOperation<C> {
    /// The call in this operation, if it is one.
    pub fn to_call(&self) -> (c: Option<&C>)
        ensures
            c == spec_to_call(self),
    {
        match self {
            TrustedOperation::indirect_call(c) => Some(c),
            TrustedOperation::direct_call(c) => Some(c),
            TrustedOperation::get(_) => None,
        }
    }

    /// The hash of a call operation: BLAKE2-256 of its SCALE encoding, the
    /// variant index followed by the encoded call.
    pub fn hash(&self) -> (h: H256)
        requires
            spec_to_call(self) is Some,
        ensures
            h@ == spec_operation_hash(self),
    {
        let idx: u8 = match self {
            TrustedOperation::indirect_call(_) => 0u8,
            TrustedOperation::direct_call(_) => 1u8,
            TrustedOperation::get(_) => 2u8,
        };
        let call = self.to_call().unwrap();
        let mut data: Vec<u8> = Vec::new();
        data.push(idx);
        let mut enc = call.encode();
        let ghost enc_view = enc@;
        data.append(&mut enc);
        assert(data@ =~= seq![call_variant_index(self)] + enc_view);
        blake2_256(data.as_slice())
    }
}

/// An operation or, once it is known, only its hash.
#[derive(Debug)]
pub enum TrustedOperationOrHash<C> {
    Hash(H256),
    Operation(TrustedOperation<C>),
}

/// How a call ended: success with the operation hash and the answer to the
/// caller, or failure.
#[derive(Debug)]
pub enum ExecutionStatus {
    Success(H256, Vec<u8>),
    Failure,
}

/// An operation after execution, with the calls it sends to the parentchain.
#[derive(Debug)]
pub struct ExecutedOperation<C> {
    pub status: ExecutionStatus,
    pub trusted_operation_or_hash: TrustedOperationOrHash<C>,
    pub extrinsic_call_backs: Vec<OpaqueCall>,
}

impl<C> ExecutedOperation<C> {
    /// A successful operation.
    pub fn success(
        operation_hash: H256,
        trusted_operation_or_hash: TrustedOperationOrHash<C>,
        extrinsic_call_backs: Vec<OpaqueCall>,
        rpc_response_value: Vec<u8>,
    ) -> (e: ExecutedOperation<C>)
        ensures
            e.status == ExecutionStatus::Success(operation_hash, rpc_response_value),
            e.trusted_operation_or_hash == trusted_operation_or_hash,
            e.extrinsic_call_backs == extrinsic_call_backs,
    {
        ExecutedOperation {
            status: ExecutionStatus::Success(operation_hash, rpc_response_value),
            trusted_operation_or_hash,
            extrinsic_call_backs,
        }
    }

    /// A failed operation.
    pub fn failed(
        trusted_operation_or_hash: TrustedOperationOrHash<C>,
        extrinsic_call_backs: Vec<OpaqueCall>,
    ) -> (e: ExecutedOperation<C>)
        ensures
            e.status == ExecutionStatus::Failure,
            e.trusted_operation_or_hash == trusted_operation_or_hash,
            e.extrinsic_call_backs == extrinsic_call_backs,
    {
        ExecutedOperation { status: ExecutionStatus::Failure, trusted_operation_or_hash, extrinsic_call_backs }
    }
}

/// The calls of a block executed on a shard, with its state before and after.
#[derive(Debug)]
pub struct BatchExecutionResult<C> {
    pub executed_operations: Vec<ExecutedOperation<C>>,
    pub state_hash_before_execution: H256,
    pub state_after_execution: Externalities,
}

/// Calls from the enclave into the untrusted worker.
pub trait EnclaveOCallApi<PH> {
    /// The measurement of this enclave.
    fn get_mrenclave_of_self(&self) -> Result<[u8; 32], Error>;

    /// The parentchain storage at `storage_hashes` as of `header`, with
    /// its proofs checked.
    fn get_multiple_storages_verified(&self, storage_hashes: Vec<Vec<u8>>, header: &PH) -> Result<Vec<StorageEntry>, Error>;
}

/// The store of shard states.
pub trait HandleState {
    /// The shards that have a state.
    fn list_shards(&self) -> Result<Vec<ShardIdentifier>, Error>;

    /// The state of `shard`, to be changed and written back.
    fn load_for_mutation(&self, shard: &ShardIdentifier) -> Result<Externalities, Error>;

    /// Writes the state of `shard`; returns the hash of the new state.
    fn write_after_mutation(&self, state: Externalities, shard: &ShardIdentifier) -> Result<H256, Error>;

    /// A copy of the state of `shard`, with its hash.
    fn load_cloned(&self, shard: &ShardIdentifier) -> Result<(Externalities, H256), Error>;
}

/// The state transition function.
pub trait StateTransitionFunction<C, PH, N> {
    /// What executing `call` on `state` gives: the state after, the calls
    /// to the parentchain that it collects, and the answer to the caller or
    /// the failure.
    spec fn spec_execute_call(
        state: Externalities,
        shard: ShardIdentifier,
        call: C,
        top_hash: H256,
        node_metadata_repo: N,
    ) -> (Externalities, Vec<OpaqueCall>, Result<Vec<u8>, Error>);

    /// Executes `call` on `state`, appending the calls to send to the
    /// parentchain to `calls`; returns the answer to the caller (a function
    /// of the state, the call and its context alone).
    fn execute_call(
        state: &mut Externalities,
        shard: &ShardIdentifier,
        call: &C,
        top_hash: H256,
        calls: &mut Vec<OpaqueCall>,
        node_metadata_repo: Arc<N>,
    ) -> (r: Result<Vec<u8>, Error>)
        ensures
            *final(state) == Self::spec_execute_call(*old(state), *shard, *call, top_hash, *node_metadata_repo).0,
            final(calls)@ == old(calls)@ + Self::spec_execute_call(*old(state), *shard, *call, top_hash, *node_metadata_repo).1@,
            r == Self::spec_execute_call(*old(state), *shard, *call, top_hash, *node_metadata_repo).2,
    ;

    /// The state after recording the block `header`, and whether that
    /// succeeded.
    spec fn spec_update_parentchain_block(state: Externalities, header: PH) -> (Externalities, Result<(), Error>);

    /// Records the new parentchain block in `state` (a function of the
    /// state and the header alone).
    fn update_parentchain_block(state: &mut Externalities, header: &PH) -> (r: Result<(), Error>)
        ensures
            (*final(state), r) == Self::spec_update_parentchain_block(*old(state), *header),
    ;

    /// The state after migrating it for a runtime upgrade, and whether
    /// that succeeded.
    spec fn spec_on_runtime_upgrade(state: Externalities) -> (Externalities, Result<(), Error>);

    /// Migrates `state` after a runtime upgrade (a function of the state
    /// alone).
    fn on_runtime_upgrade(state: &mut Externalities) -> (r: Result<(), Error>)
        ensures
            (*final(state), r) == Self::spec_on_runtime_upgrade(*old(state)),
    ;

    /// The parentchain storage keys that every block brings up to date.
    spec fn spec_storage_hashes_on_block() -> Vec<Vec<u8>>;

    /// The parentchain storage key of the list of shards.
    spec fn spec_shards_key_hash() -> Vec<u8>;

    /// The parentchain storage keys that belong to `shard`.
    spec fn spec_storage_hashes_per_shard(shard: ShardIdentifier) -> Vec<Vec<u8>>;

    /// The parentchain storage keys that every block brings up to date (a
    /// constant of the STF).
    fn storage_hashes_to_update_on_block() -> (r: Vec<Vec<u8>>)
        ensures
            r == Self::spec_storage_hashes_on_block(),
    ;

    /// The parentchain storage key of the list of shards (a constant of the
    /// STF).
    fn shards_key_hash() -> (r: Vec<u8>)
        ensures
            r == Self::spec_shards_key_hash(),
    ;

    /// The parentchain storage keys that belong to `shard` (a function of
    /// the shard alone).
    fn storage_hashes_to_update_per_shard(shard: &ShardIdentifier) -> (r: Vec<Vec<u8>>)
        ensures
            r == Self::spec_storage_hashes_per_shard(*shard),
    ;
}

/// Executes trusted calls on the STF, reading enclave data and parentchain
/// storage through `OCallApi` and shard states through `StateHandler`.
pub struct StfExecutor<OCallApi, StateHandler, NodeMetadataRepository, Stf> {
    ocall_api: Arc<OCallApi>,
    state_handler: Arc<StateHandler>,
    node_metadata_repo: Arc<NodeMetadataRepository>,
    _phantom: PhantomData<Stf>,
}

impl<OCallApi, StateHandler, NodeMetadataRepository, Stf> StfExecutor<OCallApi, StateHandler, NodeMetadataRepository, Stf> {
    /// The calls into the untrusted worker.
    pub closed spec fn ocall_api(&self) -> OCallApi {
        *self.ocall_api
    }

    /// The store of shard states.
    pub closed spec fn state_handler(&self) -> StateHandler {
        *self.state_handler
    }

    /// The node metadata.
    pub closed spec fn node_metadata_repo(&self) -> NodeMetadataRepository {
        *self.node_metadata_repo
    }

    /// An executor over the given services.
    pub fn new(
        ocall_api: Arc<OCallApi>,
        state_handler: Arc<StateHandler>,
        node_metadata_repo: Arc<NodeMetadataRepository>,
    ) -> (e: Self)
        ensures
            e.ocall_api() == *ocall_api,
            e.state_handler() == *state_handler,
            e.node_metadata_repo() == *node_metadata_repo,
    {
        StfExecutor { ocall_api, state_handler, node_metadata_repo, _phantom: PhantomData }
    }
}

/// The list of shards that the parentchain holds, decoded from its SCALE
/// encoding (a function of the bytes alone).
pub uninterp spec fn spec_decode_shards(bytes: Seq<u8>) -> Option<Seq<Seq<u8>>>;

/// `Decode::decode` of parity-scale-codec for a list of shard identifiers.
#[verifier::external_body]
fn decode_shards(bytes: &[u8]) -> (r: Result<Vec<ShardIdentifier>, Error>)
    ensures
        r is Ok <==> spec_decode_shards(bytes@) is Some,
        r matches Err(e) ==> e == Error::Codec,
        r matches Ok(v) ==> v@.map_values(|s: ShardIdentifier| s@) == spec_decode_shards(bytes@).unwrap(),
{
    let mut input = bytes;
    <Vec<ShardIdentifier> as parity_scale_codec::Decode>::decode(&mut input).map_err(|_| Error::Codec)
}

/// The length of the longest `Duration` in nanoseconds: `u64::MAX` seconds
/// and 999 999 999 nanoseconds.
pub open spec fn max_duration_nanos() -> int {
    18_446_744_073_709_551_615_999_999_999int
}

/// The whole length of `d` in nanoseconds (a function of `d` alone).
pub uninterp spec fn spec_duration_nanos(d: Duration) -> u128;

/// `Duration::as_nanos`: the whole length of `d` in nanoseconds, at most
/// that of `Duration::MAX`.
#[verifier::external_body]
fn duration_nanos(d: Duration) -> (r: u128)
    ensures
        r == spec_duration_nanos(d),
        r <= max_duration_nanos(),
{
    d.as_nanos()
}

/// `SystemTime::elapsed` of the Unix epoch: the time since the epoch by the
/// system clock, or nothing when the clock is set before it.
#[verifier::external_body]
fn time_since_epoch() -> Option<Duration> {
    std::time::UNIX_EPOCH.elapsed().ok()
}

/// Nanoseconds since the Unix epoch by the system clock; 0 when the clock
/// is set before it.
fn clock_nanos() -> (r: u128)
    ensures
        r <= max_duration_nanos(),
{
    match time_since_epoch() {
        Some(d) => duration_nanos(d),
        None => 0,
    }
}

/// Whether the deadline `ends_at` has passed at the clock reading `now`.
pub fn deadline_passed(ends_at: u128, now: u128) -> (r: bool)
    ensures
        r == (ends_at < now),
{
    ends_at < now
}

/// The shards that the parentchain storage changes in `diff` announce, to
/// be initialized: none when the shard list is not among the changes or was
/// cleared, the decoded list otherwise.
pub fn shards_to_initialize(diff: &StateDiff, shards_key: &[u8]) -> (r: Result<Option<Vec<ShardIdentifier>>, Error>)
    ensures
        !diff@.contains_key(shards_key@) ==> r == Ok::<Option<Vec<ShardIdentifier>>, Error>(None),
        diff@.contains_key(shards_key@) && diff@[shards_key@] is None ==> r == Ok::<Option<Vec<ShardIdentifier>>, Error>(None),
        diff@.contains_key(shards_key@) && diff@[shards_key@] is Some ==> {
            let bytes = diff@[shards_key@].unwrap();
            &&& (r is Err <==> spec_decode_shards(bytes) is None)
            &&& (r is Err ==> r == Err::<Option<Vec<ShardIdentifier>>, Error>(Error::Codec))
            &&& (r matches Ok(Some(v)) ==> v@.map_values(|s: ShardIdentifier| s@) == spec_decode_shards(bytes).unwrap())
            &&& (r is Ok ==> r matches Ok(Some(_)))
        },
{
    match diff.get(shards_key) {
        Some(maybe_shards) => match maybe_shards {
            Some(shards) => {
                let decoded = decode_shards(shards.as_slice());
                match decoded {
                    Ok(v) => Ok(Some(v)),
                    Err(e) => Err(e),
                }
            },
            None => Ok(None),
        },
        None => Ok(None),
    }
}

/// The operation is not a call, or its signature verifies for no enclave
/// measurement on `shard`: it can never run.
pub open spec fn rejected_for_every_enclave<C: TrustedCallApi>(op: &TrustedOperation<C>, shard: ShardIdentifier) -> bool {
    match spec_to_call(op) {
        Some(c) => forall|m: [u8; 32]| !#[trigger] c.spec_verify_signature(m, shard),
        None => true,
    }
}

/// Whether an operation may run on `shard` in the enclave `mrenclave`: it
/// must be a call whose signature verifies.  If so, the parentchain storage
/// keys that the call depends on.
pub fn check_call<C: TrustedCallApi>(
    op: &TrustedOperation<C>,
    mrenclave: &[u8; 32],
    shard: &ShardIdentifier,
) -> (r: Option<Vec<Vec<u8>>>)
    ensures
        r is Some <==> (spec_to_call(op) matches Some(c) && c.spec_verify_signature(*mrenclave, *shard)),
        r matches Some(h) ==> h == spec_to_call(op).unwrap().spec_storage_hashes(),
{
    match op.to_call() {
        None => None,
        Some(c) => {
            if c.verify_signature(mrenclave, shard) {
                Some(c.get_storage_hashes_to_update())
            } else {
                None
            }
        },
    }
}

/// The changes that a read of parentchain storage brings: those of the
/// entries read, or the error of the read.
pub fn storage_update(read: Result<Vec<StorageEntry>, Error>) -> (r: Result<StateDiff, Error>)
    ensures
        read matches Err(e) ==> r == Err::<StateDiff, Error>(e),
        read matches Ok(es) ==> (r matches Ok(d) && d@ == entries_map(es@)),
{
    match read {
        Ok(entries) => Ok(into_map(entries)),
        Err(e) => Err(e),
    }
}

/// What an existing shard writes after the block `header`, given what
/// loading it gave: its state with the block recorded, or nothing when
/// recording the block failed; a failed load is an error, and nothing is
/// written.
pub fn update_existing_shard<C, PH, N, S: StateTransitionFunction<C, PH, N>>(
    loaded: Result<Externalities, Error>,
    header: &PH,
) -> (r: Result<Option<Externalities>, Error>)
    ensures
        loaded matches Err(e) ==> r == Err::<Option<Externalities>, Error>(e),
        loaded matches Ok(state) ==> {
            let (updated, recorded) = S::spec_update_parentchain_block(state, *header);
            &&& recorded is Ok ==> r == Ok::<Option<Externalities>, Error>(Some(updated))
            &&& recorded is Err ==> r == Ok::<Option<Externalities>, Error>(None)
        },
{
    match loaded {
        Err(e) => Err(e),
        Ok(state) => {
            let mut state = state;
            match S::update_parentchain_block(&mut state, header) {
                Ok(_) => Ok(Some(state)),
                Err(_) => Ok(None),
            }
        },
    }
}

/// `r` is `state` with the changes `own`, then `common` (which win on
/// shared keys) applied, and the block `header` recorded.
pub open spec fn announced_shard_state<C, PH, N, S: StateTransitionFunction<C, PH, N>>(
    state: Externalities,
    own: Map<Seq<u8>, Option<Seq<u8>>>,
    common: Map<Seq<u8>, Option<Seq<u8>>>,
    header: PH,
    r: Externalities,
) -> bool {
    exists|mid: Externalities| {
        &&& #[trigger] mid.storage() == apply_map(apply_map(state.storage(), own), common)
        &&& mid.diff() == state.diff().union_prefer_right(own).union_prefer_right(common)
        &&& r == S::spec_update_parentchain_block(mid, header).0
    }
}

/// The first state of a shard that the parentchain announces, given its
/// loaded state and what reading its own parentchain storage gave: the
/// state with its own storage, then the common storage, applied, and the
/// block `header` recorded (whether or not recording succeeds); a failed
/// read is an error, and nothing is written.
pub fn initialize_announced_shard<C, PH, N, S: StateTransitionFunction<C, PH, N>>(
    state: Externalities,
    own_read: Result<Vec<StorageEntry>, Error>,
    common: &StateDiff,
    header: &PH,
) -> (r: Result<Externalities, Error>)
    ensures
        own_read matches Err(e) ==> r == Err::<Externalities, Error>(e),
        own_read matches Ok(entries) ==> (r matches Ok(s)
            && announced_shard_state::<C, PH, N, S>(state, entries_map(entries@), common@, *header, s)),
{
    let own = match own_read {
        Ok(entries) => into_map(entries),
        Err(e) => { return Err(e); },
    };
    let mut s = state;
    s.apply_state_diff(&own);
    s.apply_state_diff(common);
    let ghost mid = s;
    let _ = S::update_parentchain_block(&mut s, header);
    proof {
        assert(mid.storage() == apply_map(apply_map(state.storage(), own@), common@));
        assert(mid.diff() == state.diff().union_prefer_right(own@).union_prefer_right(common@));
    }
    Ok(s)
}

/// `after` is `before` with the changes `changes` applied and recorded.
pub open spec fn with_changes(before: Externalities, changes: Map<Seq<u8>, Option<Seq<u8>>>, after: Externalities) -> bool {
    &&& after.storage() == apply_map(before.storage(), changes)
    &&& after.diff() == before.diff().union_prefer_right(changes)
}

/// The operation is a call whose signature verifies for some enclave
/// measurement on `shard`.
pub open spec fn signed_for_some_enclave<C: TrustedCallApi>(op: &TrustedOperation<C>, shard: ShardIdentifier) -> bool {
    spec_to_call(op) matches Some(c) && exists|m: [u8; 32]| #[trigger] c.spec_verify_signature(m, shard)
}

/// The operation is not a call, or its signature fails for some enclave
/// measurement on `shard`.
pub open spec fn unsigned_for_some_enclave<C: TrustedCallApi>(op: &TrustedOperation<C>, shard: ShardIdentifier) -> bool {
    match spec_to_call(op) {
        Some(c) => exists|m: [u8; 32]| !#[trigger] c.spec_verify_signature(m, shard),
        None => true,
    }
}

/// `e` and `after` are what the STF gives when it runs the call of `op` on
/// `shard` from `mid` with the operation's hash: a failure with the state
/// the STF left, or a success with the hash and the answer, after which
/// the diff is pruned when `post_processing` asks for it; either way with
/// the calls to the parentchain that the STF collected.
pub open spec fn stf_ran<C: TrustedCallApi, PH, N, S: StateTransitionFunction<C, PH, N>>(
    op: TrustedOperation<C>,
    shard: ShardIdentifier,
    repo: N,
    mid: Externalities,
    post_processing: StatePostProcessing,
    e: ExecutedOperation<C>,
    after: Externalities,
) -> bool {
    spec_to_call(&op) matches Some(c) && exists|h: H256| {
        &&& h@ == spec_operation_hash(&op)
        &&& e.extrinsic_call_backs@ == (#[trigger] S::spec_execute_call(mid, shard, *c, h, repo)).1@
        &&& S::spec_execute_call(mid, shard, *c, h, repo).2 is Err ==> {
            &&& e.status == ExecutionStatus::Failure
            &&& after == S::spec_execute_call(mid, shard, *c, h, repo).0
        }
        &&& S::spec_execute_call(mid, shard, *c, h, repo).2 matches Ok(rpc) ==> {
            &&& e.status == ExecutionStatus::Success(h, rpc)
            &&& post_processing == StatePostProcessing::Keep ==> after == S::spec_execute_call(mid, shard, *c, h, repo).0
            &&& post_processing == StatePostProcessing::Prune ==> {
                &&& after.storage() == S::spec_execute_call(mid, shard, *c, h, repo).0.storage()
                &&& after.diff() == Map::<Seq<u8>, Option<Seq<u8>>>::empty()
            }
        }
    }
}

/// `e` and `after` are what the STF gives when it runs the call of `op` on
/// `shard` from `before` with exactly the parentchain storage `entries`
/// applied.
pub open spec fn ran_on_read<C: TrustedCallApi, PH, N, S: StateTransitionFunction<C, PH, N>>(
    op: TrustedOperation<C>,
    shard: ShardIdentifier,
    repo: N,
    before: Externalities,
    entries: Seq<StorageEntry>,
    post_processing: StatePostProcessing,
    e: ExecutedOperation<C>,
    after: Externalities,
) -> bool {
    exists|mid: Externalities| {
        &&& #[trigger] with_changes(before, entries_map(entries), mid)
        &&& stf_ran::<C, PH, N, S>(op, shard, repo, mid, post_processing, e, after)
    }
}

/// `e` and `after` are what the STF gives when it runs the call of `op` on
/// `shard` from `before` with some parentchain changes applied.
pub open spec fn ran_after_changes<C: TrustedCallApi, PH, N, S: StateTransitionFunction<C, PH, N>>(
    op: TrustedOperation<C>,
    shard: ShardIdentifier,
    repo: N,
    before: Externalities,
    post_processing: StatePostProcessing,
    e: ExecutedOperation<C>,
    after: Externalities,
) -> bool {
    exists|changes: Map<Seq<u8>, Option<Seq<u8>>>, mid: Externalities| {
        &&& #[trigger] with_changes(before, changes, mid)
        &&& #[trigger] stf_ran::<C, PH, N, S>(op, shard, repo, mid, post_processing, e, after)
    }
}

/// What happened to an existing shard on a new block: the shard loaded,
/// its loaded state, and the shard and state written, if any.
pub struct ExistingShardRecord {
    pub shard: ShardIdentifier,
    pub loaded: Externalities,
    pub written: Option<(ShardIdentifier, Externalities)>,
}

/// What happened to an announced shard on a new block: the shard loaded,
/// its loaded state, the keys of its own storage asked for and the entries
/// read, and the shard and state written.
pub struct AnnouncedShardRecord {
    pub shard: ShardIdentifier,
    pub loaded: Externalities,
    pub asked: Vec<Vec<u8>>,
    pub read: Vec<StorageEntry>,
    pub written_to: ShardIdentifier,
    pub written: Externalities,
}

/// What an update of the shard states on a new block did: the keys of the
/// parentchain storage asked for, the changes read, and what happened to
/// each existing and each announced shard, in order.
pub type BlockUpdateReport = (Vec<Vec<u8>>, Map<Seq<u8>, Option<Seq<u8>>>, Seq<ExistingShardRecord>, Seq<AnnouncedShardRecord>);

/// An existing shard is written back to itself, with the block `header`
/// recorded, exactly when recording it succeeds.
pub open spec fn existing_shard_written<C, PH, N, S: StateTransitionFunction<C, PH, N>>(
    rec: ExistingShardRecord,
    header: PH,
) -> bool {
    &&& S::spec_update_parentchain_block(rec.loaded, header).1 is Ok
        ==> rec.written == Some((rec.shard, S::spec_update_parentchain_block(rec.loaded, header).0))
    &&& S::spec_update_parentchain_block(rec.loaded, header).1 is Err ==> rec.written is None
}

/// An announced shard is written back to itself as its loaded state with
/// its own storage (read for exactly its own keys), then the common changes,
/// applied and the block recorded.
pub open spec fn announced_shard_written<C, PH, N, S: StateTransitionFunction<C, PH, N>>(
    rec: AnnouncedShardRecord,
    common: Map<Seq<u8>, Option<Seq<u8>>>,
    header: PH,
) -> bool {
    &&& rec.written_to == rec.shard
    &&& rec.asked == S::spec_storage_hashes_per_shard(rec.shard)
    &&& announced_shard_state::<C, PH, N, S>(rec.loaded, entries_map(rec.read@), common, header, rec.written)
}

/// The shards that the parentchain storage changes `common` announce under
/// the key `key`: the decoded list stored there, or none when the key was
/// not changed or was cleared.
pub open spec fn announced_shards(common: Map<Seq<u8>, Option<Seq<u8>>>, key: Seq<u8>) -> Seq<Seq<u8>> {
    if common.contains_key(key) && common[key] is Some && spec_decode_shards(common[key].unwrap()) is Some {
        spec_decode_shards(common[key].unwrap()).unwrap()
    } else {
        Seq::empty()
    }
}

/// A successful update of the shard states on the block `header`: the
/// block's own storage keys were asked for, every existing shard is handled
/// by `existing_shard_written`, and the announced
/// shards are exactly those that the common changes announce, in order,
/// each written by `announced_shard_written`.
pub open spec fn block_update_done<C, PH, N, S: StateTransitionFunction<C, PH, N>>(
    report: BlockUpdateReport,
    header: PH,
) -> bool {
    let (asked, common, existing, announced) = report;
    &&& asked == S::spec_storage_hashes_on_block()
    &&& forall|k: int| 0 <= k < existing.len() ==> existing_shard_written::<C, PH, N, S>(#[trigger] existing[k], header)
    &&& announced.len() == announced_shards(common, S::spec_shards_key_hash()@).len()
    &&& forall|k: int| 0 <= k < announced.len() ==>
        (#[trigger] announced[k]).shard@ == announced_shards(common, S::spec_shards_key_hash()@)[k]
    &&& forall|k: int| 0 <= k < announced.len() ==>
        announced_shard_written::<C, PH, N, S>(#[trigger] announced[k], common, header)
}

/// The executed operation once the STF has run a call: a failure with the
/// calls collected so far when the STF failed, leaving `state` as the STF
/// left it; otherwise a success with the operation hash and the answer,
/// after pruning the state diff when `post_processing` asks for it.
pub fn conclude_execution<C>(
    state: &mut Externalities,
    exec_result: Result<Vec<u8>, Error>,
    operation_hash: H256,
    top_or_hash: TrustedOperationOrHash<C>,
    extrinsic_call_backs: Vec<OpaqueCall>,
    post_processing: StatePostProcessing,
) -> (e: ExecutedOperation<C>)
    ensures
        e.trusted_operation_or_hash == top_or_hash,
        e.extrinsic_call_backs == extrinsic_call_backs,
        exec_result is Err ==> e.status == ExecutionStatus::Failure && *final(state) == *old(state),
        exec_result matches Ok(rpc) ==> e.status == ExecutionStatus::Success(operation_hash, rpc),
        exec_result is Ok && post_processing == StatePostProcessing::Prune ==> {
            &&& final(state).storage() == old(state).storage()
            &&& final(state).diff() == Map::<Seq<u8>, Option<Seq<u8>>>::empty()
        },
        exec_result is Ok && post_processing == StatePostProcessing::Keep ==> *final(state) == *old(state),
{
    match exec_result {
        Err(_) => ExecutedOperation::failed(top_or_hash, extrinsic_call_backs),
        Ok(rpc_response_value) => {
            if let StatePostProcessing::Prune = post_processing {
                state.prune_state_diff();
            }
            ExecutedOperation::success(operation_hash, top_or_hash, extrinsic_call_backs, rpc_response_value)
        },
    }
}

/// The state that a batch of calls starts from, given what loading the
/// shard gave: the loaded state prepared by `prepare_state_function`, then
/// migrated after a runtime upgrade (whether or not the migration
/// succeeds), with the hash of the stored state; or the error of the load,
/// with nothing prepared.
pub fn prepared_batch_state<C, PH, N, S: StateTransitionFunction<C, PH, N>, F: FnOnce(Externalities) -> Externalities>(
    loaded: Result<(Externalities, H256), Error>,
    prepare_state_function: F,
) -> (r: Result<(Externalities, H256), Error>)
    requires
        forall|s: Externalities| prepare_state_function.requires((s,)),
    ensures
        loaded matches Err(e) ==> r == Err::<(Externalities, H256), Error>(e),
        loaded matches Ok((s, h)) ==> (r matches Ok((s2, h2)) && h2 == h && exists|p: Externalities| {
            &&& #[trigger] prepare_state_function.ensures((s,), p)
            &&& s2 == S::spec_on_runtime_upgrade(p).0
        }),
{
    match loaded {
        Err(e) => Err(e),
        Ok((state, hash)) => {
            let mut state = prepare_state_function(state);
            let _ = S::on_runtime_upgrade(&mut state);
            Ok((state, hash))
        },
    }
}

impl<OCallApi, StateHandler, NodeMetadataRepository, Stf> StfExecutor<OCallApi, StateHandler, NodeMetadataRepository, Stf> {
    /// Executes one trusted operation on `state`.
    ///
    /// The enclave measurement is read first and the parentchain storage
    /// that the call depends on is brought up to date before executing;
    /// either failing is an `Err` that leaves `state` as it was.  An
    /// operation that is not a call, or whose signature does not verify, is
    /// a failure that leaves `state` as it was.  A failure inside the STF
    /// is a failure with the calls collected so far.  After a success, the
    /// state diff is pruned when `post_processing` asks for it.
    pub fn execute_trusted_call_on_stf<C: TrustedCallApi + Clone, PH>(
        &self,
        state: &mut Externalities,
        trusted_operation: &TrustedOperation<C>,
        header: &PH,
        shard: &ShardIdentifier,
        post_processing: StatePostProcessing,
    ) -> (r: Result<ExecutedOperation<C>, Error>)
        where
            OCallApi: EnclaveOCallApi<PH>,
            Stf: StateTransitionFunction<C, PH, NodeMetadataRepository>,
        ensures
            r is Err ==> *final(state) == *old(state),
            spec_to_call(trusted_operation) is None ==> *final(state) == *old(state),
            spec_to_call(trusted_operation) is None ==> (r matches Ok(e) ==> e.status == ExecutionStatus::Failure
                && e.extrinsic_call_backs@.len() == 0),
            r matches Ok(e) ==> (e.trusted_operation_or_hash matches TrustedOperationOrHash::Operation(op)
                && cloned::<TrustedOperation<C>>(*trusted_operation, op)),
            r matches Ok(e) ==> (e.status is Success && post_processing == StatePostProcessing::Prune
                ==> final(state).diff() == Map::<Seq<u8>, Option<Seq<u8>>>::empty()),
            rejected_for_every_enclave(trusted_operation, *shard) ==> *final(state) == *old(state),
            rejected_for_every_enclave(trusted_operation, *shard) ==> (r matches Ok(e) ==> e.status == ExecutionStatus::Failure
                && e.extrinsic_call_backs@.len() == 0),
            r matches Ok(e) ==> (e.status matches ExecutionStatus::Success(h, _) ==> {
                &&& h@ == spec_operation_hash(trusted_operation)
                &&& !rejected_for_every_enclave(trusted_operation, *shard)
            }),
            r matches Ok(e) ==> {
                ||| {
                    &&& e.status == ExecutionStatus::Failure
                    &&& e.extrinsic_call_backs@.len() == 0
                    &&& *final(state) == *old(state)
                    &&& unsigned_for_some_enclave(trusted_operation, *shard)
                }
                ||| {
                    &&& signed_for_some_enclave(trusted_operation, *shard)
                    &&& ran_after_changes::<C, PH, NodeMetadataRepository, Stf>(
                        *trusted_operation, *shard, self.node_metadata_repo(), *old(state), post_processing, e, *final(state))
                }
            },
    {
        let (r, Ghost(read)) = self.execute_trusted_call_reporting_read(
            state, trusted_operation, header, shard, post_processing);
        proof {
            if let Some((asked, entries)) = read {
                if r is Ok {
                    let e = r->Ok_0;
                    let mid = choose|mid: Externalities| {
                        &&& #[trigger] with_changes(*old(state), entries_map(entries), mid)
                        &&& stf_ran::<C, PH, NodeMetadataRepository, Stf>(
                            *trusted_operation, *shard, self.node_metadata_repo(), mid, post_processing, e, *state)
                    };
                    assert(with_changes(*old(state), entries_map(entries), mid));
                    assert(ran_after_changes::<C, PH, NodeMetadataRepository, Stf>(
                        *trusted_operation, *shard, self.node_metadata_repo(), *old(state), post_processing, e, *state));
                }
            }
        }
        r
    }

    /// Reads the parentchain storage at `hashes` as of `header`, and reports
    /// the keys asked for.
    fn read_storage<PH>(&self, hashes: Vec<Vec<u8>>, header: &PH) -> (r: (Result<Vec<StorageEntry>, Error>, Ghost<Vec<Vec<u8>>>))
        where
            OCallApi: EnclaveOCallApi<PH>,
        ensures
            r.1@ == hashes,
    {
        let ghost asked = hashes;
        (self.ocall_api.get_multiple_storages_verified(hashes, header), Ghost(asked))
    }

    /// Executes one trusted operation on `state` as
    /// `execute_trusted_call_on_stf` does, and reports the read of
    /// parentchain storage made for it: the keys asked for and the entries
    /// read, or nothing when no call ran (no read was made or it failed).
    ///
    /// A call that runs runs on the state with exactly the entries read
    /// applied, and the keys asked for are the ones the call depends on.
    pub fn execute_trusted_call_reporting_read<C: TrustedCallApi + Clone, PH>(
        &self,
        state: &mut Externalities,
        trusted_operation: &TrustedOperation<C>,
        header: &PH,
        shard: &ShardIdentifier,
        post_processing: StatePostProcessing,
    ) -> (r: (Result<ExecutedOperation<C>, Error>, Ghost<Option<(Vec<Vec<u8>>, Seq<StorageEntry>)>>))
        where
            OCallApi: EnclaveOCallApi<PH>,
            Stf: StateTransitionFunction<C, PH, NodeMetadataRepository>,
        ensures
            r.0 is Err ==> *final(state) == *old(state),
            r.0 matches Ok(e) ==> (e.trusted_operation_or_hash matches TrustedOperationOrHash::Operation(op)
                && cloned::<TrustedOperation<C>>(*trusted_operation, op)),
            r.0 matches Ok(e) ==> (e.status matches ExecutionStatus::Success(h, _) ==> h@ == spec_operation_hash(trusted_operation)),
            r.1@ is None ==> {
                &&& *final(state) == *old(state)
                &&& r.0 matches Ok(e) ==> {
                    &&& e.status == ExecutionStatus::Failure
                    &&& e.extrinsic_call_backs@.len() == 0
                    &&& unsigned_for_some_enclave(trusted_operation, *shard)
                }
            },
            r.1@ matches Some((asked, _)) ==>
                (spec_to_call(trusted_operation) matches Some(c) && asked == c.spec_storage_hashes()),
            r.1@ is Some ==> signed_for_some_enclave(trusted_operation, *shard),
            r.1@ matches Some((_, entries)) ==> (r.0 matches Ok(e) && ran_on_read::<C, PH, NodeMetadataRepository, Stf>(
                *trusted_operation, *shard, self.node_metadata_repo(), *old(state), entries, post_processing, e, *final(state))),
    {
        let mrenclave = match self.ocall_api.get_mrenclave_of_self() {
            Ok(m) => m,
            Err(e) => { return (Err(e), Ghost(None)); },
        };

        let top_or_hash = TrustedOperationOrHash::Operation(trusted_operation.clone());

        let storage_hashes = match check_call(trusted_operation, &mrenclave, shard) {
            Some(h) => h,
            None => {
                return (Ok(ExecutedOperation::failed(top_or_hash, Vec::new())), Ghost(None));
            },
        };
        let trusted_call = trusted_operation.to_call().unwrap();

        let (read, Ghost(asked)) = self.read_storage(storage_hashes, header);
        let ghost entries = if read is Ok { read->Ok_0@ } else { Seq::<StorageEntry>::empty() };
        let update_map = match storage_update(read) {
            Ok(d) => d,
            Err(e) => { return (Err(e), Ghost(None)); },
        };

        let ghost before = *state;
        state.apply_state_diff(&update_map);
        let ghost mid = *state;

        let mut extrinsic_call_backs: Vec<OpaqueCall> = Vec::new();
        let operation_hash = trusted_operation.hash();
        let exec_result = Stf::execute_call(
            state,
            shard,
            trusted_call,
            operation_hash,
            &mut extrinsic_call_backs,
            self.node_metadata_repo.clone(),
        );

        let e = conclude_execution(state, exec_result, operation_hash, top_or_hash, extrinsic_call_backs, post_processing);
        proof {
            let c = spec_to_call(trusted_operation).unwrap();
            assert(c.spec_verify_signature(mrenclave, *shard));
            assert(Seq::<OpaqueCall>::empty() + Stf::spec_execute_call(mid, *shard, *c, operation_hash, self.node_metadata_repo()).1@
                =~= Stf::spec_execute_call(mid, *shard, *c, operation_hash, self.node_metadata_repo()).1@);
            assert(stf_ran::<C, PH, NodeMetadataRepository, Stf>(
                *trusted_operation, *shard, self.node_metadata_repo(), mid, post_processing, e, *state));
            assert(update_map@ == entries_map(entries));
            assert(with_changes(before, entries_map(entries), mid));
            assert(signed_for_some_enclave(trusted_operation, *shard));
            assert(asked == c.spec_storage_hashes());
            assert(before == *old(state));
            assert(ran_on_read::<C, PH, NodeMetadataRepository, Stf>(
                *trusted_operation, *shard, self.node_metadata_repo(), *old(state), entries, post_processing, e, *state));
        }
        (Ok(e), Ghost(Some((asked, entries))))
    }
}

impl<OCallApi, StateHandler: HandleState, NodeMetadataRepository, Stf> StfExecutor<OCallApi, StateHandler, NodeMetadataRepository, Stf> {
    /// Brings every shard state up to date with a new parentchain block.
    ///
    /// When the STF follows no parentchain storage, nothing is done.
    /// Otherwise the storage is read as of `header`, every existing shard
    /// records the block (a shard whose update fails is left unwritten),
    /// and every shard that the parentchain announces in that storage is
    /// initialized with its own storage and the common one, then records
    /// the block.
    pub fn update_states<C, PH>(&self, header: &PH) -> (r: Result<(), Error>)
        where
            OCallApi: EnclaveOCallApi<PH>,
            Stf: StateTransitionFunction<C, PH, NodeMetadataRepository>,
        ensures
            Stf::spec_storage_hashes_on_block()@.len() == 0 ==> r == Ok::<(), Error>(()),
    {
        let (r, Ghost(report)) = self.update_states_reporting::<C, PH>(header);
        r
    }

    /// Brings every shard state up to date as `update_states` does, and
    /// reports what it did: the parentchain storage changes read for the
    /// block, each existing shard with its loaded state and what was
    /// written for it, and each announced shard with its loaded state, its
    /// own storage read and the state written for it.
    ///
    /// On success, every existing shard is written with the block recorded
    /// exactly when recording it succeeds, and every shard that the changes
    /// announce is, in order, written with its own storage, then the common
    /// changes, applied and the block recorded.
    pub fn update_states_reporting<C, PH>(&self, header: &PH) -> (r: (Result<(), Error>, Ghost<BlockUpdateReport>))
        where
            OCallApi: EnclaveOCallApi<PH>,
            Stf: StateTransitionFunction<C, PH, NodeMetadataRepository>,
        ensures
            Stf::spec_storage_hashes_on_block()@.len() == 0 ==> {
                &&& r.0 == Ok::<(), Error>(())
                &&& r.1@.2.len() == 0
                &&& r.1@.3.len() == 0
            },
            r.0 is Ok ==> block_update_done::<C, PH, NodeMetadataRepository, Stf>(r.1@, *header),
    {
        let ghost mut existing: Seq<ExistingShardRecord> = Seq::empty();
        let ghost mut announced: Seq<AnnouncedShardRecord> = Seq::empty();
        let ghost no_changes: Map<Seq<u8>, Option<Seq<u8>>> = Map::empty();

        let storage_hashes = Stf::storage_hashes_to_update_on_block();

        if storage_hashes.len() == 0 {
            return (Ok(()), Ghost((storage_hashes, no_changes, existing, announced)));
        }

        let (block_read, Ghost(asked)) = self.read_storage(storage_hashes, header);
        let state_diff_update = match storage_update(block_read) {
            Ok(d) => d,
            Err(e) => { return (Err(e), Ghost((asked, no_changes, existing, announced))); },
        };
        let ghost common = state_diff_update@;

        let shards = match self.state_handler.list_shards() {
            Ok(s) => s,
            Err(e) => { return (Err(e), Ghost((asked, common, existing, announced))); },
        };
        let mut i: usize = 0;
        while i < shards.len()
            invariant
                Stf::spec_storage_hashes_on_block()@.len() != 0,
                asked == Stf::spec_storage_hashes_on_block(),
                i <= shards@.len(),
                existing.len() == i,
                forall|k: int| 0 <= k < i ==> (#[trigger] existing[k]).shard == shards@[k],
                forall|k: int| 0 <= k < i ==> existing_shard_written::<C, PH, NodeMetadataRepository, Stf>(#[trigger] existing[k], *header),
            decreases shards@.len() - i,
        {
            let shard_id = &shards[i];
            let (loaded, Ghost(loaded_shard)) = self.load_shard(shard_id);
            let ghost loaded_state = loaded->Ok_0;
            match update_existing_shard::<C, PH, NodeMetadataRepository, Stf>(loaded, header) {
                Ok(Some(updated)) => {
                    let (written, Ghost(write)) = self.write_shard(updated, shard_id);
                    proof {
                        existing = existing.push(ExistingShardRecord { shard: loaded_shard, loaded: loaded_state, written: Some(write) });
                    }
                    match written {
                        Ok(_) => {},
                        Err(e) => { return (Err(e), Ghost((asked, common, existing, announced))); },
                    }
                },
                Ok(None) => {
                    proof {
                        existing = existing.push(ExistingShardRecord { shard: loaded_shard, loaded: loaded_state, written: None });
                    }
                },
                Err(e) => { return (Err(e), Ghost((asked, common, existing, announced))); },
            }
            i = i + 1;
        }

        let shards_key = Stf::shards_key_hash();
        let new_shards = match shards_to_initialize(&state_diff_update, shards_key.as_slice()) {
            Ok(Some(v)) => v,
            Ok(None) => { return (Ok(()), Ghost((asked, common, existing, announced))); },
            Err(e) => { return (Err(e), Ghost((asked, common, existing, announced))); },
        };
        let mut j: usize = 0;
        while j < new_shards.len()
            invariant
                Stf::spec_storage_hashes_on_block()@.len() != 0,
                asked == Stf::spec_storage_hashes_on_block(),
                j <= new_shards@.len(),
                announced.len() == j,
                forall|k: int| 0 <= k < j ==> (#[trigger] announced[k]).shard == new_shards@[k],
                forall|k: int| 0 <= k < j ==> announced_shard_written::<C, PH, NodeMetadataRepository, Stf>(
                    #[trigger] announced[k], common, *header),
                common == state_diff_update@,
            decreases new_shards@.len() - j,
        {
            let shard_id = &new_shards[j];
            let (loaded, Ghost(loaded_shard)) = self.load_shard(shard_id);
            let state = match loaded {
                Ok(s) => s,
                Err(e) => { return (Err(e), Ghost((asked, common, existing, announced))); },
            };
            let ghost loaded_state = state;
            let per_shard_hashes = Stf::storage_hashes_to_update_per_shard(shard_id);
            let (own_read, Ghost(own_asked)) = self.read_storage(per_shard_hashes, header);
            let ghost own_entries = own_read->Ok_0;
            let state = match initialize_announced_shard::<C, PH, NodeMetadataRepository, Stf>(
                state,
                own_read,
                &state_diff_update,
                header,
            ) {
                Ok(s) => s,
                Err(e) => { return (Err(e), Ghost((asked, common, existing, announced))); },
            };
            let (written, Ghost(write)) = self.write_shard(state, shard_id);
            proof {
                announced = announced.push(AnnouncedShardRecord {
                    shard: loaded_shard,
                    loaded: loaded_state,
                    asked: own_asked,
                    read: own_entries,
                    written_to: write.0,
                    written: write.1,
                });
            }
            match written {
                Ok(_) => {},
                Err(e) => { return (Err(e), Ghost((asked, common, existing, announced))); },
            }
            j = j + 1;
        }
        proof {
            assert forall|k: int| 0 <= k < announced.len() implies
                announced[k].shard@ == #[trigger] announced_shards(common, Stf::spec_shards_key_hash()@)[k] by {
                assert(new_shards@.map_values(|s: ShardIdentifier| s@)[k] == new_shards@[k]@);
            }
        }
        (Ok(()), Ghost((asked, common, existing, announced)))
    }

    /// Loads the state of `shard` for mutation, and reports the shard loaded.
    fn load_shard(&self, shard: &ShardIdentifier) -> (r: (Result<Externalities, Error>, Ghost<ShardIdentifier>))
        ensures
            r.1@ == *shard,
    {
        (self.state_handler.load_for_mutation(shard), Ghost(*shard))
    }

    /// Writes `state` as the state of `shard`, and reports the shard and the
    /// state written.
    fn write_shard(&self, state: Externalities, shard: &ShardIdentifier) -> (r: (Result<H256, Error>, Ghost<(ShardIdentifier, Externalities)>))
        ensures
            r.1@ == (*shard, state),
    {
        let ghost written = (*shard, state);
        (self.state_handler.write_after_mutation(state, shard), Ghost(written))
    }

    /// Executes `trusted_calls` in order on a copy of the state of `shard`,
    /// prepared by `prepare_state_function` and migrated after a runtime
    /// upgrade, until `max_exec_duration` has passed.  A failed load of the
    /// state is an error; then nothing is prepared or executed.
    ///
    /// Each call that runs yields an executed operation (in the order of
    /// the calls); a call that hits an error of the machinery yields none.
    /// No call starts after the time is up.
    pub fn propose_state_update<C: TrustedCallApi + Clone, PH, F>(
        &self,
        trusted_calls: &[TrustedOperation<C>],
        header: &PH,
        shard: &ShardIdentifier,
        max_exec_duration: Duration,
        prepare_state_function: F,
    ) -> (r: Result<BatchExecutionResult<C>, Error>)
        where
            OCallApi: EnclaveOCallApi<PH>,
            Stf: StateTransitionFunction<C, PH, NodeMetadataRepository>,
            F: FnOnce(Externalities) -> Externalities,
        requires
            forall|s: Externalities| prepare_state_function.requires((s,)),
        ensures
            r matches Ok(b) ==> batch_within(b.executed_operations@, trusted_calls@, *shard, max_exec_duration),
    {
        let (r, Ghost(readings)) = self.propose_state_update_timed(
            trusted_calls, header, shard, max_exec_duration, prepare_state_function);
        proof {
            if r is Ok {
                let b = r->Ok_0;
                assert(batch_ran(b.executed_operations@, trusted_calls@, *shard, deadline(readings[0], max_exec_duration), readings.drop_first()));
                assert(batch_within(b.executed_operations@, trusted_calls@, *shard, max_exec_duration));
            }
        }
        r
    }

    /// Proposes a state update as `propose_state_update` does, and gives the
    /// clock readings taken: first the start of the slot, then one before
    /// each call.  The deadline that the calls are held to is the start
    /// reading plus `max_exec_duration`.
    pub fn propose_state_update_timed<C: TrustedCallApi + Clone, PH, F>(
        &self,
        trusted_calls: &[TrustedOperation<C>],
        header: &PH,
        shard: &ShardIdentifier,
        max_exec_duration: Duration,
        prepare_state_function: F,
    ) -> (r: (Result<BatchExecutionResult<C>, Error>, Ghost<Seq<u128>>))
        where
            OCallApi: EnclaveOCallApi<PH>,
            Stf: StateTransitionFunction<C, PH, NodeMetadataRepository>,
            F: FnOnce(Externalities) -> Externalities,
        requires
            forall|s: Externalities| prepare_state_function.requires((s,)),
        ensures
            r.1@.len() >= 1,
            r.0 matches Ok(b) ==> batch_ran(b.executed_operations@, trusted_calls@, *shard,
                deadline(r.1@[0], max_exec_duration), r.1@.drop_first()),
    {
        let start = clock_nanos();
        let ghost first: Seq<u128> = seq![start];
        let ends_at: u128 = start + duration_nanos(max_exec_duration);

        let (state, state_hash_before_execution) = match prepared_batch_state::<C, PH, NodeMetadataRepository, Stf, F>(
            self.state_handler.load_cloned(shard),
            prepare_state_function,
        ) {
            Ok(x) => x,
            Err(e) => { return (Err(e), Ghost(first)); },
        };

        let (batch, Ghost(readings)) = self.execute_batch(state, state_hash_before_execution, trusted_calls, header, shard, ends_at);
        proof {
            assert((first + readings).drop_first() =~= readings);
            assert((first + readings)[0] == start);
            assert(batch_ran(batch.executed_operations@, trusted_calls@, *shard, deadline(start, max_exec_duration), readings));
        }
        (Ok(batch), Ghost(first + readings))
    }

    /// Executes `trusted_calls` in order on `state`, whose stored hash is
    /// `state_hash_before_execution`, reading the clock before each call and
    /// stopping at the first reading past `ends_at` (nanoseconds since the
    /// epoch).  Also gives the clock readings taken.
    ///
    /// The executed operations are the successful attempts, in the order of
    /// the calls; an attempt that hits an error of the machinery is dropped.
    pub fn execute_batch<C: TrustedCallApi + Clone, PH>(
        &self,
        state: Externalities,
        state_hash_before_execution: H256,
        trusted_calls: &[TrustedOperation<C>],
        header: &PH,
        shard: &ShardIdentifier,
        ends_at: u128,
    ) -> (r: (BatchExecutionResult<C>, Ghost<Seq<u128>>))
        where
            OCallApi: EnclaveOCallApi<PH>,
            Stf: StateTransitionFunction<C, PH, NodeMetadataRepository>,
        ensures
            r.0.state_hash_before_execution == state_hash_before_execution,
            batch_ran(r.0.executed_operations@, trusted_calls@, *shard, ends_at as int, r.1@),
    {
        let mut state = state;
        let mut executed_and_failed_calls: Vec<ExecutedOperation<C>> = Vec::new();
        let ghost mut attempts: Seq<Result<ExecutedOperation<C>, Error>> = Seq::empty();
        let ghost mut readings: Seq<u128> = Seq::empty();

        let mut i: usize = 0;
        while i < trusted_calls.len()
            invariant_except_break
                readings.len() == i,
            invariant
                i <= trusted_calls@.len(),
                attempts.len() == i,
                attempted_in_order(attempts, trusted_calls@, *shard),
                executed_and_failed_calls@ == ok_values(attempts),
                forall|k: int| 0 <= k < i ==> #[trigger] readings[k] <= ends_at,
            ensures
                attempted_in_order(attempts, trusted_calls@, *shard),
                executed_and_failed_calls@ == ok_values(attempts),
                stopped_at_deadline(attempts.len(), trusted_calls@.len(), ends_at as int, readings),
            decreases trusted_calls@.len() - i,
        {
            let now = clock_nanos();
            proof {
                readings = readings.push(now);
            }
            if deadline_passed(ends_at, now) {
                break;
            }
            let attempt = self.execute_trusted_call_on_stf(
                &mut state,
                &trusted_calls[i],
                header,
                shard,
                StatePostProcessing::Keep,
            );
            proof {
                lemma_ok_values_push(attempts, attempt);
                attempts = attempts.push(attempt);
            }
            record_attempt(&mut executed_and_failed_calls, attempt);
            i = i + 1;
        }

        (
            BatchExecutionResult {
                executed_operations: executed_and_failed_calls,
                state_hash_before_execution,
                state_after_execution: state,
            },
            Ghost(readings),
        )
    }
}

/// What every successful attempt of `op` on `shard` is: it carries the
/// operation; an operation that can never run is a failure with no calls to
/// the parentchain; a success carries the operation's hash.
pub open spec fn executed_from<C: TrustedCallApi>(e: ExecutedOperation<C>, op: TrustedOperation<C>, shard: ShardIdentifier) -> bool {
    &&& e.trusted_operation_or_hash is Operation
    &&& rejected_for_every_enclave(&op, shard) ==> (e.status == ExecutionStatus::Failure && e.extrinsic_call_backs@.len() == 0)
    &&& e.status matches ExecutionStatus::Success(h, _) ==> {
        &&& h@ == spec_operation_hash(&op)
        &&& !rejected_for_every_enclave(&op, shard)
    }
}

/// The values of the successful attempts, in order.
pub open spec fn ok_values<T, E>(attempts: Seq<Result<T, E>>) -> Seq<T>
    decreases attempts.len(),
{
    if attempts.len() == 0 {
        Seq::empty()
    } else {
        let rest = ok_values(attempts.drop_last());
        match attempts.last() {
            Ok(v) => rest.push(v),
            Err(_) => rest,
        }
    }
}

/// `attempts` are attempts of the first calls of `calls`, one for each, in
/// the order of the calls.
pub open spec fn attempted_in_order<C: TrustedCallApi>(
    attempts: Seq<Result<ExecutedOperation<C>, Error>>,
    calls: Seq<TrustedOperation<C>>,
    shard: ShardIdentifier,
) -> bool {
    &&& attempts.len() <= calls.len()
    &&& forall|k: int| 0 <= k < attempts.len() ==>
        (#[trigger] attempts[k] matches Ok(e) ==> executed_from(e, calls[k], shard))
}

/// The deadline of a batch that starts at the clock reading `start` and may
/// run for `max_exec_duration`.
pub open spec fn deadline(start: u128, max_exec_duration: Duration) -> int {
    start + spec_duration_nanos(max_exec_duration)
}

/// A batch that started at some clock reading and ran for at most
/// `max_exec_duration`: `ops` are the successful attempts, in order, of the
/// calls attempted before the deadline, the start plus `max_exec_duration`.
pub open spec fn batch_within<C: TrustedCallApi>(
    ops: Seq<ExecutedOperation<C>>,
    calls: Seq<TrustedOperation<C>>,
    shard: ShardIdentifier,
    max_exec_duration: Duration,
) -> bool {
    exists|start: u128, readings: Seq<u128>|
        #[trigger] batch_ran(ops, calls, shard, deadline(start, max_exec_duration), readings)
}

/// A batch of `total` calls that attempted the first `attempted` of them,
/// reading the clock before each: every attempted call started at a reading
/// no later than `ends_at`, and the batch stopped early only at a reading
/// past it.
pub open spec fn stopped_at_deadline(attempted: nat, total: nat, ends_at: int, readings: Seq<u128>) -> bool {
    &&& attempted <= total
    &&& forall|k: int| 0 <= k < attempted ==> #[trigger] readings[k] <= ends_at
    &&& if attempted == total {
        readings.len() == attempted
    } else {
        readings.len() == attempted + 1 && readings.last() > ends_at
    }
}

/// A batch with the deadline `ends_at` that read the clock `readings`:
/// `ops` are the successful attempts, in order, of the calls of the prefix
/// of `calls` that was attempted before the deadline (a call that hit an
/// error of the machinery yields none).
pub open spec fn batch_ran<C: TrustedCallApi>(
    ops: Seq<ExecutedOperation<C>>,
    calls: Seq<TrustedOperation<C>>,
    shard: ShardIdentifier,
    ends_at: int,
    readings: Seq<u128>,
) -> bool {
    exists|attempts: Seq<Result<ExecutedOperation<C>, Error>>| {
        &&& attempted_in_order(attempts, calls, shard)
        &&& ops == #[trigger] ok_values(attempts)
        &&& stopped_at_deadline(attempts.len(), calls.len(), ends_at, readings)
    }
}

/// Adds the outcome of one attempt to the executed operations: a
/// successful attempt is appended, one that hit an error of the machinery
/// is dropped.
pub fn record_attempt<C>(ops: &mut Vec<ExecutedOperation<C>>, attempt: Result<ExecutedOperation<C>, Error>)
    ensures
        final(ops)@ == old(ops)@ + ok_values(seq![attempt]),
{
    proof {
        lemma_ok_values_one(attempt);
    }
    match attempt {
        Ok(e) => {
            ops.push(e);
        },
        Err(_) => {},
    }
    proof {
        assert(ops@ =~= old(ops)@ + ok_values(seq![attempt]));
    }
}

/// The successful values of a single attempt.
proof fn lemma_ok_values_one<T, E>(a: Result<T, E>)
    ensures
        a matches Ok(v) ==> ok_values(seq![a]) == seq![v],
        a is Err ==> ok_values(seq![a]) == Seq::<T>::empty(),
{
    assert(seq![a].drop_last() =~= Seq::<Result<T, E>>::empty());
    assert(ok_values(Seq::<Result<T, E>>::empty()) == Seq::<T>::empty());
    assert(seq![a].last() == a);
    if let Ok(v) = a {
        assert(Seq::<T>::empty().push(v) =~= seq![v]);
    }
}

/// The successful values of attempts followed by one more.
proof fn lemma_ok_values_push<T, E>(prev: Seq<Result<T, E>>, a: Result<T, E>)
    ensures
        ok_values(prev.push(a)) == ok_values(prev) + ok_values(seq![a]),
{
    lemma_ok_values_one(a);
    assert(prev.push(a).drop_last() =~= prev);
    assert(prev.push(a).last() == a);
    if let Ok(v) = a {
        assert(ok_values(prev).push(v) =~= ok_values(prev) + seq![v]);
    } else {
        assert(ok_values(prev) =~= ok_values(prev) + Seq::<T>::empty());
    }
}

/// The number of successful attempts is at most the number of attempts.
proof fn lemma_ok_values_len<T, E>(attempts: Seq<Result<T, E>>)
    ensures
        ok_values(attempts).len() <= attempts.len(),
    decreases attempts.len(),
{
    if attempts.len() > 0 {
        lemma_ok_values_len(attempts.drop_last());
    }
}

/// Law: a batch is held to its deadline.  It executes at most one
/// operation per call; every clock reading but the last one taken is within
/// the deadline; when no reading is past the deadline every call was
/// attempted; and when the first reading is already past it, no call ran.
pub proof fn lemma_batch_respects_deadline<C: TrustedCallApi>(
    ops: Seq<ExecutedOperation<C>>,
    calls: Seq<TrustedOperation<C>>,
    shard: ShardIdentifier,
    ends_at: int,
    readings: Seq<u128>,
)
    requires
        batch_ran(ops, calls, shard, ends_at, readings),
    ensures
        ops.len() <= calls.len(),
        readings.len() <= calls.len() + 1,
        forall|k: int| 0 <= k < readings.len() - 1 ==> #[trigger] readings[k] <= ends_at,
        (forall|k: int| 0 <= k < readings.len() ==> #[trigger] readings[k] <= ends_at) ==> readings.len() == calls.len(),
        readings.len() > 0 && readings[0] > ends_at ==> ops.len() == 0,
{
    let attempts = choose|attempts: Seq<Result<ExecutedOperation<C>, Error>>| {
        &&& attempted_in_order(attempts, calls, shard)
        &&& ops == #[trigger] ok_values(attempts)
        &&& stopped_at_deadline(attempts.len(), calls.len(), ends_at, readings)
    };
    lemma_ok_values_len(attempts);
    if readings.len() > 0 && readings[0] > ends_at {
        if attempts.len() > 0 {
            assert(readings[0] <= ends_at);
        }
        assert(attempts =~= Seq::<Result<ExecutedOperation<C>, Error>>::empty());
        assert(ok_values(attempts) =~= Seq::<ExecutedOperation<C>>::empty());
    }
    if forall|k: int| 0 <= k < readings.len() ==> #[trigger] readings[k] <= ends_at {
        if attempts.len() != calls.len() {
            assert(readings[readings.len() - 1] <= ends_at);
        }
    }
}

/// Law: a slot that starts at the clock reading `start` holds its calls to
/// `start` plus `max_exec_duration`; with a zero budget a call starts only
/// at a reading no later than the start.
pub proof fn lemma_slot_is_start_plus_budget<C: TrustedCallApi>(
    ops: Seq<ExecutedOperation<C>>,
    calls: Seq<TrustedOperation<C>>,
    shard: ShardIdentifier,
    start: u128,
    max_exec_duration: Duration,
    readings: Seq<u128>,
)
    requires
        batch_ran(ops, calls, shard, deadline(start, max_exec_duration), readings),
    ensures
        forall|k: int| 0 <= k < readings.len() - 1 ==>
            #[trigger] readings[k] <= start + spec_duration_nanos(max_exec_duration),
        spec_duration_nanos(max_exec_duration) == 0 ==>
            forall|k: int| 0 <= k < readings.len() - 1 ==> #[trigger] readings[k] <= start,
{
    lemma_batch_respects_deadline(ops, calls, shard, deadline(start, max_exec_duration), readings);
}

/// The change map of a read holds, for an entry that no later entry of the
/// same key overrides, that entry's value.
proof fn lemma_entries_map_at(entries: Seq<StorageEntry>, i: int)
    requires
        0 <= i < entries.len(),
        forall|j: int| i < j < entries.len() ==> (#[trigger] entries[j]).key@ != entries[i].key@,
    ensures
        entries_map(entries).contains_key(entries[i].key@),
        entries_map(entries)[entries[i].key@] == opt_view(entries[i].value),
    decreases entries.len(),
{
    if i < entries.len() - 1 {
        let rest = entries.drop_last();
        assert(rest[i] == entries[i]);
        assert forall|j: int| i < j < rest.len() implies (#[trigger] rest[j]).key@ != rest[i].key@ by {
            assert(rest[j] == entries[j]);
        }
        lemma_entries_map_at(rest, i);
        assert(entries.last() == entries[entries.len() - 1]);
    }
}

/// Law: a call that runs sees the parentchain storage read for it: for each
/// entry read that no later entry of the same key overrides, the state that
/// the STF runs on holds the entry's value, or lacks the key when the entry
/// is empty.  Returns that state.
pub proof fn lemma_run_call_sees_storage_read<C: TrustedCallApi, PH, N, S: StateTransitionFunction<C, PH, N>>(
    op: TrustedOperation<C>,
    shard: ShardIdentifier,
    repo: N,
    before: Externalities,
    entries: Seq<StorageEntry>,
    post_processing: StatePostProcessing,
    e: ExecutedOperation<C>,
    after: Externalities,
    i: int,
) -> (mid: Externalities)
    requires
        ran_on_read::<C, PH, N, S>(op, shard, repo, before, entries, post_processing, e, after),
        0 <= i < entries.len(),
        forall|j: int| i < j < entries.len() ==> (#[trigger] entries[j]).key@ != entries[i].key@,
    ensures
        stf_ran::<C, PH, N, S>(op, shard, repo, mid, post_processing, e, after),
        entries[i].value matches Some(v) ==> {
            &&& mid.storage().contains_key(entries[i].key@)
            &&& mid.storage()[entries[i].key@] == v@
        },
        entries[i].value is None ==> !mid.storage().contains_key(entries[i].key@),
{
    let mid = choose|mid: Externalities| {
        &&& #[trigger] with_changes(before, entries_map(entries), mid)
        &&& stf_ran::<C, PH, N, S>(op, shard, repo, mid, post_processing, e, after)
    };
    lemma_entries_map_at(entries, i);
    mid
}

/// Law: after a successful update on a block, every shard that the block's
/// storage changes announce has been written, in the order announced.
pub proof fn lemma_every_announced_shard_is_written<C, PH, N, S: StateTransitionFunction<C, PH, N>>(
    report: BlockUpdateReport,
    header: PH,
)
    requires
        block_update_done::<C, PH, N, S>(report, header),
    ensures
        forall|i: int| 0 <= i < announced_shards(report.1, S::spec_shards_key_hash()@).len() ==> {
            &&& (#[trigger] report.3[i]).shard@ == announced_shards(report.1, S::spec_shards_key_hash()@)[i]
            &&& report.3[i].written_to == report.3[i].shard
        },
        report.3.len() == announced_shards(report.1, S::spec_shards_key_hash()@).len(),
{
}

/// Law: an announced shard is written with the common changes in force
/// over its own storage: before the block is recorded, a key that the
/// common changes set reads the common value, a key they clear is absent,
/// and a key that only the shard's own storage sets reads its own value.
/// Returns that state.
pub proof fn lemma_announced_shard_sees_common_over_own<C, PH, N, S: StateTransitionFunction<C, PH, N>>(
    report: BlockUpdateReport,
    header: PH,
    k: int,
    key: Seq<u8>,
) -> (mid: Externalities)
    requires
        block_update_done::<C, PH, N, S>(report, header),
        0 <= k < report.3.len(),
    ensures
        report.3[k].written == S::spec_update_parentchain_block(mid, header).0,
        report.1.contains_key(key) && report.1[key] is Some ==> {
            &&& mid.storage().contains_key(key)
            &&& mid.storage()[key] == report.1[key].unwrap()
        },
        report.1.contains_key(key) && report.1[key] is None ==> !mid.storage().contains_key(key),
        !report.1.contains_key(key) && entries_map(report.3[k].read@).contains_key(key)
            && entries_map(report.3[k].read@)[key] is Some ==> {
            &&& mid.storage().contains_key(key)
            &&& mid.storage()[key] == entries_map(report.3[k].read@)[key].unwrap()
        },
{
    let rec = report.3[k];
    assert(announced_shard_written::<C, PH, N, S>(rec, report.1, header));
    let mid = choose|mid: Externalities| {
        &&& #[trigger] mid.storage() == apply_map(apply_map(rec.loaded.storage(), entries_map(rec.read@)), report.1)
        &&& mid.diff() == rec.loaded.diff().union_prefer_right(entries_map(rec.read@)).union_prefer_right(report.1)
        &&& rec.written == S::spec_update_parentchain_block(mid, header).0
    };
    mid
}

} // verus!
