use parity_scale_codec::Encode;
use std::collections::HashMap;
use std::sync::{Arc, Mutex};
use std::time::Duration;
use tee_worker::executor::{
    check_call, conclude_execution, deadline_passed, initialize_announced_shard, prepared_batch_state, record_attempt,
    shards_to_initialize, storage_update,
    update_existing_shard, EnclaveOCallApi, Error, ExecutionStatus, HandleState, OpaqueCall,
    ShardIdentifier, StateTransitionFunction, StatePostProcessing, StfExecutor, TrustedCallApi,
    TrustedOperation, TrustedOperationOrHash, H256,
};
use tee_worker::getter::{Getter, PublicGetter};
use tee_worker::state::{Externalities, StateDiff, StorageEntry};

#[derive(Clone, Debug)]
struct Call {
    signed: bool,
    fails: bool,
    key: Vec<u8>,
}

impl TrustedCallApi for Call {
    fn spec_verify_signature(&self, mrenclave: [u8; 32], _shard: ShardIdentifier) -> bool {
        self.signed && mrenclave == [1u8; 32]
    }

    fn spec_storage_hashes(&self) -> Vec<Vec<u8>> {
        vec![b"parent".to_vec()]
    }

    fn spec_encode(&self) -> Vec<u8> {
        self.key.clone()
    }

    fn verify_signature(&self, mrenclave: &[u8; 32], _shard: &ShardIdentifier) -> bool {
        self.signed && *mrenclave == [1u8; 32]
    }

    fn get_storage_hashes_to_update(&self) -> Vec<Vec<u8>> {
        vec![b"parent".to_vec()]
    }

    fn encode(&self) -> Vec<u8> {
        self.key.clone()
    }
}

struct OCall {
    mrenclave_ok: bool,
    storage_ok: bool,
    storage: Vec<(Vec<u8>, Option<Vec<u8>>)>,
}

impl EnclaveOCallApi<u32> for OCall {
    fn get_mrenclave_of_self(&self) -> Result<[u8; 32], Error> {
        if self.mrenclave_ok { Ok([1u8; 32]) } else { Err(Error::OCallApi) }
    }

    fn get_multiple_storages_verified(&self, storage_hashes: Vec<Vec<u8>>, _header: &u32) -> Result<Vec<StorageEntry>, Error> {
        if !self.storage_ok {
            return Err(Error::OCallApi);
        }
        Ok(storage_hashes
            .into_iter()
            .map(|k| {
                let value = self.storage.iter().find(|(kk, _)| *kk == k).and_then(|(_, v)| v.clone());
                StorageEntry { key: k, value }
            })
            .collect())
    }
}

#[derive(Default)]
struct Handler {
    states: Mutex<HashMap<ShardIdentifier, Externalities>>,
    writes: Mutex<Vec<ShardIdentifier>>,
}

impl HandleState for Handler {
    fn list_shards(&self) -> Result<Vec<ShardIdentifier>, Error> {
        let mut v: Vec<ShardIdentifier> = self.states.lock().unwrap().keys().cloned().collect();
        v.sort();
        Ok(v)
    }

    fn load_for_mutation(&self, shard: &ShardIdentifier) -> Result<Externalities, Error> {
        Ok(self.states.lock().unwrap().get(shard).cloned().unwrap_or_else(Externalities::new))
    }

    fn write_after_mutation(&self, state: Externalities, shard: &ShardIdentifier) -> Result<H256, Error> {
        self.states.lock().unwrap().insert(*shard, state);
        self.writes.lock().unwrap().push(*shard);
        Ok([0u8; 32])
    }

    fn load_cloned(&self, shard: &ShardIdentifier) -> Result<(Externalities, H256), Error> {
        Ok((self.load_for_mutation(shard)?, [3u8; 32]))
    }
}

struct Stf;

impl StateTransitionFunction<Call, u32, ()> for Stf {
    fn spec_execute_call(
        state: Externalities,
        shard: ShardIdentifier,
        call: Call,
        top_hash: H256,
        repo: (),
    ) -> (Externalities, Vec<OpaqueCall>, Result<Vec<u8>, Error>) {
        let mut s = state;
        let mut calls = Vec::new();
        let r = Self::execute_call(&mut s, &shard, &call, top_hash, &mut calls, Arc::new(repo));
        (s, calls, r)
    }

    fn spec_storage_hashes_on_block() -> Vec<Vec<u8>> {
        vec![b"common".to_vec(), b"shards".to_vec()]
    }

    fn spec_shards_key_hash() -> Vec<u8> {
        b"shards".to_vec()
    }

    fn spec_storage_hashes_per_shard(_shard: ShardIdentifier) -> Vec<Vec<u8>> {
        vec![b"own".to_vec()]
    }

    fn spec_update_parentchain_block(state: Externalities, header: u32) -> (Externalities, Result<(), Error>) {
        let mut s = state;
        let r = Self::update_parentchain_block(&mut s, &header);
        (s, r)
    }

    fn execute_call(
        state: &mut Externalities,
        _shard: &ShardIdentifier,
        call: &Call,
        _top_hash: H256,
        calls: &mut Vec<OpaqueCall>,
        _node_metadata_repo: Arc<()>,
    ) -> Result<Vec<u8>, Error> {
        calls.push(vec![0xcb]);
        if call.fails {
            return Err(Error::Stf);
        }
        state.insert(&call.key, b"done");
        Ok(vec![9])
    }

    fn update_parentchain_block(state: &mut Externalities, header: &u32) -> Result<(), Error> {
        state.insert(b"block", &header.to_le_bytes());
        Ok(())
    }

    fn spec_on_runtime_upgrade(state: Externalities) -> (Externalities, Result<(), Error>) {
        let mut s = state;
        let r = Self::on_runtime_upgrade(&mut s);
        (s, r)
    }

    fn on_runtime_upgrade(state: &mut Externalities) -> Result<(), Error> {
        state.insert(b"migrated", b"1");
        Ok(())
    }

    fn storage_hashes_to_update_on_block() -> Vec<Vec<u8>> {
        vec![b"common".to_vec(), b"shards".to_vec()]
    }

    fn shards_key_hash() -> Vec<u8> {
        b"shards".to_vec()
    }

    fn storage_hashes_to_update_per_shard(_shard: &ShardIdentifier) -> Vec<Vec<u8>> {
        vec![b"own".to_vec()]
    }
}

struct QuietStf;

impl StateTransitionFunction<Call, u32, ()> for QuietStf {
    fn spec_execute_call(state: Externalities, _: ShardIdentifier, _: Call, _: H256, _: ()) -> (Externalities, Vec<OpaqueCall>, Result<Vec<u8>, Error>) {
        (state, Vec::new(), Ok(Vec::new()))
    }

    fn spec_storage_hashes_on_block() -> Vec<Vec<u8>> {
        Vec::new()
    }

    fn spec_shards_key_hash() -> Vec<u8> {
        Vec::new()
    }

    fn spec_storage_hashes_per_shard(_: ShardIdentifier) -> Vec<Vec<u8>> {
        Vec::new()
    }

    fn spec_update_parentchain_block(state: Externalities, _: u32) -> (Externalities, Result<(), Error>) {
        (state, Err(Error::Stf))
    }

    fn execute_call(_: &mut Externalities, _: &ShardIdentifier, _: &Call, _: H256, _: &mut Vec<OpaqueCall>, _: Arc<()>) -> Result<Vec<u8>, Error> {
        Ok(Vec::new())
    }

    fn update_parentchain_block(_: &mut Externalities, _: &u32) -> Result<(), Error> {
        Err(Error::Stf)
    }

    fn spec_on_runtime_upgrade(state: Externalities) -> (Externalities, Result<(), Error>) {
        (state, Err(Error::Stf))
    }

    fn on_runtime_upgrade(_: &mut Externalities) -> Result<(), Error> {
        Err(Error::Stf)
    }

    fn storage_hashes_to_update_on_block() -> Vec<Vec<u8>> {
        Vec::new()
    }

    fn shards_key_hash() -> Vec<u8> {
        Vec::new()
    }

    fn storage_hashes_to_update_per_shard(_: &ShardIdentifier) -> Vec<Vec<u8>> {
        Vec::new()
    }
}

fn ocall(mrenclave_ok: bool, storage_ok: bool) -> OCall {
    OCall { mrenclave_ok, storage_ok, storage: vec![(b"parent".to_vec(), Some(b"p".to_vec()))] }
}

fn executor(o: OCall) -> StfExecutor<OCall, Handler, (), Stf> {
    StfExecutor::new(Arc::new(o), Arc::new(Handler::default()), Arc::new(()))
}

fn good_call() -> TrustedOperation<Call> {
    TrustedOperation::direct_call(Call { signed: true, fails: false, key: b"k".to_vec() })
}

const SHARD: ShardIdentifier = [5u8; 32];

#[test]
fn a_successful_call_updates_storage_and_executes() {
    let ex = executor(ocall(true, true));
    let mut state = Externalities::new();
    let r = ex.execute_trusted_call_on_stf(&mut state, &good_call(), &1u32, &SHARD, StatePostProcessing::Keep).unwrap();
    let expected_hash = sp_core::hashing::blake2_256(&[1u8, b'k']);
    match &r.status {
        ExecutionStatus::Success(h, rpc) => {
            assert_eq!(*h, expected_hash);
            assert_eq!(*rpc, vec![9]);
        },
        ExecutionStatus::Failure => panic!("expected success"),
    }
    assert_eq!(r.extrinsic_call_backs, vec![vec![0xcb]]);
    assert!(matches!(r.trusted_operation_or_hash, TrustedOperationOrHash::Operation(_)));
    assert_eq!(state.get(b"parent"), Some(b"p".to_vec()));
    assert_eq!(state.get(b"k"), Some(b"done".to_vec()));
    assert_eq!(state.state_diff().get(b"k"), Some(Some(b"done".to_vec())));
}

#[test]
fn pruning_after_success_forgets_the_diff() {
    let ex = executor(ocall(true, true));
    let mut state = Externalities::new();
    let r = ex.execute_trusted_call_on_stf(&mut state, &good_call(), &1u32, &SHARD, StatePostProcessing::Prune).unwrap();
    assert!(matches!(r.status, ExecutionStatus::Success(_, _)));
    assert!(state.state_diff().is_empty());
    assert_eq!(state.get(b"k"), Some(b"done".to_vec()));
}

#[test]
fn a_getter_is_not_a_call_and_fails_without_touching_the_state() {
    let ex = executor(ocall(true, true));
    let mut state = Externalities::new();
    let op: TrustedOperation<Call> = TrustedOperation::get(Getter::from(PublicGetter::some_value));
    let r = ex.execute_trusted_call_on_stf(&mut state, &op, &1u32, &SHARD, StatePostProcessing::Keep).unwrap();
    assert!(matches!(r.status, ExecutionStatus::Failure));
    assert!(r.extrinsic_call_backs.is_empty());
    assert_eq!(state.get(b"parent"), None);
}

#[test]
fn a_bad_signature_fails_without_touching_the_state() {
    let ex = executor(ocall(true, true));
    let mut state = Externalities::new();
    let op = TrustedOperation::indirect_call(Call { signed: false, fails: false, key: b"k".to_vec() });
    let r = ex.execute_trusted_call_on_stf(&mut state, &op, &1u32, &SHARD, StatePostProcessing::Keep).unwrap();
    assert!(matches!(r.status, ExecutionStatus::Failure));
    assert_eq!(state.get(b"parent"), None);
    assert_eq!(state.get(b"k"), None);
}

#[test]
fn machinery_errors_are_errors_and_leave_the_state() {
    let mut state = Externalities::new();
    let r = executor(ocall(false, true)).execute_trusted_call_on_stf(&mut state, &good_call(), &1u32, &SHARD, StatePostProcessing::Keep);
    assert!(matches!(r, Err(Error::OCallApi)));
    let r = executor(ocall(true, false)).execute_trusted_call_on_stf(&mut state, &good_call(), &1u32, &SHARD, StatePostProcessing::Keep);
    assert!(matches!(r, Err(Error::OCallApi)));
    assert!(state.state_diff().is_empty());
    assert_eq!(state.get(b"parent"), None);
}

#[test]
fn an_stf_failure_keeps_the_calls_collected() {
    let ex = executor(ocall(true, true));
    let mut state = Externalities::new();
    let op = TrustedOperation::direct_call(Call { signed: true, fails: true, key: b"k".to_vec() });
    let r = ex.execute_trusted_call_on_stf(&mut state, &op, &1u32, &SHARD, StatePostProcessing::Prune).unwrap();
    assert!(matches!(r.status, ExecutionStatus::Failure));
    assert_eq!(r.extrinsic_call_backs, vec![vec![0xcb]]);
}

#[test]
fn a_batch_executes_every_call_in_order() {
    let ex = executor(ocall(true, true));
    let calls = vec![
        good_call(),
        TrustedOperation::get(Getter::from(PublicGetter::some_value)),
        TrustedOperation::indirect_call(Call { signed: true, fails: false, key: b"k2".to_vec() }),
    ];
    let b = ex.propose_state_update(&calls, &1u32, &SHARD, Duration::from_secs(60), |s| s).unwrap();
    assert_eq!(b.executed_operations.len(), 3);
    assert!(matches!(b.executed_operations[0].status, ExecutionStatus::Success(_, _)));
    assert!(matches!(b.executed_operations[1].status, ExecutionStatus::Failure));
    assert!(matches!(b.executed_operations[2].status, ExecutionStatus::Success(_, _)));
    assert_eq!(b.state_hash_before_execution, [3u8; 32]);
    assert_eq!(b.state_after_execution.get(b"k2"), Some(b"done".to_vec()));
}

#[test]
fn a_batch_drops_calls_that_hit_machinery_errors() {
    let ex = executor(ocall(true, false));
    let b = ex.propose_state_update(&vec![good_call(), good_call()], &1u32, &SHARD, Duration::from_secs(60), |s| s).unwrap();
    assert!(b.executed_operations.is_empty());
}

#[test]
fn a_batch_starts_from_the_prepared_state() {
    let ex = executor(ocall(true, true));
    let b = ex
        .propose_state_update(&Vec::new(), &1u32, &SHARD, Duration::from_secs(60), |mut s: Externalities| {
            s.insert(b"prepared", b"yes");
            s
        })
        .unwrap();
    assert_eq!(b.state_after_execution.get(b"prepared"), Some(b"yes".to_vec()));
    assert_eq!(b.state_after_execution.get(b"migrated"), Some(b"1".to_vec()));
}

#[test]
fn a_batch_with_no_time_left_runs_nothing() {
    let ex = executor(ocall(true, true));
    let b = ex.propose_state_update(&vec![good_call()], &1u32, &SHARD, Duration::ZERO, |s| s).unwrap();
    assert!(b.executed_operations.len() <= 1);
    assert_eq!(b.state_hash_before_execution, [3u8; 32]);
}

#[test]
fn a_failed_load_is_returned_before_preparing() {
    let mut prepared = false;
    let r = prepared_batch_state::<Call, u32, (), Stf, _>(Err(Error::StateHandler), |s| {
        prepared = true;
        s
    });
    assert_eq!(r.unwrap_err(), Error::StateHandler);
    assert!(!prepared);
}

#[test]
fn a_loaded_state_is_prepared_then_migrated_with_its_hash_kept() {
    let r = prepared_batch_state::<Call, u32, (), Stf, _>(Ok((Externalities::new(), [5u8; 32])), |mut s: Externalities| {
        s.insert(b"prepared", b"yes");
        s
    });
    let (state, hash) = r.unwrap();
    assert_eq!(hash, [5u8; 32]);
    assert_eq!(state.get(b"prepared"), Some(b"yes".to_vec()));
    assert_eq!(state.get(b"migrated"), Some(b"1".to_vec()));
}

#[test]
fn a_failed_migration_still_starts_the_batch() {
    let r = prepared_batch_state::<Call, u32, (), QuietStf, _>(Ok((Externalities::new(), [6u8; 32])), |s| s);
    assert_eq!(r.unwrap().1, [6u8; 32]);
}

#[test]
fn without_block_storage_nothing_is_updated() {
    let handler = Arc::new(Handler::default());
    let ex: StfExecutor<OCall, Handler, (), QuietStf> = StfExecutor::new(Arc::new(ocall(true, true)), handler.clone(), Arc::new(()));
    assert!(ex.update_states::<Call, u32>(&7u32).is_ok());
    assert!(handler.writes.lock().unwrap().is_empty());
}

#[test]
fn new_blocks_update_existing_and_announced_shards() {
    let existing: ShardIdentifier = [1u8; 32];
    let announced: ShardIdentifier = [2u8; 32];
    let handler = Arc::new(Handler::default());
    handler.states.lock().unwrap().insert(existing, Externalities::new());
    let o = OCall {
        mrenclave_ok: true,
        storage_ok: true,
        storage: vec![
            (b"common".to_vec(), Some(b"c".to_vec())),
            (b"shards".to_vec(), Some(vec![announced].encode())),
            (b"own".to_vec(), Some(b"o".to_vec())),
        ],
    };
    let ex: StfExecutor<OCall, Handler, (), Stf> = StfExecutor::new(Arc::new(o), handler.clone(), Arc::new(()));
    assert!(ex.update_states::<Call, u32>(&7u32).is_ok());
    assert_eq!(*handler.writes.lock().unwrap(), vec![existing, announced]);
    let states = handler.states.lock().unwrap();
    let old = states.get(&existing).unwrap();
    assert_eq!(old.get(b"block"), Some(7u32.to_le_bytes().to_vec()));
    assert_eq!(old.get(b"common"), None);
    let new = states.get(&announced).unwrap();
    assert_eq!(new.get(b"common"), Some(b"c".to_vec()));
    assert_eq!(new.get(b"own"), Some(b"o".to_vec()));
    assert_eq!(new.get(b"block"), Some(7u32.to_le_bytes().to_vec()));
}

#[test]
fn announced_shards_are_decoded_from_the_shard_list() {
    let mut d = StateDiff::new();
    assert!(matches!(shards_to_initialize(&d, b"shards"), Ok(None)));
    d.insert(b"shards".to_vec(), None);
    assert!(matches!(shards_to_initialize(&d, b"shards"), Ok(None)));
    d.insert(b"shards".to_vec(), Some(vec![[8u8; 32], [9u8; 32]].encode()));
    assert_eq!(shards_to_initialize(&d, b"shards").unwrap(), Some(vec![[8u8; 32], [9u8; 32]]));
    d.insert(b"shards".to_vec(), Some(vec![4u8, 1, 2]));
    assert!(matches!(shards_to_initialize(&d, b"shards"), Err(Error::Codec)));
}

#[test]
fn concluding_a_call_reports_the_stf_result() {
    let mut state = Externalities::new();
    state.insert(b"k", b"v");
    let e = conclude_execution::<Call>(&mut state, Err(Error::Stf), [6u8; 32], TrustedOperationOrHash::Hash([1u8; 32]), vec![vec![2]], StatePostProcessing::Prune);
    assert!(matches!(e.status, ExecutionStatus::Failure));
    assert_eq!(e.extrinsic_call_backs, vec![vec![2]]);
    assert!(!state.state_diff().is_empty());
    let e = conclude_execution::<Call>(&mut state, Ok(vec![4]), [6u8; 32], TrustedOperationOrHash::Hash([1u8; 32]), Vec::new(), StatePostProcessing::Keep);
    assert!(matches!(e.status, ExecutionStatus::Success(h, ref r) if h == [6u8; 32] && *r == vec![4]));
    assert!(!state.state_diff().is_empty());
    let _ = conclude_execution::<Call>(&mut state, Ok(vec![4]), [6u8; 32], TrustedOperationOrHash::Hash([1u8; 32]), Vec::new(), StatePostProcessing::Prune);
    assert!(state.state_diff().is_empty());
    assert_eq!(state.get(b"k"), Some(b"v".to_vec()));
}

#[test]
fn only_calls_with_a_valid_signature_may_run() {
    let good = good_call();
    assert_eq!(check_call(&good, &[1u8; 32], &SHARD), Some(vec![b"parent".to_vec()]));
    assert_eq!(check_call(&good, &[2u8; 32], &SHARD), None);
    let unsigned = TrustedOperation::direct_call(Call { signed: false, fails: false, key: b"k".to_vec() });
    assert_eq!(check_call(&unsigned, &[1u8; 32], &SHARD), None);
    let get: TrustedOperation<Call> = TrustedOperation::get(Getter::from(PublicGetter::some_value));
    assert_eq!(check_call(&get, &[1u8; 32], &SHARD), None);
}

#[test]
fn a_storage_read_becomes_its_changes_or_its_error() {
    let d = storage_update(Ok(vec![StorageEntry { key: b"a".to_vec(), value: Some(b"1".to_vec()) }])).unwrap();
    assert_eq!(d.get(b"a"), Some(Some(b"1".to_vec())));
    assert!(matches!(storage_update(Err(Error::OCallApi)), Err(Error::OCallApi)));
}

#[test]
fn an_existing_shard_is_written_only_when_the_block_is_recorded() {
    let s = update_existing_shard::<Call, u32, (), Stf>(Ok(Externalities::new()), &4u32).unwrap().unwrap();
    assert_eq!(s.get(b"block"), Some(4u32.to_le_bytes().to_vec()));
    assert!(update_existing_shard::<Call, u32, (), QuietStf>(Ok(Externalities::new()), &4u32).unwrap().is_none());
}

#[test]
fn a_shard_that_cannot_be_loaded_stops_the_update() {
    let r = update_existing_shard::<Call, u32, (), Stf>(Err(Error::StateHandler), &4u32);
    assert_eq!(r.unwrap_err(), Error::StateHandler);
}

#[test]
fn an_announced_shard_takes_its_own_then_the_common_storage() {
    let own = || {
        vec![
            StorageEntry { key: b"x".to_vec(), value: Some(b"own".to_vec()) },
            StorageEntry { key: b"y".to_vec(), value: Some(b"own".to_vec()) },
        ]
    };
    let mut common = StateDiff::new();
    common.insert(b"y".to_vec(), Some(b"common".to_vec()));
    let s = initialize_announced_shard::<Call, u32, (), Stf>(Externalities::new(), Ok(own()), &common, &9u32).unwrap();
    assert_eq!(s.get(b"x"), Some(b"own".to_vec()));
    assert_eq!(s.get(b"y"), Some(b"common".to_vec()));
    assert_eq!(s.get(b"block"), Some(9u32.to_le_bytes().to_vec()));
    let q = initialize_announced_shard::<Call, u32, (), QuietStf>(Externalities::new(), Ok(own()), &common, &9u32).unwrap();
    assert_eq!(q.get(b"y"), Some(b"common".to_vec()));
}

#[test]
fn an_announced_shard_whose_storage_cannot_be_read_stops_the_update() {
    let common = StateDiff::new();
    let r = initialize_announced_shard::<Call, u32, (), Stf>(Externalities::new(), Err(Error::OCallApi), &common, &9u32);
    assert_eq!(r.unwrap_err(), Error::OCallApi);
}

#[test]
fn a_batch_keeps_the_stored_hash_and_runs_nothing_after_the_deadline() {
    let ex = executor(ocall(true, true));
    let (b, _) = ex.execute_batch(Externalities::new(), [8u8; 32], &vec![good_call()], &1u32, &SHARD, 0);
    assert_eq!(b.state_hash_before_execution, [8u8; 32]);
    assert!(b.executed_operations.is_empty());
    let (b, _) = ex.execute_batch(Externalities::new(), [8u8; 32], &vec![good_call(), good_call()], &1u32, &SHARD, u128::MAX);
    assert_eq!(b.executed_operations.len(), 2);
}

#[test]
fn only_successful_attempts_are_recorded() {
    let mut ops = Vec::new();
    record_attempt::<Call>(&mut ops, Err(Error::OCallApi));
    assert!(ops.is_empty());
    let failed = tee_worker::executor::ExecutedOperation::failed(TrustedOperationOrHash::Hash([4u8; 32]), vec![vec![1]]);
    record_attempt::<Call>(&mut ops, Ok(failed));
    assert_eq!(ops.len(), 1);
    assert!(matches!(ops[0].trusted_operation_or_hash, TrustedOperationOrHash::Hash(h) if h == [4u8; 32]));
    assert_eq!(ops[0].extrinsic_call_backs, vec![vec![1]]);
}

#[test]
fn the_deadline_passes_only_after_it() {
    assert!(!deadline_passed(10, 9));
    assert!(!deadline_passed(10, 10));
    assert!(deadline_passed(10, 11));
}

#[test]
fn a_long_budget_runs_every_call() {
    let ex = executor(ocall(true, true));
    let b = ex.propose_state_update(&vec![good_call(), good_call(), good_call()], &1u32, &SHARD, Duration::MAX, |s| s).unwrap();
    assert_eq!(b.executed_operations.len(), 3);
}
