//! The factory of the components behind the calls that the enclave makes
//! into the untrusted worker (ocalls): remote attestation, sidechain,
//! on-chain, IPFS and metrics.
use vstd::prelude::*;
use std::marker::PhantomData;
use std::sync::Arc;

verus! {

/// Another pointer to the same shared value (`Arc::clone`).
#[verifier::external_body]
fn clone_arc<T>(a: &Arc<T>) -> (r: Arc<T>)
    ensures
        *r == **a,
{
    a.clone()
}

/// Remote attestation ocalls, served by the enclave API.
pub struct RemoteAttestationOCall<EnclaveApi> {
    pub enclave_api: Arc<EnclaveApi>,
}

/// Sidechain ocalls: block broadcast, storage, peers and block fetching.
pub struct SidechainOCall<Broadcaster, Storage, PeerUpdater, PeerBlockFetcher, TokioHandle> {
    pub block_broadcaster: Arc<Broadcaster>,
    pub block_storage: Arc<Storage>,
    pub peer_updater: Arc<PeerUpdater>,
    pub peer_block_fetcher: Arc<PeerBlockFetcher>,
    pub tokio_handle: Arc<TokioHandle>,
}

/// On-chain ocalls, served through parentchain node APIs.
pub struct WorkerOnChainOCall<NodeApi> {
    pub node_api_factory: Arc<NodeApi>,
}

/// IPFS ocalls; they need no component.
pub struct IpfsOCall {}

/// Metrics ocalls, served by the metrics receiver.
pub struct MetricsOCall<MetricsReceiver> {
    pub receiver: Arc<MetricsReceiver>,
}

/// Concrete components of the ocall bridge.
pub struct OCallBridgeComponentFactory<
    NodeApi,
    Broadcaster,
    EnclaveApi,
    Storage,
    PeerUpdater,
    PeerBlockFetcher,
    TokioHandle,
    MetricsReceiver,
    Runtime,
> {
    node_api_factory: Arc<NodeApi>,
    block_broadcaster: Arc<Broadcaster>,
    enclave_api: Arc<EnclaveApi>,
    block_storage: Arc<Storage>,
    peer_updater: Arc<PeerUpdater>,
    peer_block_fetcher: Arc<PeerBlockFetcher>,
    tokio_handle: Arc<TokioHandle>,
    metrics_receiver: Arc<MetricsReceiver>,
    _phantom: PhantomData<Runtime>,
}

impl<
    NodeApi,
    Broadcaster,
    EnclaveApi,
    Storage,
    PeerUpdater,
    PeerBlockFetcher,
    TokioHandle,
    MetricsReceiver,
    Runtime,
> OCallBridgeComponentFactory<
    NodeApi,
    Broadcaster,
    EnclaveApi,
    Storage,
    PeerUpdater,
    PeerBlockFetcher,
    TokioHandle,
    MetricsReceiver,
    Runtime,
> {
    pub closed spec fn node_api_factory(&self) -> NodeApi {
        *self.node_api_factory
    }

    pub closed spec fn block_broadcaster(&self) -> Broadcaster {
        *self.block_broadcaster
    }

    pub closed spec fn enclave_api(&self) -> EnclaveApi {
        *self.enclave_api
    }

    pub closed spec fn block_storage(&self) -> Storage {
        *self.block_storage
    }

    pub closed spec fn peer_updater(&self) -> PeerUpdater {
        *self.peer_updater
    }

    pub closed spec fn peer_block_fetcher(&self) -> PeerBlockFetcher {
        *self.peer_block_fetcher
    }

    pub closed spec fn tokio_handle(&self) -> TokioHandle {
        *self.tokio_handle
    }

    pub closed spec fn metrics_receiver(&self) -> MetricsReceiver {
        *self.metrics_receiver
    }

    /// A factory over the given components.
    #[allow(clippy::too_many_arguments)]
    pub fn new(
        node_api_factory: Arc<NodeApi>,
        block_broadcaster: Arc<Broadcaster>,
        enclave_api: Arc<EnclaveApi>,
        block_storage: Arc<Storage>,
        peer_updater: Arc<PeerUpdater>,
        peer_block_fetcher: Arc<PeerBlockFetcher>,
        tokio_handle: Arc<TokioHandle>,
        metrics_receiver: Arc<MetricsReceiver>,
    ) -> (f: Self)
        ensures
            f.node_api_factory() == *node_api_factory,
            f.block_broadcaster() == *block_broadcaster,
            f.enclave_api() == *enclave_api,
            f.block_storage() == *block_storage,
            f.peer_updater() == *peer_updater,
            f.peer_block_fetcher() == *peer_block_fetcher,
            f.tokio_handle() == *tokio_handle,
            f.metrics_receiver() == *metrics_receiver,
    {
        OCallBridgeComponentFactory {
            node_api_factory,
            block_broadcaster,
            enclave_api,
            block_storage,
            peer_updater,
            peer_block_fetcher,
            tokio_handle,
            metrics_receiver,
            _phantom: PhantomData,
        }
    }

    /// The remote attestation ocalls, over the enclave API.
    pub fn get_ra_api(&self) -> (r: RemoteAttestationOCall<EnclaveApi>)
        ensures
            *r.enclave_api == self.enclave_api(),
    {
        RemoteAttestationOCall { enclave_api: clone_arc(&self.enclave_api) }
    }

    /// The sidechain ocalls, over the broadcaster, block storage, peer
    /// updater, block fetcher and runtime handle.
    pub fn get_sidechain_api(&self) -> (r: SidechainOCall<Broadcaster, Storage, PeerUpdater, PeerBlockFetcher, TokioHandle>)
        ensures
            *r.block_broadcaster == self.block_broadcaster(),
            *r.block_storage == self.block_storage(),
            *r.peer_updater == self.peer_updater(),
            *r.peer_block_fetcher == self.peer_block_fetcher(),
            *r.tokio_handle == self.tokio_handle(),
    {
        SidechainOCall {
            block_broadcaster: clone_arc(&self.block_broadcaster),
            block_storage: clone_arc(&self.block_storage),
            peer_updater: clone_arc(&self.peer_updater),
            peer_block_fetcher: clone_arc(&self.peer_block_fetcher),
            tokio_handle: clone_arc(&self.tokio_handle),
        }
    }

    /// The on-chain ocalls, over the node API factory.
    pub fn get_oc_api(&self) -> (r: WorkerOnChainOCall<NodeApi>)
        ensures
            *r.node_api_factory == self.node_api_factory(),
    {
        WorkerOnChainOCall { node_api_factory: clone_arc(&self.node_api_factory) }
    }

    /// The IPFS ocalls.
    pub fn get_ipfs_api(&self) -> (r: IpfsOCall) {
        IpfsOCall {}
    }

    /// The metrics ocalls, over the metrics receiver.
    pub fn get_metrics_api(&self) -> (r: MetricsOCall<MetricsReceiver>)
        ensures
            *r.receiver == self.metrics_receiver(),
    {
        MetricsOCall { receiver: clone_arc(&self.metrics_receiver) }
    }
}

} // verus!
