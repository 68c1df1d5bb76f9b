use std::sync::Arc;
use tee_worker::ocall_factory::OCallBridgeComponentFactory;

#[test]
fn bridges_share_the_factory_components() {
    let node = Arc::new(1u8);
    let broadcaster = Arc::new(2u16);
    let enclave = Arc::new(3u32);
    let storage = Arc::new(4u64);
    let peers = Arc::new(5i8);
    let fetcher = Arc::new(6i16);
    let tokio = Arc::new(7i32);
    let metrics = Arc::new(8i64);
    let f: OCallBridgeComponentFactory<u8, u16, u32, u64, i8, i16, i32, i64, ()> = OCallBridgeComponentFactory::new(
        node.clone(),
        broadcaster.clone(),
        enclave.clone(),
        storage.clone(),
        peers.clone(),
        fetcher.clone(),
        tokio.clone(),
        metrics.clone(),
    );
    assert!(Arc::ptr_eq(&f.get_ra_api().enclave_api, &enclave));
    assert!(Arc::ptr_eq(&f.get_oc_api().node_api_factory, &node));
    assert!(Arc::ptr_eq(&f.get_metrics_api().receiver, &metrics));
    let s = f.get_sidechain_api();
    assert!(Arc::ptr_eq(&s.block_broadcaster, &broadcaster));
    assert!(Arc::ptr_eq(&s.block_storage, &storage));
    assert!(Arc::ptr_eq(&s.peer_updater, &peers));
    assert!(Arc::ptr_eq(&s.peer_block_fetcher, &fetcher));
    assert!(Arc::ptr_eq(&s.tokio_handle, &tokio));
    let _ipfs = f.get_ipfs_api();
}
