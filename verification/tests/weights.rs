use tee_worker::weights::{linear_weight, RuntimeDbWeight, Weight, WeightInfo};

fn rocks_db() -> WeightInfo {
    WeightInfo::new(RuntimeDbWeight { read: 25_000_000, write: 100_000_000 })
}

#[test]
fn proxy_weight_counts_base_proxies_and_one_read() {
    let w = rocks_db().proxy(1);
    assert_eq!(w, Weight { ref_time: 46_918_660, proof_size: 3716 });
}

#[test]
fn proxy_announced_weight_counts_both_components() {
    let w = rocks_db().proxy_announced(2, 3);
    assert_eq!(w, Weight { ref_time: 322_559_368, proof_size: 11027 });
}

#[test]
fn announcement_weights_ignore_the_proxy_count() {
    let info = rocks_db();
    assert_eq!(info.remove_announcement(5, 9), info.remove_announcement(5, 0));
    assert_eq!(info.remove_announcement(5, 9), Weight { ref_time: 283_347_866, proof_size: 7311 });
    assert_eq!(info.reject_announcement(5, 1), Weight { ref_time: 32_087_451 + 256_601 * 5 + 250_000_000, proof_size: 7311 });
}

#[test]
fn single_component_weights() {
    let info = rocks_db();
    assert_eq!(info.kill_pure(0), Weight { ref_time: 156_308_179, proof_size: 3716 });
    assert_eq!(info.add_proxy(2), Weight { ref_time: 33_662_863 + 2 * 85_611 + 125_000_000, proof_size: 3716 });
    assert_eq!(info.remove_proxy(31), Weight { ref_time: 32_746_169 + 31 * 239_539 + 125_000_000, proof_size: 3716 });
    assert_eq!(info.remove_proxies(4), Weight { ref_time: 28_550_693 + 4 * 78_724 + 125_000_000, proof_size: 3716 });
    assert_eq!(info.create_pure(7), Weight { ref_time: 37_417_667 + 7 * 158_968 + 125_000_000, proof_size: 3716 });
    assert_eq!(info.announce(1, 1), Weight { ref_time: 41_280_780 + 306_219 + 114_664 + 275_000_000, proof_size: 11027 });
}

#[test]
fn weights_saturate_instead_of_overflowing() {
    let info = WeightInfo::new(RuntimeDbWeight { read: u64::MAX, write: 1 });
    assert_eq!(info.proxy(0), Weight { ref_time: u64::MAX, proof_size: 3716 });
    assert_eq!(info.announce(u32::MAX, u32::MAX).ref_time, u64::MAX);
}

#[test]
fn weights_grow_with_their_components() {
    let info = rocks_db();
    assert!(info.proxy(1).ref_time <= info.proxy(31).ref_time);
    assert!(info.proxy_announced(0, 1).ref_time <= info.proxy_announced(31, 31).ref_time);
    assert!(info.kill_pure(0).ref_time <= info.kill_pure(30).ref_time);
}

#[test]
fn weight_arithmetic_saturates_per_dimension() {
    let a = Weight { ref_time: u64::MAX - 1, proof_size: 5 };
    let b = Weight { ref_time: 10, proof_size: 7 };
    assert_eq!(a.saturating_add(b), Weight { ref_time: u64::MAX, proof_size: 12 });
    assert_eq!(b.saturating_mul(3), Weight { ref_time: 30, proof_size: 21 });
    assert_eq!(a.saturating_mul(2), Weight { ref_time: u64::MAX, proof_size: 10 });
    assert_eq!(Weight::from_ref_time(9), Weight { ref_time: 9, proof_size: 0 });
    assert_eq!(Weight::from_proof_size(9), Weight { ref_time: 0, proof_size: 9 });
}

#[test]
fn a_linear_weight_saturates_instead_of_overflowing() {
    let db = RuntimeDbWeight { read: 25_000_000, write: 100_000_000 };
    let w = linear_weight(db, u64::MAX - 5, 7, u64::MAX, u32::MAX, 3, 2, 1, 1);
    assert_eq!(w, Weight { ref_time: u64::MAX, proof_size: 7 });
    let w = linear_weight(db, 10, 7, 2, 3, 4, 5, 0, 0);
    assert_eq!(w, Weight { ref_time: 36, proof_size: 7 });
}
