use tee_worker::state::{into_map, Externalities, StateDiff, StorageEntry};

fn entry(k: &[u8], v: Option<&[u8]>) -> StorageEntry {
    StorageEntry { key: k.to_vec(), value: v.map(|x| x.to_vec()) }
}

#[test]
fn into_map_keeps_the_later_entry_of_a_key() {
    let d = into_map(vec![entry(b"a", Some(b"1")), entry(b"b", None), entry(b"a", Some(b"2"))]);
    assert_eq!(d.get(b"a"), Some(Some(b"2".to_vec())));
    assert_eq!(d.get(b"b"), Some(None));
    assert_eq!(d.get(b"c"), None);
    assert!(!d.is_empty());
    assert!(into_map(Vec::new()).is_empty());
}

#[test]
fn reads_give_back_writes() {
    let mut s = Externalities::new();
    s.insert(b"k", b"v1");
    assert_eq!(s.get(b"k"), Some(b"v1".to_vec()));
    s.insert(b"k", b"v2");
    assert_eq!(s.get(b"k"), Some(b"v2".to_vec()));
    s.remove(b"k");
    assert_eq!(s.get(b"k"), None);
    let d = s.state_diff();
    assert_eq!(d.get(b"k"), Some(None));
}

#[test]
fn applying_a_diff_sets_and_clears_keys() {
    let mut s = Externalities::new();
    s.insert(b"keep", b"1");
    s.insert(b"gone", b"2");
    s.prune_state_diff();
    assert!(s.state_diff().is_empty());
    let mut d = StateDiff::new();
    d.insert(b"gone".to_vec(), None);
    d.insert(b"new".to_vec(), Some(b"3".to_vec()));
    s.apply_state_diff(&d);
    assert_eq!(s.get(b"keep"), Some(b"1".to_vec()));
    assert_eq!(s.get(b"gone"), None);
    assert_eq!(s.get(b"new"), Some(b"3".to_vec()));
    let recorded = s.state_diff();
    assert_eq!(recorded.get(b"gone"), Some(None));
    assert_eq!(recorded.get(b"new"), Some(Some(b"3".to_vec())));
    assert_eq!(recorded.get(b"keep"), None);
}

#[test]
fn pruning_keeps_the_storage() {
    let mut s = Externalities::new();
    s.insert(b"a", b"x");
    s.prune_state_diff();
    assert_eq!(s.get(b"a"), Some(b"x".to_vec()));
    assert!(s.state_diff().is_empty());
}

#[test]
fn applying_a_diff_twice_changes_nothing_more() {
    let mut d = StateDiff::new();
    d.insert(b"a".to_vec(), Some(b"1".to_vec()));
    d.insert(b"b".to_vec(), None);
    let mut s = Externalities::new();
    s.insert(b"b", b"old");
    s.apply_state_diff(&d);
    s.apply_state_diff(&d.duplicate());
    assert_eq!(s.get(b"a"), Some(b"1".to_vec()));
    assert_eq!(s.get(b"b"), None);
}
