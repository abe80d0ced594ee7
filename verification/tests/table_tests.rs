use guest_bridge::table::AssocTable;

#[test]
fn stores_and_finds_by_name() {
    let mut t = AssocTable::new();
    t.insert(b"alpha".to_vec(), vec![1]);
    t.insert(b"beta".to_vec(), vec![2, 2]);
    assert_eq!(t.get(&b"alpha".to_vec()), Some(&vec![1]));
    assert_eq!(t.get(&b"beta".to_vec()), Some(&vec![2, 2]));
    assert_eq!(t.get(&b"gamma".to_vec()), None);
    assert_eq!(t.len(), 2);
}

#[test]
fn a_second_insert_overwrites_wholesale() {
    let mut t = AssocTable::new();
    t.insert(b"alpha".to_vec(), vec![1]);
    t.insert(b"alpha".to_vec(), vec![9, 9, 9]);
    assert_eq!(t.get(&b"alpha".to_vec()), Some(&vec![9, 9, 9]));
    assert_eq!(t.len(), 1);
}

#[test]
fn remove_takes_the_snapshot_out() {
    let mut t = AssocTable::new();
    t.insert(b"alpha".to_vec(), vec![1]);
    t.insert(b"beta".to_vec(), vec![2]);
    assert_eq!(t.remove(&b"alpha".to_vec()), Some(vec![1]));
    assert_eq!(t.remove(&b"alpha".to_vec()), None);
    assert_eq!(t.get(&b"beta".to_vec()), Some(&vec![2]));
    assert_eq!(t.len(), 1);
}

#[test]
fn merge_overwrites_clashes_and_keeps_the_rest() {
    let mut dst = AssocTable::new();
    dst.insert(b"kept".to_vec(), vec![1]);
    dst.insert(b"clash".to_vec(), vec![2]);
    let mut src = AssocTable::new();
    src.insert(b"clash".to_vec(), vec![20]);
    src.insert(b"fresh".to_vec(), vec![30]);
    src.merge_into(&mut dst);
    assert_eq!(dst.get(&b"kept".to_vec()), Some(&vec![1]));
    assert_eq!(dst.get(&b"clash".to_vec()), Some(&vec![20]));
    assert_eq!(dst.get(&b"fresh".to_vec()), Some(&vec![30]));
    assert_eq!(dst.len(), 3);
}
