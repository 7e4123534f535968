use hidpp::feature_lookup::FeatureLookup;

#[test]
fn new_table_knows_only_the_root() {
    let t = FeatureLookup::new();
    assert_eq!(t.get_index(0), Some(0));
    assert_eq!(t.get_id(0), Some(0));
    assert_eq!(t.get_index(1), None);
    assert_eq!(t.get_index(0xFFFE), None);
    assert_eq!(t.get_id(1), None);
    assert_eq!(t.get_id(254), None);
    assert_eq!(t.iter(), vec![(0, 0)]);
}

#[test]
fn default_is_empty() {
    let t = FeatureLookup::default();
    assert_eq!(t.get_index(5), None);
    assert_eq!(t.iter(), vec![(0, 0)]);
}

#[test]
fn insert_then_read_back_both_ways() {
    let mut t = FeatureLookup::new();
    t.insert(4, 0x0003);
    assert_eq!(t.get_index(0x0003), Some(4));
    assert_eq!(t.get_id(4), Some(0x0003));
    assert_eq!(t.get_id(5), None);
    assert_eq!(t.get_index(0x0005), None);
}

#[test]
fn insert_leaves_other_slots_alone() {
    let mut t = FeatureLookup::new();
    t.insert(1, 0x0001);
    t.insert(2, 0x0005);
    t.insert(254, 0xFFFE);
    assert_eq!(t.get_id(1), Some(1));
    assert_eq!(t.get_id(2), Some(5));
    assert_eq!(t.get_index(0x0005), Some(2));
    assert_eq!(t.get_index(0xFFFE), Some(254));
    assert_eq!(t.iter(), vec![(0, 0), (1, 1), (2, 5), (254, 0xFFFE)]);
}

#[test]
fn reinserting_an_index_keeps_the_old_id_entry() {
    let mut t = FeatureLookup::new();
    t.insert(3, 0x0003);
    t.insert(3, 0x0005);
    assert_eq!(t.get_id(3), Some(5));
    assert_eq!(t.get_index(0x0005), Some(3));
    // The id that index 3 held before still points there.
    assert_eq!(t.get_index(0x0003), Some(3));
}

#[test]
fn storing_zero_clears_a_slot() {
    let mut t = FeatureLookup::new();
    t.insert(7, 0);
    assert_eq!(t.get_id(7), None);
    assert_eq!(t.get_index(0), Some(0));
    t.insert(0, 9);
    assert_eq!(t.get_id(0), Some(0));
    assert_eq!(t.get_index(9), None);
}
