use cross_check::{
    CrossCheckHash, CrossCheckHasher, Djb2Hasher, JodyHasher, Pointer, SimpleHasher,
    LEAF_REFERENCE_VALUE,
};

#[test]
fn an_array_feeds_its_element_digests_to_the_aggregate_hasher() {
    let values: [u8; 3] = [1, 2, 3];
    let mut h = Djb2Hasher::default();
    for v in values.iter() {
        h.write_u64(v.cross_check_hash::<Djb2Hasher, SimpleHasher>());
    }
    assert_eq!(values.cross_check_hash::<Djb2Hasher, SimpleHasher>(), h.finish());
    assert_eq!(values.cross_check_hash::<Djb2Hasher, SimpleHasher>(), 1910779302);
    assert_eq!(values.cross_check_hash::<SimpleHasher, Djb2Hasher>(), 14185423642929320388);
    assert_eq!(values.cross_check_hash::<JodyHasher, JodyHasher>(), 17398509667089095555);
}

#[test]
fn an_empty_array_hashes_as_the_fresh_aggregate_hasher() {
    let nothing: [u32; 0] = [];
    assert_eq!(nothing.cross_check_hash::<Djb2Hasher, SimpleHasher>(), 5381);
    assert_eq!(nothing.cross_check_hash::<JodyHasher, SimpleHasher>(), 0);
}

#[test]
fn element_order_matters() {
    let forward: [u16; 2] = [1, 2];
    let backward: [u16; 2] = [2, 1];
    assert_ne!(
        forward.cross_check_hash::<SimpleHasher, SimpleHasher>(),
        backward.cross_check_hash::<SimpleHasher, SimpleHasher>()
    );
}

#[test]
fn fields_do_not_use_up_the_budget() {
    let x: u32 = 7;
    let y: u32 = 8;
    let pair: [&u32; 2] = [&x, &y];
    let plain: [u32; 2] = [7, 8];
    assert_eq!(
        pair.cross_check_hash_depth::<Djb2Hasher, Djb2Hasher>(1),
        plain.cross_check_hash_depth::<Djb2Hasher, Djb2Hasher>(0)
    );

    let sentinels: [u32; 2] = [LEAF_REFERENCE_VALUE, LEAF_REFERENCE_VALUE];
    assert_eq!(
        pair.cross_check_hash_depth::<Djb2Hasher, Djb2Hasher>(0),
        sentinels.cross_check_hash::<Djb2Hasher, Djb2Hasher>()
    );
}

#[test]
fn a_reference_to_an_array_uses_one_level() {
    let x: u8 = 1;
    let cells: [Pointer<u8>; 2] = [Pointer::Valid(&x), Pointer::Null];
    let r = &cells;
    assert_eq!(
        CrossCheckHash::cross_check_hash_depth::<JodyHasher, Djb2Hasher>(&r, 2),
        cells.cross_check_hash_depth::<JodyHasher, Djb2Hasher>(1)
    );
    let mut h = JodyHasher::default();
    h.write_u64(1u8.cross_check_hash::<JodyHasher, Djb2Hasher>());
    h.write_u64(0usize.cross_check_hash::<JodyHasher, Djb2Hasher>());
    assert_eq!(cells.cross_check_hash_depth::<JodyHasher, Djb2Hasher>(1), h.finish());
}

#[test]
fn nested_arrays_combine_with_the_aggregate_hasher_at_each_level() {
    let grid: [[u8; 2]; 2] = [[1, 2], [3, 4]];
    let mut outer = SimpleHasher::default();
    for row in grid.iter() {
        let mut inner = SimpleHasher::default();
        for cell in row.iter() {
            inner.write_u64(cell.cross_check_hash::<SimpleHasher, Djb2Hasher>());
        }
        outer.write_u64(inner.finish());
    }
    assert_eq!(grid.cross_check_hash::<SimpleHasher, Djb2Hasher>(), outer.finish());
}
