use griffin_rescue::utils::{create_meta, get_meta, next_power_of_two, IndexDefinition, IndexDefinitionSlice};

#[test]
fn index_definition_bounds() {
    let id = IndexDefinition { idx: 8, size: 12 };
    assert_eq!(id.begin(), 8);
    assert_eq!(id.end(), 20);
}

#[test]
fn index_definition_slices() {
    let data: Vec<u32> = (0..30).collect();
    let s: &[u32] = &data;
    let part = s.id_slice(IndexDefinition { idx: 4, size: 3 });
    assert_eq!(part, &[4, 5, 6]);
    let empty = s.id_slice(IndexDefinition { idx: 30, size: 0 });
    assert!(empty.is_empty());
}

#[test]
fn next_power_of_two_rounds_up() {
    assert_eq!(next_power_of_two(0), 1);
    assert_eq!(next_power_of_two(1), 1);
    assert_eq!(next_power_of_two(2), 2);
    assert_eq!(next_power_of_two(3), 4);
    assert_eq!(next_power_of_two(17), 32);
    assert_eq!(next_power_of_two(4096), 4096);
    assert_eq!(next_power_of_two(110016), 131072);
}

#[test]
fn create_meta_is_little_endian() {
    let meta = create_meta(0x0102_0304);
    assert_eq!(meta.len(), std::mem::size_of::<usize>());
    assert_eq!(&meta[..4], &[4, 3, 2, 1]);
    assert!(meta[4..].iter().all(|&b| b == 0));
    assert!(create_meta(0).iter().all(|&b| b == 0));
}

#[test]
fn get_meta_reads_little_endian() {
    assert_eq!(get_meta(&vec![]), 0);
    assert_eq!(get_meta(&vec![4, 3, 2, 1]), 0x0102_0304);
    assert_eq!(get_meta(&vec![0xFF, 0x00, 0x01]), 0x01_00FF);
}

#[test]
fn get_meta_reads_back_create_meta() {
    for n in [0usize, 1, 255, 256, 110016, 0x1234_5678] {
        assert_eq!(get_meta(&create_meta(n)), n);
    }
}
