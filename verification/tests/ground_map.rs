use terrain::ground_map::{remove, GroundMap, SECTORS};

fn full() -> Vec<i32> {
    let row0 = vec![-2, -2, -1, -2, 0, -2, 1, -2, 2, -2];
    let row1 = vec![-2, -1, -1, -1, 0, -1, 1, -1, 2, -1];
    let row2 = vec![-2, 0, -1, 0, 0, 0, 1, 0, 2, 0];
    let row3 = vec![-2, 1, -1, 1, 0, 1, 1, 1, 2, 1];
    let row4 = vec![-2, 2, -1, 2, 0, 2, 1, 2, 2, 2];
    [row0, row1, row2, row3, row4].concat()
}

#[test]
fn remove_drops_the_listed_pairs() {
    let all = full();
    let row3 = vec![-2, 1, -1, 1, 0, 1, 1, 1, 2, 1];
    let row4 = vec![-2, 2, -1, 2, 0, 2, 1, 2, 2, 2];
    let left = remove([row3, row4].concat(), all.clone());
    assert_eq!(left, all[0..30].to_vec());
}

#[test]
fn remove_keeps_order_and_ignores_unknown_pairs() {
    let left = remove(vec![5, 5, 1, 2], vec![1, 2, 3, 4, 1, 2, 5, 6]);
    assert_eq!(left, vec![3, 4, 5, 6]);
}

#[test]
fn remove_matches_whole_pairs_only() {
    // (2, 3) straddles two pairs of the original and is not a pair of it.
    let left = remove(vec![2, 3], vec![1, 2, 3, 4]);
    assert_eq!(left, vec![1, 2, 3, 4]);
}

#[test]
fn remove_with_unpaired_last_element() {
    let left = remove(vec![3, 4, 9], vec![1, 2, 3, 4]);
    assert_eq!(left, vec![1, 2]);
}

#[test]
fn remove_nothing_is_identity() {
    assert_eq!(remove(vec![], full()), full());
}

#[test]
fn remove_twice_is_remove_once() {
    let r = vec![0, 0, -2, -2, 2, 2];
    let once = remove(r.clone(), full());
    assert_eq!(remove(r, once.clone()), once);
    assert_eq!(once.len(), 44);
}

#[test]
fn remove_all_leaves_nothing() {
    assert_eq!(remove(full(), full()), Vec::<i32>::new());
}

#[test]
fn ground_map_shows_the_full_block_in_every_sector() {
    let map: GroundMap<u8> = GroundMap::new(7);
    assert_eq!(map.ground_texture(), 7);
    assert!(map.ground_cells().is_empty());
    let all = full();
    for sector in 0..SECTORS {
        let offsets = map.display_offsets(sector);
        assert_eq!(offsets.len(), 25);
        for (i, (x, z)) in offsets.iter().enumerate() {
            assert_eq!(*x, all[2 * i]);
            assert_eq!(*z, all[2 * i + 1]);
        }
    }
    assert_eq!(map.display_offsets(0)[0], (-2, -2));
    assert_eq!(map.display_offsets(3)[24], (2, 2));
}

#[test]
fn replace_cells_hands_back_the_old_cells() {
    let mut map: GroundMap<u8> = GroundMap::new(1);
    let old = map.replace_cells(vec![1, 2, 3]);
    assert!(old.is_empty());
    let old = map.replace_cells(vec![4]);
    assert_eq!(old, vec![1, 2, 3]);
    assert_eq!(map.ground_cells(), &vec![4]);
}

#[test]
fn removing_a_concatenation_is_removing_in_turn() {
    let a = vec![0, 0, 2, 2];
    let b = vec![-1, 1, 0, 0, 1, -2];
    let together = remove([a.clone(), b.clone()].concat(), full());
    let b_then_a = remove(a.clone(), remove(b.clone(), full()));
    let a_then_b = remove(b, remove(a, full()));
    assert_eq!(together.len(), 50 - 8);
    assert_eq!(together, b_then_a);
    assert_eq!(b_then_a, a_then_b);
}
