use locations::tiles::{create_tile_iterator, TileIterator};

fn collect_all(mut it: TileIterator) -> Vec<(usize, usize)> {
    let mut out = Vec::new();
    while let Some(p) = it.next() {
        out.push(p);
    }
    out
}

#[test]
fn test_create_tile_iterator() {
    // Test case 1: Small forward range
    let iter = create_tile_iterator(0, 2, 0, 2, false);
    let result: Vec<(usize, usize)> = collect_all(iter);
    assert_eq!(
        result,
        vec![(0, 0), (0, 1), (0, 2), (1, 0), (1, 1), (1, 2), (2, 0), (2, 1), (2, 2)]
    );

    // Test case 2: Small reverse range
    let iter = create_tile_iterator(0, 2, 0, 2, true);
    let result: Vec<(usize, usize)> = collect_all(iter);
    assert_eq!(
        result,
        vec![(2, 0), (2, 1), (2, 2), (1, 0), (1, 1), (1, 2), (0, 0), (0, 1), (0, 2)]
    );

    // Test case 3: Non-zero min values
    let iter = create_tile_iterator(10, 12, 20, 22, false);
    let result: Vec<(usize, usize)> = collect_all(iter);
    assert_eq!(
        result,
        vec![
            (10, 20),
            (10, 21),
            (10, 22),
            (11, 20),
            (11, 21),
            (11, 22),
            (12, 20),
            (12, 21),
            (12, 22)
        ]
    );

    // Test case 4: Non-zero min values, reverse
    let iter = create_tile_iterator(10, 12, 20, 22, true);
    let result: Vec<(usize, usize)> = collect_all(iter);
    assert_eq!(
        result,
        vec![
            (12, 20),
            (12, 21),
            (12, 22),
            (11, 20),
            (11, 21),
            (11, 22),
            (10, 20),
            (10, 21),
            (10, 22)
        ]
    );
}

#[test]
fn test_single_cell_range() {
    let iter = create_tile_iterator(5, 5, 7, 7, false);
    assert_eq!(collect_all(iter), vec![(5, 7)]);
    let iter = create_tile_iterator(5, 5, 7, 7, true);
    assert_eq!(collect_all(iter), vec![(5, 7)]);
}

#[test]
fn test_iterator_exhaustion_is_stable() {
    let mut iter = create_tile_iterator(0, 0, 0, 1, false);
    assert_eq!(iter.next(), Some((0, 0)));
    assert_eq!(iter.next(), Some((0, 1)));
    assert_eq!(iter.next(), None);
    assert_eq!(iter.next(), None);
}

#[test]
fn test_reverse_keeps_inner_order() {
    let fwd = collect_all(create_tile_iterator(3, 6, 1, 2, false));
    let rev = collect_all(create_tile_iterator(3, 6, 1, 2, true));
    assert_eq!(fwd.len(), rev.len());
    for i in 0..fwd.len() {
        assert_eq!(fwd[i].1, rev[i].1);
        assert_eq!(rev[i].0, 3 + 6 - fwd[i].0);
    }
}
