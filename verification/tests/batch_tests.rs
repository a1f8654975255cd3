use locations::batch::{TileBatcher, WriteBatcher};
use locations::tiles::create_tile_iterator;

#[test]
fn test_tile_batcher_partial_last_batch() {
    // 2 x 3 = 6 coordinates, batch size 4: two batches of 4 and 2.
    let iter = create_tile_iterator(0, 1, 0, 2, false);
    let mut batcher = TileBatcher::new(iter, 18, 4);

    let first = batcher.next_batch().unwrap();
    assert_eq!(first.len(), 4);
    assert_eq!((first[0].x, first[0].y, first[0].zoom), (0, 0, 18));
    assert_eq!((first[1].x, first[1].y, first[1].zoom), (0, 1, 18));
    assert_eq!((first[2].x, first[2].y, first[2].zoom), (0, 2, 18));
    assert_eq!((first[3].x, first[3].y, first[3].zoom), (1, 0, 18));

    let second = batcher.next_batch().unwrap();
    assert_eq!(second.len(), 2);
    assert_eq!((second[0].x, second[0].y), (1, 1));
    assert_eq!((second[1].x, second[1].y), (1, 2));

    assert!(batcher.next_batch().is_none());
}

#[test]
fn test_tile_batcher_exact_fit() {
    // 4 coordinates, batch size 2: exactly two full batches.
    let iter = create_tile_iterator(0, 1, 0, 1, false);
    let mut batcher = TileBatcher::new(iter, 1, 2);
    assert_eq!(batcher.next_batch().unwrap().len(), 2);
    assert_eq!(batcher.next_batch().unwrap().len(), 2);
    assert!(batcher.next_batch().is_none());
}

#[test]
fn test_tile_batcher_batch_count_is_ceiling() {
    // 3 x 3 = 9 coordinates, batch size 4: ceil(9 / 4) = 3 batches.
    let iter = create_tile_iterator(0, 2, 0, 2, false);
    let mut batcher = TileBatcher::new(iter, 0, 4);
    let mut sizes = Vec::new();
    while let Some(b) = batcher.next_batch() {
        sizes.push(b.len());
    }
    assert_eq!(sizes, vec![4, 4, 1]);
}

#[test]
fn test_write_batcher_flushes_when_full() {
    let mut w = WriteBatcher::new(3);
    assert!(w.push("a".to_string()).is_none());
    assert!(w.push("b".to_string()).is_none());
    let full = w.push("c".to_string()).unwrap();
    assert_eq!(full, vec!["a".to_string(), "b".to_string(), "c".to_string()]);
    assert!(w.push("d".to_string()).is_none());
    let rest = w.finish().unwrap();
    assert_eq!(rest, vec!["d".to_string()]);
}

#[test]
fn test_write_batcher_empty_finish() {
    let w = WriteBatcher::new(200);
    assert!(w.finish().is_none());
    let mut w = WriteBatcher::new(2);
    assert!(w.push("x".to_string()).is_none());
    let full = w.push("y".to_string()).unwrap();
    assert_eq!(full.len(), 2);
    assert!(w.finish().is_none());
}
