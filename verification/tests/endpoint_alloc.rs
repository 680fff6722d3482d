use rand_chacha::rand_core::RngCore;
use rand_chacha::rand_core::SeedableRng;
use rand_chacha::ChaCha8Rng;
use std::collections::BTreeMap;
use xous_services::endpoint_alloc::{alloc_inner, dealloc_inner, END_OFFSET, START_OFFSET};

// run with `cargo test -- --nocapture --test-threads=1`:
#[test]
fn test_alloc() {
    let mut rng = ChaCha8Rng::seed_from_u64(0);

    let mut allocs = BTreeMap::<u32, u32>::new();
    assert_eq!(alloc_inner(&mut allocs, 128), Some(START_OFFSET));
    assert_eq!(alloc_inner(&mut allocs, 64), Some(START_OFFSET + 128));
    assert_eq!(alloc_inner(&mut allocs, 256), Some(START_OFFSET + 128 + 64));
    assert_eq!(alloc_inner(&mut allocs, 128), Some(START_OFFSET + 128 + 64 + 256));
    assert_eq!(alloc_inner(&mut allocs, 128), Some(START_OFFSET + 128 + 64 + 256 + 128));
    assert_eq!(alloc_inner(&mut allocs, 128), Some(START_OFFSET + 128 + 64 + 256 + 128 + 128));
    assert_eq!(alloc_inner(&mut allocs, 0xFF00), None);

    // create two holes and fill first hole, interleaved
    assert_eq!(dealloc_inner(&mut allocs, START_OFFSET + 128 + 64), true);
    let mut last_alloc = 0;
    // consistency check and print out
    for (&offset, &len) in allocs.iter() {
        assert!(offset >= last_alloc, "new offset is inside last allocation!");
        println!("{}-{}", offset, offset + len);
        last_alloc = offset + len;
    }

    assert_eq!(alloc_inner(&mut allocs, 128), Some(START_OFFSET + 128 + 64));
    assert_eq!(dealloc_inner(&mut allocs, START_OFFSET + 128 + 64 + 256 + 128), true);
    assert_eq!(alloc_inner(&mut allocs, 128), Some(START_OFFSET + 128 + 64 + 128));

    // alloc something that doesn't fit at all
    assert_eq!(alloc_inner(&mut allocs, 256), Some(START_OFFSET + 128 + 64 + 256 + 128 + 128 + 128));

    // fill second hole
    assert_eq!(alloc_inner(&mut allocs, 128), Some(START_OFFSET + 128 + 64 + 256 + 128));

    // final tail alloc
    assert_eq!(alloc_inner(&mut allocs, 64), Some(START_OFFSET + 128 + 64 + 256 + 128 + 128 + 128 + 256));

    println!("after structured test:");
    let mut last_alloc = 0;
    // consistency check and print out
    for (&offset, &len) in allocs.iter() {
        assert!(offset >= last_alloc, "new offset is inside last allocation!");
        println!("{}-{}({})", offset, offset + len, len);
        last_alloc = offset + len;
    }

    // random alloc/dealloc and check for overlapping regions
    let mut tracker = Vec::<u32>::new();
    for _ in 0..10240 {
        if rng.next_u32() % 2 == 0 {
            if tracker.len() > 0 {
                let index = tracker.remove((rng.next_u32() % tracker.len() as u32) as usize);
                assert_eq!(dealloc_inner(&mut allocs, index), true);
            }
        } else {
            let req = rng.next_u32() % 256;
            if let Some(offset) = alloc_inner(&mut allocs, req) {
                tracker.push(offset);
            }
        }
    }

    let mut last_alloc = 0;
    // consistency check and print out
    println!("after random test:");
    for (&offset, &len) in allocs.iter() {
        assert!(offset >= last_alloc, "new offset is inside last allocation!");
        assert!(offset & 0xF == 0, "misaligned allocation detected");
        println!("{}-{}({})", offset, offset + len, len);
        last_alloc = offset + len;
    }
}

#[test]
fn alloc_of_nothing_gives_none_and_changes_nothing() {
    let mut allocs = BTreeMap::<u32, u32>::new();
    assert_eq!(alloc_inner(&mut allocs, 0), None);
    assert!(allocs.is_empty());
    assert_eq!(alloc_inner(&mut allocs, 10), Some(START_OFFSET));
    let before = allocs.clone();
    assert_eq!(alloc_inner(&mut allocs, 0), None);
    assert_eq!(allocs, before);
}

#[test]
fn alloc_records_request_and_rounds_to_16() {
    let mut allocs = BTreeMap::<u32, u32>::new();
    assert_eq!(alloc_inner(&mut allocs, 10), Some(START_OFFSET));
    assert_eq!(allocs.get(&START_OFFSET), Some(&10));
    // 10 bytes round up to 16
    assert_eq!(alloc_inner(&mut allocs, 17), Some(START_OFFSET + 16));
    assert_eq!(allocs.get(&(START_OFFSET + 16)), Some(&17));
    // 17 bytes round up to 32
    assert_eq!(alloc_inner(&mut allocs, 1), Some(START_OFFSET + 48));
}

#[test]
fn alloc_fills_memory_exactly_to_the_end() {
    let mut allocs = BTreeMap::<u32, u32>::new();
    let whole = END_OFFSET - START_OFFSET;
    assert_eq!(alloc_inner(&mut allocs, whole + 1), None);
    assert!(allocs.is_empty());
    assert_eq!(alloc_inner(&mut allocs, whole), Some(START_OFFSET));
    assert_eq!(alloc_inner(&mut allocs, 1), None);
}

#[test]
fn dealloc_undoes_alloc() {
    let mut allocs = BTreeMap::<u32, u32>::new();
    alloc_inner(&mut allocs, 100).unwrap();
    alloc_inner(&mut allocs, 40).unwrap();
    let before = allocs.clone();
    let offset = alloc_inner(&mut allocs, 77).unwrap();
    assert_ne!(allocs, before);
    assert_eq!(dealloc_inner(&mut allocs, offset), true);
    assert_eq!(allocs, before);
}

#[test]
fn dealloc_of_unallocated_offset_is_refused() {
    let mut allocs = BTreeMap::<u32, u32>::new();
    let offset = alloc_inner(&mut allocs, 48).unwrap();
    let before = allocs.clone();
    assert_eq!(dealloc_inner(&mut allocs, offset + 16), false);
    assert_eq!(allocs, before);
}

#[test]
fn first_fit_takes_lowest_hole_that_is_big_enough() {
    let mut allocs = BTreeMap::<u32, u32>::new();
    let a = alloc_inner(&mut allocs, 16).unwrap();
    let _x = alloc_inner(&mut allocs, 16).unwrap();
    let b = alloc_inner(&mut allocs, 112).unwrap();
    let _c = alloc_inner(&mut allocs, 16).unwrap();
    assert!(dealloc_inner(&mut allocs, a));
    assert!(dealloc_inner(&mut allocs, b));
    // a hole of 16 bytes at `a`, then 112 at `b`: 24 bytes skip the first
    assert_eq!(alloc_inner(&mut allocs, 24), Some(b));
    assert_eq!(alloc_inner(&mut allocs, 16), Some(a));
}

#[test]
fn alloc_of_more_than_memory_is_refused() {
    let mut allocs = BTreeMap::<u32, u32>::new();
    assert_eq!(alloc_inner(&mut allocs, u32::MAX), None);
    assert_eq!(alloc_inner(&mut allocs, 100), Some(START_OFFSET));
    assert_eq!(alloc_inner(&mut allocs, u32::MAX - 10), None);
    assert_eq!(allocs.len(), 1);
}
