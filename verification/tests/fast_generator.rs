use idgen_rs::fast_generator::{FastIdGenerator, IdError};
use idgen_rs::layout::Decision;
use idgen_rs::options::{IGOptions, DEFAULT_BASE_TIME};
use std::collections::HashSet;
use std::time::{Duration, UNIX_EPOCH};

fn create_test_options() -> IGOptions {
    IGOptions {
        method: 1,
        base_time: DEFAULT_BASE_TIME,
        worker_id: 1,
        worker_id_bit_length: 10,
        seq_bit_length: 12,
        max_seq_number: 0,
        min_seq_number: 5,
        top_over_cost_count: 2000,
    }
}

#[test]
fn test_basic_generation() {
    let gen = FastIdGenerator::new(&create_test_options());
    let id = gen.next_id().unwrap();

    assert!(id > 0);
    assert_eq!(gen.extract_worker_id(id), 1);
}

#[test]
fn test_id_info_extraction() {
    let gen = FastIdGenerator::new(&create_test_options());
    let id = gen.next_id().unwrap();

    let info = gen.extract_id_info(id);
    assert_eq!(info.worker_id, 1);
    assert!(info.timestamp > DEFAULT_BASE_TIME);
}

#[test]
fn test_sequence_increments() {
    let gen = FastIdGenerator::new(&create_test_options());

    // within one millisecond the sequence number goes up by one
    let id1 = gen.next_id().unwrap();
    let id2 = gen.next_id().unwrap();

    let seq1 = gen.extract_sequence(id1);
    let seq2 = gen.extract_sequence(id2);

    assert_eq!(seq2, seq1 + 1);
}

#[test]
fn test_id_uniqueness() {
    let gen = FastIdGenerator::new(&create_test_options());
    let mut ids = HashSet::new();

    for _ in 0..10000 {
        let id = gen.next_id().unwrap();
        assert!(ids.insert(id), "Duplicate ID found: {}", id);
    }
}

#[test]
fn test_ids_increase_one_after_another() {
    let gen = FastIdGenerator::new(&create_test_options());
    let mut last = gen.next_id().unwrap();
    for _ in 0..5000 {
        let id = gen.next_id().unwrap();
        assert!(id > last);
        last = id;
    }
}

#[test]
fn test_decide_later_millisecond_resets_sequence() {
    let gen = FastIdGenerator::new(&create_test_options());
    assert_eq!(gen.decide(0, 5), Decision::Claim { state: 5 << 12, id: (5 << 22) | (1 << 12) });
    assert_eq!(gen.decide(0, 5), Decision::Claim { state: 20480, id: 20975616 });
    assert_eq!(gen.decide((4 << 12) | 77, 5), Decision::Claim { state: 20480, id: 20975616 });
    // the first two IDs of a fresh millisecond carry sequence numbers 0 and 1
    assert_eq!(gen.decide(20480, 5), Decision::Claim { state: 20481, id: 20975617 });
}

#[test]
fn test_decide_same_millisecond_takes_next_sequence() {
    let gen = FastIdGenerator::new(&create_test_options());
    assert_eq!(gen.decide(20480, 5), Decision::Claim { state: 20481, id: 20975617 });
    assert_eq!(gen.decide(20481, 5), Decision::Claim { state: 20482, id: 20975618 });
}

#[test]
fn test_decide_sequence_exhausted() {
    let gen = FastIdGenerator::new(&create_test_options());
    assert_eq!(gen.decide((5 << 12) | 4095, 5), Decision::SequenceExhausted);
    assert_eq!(
        gen.decide((5 << 12) | 4094, 5),
        Decision::Claim { state: (5 << 12) | 4095, id: (5 << 22) | (1 << 12) | 4095 }
    );
}

#[test]
fn test_decide_clock_behind_and_rollback() {
    let gen = FastIdGenerator::new(&create_test_options());
    assert_eq!(gen.decide(6 << 12, 5), Decision::ClockBehind);
    assert_eq!(gen.decide(15 << 12, 5), Decision::ClockBehind);
    assert_eq!(gen.decide(16 << 12, 5), Decision::ClockRollback { drift: 11 });
    assert_eq!(gen.decide(25 << 12, 5), Decision::ClockRollback { drift: 20 });
}

#[test]
fn test_extract_fields_of_known_id() {
    let gen = FastIdGenerator::new(&create_test_options());
    let id: u64 = (100 << 22) | (1 << 12) | 7;
    assert_eq!(id, 419434503);
    assert_eq!(gen.extract_timestamp(id), DEFAULT_BASE_TIME + 100);
    assert_eq!(gen.extract_worker_id(id), 1);
    assert_eq!(gen.extract_sequence(id), 7);
    let info = gen.extract_id_info(id);
    assert_eq!(info.timestamp, 1582164002100);
    assert_eq!(info.worker_id, 1);
    assert_eq!(info.sequence, 7);
    assert_eq!(info.system_time, Some(UNIX_EPOCH + Duration::from_millis(1582164002100)));
}

#[test]
fn test_worker_id_and_metrics() {
    let mut options = create_test_options();
    options.worker_id = 1023;
    let gen = FastIdGenerator::new(&options);
    assert_eq!(gen.worker_id(), 1023);
    let id = gen.next_id().unwrap();
    assert_eq!(gen.extract_worker_id(id), 1023);
    let m = gen.metrics();
    assert_eq!(m.total_generated, 1);
    assert_eq!(m.clock_backwards_count, 0);
    assert_eq!(m.cas_conflict_count, 0);
}

#[test]
fn test_metrics_count_generated_ids() {
    let gen = FastIdGenerator::new(&create_test_options());
    assert_eq!(gen.metrics().total_generated, 0);
    gen.next_ids_batch(250).unwrap();
    gen.next_id().unwrap();
    assert_eq!(gen.metrics().total_generated, 251);
}

#[test]
fn test_sequence_bounds_are_kept() {
    let mut options = create_test_options();
    options.max_seq_number = 10;
    options.min_seq_number = 7;
    let gen = FastIdGenerator::new(&options);
    assert_eq!(gen.decide(10 << 12 | 10, 10), Decision::SequenceExhausted);
    assert_eq!(gen.decide(9 << 12 | 9, 9), Decision::Claim { state: 9 << 12 | 10, id: (9 << 22) | (1 << 12) | 10 });
    assert_eq!(gen.decide(0, 3), Decision::Claim { state: 3 << 12, id: (3 << 22) | (1 << 12) });
    for id in gen.next_ids_batch(100).unwrap() {
        assert!(gen.extract_sequence(id) <= 10);
    }
}

#[test]
fn test_largest_sequence_past_the_field_stands_for_the_mask() {
    let mut options = create_test_options();
    options.max_seq_number = 5000;
    let gen = FastIdGenerator::new(&options);
    assert_eq!(
        gen.decide((3 << 12) | 4094, 3),
        Decision::Claim { state: (3 << 12) | 4095, id: (3 << 22) | (1 << 12) | 4095 }
    );
    assert_eq!(gen.decide((3 << 12) | 4095, 3), Decision::SequenceExhausted);
    let kept = gen.options();
    assert_eq!(kept.max_seq_number, 5000);
}

#[test]
fn test_ids_of_distinct_workers_differ() {
    let mut a = create_test_options();
    a.worker_id = 2;
    let mut b = create_test_options();
    b.worker_id = 3;
    let ga = FastIdGenerator::new(&a);
    let gb = FastIdGenerator::new(&b);
    let ia: HashSet<u64> = ga.next_ids_batch(2000).unwrap().into_iter().collect();
    for id in gb.next_ids_batch(2000).unwrap() {
        assert!(!ia.contains(&id));
        assert_eq!(gb.extract_worker_id(id), 3);
    }
}

#[test]
fn test_next_ids_batch() {
    let gen = FastIdGenerator::new(&create_test_options());
    let ids = gen.next_ids_batch(300).unwrap();
    assert_eq!(ids.len(), 300);
    for w in ids.windows(2) {
        assert!(w[0] < w[1]);
    }
    assert!(gen.next_ids_batch(0).unwrap().is_empty());
}

#[test]
fn test_timestamp_is_recent_and_sign_bit_clear() {
    let gen = FastIdGenerator::new(&IGOptions::new(1));
    let id = gen.next_id().unwrap();
    assert!(id < (1u64 << 63));
    let ts = gen.extract_timestamp(id);
    let now = std::time::SystemTime::now().duration_since(UNIX_EPOCH).unwrap().as_millis() as i64;
    assert!(ts <= now && now - ts < 60_000);
}

#[test]
fn test_small_sequence_field_waits_for_next_millisecond() {
    let mut options = create_test_options();
    options.seq_bit_length = 3;
    let gen = FastIdGenerator::new(&options);
    let ids = gen.next_ids_batch(40).unwrap();
    for w in ids.windows(2) {
        assert!(w[0] < w[1]);
    }
    for id in ids {
        assert!(gen.extract_sequence(id) <= 7);
    }
}

#[test]
fn test_error_variants_compare() {
    assert_ne!(IdError::NotInitialized, IdError::Stalled);
    assert_eq!(IdError::ClockBeforeEpoch, IdError::ClockBeforeEpoch);
}

#[test]
fn test_fields_of_any_id_as_numbers() {
    let gen = FastIdGenerator::new(&create_test_options());
    for id in [0u64, 1, 4095, 4096, 0x0123_4567_89ab_cdef, u64::MAX >> 1] {
        assert_eq!(gen.extract_sequence(id) as u64, id % (1 << 12));
        assert_eq!(gen.extract_worker_id(id) as u64, (id / (1 << 12)) % (1 << 10));
        assert_eq!(gen.extract_timestamp(id), (id / (1 << 22)) as i64 + gen.options().base_time);
    }
}
