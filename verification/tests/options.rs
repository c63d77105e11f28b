use idgen_rs::options::{IGOptions, IGOptionsBuilder, DEFAULT_BASE_TIME};

fn assert_defaults(o: &IGOptions, worker_id: u16) {
    assert_eq!(o.method, 1);
    assert_eq!(o.base_time, DEFAULT_BASE_TIME);
    assert_eq!(o.worker_id, worker_id);
    assert_eq!(o.worker_id_bit_length, 6);
    assert_eq!(o.seq_bit_length, 6);
    assert_eq!(o.max_seq_number, 0);
    assert_eq!(o.min_seq_number, 5);
    assert_eq!(o.top_over_cost_count, 2000);
}

#[test]
fn test_new_and_quick_init_defaults() {
    assert_eq!(DEFAULT_BASE_TIME, 1582164002000);
    assert_defaults(&IGOptions::new(7), 7);
    assert_defaults(&IGOptions::quick_init(9), 9);
    assert_defaults(&IGOptions::builder(11).build(), 11);
    assert_defaults(&IGOptionsBuilder::new(12).build(), 12);
}

#[test]
fn test_builder_setters_change_one_field_each() {
    let o = IGOptions::builder(1)
        .method(2)
        .base_time_ms(1_600_000_000_000)
        .worker_id_bit_length(10)
        .seq_bit_length(10)
        .max_seq_number(1000)
        .min_seq_number(7)
        .top_over_cost_count(5000)
        .build();
    assert_eq!(o.method, 2);
    assert_eq!(o.base_time, 1_600_000_000_000);
    assert_eq!(o.worker_id, 1);
    assert_eq!(o.worker_id_bit_length, 10);
    assert_eq!(o.seq_bit_length, 10);
    assert_eq!(o.max_seq_number, 1000);
    assert_eq!(o.min_seq_number, 7);
    assert_eq!(o.top_over_cost_count, 5000);

    let only_seq = IGOptions::builder(3).seq_bit_length(12).build();
    assert_eq!(only_seq.seq_bit_length, 12);
    assert_eq!(only_seq.worker_id_bit_length, 6);
    assert_eq!(only_seq.worker_id, 3);
}

fn bits(max_nodes: u32, max_qps: u32) -> (u8, u8) {
    let o = IGOptions::with_capacity(5, max_nodes, max_qps);
    assert_eq!(o.worker_id, 5);
    assert_eq!(o.method, 1);
    assert_eq!(o.base_time, DEFAULT_BASE_TIME);
    assert_eq!(o.max_seq_number, 0);
    assert_eq!(o.min_seq_number, 5);
    assert_eq!(o.top_over_cost_count, 2000);
    (o.worker_id_bit_length, o.seq_bit_length)
}

#[test]
fn test_with_capacity_cluster_examples() {
    // 1024 nodes, 50k QPS: 10 worker bits (exact ceiling of log2), 6 sequence bits
    assert_eq!(bits(1024, 50_000), (10, 6));
    assert_eq!(bits(64, 10_000), (6, 4));
    assert_eq!(bits(4096, 200_000), (12, 8));
    assert_eq!(bits(1024, 1_000_000), (10, 11));
}

#[test]
fn test_with_capacity_worker_bits_are_exact_ceiling() {
    assert_eq!(bits(0, 0).0, 1);
    assert_eq!(bits(1, 0).0, 1);
    assert_eq!(bits(2, 0).0, 1);
    assert_eq!(bits(3, 0).0, 2);
    assert_eq!(bits(4, 0).0, 2);
    assert_eq!(bits(5, 0).0, 3);
    assert_eq!(bits(1000, 0).0, 10);
    assert_eq!(bits(1025, 0).0, 11);
    assert_eq!(bits(0x40_0000, 0).0, 22);
}

#[test]
fn test_with_capacity_sequence_bits() {
    // at least 3 bits
    assert_eq!(bits(1, 0).1, 3);
    assert_eq!(bits(1000, 1).1, 3);
    // per-millisecond demand is rounded up: 1001 QPS is 2 IDs per ms
    assert_eq!(bits(1, 1001).1, 3);
    // demand 12 per ms (10 + 20%) takes 4 bits
    assert_eq!(bits(1, 10_000).1, 4);
    // cut to 22 - worker bits, but never below 3
    assert_eq!(bits(4096, u32::MAX), (12, 10));
    assert_eq!(bits(1_000_000, 4_000_000), (20, 3));
    assert_eq!(bits(0x40_0000, 1_000_000), (22, 3));
}
