use idgen_rs::default_id_generator::{validate_options, DefaultIdGenerator, OptionsError, SnowWorker};
use idgen_rs::generator::IdGenerator;
use idgen_rs::options::{IGOptions, DEFAULT_BASE_TIME};
use idgen_rs::over_cost_action_arg::OverCostActionArg;
use idgen_rs::snow_worker_m1::{SnowWorkerM1, WorkerStep};
use idgen_rs::snow_worker_m2::SnowWorkerM2;
use std::time::{Duration, UNIX_EPOCH};

fn worker() -> SnowWorkerM1 {
    SnowWorkerM1::new(&IGOptions::new(3))
}

#[test]
fn test_m1_new_applies_defaults() {
    let mut o = IGOptions::new(3);
    o.base_time = 0;
    o.worker_id_bit_length = 0;
    o.seq_bit_length = 0;
    let w = SnowWorkerM1::new(&o);
    assert_eq!(w.base_time, 1582136402000);
    assert_eq!(w.worker_id_bit_length, 6);
    assert_eq!(w.seq_bit_length, 6);
    assert_eq!(w.max_seq_number, 63);
    assert_eq!(w.timestamp_shift, 12);
    assert_eq!(w.current_seq_number, 5);
    assert_eq!(w.last_time_tick, 0);
    assert!(!w.is_over_cost);

    let mut p = IGOptions::new(3);
    p.max_seq_number = 40;
    p.seq_bit_length = 8;
    let v = SnowWorkerM1::new(&p);
    assert_eq!(v.max_seq_number, 40);
    assert_eq!(v.timestamp_shift, 14);
}

#[test]
fn test_m1_calc_ids() {
    let mut w = worker();
    assert_eq!(w.calc_id(100), (100 << 12) + (3 << 6) + 5);
    assert_eq!(w.current_seq_number, 6);
    w.turn_back_index = 2;
    w.turn_back_time_tick = 50;
    assert_eq!(w.calc_turn_back_id(50), (50 << 12) + 192 + 2);
    assert_eq!(w.turn_back_time_tick, 49);
}

#[test]
fn test_m1_whole_worker_id_is_shifted() {
    let mut o = IGOptions::new(255);
    o.worker_id_bit_length = 8;
    o.seq_bit_length = 14;
    let mut w = SnowWorkerM1::new(&o);
    assert_eq!(w.calc_id(0), (255 << 14) + 5);
    assert_eq!(w.calc_id(1), (1 << 22) + 4177920 + 6);
    let mut a = IGOptions::new(1);
    a.worker_id_bit_length = 10;
    a.seq_bit_length = 12;
    let mut b = a.clone();
    b.worker_id = 1 + 16;
    let mut wa = SnowWorkerM1::new(&a);
    let mut wb = SnowWorkerM1::new(&b);
    assert_ne!(wa.calc_id(7), wb.calc_id(7));
}

#[test]
fn test_m1_normal_path() {
    let mut w = worker();
    assert_eq!(w.next_id(100), WorkerStep::Issued(409797));
    assert_eq!(w.next_id(100), WorkerStep::Issued(409798));
    assert_eq!(w.last_time_tick, 100);
    assert_eq!(w.current_seq_number, 7);
}

#[test]
fn test_m1_drift_past_largest_sequence() {
    let mut w = worker();
    assert_eq!(w.next_id(100), WorkerStep::Issued(409797));
    w.current_seq_number = 64;
    // sequence used up: drift to tick 101 ahead of the clock
    assert_eq!(w.next_id(100), WorkerStep::Issued(413893));
    assert!(w.is_over_cost);
    assert_eq!(w.over_cost_count_in_one_term, 1);
    assert_eq!(w.last_time_tick, 101);
    // while drifting, the clock at 100 still gets IDs on tick 101
    assert_eq!(w.next_id(100), WorkerStep::Issued(413894));
    // drifts spent: wait for the clock to pass tick 101
    w.over_cost_count_in_one_term = 2000;
    assert_eq!(w.next_id(100), WorkerStep::AwaitTickAfter(101));
    assert_eq!(w.last_time_tick, 101);
    // a later tick ends the drift
    assert_eq!(w.next_id(102), WorkerStep::Issued(417989));
    assert!(!w.is_over_cost);
    assert_eq!(w.over_cost_count_in_one_term, 0);
}

#[test]
fn test_m1_drift_goes_on_past_largest_sequence() {
    let mut w = worker();
    w.next_id(100);
    w.current_seq_number = 64;
    assert_eq!(w.next_id(100), WorkerStep::Issued(413893));
    w.current_seq_number = 64;
    assert_eq!(w.next_over_cost_id(100), WorkerStep::Issued((102 << 12) + 197));
    assert_eq!(w.over_cost_count_in_one_term, 2);
}

#[test]
fn test_m1_turn_back_uses_reserved_sequences() {
    let mut w = worker();
    assert_eq!(w.next_id(100), WorkerStep::Issued(409797));
    // the clock went back: IDs on ticks 99, 98, ... with turn-back index 1
    assert_eq!(w.next_id(90), WorkerStep::Issued(405697));
    assert_eq!(w.turn_back_index, 1);
    assert_eq!(w.next_id(90), WorkerStep::Issued(401601));
    assert_eq!(w.turn_back_time_tick, 97);
    // the clock caught up
    assert_eq!(w.next_id(101), WorkerStep::Issued(413893));
    assert_eq!(w.turn_back_time_tick, 0);
    // a second turn-back uses index 2
    assert_eq!(w.next_id(50), WorkerStep::Issued((100 << 12) + 192 + 2));
    assert_eq!(w.turn_back_index, 2);
}

#[test]
fn test_m1_turn_back_index_cycles() {
    let mut w = worker();
    w.next_id(100);
    for expected in [1u8, 2, 3, 4, 1, 2] {
        w.turn_back_time_tick = 0;
        w.next_normal_id(10);
        assert_eq!(w.turn_back_index, expected);
    }
}

#[test]
fn test_m1_out_of_range() {
    let mut w = worker();
    w.max_seq_number = 1_000_000;
    w.last_time_tick = i64::MAX >> 12;
    w.current_seq_number = 5000;
    assert_eq!(w.next_id(i64::MAX >> 12), WorkerStep::OutOfRange);
    assert_eq!(w.current_seq_number, 5000);
    // the shift drops the high bits of the tick, as in two's complement
    let mut v = worker();
    assert_eq!(v.next_id(i64::MAX), WorkerStep::Issued(-4096 + 192 + 5));
    let mut wide = worker();
    wide.seq_bit_length = 64;
    assert_eq!(wide.next_id(1), WorkerStep::OutOfRange);
}

#[test]
fn test_m1_hooks_do_nothing() {
    let w = worker();
    let arg = OverCostActionArg::new(3, 100, 1, 2, 3, 4);
    assert_eq!(arg.worker_id, 3);
    assert_eq!(arg.time_tick, 100);
    assert_eq!(arg.action_type, 1);
    assert_eq!(arg.over_cost_count_in_one_term, 2);
    assert_eq!(arg.gen_count_in_one_term, 3);
    assert_eq!(arg.term_index, 4);
    w.do_gen_id_action(&arg);
    w.begin_over_cost_action(1);
    w.end_over_cost_action(1);
    w.begin_turn_back_action(1);
    w.end_turn_back_action(1);
    assert_eq!(w.current_seq_number, 5);
}

#[test]
fn test_m1_current_time_tick_counts_from_base_time() {
    let w = worker();
    let tick = w.get_current_time_tick().unwrap();
    let now = std::time::SystemTime::now().duration_since(UNIX_EPOCH).unwrap().as_millis() as i64;
    assert!(tick <= now - DEFAULT_BASE_TIME && now - DEFAULT_BASE_TIME - tick < 60_000);
}

#[test]
fn test_m2_classic_path() {
    let mut w = SnowWorkerM2::new(&IGOptions::new(3));
    assert_eq!(w.next_id(100), WorkerStep::Issued(409797));
    assert_eq!(w.next_id(100), WorkerStep::Issued(409798));
    for s in 7..=63 {
        assert_eq!(w.next_id(100), WorkerStep::Issued((100 << 12) + 192 + s));
    }
    // sequence used up: wait for a tick after 100
    assert_eq!(w.next_id(100), WorkerStep::AwaitTickAfter(100));
    assert_eq!(w.next_id(101), WorkerStep::Issued(413893));
    // the clock went back by 6 ms
    assert_eq!(w.next_id(95), WorkerStep::IssuedBehindClock { id: 389317, behind_ms: 6 });
    assert_eq!(w.next_id(95), WorkerStep::Issued(389318));
}

fn valid() -> IGOptions {
    IGOptions::new(1)
}

const NOW: i64 = 1_700_000_000_000;

#[test]
fn test_validate_options_accepts_defaults() {
    assert_eq!(validate_options(&valid(), NOW), Ok(()));
    let mut o = valid();
    o.worker_id_bit_length = 1;
    o.seq_bit_length = 21;
    o.worker_id = 1;
    assert_eq!(validate_options(&o, NOW), Ok(()));
}

#[test]
fn test_validate_options_errors() {
    let mut o = valid();
    o.base_time = 631123199999;
    assert_eq!(validate_options(&o, NOW), Err(OptionsError::BaseTime));
    let mut o = valid();
    o.base_time = NOW + 1;
    assert_eq!(validate_options(&o, NOW), Err(OptionsError::BaseTime));
    let mut o = valid();
    o.worker_id_bit_length = 0;
    assert_eq!(validate_options(&o, NOW), Err(OptionsError::WorkerIdBitLength));
    let mut o = valid();
    o.worker_id_bit_length = 12;
    o.seq_bit_length = 11;
    assert_eq!(validate_options(&o, NOW), Err(OptionsError::BitLengthSum));
    let mut o = valid();
    o.worker_id_bit_length = 16;
    o.seq_bit_length = 2;
    assert_eq!(validate_options(&o, NOW), Err(OptionsError::WorkerIdBitLength));
    let mut o = valid();
    o.worker_id = 64;
    assert_eq!(validate_options(&o, NOW), Err(OptionsError::WorkerId { max_worker_id: 63 }));
    let mut o = valid();
    o.seq_bit_length = 1;
    assert_eq!(validate_options(&o, NOW), Err(OptionsError::SeqBitLength));
    let mut o = valid();
    o.max_seq_number = 64;
    assert_eq!(validate_options(&o, NOW), Err(OptionsError::MaxSeqNumber { max: 63 }));
    let mut o = valid();
    o.min_seq_number = 4;
    assert_eq!(validate_options(&o, NOW), Err(OptionsError::MinSeqNumber { max: 63 }));
    let mut o = valid();
    o.min_seq_number = 64;
    assert_eq!(validate_options(&o, NOW), Err(OptionsError::MinSeqNumber { max: 63 }));
    let mut o = valid();
    o.top_over_cost_count = 10001;
    assert_eq!(validate_options(&o, NOW), Err(OptionsError::TopOverCostCount));
    let mut o = valid();
    o.max_seq_number = 10;
    o.min_seq_number = 20;
    assert_eq!(validate_options(&o, NOW), Err(OptionsError::MinAboveMaxSeqNumber { max_seq_number: 10 }));
    let mut o = valid();
    o.max_seq_number = 20;
    o.min_seq_number = 20;
    assert_eq!(validate_options(&o, NOW), Ok(()));
}

#[test]
fn test_default_id_generator_picks_worker() {
    let g = DefaultIdGenerator::new(valid()).unwrap();
    assert!(matches!(g.snow_worker, SnowWorker::M1(_)));
    let mut o = valid();
    o.method = 2;
    let g2 = DefaultIdGenerator::new(o).unwrap();
    assert!(matches!(g2.snow_worker, SnowWorker::M2(_)));
    let mut far = valid();
    far.base_time = i64::MAX;
    assert!(matches!(DefaultIdGenerator::new(far), Err(OptionsError::BaseTime)));
    let mut old = valid();
    old.base_time = 0;
    assert!(matches!(DefaultIdGenerator::new(old), Err(OptionsError::BaseTime)));
}

#[test]
fn test_default_id_generator_ids_and_time() {
    let mut g = DefaultIdGenerator::new(valid()).unwrap();
    let tick = g.snow_worker.get_current_time_tick().unwrap();
    let id = match g.new_long(tick) {
        WorkerStep::Issued(id) => id,
        other => panic!("unexpected step {:?}", other),
    };
    assert_eq!(id, (tick << 12) + (1 << 6) + 5);
    assert_eq!(
        g.extract_time(id),
        Some(UNIX_EPOCH + Duration::from_millis((tick + DEFAULT_BASE_TIME) as u64))
    );
    assert_eq!(g.extract_time(409797), Some(UNIX_EPOCH + Duration::from_millis(1582164002100)));
}

#[test]
fn test_id_generator_matches_default() {
    let mut g = IdGenerator::new(valid()).unwrap();
    assert!(matches!(g.worker, SnowWorker::M1(_)));
    assert_eq!(g.new_long(100), WorkerStep::Issued((100 << 12) + 64 + 5));
    assert_eq!(g.new_long(100), WorkerStep::Issued((100 << 12) + 64 + 6));
    assert_eq!(g.extract_time((100 << 12) + 64 + 5), Some(UNIX_EPOCH + Duration::from_millis(1582164002100)));
    let mut o = valid();
    o.top_over_cost_count = 10001;
    assert!(matches!(IdGenerator::new(o), Err(OptionsError::TopOverCostCount)));
}

fn issued(step: WorkerStep) -> i64 {
    match step {
        WorkerStep::Issued(id) => id,
        other => panic!("no ID handed out: {:?}", other),
    }
}

#[test]
fn test_m1_ids_increase_with_the_clock() {
    let mut w = worker();
    let mut ids = vec![issued(w.next_id(100)), issued(w.next_id(100))];
    w.current_seq_number = 64;
    ids.push(issued(w.next_id(100))); // drifts to tick 101
    ids.push(issued(w.next_id(100))); // drifting, still on tick 101
    ids.push(issued(w.next_id(101)));
    ids.push(issued(w.next_id(102))); // a later tick ends the drift
    ids.push(issued(w.next_id(102)));
    ids.push(issued(w.next_id(110)));
    assert!(w.current_seq_number == 6 && !w.is_over_cost);
    for pair in ids.windows(2) {
        assert!(pair[0] < pair[1], "{} then {}", pair[0], pair[1]);
    }
}

#[test]
fn test_m2_ids_increase_with_the_clock() {
    let mut w = SnowWorkerM2::new(&IGOptions::new(3));
    let mut last = issued(w.next_id(100));
    for tick in [100, 100, 101, 150, 150, 151] {
        let id = issued(w.next_id(tick));
        assert!(id > last, "{} then {} at tick {}", last, id, tick);
        last = id;
    }
}

#[test]
fn test_ids_increase_on_ticks_before_the_base_time() {
    let mut w = SnowWorkerM2::new(&IGOptions::new(3));
    assert_eq!(w.next_id(-5), WorkerStep::IssuedBehindClock { id: (-5 << 12) + 192 + 5, behind_ms: 5 });
    let mut last = (-5 << 12) + 192 + 5;
    for tick in [-5, -5, -4, -1, 0] {
        let id = issued(w.next_id(tick));
        assert!(id > last, "{} then {} at tick {}", last, id, tick);
        last = id;
    }
}

#[test]
fn test_id_timestamp_gives_the_tick_back() {
    let mut o = IGOptions::new(255);
    o.worker_id_bit_length = 8;
    o.seq_bit_length = 14;
    let mut w = SnowWorkerM1::new(&o);
    for tick in [0i64, 1, 77, 1_000_000] {
        let id = issued(w.next_id(tick));
        assert_eq!(id >> 22, tick);
    }
}

#[test]
fn test_drifts_stay_within_top_over_cost_count() {
    let mut o = IGOptions::new(3);
    o.top_over_cost_count = 2;
    let mut w = SnowWorkerM1::new(&o);
    issued(w.next_id(100));
    for _ in 0..5 {
        w.current_seq_number = 64;
        let _ = w.next_id(100);
        assert!(w.over_cost_count_in_one_term <= 2);
    }
    assert_eq!(w.next_id(100), WorkerStep::AwaitTickAfter(102));
}

#[test]
fn test_issued_ids_are_never_behind_the_clock() {
    let mut w = worker();
    for tick in [100i64, 100, 100, 103, 103] {
        if tick == 100 {
            w.current_seq_number = 64;
        }
        let id = issued(w.next_id(tick));
        assert_eq!(id >> 12, w.last_time_tick);
        assert!(w.last_time_tick >= tick);
    }
}
