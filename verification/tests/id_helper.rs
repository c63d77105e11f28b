use idgen_rs::fast_generator::{FastIdGenerator, IdError};
use idgen_rs::id_helper::{
    extract_id_info, extract_id_infos, extract_time, get_options, is_initialized, next_id, next_ids,
    set_options, try_next_id, IdInfo,
};
use idgen_rs::options::{IGOptions, DEFAULT_BASE_TIME};
use std::time::{Duration, UNIX_EPOCH};

#[test]
fn test_uninitialized_helpers() {
    assert!(!is_initialized(None));
    let o = get_options(None);
    assert_eq!(o.worker_id, 1);
    assert_eq!(o.worker_id_bit_length, 6);
    assert_eq!(try_next_id(None), Err(IdError::NotInitialized));
}

#[test]
fn test_initialized_helpers() {
    let g = FastIdGenerator::new(&IGOptions::new(9));
    assert!(is_initialized(Some(&g)));
    let o = get_options(Some(&g));
    assert_eq!(o.worker_id, 9);
    assert_eq!(o.seq_bit_length, 6);
    let id = try_next_id(Some(&g)).unwrap();
    assert_eq!(g.extract_worker_id(id), 9);
    let id2 = next_id(&g).unwrap();
    assert!(id2 > id);
    let ids = next_ids(&g, 100).unwrap();
    assert_eq!(ids.len(), 100);
    assert!(ids[0] > id2);
}

#[test]
fn test_extract_helpers() {
    let g = FastIdGenerator::new(&IGOptions::new(9));
    let id: u64 = (250 << 12) | (9 << 6) | 17;
    assert_eq!(extract_time(&g, id), Some(UNIX_EPOCH + Duration::from_millis(1582164002250)));
    let info = extract_id_info(&g, id);
    assert_eq!(info.timestamp, DEFAULT_BASE_TIME + 250);
    assert_eq!(info.worker_id, 9);
    assert_eq!(info.sequence, 17);
    let infos = extract_id_infos(&g, &[id, (251 << 12) | (9 << 6) | 5]);
    assert_eq!(infos.len(), 2);
    assert_eq!(infos[0].sequence, 17);
    assert_eq!(infos[1].timestamp, DEFAULT_BASE_TIME + 251);
    assert_eq!(infos[1].sequence, 5);
    assert!(extract_id_infos(&g, &[]).is_empty());
}

#[test]
fn test_id_info_default() {
    let info = IdInfo::default();
    assert_eq!(info.timestamp, 0);
    assert_eq!(info.worker_id, 0);
    assert_eq!(info.sequence, 0);
    assert_eq!(info.system_time, Some(UNIX_EPOCH));
}

#[test]
fn test_get_options_gives_back_the_options_set() {
    let o = IGOptions::builder(1).worker_id_bit_length(10).seq_bit_length(12).base_time_ms(1_600_000_000_000).build();
    let g = FastIdGenerator::new(&o);
    let back = get_options(Some(&g));
    assert_eq!(back.worker_id, 1);
    assert_eq!(back.worker_id_bit_length, 10);
    assert_eq!(back.seq_bit_length, 12);
    assert_eq!(back.base_time, 1_600_000_000_000);
    assert_eq!(g.options().seq_bit_length, 12);
}

#[test]
fn test_set_options_keeps_the_first_generator() {
    let mut slot: Option<FastIdGenerator> = None;
    set_options(&mut slot, IGOptions::new(4));
    assert_eq!(slot.as_ref().unwrap().worker_id(), 4);
    set_options(&mut slot, IGOptions::new(5));
    assert_eq!(slot.as_ref().unwrap().worker_id(), 4);
    assert_eq!(get_options(slot.as_ref()).worker_id, 4);
}
