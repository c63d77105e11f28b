//! Taking IDs apart, and the operations of the process-wide generator, with
//! the generator passed in.
use vstd::prelude::*;
use std::time::SystemTime;
use crate::fast_generator::{FastIdGenerator, IdError, layout_options, layout_of};
use crate::options::IGOptions;
use crate::time::{system_time_from_millis, time_at_millis};

verus! {

/// The fields of an ID.
#[derive(Debug, Clone)]
pub struct IdInfo {
    /// Timestamp in milliseconds since the Unix epoch.
    pub timestamp: i64,
    /// Worker id.
    pub worker_id: u16,
    /// Sequence number.
    pub sequence: u32,
    /// The timestamp as a `SystemTime`; `None` where the platform cannot
    /// represent it.
    pub system_time: Option<SystemTime>,
}

impl Default for IdInfo {
    fn default() -> (info: Self)
        ensures
            info.timestamp == 0,
            info.worker_id == 0,
            info.sequence == 0,
            info.system_time == time_at_millis(0),
    {
        IdInfo { timestamp: 0, worker_id: 0, sequence: 0, system_time: system_time_from_millis(0) }
    }
}

/// Sets up the generator in `slot` from `options`; a generator already set
/// up stays as it is.
pub fn set_options(slot: &mut Option<FastIdGenerator>, options: IGOptions)
    requires
        old(slot).is_none() ==> layout_options(options),
    ensures
        old(slot).is_some() ==> *final(slot) == *old(slot),
        old(slot).is_none() ==> (*final(slot) matches Some(g) && g.wf() && g.built_from() == options
            && g@ == layout_of(options)),
{
    if slot.is_some() {
        return;
    }
    *slot = Some(FastIdGenerator::new(&options));
}

/// Whether a generator has been set up.
pub fn is_initialized(generator: Option<&FastIdGenerator>) -> (b: bool)
    ensures
        b == generator.is_some(),
{
    generator.is_some()
}

/// The options of the generator: the options it was built from, or the
/// default options for worker 1 when there is no generator.
pub fn get_options(generator: Option<&FastIdGenerator>) -> (o: IGOptions)
    requires
        generator matches Some(g) ==> g.wf(),
    ensures
        o == (match generator {
            Some(g) => g.built_from(),
            None => IGOptions::defaults(1),
        }),
{
    match generator {
        Some(g) => g.options(),
        None => IGOptions::quick_init(1),
    }
}

/// The next ID of the generator, or `IdError::NotInitialized` when there is
/// none.
pub fn try_next_id(generator: Option<&FastIdGenerator>) -> (r: Result<u64, IdError>)
    requires
        generator matches Some(g) ==> g.wf(),
    ensures
        generator is None ==> r == Err::<u64, IdError>(IdError::NotInitialized),
        generator matches Some(g) ==> (r matches Ok(id) ==> g@.has_layout(id) && g.claimed_on_clock(id)),
        generator matches Some(g) ==> (r matches Err(e) ==> e == IdError::ClockBeforeEpoch || e == IdError::Stalled),
{
    match generator {
        Some(g) => g.next_id(),
        None => Err(IdError::NotInitialized),
    }
}

/// The next ID of the generator.
pub fn next_id(generator: &FastIdGenerator) -> (r: Result<u64, IdError>)
    requires
        generator.wf(),
    ensures
        r matches Ok(id) ==> generator@.has_layout(id) && generator.claimed_on_clock(id),
        r matches Err(e) ==> e == IdError::ClockBeforeEpoch || e == IdError::Stalled,
{
    generator.next_id()
}

/// `count` IDs of the generator, one after another.
pub fn next_ids(generator: &FastIdGenerator, count: usize) -> (r: Result<Vec<u64>, IdError>)
    requires
        generator.wf(),
    ensures
        r matches Ok(ids) ==> ids.len() == count && forall|i: int|
            0 <= i < ids.len() ==> generator@.has_layout(#[trigger] ids[i]) && generator.claimed_on_clock(
                ids[i],
            ),
        count == 0 ==> (r matches Ok(ids) && ids.len() == 0),
        r matches Err(e) ==> e == IdError::ClockBeforeEpoch || e == IdError::Stalled,
{
    generator.next_ids_batch(count)
}

/// The point in time of an ID; `None` where the platform cannot represent it.
pub fn extract_time(generator: &FastIdGenerator, id: u64) -> (t: Option<SystemTime>)
    requires
        generator.wf(),
        i64::MIN <= (generator@.id_timestamp(id) as i64) + generator@.base_time <= i64::MAX,
    ensures
        t == time_at_millis(((generator@.id_timestamp(id) as i64) + generator@.base_time) as u64),
{
    let millis = generator.extract_timestamp(id);
    system_time_from_millis(millis as u64)
}

/// All the fields of an ID.
pub fn extract_id_info(generator: &FastIdGenerator, id: u64) -> (info: IdInfo)
    requires
        generator.wf(),
        i64::MIN <= (generator@.id_timestamp(id) as i64) + generator@.base_time <= i64::MAX,
    ensures
        info.timestamp == (generator@.id_timestamp(id) as i64) + generator@.base_time,
        info.worker_id == generator@.id_worker(id) as u16,
        info.sequence == generator@.id_sequence(id) as u32,
        info.system_time == time_at_millis(info.timestamp as u64),
{
    generator.extract_id_info(id)
}

/// The fields of each ID, in order.
pub fn extract_id_infos(generator: &FastIdGenerator, ids: &[u64]) -> (infos: Vec<IdInfo>)
    requires
        generator.wf(),
        forall|i: int|
            0 <= i < ids@.len() ==> i64::MIN <= (generator@.id_timestamp(#[trigger] ids@[i]) as i64)
                + generator@.base_time <= i64::MAX,
    ensures
        infos.len() == ids@.len(),
        forall|i: int|
            0 <= i < ids@.len() ==> {
                &&& (#[trigger] infos[i]).timestamp == (generator@.id_timestamp(ids@[i]) as i64)
                    + generator@.base_time
                &&& infos[i].worker_id == generator@.id_worker(ids@[i]) as u16
                &&& infos[i].sequence == generator@.id_sequence(ids@[i]) as u32
                &&& infos[i].system_time == time_at_millis(infos[i].timestamp as u64)
            },
{
    let mut infos: Vec<IdInfo> = Vec::with_capacity(ids.len());
    let mut k: usize = 0;
    while k < ids.len()
        invariant
            generator.wf(),
            k <= ids@.len(),
            infos.len() == k,
            forall|i: int|
                0 <= i < ids@.len() ==> i64::MIN <= (generator@.id_timestamp(#[trigger] ids@[i]) as i64)
                    + generator@.base_time <= i64::MAX,
            forall|i: int|
                0 <= i < k ==> {
                    &&& (#[trigger] infos[i]).timestamp == (generator@.id_timestamp(ids@[i]) as i64)
                        + generator@.base_time
                    &&& infos[i].worker_id == generator@.id_worker(ids@[i]) as u16
                    &&& infos[i].sequence == generator@.id_sequence(ids@[i]) as u32
                    &&& infos[i].system_time == time_at_millis(infos[i].timestamp as u64)
                },
        decreases ids@.len() - k,
    {
        let info = generator.extract_id_info(ids[k]);
        infos.push(info);
        k = k + 1;
    }
    infos
}

} // verus!
