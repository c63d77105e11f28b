//! A generator built from validated options, that runs a drift or a classic
//! worker.
use vstd::prelude::*;
use vstd::arithmetic::power2::pow2;
use std::time::SystemTime;
use crate::options::IGOptions;
use crate::snow_worker_m1::{SnowWorkerM1, WorkerStep};
use crate::snow_worker_m2::{SnowWorkerM2, classic_step};
use crate::time::{clock_millis, current_time_millis, system_time_from_millis, time_at_millis};

verus! {

/// Earliest accepted base time: 1990-01-01 00:00:00 UTC, in milliseconds.
pub const MIN_BASE_TIME: i64 = 631123200000;

/// Largest accepted number of drifts.
pub const MAX_TOP_OVER_COST_COUNT: u32 = 10000;

/// Why options were refused.
#[derive(Debug, Clone, Copy, PartialEq, Eq)]
pub enum OptionsError {
    /// The system clock reads earlier than the Unix epoch.
    ClockBeforeEpoch,
    /// The base time lies before 1990 or in the future.
    BaseTime,
    /// The worker id bit length is 0, or too wide for a 16-bit worker id.
    WorkerIdBitLength,
    /// Worker id and sequence bit lengths together pass 22 bits.
    BitLengthSum,
    /// The worker id passes `max_worker_id`.
    WorkerId { max_worker_id: u16 },
    /// The sequence bit length lies outside [2, 21].
    SeqBitLength,
    /// The largest sequence number passes `max`.
    MaxSeqNumber { max: u32 },
    /// The smallest sequence number lies outside [5, `max`].
    MinSeqNumber { max: u32 },
    /// The smallest sequence number passes the largest one, `max_seq_number`.
    MinAboveMaxSeqNumber { max_seq_number: u32 },
    /// The largest number of drifts passes 10000.
    TopOverCostCount,
}

/// What is wrong with `o` when the clock reads `now_ms`, checked in this
/// order; `None` when nothing is.
pub open spec fn options_error(o: IGOptions, now_ms: i64) -> Option<OptionsError> {
    let max_worker = (pow2(o.worker_id_bit_length as nat) - 1) as u16;
    let max_seq = (pow2(o.seq_bit_length as nat) - 1) as u32;
    if o.base_time < MIN_BASE_TIME || o.base_time > now_ms {
        Some(OptionsError::BaseTime)
    } else if o.worker_id_bit_length == 0 {
        Some(OptionsError::WorkerIdBitLength)
    } else if o.worker_id_bit_length + o.seq_bit_length > 22 {
        Some(OptionsError::BitLengthSum)
    } else if o.worker_id_bit_length >= 16 {
        Some(OptionsError::WorkerIdBitLength)
    } else if o.worker_id > max_worker {
        Some(OptionsError::WorkerId { max_worker_id: max_worker })
    } else if o.seq_bit_length < 2 || o.seq_bit_length > 21 {
        Some(OptionsError::SeqBitLength)
    } else if o.max_seq_number > max_seq {
        Some(OptionsError::MaxSeqNumber { max: max_seq })
    } else if o.min_seq_number < 5 || o.min_seq_number > max_seq {
        Some(OptionsError::MinSeqNumber { max: max_seq })
    } else if o.max_seq_number != 0 && o.min_seq_number > o.max_seq_number {
        Some(OptionsError::MinAboveMaxSeqNumber { max_seq_number: o.max_seq_number })
    } else if o.top_over_cost_count > MAX_TOP_OVER_COST_COUNT {
        Some(OptionsError::TopOverCostCount)
    } else {
        None
    }
}

/// Checks `options` against the clock reading `now_ms`.
pub fn validate_options(options: &IGOptions, now_ms: i64) -> (r: Result<(), OptionsError>)
    ensures
        r == (match options_error(*options, now_ms) {
            None => Ok(()),
            Some(e) => Err(e),
        }),
{
    if options.base_time < MIN_BASE_TIME || options.base_time > now_ms {
        return Err(OptionsError::BaseTime);
    }
    if options.worker_id_bit_length == 0 {
        return Err(OptionsError::WorkerIdBitLength);
    }
    if options.worker_id_bit_length as u16 + options.seq_bit_length as u16 > 22 {
        return Err(OptionsError::BitLengthSum);
    }
    if options.worker_id_bit_length >= 16 {
        return Err(OptionsError::WorkerIdBitLength);
    }
    let max_worker_id_number: u16 = low_mask_u16(options.worker_id_bit_length);
    if options.worker_id > max_worker_id_number {
        return Err(OptionsError::WorkerId { max_worker_id: max_worker_id_number });
    }
    if options.seq_bit_length < 2 || options.seq_bit_length > 21 {
        return Err(OptionsError::SeqBitLength);
    }
    let max_seq_number: u32 = low_mask_u32(options.seq_bit_length);
    if options.max_seq_number > max_seq_number {
        return Err(OptionsError::MaxSeqNumber { max: max_seq_number });
    }
    if options.min_seq_number < 5 || options.min_seq_number > max_seq_number {
        return Err(OptionsError::MinSeqNumber { max: max_seq_number });
    }
    if options.max_seq_number != 0 && options.min_seq_number > options.max_seq_number {
        return Err(OptionsError::MinAboveMaxSeqNumber { max_seq_number: options.max_seq_number });
    }
    if options.top_over_cost_count > MAX_TOP_OVER_COST_COUNT {
        return Err(OptionsError::TopOverCostCount);
    }
    Ok(())
}

/// `(1 << bits) - 1` in 16 bits.
fn low_mask_u16(bits: u8) -> (m: u16)
    requires
        bits < 16,
    ensures
        m == pow2(bits as nat) - 1,
{
    proof {
        vstd::bits::lemma_u16_pow2_no_overflow(bits as nat);
        vstd::bits::lemma_u16_shl_is_mul(1, bits as u16);
    }
    let one: u16 = 1;
    (one << bits) - 1
}

/// `(1 << bits) - 1` in 32 bits.
fn low_mask_u32(bits: u8) -> (m: u32)
    requires
        bits < 32,
    ensures
        m == pow2(bits as nat) - 1,
{
    proof {
        vstd::bits::lemma_u32_pow2_no_overflow(bits as nat);
        vstd::bits::lemma_u32_shl_is_mul(1, bits as u32);
    }
    let one: u32 = 1;
    (one << bits) - 1
}

/// Validated options leave the worker within its type bounds.
proof fn lemma_valid_options_worker(o: IGOptions, now_ms: i64)
    requires
        options_error(o, now_ms) is None,
    ensures
        o.worker_id_bit_length + o.seq_bit_length <= 22,
        o.seq_bit_length < 32,
        SnowWorkerM1::from_options(o).max_seq_number < u32::MAX,
        SnowWorkerM1::from_options(o).min_seq_number < u32::MAX,
        SnowWorkerM1::from_options(o).wf(),
{
    let sb = o.seq_bit_length;
    vstd::bits::lemma_u32_pow2_no_overflow(sb as nat);
    vstd::bits::lemma_u32_shl_is_mul(1, sb as u32);
    assert((1u32 << sb) == (1u32 << (sb as u32))) by (bit_vector);
}

/// Options are accepted exactly when every documented range holds (the base
/// time from 1990 up to now, worker id bits in [1, 15], both bit lengths
/// together at most 22, the worker id within its bits, sequence bits in
/// [2, 21], the largest sequence number within its field, the smallest in
/// [5, 2^seq_bit_length - 1] and not above a set largest one, at most 10000
/// drifts), and each
/// error names a range that does not: a base time before 1990 or in the
/// future, a worker id past `2^worker_id_bit_length - 1`, a largest sequence
/// number past the field, a smallest one outside [5, `max`], and so on, with
/// `max_worker_id` and `max` the largest values the fields hold.
pub proof fn lemma_options_accepted_iff_in_range(o: IGOptions, now_ms: i64)
    ensures
        options_error(o, now_ms) is None <==> {
            &&& MIN_BASE_TIME <= o.base_time <= now_ms
            &&& 1 <= o.worker_id_bit_length <= 15
            &&& o.worker_id_bit_length + o.seq_bit_length <= 22
            &&& o.worker_id < pow2(o.worker_id_bit_length as nat)
            &&& 2 <= o.seq_bit_length <= 21
            &&& o.max_seq_number < pow2(o.seq_bit_length as nat)
            &&& 5 <= o.min_seq_number < pow2(o.seq_bit_length as nat)
            &&& o.max_seq_number == 0 || o.min_seq_number <= o.max_seq_number
            &&& o.top_over_cost_count <= 10000
        },
        options_error(o, now_ms) == Some(OptionsError::BaseTime) <==> !(MIN_BASE_TIME <= o.base_time
            <= now_ms),
        options_error(o, now_ms) matches Some(OptionsError::WorkerId { max_worker_id }) ==> max_worker_id
            == pow2(o.worker_id_bit_length as nat) - 1 && o.worker_id > max_worker_id,
        options_error(o, now_ms) matches Some(OptionsError::MaxSeqNumber { max }) ==> max == pow2(
            o.seq_bit_length as nat,
        ) - 1 && o.max_seq_number > max,
        options_error(o, now_ms) matches Some(OptionsError::MinSeqNumber { max }) ==> max == pow2(
            o.seq_bit_length as nat,
        ) - 1 && (o.min_seq_number < 5 || o.min_seq_number > max),
        options_error(o, now_ms) matches Some(OptionsError::MinAboveMaxSeqNumber { max_seq_number })
            ==> max_seq_number == o.max_seq_number && o.max_seq_number != 0 && o.min_seq_number
            > o.max_seq_number,
        options_error(o, now_ms) == Some(OptionsError::SeqBitLength) ==> o.seq_bit_length < 2
            || o.seq_bit_length > 21,
        options_error(o, now_ms) == Some(OptionsError::TopOverCostCount) ==> o.top_over_cost_count
            > 10000,
        options_error(o, now_ms) == Some(OptionsError::BitLengthSum) ==> o.worker_id_bit_length
            + o.seq_bit_length > 22,
        options_error(o, now_ms) == Some(OptionsError::WorkerIdBitLength) ==> o.worker_id_bit_length
            == 0 || o.worker_id_bit_length >= 16,
{
    let wb = o.worker_id_bit_length as nat;
    let sb = o.seq_bit_length as nat;
    vstd::arithmetic::power2::lemma2_to64();
    vstd::arithmetic::power2::lemma_pow2_pos(wb);
    vstd::arithmetic::power2::lemma_pow2_pos(sb);
    if wb <= 15 {
        crate::options::lemma_pow2_le(wb, 15);
    }
    if sb <= 21 {
        crate::options::lemma_pow2_le(sb, 21);
    }
}

/// The worker a generator runs.
#[derive(Debug, Clone)]
pub enum SnowWorker {
    /// Drift algorithm.
    M1(SnowWorkerM1),
    /// Classic algorithm.
    M2(SnowWorkerM2),
}

impl SnowWorker {
    /// The worker's invariant holds.
    pub open spec fn wf(&self) -> bool {
        match self {
            SnowWorker::M1(w) => w.wf(),
            SnowWorker::M2(w) => w.wf(),
        }
    }

    /// The worker method `method` picks for `options`: 2 picks the classic
    /// worker, anything else the drift worker.
    pub open spec fn picks(self, method: u16, options: IGOptions) -> bool {
        if method == 2 {
            self matches SnowWorker::M2(w) && w@ == SnowWorkerM1::from_options(options)
        } else {
            self == SnowWorker::M1(SnowWorkerM1::from_options(options))
        }
    }

    /// The worker for validated `options`.
    pub fn for_options(options: &IGOptions) -> (w: Self)
        requires
            exists|now_ms: i64| options_error(*options, now_ms) is None,
        ensures
            w.picks(options.method, *options),
            w.wf(),
    {
        proof {
            let now_ms = choose|now_ms: i64| options_error(*options, now_ms) is None;
            lemma_valid_options_worker(*options, now_ms);
        }
        if options.method == 2 {
            SnowWorker::M2(SnowWorkerM2::new(options))
        } else {
            SnowWorker::M1(SnowWorkerM1::new(options))
        }
    }

    /// Milliseconds since the worker's base time on the system clock; `None`
    /// when the clock reads earlier than the Unix epoch.
    pub fn get_current_time_tick(&self) -> (r: Option<i64>)
        ensures
            r matches Some(t) ==> match self {
                SnowWorker::M1(w) => w.tick_of_reading(t),
                SnowWorker::M2(w) => w@.tick_of_reading(t),
            },
    {
        match self {
            SnowWorker::M1(w) => w.get_current_time_tick(),
            SnowWorker::M2(w) => w.get_current_time_tick(),
        }
    }

    /// One step of the worker at clock reading `current_time_tick`.
    pub fn next_id(&mut self, current_time_tick: i64) -> (r: WorkerStep)
        requires
            old(self).wf(),
        ensures
            final(self).wf(),
            match (*old(self), *final(self)) {
                (SnowWorker::M1(a), SnowWorker::M1(b)) => (b, r) == a.step(current_time_tick),
                (SnowWorker::M2(a), SnowWorker::M2(b)) => (b@, r) == classic_step(a@, current_time_tick),
                _ => false,
            },
    {
        match self {
            SnowWorker::M1(w) => w.next_id(current_time_tick),
            SnowWorker::M2(w) => w.next_id(current_time_tick),
        }
    }
}

/// Generator of `i64` IDs with validated options.
pub trait IIdGenerator {
    /// The next ID.
    fn new_long(&mut self) -> i64;
}

/// Generator built from validated options, running the worker that the
/// method picks.
#[derive(Debug, Clone)]
pub struct DefaultIdGenerator {
    pub options: IGOptions,
    pub snow_worker: SnowWorker,
}

impl DefaultIdGenerator {
    /// The options passed validation and the worker keeps its invariant.
    pub open spec fn wf(&self) -> bool {
        &&& self.snow_worker.wf()
        &&& self.options.worker_id_bit_length + self.options.seq_bit_length <= 22
    }

    /// A generator for `options`, checked against the system clock: a base
    /// time before 1990 is refused without reading the clock; otherwise the
    /// options are checked against the clock reading.
    pub fn new(options: IGOptions) -> (r: Result<Self, OptionsError>)
        ensures
            options.base_time < MIN_BASE_TIME ==> r == Err::<Self, OptionsError>(OptionsError::BaseTime),
            r matches Ok(g) ==> g.wf() && g.options == options && (exists|now_ms: i64|
                clock_millis(now_ms) && options_error(options, now_ms) is None)
                && g.snow_worker.picks(options.method, options),
            r matches Err(e) ==> e == OptionsError::ClockBeforeEpoch || (options.base_time
                < MIN_BASE_TIME && e == OptionsError::BaseTime) || exists|now_ms: i64|
                clock_millis(now_ms) && options_error(options, now_ms) == Some(e),
    {
        if options.base_time < MIN_BASE_TIME {
            return Err(OptionsError::BaseTime);
        }
        let now_ms = match current_time_millis() {
            Some(ms) => ms,
            None => { return Err(OptionsError::ClockBeforeEpoch); },
        };
        match validate_options(&options, now_ms) {
            Ok(()) => {},
            Err(e) => { return Err(e); },
        }
        proof {
            lemma_valid_options_worker(options, now_ms);
        }
        let snow_worker = SnowWorker::for_options(&options);
        Ok(DefaultIdGenerator { options, snow_worker })
    }

    /// One step of the worker at clock reading `current_time_tick`.
    pub fn new_long(&mut self, current_time_tick: i64) -> (r: WorkerStep)
        requires
            old(self).wf(),
        ensures
            final(self).wf(),
            final(self).options == old(self).options,
            match (old(self).snow_worker, final(self).snow_worker) {
                (SnowWorker::M1(a), SnowWorker::M1(b)) => (b, r) == a.step(current_time_tick),
                (SnowWorker::M2(a), SnowWorker::M2(b)) => (b@, r) == classic_step(a@, current_time_tick),
                _ => false,
            },
    {
        self.snow_worker.next_id(current_time_tick)
    }

    /// The point in time of an ID: its timestamp field plus the base time,
    /// in milliseconds after the Unix epoch; `None` where the platform cannot
    /// represent it.
    pub fn extract_time(&self, id: i64) -> (t: Option<SystemTime>)
        requires
            self.wf(),
            ((id >> (self.options.worker_id_bit_length + self.options.seq_bit_length) as u8) as u64)
                + (self.options.base_time as u64) <= u64::MAX,
        ensures
            t == time_at_millis(
                (((id >> (self.options.worker_id_bit_length + self.options.seq_bit_length) as u8) as u64)
                    + (self.options.base_time as u64)) as u64,
            ),
    {
        let shift: u8 = self.options.worker_id_bit_length + self.options.seq_bit_length;
        let millis: u64 = (id >> shift) as u64 + self.options.base_time as u64;
        system_time_from_millis(millis)
    }
}

} // verus!
