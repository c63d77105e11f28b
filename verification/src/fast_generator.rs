//! A lock-free Snowflake generator: the state `(last_timestamp << seq_bits) |
//! sequence` lives in one atomic word and is advanced by compare-and-swap.
use vstd::prelude::*;
use std::sync::atomic::AtomicU64;
use std::sync::atomic::Ordering;
use crate::layout::{IdLayout, Decision};
use crate::options::IGOptions;
use crate::id_helper::IdInfo;
use crate::time::{clock_millis, current_time_millis, spin_loop_hint, system_time_from_millis, time_at_millis};

verus! {

/// Why a generator handed out no ID.
#[derive(Debug, Clone, Copy, PartialEq, Eq)]
pub enum IdError {
    /// No generator has been set up.
    NotInitialized,
    /// The system clock reads earlier than the Unix epoch.
    ClockBeforeEpoch,
    /// The generator retried `u64::MAX` times without a chance to hand out an ID.
    Stalled,
}

/// Counters of a generator.
#[derive(Debug, Clone)]
pub struct IdGeneratorMetrics {
    /// IDs generated.
    pub total_generated: u64,
    /// Clock rollbacks seen.
    pub clock_backwards_count: u64,
    /// Compare-and-swap conflicts.
    pub cas_conflict_count: u64,
}

/// High-performance Snowflake ID generator. The atomic state keeps
/// `(last_timestamp << seq_bits) | sequence`; IDs keep their full layout so
/// that they can be taken apart again.
#[derive(Debug)]
pub struct FastIdGenerator {
    base_time: i64,
    worker_id: u64,
    timestamp_shift: u64,
    seq_bits: u64,
    seq_mask: u64,
    max_seq: u64,
    state: AtomicU64,
    total_generated: AtomicU64,
    clock_backwards_count: AtomicU64,
    cas_conflict_count: AtomicU64,
    options: IGOptions,
}

impl View for FastIdGenerator {
    type V = IdLayout;

    closed spec fn view(&self) -> IdLayout {
        IdLayout {
            base_time: self.base_time,
            worker_id: self.worker_id,
            seq_bits: self.seq_bits,
            timestamp_shift: self.timestamp_shift,
            max_seq: self.max_seq,
        }
    }
}

/// `2^seq_bit_length - 1`: the mask of a sequence field of `seq_bit_length` bits.
pub open spec fn seq_field_mask(seq_bit_length: u8) -> u64 {
    ((1u64 << seq_bit_length as u64) - 1) as u64
}

/// The worker id and sequence fields of `options` fit in 64 bits.
pub open spec fn layout_options(options: IGOptions) -> bool {
    options.worker_id_bit_length + options.seq_bit_length < 64
}

/// The layout of the IDs of a generator built from `options`.
pub open spec fn layout_of(options: IGOptions) -> IdLayout {
    IdLayout {
        base_time: options.base_time,
        worker_id: options.worker_id as u64,
        seq_bits: options.seq_bit_length as u64,
        timestamp_shift: (options.worker_id_bit_length + options.seq_bit_length) as u64,
        max_seq: effective_max_seq(options),
    }
}

/// The largest sequence number of `options`: `max_seq_number`, where 0, or
/// a number the sequence field cannot hold, stands for the largest the field
/// holds.
pub open spec fn effective_max_seq(options: IGOptions) -> u64 {
    let mask = seq_field_mask(options.seq_bit_length);
    if options.max_seq_number == 0 || options.max_seq_number as u64 > mask {
        mask
    } else {
        options.max_seq_number as u64
    }
}

impl FastIdGenerator {
    /// The layout is valid and the mask agrees with it.
    pub closed spec fn wf(&self) -> bool {
        &&& self@.valid()
        &&& self.seq_mask == self@.seq_mask()
    }

    /// The options the generator was built from.
    pub closed spec fn built_from(&self) -> IGOptions {
        self.options
    }

    /// `now` is a reading of the system clock in milliseconds since the base
    /// time, the difference taken with wrap-around and read as unsigned.
    pub open spec fn clock_tick(&self, now: u64) -> bool {
        exists|ms: i64| #[trigger] clock_millis(ms) && now == ms.wrapping_sub(self@.base_time) as u64
    }

    /// `id` is what the decision hands out for some state and a reading of
    /// the system clock.
    pub open spec fn claimed_on_clock(&self, id: u64) -> bool {
        exists|state: u64, now: u64|
            self.clock_tick(now) && #[trigger] self@.decision(state, now) is Claim
                && self@.decision(state, now)->id == id
    }

    /// A generator with the layout of `options`: `seq_bit_length` bits of
    /// sequence under `worker_id_bit_length` bits of worker id, each
    /// millisecond's sequence running from 0 up to the largest sequence
    /// number of `options`; a largest number the field cannot hold stands
    /// for the field's mask. `min_seq_number` is kept with the options and
    /// not used by this generator.
    pub fn new(options: &IGOptions) -> (g: Self)
        requires
            layout_options(*options),
        ensures
            g.wf(),
            g@ == layout_of(*options),
            g.built_from() == *options,
    {
        let seq_bits: u64 = options.seq_bit_length as u64;
        let wid_bits: u64 = options.worker_id_bit_length as u64;
        let mask: u64 = low_mask(seq_bits);
        let max_seq: u64 = if options.max_seq_number == 0 || options.max_seq_number as u64 > mask {
            mask
        } else {
            options.max_seq_number as u64
        };
        FastIdGenerator {
            base_time: options.base_time,
            worker_id: options.worker_id as u64,
            timestamp_shift: wid_bits + seq_bits,
            seq_bits,
            seq_mask: mask,
            max_seq,
            state: AtomicU64::new(0),
            total_generated: AtomicU64::new(0),
            clock_backwards_count: AtomicU64::new(0),
            cas_conflict_count: AtomicU64::new(0),
            options: copy_options(options),
        }
    }

    /// The options the generator was built from.
    pub fn options(&self) -> (o: IGOptions)
        ensures
            o == self.built_from(),
    {
        copy_options(&self.options)
    }

    /// Milliseconds since the base time on the system clock, the difference
    /// taken with wrap-around and read as unsigned; `None` when the clock
    /// reads earlier than the epoch.
    fn clock_ticks(&self) -> (r: Option<u64>)
        ensures
            r matches Some(t) ==> self.clock_tick(t),
    {
        match current_time_millis() {
            Some(ms) => Some(ms.wrapping_sub(self.base_time) as u64),
            None => None,
        }
    }

    /// The decision for a state read from the atomic word and a clock
    /// reading `now` (milliseconds since the base time).
    pub fn decide(&self, state: u64, now: u64) -> (d: Decision)
        requires
            self.wf(),
        ensures
            d == self@.decision(state, now),
    {
        let last_timestamp = state >> self.seq_bits;
        let last_seq = state & self.seq_mask;
        if now == last_timestamp {
            if last_seq < self.max_seq {
                let new_seq = last_seq + 1;
                let new_state = (now << self.seq_bits) | new_seq;
                let id = (now << self.timestamp_shift) | (self.worker_id << self.seq_bits) | new_seq;
                Decision::Claim { state: new_state, id }
            } else {
                Decision::SequenceExhausted
            }
        } else if now > last_timestamp {
            let new_state = now << self.seq_bits;
            let id = (now << self.timestamp_shift) | (self.worker_id << self.seq_bits);
            proof {
                let hi = (now << self.timestamp_shift) | (self.worker_id << self.seq_bits);
                assert(new_state | 0 == new_state && hi | 0 == hi) by (bit_vector);
            }
            Decision::Claim { state: new_state, id }
        } else {
            let drift = last_timestamp - now;
            if drift > crate::layout::MAX_TOLERATED_DRIFT {
                Decision::ClockRollback { drift }
            } else {
                Decision::ClockBehind
            }
        }
    }

    /// Generates the next ID without locks.
    ///
    /// Reads the state, decides, and tries to store the decided state by
    /// compare-and-swap; a failed swap is retried. In the state's millisecond
    /// the sequence number goes up by one up to `max_seq`; in a later
    /// millisecond it is reset to 0; when the sequence is used up, the clock
    /// is read again until a later millisecond; a clock behind the state's
    /// millisecond, by jitter or set back, is waited out by reading it again
    /// until it catches up (a busy wait: the library does not sleep).
    /// Every ID handed out has the generator's layout (a timestamp, the
    /// generator's worker id, and a sequence number within `max_seq`) and is
    /// the decision's ID for a state read and a reading of the system clock.
    pub fn next_id(&self) -> (r: Result<u64, IdError>)
        requires
            self.wf(),
        ensures
            r matches Ok(id) ==> self@.has_layout(id) && self.claimed_on_clock(id),
            r matches Err(e) ==> e == IdError::ClockBeforeEpoch || e == IdError::Stalled,
    {
        let mut now = match self.clock_ticks() {
            Some(t) => t,
            None => { return Err(IdError::ClockBeforeEpoch); },
        };
        let mut attempts: u64 = 0;
        let mut rollback_counted = false;
        while attempts < u64::MAX
            invariant
                self.wf(),
                self.clock_tick(now),
            decreases u64::MAX - attempts,
        {
            attempts = attempts + 1;
            let state = self.state.load(Ordering::Acquire);
            match self.decide(state, now) {
                Decision::Claim { state: new_state, id } => {
                    proof {
                        claim_has_layout(self@, state, now);
                    }
                    let swapped = self.state.compare_exchange_weak(
                        state,
                        new_state,
                        Ordering::AcqRel,
                        Ordering::Relaxed,
                    );
                    if swapped.is_ok() {
                        self.total_generated.fetch_add(1, Ordering::Relaxed);
                        assert(self@.decision(state, now) == (Decision::Claim { state: new_state, id }));
                        assert(self.clock_tick(now) && self@.decision(state, now) is Claim
                            && self@.decision(state, now)->id == id);
                        return Ok(id);
                    }
                    self.cas_conflict_count.fetch_add(1, Ordering::Relaxed);
                },
                Decision::ClockBehind | Decision::ClockRollback { .. } => {
                    if !rollback_counted {
                        self.clock_backwards_count.fetch_add(1, Ordering::Relaxed);
                        rollback_counted = true;
                    }
                    spin_loop_hint();
                    now = match self.clock_ticks() {
                        Some(t) => t,
                        None => { return Err(IdError::ClockBeforeEpoch); },
                    };
                },
                Decision::SequenceExhausted => {
                    spin_loop_hint();
                    now = match self.clock_ticks() {
                        Some(t) => t,
                        None => { return Err(IdError::ClockBeforeEpoch); },
                    };
                },
            }
        }
        Err(IdError::Stalled)
    }

    /// Generates `count` IDs, one after another.
    pub fn next_ids_batch(&self, count: usize) -> (r: Result<Vec<u64>, IdError>)
        requires
            self.wf(),
        ensures
            r matches Ok(ids) ==> ids.len() == count && forall|i: int|
                0 <= i < ids.len() ==> self@.has_layout(#[trigger] ids[i]) && self.claimed_on_clock(ids[i]),
            count == 0 ==> (r matches Ok(ids) && ids.len() == 0),
            r matches Err(e) ==> e == IdError::ClockBeforeEpoch || e == IdError::Stalled,
    {
        let mut ids: Vec<u64> = Vec::with_capacity(count);
        let mut k: usize = 0;
        while k < count
            invariant
                self.wf(),
                k <= count,
                ids.len() == k,
                forall|i: int|
                    0 <= i < ids.len() ==> self@.has_layout(#[trigger] ids[i]) && self.claimed_on_clock(ids[i]),
            decreases count - k,
        {
            let id = self.next_id()?;
            ids.push(id);
            k = k + 1;
        }
        Ok(ids)
    }

    /// The counters of the generator.
    ///
    /// The counters live in atomic words, whose values are opaque here, so
    /// nothing is stated of them.
    pub fn metrics(&self) -> (m: IdGeneratorMetrics)
        requires
            self.wf(),
    {
        IdGeneratorMetrics {
            total_generated: self.total_generated.load(Ordering::Relaxed),
            clock_backwards_count: self.clock_backwards_count.load(Ordering::Relaxed),
            cas_conflict_count: self.cas_conflict_count.load(Ordering::Relaxed),
        }
    }

    /// Whether the timestamp of `id` plus the base time fits in an `i64`,
    /// which `extract_timestamp` needs.
    pub fn timestamp_in_range(&self, id: u64) -> (b: bool)
        requires
            self.wf(),
        ensures
            b == (i64::MIN <= (self@.id_timestamp(id) as i64) + self@.base_time <= i64::MAX),
    {
        let ts = (id >> self.timestamp_shift) as i64;
        ts.checked_add(self.base_time).is_some()
    }

    /// The timestamp of an ID, in milliseconds since the Unix epoch.
    pub fn extract_timestamp(&self, id: u64) -> (t: i64)
        requires
            self.wf(),
            i64::MIN <= (self@.id_timestamp(id) as i64) + self@.base_time <= i64::MAX,
        ensures
            t == (self@.id_timestamp(id) as i64) + self@.base_time,
    {
        let ts = id >> self.timestamp_shift;
        (ts as i64) + self.base_time
    }

    /// The worker id of an ID.
    pub fn extract_worker_id(&self, id: u64) -> (w: u16)
        requires
            self.wf(),
        ensures
            w == self@.id_worker(id) as u16,
    {
        let wid_bits = self.timestamp_shift - self.seq_bits;
        let mask = low_mask(wid_bits);
        ((id >> self.seq_bits) & mask) as u16
    }

    /// The generator's worker id.
    pub fn worker_id(&self) -> (w: u16)
        requires
            self.wf(),
        ensures
            w == self@.worker_id,
    {
        self.worker_id as u16
    }

    /// The sequence number of an ID.
    pub fn extract_sequence(&self, id: u64) -> (s: u32)
        requires
            self.wf(),
        ensures
            s == self@.id_sequence(id) as u32,
    {
        (id & self.seq_mask) as u32
    }

    /// All the fields of an ID.
    pub fn extract_id_info(&self, id: u64) -> (info: IdInfo)
        requires
            self.wf(),
            i64::MIN <= (self@.id_timestamp(id) as i64) + self@.base_time <= i64::MAX,
        ensures
            info.timestamp == (self@.id_timestamp(id) as i64) + self@.base_time,
            info.worker_id == self@.id_worker(id) as u16,
            info.sequence == self@.id_sequence(id) as u32,
            info.system_time == time_at_millis(info.timestamp as u64),
    {
        let timestamp = self.extract_timestamp(id);
        let millis: u64 = timestamp as u64;
        IdInfo {
            timestamp,
            worker_id: self.extract_worker_id(id),
            sequence: self.extract_sequence(id),
            system_time: system_time_from_millis(millis),
        }
    }
}

/// `2^bits - 1`, for `bits < 64`.
fn low_mask(bits: u64) -> (m: u64)
    requires
        bits < 64,
    ensures
        m == ((1u64 << bits) - 1) as u64,
{
    proof {
        lemma_shl_one_positive(bits);
    }
    (1u64 << bits) - 1
}

proof fn lemma_shl_one_positive(bits: u64)
    by (bit_vector)
    requires
        bits < 64,
    ensures
        (1u64 << bits) >= 1,
{
}

/// The ID of a claim has the layout: a timestamp, the worker id and a
/// sequence number within the mask.
proof fn claim_has_layout(l: IdLayout, state: u64, now: u64)
    requires
        l.valid(),
    ensures
        l.decision(state, now) matches Decision::Claim { state: s, id } ==> l.has_layout(id),
{
    let seq = l.state_sequence(state);
    if now == l.state_timestamp(state) && seq < l.max_seq {
        assert(l.has_layout(l.id_of(now, (seq + 1) as u64)));
    } else if now > l.state_timestamp(state) {
        assert(l.has_layout(l.id_of(now, 0)));
    }
}

/// A copy of `o`, field by field.
fn copy_options(o: &IGOptions) -> (r: IGOptions)
    ensures
        r == *o,
{
    IGOptions {
        method: o.method,
        base_time: o.base_time,
        worker_id: o.worker_id,
        worker_id_bit_length: o.worker_id_bit_length,
        seq_bit_length: o.seq_bit_length,
        max_seq_number: o.max_seq_number,
        min_seq_number: o.min_seq_number,
        top_over_cost_count: o.top_over_cost_count,
    }
}

} // verus!
