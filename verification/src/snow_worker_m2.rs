//! The classic Snowflake worker: within a millisecond the sequence number goes
//! up; when it is used up the worker waits for the next millisecond; a clock
//! that went back is reported with the ID.
use vstd::prelude::*;
use crate::options::IGOptions;
use crate::snow_worker_m1::{SnowWorkerM1, WorkerStep, in_i64, lemma_tick_part_is_mul};
use vstd::arithmetic::power2::pow2;

verus! {

/// Classic-algorithm worker, built on the fields of the drift worker.
#[derive(Debug, Clone)]
pub struct SnowWorkerM2 {
    base: SnowWorkerM1,
}

impl View for SnowWorkerM2 {
    type V = SnowWorkerM1;

    closed spec fn view(&self) -> SnowWorkerM1 {
        self.base
    }
}

/// One step of the classic worker `w` at clock reading `tick`: in the last
/// tick the next sequence number, or a wait for a later tick once the largest
/// one is used; in any other tick the smallest sequence number, reporting how
/// far the clock lags when it went back.
pub open spec fn classic_step(w: SnowWorkerM1, tick: i64) -> (SnowWorkerM1, WorkerStep) {
    if w.last_time_tick == tick {
        let seq: int = w.current_seq_number + 1;
        if seq > w.max_seq_number {
            (w, WorkerStep::AwaitTickAfter(w.last_time_tick))
        } else if w.id_ok(tick as int, seq) {
            (
                SnowWorkerM1 { current_seq_number: seq as u32, ..w },
                WorkerStep::Issued(w.raw_id(tick as int, seq) as i64),
            )
        } else {
            (w, WorkerStep::OutOfRange)
        }
    } else {
        let seq: int = w.min_seq_number as int;
        let lag: int = w.last_time_tick - tick;
        if w.id_ok(tick as int, seq) && (tick < w.last_time_tick ==> in_i64(lag)) {
            let next = SnowWorkerM1 { current_seq_number: seq as u32, last_time_tick: tick, ..w };
            let id = w.raw_id(tick as int, seq) as i64;
            if tick < w.last_time_tick {
                (next, WorkerStep::IssuedBehindClock { id, behind_ms: lag as i64 })
            } else {
                (next, WorkerStep::Issued(id))
            }
        } else {
            (w, WorkerStep::OutOfRange)
        }
    }
}

impl SnowWorkerM2 {
    /// The counters stay within their types, and the sequence number within
    /// its bounds.
    pub open spec fn wf(&self) -> bool {
        &&& self@.wf()
        &&& self@.current_seq_number <= self@.seq_ceiling()
    }

    /// The worker set up from `options`, as the drift worker is.
    pub fn new(options: &IGOptions) -> (w: Self)
        requires
            (if options.worker_id_bit_length == 0 { 6 } else { options.worker_id_bit_length as int })
                + (if options.seq_bit_length == 0 { 6 } else { options.seq_bit_length as int })
                <= 255,
            options.max_seq_number == 0 ==> options.seq_bit_length < 32,
        ensures
            w@ == SnowWorkerM1::from_options(*options),
            w@.max_seq_number < u32::MAX && w@.min_seq_number < u32::MAX ==> w.wf(),
    {
        SnowWorkerM2 { base: SnowWorkerM1::new(options) }
    }

    /// Milliseconds since the base time on the system clock; `None` when the
    /// clock reads earlier than the Unix epoch.
    pub fn get_current_time_tick(&self) -> (r: Option<i64>)
        ensures
            r matches Some(t) ==> self@.tick_of_reading(t),
    {
        self.base.get_current_time_tick()
    }

    /// One step at clock reading `current_time_tick`.
    pub fn next_id(&mut self, current_time_tick: i64) -> (r: WorkerStep)
        requires
            old(self).wf(),
        ensures
            final(self).wf(),
            (final(self)@, r) == classic_step(old(self)@, current_time_tick),
    {
        let tick = current_time_tick;
        if self.base.last_time_tick == tick {
            if self.base.current_seq_number >= self.base.max_seq_number {
                return WorkerStep::AwaitTickAfter(self.base.last_time_tick);
            }
            let seq = self.base.current_seq_number + 1;
            if !self.base.id_in_range(tick, seq) {
                return WorkerStep::OutOfRange;
            }
            self.base.current_seq_number = seq;
            let id = self.base.id_at(tick);
            return WorkerStep::Issued(id);
        }
        let seq = self.base.min_seq_number;
        let behind = tick < self.base.last_time_tick;
        if !self.base.id_in_range(tick, seq) {
            return WorkerStep::OutOfRange;
        }
        if behind && self.base.last_time_tick as i128 - tick as i128 > i64::MAX as i128 {
            return WorkerStep::OutOfRange;
        }
        let lag: i64 = if behind {
            self.base.last_time_tick - tick
        } else {
            0
        };
        self.base.current_seq_number = seq;
        self.base.last_time_tick = tick;
        let id = self.base.id_at(tick);
        if behind {
            WorkerStep::IssuedBehindClock { id, behind_ms: lag }
        } else {
            WorkerStep::Issued(id)
        }
    }
}

/// The IDs of the classic worker grow: when two steps in a row, at clock
/// readings that do not go back, both hand out an ID, the second ID is
/// larger than the first. Both sequence bounds lie below `2^timestamp_shift`,
/// and the timestamp parts of both ticks fit in `i64`.
pub proof fn lemma_classic_ids_increase(w: SnowWorkerM1, t1: i64, t2: i64)
    requires
        w.wf(),
        w.current_seq_number <= w.seq_ceiling(),
        w.max_seq_number < pow2(w.timestamp_shift as nat),
        w.min_seq_number < pow2(w.timestamp_shift as nat),
        t1 <= t2,
        i64::MIN <= t1 * pow2(w.timestamp_shift as nat),
        t2 * pow2(w.timestamp_shift as nat) <= i64::MAX,
        classic_step(w, t1).1 is Issued,
        classic_step(classic_step(w, t1).0, t2).1 is Issued,
    ensures
        classic_step(w, t1).1->Issued_0 < classic_step(classic_step(w, t1).0, t2).1->Issued_0,
{
    let w1 = classic_step(w, t1).0;
    let p: int = pow2(w.timestamp_shift as nat) as int;
    let s1: int = if w.last_time_tick == t1 { w.current_seq_number + 1 } else { w.min_seq_number as int };
    assert(s1 < p);
    assert(w1.current_seq_number == s1);
    assert(w1.last_time_tick == t1);
    assert(w.id_ok(t1 as int, s1));
    assert(classic_step(w, t1).1->Issued_0 == w.raw_id(t1 as int, s1));
    assert(t1 * p <= i64::MAX && i64::MIN <= t2 * p) by (nonlinear_arith)
        requires
            t1 <= t2,
            p >= 0,
            t2 * p <= i64::MAX,
            i64::MIN <= t1 * p,
    {
    }
    lemma_tick_part_is_mul(w, t1 as int);
    lemma_tick_part_is_mul(w, t2 as int);
    if t2 == t1 {
        let s2: int = s1 + 1;
        assert(classic_step(w1, t2).1->Issued_0 == w1.raw_id(t2 as int, s2));
    } else {
        let s2: int = w.min_seq_number as int;
        assert(classic_step(w1, t2).1->Issued_0 == w1.raw_id(t2 as int, s2));
        assert(t2 * p - t1 * p >= p) by (nonlinear_arith)
            requires
                t1 < t2,
                p >= 0,
        {
        }
    }
}

} // verus!
