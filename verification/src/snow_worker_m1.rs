//! The drift ("over cost") Snowflake worker: when a millisecond's sequence
//! is used up it borrows the next millisecond ahead of the clock, and when the
//! clock goes back it issues IDs on past milliseconds with the reserved
//! sequence numbers 1-4.
//!
//! The worker takes clock readings as arguments: waiting for the clock is left
//! to the caller, which a step asks for with `WorkerStep::AwaitTickAfter`.
use vstd::prelude::*;
use crate::options::IGOptions;
use crate::over_cost_action_arg::OverCostActionArg;
use crate::time::{clock_millis, current_time_millis};
use vstd::arithmetic::power2::pow2;

verus! {

/// Default base time of a worker whose options leave it at 0, in
/// milliseconds since the Unix epoch (2020-02-19 18:20:02 UTC).
pub const WORKER_DEFAULT_BASE_TIME: i64 = 1582136402000;

/// The outcome of one step of a worker.
#[derive(Debug, Clone, Copy, PartialEq, Eq)]
pub enum WorkerStep {
    /// The ID handed out.
    Issued(i64),
    /// The ID handed out on a clock reading `behind_ms` milliseconds behind
    /// the last one.
    IssuedBehindClock { id: i64, behind_ms: i64 },
    /// Nothing handed out and nothing changed: read the clock until it passes
    /// the given tick, then step again with that reading.
    AwaitTickAfter(i64),
    /// Nothing handed out and nothing changed: the ID or a tick would leave
    /// the range of `i64`, or the shifts are too wide for the fields.
    OutOfRange,
}

/// Drift-algorithm worker.
#[derive(Debug, Clone)]
pub struct SnowWorkerM1 {
    pub base_time: i64,
    pub worker_id: u16,
    pub worker_id_bit_length: u8,
    pub seq_bit_length: u8,
    pub max_seq_number: u32,
    pub min_seq_number: u32,
    pub top_over_cost_count: u32,
    pub timestamp_shift: u8,
    pub current_seq_number: u32,
    pub last_time_tick: i64,
    pub turn_back_time_tick: i64,
    pub turn_back_index: u8,
    pub is_over_cost: bool,
    pub over_cost_count_in_one_term: u32,
}

/// `v` lies in the range of `i64`.
pub open spec fn in_i64(v: int) -> bool {
    i64::MIN <= v <= i64::MAX
}

/// The turn-back index after `i`: 1, 2, 3, 4, then 1 again.
pub open spec fn next_turn_back_index(i: u8) -> u8 {
    if i + 1 > 4 {
        1
    } else {
        (i + 1) as u8
    }
}

impl SnowWorkerM1 {
    /// `t` is a clock reading less the base time, with wrap-around.
    pub open spec fn tick_of_reading(self, t: i64) -> bool {
        exists|ms: i64| #[trigger] clock_millis(ms) && t == ms.wrapping_sub(self.base_time)
    }

    /// The larger of the two sequence bounds.
    pub open spec fn seq_ceiling(self) -> u32 {
        if self.max_seq_number >= self.min_seq_number {
            self.max_seq_number
        } else {
            self.min_seq_number
        }
    }

    /// The counters stay within their types.
    pub open spec fn wf(self) -> bool {
        &&& self.max_seq_number < u32::MAX
        &&& self.min_seq_number < u32::MAX
        &&& self.min_seq_number <= self.current_seq_number <= self.seq_ceiling() + 1
        &&& self.turn_back_index <= 4
        &&& self.turn_back_time_tick >= 1 ==> self.turn_back_index >= 1
    }

    /// The timestamp part of an ID: `tick << timestamp_shift` in 64 bits.
    pub open spec fn tick_part(self, tick: int) -> int {
        ((tick as i64) << self.timestamp_shift) as int
    }

    /// The worker part of an ID: the whole worker id shifted above the
    /// sequence field, in 64 bits.
    pub open spec fn worker_part(self) -> int {
        ((self.worker_id as i64) << self.seq_bit_length) as int
    }

    /// The ID value for a tick and a sequence number:
    /// `(tick << timestamp_shift) + ((worker_id as i64) << seq_bit_length) + seq`.
    pub open spec fn raw_id(self, tick: int, seq: int) -> int {
        self.tick_part(tick) + self.worker_part() + seq
    }

    /// The ID for `tick` and `seq` can be computed: the shifts fit in 64
    /// bits and the sums, taken from the left, fit in `i64`.
    pub open spec fn id_ok(self, tick: int, seq: int) -> bool {
        &&& self.timestamp_shift < 64
        &&& self.seq_bit_length < 64
        &&& in_i64(tick)
        &&& in_i64(self.tick_part(tick) + self.worker_part())
        &&& in_i64(self.raw_id(tick, seq))
    }

    /// A step of the normal (no drift) path for clock reading `tick`: the
    /// new worker and the ID, or `None` when the arithmetic leaves `i64`.
    ///
    /// Behind the last tick, IDs go on past ticks, counting down from
    /// `last_time_tick - 1`, with the turn-back index as sequence number;
    /// a later tick starts it with the smallest sequence number; in the last
    /// tick the sequence number goes up, and past the largest one the worker
    /// drifts to the next tick.
    pub open spec fn normal_step(self, tick: i64) -> Option<(SnowWorkerM1, int)> {
        if tick < self.last_time_tick {
            let starts = self.turn_back_time_tick < 1;
            let tb: int = if starts {
                self.last_time_tick - 1
            } else {
                self.turn_back_time_tick as int
            };
            let idx = if starts {
                next_turn_back_index(self.turn_back_index)
            } else {
                self.turn_back_index
            };
            if in_i64(tb - 1) && self.id_ok(tb, idx as int) {
                Some(
                    (
                        SnowWorkerM1 {
                            turn_back_time_tick: (tb - 1) as i64,
                            turn_back_index: idx,
                            ..self
                        },
                        self.raw_id(tb, idx as int),
                    ),
                )
            } else {
                None
            }
        } else {
            let tb: i64 = if self.turn_back_time_tick > 0 {
                0
            } else {
                self.turn_back_time_tick
            };
            if tick > self.last_time_tick {
                if self.id_ok(tick as int, self.min_seq_number as int) {
                    Some(
                        (
                            SnowWorkerM1 {
                                turn_back_time_tick: tb,
                                last_time_tick: tick,
                                current_seq_number: (self.min_seq_number + 1) as u32,
                                ..self
                            },
                            self.raw_id(tick as int, self.min_seq_number as int),
                        ),
                    )
                } else {
                    None
                }
            } else if self.current_seq_number > self.max_seq_number {
                let t: int = self.last_time_tick + 1;
                if self.id_ok(t, self.min_seq_number as int) {
                    Some(
                        (
                            SnowWorkerM1 {
                                turn_back_time_tick: tb,
                                last_time_tick: t as i64,
                                current_seq_number: (self.min_seq_number + 1) as u32,
                                is_over_cost: true,
                                over_cost_count_in_one_term: 1,
                                ..self
                            },
                            self.raw_id(t, self.min_seq_number as int),
                        ),
                    )
                } else {
                    None
                }
            } else {
                if self.id_ok(self.last_time_tick as int, self.current_seq_number as int) {
                    Some(
                        (
                            SnowWorkerM1 {
                                turn_back_time_tick: tb,
                                current_seq_number: (self.current_seq_number + 1) as u32,
                                ..self
                            },
                            self.raw_id(self.last_time_tick as int, self.current_seq_number as int),
                        ),
                    )
                } else {
                    None
                }
            }
        }
    }

    /// A step of the drift path for clock reading `tick`: the new worker and
    /// the step's outcome. A later tick ends the drift; once
    /// `top_over_cost_count` drifts are spent the worker waits for the clock
    /// to pass the last tick; past the largest sequence number it drifts one
    /// tick further; otherwise the sequence number goes up.
    pub open spec fn over_cost_step(self, tick: i64) -> (SnowWorkerM1, WorkerStep) {
        if tick > self.last_time_tick {
            if self.id_ok(tick as int, self.min_seq_number as int) {
                (
                    SnowWorkerM1 {
                        last_time_tick: tick,
                        current_seq_number: (self.min_seq_number + 1) as u32,
                        is_over_cost: false,
                        over_cost_count_in_one_term: 0,
                        ..self
                    },
                    WorkerStep::Issued(self.raw_id(tick as int, self.min_seq_number as int) as i64),
                )
            } else {
                (self, WorkerStep::OutOfRange)
            }
        } else if self.over_cost_count_in_one_term >= self.top_over_cost_count {
            (self, WorkerStep::AwaitTickAfter(self.last_time_tick))
        } else if self.current_seq_number > self.max_seq_number {
            let t: int = self.last_time_tick + 1;
            if self.id_ok(t, self.min_seq_number as int) {
                (
                    SnowWorkerM1 {
                        last_time_tick: t as i64,
                        current_seq_number: (self.min_seq_number + 1) as u32,
                        is_over_cost: true,
                        over_cost_count_in_one_term: (self.over_cost_count_in_one_term + 1) as u32,
                        ..self
                    },
                    WorkerStep::Issued(self.raw_id(t, self.min_seq_number as int) as i64),
                )
            } else {
                (self, WorkerStep::OutOfRange)
            }
        } else if self.id_ok(self.last_time_tick as int, self.current_seq_number as int) {
            (
                SnowWorkerM1 { current_seq_number: (self.current_seq_number + 1) as u32, ..self },
                WorkerStep::Issued(
                    self.raw_id(self.last_time_tick as int, self.current_seq_number as int) as i64,
                ),
            )
        } else {
            (self, WorkerStep::OutOfRange)
        }
    }

    /// The worker set up from `options`: a base time of 0 stands for the
    /// default base time, bit lengths of 0 for 6, a largest sequence number
    /// of 0 for `2^seq_bit_length - 1`; the sequence starts at the smallest
    /// sequence number and every tick and counter at 0.
    pub open spec fn from_options(options: IGOptions) -> SnowWorkerM1 {
        let wid_bits: u8 = if options.worker_id_bit_length == 0 {
            6
        } else {
            options.worker_id_bit_length
        };
        let seq_bits: u8 = if options.seq_bit_length == 0 {
            6
        } else {
            options.seq_bit_length
        };
        SnowWorkerM1 {
            base_time: if options.base_time != 0 {
                options.base_time
            } else {
                WORKER_DEFAULT_BASE_TIME
            },
            worker_id: options.worker_id,
            worker_id_bit_length: wid_bits,
            seq_bit_length: seq_bits,
            max_seq_number: if options.max_seq_number == 0 {
                ((1u32 << seq_bits) - 1) as u32
            } else {
                options.max_seq_number
            },
            min_seq_number: options.min_seq_number,
            top_over_cost_count: options.top_over_cost_count,
            timestamp_shift: (wid_bits + seq_bits) as u8,
            current_seq_number: options.min_seq_number,
            last_time_tick: 0,
            turn_back_time_tick: 0,
            turn_back_index: 0,
            is_over_cost: false,
            over_cost_count_in_one_term: 0,
        }
    }

    /// One step at clock reading `tick`: the drift path while drifting, the
    /// normal path otherwise.
    pub open spec fn step(self, tick: i64) -> (SnowWorkerM1, WorkerStep) {
        if self.is_over_cost {
            self.over_cost_step(tick)
        } else {
            match self.normal_step(tick) {
                Some((w, id)) => (w, WorkerStep::Issued(id as i64)),
                None => (self, WorkerStep::OutOfRange),
            }
        }
    }

    /// The worker set up from `options`.
    pub fn new(options: &IGOptions) -> (w: Self)
        requires
            (if options.worker_id_bit_length == 0 { 6 } else { options.worker_id_bit_length as int })
                + (if options.seq_bit_length == 0 { 6 } else { options.seq_bit_length as int })
                <= 255,
            options.max_seq_number == 0 ==> options.seq_bit_length < 32,
        ensures
            w == Self::from_options(*options),
            w.max_seq_number < u32::MAX && w.min_seq_number < u32::MAX ==> w.wf(),
    {
        let base_time = if options.base_time != 0 {
            options.base_time
        } else {
            WORKER_DEFAULT_BASE_TIME
        };
        let worker_id_bit_length = if options.worker_id_bit_length == 0 {
            6
        } else {
            options.worker_id_bit_length
        };
        let worker_id = options.worker_id;
        let seq_bit_length = if options.seq_bit_length == 0 {
            6
        } else {
            options.seq_bit_length
        };
        let max_seq_number: u32 = if options.max_seq_number == 0 {
            proof {
                lemma_u32_shl_one_positive(seq_bit_length);
            }
            (1u32 << seq_bit_length) - 1
        } else {
            options.max_seq_number
        };
        let min_seq_number = options.min_seq_number;
        let top_over_cost_count = options.top_over_cost_count;
        let timestamp_shift = worker_id_bit_length + seq_bit_length;
        let current_seq_number = min_seq_number;
        SnowWorkerM1 {
            base_time,
            worker_id,
            worker_id_bit_length,
            seq_bit_length,
            max_seq_number,
            min_seq_number,
            top_over_cost_count,
            timestamp_shift,
            current_seq_number,
            last_time_tick: 0,
            turn_back_time_tick: 0,
            turn_back_index: 0,
            is_over_cost: false,
            over_cost_count_in_one_term: 0,
        }
    }

    /// Hook run when an ID is generated in a drift term; does nothing.
    pub fn do_gen_id_action(&self, _arg: &OverCostActionArg) {
    }

    /// Hook run when a drift begins; does nothing.
    pub fn begin_over_cost_action(&self, _use_time_tick: i64) {
    }

    /// Hook run when a drift ends; does nothing.
    pub fn end_over_cost_action(&self, _use_time_tick: i64) {
    }

    /// Hook run when a clock turn-back begins; does nothing.
    pub fn begin_turn_back_action(&self, _use_time_tick: i64) {
    }

    /// Hook run when a clock turn-back ends; does nothing.
    pub fn end_turn_back_action(&self, _use_time_tick: i64) {
    }

    /// Whether the ID for `tick` and `seq` can be computed.
    pub(crate) fn id_in_range(&self, tick: i64, seq: u32) -> (b: bool)
        ensures
            b == self.id_ok(tick as int, seq as int),
    {
        if self.timestamp_shift >= 64 || self.seq_bit_length >= 64 {
            return false;
        }
        let high: i64 = tick << self.timestamp_shift;
        let middle: i64 = (self.worker_id as i64) << self.seq_bit_length;
        let part: i128 = high as i128 + middle as i128;
        let sum: i128 = part + seq as i128;
        i64::MIN as i128 <= part && part <= i64::MAX as i128 && i64::MIN as i128 <= sum && sum
            <= i64::MAX as i128
    }

    /// The ID for `tick` with the current sequence number, which stays as it is.
    pub(crate) fn id_at(&self, tick: i64) -> (id: i64)
        requires
            self.id_ok(tick as int, self.current_seq_number as int),
        ensures
            id == self.raw_id(tick as int, self.current_seq_number as int),
    {
        (tick << self.timestamp_shift) + ((self.worker_id as i64) << self.seq_bit_length)
            + self.current_seq_number as i64
    }

    /// The ID for `use_time_tick` with the current sequence number, which
    /// then goes up by one.
    pub fn calc_id(&mut self, use_time_tick: i64) -> (id: i64)
        requires
            old(self).id_ok(use_time_tick as int, old(self).current_seq_number as int),
            old(self).current_seq_number < u32::MAX,
        ensures
            id == old(self).raw_id(use_time_tick as int, old(self).current_seq_number as int),
            *final(self) == (SnowWorkerM1 {
                current_seq_number: (old(self).current_seq_number + 1) as u32,
                ..*old(self)
            }),
    {
        let result = (use_time_tick << self.timestamp_shift) + ((self.worker_id as i64)
            << self.seq_bit_length) + self.current_seq_number as i64;
        self.current_seq_number = self.current_seq_number + 1;
        result
    }

    /// The ID for `use_time_tick` with the turn-back index as sequence
    /// number; the turn-back tick then goes down by one.
    pub fn calc_turn_back_id(&mut self, use_time_tick: i64) -> (id: i64)
        requires
            old(self).id_ok(use_time_tick as int, old(self).turn_back_index as int),
            old(self).turn_back_time_tick > i64::MIN,
        ensures
            id == old(self).raw_id(use_time_tick as int, old(self).turn_back_index as int),
            *final(self) == (SnowWorkerM1 {
                turn_back_time_tick: (old(self).turn_back_time_tick - 1) as i64,
                ..*old(self)
            }),
    {
        let result = (use_time_tick << self.timestamp_shift) + ((self.worker_id as i64)
            << self.seq_bit_length) + self.turn_back_index as i64;
        self.turn_back_time_tick = self.turn_back_time_tick - 1;
        result
    }

    /// Milliseconds since the base time on the system clock, the difference
    /// taken with wrap-around; `None` when the clock reads earlier than the
    /// Unix epoch.
    pub fn get_current_time_tick(&self) -> (r: Option<i64>)
        ensures
            r matches Some(t) ==> self.tick_of_reading(t),
    {
        match current_time_millis() {
            Some(millis) => Some(millis.wrapping_sub(self.base_time)),
            None => None,
        }
    }

    /// One step of the normal path at clock reading `current_time_tick`.
    pub fn next_normal_id(&mut self, current_time_tick: i64) -> (r: WorkerStep)
        requires
            old(self).wf(),
        ensures
            final(self).wf(),
            match old(self).normal_step(current_time_tick) {
                Some((w, id)) => *final(self) == w && r == WorkerStep::Issued(id as i64),
                None => *final(self) == *old(self) && r == WorkerStep::OutOfRange,
            },
    {
        if current_time_tick < self.last_time_tick {
            let starts = self.turn_back_time_tick < 1;
            let tb: i64 = if starts {
                self.last_time_tick - 1
            } else {
                self.turn_back_time_tick
            };
            let idx: u8 = if starts {
                if self.turn_back_index + 1 > 4 {
                    1
                } else {
                    self.turn_back_index + 1
                }
            } else {
                self.turn_back_index
            };
            if tb == i64::MIN || !self.id_in_range(tb, idx as u32) {
                return WorkerStep::OutOfRange;
            }
            if starts {
                self.turn_back_time_tick = tb;
                self.turn_back_index = idx;
                self.begin_turn_back_action(self.turn_back_time_tick);
            }
            let id = self.calc_turn_back_id(self.turn_back_time_tick);
            return WorkerStep::Issued(id);
        }
        let tb: i64 = if self.turn_back_time_tick > 0 {
            0
        } else {
            self.turn_back_time_tick
        };
        if current_time_tick > self.last_time_tick {
            if !self.id_in_range(current_time_tick, self.min_seq_number) {
                return WorkerStep::OutOfRange;
            }
            if self.turn_back_time_tick > 0 {
                self.end_turn_back_action(self.turn_back_time_tick);
                self.turn_back_time_tick = 0;
            }
            self.last_time_tick = current_time_tick;
            self.current_seq_number = self.min_seq_number;
            let id = self.calc_id(self.last_time_tick);
            return WorkerStep::Issued(id);
        }
        if self.current_seq_number > self.max_seq_number {
            if self.last_time_tick == i64::MAX || !self.id_in_range(
                self.last_time_tick + 1,
                self.min_seq_number,
            ) {
                return WorkerStep::OutOfRange;
            }
            if self.turn_back_time_tick > 0 {
                self.end_turn_back_action(self.turn_back_time_tick);
                self.turn_back_time_tick = 0;
            }
            self.begin_over_cost_action(current_time_tick);
            self.last_time_tick = self.last_time_tick + 1;
            self.current_seq_number = self.min_seq_number;
            self.is_over_cost = true;
            self.over_cost_count_in_one_term = 1;
            let id = self.calc_id(self.last_time_tick);
            return WorkerStep::Issued(id);
        }
        if !self.id_in_range(self.last_time_tick, self.current_seq_number) {
            return WorkerStep::OutOfRange;
        }
        if self.turn_back_time_tick > 0 {
            self.end_turn_back_action(self.turn_back_time_tick);
            self.turn_back_time_tick = 0;
        }
        let id = self.calc_id(self.last_time_tick);
        WorkerStep::Issued(id)
    }

    /// One step of the drift path at clock reading `current_time_tick`.
    pub fn next_over_cost_id(&mut self, current_time_tick: i64) -> (r: WorkerStep)
        requires
            old(self).wf(),
        ensures
            final(self).wf(),
            (*final(self), r) == old(self).over_cost_step(current_time_tick),
    {
        if current_time_tick > self.last_time_tick {
            if !self.id_in_range(current_time_tick, self.min_seq_number) {
                return WorkerStep::OutOfRange;
            }
            self.last_time_tick = current_time_tick;
            self.current_seq_number = self.min_seq_number;
            self.is_over_cost = false;
            self.over_cost_count_in_one_term = 0;
            let id = self.calc_id(self.last_time_tick);
            return WorkerStep::Issued(id);
        }
        if self.over_cost_count_in_one_term >= self.top_over_cost_count {
            return WorkerStep::AwaitTickAfter(self.last_time_tick);
        }
        if self.current_seq_number > self.max_seq_number {
            if self.last_time_tick == i64::MAX || !self.id_in_range(
                self.last_time_tick + 1,
                self.min_seq_number,
            ) {
                return WorkerStep::OutOfRange;
            }
            self.last_time_tick = self.last_time_tick + 1;
            self.current_seq_number = self.min_seq_number;
            self.is_over_cost = true;
            self.over_cost_count_in_one_term = self.over_cost_count_in_one_term + 1;
            let id = self.calc_id(self.last_time_tick);
            return WorkerStep::Issued(id);
        }
        if !self.id_in_range(self.last_time_tick, self.current_seq_number) {
            return WorkerStep::OutOfRange;
        }
        let id = self.calc_id(self.last_time_tick);
        WorkerStep::Issued(id)
    }

    /// One step at clock reading `current_time_tick`: the drift path while
    /// drifting, the normal path otherwise.
    pub fn next_id(&mut self, current_time_tick: i64) -> (r: WorkerStep)
        requires
            old(self).wf(),
        ensures
            final(self).wf(),
            (*final(self), r) == old(self).step(current_time_tick),
    {
        if self.is_over_cost {
            self.next_over_cost_id(current_time_tick)
        } else {
            self.next_normal_id(current_time_tick)
        }
    }
}

/// IDs issued on a clock that went back carry one of the sequence numbers
/// 1-4 kept for that; all other IDs carry a sequence number from
/// `min_seq_number` (5 or more in validated options) up to the larger of the
/// two sequence bounds, so the two kinds never share a sequence number.
pub proof fn lemma_reserved_turn_back_sequences(w: SnowWorkerM1, tick: i64)
    requires
        w.wf(),
        w.step(tick).1 is Issued,
    ensures
        exists|t: int, s: int|
            w.step(tick).1 == WorkerStep::Issued(#[trigger] w.raw_id(t, s) as i64) && (if !w.is_over_cost
                && tick < w.last_time_tick {
                1 <= s <= 4
            } else {
                w.min_seq_number <= s <= w.seq_ceiling()
            }),
{
    if w.is_over_cost {
        if tick > w.last_time_tick {
            assert(w.step(tick).1 == WorkerStep::Issued(w.raw_id(tick as int, w.min_seq_number as int) as i64));
        } else if w.current_seq_number > w.max_seq_number {
            assert(w.step(tick).1 == WorkerStep::Issued(w.raw_id(w.last_time_tick + 1, w.min_seq_number as int) as i64));
        } else {
            assert(w.step(tick).1 == WorkerStep::Issued(w.raw_id(w.last_time_tick as int, w.current_seq_number as int) as i64));
        }
    } else if tick < w.last_time_tick {
        let starts = w.turn_back_time_tick < 1;
        let tb: int = if starts { w.last_time_tick - 1 } else { w.turn_back_time_tick as int };
        let idx = if starts { next_turn_back_index(w.turn_back_index) } else { w.turn_back_index };
        assert(w.step(tick).1 == WorkerStep::Issued(w.raw_id(tb, idx as int) as i64));
    } else if tick > w.last_time_tick {
        assert(w.step(tick).1 == WorkerStep::Issued(w.raw_id(tick as int, w.min_seq_number as int) as i64));
    } else if w.current_seq_number > w.max_seq_number {
        assert(w.step(tick).1 == WorkerStep::Issued(w.raw_id(w.last_time_tick + 1, w.min_seq_number as int) as i64));
    } else {
        assert(w.step(tick).1 == WorkerStep::Issued(w.raw_id(w.last_time_tick as int, w.current_seq_number as int) as i64));
    }
}

/// The drifts of one term stay within `top_over_cost_count`: a step leaves
/// the drift count no larger than the larger of `top_over_cost_count` and 1
/// when it was so before (the first drift of a term always happens; later
/// ones only while the count is below `top_over_cost_count`).
pub proof fn lemma_drift_count_bounded(w: SnowWorkerM1, tick: i64)
    requires
        w.over_cost_count_in_one_term <= (if w.top_over_cost_count >= 1 {
            w.top_over_cost_count
        } else {
            1
        }),
    ensures
        w.step(tick).0.over_cost_count_in_one_term <= (if w.top_over_cost_count >= 1 {
            w.top_over_cost_count
        } else {
            1
        }),
        w.step(tick).0.top_over_cost_count == w.top_over_cost_count,
{
}

/// The last ID the worker handed out on its own tick or ahead of the clock:
/// the ID of the last tick and the sequence number before the current one.
pub open spec fn last_forward_id(w: SnowWorkerM1) -> int {
    w.raw_id(w.last_time_tick as int, w.current_seq_number - 1)
}

/// The drift worker's step hands out, for a clock that is not behind its
/// last tick or while it drifts, an ID above the last such ID, and the new
/// worker records it as its last such ID.
proof fn lemma_forward_step(w: SnowWorkerM1, t: i64)
    requires
        w.wf(),
        w.max_seq_number < pow2(w.timestamp_shift as nat),
        w.min_seq_number < pow2(w.timestamp_shift as nat),
        i64::MIN <= w.last_time_tick * pow2(w.timestamp_shift as nat),
        w.is_over_cost || w.last_time_tick <= t,
        t * pow2(w.timestamp_shift as nat) <= i64::MAX,
        (w.last_time_tick + 1) * pow2(w.timestamp_shift as nat) <= i64::MAX,
        w.step(t).1 is Issued,
    ensures
        ({
            let (w2, r) = w.step(t);
            &&& w2.wf()
            &&& r->Issued_0 == last_forward_id(w2)
            &&& last_forward_id(w) < r->Issued_0
            &&& w2.is_over_cost || w2.last_time_tick <= t
            &&& w2.last_time_tick == t || w2.last_time_tick == w.last_time_tick
                || w2.last_time_tick == w.last_time_tick + 1
            &&& w2.last_time_tick >= w.last_time_tick
            &&& w2.current_seq_number >= 1
            &&& w2.is_over_cost || w2.last_time_tick >= t
            &&& w2.last_time_tick >= t || w.last_time_tick > t
            &&& w2.worker_id == w.worker_id && w2.seq_bit_length == w.seq_bit_length
            &&& w2.timestamp_shift == w.timestamp_shift && w2.max_seq_number == w.max_seq_number
            &&& w2.min_seq_number == w.min_seq_number
        }),
{
    let p: int = pow2(w.timestamp_shift as nat) as int;
    let last: int = w.last_time_tick as int;
    vstd::arithmetic::power2::lemma_pow2_pos(w.timestamp_shift as nat);
    assert((last + 1) * p == last * p + p) by (nonlinear_arith);
    lemma_tick_part_is_mul(w, last);
    lemma_tick_part_is_mul(w, last + 1);
    if t > last {
        assert(t * p - last * p >= p) by (nonlinear_arith)
            requires
                last < t,
                p >= 0,
        {
        }
        lemma_tick_part_is_mul(w, t as int);
    }
}

/// The IDs of the drift worker grow: when two steps in a row, at clock
/// readings that do not go back, the first of them not behind the worker's
/// last tick unless it drifts, both hand out an ID, the second ID is larger
/// than the first. Both sequence bounds lie below `2^timestamp_shift`, and
/// the timestamp parts of the ticks reached fit in `i64`.
pub proof fn lemma_drift_ids_increase(w: SnowWorkerM1, t1: i64, t2: i64)
    requires
        w.wf(),
        w.max_seq_number < pow2(w.timestamp_shift as nat),
        w.min_seq_number < pow2(w.timestamp_shift as nat),
        i64::MIN <= w.last_time_tick * pow2(w.timestamp_shift as nat),
        t1 <= t2,
        w.is_over_cost || w.last_time_tick <= t1,
        (t2 + 1) * pow2(w.timestamp_shift as nat) <= i64::MAX,
        (w.last_time_tick + 2) * pow2(w.timestamp_shift as nat) <= i64::MAX,
        w.step(t1).1 is Issued,
        w.step(t1).0.step(t2).1 is Issued,
    ensures
        w.step(t1).1->Issued_0 < w.step(t1).0.step(t2).1->Issued_0,
{
    let p: int = pow2(w.timestamp_shift as nat) as int;
    let last: int = w.last_time_tick as int;
    vstd::arithmetic::power2::lemma_pow2_pos(w.timestamp_shift as nat);
    assert(t1 * p <= i64::MAX && t2 * p <= i64::MAX && (last + 1) * p <= i64::MAX) by (nonlinear_arith)
        requires
            t1 <= t2,
            p >= 1,
            (t2 + 1) * p <= i64::MAX,
            (last + 2) * p <= i64::MAX,
    {
    }
    lemma_forward_step(w, t1);
    let w1 = w.step(t1).0;
    assert(i64::MIN <= w1.last_time_tick * p) by (nonlinear_arith)
        requires
            w1.last_time_tick >= last,
            i64::MIN <= last * p,
            p >= 1,
    {
    }
    assert((w1.last_time_tick + 1) * p <= i64::MAX) by (nonlinear_arith)
        requires
            w1.last_time_tick == t1 || w1.last_time_tick == last || w1.last_time_tick == last + 1,
            (t2 + 1) * p <= i64::MAX,
            (last + 2) * p <= i64::MAX,
            t1 <= t2,
            p >= 1,
    {
    }
    lemma_forward_step(w1, t2);
}

/// The time an ID of the drift worker carries is never behind the clock:
/// for a step at a clock reading not behind the worker's last tick (or while
/// it drifts), the timestamp field of the ID handed out is the worker's new
/// last tick, which is the reading or, while it drifts, a tick ahead of it.
/// The fields fit as validated options make them fit, the last tick is not
/// negative and the ticks reached fit in `i64`.
pub proof fn lemma_issued_id_carries_tick(w: SnowWorkerM1, t: i64)
    requires
        w.wf(),
        w.timestamp_shift == w.worker_id_bit_length + w.seq_bit_length,
        w.timestamp_shift < 64,
        w.worker_id < pow2(w.worker_id_bit_length as nat),
        w.max_seq_number < pow2(w.seq_bit_length as nat),
        w.min_seq_number < pow2(w.seq_bit_length as nat),
        0 <= w.last_time_tick,
        w.is_over_cost || w.last_time_tick <= t,
        (t + 1) * pow2(w.timestamp_shift as nat) <= i64::MAX,
        (w.last_time_tick + 2) * pow2(w.timestamp_shift as nat) <= i64::MAX,
        w.step(t).1 is Issued,
    ensures
        (w.step(t).1->Issued_0 >> w.timestamp_shift) == w.step(t).0.last_time_tick,
        w.step(t).0.last_time_tick >= t || w.step(t).0.is_over_cost,
{
    let p: int = pow2(w.timestamp_shift as nat) as int;
    let q: int = pow2(w.seq_bit_length as nat) as int;
    let last: int = w.last_time_tick as int;
    vstd::arithmetic::power2::lemma_pow2_adds(w.worker_id_bit_length as nat, w.seq_bit_length as nat);
    vstd::arithmetic::power2::lemma_pow2_pos(w.worker_id_bit_length as nat);
    vstd::arithmetic::power2::lemma_pow2_pos(w.seq_bit_length as nat);
    assert(q <= p && 0 <= last * p && t * p <= i64::MAX && (last + 1) * p <= i64::MAX)
        by (nonlinear_arith)
        requires
            p == pow2(w.worker_id_bit_length as nat) * q,
            pow2(w.worker_id_bit_length as nat) >= 1,
            q >= 1,
            0 <= last,
            (t + 1) * p <= i64::MAX,
            (last + 2) * p <= i64::MAX,
    {
    }
    lemma_forward_step(w, t);
    let w2 = w.step(t).0;
    let t2: int = w2.last_time_tick as int;
    assert((t2 + 1) * p <= i64::MAX) by (nonlinear_arith)
        requires
            t2 == t || t2 == last || t2 == last + 1,
            (t + 1) * p <= i64::MAX,
            (last + 2) * p <= i64::MAX,
            p >= 1,
    {
    }
    lemma_id_tick_round_trip(w2, t2, w2.current_seq_number - 1);
}

/// The timestamp field of a worker's ID gives the tick back: shifting the
/// ID for tick `t` and sequence number `s` right by `timestamp_shift` bits
/// gives `t`, when the worker id fits in its field, `s` in the sequence
/// field, the tick is not negative and the ID fits in `i64`.
pub proof fn lemma_id_tick_round_trip(w: SnowWorkerM1, t: int, s: int)
    requires
        w.timestamp_shift == w.worker_id_bit_length + w.seq_bit_length,
        w.timestamp_shift < 64,
        w.worker_id < pow2(w.worker_id_bit_length as nat),
        0 <= s < pow2(w.seq_bit_length as nat),
        0 <= t,
        (t + 1) * pow2(w.timestamp_shift as nat) <= i64::MAX,
    ensures
        ((w.raw_id(t, s) as i64) >> w.timestamp_shift) as int == t,
        0 <= w.raw_id(t, s) <= i64::MAX,
{
    let sh = w.timestamp_shift;
    let p: int = pow2(sh as nat) as int;
    let q: int = pow2(w.seq_bit_length as nat) as int;
    let k: int = pow2(w.worker_id_bit_length as nat) as int;
    let wid: int = w.worker_id as int;
    vstd::arithmetic::power2::lemma_pow2_adds(w.worker_id_bit_length as nat, w.seq_bit_length as nat);
    vstd::arithmetic::power2::lemma_pow2_pos(w.seq_bit_length as nat);
    vstd::arithmetic::power2::lemma_pow2_pos(w.worker_id_bit_length as nat);
    assert(p == k * q);
    assert(0 <= wid * q + s < p && t * p + p <= i64::MAX && 0 <= t * p && wid * q <= p)
        by (nonlinear_arith)
        requires
            0 <= wid < k,
            0 <= s < q,
            p == k * q,
            0 <= t,
            (t + 1) * p <= i64::MAX,
            q >= 1,
    {
    }
    lemma_i64_shl_is_mul(t, sh);
    lemma_i64_shl_is_mul(wid, w.seq_bit_length);
    let raw: int = w.raw_id(t, s);
    assert(raw == t * p + (wid * q + s));
    let y: i64 = raw as i64;
    let yu: u64 = y as u64;
    assert((y >> sh) as u64 == yu >> (sh as u64)) by (bit_vector)
        requires
            y >= 0,
            yu == y as u64,
            sh < 64,
    ;
    vstd::bits::lemma_u64_shr_is_div(yu, sh as u64);
    assert((t * p + (wid * q + s)) / p == t) by (nonlinear_arith)
        requires
            0 <= wid * q + s < p,
            p > 0,
    {
    }
}

/// The timestamp part of a tick whose product with `2^timestamp_shift`
/// stays within `i64` is that product.
pub(crate) proof fn lemma_tick_part_is_mul(w: SnowWorkerM1, t: int)
    requires
        w.timestamp_shift < 64,
        i64::MIN <= t * pow2(w.timestamp_shift as nat) <= i64::MAX,
    ensures
        w.tick_part(t) == t * pow2(w.timestamp_shift as nat),
{
    lemma_i64_shl_is_mul(t, w.timestamp_shift);
}

/// Shifting an `i64` left by `sh` bits multiplies it by `2^sh` where the
/// product stays within `i64`.
proof fn lemma_i64_shl_is_mul(t: int, sh: u8)
    requires
        sh < 64,
        i64::MIN <= t * pow2(sh as nat) <= i64::MAX,
    ensures
        ((t as i64) << sh) as int == t * pow2(sh as nat),
{
    let ti: i64 = t as i64;
    let p: int = pow2(sh as nat) as int;
    vstd::arithmetic::power2::lemma_pow2_pos(sh as nat);
    if t >= 0 {
        assert(t <= t * p) by (nonlinear_arith)
            requires
                0 <= t,
                p >= 1,
        {
        }
        let x: u64 = t as u64;
        vstd::bits::lemma_u64_shl_is_mul(x, sh as u64);
        assert((ti << sh) as u64 == (x << (sh as u64))) by (bit_vector)
            requires
                ti >= 0,
                x == ti as u64,
                sh < 64,
        ;
        let y: i64 = ti << sh;
        assert(y as u64 <= 0x7fff_ffff_ffff_ffffu64 ==> y >= 0) by (bit_vector);
    } else {
        let v: int = -t;
        assert(v <= v * p && v * p <= 0x8000_0000_0000_0000) by (nonlinear_arith)
            requires
                v > 0,
                p >= 1,
                i64::MIN <= t * p,
                v == -t,
        {
        }
        let vu: u64 = v as u64;
        vstd::bits::lemma_u64_shl_is_mul(vu, sh as u64);
        let m: u64 = vu << (sh as u64);
        vstd::bits::lemma_u64_shr_is_div(m, sh as u64);
        assert((v * p) / p == v) by (nonlinear_arith)
            requires
                p > 0,
        {
        }
        assert(t * p == -(v * p)) by (nonlinear_arith)
            requires
                v == -t,
        {
        }
        assert((ti << sh) as int == -(m as int)) by (bit_vector)
            requires
                ti < 0,
                (vu as int) + (ti as int) == 0,
                sh < 64,
                m == vu << (sh as u64),
                (m as int) <= 0x8000_0000_0000_0000,
                m >> (sh as u64) == vu,
        ;
    }
}

proof fn lemma_u32_shl_one_positive(bits: u8)
    by (bit_vector)
    requires
        bits < 32,
    ensures
        (1u32 << bits) >= 1,
{
}

} // verus!
