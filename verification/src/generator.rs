//! A generator built from validated options, that runs a drift or a classic
//! worker (the same generator as `DefaultIdGenerator`, with the worker kept
//! in the field `worker`).
use vstd::prelude::*;
use std::time::SystemTime;
use crate::default_id_generator::{
    MIN_BASE_TIME,
    OptionsError,
    SnowWorker,
    options_error,
    validate_options,
};
use crate::options::IGOptions;
use crate::snow_worker_m1::WorkerStep;
use crate::snow_worker_m2::classic_step;
use crate::time::{clock_millis, current_time_millis, system_time_from_millis, time_at_millis};

verus! {

/// Generator of `i64` IDs with validated options.
pub trait IIdGenerator {
    /// The next ID.
    fn new_long(&mut self) -> i64;
}

/// Generator built from validated options.
#[derive(Debug, Clone)]
pub struct IdGenerator {
    pub options: IGOptions,
    pub worker: SnowWorker,
}

impl IdGenerator {
    /// The options passed validation and the worker keeps its invariant.
    pub open spec fn wf(&self) -> bool {
        &&& self.worker.wf()
        &&& self.options.worker_id_bit_length + self.options.seq_bit_length <= 22
    }

    /// A generator for `options`, checked against the system clock: a base
    /// time before 1990 is refused without reading the clock; otherwise the
    /// options are checked against the clock reading.
    pub fn new(options: IGOptions) -> (r: Result<Self, OptionsError>)
        ensures
            options.base_time < MIN_BASE_TIME ==> r == Err::<Self, OptionsError>(OptionsError::BaseTime),
            r matches Ok(g) ==> g.wf() && g.options == options && (exists|now_ms: i64|
                clock_millis(now_ms) && options_error(options, now_ms) is None)
                && g.worker.picks(options.method, options),
            r matches Err(e) ==> e == OptionsError::ClockBeforeEpoch || (options.base_time
                < MIN_BASE_TIME && e == OptionsError::BaseTime) || exists|now_ms: i64|
                clock_millis(now_ms) && options_error(options, now_ms) == Some(e),
    {
        if options.base_time < MIN_BASE_TIME {
            return Err(OptionsError::BaseTime);
        }
        let now_ms = match current_time_millis() {
            Some(ms) => ms,
            None => { return Err(OptionsError::ClockBeforeEpoch); },
        };
        match validate_options(&options, now_ms) {
            Ok(()) => {},
            Err(e) => { return Err(e); },
        }
        let worker = SnowWorker::for_options(&options);
        Ok(IdGenerator { options, worker })
    }

    /// One step of the worker at clock reading `current_time_tick`.
    pub fn new_long(&mut self, current_time_tick: i64) -> (r: WorkerStep)
        requires
            old(self).wf(),
        ensures
            final(self).wf(),
            final(self).options == old(self).options,
            match (old(self).worker, final(self).worker) {
                (SnowWorker::M1(a), SnowWorker::M1(b)) => (b, r) == a.step(current_time_tick),
                (SnowWorker::M2(a), SnowWorker::M2(b)) => (b@, r) == classic_step(a@, current_time_tick),
                _ => false,
            },
    {
        self.worker.next_id(current_time_tick)
    }

    /// The point in time of an ID: its timestamp field plus the base time,
    /// in milliseconds after the Unix epoch; `None` where the platform cannot
    /// represent it.
    pub fn extract_time(&self, id: i64) -> (t: Option<SystemTime>)
        requires
            self.wf(),
            ((id >> (self.options.worker_id_bit_length + self.options.seq_bit_length) as u8) as u64)
                + (self.options.base_time as u64) <= u64::MAX,
        ensures
            t == time_at_millis(
                (((id >> (self.options.worker_id_bit_length + self.options.seq_bit_length) as u8) as u64)
                    + (self.options.base_time as u64)) as u64,
            ),
    {
        let shift: u8 = self.options.worker_id_bit_length + self.options.seq_bit_length;
        let millis: u64 = (id >> shift) as u64 + self.options.base_time as u64;
        system_time_from_millis(millis)
    }
}

} // verus!
