//! Generator options, their builder, and sizing of the bit fields from
//! cluster size and throughput.
use vstd::prelude::*;
use vstd::arithmetic::power2::{pow2, lemma_pow2_unfold, lemma_pow2_pos};
use vstd::std_specs::bits::axiom_u32_leading_zeros;

verus! {

/// Default base time: 2020-02-20 02:00:02 UTC, in milliseconds since the Unix epoch.
pub const DEFAULT_BASE_TIME: i64 = 1582164002000;

/// Options of an ID generator.
#[derive(Debug, Clone)]
pub struct IGOptions {
    /// Generation method (1: drift algorithm, 2: classic algorithm); 1 by default.
    pub method: u16,
    /// Base time in milliseconds since the Unix epoch; must not lie in the future.
    pub base_time: i64,
    /// Worker id; at most `2^worker_id_bit_length - 1`.
    pub worker_id: u16,
    /// Bits of the worker id; 6 by default, range [1, 15].
    pub worker_id_bit_length: u8,
    /// Bits of the sequence number; 6 by default, range [3, 21].
    pub seq_bit_length: u8,
    /// Largest sequence number (inclusive); 0 means `2^seq_bit_length - 1`.
    pub max_seq_number: u32,
    /// Smallest sequence number (inclusive); 5 by default. Numbers 1-4 are kept
    /// for clock turn-back and 0 for manual values.
    pub min_seq_number: u32,
    /// Largest number of drifts (inclusive); 2000 by default.
    pub top_over_cost_count: u32,
}

/// Number of binary digits of `n` (0 for 0): the `b` with `2^(b-1) <= n < 2^b`.
pub open spec fn bit_length(n: nat) -> nat
    decreases n,
{
    if n == 0 {
        0
    } else {
        1 + bit_length(n / 2)
    }
}

/// Bits of the worker id for a cluster of `max_nodes` nodes: the smallest
/// `b >= 1` with `2^b >= max_nodes`.
pub open spec fn worker_bits_for(max_nodes: nat) -> nat {
    if max_nodes <= 1 {
        1
    } else {
        bit_length((max_nodes - 1) as nat)
    }
}

/// IDs needed per millisecond at `max_qps` requests per second, at least one.
pub open spec fn ids_per_ms(max_qps: nat) -> nat {
    if max_qps == 0 {
        1
    } else {
        ((max_qps + 999) / 1000) as nat
    }
}

/// Sequence bits before the caps: enough to count the per-millisecond demand
/// with a 20% margin.
pub open spec fn raw_seq_bits_for(max_qps: nat) -> nat {
    let ids = ids_per_ms(max_qps);
    bit_length(ids + ids / 5)
}

/// Sequence bits: at least 3, and cut to `22 - worker_bits` (but still at
/// least 3) when both fields together would pass 22 bits.
pub open spec fn seq_bits_for(worker_bits: nat, max_qps: nat) -> nat {
    let raw = raw_seq_bits_for(max_qps);
    if worker_bits + raw > 22 {
        if 22 - worker_bits >= 3 {
            (22 - worker_bits) as nat
        } else {
            3
        }
    } else if raw >= 3 {
        raw
    } else {
        3
    }
}

/// Characterisation of `bit_length`: `n < 2^b`, and `2^(b-1) <= n` when `n > 0`.
pub proof fn lemma_bit_length_bounds(n: nat)
    ensures
        n < pow2(bit_length(n)),
        n > 0 ==> pow2((bit_length(n) - 1) as nat) <= n,
        n > 0 ==> bit_length(n) >= 1,
    decreases n,
{
    if n == 0 {
        vstd::arithmetic::power2::lemma2_to64();
    } else {
        lemma_bit_length_bounds(n / 2);
        lemma_pow2_unfold(bit_length(n));
        if n / 2 > 0 {
            lemma_pow2_unfold((bit_length(n) - 1) as nat);
        } else {
            vstd::arithmetic::power2::lemma2_to64();
        }
    }
}

impl IGOptions {
    /// The default options for a worker.
    pub open spec fn defaults(worker_id: u16) -> IGOptions {
        IGOptions {
            method: 1,
            base_time: DEFAULT_BASE_TIME,
            worker_id,
            worker_id_bit_length: 6,
            seq_bit_length: 6,
            max_seq_number: 0,
            min_seq_number: 5,
            top_over_cost_count: 2000,
        }
    }

    /// Default options for `worker_id`.
    pub fn new(worker_id: u16) -> (r: Self)
        ensures
            r == Self::defaults(worker_id),
    {
        IGOptions {
            method: 1,
            base_time: DEFAULT_BASE_TIME,
            worker_id,
            worker_id_bit_length: 6,
            seq_bit_length: 6,
            max_seq_number: 0,
            min_seq_number: 5,
            top_over_cost_count: 2000,
        }
    }

    /// A builder that starts from the default options for `worker_id`.
    pub fn builder(worker_id: u16) -> (b: IGOptionsBuilder)
        ensures
            b@ == Self::defaults(worker_id),
    {
        IGOptionsBuilder::new(worker_id)
    }

    /// Quick initialisation with the default options.
    pub fn quick_init(worker_id: u16) -> (r: Self)
        ensures
            r == Self::defaults(worker_id),
    {
        Self::new(worker_id)
    }

    /// Options sized from the business capacity: `max_nodes` nodes in the
    /// cluster and a target of `max_qps` IDs per second on this node.
    ///
    /// The worker field gets the exact ceiling of `log2(max_nodes)` bits (at
    /// least one); the sequence field gets enough bits for the per-millisecond
    /// demand plus 20%, at least 3, with both fields kept within 22 bits where
    /// the worker field leaves room for 3 sequence bits.
    pub fn with_capacity(worker_id: u16, max_nodes: u32, max_qps: u32) -> (r: Self)
        requires
            max_nodes <= 0x40_0000,
        ensures
            r.worker_id_bit_length == worker_bits_for(max_nodes as nat),
            r.seq_bit_length == seq_bits_for(worker_bits_for(max_nodes as nat), max_qps as nat),
            r == (IGOptions {
                worker_id_bit_length: r.worker_id_bit_length,
                seq_bit_length: r.seq_bit_length,
                ..Self::defaults(worker_id)
            }),
    {
        // 1. worker bits: exact ceiling of log2(max_nodes)
        let worker_id_bit_length: u8 = if max_nodes <= 1 {
            1
        } else {
            bit_length_u32(max_nodes - 1)
        };
        proof {
            if max_nodes > 1 {
                lemma_bit_length_bounds((max_nodes - 1) as nat);
                lemma_bit_length_le_22((max_nodes - 1) as nat);
            }
        }

        // 2. sequence bits: per-millisecond demand plus a 20% margin
        let ids_per_ms: u32 = if max_qps == 0 {
            1
        } else {
            ((max_qps as u64 + 999) / 1000) as u32
        };
        let seq_bits_raw: u8 = bit_length_u32(ids_per_ms + ids_per_ms / 5);
        proof {
            lemma_bit_length_le_32((ids_per_ms + ids_per_ms / 5) as nat);
        }

        // 3. keep the total within 22 bits and the sequence at 3 bits or more
        let total: u8 = worker_id_bit_length + seq_bits_raw;
        let seq_bit_length: u8 = if total > 22 {
            let room: u8 = 22 - worker_id_bit_length;
            if room >= 3 { room } else { 3 }
        } else {
            if seq_bits_raw >= 3 { seq_bits_raw } else { 3 }
        };

        IGOptions {
            method: 1,
            base_time: DEFAULT_BASE_TIME,
            worker_id,
            worker_id_bit_length,
            seq_bit_length,
            max_seq_number: 0,
            min_seq_number: 5,
            top_over_cost_count: 2000,
        }
    }
}

/// Sizing from capacity: the worker field numbers every node of the cluster
/// and is the narrowest that does (the exact ceiling of `log2`); the sequence
/// field has at least 3 bits; both stay within 22 bits whenever the worker
/// field leaves room for 3 sequence bits; and when the sequence field is not
/// cut it counts the per-millisecond demand plus 20%.
pub proof fn lemma_capacity_sizing(max_nodes: nat, max_qps: nat)
    requires
        max_nodes <= 0x40_0000,
        max_qps <= 0xffff_ffff,
    ensures
        max_nodes <= pow2(worker_bits_for(max_nodes)),
        worker_bits_for(max_nodes) >= 1,
        worker_bits_for(max_nodes) > 1 ==> pow2((worker_bits_for(max_nodes) - 1) as nat) < max_nodes,
        seq_bits_for(worker_bits_for(max_nodes), max_qps) >= 3,
        worker_bits_for(max_nodes) <= 19 ==> worker_bits_for(max_nodes) + seq_bits_for(
            worker_bits_for(max_nodes),
            max_qps,
        ) <= 22,
        worker_bits_for(max_nodes) + raw_seq_bits_for(max_qps) <= 22 ==> ids_per_ms(max_qps)
            + ids_per_ms(max_qps) / 5 < pow2(seq_bits_for(worker_bits_for(max_nodes), max_qps)),
{
    let wb = worker_bits_for(max_nodes);
    vstd::arithmetic::power2::lemma2_to64();
    if max_nodes > 1 {
        lemma_bit_length_bounds((max_nodes - 1) as nat);
    }
    let ids = ids_per_ms(max_qps);
    let raw = raw_seq_bits_for(max_qps);
    lemma_bit_length_bounds(ids + ids / 5);
    if raw < 3 {
        lemma_pow2_le(raw, 3);
    }
}

/// The per-millisecond demand at `max_qps` requests per second is the
/// fewest IDs per millisecond that cover it (at least one): `1000 * d`
/// reaches `max_qps`, and one ID fewer would not. The sequence field of
/// `with_capacity` counts that demand plus 20% (`d + d/5`) and is the
/// narrowest at least 3 bits wide that does, whenever that fits in the room
/// `22 - worker_bits` the worker field leaves; otherwise it takes that
/// whole room, and 3 bits when the worker field leaves fewer than 3.
pub proof fn lemma_capacity_covers_demand(max_nodes: nat, max_qps: nat)
    requires
        max_nodes <= 0x40_0000,
        max_qps <= 0xffff_ffff,
    ensures
        ids_per_ms(max_qps) >= 1,
        1000 * ids_per_ms(max_qps) >= max_qps,
        ids_per_ms(max_qps) > 1 ==> 1000 * (ids_per_ms(max_qps) - 1) < max_qps,
        ({
            let wb = worker_bits_for(max_nodes);
            let s = seq_bits_for(wb, max_qps);
            let d = ids_per_ms(max_qps);
            &&& wb <= 19 && d + d / 5 < pow2((22 - wb) as nat) ==> d + d / 5 < pow2(s) && (s > 3
                ==> pow2((s - 1) as nat) <= d + d / 5) && s >= 3
            &&& wb <= 19 && d + d / 5 >= pow2((22 - wb) as nat) ==> s == 22 - wb
            &&& wb > 19 ==> s == 3
        }),
{
    let wb = worker_bits_for(max_nodes);
    if max_nodes > 1 {
        lemma_bit_length_bounds((max_nodes - 1) as nat);
        lemma_bit_length_le_22((max_nodes - 1) as nat);
    }
    let d = ids_per_ms(max_qps);
    let need = d + d / 5;
    let raw = raw_seq_bits_for(max_qps);
    lemma_bit_length_bounds(need);
    vstd::arithmetic::power2::lemma2_to64();
    if wb <= 19 {
        let room = (22 - wb) as nat;
        if need < pow2(room) {
            if raw > room {
                lemma_pow2_le(room, (raw - 1) as nat);
            }
            if raw < 3 {
                lemma_pow2_le(raw, 3);
            }
        } else {
            if raw <= room {
                lemma_pow2_le(raw, room);
            }
        }
    }
}

/// `pow2` is monotone.
pub proof fn lemma_pow2_le(a: nat, b: nat)
    requires
        a <= b,
    ensures
        pow2(a) <= pow2(b),
{
    if a < b {
        vstd::arithmetic::power2::lemma_pow2_strictly_increases(a, b);
    }
}

proof fn lemma_bit_length_le_22(n: nat)
    requires
        n < 0x40_0000,
    ensures
        bit_length(n) <= 22,
{
    lemma_bit_length_bounds(n);
    if bit_length(n) > 22 {
        lemma_pow2_le(22, (bit_length(n) - 1) as nat);
        vstd::arithmetic::power2::lemma2_to64();
    }
}

proof fn lemma_bit_length_le_32(n: nat)
    requires
        n <= 0xffff_ffff,
    ensures
        bit_length(n) <= 32,
{
    lemma_bit_length_bounds(n);
    if bit_length(n) > 32 {
        lemma_pow2_le(32, (bit_length(n) - 1) as nat);
        vstd::arithmetic::power2::lemma2_to64();
    }
}

/// Binary length of `n`, as `32 - n.leading_zeros()`.
fn bit_length_u32(n: u32) -> (b: u8)
    ensures
        b == bit_length(n as nat),
        b <= 32,
{
    let lz = n.leading_zeros();
    proof {
        lemma_leading_zeros_bit_length(n);
    }
    (32 - lz) as u8
}

/// `32 - leading_zeros(n)` is the binary length of `n`.
proof fn lemma_leading_zeros_bit_length(n: u32)
    ensures
        32 - n.leading_zeros() == bit_length(n as nat),
        n.leading_zeros() <= 32,
{
    axiom_u32_leading_zeros(n);
    lemma_bit_length_bounds(n as nat);
    lemma_bit_length_le_32(n as nat);
    vstd::arithmetic::power2::lemma2_to64();
    let lz = n.leading_zeros();
    let b = bit_length(n as nat);
    if n != 0 {
        let k: u32 = (32 - lz) as u32;
        let j: u32 = (31 - lz) as u32;
        // n < 2^k
        if k < 32 {
            vstd::bits::lemma_u32_shr_is_div(n, k);
            lemma_pow2_pos(k as nat);
            if n as nat >= pow2(k as nat) {
                vstd::arithmetic::div_mod::lemma_div_non_zero(n as int, pow2(k as nat) as int);
            }
        }
        assert(n < pow2(k as nat));
        // 2^j <= n
        vstd::bits::lemma_u32_shr_is_div(n, j);
        assert((n >> j) & 1u32 != 0u32 ==> n >> j != 0u32) by (bit_vector);
        lemma_pow2_pos(j as nat);
        if (n as nat) < pow2(j as nat) {
            vstd::arithmetic::div_mod::lemma_basic_div(n as int, pow2(j as nat) as int);
        }
        assert(pow2(j as nat) <= n);
        // both b and k are the binary length
        if b < k {
            lemma_pow2_le(b, j as nat);
        } else if b > k {
            lemma_pow2_le(k as nat, (b - 1) as nat);
        }
    }
}

/// Builder of `IGOptions`.
#[derive(Debug, Clone)]
pub struct IGOptionsBuilder {
    inner: IGOptions,
}

impl View for IGOptionsBuilder {
    type V = IGOptions;

    closed spec fn view(&self) -> IGOptions {
        self.inner
    }
}

impl IGOptionsBuilder {
    /// A builder that starts from the default options for `worker_id`.
    pub fn new(worker_id: u16) -> (b: Self)
        ensures
            b@ == IGOptions::defaults(worker_id),
    {
        Self { inner: IGOptions::new(worker_id) }
    }

    /// Sets the generation method (1: drift algorithm, 2: classic algorithm).
    pub fn method(self, method: u16) -> (b: Self)
        ensures
            b@ == (IGOptions { method, ..self@ }),
    {
        let mut s = self;
        s.inner.method = method;
        s
    }

    /// Sets the base time in milliseconds since the Unix epoch.
    pub fn base_time_ms(self, base_time: i64) -> (b: Self)
        ensures
            b@ == (IGOptions { base_time, ..self@ }),
    {
        let mut s = self;
        s.inner.base_time = base_time;
        s
    }

    /// Sets the bits of the worker id (range [1, 15]).
    pub fn worker_id_bit_length(self, length: u8) -> (b: Self)
        ensures
            b@ == (IGOptions { worker_id_bit_length: length, ..self@ }),
    {
        let mut s = self;
        s.inner.worker_id_bit_length = length;
        s
    }

    /// Sets the bits of the sequence number (range [3, 21]).
    pub fn seq_bit_length(self, length: u8) -> (b: Self)
        ensures
            b@ == (IGOptions { seq_bit_length: length, ..self@ }),
    {
        let mut s = self;
        s.inner.seq_bit_length = length;
        s
    }

    /// Sets the largest sequence number.
    pub fn max_seq_number(self, max: u32) -> (b: Self)
        ensures
            b@ == (IGOptions { max_seq_number: max, ..self@ }),
    {
        let mut s = self;
        s.inner.max_seq_number = max;
        s
    }

    /// Sets the smallest sequence number.
    pub fn min_seq_number(self, min: u32) -> (b: Self)
        ensures
            b@ == (IGOptions { min_seq_number: min, ..self@ }),
    {
        let mut s = self;
        s.inner.min_seq_number = min;
        s
    }

    /// Sets the largest number of drifts.
    pub fn top_over_cost_count(self, count: u32) -> (b: Self)
        ensures
            b@ == (IGOptions { top_over_cost_count: count, ..self@ }),
    {
        let mut s = self;
        s.inner.top_over_cost_count = count;
        s
    }

    /// The options built so far.
    pub fn build(self) -> (r: IGOptions)
        ensures
            r == self@,
    {
        self.inner
    }
}

} // verus!
