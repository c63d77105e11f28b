//! The bit layout of an ID and of the generator's packed state, and the
//! decision a generator takes for a given state and clock reading.
use vstd::prelude::*;
use vstd::arithmetic::power2::pow2;

verus! {

/// Where the fields of an ID lie. From the top: the timestamp (milliseconds
/// since `base_time`), the worker id, then `seq_bits` bits of sequence number.
pub struct IdLayout {
    pub base_time: i64,
    pub worker_id: u64,
    pub seq_bits: u64,
    pub timestamp_shift: u64,
    /// Largest sequence number handed out in a millisecond.
    pub max_seq: u64,
}

/// What a generator does with a state it read and the clock reading `now`.
#[derive(Debug, Clone, Copy, PartialEq, Eq)]
pub enum Decision {
    /// Store `state` in place of the state read, and hand out `id`.
    Claim { state: u64, id: u64 },
    /// The sequence of this millisecond is used up: read the clock again.
    SequenceExhausted,
    /// The clock lags behind the state by at most 10 ms: read it again.
    ClockBehind,
    /// The clock lags behind the state by `drift` ms, more than 10 (a clock
    /// set back): wait for it to catch up, then read it again.
    ClockRollback { drift: u64 },
}

/// Largest clock lag, in milliseconds, taken for jitter; a larger lag is a
/// clock set back.
pub const MAX_TOLERATED_DRIFT: u64 = 10;

impl IdLayout {
    /// The shifts fit in 64 bits, the worker id in 16 bits, and the largest
    /// sequence number in the sequence field.
    pub open spec fn valid(self) -> bool {
        &&& self.seq_bits <= self.timestamp_shift
        &&& self.timestamp_shift < 64
        &&& self.worker_id < 0x1_0000
        &&& self.max_seq <= self.seq_mask()
    }

    /// Bits of the worker field.
    pub open spec fn worker_bits(self) -> u64 {
        (self.timestamp_shift - self.seq_bits) as u64
    }

    /// Mask of the sequence field: `2^seq_bits - 1`.
    pub open spec fn seq_mask(self) -> u64 {
        ((1u64 << self.seq_bits) - 1) as u64
    }

    /// Mask of the worker field once shifted down: `2^worker_bits - 1`.
    pub open spec fn worker_mask(self) -> u64 {
        ((1u64 << self.worker_bits()) - 1) as u64
    }

    /// The worker id fits in its field.
    pub open spec fn worker_fits(self) -> bool {
        self.worker_id <= self.worker_mask()
    }

    /// The timestamp `ts` fits above the worker and sequence fields.
    pub open spec fn fits(self, ts: u64) -> bool {
        (ts << self.timestamp_shift) >> self.timestamp_shift == ts
    }

    /// The ID for timestamp `ts` and sequence number `seq`.
    pub open spec fn id_of(self, ts: u64, seq: u64) -> u64 {
        (ts << self.timestamp_shift) | (self.worker_id << self.seq_bits) | seq
    }

    /// `id` is made of some timestamp, the worker id and a sequence number
    /// no larger than `max_seq`.
    pub open spec fn has_layout(self, id: u64) -> bool {
        exists|ts: u64, seq: u64| seq <= self.max_seq && id == #[trigger] self.id_of(ts, seq)
    }

    /// The packed state for timestamp `ts` and sequence number `seq`.
    pub open spec fn state_of(self, ts: u64, seq: u64) -> u64 {
        (ts << self.seq_bits) | seq
    }

    /// Timestamp held in a packed state.
    pub open spec fn state_timestamp(self, state: u64) -> u64 {
        state >> self.seq_bits
    }

    /// Sequence number held in a packed state.
    pub open spec fn state_sequence(self, state: u64) -> u64 {
        state & self.seq_mask()
    }

    /// The ID that a packed state stands for.
    pub open spec fn id_of_state(self, state: u64) -> u64 {
        self.id_of(self.state_timestamp(state), self.state_sequence(state))
    }

    /// Timestamp field of an ID.
    pub open spec fn id_timestamp(self, id: u64) -> u64 {
        id >> self.timestamp_shift
    }

    /// Worker field of an ID.
    pub open spec fn id_worker(self, id: u64) -> u64 {
        (id >> self.seq_bits) & self.worker_mask()
    }

    /// Sequence field of an ID.
    pub open spec fn id_sequence(self, id: u64) -> u64 {
        id & self.seq_mask()
    }

    /// The decision for state `state` and clock reading `now` (milliseconds
    /// since `base_time`): in the state's millisecond, take the next sequence
    /// number if it is within `max_seq`; in a later millisecond, reset the
    /// sequence to 0; behind the state's millisecond, wait: as jitter when the
    /// lag is at most `MAX_TOLERATED_DRIFT`, as a clock set back otherwise.
    pub open spec fn decision(self, state: u64, now: u64) -> Decision {
        let last = self.state_timestamp(state);
        let seq = self.state_sequence(state);
        if now == last {
            if seq < self.max_seq {
                Decision::Claim {
                    state: self.state_of(now, (seq + 1) as u64),
                    id: self.id_of(now, (seq + 1) as u64),
                }
            } else {
                Decision::SequenceExhausted
            }
        } else if now > last {
            Decision::Claim { state: self.state_of(now, 0), id: self.id_of(now, 0) }
        } else if last - now > MAX_TOLERATED_DRIFT {
            Decision::ClockRollback { drift: (last - now) as u64 }
        } else {
            Decision::ClockBehind
        }
    }
}

/// An ID gives back its fields: the timestamp, the worker id and the
/// sequence number it was made of, when each fits in its field.
pub proof fn lemma_id_round_trip(l: IdLayout, ts: u64, seq: u64)
    requires
        l.valid(),
        l.worker_fits(),
        l.fits(ts),
        seq <= l.seq_mask(),
    ensures
        l.id_timestamp(l.id_of(ts, seq)) == ts,
        l.id_worker(l.id_of(ts, seq)) == l.worker_id,
        l.id_sequence(l.id_of(ts, seq)) == seq,
        l.state_timestamp(l.state_of(ts, seq)) == ts,
        l.state_sequence(l.state_of(ts, seq)) == seq,
{
    lemma_pack_fields(ts, l.worker_id, seq, l.seq_bits, l.worker_bits(), l.timestamp_shift);
}

/// The sign bit of an ID stays clear when the timestamp fits in the
/// `63 - timestamp_shift` bits below it.
pub proof fn lemma_sign_bit_clear(l: IdLayout, ts: u64, seq: u64)
    requires
        l.valid(),
        l.worker_fits(),
        seq <= l.seq_mask(),
        ts < pow2((63 - l.timestamp_shift) as nat),
    ensures
        l.id_of(ts, seq) < 0x8000_0000_0000_0000u64,
{
    let k: u64 = (63 - l.timestamp_shift) as u64;
    vstd::bits::lemma_u64_shr_is_div(ts, k);
    vstd::arithmetic::power2::lemma_pow2_pos(k as nat);
    vstd::arithmetic::div_mod::lemma_basic_div(ts as int, pow2(k as nat) as int);
    lemma_top_bit_clear(ts, l.worker_id, seq, l.seq_bits, l.worker_bits(), l.timestamp_shift, k);
}

/// Generators that differ only in their worker id never issue the same ID.
pub proof fn lemma_distinct_workers_distinct_ids(
    l1: IdLayout,
    l2: IdLayout,
    ts1: u64,
    seq1: u64,
    ts2: u64,
    seq2: u64,
)
    requires
        l1.valid(),
        l2.valid(),
        l1.seq_bits == l2.seq_bits,
        l1.timestamp_shift == l2.timestamp_shift,
        l1.worker_id != l2.worker_id,
        l1.worker_fits(),
        l2.worker_fits(),
        l1.fits(ts1),
        l2.fits(ts2),
        seq1 <= l1.seq_mask(),
        seq2 <= l2.seq_mask(),
    ensures
        l1.id_of(ts1, seq1) != l2.id_of(ts2, seq2),
{
    lemma_id_round_trip(l1, ts1, seq1);
    lemma_id_round_trip(l2, ts2, seq2);
}

/// A larger packed state stands for a larger ID.
pub proof fn lemma_ids_follow_states(l: IdLayout, s1: u64, s2: u64)
    requires
        l.valid(),
        l.worker_fits(),
        s1 < s2,
        l.fits(l.state_timestamp(s2)),
    ensures
        l.id_of_state(s1) < l.id_of_state(s2),
{
    let sb = l.seq_bits;
    let wb = l.worker_bits();
    let sh = l.timestamp_shift;
    let w = l.worker_id;
    let m = l.seq_mask();
    let t1 = l.state_timestamp(s1);
    let t2 = l.state_timestamp(s2);
    let q1 = l.state_sequence(s1);
    let q2 = l.state_sequence(s2);
    lemma_mask_le(s1, m);
    lemma_mask_le(s2, m);
    lemma_state_order(s1, s2, sb);
    lemma_low_fields(w, q1, sb, wb, sh, t1);
    lemma_low_fields(w, q2, sb, wb, sh, t2);
    if t1 < t2 {
        lemma_id_order_by_timestamp(t1, t2, (w << sb) | q1, (w << sb) | q2, sh);
    } else {
        lemma_id_order_by_sequence((t1 << sh) | (w << sb), q1, q2, sb);
    }
}

/// A claim stores a state larger than the one read, and hands out the ID
/// of the state it stores, whose timestamp is the clock reading.
pub proof fn lemma_claim_advances(l: IdLayout, state: u64, now: u64, next: u64, id: u64)
    requires
        l.valid(),
        l.fits(now),
        l.decision(state, now) == (Decision::Claim { state: next, id }),
    ensures
        next > state,
        id == l.id_of_state(next),
        l.state_timestamp(next) == now,
{
    let sb = l.seq_bits;
    let m = l.seq_mask();
    let q = l.state_sequence(state);
    lemma_mask_le(state, m);
    if now == l.state_timestamp(state) {
        lemma_next_in_millisecond(state, sb);
        lemma_pack_fields(now, 0, (q + 1) as u64, sb, l.worker_bits(), l.timestamp_shift);
    } else {
        lemma_later_millisecond(state, now, sb, l.timestamp_shift);
        lemma_pack_fields(now, 0, 0, sb, l.worker_bits(), l.timestamp_shift);
    }
}

/// IDs increase: when one claim stores state `a` and a later claim reads a
/// state no smaller than `a` (the same one, or one stored in between), the
/// later ID is larger. No two claims in that order hand out the same ID.
pub proof fn lemma_successive_claims_increase(
    l: IdLayout,
    s0: u64,
    now1: u64,
    a: u64,
    id1: u64,
    s1: u64,
    now2: u64,
    b: u64,
    id2: u64,
)
    requires
        l.valid(),
        l.worker_fits(),
        l.fits(now1),
        l.fits(now2),
        l.decision(s0, now1) == (Decision::Claim { state: a, id: id1 }),
        a <= s1,
        l.decision(s1, now2) == (Decision::Claim { state: b, id: id2 }),
    ensures
        id1 < id2,
{
    lemma_claim_advances(l, s0, now1, a, id1);
    lemma_claim_advances(l, s1, now2, b, id2);
    lemma_ids_follow_states(l, a, b);
}

/// Two claims in a row within one millisecond hand out consecutive sequence
/// numbers under the same timestamp.
pub proof fn lemma_same_millisecond_sequence(
    l: IdLayout,
    s0: u64,
    now: u64,
    a: u64,
    id1: u64,
    b: u64,
    id2: u64,
)
    requires
        l.valid(),
        l.worker_fits(),
        l.fits(now),
        l.decision(s0, now) == (Decision::Claim { state: a, id: id1 }),
        l.decision(a, now) == (Decision::Claim { state: b, id: id2 }),
    ensures
        l.id_sequence(id2) == l.id_sequence(id1) + 1,
        l.id_timestamp(id2) == l.id_timestamp(id1),
        l.id_timestamp(id1) == now,
{
    lemma_claim_advances(l, s0, now, a, id1);
    let q = l.state_sequence(a);
    lemma_mask_le(a, l.seq_mask());
    lemma_id_round_trip(l, now, q);
    lemma_id_round_trip(l, now, (q + 1) as u64);
}

/// The fields of any ID, read as numbers: the sequence number is the ID
/// modulo `2^seq_bits`, the worker id is the ID divided by `2^seq_bits`,
/// modulo `2^worker_bits`, and the timestamp is the ID divided by
/// `2^timestamp_shift`.
pub proof fn lemma_fields_as_numbers(l: IdLayout, id: u64)
    requires
        l.valid(),
    ensures
        l.id_sequence(id) == (id as nat) % pow2(l.seq_bits as nat),
        l.id_worker(id) == ((id as nat) / pow2(l.seq_bits as nat)) % pow2(l.worker_bits() as nat),
        l.id_timestamp(id) == (id as nat) / pow2(l.timestamp_shift as nat),
{
    let sb = l.seq_bits;
    let wb = l.worker_bits();
    lemma_mask_value(sb);
    lemma_mask_value(wb);
    vstd::bits::lemma_u64_pow2_no_overflow(sb as nat);
    vstd::bits::lemma_u64_pow2_no_overflow(wb as nat);
    assert(l.seq_mask() == vstd::bits::low_bits_mask(sb as nat) as u64);
    assert(l.worker_mask() == vstd::bits::low_bits_mask(wb as nat) as u64);
    assert((pow2(sb as nat) as u64) as nat == pow2(sb as nat));
    assert((pow2(wb as nat) as u64) as nat == pow2(wb as nat));
    vstd::bits::lemma_u64_low_bits_mask_is_mod(id, sb as nat);
    vstd::bits::lemma_u64_shr_is_div(id, sb);
    vstd::bits::lemma_u64_shr_is_div(id, l.timestamp_shift);
    vstd::bits::lemma_u64_low_bits_mask_is_mod(id >> sb, wb as nat);
}

/// `(1 << b) - 1` is `2^b - 1`, the mask of the low `b` bits.
proof fn lemma_mask_value(b: u64)
    requires
        b < 64,
    ensures
        ((1u64 << b) - 1) as u64 == vstd::bits::low_bits_mask(b as nat),
        (vstd::bits::low_bits_mask(b as nat) as u64) as int == pow2(b as nat) - 1,
{
    vstd::bits::lemma_u64_pow2_no_overflow(b as nat);
    vstd::bits::lemma_u64_shl_is_mul(1, b);
}

proof fn lemma_mask_le(x: u64, m: u64)
    by (bit_vector)
    ensures
        x & m <= m,
{
}

/// In the state's millisecond, the next sequence number gives the next state.
proof fn lemma_next_in_millisecond(s: u64, sb: u64)
    by (bit_vector)
    requires
        sb < 64,
        s & (((1u64 << sb) - 1) as u64) < ((1u64 << sb) - 1) as u64,
    ensures
        ((s >> sb) << sb) | (((s & (((1u64 << sb) - 1) as u64)) + 1) as u64) == s + 1,
{
}

/// A later millisecond gives a larger state.
proof fn lemma_later_millisecond(s: u64, now: u64, sb: u64, sh: u64)
    by (bit_vector)
    requires
        sb <= sh,
        sh < 64,
        (now << sh) >> sh == now,
        now > s >> sb,
    ensures
        (now << sb) | 0 > s,
{
}

/// With the timestamp below bit 63, the packed ID is too.
proof fn lemma_top_bit_clear(ts: u64, w: u64, seq: u64, sb: u64, wb: u64, sh: u64, k: u64)
    by (bit_vector)
    requires
        sh == sb + wb,
        sh < 64,
        k + sh == 63,
        ts >> k == 0,
        w <= ((1u64 << wb) - 1) as u64,
        seq <= ((1u64 << sb) - 1) as u64,
    ensures
        (ts << sh) | (w << sb) | seq < 0x8000_0000_0000_0000u64,
{
}

/// Bit facts of the packing, for shifts `sb` (sequence) and `sh` (timestamp).
proof fn lemma_pack_fields(ts: u64, w: u64, seq: u64, sb: u64, wb: u64, sh: u64)
    by (bit_vector)
    requires
        sh == sb + wb,
        sh < 64,
        (ts << sh) >> sh == ts,
        w <= ((1u64 << wb) - 1) as u64,
        seq <= ((1u64 << sb) - 1) as u64,
    ensures
        ((ts << sh) | (w << sb) | seq) >> sh == ts,
        (((ts << sh) | (w << sb) | seq) >> sb) & (((1u64 << wb) - 1) as u64) == w,
        ((ts << sh) | (w << sb) | seq) & (((1u64 << sb) - 1) as u64) == seq,
        ((ts << sb) | seq) >> sb == ts,
        ((ts << sb) | seq) & (((1u64 << sb) - 1) as u64) == seq,
{
}

/// A packed state splits into its timestamp and sequence fields, compared
/// in that order.
proof fn lemma_state_order(s1: u64, s2: u64, sb: u64)
    by (bit_vector)
    requires
        sb < 64,
        s1 < s2,
    ensures
        (s1 >> sb) < (s2 >> sb) || ((s1 >> sb) == (s2 >> sb) && (s1 & (((1u64 << sb) - 1) as u64))
            < (s2 & (((1u64 << sb) - 1) as u64))),
{
}

/// IDs with a larger timestamp are larger.
proof fn lemma_id_order_by_timestamp(t1: u64, t2: u64, low1: u64, low2: u64, sh: u64)
    by (bit_vector)
    requires
        sh < 64,
        t1 < t2,
        (t2 << sh) >> sh == t2,
        low1 <= ((1u64 << sh) - 1) as u64,
    ensures
        ((t1 << sh) | low1) < ((t2 << sh) | low2),
{
}

/// Within one timestamp, IDs with a larger sequence number are larger.
proof fn lemma_id_order_by_sequence(hi: u64, q1: u64, q2: u64, sb: u64)
    by (bit_vector)
    requires
        sb < 64,
        q1 < q2,
        q2 <= ((1u64 << sb) - 1) as u64,
        hi & (((1u64 << sb) - 1) as u64) == 0,
    ensures
        (hi | q1) < (hi | q2),
{
}

/// The worker and sequence fields lie below the timestamp field.
proof fn lemma_low_fields(w: u64, seq: u64, sb: u64, wb: u64, sh: u64, ts: u64)
    by (bit_vector)
    requires
        sh == sb + wb,
        sh < 64,
        w <= ((1u64 << wb) - 1) as u64,
        seq <= ((1u64 << sb) - 1) as u64,
    ensures
        (w << sb) | seq <= ((1u64 << sh) - 1) as u64,
        ((ts << sh) | (w << sb)) & (((1u64 << sb) - 1) as u64) == 0,
        (ts << sh) | (w << sb) | seq == (ts << sh) | ((w << sb) | seq),
{
}

} // verus!
