//! Decoding of the creation instant embedded in a distributed identifier.
//!
//! A remote sequence generator packs a timestamp delta, a node number and a
//! sequence counter into one 64-bit identifier.  Given the bit layout, the
//! creation instant can be recovered locally, without any server round-trip:
//! the high-order bits (everything above the node and sequence fields) are
//! the delta, in units of `2^time_unit_shift` microseconds, since a custom
//! epoch.

use vstd::prelude::*;

verus! {

use vstd::arithmetic::power2::pow2;
use vstd::arithmetic::mul::lemma_mul_inequality;
use vstd::bits::lemma_u64_shl_is_mul;

/// Bit layout of a distributed identifier: how many bits each field
/// occupies and which epoch the embedded timestamp delta counts from.
///
/// Obtained once from the remote service and treated as constant for the
/// process lifetime.
#[derive(Clone, Copy, Debug)]
pub struct IdLayout {
    /// Width of the timestamp field, in bits.
    pub time_bits: u64,
    /// Width of the generator-node field, in bits.
    pub node_bits: u64,
    /// Width of the per-node sequence counter field, in bits.
    pub seq_bits: u64,
    /// Offset of the generator's custom epoch, in microseconds since the
    /// fixed reference epoch.
    pub epoch_offset_micros: u64,
    /// The timestamp delta counts units of `2^time_unit_shift` microseconds
    /// (0 means the generator ticks once per microsecond).
    pub time_unit_shift: u64,
}

impl IdLayout {
    /// A layout is well formed when every shift it induces stays inside a
    /// 64-bit word and the three fields fit into one identifier.
    pub open spec fn wf(self) -> bool {
        &&& self.node_bits + self.seq_bits < 64
        &&& self.time_unit_shift < 64
        &&& self.time_bits + self.node_bits + self.seq_bits <= 64
    }

    /// Number of low-order bits holding the node and sequence fields; the
    /// timestamp delta sits above them.
    pub open spec fn spec_low_bits(self) -> u64
        recommends
            self.wf(),
    {
        (self.node_bits + self.seq_bits) as u64
    }

    /// Builds a layout after checking it is well formed.
    pub fn new(
        time_bits: u64,
        node_bits: u64,
        seq_bits: u64,
        epoch_offset_micros: u64,
        time_unit_shift: u64,
    ) -> (r: Option<IdLayout>)
        ensures
            match r {
                Some(l) => l.wf() && l == (IdLayout {
                    time_bits,
                    node_bits,
                    seq_bits,
                    epoch_offset_micros,
                    time_unit_shift,
                }),
                None => !(IdLayout {
                    time_bits,
                    node_bits,
                    seq_bits,
                    epoch_offset_micros,
                    time_unit_shift,
                }).wf(),
            },
    {
        if node_bits < 64 && seq_bits < 64 && node_bits + seq_bits < 64 && time_unit_shift < 64
            && time_bits <= 64 && time_bits + node_bits + seq_bits <= 64 {
            Some(IdLayout { time_bits, node_bits, seq_bits, epoch_offset_micros, time_unit_shift })
        } else {
            None
        }
    }
}

/// The timestamp delta embedded in `id`: its high-order bits, above the node
/// and sequence fields.
pub open spec fn spec_delta(id: u64, layout: IdLayout) -> u64
    recommends
        layout.wf(),
{
    id >> layout.spec_low_bits()
}

/// The creation instant embedded in `id`, in microseconds since the fixed
/// reference epoch: the custom epoch offset plus the delta scaled to
/// microseconds.  Arithmetic wraps modulo 2^64, so the decode is total: an
/// identifier read under a mismatched layout yields a meaningless but
/// defined number, never a fault.
pub open spec fn spec_decode_instant(id: u64, layout: IdLayout) -> u64
    recommends
        layout.wf(),
{
    vstd::wrapping::u64_specs::wrapping_add(
        layout.epoch_offset_micros,
        spec_delta(id, layout) << layout.time_unit_shift,
    )
}

/// The decoded instant before any modular reduction, as an unbounded
/// integer.  Where this fits in 64 bits, it equals [`spec_decode_instant`].
pub open spec fn spec_decode_instant_exact(id: u64, layout: IdLayout) -> int
    recommends
        layout.wf(),
{
    layout.epoch_offset_micros + spec_delta(id, layout) * pow2(layout.time_unit_shift as nat)
}

/// Recovers the creation instant embedded in `id` under `layout`, in
/// microseconds since the fixed reference epoch.  Pure and total: exact
/// unsigned bit arithmetic, wrapping modulo 2^64.
pub fn decode_instant(id: u64, layout: &IdLayout) -> (t: u64)
    requires
        layout.wf(),
    ensures
        t == spec_decode_instant(id, *layout),
{
    let low_bits: u64 = layout.node_bits + layout.seq_bits;
    let delta: u64 = id >> low_bits;
    layout.epoch_offset_micros.wrapping_add(delta << layout.time_unit_shift)
}

/// Decode is monotone in the identifier: of two identifiers generated under
/// one layout, the larger one never decodes to an earlier instant, provided
/// the larger decode does not wrap 64-bit arithmetic.
pub proof fn lemma_decode_monotonic(id1: u64, id2: u64, layout: IdLayout)
    requires
        layout.wf(),
        id1 <= id2,
        spec_decode_instant_exact(id2, layout) <= u64::MAX,
    ensures
        spec_decode_instant(id1, layout) <= spec_decode_instant(id2, layout),
{
    let s = layout.spec_low_bits();
    let t = layout.time_unit_shift;
    let d1 = spec_delta(id1, layout);
    let d2 = spec_delta(id2, layout);
    assert(d1 <= d2) by (bit_vector)
        requires
            id1 <= id2,
            s < 64,
            d1 == id1 >> s,
            d2 == id2 >> s,
    ;
    lemma_mul_inequality(d1 as int, d2 as int, pow2(t as nat) as int);
    lemma_u64_shl_is_mul(d2, t);
    lemma_u64_shl_is_mul(d1, t);
}

/// Decode is deterministic: it is a function of the identifier and the
/// layout alone, so equal inputs always decode to equal instants.
pub proof fn lemma_decode_deterministic(id1: u64, id2: u64, layout1: IdLayout, layout2: IdLayout)
    requires
        id1 == id2,
        layout1 == layout2,
    ensures
        spec_decode_instant(id1, layout1) == spec_decode_instant(id2, layout2),
{
}

} // verus!
