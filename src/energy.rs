//! The energy feed: audio band energies handed over by the analysis thread
//! and folded into each frame's uniforms with a decaying maximum.
//!
//! Energies are fixed-point numbers: `ENERGY_ONE` stands for 1.0.

use vstd::arithmetic::power::pow;
use vstd::prelude::*;

verus! {

/// The fixed-point value of an energy of 1.0.
pub const ENERGY_ONE: u32 = 1000000;

/// Numerator of the decay factor applied to stored energies after each draw.
pub const DECAY_NUM: u32 = 4;

/// Denominator of the decay factor applied to stored energies after each draw.
pub const DECAY_DEN: u32 = 5;

/// One energy value per audio band.
#[derive(Clone, Copy, Debug, PartialEq, Eq, Structural)]
pub struct EnergyBands {
    pub low: u32,
    pub high: u32,
}

/// One decay step: the energy scaled by `DECAY_NUM / DECAY_DEN`, rounded down.
pub open spec fn decay(e: int) -> int {
    e * DECAY_NUM / DECAY_DEN as int
}

/// An energy after `k` decay steps.
pub open spec fn decayed(e: int, k: nat) -> int
    decreases k,
{
    if k == 0 {
        e
    } else {
        decay(decayed(e, (k - 1) as nat))
    }
}

pub open spec fn max_u32(a: u32, b: u32) -> u32 {
    if a >= b {
        a
    } else {
        b
    }
}

pub open spec fn decay_u32(e: u32) -> u32 {
    decay(e as int) as u32
}

impl EnergyBands {
    /// Both bands at zero.
    pub open spec fn zero() -> EnergyBands {
        EnergyBands { low: 0, high: 0 }
    }

    /// The band-wise maximum of two readings.
    pub open spec fn max_spec(self, other: EnergyBands) -> EnergyBands {
        EnergyBands { low: max_u32(self.low, other.low), high: max_u32(self.high, other.high) }
    }

    /// Both bands after one decay step.
    pub open spec fn decay_spec(self) -> EnergyBands {
        EnergyBands { low: decay_u32(self.low), high: decay_u32(self.high) }
    }
}

/// The stored, decaying energies of one surface and the latest reading that
/// no draw has consumed yet.
///
/// A new reading replaces an unconsumed one: the feed keeps no history.
pub struct EnergyFeed {
    pub stored: EnergyBands,
    pub pending: Option<EnergyBands>,
}

impl EnergyFeed {
    /// A feed with nothing stored and nothing pending.
    pub open spec fn empty_spec() -> EnergyFeed {
        EnergyFeed { stored: EnergyBands::zero(), pending: None }
    }

    /// The energies that the next draw hands to the shader: the pending
    /// reading combined with the stored energies by a band-wise maximum.
    pub open spec fn current_spec(self) -> EnergyBands {
        match self.pending {
            Some(p) => p.max_spec(self.stored),
            None => self.stored,
        }
    }

    /// The feed after a reading arrives.
    pub open spec fn after_push(self, b: EnergyBands) -> EnergyFeed {
        EnergyFeed { stored: self.stored, pending: Some(b) }
    }

    /// The feed after a draw consumed it.
    pub open spec fn after_draw(self) -> EnergyFeed {
        EnergyFeed { stored: self.current_spec().decay_spec(), pending: None }
    }

    /// The feed after `k` draws with no reading in between.
    pub open spec fn after_draws(self, k: nat) -> EnergyFeed
        decreases k,
    {
        if k == 0 {
            self
        } else {
            self.after_draws((k - 1) as nat).after_draw()
        }
    }

    pub fn new() -> (r: EnergyFeed)
        ensures
            r == EnergyFeed::empty_spec(),
    {
        EnergyFeed { stored: EnergyBands { low: 0, high: 0 }, pending: None }
    }

    /// Records a reading from the audio analysis; the last one before a draw wins.
    pub fn push_energy_bands(&mut self, low: u32, high: u32)
        ensures
            *final(self) == old(self).after_push(EnergyBands { low, high }),
    {
        self.pending = Some(EnergyBands { low, high });
    }

    /// The energies that the next draw hands to the shader.
    pub fn current(&self) -> (r: EnergyBands)
        ensures
            r == self.current_spec(),
    {
        match self.pending {
            Some(p) => EnergyBands { low: max_energy(p.low, self.stored.low), high: max_energy(p.high, self.stored.high) },
            None => self.stored,
        }
    }

    /// Consumes the feed for one draw: returns the energies of that draw and
    /// keeps them, decayed, for the next.
    pub fn consume(&mut self) -> (r: EnergyBands)
        ensures
            r == old(self).current_spec(),
            *final(self) == old(self).after_draw(),
    {
        let cur = self.current();
        self.stored = EnergyBands { low: decay_energy(cur.low), high: decay_energy(cur.high) };
        self.pending = None;
        cur
    }
}

fn max_energy(a: u32, b: u32) -> (r: u32)
    ensures
        r == max_u32(a, b),
{
    if a >= b {
        a
    } else {
        b
    }
}

fn decay_energy(e: u32) -> (r: u32)
    ensures
        r == decay_u32(e),
        r <= e,
{
    let num = DECAY_NUM as u64;
    let den = DECAY_DEN as u64;
    assert(num == 4 && den == 5);
    let r = (e as u64) * num / den;
    assert(r <= e) by (nonlinear_arith)
        requires
            r == (e as int) * 4 / 5,
            e >= 0,
    ;
    r as u32
}

/// A decayed energy follows the geometric sequence `e * (4/5)^k` from below,
/// never more than 4 units under it: `5^k * d <= 4^k * e < 5^k * (d + 4)`.
pub proof fn lemma_decay_tracks_geometric(e: nat, k: nat)
    ensures
        decayed(e as int, k) >= 0,
        pow(5, k) * decayed(e as int, k) <= pow(4, k) * e,
        pow(4, k) * e < pow(5, k) * (decayed(e as int, k) + 4),
    decreases k,
{
    if k == 0 {
        vstd::arithmetic::power::lemma_pow0(5);
        vstd::arithmetic::power::lemma_pow0(4);
    } else {
        let k1 = (k - 1) as nat;
        lemma_decay_tracks_geometric(e, k1);
        let d = decayed(e as int, k1);
        let d2 = decayed(e as int, k);
        let p5 = pow(5, k1);
        let p4 = pow(4, k1);
        assert(d2 == d * 4 / 5);
        assert(5 * d2 <= 4 * d && 4 * d <= 5 * d2 + 4);
        vstd::arithmetic::power::lemma_pow_positive(5, k1);
        vstd::arithmetic::power::lemma_pow_adds(5, 1, k1);
        vstd::arithmetic::power::lemma_pow_adds(4, 1, k1);
        vstd::arithmetic::power::lemma_pow1(5);
        vstd::arithmetic::power::lemma_pow1(4);
        assert(pow(5, k) == 5 * p5);
        assert(pow(4, k) == 4 * p4);
        assert(p5 * (5 * d2) <= p5 * (4 * d)) by (nonlinear_arith)
            requires
                5 * d2 <= 4 * d,
                p5 > 0,
        ;
        assert(5 * p5 * d2 <= 4 * p4 * e) by (nonlinear_arith)
            requires
                p5 * (5 * d2) <= p5 * (4 * d),
                p5 * d <= p4 * e,
        ;
        assert(4 * p4 * e < 5 * p5 * (d2 + 4)) by (nonlinear_arith)
            requires
                p4 * e < p5 * (d + 4),
                4 * d <= 5 * d2 + 4,
                p5 > 0,
        ;
        assert(d2 >= 0) by (nonlinear_arith)
            requires
                d >= 0,
                d2 == d * 4 / 5,
        ;
    }
}

/// Only the last of several readings that arrive before a draw reaches the
/// shader: a reading followed by another leaves the feed as the second alone.
pub proof fn lemma_last_reading_wins(feed: EnergyFeed, first: EnergyBands, second: EnergyBands)
    ensures
        feed.after_push(first).after_push(second) == feed.after_push(second),
        feed.after_push(first).after_push(second).current_spec() == second.max_spec(feed.stored),
{
}

/// A reading that is at least the stored energies, followed by `k >= 1` draws
/// with no further reading, leaves each band at the reading decayed `k` times,
/// which is within 4 units below `reading * (4/5)^k`.
pub proof fn lemma_reading_decays_geometrically(feed: EnergyFeed, b: EnergyBands, k: nat)
    requires
        feed.stored.low <= b.low,
        feed.stored.high <= b.high,
        k >= 1,
    ensures
        feed.after_push(b).after_draws(k).stored.low as int == decayed(b.low as int, k),
        feed.after_push(b).after_draws(k).stored.high as int == decayed(b.high as int, k),
        feed.after_push(b).after_draws(k).pending is None,
        pow(5, k) * decayed(b.low as int, k) <= pow(4, k) * b.low,
        pow(4, k) * b.low < pow(5, k) * (decayed(b.low as int, k) + 4),
        pow(5, k) * decayed(b.high as int, k) <= pow(4, k) * b.high,
        pow(4, k) * b.high < pow(5, k) * (decayed(b.high as int, k) + 4),
    decreases k,
{
    lemma_decay_tracks_geometric(b.low as nat, k);
    lemma_decay_tracks_geometric(b.high as nat, k);
    lemma_decay_stays_in_range(b.low as int, k);
    lemma_decay_stays_in_range(b.high as int, k);
    if k > 1 {
        lemma_reading_decays_geometrically(feed, b, (k - 1) as nat);
        lemma_decay_stays_in_range(b.low as int, (k - 1) as nat);
        lemma_decay_stays_in_range(b.high as int, (k - 1) as nat);
    }
}

proof fn lemma_decay_stays_in_range(e: int, k: nat)
    requires
        0 <= e <= u32::MAX,
    ensures
        0 <= decayed(e, k) <= e,
    decreases k,
{
    if k > 0 {
        lemma_decay_stays_in_range(e, (k - 1) as nat);
    }
}

} // verus!
