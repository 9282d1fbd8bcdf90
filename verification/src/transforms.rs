//! Delta and windowing transforms: cumulative readings become
//! per-interval deltas, index-aligned with their timestamps, in the record
//! shapes the charting collaborator consumes. Values stay in the fixed-point
//! millionths of the record; the unverified edge converts them for display.

use vstd::prelude::*;

verus! {

/// Largest reading magnitude the delta transforms accept; differences of
/// two readings within it cannot overflow an `i64`.
pub const READING_BOUND: i64 = 2_000_000_000_000_000_000;

/// One charted voltage sample: the three phases and their timestamp.
#[derive(Debug, PartialEq, Eq, Structural, Clone, Copy)]
pub struct VoltageData {
    pub phase_1: i64,
    pub phase_2: i64,
    pub phase_3: i64,
    pub timestamp: i64,
}

/// One charted current sample: the three phases and their timestamp.
#[derive(Debug, PartialEq, Eq, Structural, Clone, Copy)]
pub struct CurrentData {
    pub phase_1: i64,
    pub phase_2: i64,
    pub phase_3: i64,
    pub timestamp: i64,
}

/// One charted energy sample: produced and consumed deltas and their
/// timestamp.
#[derive(Debug, PartialEq, Eq, Structural, Clone, Copy)]
pub struct EnergyData {
    pub produced: i64,
    pub consumed: i64,
    pub timestamp: i64,
}

/// One charted water sample: the per-interval delta and its timestamp.
#[derive(Debug, PartialEq, Eq, Structural, Clone, Copy)]
pub struct WaterData {
    pub water_delta: u64,
    pub timestamp: i64,
}

/// One charted gas sample: the per-interval delta and its timestamp.
#[derive(Debug, PartialEq, Eq, Structural, Clone, Copy)]
pub struct GasData {
    pub gas_delta: i64,
    pub timestamp: i64,
}

pub open spec fn spec_min2(a: nat, b: nat) -> nat {
    if a <= b {
        a
    } else {
        b
    }
}

/// The voltage phase sequences zipped with the timestamps, up to the
/// shortest of the four.
pub open spec fn spec_vector_voltage(
    p1: Seq<i64>,
    p2: Seq<i64>,
    p3: Seq<i64>,
    ts: Seq<i64>,
) -> Seq<VoltageData> {
    let n = spec_min2(spec_min2(p1.len(), p2.len()), spec_min2(p3.len(), ts.len()));
    Seq::new(
        n,
        |i: int| VoltageData { phase_1: p1[i], phase_2: p2[i], phase_3: p3[i], timestamp: ts[i] },
    )
}

/// Zips the three voltage phases with the timestamps into chart samples.
pub fn vector_voltage(
    voltage_p1: Vec<i64>,
    voltage_p2: Vec<i64>,
    voltage_p3: Vec<i64>,
    time_stamp: Vec<i64>,
) -> (r: Vec<VoltageData>)
    ensures
        r@ == spec_vector_voltage(voltage_p1@, voltage_p2@, voltage_p3@, time_stamp@),
{
    let mut n = voltage_p1.len();
    if voltage_p2.len() < n {
        n = voltage_p2.len();
    }
    if voltage_p3.len() < n {
        n = voltage_p3.len();
    }
    if time_stamp.len() < n {
        n = time_stamp.len();
    }
    let ghost target = spec_vector_voltage(voltage_p1@, voltage_p2@, voltage_p3@, time_stamp@);
    let mut r: Vec<VoltageData> = Vec::new();
    let mut i: usize = 0;
    while i < n
        invariant
            n == spec_min2(
                spec_min2(voltage_p1@.len(), voltage_p2@.len()),
                spec_min2(voltage_p3@.len(), time_stamp@.len()),
            ),
            target == spec_vector_voltage(voltage_p1@, voltage_p2@, voltage_p3@, time_stamp@),
            i <= n,
            r@.len() == i,
            forall|j: int| 0 <= j < i ==> r@[j] == target[j],
        decreases n - i,
    {
        let data = VoltageData {
            phase_1: voltage_p1[i],
            phase_2: voltage_p2[i],
            phase_3: voltage_p3[i],
            timestamp: time_stamp[i],
        };
        r.push(data);
        i = i + 1;
    }
    proof {
        assert(r@ =~= target);
    }
    r
}

/// The current phase sequences zipped with the timestamps, up to the
/// shortest of the four.
pub open spec fn spec_vector_current(
    p1: Seq<i64>,
    p2: Seq<i64>,
    p3: Seq<i64>,
    ts: Seq<i64>,
) -> Seq<CurrentData> {
    let n = spec_min2(spec_min2(p1.len(), p2.len()), spec_min2(p3.len(), ts.len()));
    Seq::new(
        n,
        |i: int| CurrentData { phase_1: p1[i], phase_2: p2[i], phase_3: p3[i], timestamp: ts[i] },
    )
}

/// Zips the three current phases with the timestamps into chart samples.
pub fn vector_current(
    current_p1: Vec<i64>,
    current_p2: Vec<i64>,
    current_p3: Vec<i64>,
    time_stamp: Vec<i64>,
) -> (r: Vec<CurrentData>)
    ensures
        r@ == spec_vector_current(current_p1@, current_p2@, current_p3@, time_stamp@),
{
    let mut n = current_p1.len();
    if current_p2.len() < n {
        n = current_p2.len();
    }
    if current_p3.len() < n {
        n = current_p3.len();
    }
    if time_stamp.len() < n {
        n = time_stamp.len();
    }
    let ghost target = spec_vector_current(current_p1@, current_p2@, current_p3@, time_stamp@);
    let mut r: Vec<CurrentData> = Vec::new();
    let mut i: usize = 0;
    while i < n
        invariant
            n == spec_min2(
                spec_min2(current_p1@.len(), current_p2@.len()),
                spec_min2(current_p3@.len(), time_stamp@.len()),
            ),
            target == spec_vector_current(current_p1@, current_p2@, current_p3@, time_stamp@),
            i <= n,
            r@.len() == i,
            forall|j: int| 0 <= j < i ==> r@[j] == target[j],
        decreases n - i,
    {
        let data = CurrentData {
            phase_1: current_p1[i],
            phase_2: current_p2[i],
            phase_3: current_p3[i],
            timestamp: time_stamp[i],
        };
        r.push(data);
        i = i + 1;
    }
    proof {
        assert(r@ =~= target);
    }
    r
}

/// Water deltas over cumulative readings: the first sample's delta is
/// zero, later deltas are the difference of neighbouring readings; every
/// sample carries its own timestamp.
pub open spec fn spec_vector_water(w: Seq<u64>, ts: Seq<i64>) -> Seq<WaterData> {
    let n = spec_min2(w.len(), ts.len());
    Seq::new(
        n,
        |i: int| WaterData {
            water_delta: if i == 0 {
                0u64
            } else {
                (w[i] - w[i - 1]) as u64
            },
            timestamp: ts[i],
        },
    )
}

/// Converts cumulative water readings into per-interval deltas. The
/// readings are cumulative, so they must not decrease.
pub fn vector_water(water_consumed: Vec<u64>, time_stamp: Vec<i64>) -> (r: Vec<WaterData>)
    requires
        forall|i: int|
            1 <= i < water_consumed@.len() && i < time_stamp@.len() ==> water_consumed@[i - 1]
                <= #[trigger] water_consumed@[i],
    ensures
        r@ == spec_vector_water(water_consumed@, time_stamp@),
{
    let mut n = water_consumed.len();
    if time_stamp.len() < n {
        n = time_stamp.len();
    }
    let ghost target = spec_vector_water(water_consumed@, time_stamp@);
    let mut r: Vec<WaterData> = Vec::new();
    let mut i: usize = 0;
    while i < n
        invariant
            n == spec_min2(water_consumed@.len(), time_stamp@.len()),
            target == spec_vector_water(water_consumed@, time_stamp@),
            forall|k: int|
                1 <= k < water_consumed@.len() && k < time_stamp@.len() ==> water_consumed@[k - 1]
                    <= #[trigger] water_consumed@[k],
            i <= n,
            r@.len() == i,
            forall|j: int| 0 <= j < i ==> r@[j] == target[j],
        decreases n - i,
    {
        let delta: u64 = if i == 0 {
            0
        } else {
            water_consumed[i] - water_consumed[i - 1]
        };
        r.push(WaterData { water_delta: delta, timestamp: time_stamp[i] });
        i = i + 1;
    }
    proof {
        assert(r@ =~= target);
    }
    r
}

/// Gas deltas over cumulative readings: the first sample's delta is zero,
/// later deltas are the difference of neighbouring readings; every sample
/// carries its own timestamp.
pub open spec fn spec_vector_gas(g: Seq<i64>, ts: Seq<i64>) -> Seq<GasData> {
    let n = spec_min2(g.len(), ts.len());
    Seq::new(
        n,
        |i: int| GasData {
            gas_delta: if i == 0 {
                0i64
            } else {
                (g[i] - g[i - 1]) as i64
            },
            timestamp: ts[i],
        },
    )
}

/// Converts cumulative gas readings into per-interval deltas.
pub fn vector_gas(gas_consumed: Vec<i64>, time_stamp: Vec<i64>) -> (r: Vec<GasData>)
    requires
        forall|i: int|
            0 <= i < gas_consumed@.len() ==> -READING_BOUND <= #[trigger] gas_consumed@[i] <= READING_BOUND,
    ensures
        r@ == spec_vector_gas(gas_consumed@, time_stamp@),
{
    let mut n = gas_consumed.len();
    if time_stamp.len() < n {
        n = time_stamp.len();
    }
    let ghost target = spec_vector_gas(gas_consumed@, time_stamp@);
    let mut r: Vec<GasData> = Vec::new();
    let mut i: usize = 0;
    while i < n
        invariant
            n == spec_min2(gas_consumed@.len(), time_stamp@.len()),
            target == spec_vector_gas(gas_consumed@, time_stamp@),
            forall|k: int|
                0 <= k < gas_consumed@.len() ==> -READING_BOUND <= #[trigger] gas_consumed@[k]
                    <= READING_BOUND,
            i <= n,
            r@.len() == i,
            forall|j: int| 0 <= j < i ==> r@[j] == target[j],
        decreases n - i,
    {
        let delta: i64 = if i == 0 {
            0
        } else {
            gas_consumed[i] - gas_consumed[i - 1]
        };
        r.push(GasData { gas_delta: delta, timestamp: time_stamp[i] });
        i = i + 1;
    }
    proof {
        assert(r@ =~= target);
    }
    r
}

/// Energy deltas over cumulative produced and consumed readings: the
/// first sample's deltas are zero, later deltas are differences of
/// neighbouring readings; every sample carries its own timestamp.
pub open spec fn spec_vector_energy(p: Seq<i64>, c: Seq<i64>, ts: Seq<i64>) -> Seq<EnergyData> {
    let n = spec_min2(spec_min2(p.len(), c.len()), ts.len());
    Seq::new(
        n,
        |i: int| EnergyData {
            produced: if i == 0 {
                0i64
            } else {
                (p[i] - p[i - 1]) as i64
            },
            consumed: if i == 0 {
                0i64
            } else {
                (c[i] - c[i - 1]) as i64
            },
            timestamp: ts[i],
        },
    )
}

/// Converts cumulative energy readings into per-interval deltas for both
/// directions. Deltas pass through a sliding window of at most twelve
/// buffered samples — the oldest is flushed to the output once the window
/// is full — so the windowing shapes intermediate buffering only, never
/// the one-delta-per-input-sample output.
pub fn vector_energy(
    energy_produced: Vec<i64>,
    energy_consumed: Vec<i64>,
    time_stamp: Vec<i64>,
) -> (r: Vec<EnergyData>)
    requires
        forall|i: int|
            0 <= i < energy_produced@.len() ==> -READING_BOUND <= #[trigger] energy_produced@[i]
                <= READING_BOUND,
        forall|i: int|
            0 <= i < energy_consumed@.len() ==> -READING_BOUND <= #[trigger] energy_consumed@[i]
                <= READING_BOUND,
    ensures
        r@ == spec_vector_energy(energy_produced@, energy_consumed@, time_stamp@),
{
    let mut n = energy_produced.len();
    if energy_consumed.len() < n {
        n = energy_consumed.len();
    }
    if time_stamp.len() < n {
        n = time_stamp.len();
    }
    let ghost target = spec_vector_energy(energy_produced@, energy_consumed@, time_stamp@);
    let mut out: Vec<EnergyData> = Vec::new();
    let mut window: Vec<EnergyData> = Vec::new();
    let mut i: usize = 0;
    proof {
        assert(out@ + window@ =~= target.take(0));
    }
    while i < n
        invariant
            n == spec_min2(
                spec_min2(energy_produced@.len(), energy_consumed@.len()),
                time_stamp@.len(),
            ),
            target == spec_vector_energy(energy_produced@, energy_consumed@, time_stamp@),
            forall|k: int|
                0 <= k < energy_produced@.len() ==> -READING_BOUND <= #[trigger] energy_produced@[k]
                    <= READING_BOUND,
            forall|k: int|
                0 <= k < energy_consumed@.len() ==> -READING_BOUND <= #[trigger] energy_consumed@[k]
                    <= READING_BOUND,
            i <= n,
            window@.len() <= 12,
            out@ + window@ == target.take(i as int),
        decreases n - i,
    {
        let data = EnergyData {
            produced: if i == 0 {
                0
            } else {
                energy_produced[i] - energy_produced[i - 1]
            },
            consumed: if i == 0 {
                0
            } else {
                energy_consumed[i] - energy_consumed[i - 1]
            },
            timestamp: time_stamp[i],
        };
        proof {
            assert(data == target[i as int]);
            assert((out@ + window@).push(data) =~= out@ + window@.push(data));
            assert(target.take(i + 1) =~= target.take(i as int).push(data));
        }
        window.push(data);
        if window.len() > 12 {
            let ghost prev_out = out@;
            let ghost prev_win = window@;
            let oldest = window.remove(0);
            out.push(oldest);
            proof {
                assert(out@ + window@ =~= prev_out + prev_win);
            }
        }
        i = i + 1;
    }
    proof {
        assert(target.take(n as int) =~= target);
    }
    while window.len() > 0
        invariant
            out@ + window@ == target,
        decreases window@.len(),
    {
        let ghost prev_out = out@;
        let ghost prev_win = window@;
        let oldest = window.remove(0);
        out.push(oldest);
        proof {
            assert(out@ + window@ =~= prev_out + prev_win);
        }
    }
    proof {
        assert(out@ =~= out@ + window@);
    }
    out
}

} // verus!
