//! The SEIRDS derivative model: the step-scaled rate-of-change vector
//! for one region, including the additive intervention-measure total
//! read from delayed history.
//!
//! Scaling convention: the derivative returns deltas *already multiplied
//! by the step size*; the integrator's weighted sum must not multiply by
//! the step size again.

use vstd::prelude::*;
use crate::fixed::{
    SCALE, div_tz, add_c, sub_c, mul_c, div_c, divi_c, lift, value_of, add_fx, sub_fx, mul_fx,
    div_fx, divi_fx, lemma_div_magnitude,
};
use crate::history::{HistoryBuffer, delayed_spec};
use crate::params::{MeasurePolicy, SimulationParameters};
use crate::state::StateVector;

verus! {

/// Fixed-point per-day rate equivalent to a period of `days` days.
pub open spec fn period_rate(days: int) -> int
    recommends
        days >= 1,
{
    (SCALE as int) / days
}

/// The recovery rate (infectious to recovered or dead).
pub open spec fn recovery_rate(p: SimulationParameters) -> int {
    period_rate(p.sickness_period_in_days as int)
}

/// The incubation rate (exposed to infectious).
pub open spec fn incubation_rate(p: SimulationParameters) -> int {
    period_rate(p.incubation_period_in_days as int)
}

/// The immunity-waning rate (recovered back to susceptible).
pub open spec fn waning_rate(p: SimulationParameters) -> int {
    period_rate(p.immunity_waning_period_in_days as int)
}

/// Executable counterpart of [`period_rate`].
pub fn per_day_rate(days: usize) -> (r: i64)
    requires
        1 <= days,
    ensures
        r == period_rate(days as int),
        0 <= r <= SCALE,
{
    let q: u64 = (SCALE as u64) / (days as u64);
    proof {
        lemma_div_magnitude(SCALE as int, days as int);
    }
    q as i64
}

/// How many whole steps of size `h` a delayed lookup reaches back when
/// the delay horizon is `days` days: the floor of their ratio.  Fails
/// when the step size is not positive or the horizon does not fit the
/// machine word.
pub open spec fn lookup_steps(days: int, h: int) -> Option<int> {
    if h <= 0 || days * (SCALE as int) > u64::MAX as int {
        None
    } else {
        Some(div_tz(days * (SCALE as int), h))
    }
}

/// The abstract value of an executable step count.
pub open spec fn steps_of(r: Option<u64>) -> Option<int> {
    match r {
        Some(v) => Some(v as int),
        None => None,
    }
}

/// Executable counterpart of [`lookup_steps`].
pub fn lookup_steps_fx(days: usize, h: i64) -> (r: Option<u64>)
    ensures
        steps_of(r) == lookup_steps(days as int, h as int),
{
    if h <= 0 {
        return None;
    }
    let delay: u64 = match (days as u64).checked_mul(SCALE as u64) {
        Some(v) => v,
        None => {
            return None;
        },
    };
    Some(delay / (h as u64))
}

/// What one measure contributes: the delayed state one incubation
/// period back decides whether the measure fires at its severity or
/// contributes nothing.  A failure is a meaningless step size, a lookup
/// distance the trajectory cannot answer, or arithmetic leaving the
/// carrier.
pub open spec fn measure_c(
    m: MeasurePolicy,
    p: SimulationParameters,
    hist: Seq<StateVector>,
    h: int,
) -> Option<int> {
    match lookup_steps(p.incubation_period_in_days as int, h) {
        None => None,
        Some(ds) => match delayed_spec(hist, ds) {
            None => None,
            Some(past) => match m {
                MeasurePolicy::HandWashing => Some(
                    if past.infectious > div_tz(past.population as int, 100) {
                        100_000_000int
                    } else {
                        0int
                    },
                ),
                MeasurePolicy::HospitalLoadTier { threshold, severity } => match mul_c(
                    lift(threshold),
                    lift(p.max_hospital_capacity),
                ) {
                    None => None,
                    Some(fire_at) => Some(
                        if past.hospitalized >= fire_at {
                            severity as int
                        } else {
                            0int
                        },
                    ),
                },
            },
        },
    }
}

/// The additive total of the first `n` measures, in order.
pub open spec fn measures_total_upto(
    ms: Seq<MeasurePolicy>,
    p: SimulationParameters,
    hist: Seq<StateVector>,
    h: int,
    n: int,
) -> Option<int>
    decreases n,
{
    if n <= 0 {
        Some(0)
    } else {
        add_c(measures_total_upto(ms, p, hist, h, n - 1), measure_c(ms[n - 1], p, hist, h))
    }
}

/// The additive total of all attached measures.
pub open spec fn measures_total_c(
    ms: Seq<MeasurePolicy>,
    p: SimulationParameters,
    hist: Seq<StateVector>,
    h: int,
) -> Option<int> {
    measures_total_upto(ms, p, hist, h, ms.len() as int)
}

/// Once a prefix of the measure total has failed, every longer prefix
/// has failed too.
proof fn lemma_total_none_sticks(
    ms: Seq<MeasurePolicy>,
    p: SimulationParameters,
    hist: Seq<StateVector>,
    h: int,
    i: int,
    j: int,
)
    requires
        0 <= i <= j,
        measures_total_upto(ms, p, hist, h, i) is None,
    ensures
        measures_total_upto(ms, p, hist, h, j) is None,
    decreases j - i,
{
    if i < j {
        lemma_total_none_sticks(ms, p, hist, h, i, j - 1);
    }
}

impl MeasurePolicy {
    /// Evaluates this measure against the delayed history, as
    /// [`measure_c`].
    pub fn evaluate(
        &self,
        p: &SimulationParameters,
        _previous: &StateVector,
        history: &HistoryBuffer,
        _time: i64,
        h: i64,
    ) -> (r: Option<i64>)
        ensures
            value_of(r) == measure_c(*self, *p, history@, h as int),
    {
        let ds: u64 = match lookup_steps_fx(p.incubation_period_in_days, h) {
            Some(v) => v,
            None => {
                return None;
            },
        };
        let past: StateVector = match history.delayed(ds) {
            Some(v) => v,
            None => {
                return None;
            },
        };
        match self {
            MeasurePolicy::HandWashing => {
                let hundredth: i64 = match divi_fx(past.population, 100) {
                    Some(v) => v,
                    None => {
                        // A positive plain divisor cannot fail.
                        proof {
                            assert(false);
                        }
                        return None;
                    },
                };
                if past.infectious > hundredth {
                    Some(100_000_000)
                } else {
                    Some(0)
                }
            },
            MeasurePolicy::HospitalLoadTier { threshold, severity } => {
                let fire_at: i64 = match mul_fx(*threshold, p.max_hospital_capacity) {
                    Some(v) => v,
                    None => {
                        return None;
                    },
                };
                if past.hospitalized >= fire_at {
                    Some(*severity)
                } else {
                    Some(0)
                }
            },
        }
    }
}

/// The additive measure total, as [`measures_total_c`].
pub fn measures_change(
    p: &SimulationParameters,
    previous: &StateVector,
    history: &HistoryBuffer,
    time: i64,
    h: i64,
) -> (r: Option<i64>)
    ensures
        value_of(r) == measures_total_c(p.measures@, *p, history@, h as int),
{
    let ghost ms = p.measures@;
    let mut acc: i64 = 0;
    let n: usize = p.measures.len();
    let mut i: usize = 0;
    while i < n
        invariant
            0 <= i <= n,
            n == ms.len(),
            ms == p.measures@,
            Some(acc as int) == measures_total_upto(ms, *p, history@, h as int, i as int),
        decreases n - i,
    {
        let m: MeasurePolicy = p.measures[i];
        let v: i64 = match m.evaluate(p, previous, history, time, h) {
            Some(v) => v,
            None => {
                proof {
                    lemma_total_none_sticks(ms, *p, history@, h as int, i + 1, n as int);
                }
                return None;
            },
        };
        let acc2: i64 = match acc.checked_add(v) {
            Some(v2) => v2,
            None => {
                proof {
                    lemma_total_none_sticks(ms, *p, history@, h as int, i + 1, n as int);
                }
                return None;
            },
        };
        acc = acc2;
        i = i + 1;
    }
    Some(acc)
}

/// Transmission rate after measures: `r_naught * recovery_rate`
/// reduced by the measure total `mc` through `1 - mc`.
pub open spec fn effective_rate_c(p: SimulationParameters, mc: Option<int>) -> Option<int> {
    mul_c(mul_c(lift(p.r_naught), Some(recovery_rate(p))), sub_c(Some(SCALE as int), mc))
}

/// New infections: `effective_rate * S * (I / P)`.  Fails when the
/// population is not strictly positive.
pub open spec fn infection_term_c(
    p: SimulationParameters,
    st: StateVector,
    mc: Option<int>,
) -> Option<int> {
    mul_c(
        mul_c(effective_rate_c(p, mc), lift(st.susceptible)),
        div_c(lift(st.infectious), lift(st.population)),
    )
}

/// `dS = birth*P - death*S - effective*S*(I/P) + waning*R`.
pub open spec fn d_susceptible_c(
    p: SimulationParameters,
    st: StateVector,
    mc: Option<int>,
) -> Option<int> {
    add_c(
        sub_c(
            sub_c(
                mul_c(lift(p.natural_birth_rate), lift(st.population)),
                mul_c(lift(p.natural_death_rate), lift(st.susceptible)),
            ),
            infection_term_c(p, st, mc),
        ),
        mul_c(Some(waning_rate(p)), lift(st.recovered)),
    )
}

/// `dE = effective*S*(I/P) - incubation*E - death*E`.
pub open spec fn d_exposed_c(
    p: SimulationParameters,
    st: StateVector,
    mc: Option<int>,
) -> Option<int> {
    sub_c(
        sub_c(
            infection_term_c(p, st, mc),
            mul_c(Some(incubation_rate(p)), lift(st.exposed)),
        ),
        mul_c(lift(p.natural_death_rate), lift(st.exposed)),
    )
}

/// `dI = incubation*E - recovery*I - death*I`.
pub open spec fn d_infectious_c(p: SimulationParameters, st: StateVector) -> Option<int> {
    sub_c(
        sub_c(
            mul_c(Some(incubation_rate(p)), lift(st.exposed)),
            mul_c(Some(recovery_rate(p)), lift(st.infectious)),
        ),
        mul_c(lift(p.natural_death_rate), lift(st.infectious)),
    )
}

/// `dR = recovery*I*(1 - mortality) - death*R - waning*R`.
pub open spec fn d_recovered_c(p: SimulationParameters, st: StateVector) -> Option<int> {
    sub_c(
        sub_c(
            mul_c(
                mul_c(Some(recovery_rate(p)), lift(st.infectious)),
                sub_c(Some(SCALE as int), lift(p.mortality_rate)),
            ),
            mul_c(lift(p.natural_death_rate), lift(st.recovered)),
        ),
        mul_c(Some(waning_rate(p)), lift(st.recovered)),
    )
}

/// `dD = recovery*I*mortality + death*(S + E + I + R)`.
pub open spec fn d_dead_c(p: SimulationParameters, st: StateVector) -> Option<int> {
    add_c(
        mul_c(mul_c(Some(recovery_rate(p)), lift(st.infectious)), lift(p.mortality_rate)),
        mul_c(
            lift(p.natural_death_rate),
            add_c(
                add_c(add_c(lift(st.susceptible), lift(st.exposed)), lift(st.infectious)),
                lift(st.recovered),
            ),
        ),
    )
}

/// `dP = birth*P - death*P - recovery*I*mortality`.
pub open spec fn d_population_c(p: SimulationParameters, st: StateVector) -> Option<int> {
    sub_c(
        sub_c(
            mul_c(lift(p.natural_birth_rate), lift(st.population)),
            mul_c(lift(p.natural_death_rate), lift(st.population)),
        ),
        mul_c(mul_c(Some(recovery_rate(p)), lift(st.infectious)), lift(p.mortality_rate)),
    )
}

/// `dH = (incubation*E - recovery*I - death*I) * hospitalization`.
pub open spec fn d_hospitalized_c(p: SimulationParameters, st: StateVector) -> Option<int> {
    mul_c(d_infectious_c(p, st), lift(p.hospitalization_rate))
}

/// The whole step-scaled delta vector: each compartment's derivative,
/// multiplied once by the step size `h`.  Fails exactly when any
/// component's computation fails.  Opaque: proofs that need the
/// component formulas reveal it.
#[verifier::opaque]
pub open spec fn deltas_c(
    p: SimulationParameters,
    st: StateVector,
    hist: Seq<StateVector>,
    h: int,
) -> Option<StateVector> {
    let mc = measures_total_c(p.measures@, p, hist, h);
    let s1 = mul_c(d_susceptible_c(p, st, mc), Some(h));
    let s2 = mul_c(d_exposed_c(p, st, mc), Some(h));
    let s3 = mul_c(d_infectious_c(p, st), Some(h));
    let s4 = mul_c(d_recovered_c(p, st), Some(h));
    let s5 = mul_c(d_dead_c(p, st), Some(h));
    let s6 = mul_c(d_population_c(p, st), Some(h));
    let s7 = mul_c(d_hospitalized_c(p, st), Some(h));
    if s1 is Some && s2 is Some && s3 is Some && s4 is Some && s5 is Some && s6 is Some && s7
        is Some {
        Some(
            StateVector {
                susceptible: s1.unwrap() as i64,
                exposed: s2.unwrap() as i64,
                infectious: s3.unwrap() as i64,
                recovered: s4.unwrap() as i64,
                dead: s5.unwrap() as i64,
                population: s6.unwrap() as i64,
                hospitalized: s7.unwrap() as i64,
            },
        )
    } else {
        None
    }
}

/// Computes the step-scaled rate-of-change vector for one region, as
/// [`deltas_c`]: the measure total from delayed history first, then the
/// seven compartment derivatives, each multiplied once by `h`.
pub fn rate_of_change_with_time(
    p: &SimulationParameters,
    previous: &StateVector,
    history: &HistoryBuffer,
    time: i64,
    h: i64,
) -> (r: Option<StateVector>)
    requires
        p.wf(),
    ensures
        r == deltas_c(*p, *previous, history@, h as int),
{
    proof {
        reveal(deltas_c);
    }
    let mc: i64 = match measures_change(p, previous, history, time, h) {
        Some(v) => v,
        None => {
            return None;
        },
    };
    let recovery: i64 = per_day_rate(p.sickness_period_in_days);
    let incubation: i64 = per_day_rate(p.incubation_period_in_days);
    let waning: i64 = per_day_rate(p.immunity_waning_period_in_days);

    let one_minus_m: i64 = sub_fx(SCALE, mc)?;
    let eff0: i64 = mul_fx(p.r_naught, recovery)?;
    let eff: i64 = mul_fx(eff0, one_minus_m)?;
    let i_over_p: i64 = div_fx(previous.infectious, previous.population)?;
    let eff_s: i64 = mul_fx(eff, previous.susceptible)?;
    let infect: i64 = mul_fx(eff_s, i_over_p)?;

    let b_pop: i64 = mul_fx(p.natural_birth_rate, previous.population)?;
    let d_sus: i64 = mul_fx(p.natural_death_rate, previous.susceptible)?;
    let w_rec: i64 = mul_fx(waning, previous.recovered)?;
    let ds_raw: i64 = add_fx(sub_fx(sub_fx(b_pop, d_sus)?, infect)?, w_rec)?;

    let inc_exp: i64 = mul_fx(incubation, previous.exposed)?;
    let d_exp: i64 = mul_fx(p.natural_death_rate, previous.exposed)?;
    let de_raw: i64 = sub_fx(sub_fx(infect, inc_exp)?, d_exp)?;

    let rec_inf: i64 = mul_fx(recovery, previous.infectious)?;
    let d_inf: i64 = mul_fx(p.natural_death_rate, previous.infectious)?;
    let di_raw: i64 = sub_fx(sub_fx(inc_exp, rec_inf)?, d_inf)?;

    let one_minus_mort: i64 = sub_fx(SCALE, p.mortality_rate)?;
    let surviving: i64 = mul_fx(rec_inf, one_minus_mort)?;
    let d_rec: i64 = mul_fx(p.natural_death_rate, previous.recovered)?;
    let dr_raw: i64 = sub_fx(sub_fx(surviving, d_rec)?, w_rec)?;

    let ri_mort: i64 = mul_fx(rec_inf, p.mortality_rate)?;
    let seir: i64 = add_fx(
        add_fx(add_fx(previous.susceptible, previous.exposed)?, previous.infectious)?,
        previous.recovered,
    )?;
    let d_all: i64 = mul_fx(p.natural_death_rate, seir)?;
    let dd_raw: i64 = add_fx(ri_mort, d_all)?;

    let d_pop: i64 = mul_fx(p.natural_death_rate, previous.population)?;
    let dp_raw: i64 = sub_fx(sub_fx(b_pop, d_pop)?, ri_mort)?;

    let dh_raw: i64 = mul_fx(di_raw, p.hospitalization_rate)?;

    Some(
        StateVector {
            susceptible: mul_fx(ds_raw, h)?,
            exposed: mul_fx(de_raw, h)?,
            infectious: mul_fx(di_raw, h)?,
            recovered: mul_fx(dr_raw, h)?,
            dead: mul_fx(dd_raw, h)?,
            population: mul_fx(dp_raw, h)?,
            hospitalized: mul_fx(dh_raw, h)?,
        },
    )
}

} // verus!
