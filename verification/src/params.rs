//! Per-region simulation parameters and intervention measures.

use vstd::prelude::*;

verus! {

/// A pluggable intervention measure.  Each measure inspects *delayed*
/// history — the state one incubation period back — and contributes a
/// non-negative fixed-point reduction that all attached measures add up
/// into one total, which scales the base transmission rate by
/// `1 - total`.
#[derive(Clone, Copy, Debug, PartialEq, Eq, Structural)]
pub enum MeasurePolicy {
    /// Fires at a low fixed severity (a tenth) once the delayed
    /// infectious count exceeds one percent of the delayed population.
    HandWashing,
    /// Fires at `severity` once the delayed hospitalized count reaches
    /// `threshold` (a fixed-point fraction) of the maximum hospital
    /// capacity.
    HospitalLoadTier { threshold: i64, severity: i64 },
}

/// The hand-washing measure: low fixed severity, triggered by the
/// delayed infectious count passing one percent of the population.
pub fn hand_washing() -> (m: MeasurePolicy)
    ensures
        m == MeasurePolicy::HandWashing,
{
    MeasurePolicy::HandWashing
}

/// Social distancing: a mild reduction once delayed hospitalizations
/// reach a tenth of the maximum hospital capacity.
pub fn social_distancing() -> (m: MeasurePolicy)
    ensures
        m == (MeasurePolicy::HospitalLoadTier {
            threshold: 100_000_000i64,
            severity: 100_000_000i64,
        }),
{
    MeasurePolicy::HospitalLoadTier { threshold: 100_000_000, severity: 100_000_000 }
}

/// A soft lockdown: a strong reduction once delayed hospitalizations
/// reach three tenths of the maximum hospital capacity.
pub fn soft_lock_down() -> (m: MeasurePolicy)
    ensures
        m == (MeasurePolicy::HospitalLoadTier {
            threshold: 300_000_000i64,
            severity: 400_000_000i64,
        }),
{
    MeasurePolicy::HospitalLoadTier { threshold: 300_000_000, severity: 400_000_000 }
}

/// A hard lockdown: a further reduction, on top of the softer tiers,
/// once delayed hospitalizations reach six tenths of the maximum
/// hospital capacity.
pub fn hard_lock_down() -> (m: MeasurePolicy)
    ensures
        m == (MeasurePolicy::HospitalLoadTier {
            threshold: 600_000_000i64,
            severity: 200_000_000i64,
        }),
{
    MeasurePolicy::HospitalLoadTier { threshold: 600_000_000, severity: 200_000_000 }
}

/// One region's bundle of rate constants, horizons and measures.
/// Built once before integration and immutable during a run.
///
/// People counts (`initial_population`, `initial_spreaders`,
/// `max_hospital_capacity`) and rates are fixed-point scalars; periods
/// and the time span are plain day counts.
#[derive(Clone, Debug)]
pub struct SimulationParameters {
    pub time_span_in_days: usize,
    pub initial_population: i64,
    pub initial_spreaders: i64,
    pub natural_birth_rate: i64,
    pub natural_death_rate: i64,
    pub sickness_period_in_days: usize,
    pub incubation_period_in_days: usize,
    pub immunity_waning_period_in_days: usize,
    pub mortality_rate: i64,
    pub r_naught: i64,
    pub hospitalization_rate: i64,
    pub max_hospital_capacity: i64,
    pub traffic_rate: i64,
    pub measures: Vec<MeasurePolicy>,
}

impl SimulationParameters {
    /// Well-formedness: the three disease periods serve as rate
    /// divisors, so each must span at least one day.
    pub open spec fn wf(&self) -> bool {
        &&& 1 <= self.sickness_period_in_days
        &&& 1 <= self.incubation_period_in_days
        &&& 1 <= self.immunity_waning_period_in_days
    }

    /// Executable counterpart of [`Self::wf`], for callers that must
    /// validate parameters they did not construct themselves.
    pub fn check_wf(&self) -> (r: bool)
        ensures
            r == self.wf(),
    {
        1 <= self.sickness_period_in_days && 1 <= self.incubation_period_in_days && 1
            <= self.immunity_waning_period_in_days
    }
}

} // verus!
