use seirds::errors::SimError;
use seirds::history::HistoryBuffer;
use seirds::integrator::{make_history, rk4_impl, DelayAwareIntegrator};
use seirds::model::{measures_change, rate_of_change_with_time};
use seirds::params::{
    hand_washing, social_distancing, soft_lock_down, MeasurePolicy, SimulationParameters,
};
use seirds::state::StateVector;

const SCALE: i64 = 1_000_000_000;

fn quiet_params() -> SimulationParameters {
    SimulationParameters {
        time_span_in_days: 2,
        initial_population: 1000 * SCALE,
        initial_spreaders: 0,
        natural_birth_rate: 0,
        natural_death_rate: 0,
        sickness_period_in_days: 10,
        incubation_period_in_days: 10,
        immunity_waning_period_in_days: 100,
        mortality_rate: SCALE / 10,
        r_naught: 2 * SCALE,
        hospitalization_rate: SCALE / 10,
        max_hospital_capacity: 1250 * SCALE,
        traffic_rate: 0,
        measures: vec![],
    }
}

fn state(s: i64, e: i64, i: i64, r: i64, d: i64, p: i64, h: i64) -> StateVector {
    StateVector {
        susceptible: s,
        exposed: e,
        infectious: i,
        recovered: r,
        dead: d,
        population: p,
        hospitalized: h,
    }
}

#[test]
fn derivative_matches_hand_computed_values() {
    let p = quiet_params();
    let history: HistoryBuffer = make_history(&p, SCALE).unwrap();
    let st = state(
        900 * SCALE,
        50 * SCALE,
        40 * SCALE,
        10 * SCALE,
        0,
        1000 * SCALE,
        0,
    );
    // With recovery = incubation = 0.1 and waning = 0.01 per day:
    //   infections   = 2.0 * 0.1 * 900 * (40/1000)   = 7.2
    //   dS = -7.2 + 0.01*10                          = -7.1
    //   dE = 7.2 - 0.1*50                            =  2.2
    //   dI = 0.1*50 - 0.1*40                         =  1.0
    //   dR = 0.1*40*0.9 - 0.01*10                    =  3.5
    //   dD = 0.1*40*0.1                              =  0.4
    //   dP = -0.4, dH = 1.0*0.1                      =  0.1
    let r = rate_of_change_with_time(&p, &st, &history, 0, SCALE);
    assert_eq!(
        r,
        Some(state(
            -7_100_000_000,
            2_200_000_000,
            1_000_000_000,
            3_500_000_000,
            400_000_000,
            -400_000_000,
            100_000_000,
        ))
    );
}

#[test]
fn zero_step_size_returns_unchanged_state() {
    let p = quiet_params();
    let history = make_history(&p, SCALE).unwrap();
    let current = history.current();
    let r = rk4_impl(&p, &current, &history, 0, 0);
    assert_eq!(r, Some(current));
}

#[test]
fn zero_rates_hold_state_constant_across_run() {
    let mut p = quiet_params();
    p.r_naught = 0;
    p.time_span_in_days = 2;
    let mut it = DelayAwareIntegrator::new(p, SCALE / 10).unwrap();
    it.integrate().unwrap();
    let (series, _) = it.into_series();
    assert_eq!(series.len(), 20);
    // The padding is stripped: the series opens with the seeded
    // initial state, and nothing ever changes it.
    let seeded = state(1000 * SCALE, 0, 0, 0, 0, 1000 * SCALE, 0);
    for st in &series {
        assert_eq!(*st, seeded);
    }
}

#[test]
fn delayed_lookup_before_horizon_reads_padding() {
    let mut p = quiet_params();
    p.incubation_period_in_days = 7;
    // Step size 0.1 day: the lookup reaches 70 steps back, the padding
    // holds 71 entries.
    let mut history = make_history(&p, SCALE / 10).unwrap();
    assert_eq!(history.padding_len(), 71);
    assert_eq!(history.len(), 72);
    let before = history.repeating_before();
    assert_eq!(history.delayed(70), Some(before));
    let marker = state(1, 2, 3, 4, 5, 6, 7);
    history.push(marker);
    history.push(marker);
    history.push(marker);
    // Still strictly before the delay horizon: the padded value.
    assert_eq!(history.delayed(70), Some(before));
    // Too short or too long a reach is answered with nothing.
    assert_eq!(history.delayed(0), None);
    let len = history.len() as u64;
    assert_eq!(history.delayed(len), None);
}

#[test]
fn hand_washing_fires_on_delayed_infections() {
    let mut p = quiet_params();
    p.incubation_period_in_days = 1;
    let mut history = make_history(&p, SCALE).unwrap();
    let current = history.current();
    // The delayed entry is still padding: nobody infectious.
    assert_eq!(
        hand_washing().evaluate(&p, &current, &history, 0, SCALE),
        Some(0)
    );
    let outbreak = state(900 * SCALE, 0, 50 * SCALE, 0, 0, 1000 * SCALE, 0);
    history.push(outbreak);
    history.push(outbreak);
    // Now the entry one day back has 50 of 1000 infectious: above the
    // one-percent trigger, so the measure fires at a tenth.
    assert_eq!(
        hand_washing().evaluate(&p, &current, &history, 0, SCALE),
        Some(SCALE / 10)
    );
}

#[test]
fn lockdown_tier_fires_on_delayed_hospital_load() {
    let mut p = quiet_params();
    p.incubation_period_in_days = 1;
    let mut history = make_history(&p, SCALE).unwrap();
    let current = history.current();
    let strained = state(0, 0, 0, 0, 0, 1000 * SCALE, 400 * SCALE);
    history.push(strained);
    history.push(strained);
    // 400 of 1250 beds: past the 30% tier, short of the 60% one.
    assert_eq!(
        soft_lock_down().evaluate(&p, &current, &history, 0, SCALE),
        Some(400_000_000)
    );
    let tight = MeasurePolicy::HospitalLoadTier {
        threshold: 600_000_000,
        severity: 200_000_000,
    };
    assert_eq!(tight.evaluate(&p, &current, &history, 0, SCALE), Some(0));
}

#[test]
fn hand_washing_trigger_is_strict() {
    let mut p = quiet_params();
    p.incubation_period_in_days = 1;
    let mut history = make_history(&p, SCALE).unwrap();
    let current = history.current();
    // Exactly one percent of the population infectious: not *above*
    // the threshold, so the measure stays quiet.
    let boundary = state(0, 0, 10 * SCALE, 0, 0, 1000 * SCALE, 0);
    history.push(boundary);
    history.push(boundary);
    assert_eq!(
        hand_washing().evaluate(&p, &current, &history, 0, SCALE),
        Some(0)
    );
}

#[test]
fn lockdown_tier_trigger_is_inclusive() {
    let mut p = quiet_params();
    p.incubation_period_in_days = 1;
    let mut history = make_history(&p, SCALE).unwrap();
    let current = history.current();
    // Exactly ten percent of the 1250-bed capacity hospitalized:
    // social distancing fires at its threshold.
    let boundary = state(0, 0, 0, 0, 0, 1000 * SCALE, 125 * SCALE);
    history.push(boundary);
    history.push(boundary);
    assert_eq!(
        social_distancing().evaluate(&p, &current, &history, 0, SCALE),
        Some(100_000_000)
    );
}

#[test]
fn measures_compose_additively() {
    let mut p = quiet_params();
    p.incubation_period_in_days = 1;
    p.measures = vec![hand_washing(), social_distancing()];
    let mut history = make_history(&p, SCALE).unwrap();
    let current = history.current();
    let bad = state(900 * SCALE, 0, 50 * SCALE, 0, 0, 1000 * SCALE, 200 * SCALE);
    history.push(bad);
    history.push(bad);
    // Hand washing fires (5% infectious) and social distancing fires
    // (200 of 1250 beds is past its 10% threshold): 0.1 + 0.1.
    assert_eq!(
        measures_change(&p, &current, &history, 0, SCALE),
        Some(200_000_000)
    );
}

#[test]
fn integrator_rejects_non_positive_step() {
    assert_eq!(
        DelayAwareIntegrator::new(quiet_params(), 0).err(),
        Some(SimError::InvalidStepSize)
    );
    assert_eq!(
        DelayAwareIntegrator::new(quiet_params(), -5).err(),
        Some(SimError::InvalidStepSize)
    );
}

#[test]
fn integrator_rejects_unrepresentable_horizon() {
    let mut p = quiet_params();
    p.incubation_period_in_days = usize::MAX;
    assert_eq!(
        DelayAwareIntegrator::new(p, SCALE).err(),
        Some(SimError::Overflow)
    );
}

#[test]
fn vanished_population_halts_the_run() {
    let mut p = quiet_params();
    p.initial_population = 0;
    let mut it = DelayAwareIntegrator::new(p, SCALE).unwrap();
    assert_eq!(it.integrate(), Err(SimError::StepFailed));
}
