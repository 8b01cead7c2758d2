use seirds::errors::SimError;
use seirds::graph::{ProvinceData, ProvinceGraph};
use seirds::integrator::DelayAwareIntegrator;
use seirds::params::SimulationParameters;
use seirds::sim::simulate;

const SCALE: i64 = 1_000_000_000;

fn outbreak_params() -> SimulationParameters {
    SimulationParameters {
        time_span_in_days: 365,
        initial_population: 1000 * SCALE,
        initial_spreaders: SCALE,
        natural_birth_rate: 0,
        natural_death_rate: 0,
        sickness_period_in_days: 7,
        incubation_period_in_days: 7,
        // Long enough that immunity effectively never wanes.
        immunity_waning_period_in_days: 2_000_000_000,
        mortality_rate: 30_000_000,
        r_naught: 2_500_000_000,
        hospitalization_rate: SCALE / 10,
        max_hospital_capacity: 1250 * SCALE,
        traffic_rate: 0,
        measures: vec![],
    }
}

#[test]
fn epidemic_wave_in_isolated_region() {
    // One region, 1000 people, one initial spreader, R0 = 2.5, a week
    // each of incubation and disease, 3% mortality, step 0.1 day for a
    // year.
    let mut it = DelayAwareIntegrator::new(outbreak_params(), SCALE / 10).unwrap();
    it.integrate().unwrap();
    let (series, p) = it.into_series();
    assert_eq!(p.time_span_in_days, 365);
    assert_eq!(series.len(), 3650);

    // The infectious count must rise above the single initial
    // spreader within the first 60 days.
    let first_60_days = &series[..600];
    let peak_60 = first_60_days.iter().map(|s| s.infectious).max().unwrap();
    assert!(peak_60 > SCALE, "no outbreak within 60 days: {peak_60}");

    // It must eventually decline well below its overall peak.
    let peak = series.iter().map(|s| s.infectious).max().unwrap();
    let last = series.last().unwrap();
    assert!(peak > 50 * SCALE, "peak too small: {peak}");
    assert!(
        last.infectious < peak / 10,
        "no decline: last {} vs peak {}",
        last.infectious,
        peak
    );

    // Recovered plus dead approach the bulk of the population.
    assert!(
        last.recovered + last.dead > 700 * SCALE,
        "epidemic did not burn through: {}",
        last.recovered + last.dead
    );

    // The population trajectory stays positive throughout.
    for st in &series {
        assert!(st.population > 0);
    }
}

#[test]
fn population_and_dead_account_exactly_without_vital_dynamics() {
    // With no births and no natural deaths, what the population loses
    // is exactly what the dead compartment gains: the two tracks obey
    // population + dead == initial population at every step, while the
    // compartment sum may drift from the population by truncation
    // only.
    let mut it = DelayAwareIntegrator::new(outbreak_params(), SCALE / 10).unwrap();
    it.integrate().unwrap();
    let (series, _) = it.into_series();
    for st in &series {
        assert_eq!(st.population + st.dead, 1000 * SCALE);
    }
    let last = series.last().unwrap();
    let compartment_sum =
        last.susceptible + last.exposed + last.infectious + last.recovered + last.dead;
    let drift = (compartment_sum - 1000 * SCALE).abs();
    assert!(drift < SCALE / 10, "truncation drift too large: {drift}");
}

#[test]
fn simulate_single_isolated_region_matches_integrator() {
    let data = vec![ProvinceData {
        name: "Island".to_string(),
        population: 1000,
        density_per_square_km: 100,
        connected_provinces: vec![],
    }];
    let g = ProvinceGraph::from(data).unwrap();
    let params = vec![outbreak_params()];
    let joint = simulate(&g, &params, SCALE / 10).unwrap();
    assert_eq!(joint.len(), 1);

    let mut it = DelayAwareIntegrator::new(outbreak_params(), SCALE / 10).unwrap();
    it.integrate().unwrap();
    let (alone, _) = it.into_series();
    assert_eq!(joint[0], alone);
}

#[test]
fn simulate_two_coupled_regions_spread_disease() {
    let data = vec![
        ProvinceData {
            name: "Seed".to_string(),
            population: 1000,
            density_per_square_km: 100,
            connected_provinces: vec!["Clear".to_string()],
        },
        ProvinceData {
            name: "Clear".to_string(),
            population: 1000,
            density_per_square_km: 100,
            connected_provinces: vec!["Seed".to_string()],
        },
    ];
    let g = ProvinceGraph::from(data).unwrap();
    let mut seeded = outbreak_params();
    seeded.time_span_in_days = 120;
    seeded.traffic_rate = 50_000_000;
    let mut clear = seeded.clone();
    clear.initial_spreaders = 0;
    let series = simulate(&g, &vec![seeded, clear], SCALE / 10).unwrap();
    assert_eq!(series.len(), 2);
    // The region seeded with nobody exposed catches the disease
    // through traffic coupling alone.
    let clear_peak = series[1].iter().map(|s| s.infectious).max().unwrap();
    assert!(clear_peak > SCALE, "no spread into the clear region: {clear_peak}");
}

#[test]
fn simulate_rejects_non_positive_step() {
    let g = ProvinceGraph::from(vec![]).unwrap();
    assert_eq!(simulate(&g, &vec![], 0).err(), Some(SimError::InvalidStepSize));
}

#[test]
fn simulate_empty_graph_yields_no_series() {
    let g = ProvinceGraph::from(vec![]).unwrap();
    let series = simulate(&g, &vec![], SCALE).unwrap();
    assert!(series.is_empty());
}
