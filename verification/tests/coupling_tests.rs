use seirds::coupling::coupling_step;
use seirds::graph::{ProvinceData, ProvinceGraph};
use seirds::params::SimulationParameters;
use seirds::state::StateVector;

const SCALE: i64 = 1_000_000_000;

fn pair_graph() -> ProvinceGraph {
    let data = vec![
        ProvinceData {
            name: "A".to_string(),
            population: 1000,
            density_per_square_km: 100,
            connected_provinces: vec!["B".to_string()],
        },
        ProvinceData {
            name: "B".to_string(),
            population: 1000,
            density_per_square_km: 100,
            connected_provinces: vec!["A".to_string()],
        },
    ];
    ProvinceGraph::from(data).unwrap()
}

fn traffic_params(traffic_rate: i64) -> SimulationParameters {
    SimulationParameters {
        time_span_in_days: 10,
        initial_population: 1000 * SCALE,
        initial_spreaders: 0,
        natural_birth_rate: 0,
        natural_death_rate: 0,
        sickness_period_in_days: 7,
        incubation_period_in_days: 7,
        immunity_waning_period_in_days: 120,
        mortality_rate: 30_000_000,
        r_naught: 2_500_000_000,
        hospitalization_rate: SCALE / 10,
        max_hospital_capacity: 1250 * SCALE,
        traffic_rate,
        measures: vec![],
    }
}

fn region_state(s: i64, e: i64) -> StateVector {
    StateVector {
        susceptible: s,
        exposed: e,
        infectious: 0,
        recovered: 0,
        dead: 0,
        population: 1000 * SCALE,
        hospitalized: 0,
    }
}

#[test]
fn coupling_moves_expected_exposed_share() {
    let g = pair_graph();
    let params = vec![traffic_params(50_000_000), traffic_params(50_000_000)];
    let mut states = vec![region_state(900 * SCALE, 100 * SCALE), region_state(500 * SCALE, 0)];
    let ok = coupling_step(&g, &params, &mut states, SCALE);
    assert!(ok);
    // Region A sends 0.05 * 100 = 5 to B; B, now at 5 exposed, sends
    // 0.05 * 5 = 0.25 back to A.
    assert_eq!(states[0].susceptible, 899_750_000_000);
    assert_eq!(states[0].exposed, 100_250_000_000);
    assert_eq!(states[1].susceptible, 495_000_000_000);
    assert_eq!(states[1].exposed, 5_000_000_000);
}

#[test]
fn coupling_conserves_susceptible_plus_exposed() {
    let g = pair_graph();
    let params = vec![traffic_params(50_000_000), traffic_params(50_000_000)];
    let mut states = vec![region_state(900 * SCALE, 100 * SCALE), region_state(500 * SCALE, 7)];
    let totals: Vec<i64> = states.iter().map(|s| s.susceptible + s.exposed).collect();
    for _ in 0..10 {
        let ok = coupling_step(&g, &params, &mut states, SCALE);
        assert!(ok);
        for (st, total) in states.iter().zip(&totals) {
            assert_eq!(st.susceptible + st.exposed, *total);
            assert_eq!(st.infectious, 0);
            assert_eq!(st.population, 1000 * SCALE);
        }
    }
}

#[test]
fn coupling_guard_skips_poor_neighbour() {
    let g = pair_graph();
    let params = vec![traffic_params(50_000_000), traffic_params(50_000_000)];
    // B's susceptible pool (1 person) is below A's 5-person share, so
    // the guarded transfer is skipped; B has nothing exposed to send.
    let mut states = vec![region_state(900 * SCALE, 100 * SCALE), region_state(SCALE, 0)];
    let expected = states.clone();
    let ok = coupling_step(&g, &params, &mut states, SCALE);
    assert!(ok);
    assert_eq!(states, expected);
}

#[test]
fn coupling_without_neighbours_changes_nothing() {
    let data = vec![ProvinceData {
        name: "Solo".to_string(),
        population: 1000,
        density_per_square_km: 100,
        connected_provinces: vec![],
    }];
    let g = ProvinceGraph::from(data).unwrap();
    let params = vec![traffic_params(50_000_000)];
    let mut states = vec![region_state(900 * SCALE, 100 * SCALE)];
    let expected = states.clone();
    let ok = coupling_step(&g, &params, &mut states, SCALE);
    assert!(ok);
    assert_eq!(states, expected);
}
