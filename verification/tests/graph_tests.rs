use seirds::errors::SimError;
use seirds::graph::{scaled_r_naught, ProvinceData, ProvinceGraph};

const SCALE: i64 = 1_000_000_000;

fn province(name: &str, population: u32, density: u16, neighbours: &[&str]) -> ProvinceData {
    ProvinceData {
        name: name.to_string(),
        population,
        density_per_square_km: density,
        connected_provinces: neighbours.iter().map(|s| s.to_string()).collect(),
    }
}

#[test]
fn graph_resolves_neighbours() {
    let data = vec![
        province("Groningen", 583_990, 194, &["Friesland"]),
        province("Friesland", 651_459, 178, &["Groningen"]),
    ];
    let g = ProvinceGraph::from(data).expect("both names resolve");
    assert_eq!(g.len(), 2);
    assert_eq!(g.index(0).name, "Groningen");
    assert_eq!(g.index(0).connected_provinces, vec![1]);
    assert_eq!(g.index(1).connected_provinces, vec![0]);
    assert_eq!(g.index(1).population, 651_459);
}

#[test]
fn graph_unresolved_neighbour_fails_construction() {
    let data = vec![province("A", 1000, 10, &["B"])];
    let r = ProvinceGraph::from(data);
    assert_eq!(
        r.err(),
        Some(SimError::UnresolvedNeighbor { province: 0, neighbor: 0 })
    );
}

#[test]
fn graph_unresolved_second_neighbour_is_reported() {
    let data = vec![
        province("A", 1000, 10, &["C", "Nowhere"]),
        province("C", 2000, 20, &[]),
    ];
    let r = ProvinceGraph::from(data);
    assert_eq!(
        r.err(),
        Some(SimError::UnresolvedNeighbor { province: 0, neighbor: 1 })
    );
}

#[test]
fn graph_resolves_to_first_matching_name() {
    let data = vec![
        province("A", 1, 1, &["B"]),
        province("B", 2, 2, &[]),
        province("C", 3, 3, &["A"]),
    ];
    let g = ProvinceGraph::from(data).expect("all names resolve");
    assert_eq!(g.index(0).connected_provinces, vec![1]);
    assert_eq!(g.index(2).connected_provinces, vec![0]);
}

#[test]
fn mean_density_is_truncated_scaled_mean() {
    let data = vec![
        province("A", 1, 100, &[]),
        province("B", 1, 200, &[]),
        province("C", 1, 301, &[]),
    ];
    let g = ProvinceGraph::from(data).unwrap();
    // (100 + 200 + 301) * SCALE / 3, truncated.
    assert_eq!(g.mean_density(), Ok(200_333_333_333));
}

#[test]
fn mean_density_of_empty_graph_fails() {
    let g = ProvinceGraph::from(vec![]).unwrap();
    assert_eq!(g.mean_density(), Err(SimError::EmptyGraph));
}

#[test]
fn scaled_r_naught_follows_relative_density() {
    // density 300 against a mean of 200: 50% above the mean, so an
    // r0 of 2.5 becomes 3.75.
    let r = scaled_r_naught(2_500_000_000, 300, 200 * SCALE);
    assert_eq!(r, Some(3_750_000_000));
    // density equal to the mean leaves r0 unchanged.
    let r = scaled_r_naught(2_500_000_000, 200, 200 * SCALE);
    assert_eq!(r, Some(2_500_000_000));
}

#[test]
fn scaled_r_naught_rejects_non_positive_mean() {
    assert_eq!(scaled_r_naught(2_500_000_000, 300, 0), None);
    assert_eq!(scaled_r_naught(2_500_000_000, 300, -5), None);
}
