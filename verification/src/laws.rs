//! Global properties of the stepping model, stated and proved once:
//! a zero step size changes nothing, and a quiescent configuration —
//! no births, deaths, transmission or measures, and no circulating
//! disease — holds every state vector constant across a whole run.

use vstd::prelude::*;
use crate::coupling::{coupling_c, lemma_coupling_identity_without_exposed};
use crate::fixed::{SCALE, lemma_div_tz_zero, lemma_mul_c_zero, lemma_mul_zero};
use crate::graph::{adjacency_bounded, Province};
use crate::integrator::{advance_c, comb_c, rk4_combine_c, rk4_step_c, state_add_c, state_half};
use crate::model::{deltas_c, measures_total_c};
use crate::params::SimulationParameters;
use crate::sim::{joint_advance_c, regions_step_c};
use crate::state::StateVector;

verus! {

/// The state vector with every compartment zero.
pub open spec fn zero_state() -> StateVector {
    StateVector {
        susceptible: 0i64,
        exposed: 0i64,
        infectious: 0i64,
        recovered: 0i64,
        dead: 0i64,
        population: 0i64,
        hospitalized: 0i64,
    }
}

/// Once the step-scaled deltas of a state are all zero, the four RK4
/// stages all sample the same state and the weighted combination hands
/// the state back unchanged.
proof fn lemma_step_from_zero_deltas(
    p: SimulationParameters,
    st: StateVector,
    hist: Seq<StateVector>,
    h: int,
)
    requires
        deltas_c(p, st, hist, h) == Some(zero_state()),
    ensures
        rk4_step_c(p, st, hist, h) == Some(st),
{
    reveal(rk4_step_c);
    let z = zero_state();
    lemma_div_tz_zero(2);
    assert(state_half(z) == z);
    assert(state_add_c(st, z) == Some(st));
    lemma_div_tz_zero(6);
    assert(comb_c(st.susceptible, 0, 0, 0, 0) == Some(st.susceptible as int));
    assert(comb_c(st.exposed, 0, 0, 0, 0) == Some(st.exposed as int));
    assert(comb_c(st.infectious, 0, 0, 0, 0) == Some(st.infectious as int));
    assert(comb_c(st.recovered, 0, 0, 0, 0) == Some(st.recovered as int));
    assert(comb_c(st.dead, 0, 0, 0, 0) == Some(st.dead as int));
    assert(comb_c(st.population, 0, 0, 0, 0) == Some(st.population as int));
    assert(comb_c(st.hospitalized, 0, 0, 0, 0) == Some(st.hospitalized as int));
    assert(rk4_combine_c(st, z, z, z, z) == Some(st));
}

/// Degenerate RK4: at step size zero, whenever a step computes at all
/// it returns exactly the unchanged input state.
pub proof fn lemma_zero_step_keeps_state(
    p: SimulationParameters,
    st: StateVector,
    hist: Seq<StateVector>,
)
    requires
        rk4_step_c(p, st, hist, 0) is Some,
    ensures
        rk4_step_c(p, st, hist, 0) == Some(st),
{
    reveal(rk4_step_c);
    reveal(deltas_c);
    let d = deltas_c(p, st, hist, 0);
    assert(d is Some);
    let mc = measures_total_c(p.measures@, p, hist, 0);
    lemma_mul_c_zero(crate::model::d_susceptible_c(p, st, mc));
    lemma_mul_c_zero(crate::model::d_exposed_c(p, st, mc));
    lemma_mul_c_zero(crate::model::d_infectious_c(p, st));
    lemma_mul_c_zero(crate::model::d_recovered_c(p, st));
    lemma_mul_c_zero(crate::model::d_dead_c(p, st));
    lemma_mul_c_zero(crate::model::d_population_c(p, st));
    lemma_mul_c_zero(crate::model::d_hospitalized_c(p, st));
    assert(d == Some(zero_state()));
    lemma_step_from_zero_deltas(p, st, hist, 0);
}

/// Whether the configuration is quiescent: no births, deaths,
/// transmission or measures, and a sane mortality fraction.
pub open spec fn quiescent_params(p: SimulationParameters) -> bool {
    &&& p.natural_birth_rate == 0
    &&& p.natural_death_rate == 0
    &&& p.r_naught == 0
    &&& p.measures@.len() == 0
    &&& 0 <= p.mortality_rate <= SCALE
}

/// Whether the state carries no circulating disease: nobody exposed,
/// infectious or recovered, and a strictly positive population.
pub open spec fn quiescent_state(st: StateVector) -> bool {
    &&& st.exposed == 0
    &&& st.infectious == 0
    &&& st.recovered == 0
    &&& st.population > 0
}

/// Under a quiescent configuration every compartment derivative is
/// exactly zero, so one RK4 step returns the unchanged state — at any
/// step size.
pub proof fn lemma_quiescent_step(
    p: SimulationParameters,
    st: StateVector,
    hist: Seq<StateVector>,
    h: int,
)
    requires
        quiescent_params(p),
        quiescent_state(st),
    ensures
        rk4_step_c(p, st, hist, h) == Some(st),
{
    reveal(deltas_c);
    let mc = measures_total_c(p.measures@, p, hist, h);
    assert(mc == Some(0int));
    lemma_mul_zero(crate::model::recovery_rate(p));
    lemma_mul_zero(crate::model::incubation_rate(p));
    lemma_mul_zero(crate::model::waning_rate(p));
    lemma_mul_zero(st.susceptible as int);
    lemma_mul_zero(st.population as int);
    lemma_mul_zero(SCALE as int);
    lemma_mul_zero(p.mortality_rate as int);
    lemma_mul_zero(p.hospitalization_rate as int);
    lemma_mul_zero(h);
    lemma_mul_zero(0);
    lemma_mul_zero(SCALE - p.mortality_rate);
    lemma_div_tz_zero(SCALE as int);
    lemma_div_tz_zero(st.population as int);
    assert(crate::model::effective_rate_c(p, mc) == Some(0int));
    assert(crate::model::infection_term_c(p, st, mc) == Some(0int));
    assert(crate::model::d_susceptible_c(p, st, mc) == Some(0int));
    assert(crate::model::d_exposed_c(p, st, mc) == Some(0int));
    assert(crate::model::d_infectious_c(p, st) == Some(0int));
    assert(crate::model::d_recovered_c(p, st) == Some(0int));
    assert(crate::model::d_dead_c(p, st) == Some(0int));
    assert(crate::model::d_population_c(p, st) == Some(0int));
    assert(crate::model::d_hospitalized_c(p, st) == Some(0int));
    assert(deltas_c(p, st, hist, h) == Some(zero_state()));
    lemma_step_from_zero_deltas(p, st, hist, h);
}

/// Under a quiescent configuration the whole run is constant: every
/// step succeeds and every appended state equals the newest seeded
/// one, at any step size and over any number of steps.
pub proof fn lemma_quiescent_run(
    p: SimulationParameters,
    hist: Seq<StateVector>,
    h: int,
    steps: nat,
)
    requires
        quiescent_params(p),
        hist.len() > 0,
        quiescent_state(hist.last()),
    ensures
        ({
            let r = advance_c(p, hist, h, steps);
            &&& r is Some
            &&& r.unwrap().len() == hist.len() + steps
            &&& forall|j: int| 0 <= j < hist.len() ==> r.unwrap()[j] == hist[j]
            &&& forall|j: int|
                hist.len() <= j < hist.len() + steps ==> r.unwrap()[j] == hist.last()
        }),
    decreases steps,
{
    if steps > 0 {
        lemma_quiescent_run(p, hist, h, (steps - 1) as nat);
        let prev = advance_c(p, hist, h, (steps - 1) as nat).unwrap();
        assert(prev.last() == hist.last());
        lemma_quiescent_step(p, prev.last(), prev, h);
    }
}

/// Under quiescent configurations every region's RK4 step hands its
/// newest state back unchanged, so the per-region stepping of a joint
/// time index collects exactly the newest states.
proof fn lemma_quiescent_regions_step(
    ps: Seq<SimulationParameters>,
    hists: Seq<Seq<StateVector>>,
    h: int,
    upto: int,
)
    requires
        hists.len() == ps.len(),
        forall|r: int| 0 <= r < ps.len() ==> quiescent_params(#[trigger] ps[r]),
        forall|r: int|
            0 <= r < ps.len() ==> (#[trigger] hists[r]).len() > 0 && quiescent_state(
                hists[r].last(),
            ),
        0 <= upto <= ps.len(),
    ensures
        ({
            let r = regions_step_c(ps, hists, h, upto);
            &&& r is Some
            &&& r.unwrap().len() == upto
            &&& forall|q: int| 0 <= q < upto ==> r.unwrap()[q] == hists[q].last()
        }),
    decreases upto,
{
    if upto > 0 {
        lemma_quiescent_regions_step(ps, hists, h, upto - 1);
        lemma_quiescent_step(ps[upto - 1], hists[upto - 1].last(), hists[upto - 1], h);
    }
}

/// Under quiescent configurations in every region, the whole joint run
/// — RK4 stepping and traffic coupling alike — holds every region's
/// state vector constant across all steps, at any step size.
pub proof fn lemma_quiescent_joint_run(
    g: Seq<Province>,
    ps: Seq<SimulationParameters>,
    hists: Seq<Seq<StateVector>>,
    h: int,
    steps: nat,
)
    requires
        g.len() == ps.len(),
        hists.len() == ps.len(),
        adjacency_bounded(g, ps.len() as int),
        forall|r: int| 0 <= r < g.len() ==> (#[trigger] g[r].connected_provinces@).len()
            <= i64::MAX,
        forall|r: int| 0 <= r < ps.len() ==> quiescent_params(#[trigger] ps[r]),
        forall|r: int|
            0 <= r < ps.len() ==> (#[trigger] hists[r]).len() > 0 && quiescent_state(
                hists[r].last(),
            ),
    ensures
        ({
            let res = joint_advance_c(g, ps, hists, h, steps);
            &&& res is Some
            &&& res.unwrap().len() == hists.len()
            &&& forall|r: int|
                0 <= r < hists.len() ==> (#[trigger] res.unwrap()[r]).len() == hists[r].len()
                    + steps
            &&& forall|r: int, j: int|
                0 <= r < hists.len() && 0 <= j < hists[r].len() ==> (#[trigger] res.unwrap()[r][j])
                    == hists[r][j]
            &&& forall|r: int, j: int|
                0 <= r < hists.len() && hists[r].len() <= j < hists[r].len() + steps ==> (
                #[trigger] res.unwrap()[r][j]) == hists[r].last()
        }),
    decreases steps,
{
    if steps > 0 {
        lemma_quiescent_joint_run(g, ps, hists, h, (steps - 1) as nat);
        let prev = joint_advance_c(g, ps, hists, h, (steps - 1) as nat).unwrap();
        assert forall|r: int| 0 <= r < ps.len() implies (#[trigger] prev[r]).len() > 0
            && prev[r].last() == hists[r].last() by {
            assert(prev[r][prev[r].len() - 1] == hists[r].last());
        }
        lemma_quiescent_regions_step(ps, prev, h, ps.len() as int);
        let news = regions_step_c(ps, prev, h, ps.len() as int).unwrap();
        assert forall|r: int| 0 <= r < news.len() implies (#[trigger] news[r]).exposed == 0 by {
            assert(news[r] == prev[r].last());
        }
        lemma_coupling_identity_without_exposed(g, ps, news, h, g.len() as int);
        assert(coupling_c(g, ps, news, h) == Some(news));
        let res = joint_advance_c(g, ps, hists, h, steps).unwrap();
        assert(res == Seq::new(prev.len(), |r: int| prev[r].push(news[r])));
        assert forall|r: int, j: int|
            0 <= r < hists.len() && hists[r].len() <= j < hists[r].len() + steps implies (
        #[trigger] res[r][j]) == hists[r].last() by {
            assert(res[r] == prev[r].push(news[r]));
            if j < prev[r].len() {
                assert(prev[r][j] == hists[r].last());
            } else {
                assert(res[r][j] == news[r]);
            }
        }
    }
}

} // verus!
