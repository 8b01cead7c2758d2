//! Inter-region traffic coupling: once per global time index, strictly
//! after every region finished its own RK4 step, each region sends a
//! share of its exposed mass to each neighbour, turning that many of
//! the neighbour's susceptible people into exposed ones.  A transfer
//! that would push a neighbour's susceptible compartment negative is
//! skipped.

use vstd::prelude::*;
use crate::fixed::{add_c, sub_c, mul_c, lift, div_tz, add_fx, sub_fx, mul_fx, divi_fx};
use crate::graph::{Province, ProvinceGraph, adjacency_bounded};
use crate::params::SimulationParameters;
use crate::state::StateVector;

verus! {

/// One guarded transfer: moves `share` from the susceptible to the
/// exposed compartment of region `nbr`, unless its susceptible count
/// does not strictly exceed `share`.
pub open spec fn transfer_c(states: Seq<StateVector>, nbr: int, share: int) -> Option<
    Seq<StateVector>,
> {
    let s = states[nbr];
    if s.susceptible > share {
        let ns = sub_c(lift(s.susceptible), Some(share));
        let ne = add_c(lift(s.exposed), Some(share));
        if ns is Some && ne is Some {
            Some(
                states.update(
                    nbr,
                    StateVector {
                        susceptible: ns.unwrap() as i64,
                        exposed: ne.unwrap() as i64,
                        ..s
                    },
                ),
            )
        } else {
            None
        }
    } else {
        Some(states)
    }
}

/// The transfers of one region to its first `upto` neighbours, in
/// order.
pub open spec fn couple_region_c(
    conn: Seq<usize>,
    share: int,
    states: Seq<StateVector>,
    upto: int,
) -> Option<Seq<StateVector>>
    decreases upto,
{
    if upto <= 0 {
        Some(states)
    } else {
        match couple_region_c(conn, share, states, upto - 1) {
            None => None,
            Some(st) => transfer_c(st, conn[upto - 1] as int, share),
        }
    }
}

/// The coupling pass over the first `upto` regions, in order.  Each
/// region reads its own (possibly already adjusted) exposed count,
/// scales it by its traffic rate and the step size, and spreads the
/// result evenly over its neighbours.  A region without neighbours
/// sends nothing.
pub open spec fn coupling_pass_c(
    g: Seq<Province>,
    ps: Seq<SimulationParameters>,
    states: Seq<StateVector>,
    h: int,
    upto: int,
) -> Option<Seq<StateVector>>
    decreases upto,
{
    if upto <= 0 {
        Some(states)
    } else {
        match coupling_pass_c(g, ps, states, h, upto - 1) {
            None => None,
            Some(st) => {
                let conn = g[upto - 1].connected_provinces@;
                if conn.len() == 0 {
                    Some(st)
                } else if conn.len() > i64::MAX {
                    None
                } else {
                    match mul_c(
                        mul_c(lift(ps[upto - 1].traffic_rate), lift(st[upto - 1].exposed)),
                        Some(h),
                    ) {
                        None => None,
                        Some(delta) => couple_region_c(
                            conn,
                            div_tz(delta, conn.len() as int),
                            st,
                            conn.len() as int,
                        ),
                    }
                }
            },
        }
    }
}

/// One whole coupling step across all regions.
pub open spec fn coupling_c(
    g: Seq<Province>,
    ps: Seq<SimulationParameters>,
    states: Seq<StateVector>,
    h: int,
) -> Option<Seq<StateVector>> {
    coupling_pass_c(g, ps, states, h, g.len() as int)
}

/// Once the pass has failed for a prefix of the regions, it has failed
/// for every longer prefix.
proof fn lemma_pass_none_sticks(
    g: Seq<Province>,
    ps: Seq<SimulationParameters>,
    states: Seq<StateVector>,
    h: int,
    i: int,
    j: int,
)
    requires
        0 <= i <= j,
        coupling_pass_c(g, ps, states, h, i) is None,
    ensures
        coupling_pass_c(g, ps, states, h, j) is None,
    decreases j - i,
{
    if i < j {
        lemma_pass_none_sticks(g, ps, states, h, i, j - 1);
    }
}

/// Once a region's transfers have failed for a prefix of its
/// neighbours, they have failed for every longer prefix.
proof fn lemma_region_none_sticks(
    conn: Seq<usize>,
    share: int,
    states: Seq<StateVector>,
    i: int,
    j: int,
)
    requires
        0 <= i <= j,
        couple_region_c(conn, share, states, i) is None,
    ensures
        couple_region_c(conn, share, states, j) is None,
    decreases j - i,
{
    if i < j {
        lemma_region_none_sticks(conn, share, states, i, j - 1);
    }
}

/// What coupling preserves of each region: the susceptible + exposed
/// total, and every other compartment exactly.
pub open spec fn mass_preserved(a: Seq<StateVector>, b: Seq<StateVector>) -> bool {
    &&& b.len() == a.len()
    &&& forall|r: int|
        0 <= r < a.len() ==> {
            &&& (#[trigger] b[r]).susceptible + b[r].exposed == a[r].susceptible + a[r].exposed
            &&& b[r].infectious == a[r].infectious
            &&& b[r].recovered == a[r].recovered
            &&& b[r].dead == a[r].dead
            &&& b[r].population == a[r].population
            &&& b[r].hospitalized == a[r].hospitalized
        }
}

/// A single guarded transfer conserves each region's
/// susceptible + exposed total and touches nothing else.
proof fn lemma_transfer_preserves(states: Seq<StateVector>, nbr: int, share: int)
    requires
        0 <= nbr < states.len(),
        transfer_c(states, nbr, share) is Some,
    ensures
        mass_preserved(states, transfer_c(states, nbr, share).unwrap()),
{
}

/// A region's transfers conserve every region's susceptible + exposed
/// total.
proof fn lemma_region_preserves(
    conn: Seq<usize>,
    share: int,
    states: Seq<StateVector>,
    upto: int,
    n: int,
)
    requires
        states.len() == n,
        forall|k: int| 0 <= k < conn.len() ==> conn[k] < n,
        0 <= upto <= conn.len(),
        couple_region_c(conn, share, states, upto) is Some,
    ensures
        mass_preserved(states, couple_region_c(conn, share, states, upto).unwrap()),
    decreases upto,
{
    if upto > 0 {
        let prev = couple_region_c(conn, share, states, upto - 1);
        lemma_region_preserves(conn, share, states, upto - 1, n);
        lemma_transfer_preserves(prev.unwrap(), conn[upto - 1] as int, share);
    }
}

/// Traffic coupling conserves mass: for every region — so in
/// particular summed over a closed pair of regions — the
/// susceptible + exposed total is the same after a coupling step as
/// before it, whether or not any guard fires, and no other compartment
/// moves at all.
pub proof fn lemma_coupling_conserves_mass(
    g: Seq<Province>,
    ps: Seq<SimulationParameters>,
    states: Seq<StateVector>,
    h: int,
    upto: int,
)
    requires
        adjacency_bounded(g, states.len() as int),
        0 <= upto <= g.len(),
        coupling_pass_c(g, ps, states, h, upto) is Some,
    ensures
        mass_preserved(states, coupling_pass_c(g, ps, states, h, upto).unwrap()),
    decreases upto,
{
    if upto > 0 {
        let prev = coupling_pass_c(g, ps, states, h, upto - 1);
        lemma_coupling_conserves_mass(g, ps, states, h, upto - 1);
        let st = prev.unwrap();
        let conn = g[upto - 1].connected_provinces@;
        if conn.len() > 0 && conn.len() <= i64::MAX {
            match mul_c(mul_c(lift(ps[upto - 1].traffic_rate), lift(st[upto - 1].exposed)), Some(h)) {
                None => {},
                Some(delta) => {
                    lemma_region_preserves(
                        conn,
                        div_tz(delta, conn.len() as int),
                        st,
                        conn.len() as int,
                        states.len() as int,
                    );
                },
            }
        }
    }
}

/// A zero share transfers nothing: a region's transfers leave every
/// state exactly as it was.
proof fn lemma_region_identity_zero_share(conn: Seq<usize>, states: Seq<StateVector>, upto: int)
    requires
        forall|k: int| 0 <= k < conn.len() ==> conn[k] < states.len(),
        0 <= upto <= conn.len(),
    ensures
        couple_region_c(conn, 0, states, upto) == Some(states),
    decreases upto,
{
    if upto > 0 {
        lemma_region_identity_zero_share(conn, states, upto - 1);
        let nbr = conn[upto - 1] as int;
        let s = states[nbr];
        if s.susceptible > 0 {
            assert(states.update(
                nbr,
                StateVector { susceptible: s.susceptible, exposed: s.exposed, ..s },
            ) =~= states);
        }
    }
}

/// With nothing exposed anywhere there is nothing to send: a coupling
/// pass leaves every state exactly as it was.
pub proof fn lemma_coupling_identity_without_exposed(
    g: Seq<Province>,
    ps: Seq<SimulationParameters>,
    states: Seq<StateVector>,
    h: int,
    upto: int,
)
    requires
        g.len() == states.len(),
        adjacency_bounded(g, states.len() as int),
        forall|r: int| 0 <= r < states.len() ==> (#[trigger] states[r]).exposed == 0,
        forall|r: int| 0 <= r < g.len() ==> (#[trigger] g[r].connected_provinces@).len()
            <= i64::MAX,
        0 <= upto <= g.len(),
    ensures
        coupling_pass_c(g, ps, states, h, upto) == Some(states),
    decreases upto,
{
    if upto > 0 {
        lemma_coupling_identity_without_exposed(g, ps, states, h, upto - 1);
        let conn = g[upto - 1].connected_provinces@;
        if conn.len() > 0 {
            crate::fixed::lemma_mul_c_zero(lift(ps[upto - 1].traffic_rate));
            crate::fixed::lemma_mul_c_zero(Some(h));
            crate::fixed::lemma_div_tz_zero(conn.len() as int);
            lemma_region_identity_zero_share(conn, states, conn.len() as int);
        }
    }
}

/// Applies one coupling step in place, as [`coupling_c`]: reports
/// `false`, leaving a prefix of the transfers applied, exactly when
/// the exchange arithmetic fails.
pub fn coupling_step(
    graph: &ProvinceGraph,
    params: &Vec<SimulationParameters>,
    states: &mut Vec<StateVector>,
    h: i64,
) -> (ok: bool)
    requires
        graph.wf(),
        params@.len() == graph@.len(),
        old(states)@.len() == graph@.len(),
    ensures
        ok <==> coupling_c(graph@, params@, old(states)@, h as int) is Some,
        ok ==> Some(final(states)@) == coupling_c(graph@, params@, old(states)@, h as int),
        final(states)@.len() == old(states)@.len(),
{
    let ghost g = graph@;
    let ghost ps = params@;
    let ghost base = old(states)@;
    let n: usize = graph.len();
    let mut r: usize = 0;
    while r < n
        invariant
            0 <= r <= n,
            n == g.len(),
            g == graph@,
            ps == params@,
            base == old(states)@,
            graph.wf(),
            params@.len() == g.len(),
            base.len() == g.len(),
            states@.len() == g.len(),
            coupling_pass_c(g, ps, base, h as int, r as int) == Some(states@),
        decreases n - r,
    {
        let conn_len: usize = graph.index(r).connected_provinces.len();
        if conn_len > 0 {
            if conn_len as u64 > i64::MAX as u64 {
                proof {
                    lemma_pass_none_sticks(g, ps, base, h as int, r + 1, n as int);
                }
                return false;
            }
            let traffic: i64 = params[r].traffic_rate;
            let exposed_r: i64 = states[r].exposed;
            let delta: i64 = match mul_fx(traffic, exposed_r) {
                Some(v) => match mul_fx(v, h) {
                    Some(w) => w,
                    None => {
                        proof {
                            lemma_pass_none_sticks(g, ps, base, h as int, r + 1, n as int);
                        }
                        return false;
                    },
                },
                None => {
                    proof {
                        lemma_pass_none_sticks(g, ps, base, h as int, r + 1, n as int);
                    }
                    return false;
                },
            };
            let share: i64 = match divi_fx(delta, conn_len as i64) {
                Some(v) => v,
                None => {
                    // The neighbour count is strictly positive.
                    proof {
                        assert(false);
                    }
                    return false;
                },
            };
            let ghost inner_base = states@;
            let mut k: usize = 0;
            while k < conn_len
                invariant
                    0 <= k <= conn_len,
                    n == g.len(),
                    g == graph@,
                    ps == params@,
                    base == old(states)@,
                    graph.wf(),
                    0 <= r < n,
                    0 < conn_len <= i64::MAX,
                    conn_len == g[r as int].connected_provinces@.len(),
                    base.len() == g.len(),
                    states@.len() == g.len(),
                    inner_base.len() == g.len(),
                    coupling_pass_c(g, ps, base, h as int, r as int) == Some(inner_base),
                    mul_c(
                        mul_c(lift(ps[r as int].traffic_rate), lift(inner_base[r as int].exposed)),
                        Some(h as int),
                    ) == Some(delta as int),
                    share as int == div_tz(delta as int, conn_len as int),
                    couple_region_c(
                        g[r as int].connected_provinces@,
                        share as int,
                        inner_base,
                        k as int,
                    ) == Some(states@),
                decreases conn_len - k,
            {
                let nbr: usize = graph.index(r).connected_provinces[k];
                let cur: StateVector = states[nbr];
                if cur.susceptible > share {
                    let ns: i64 = match sub_fx(cur.susceptible, share) {
                        Some(v) => v,
                        None => {
                            proof {
                                lemma_region_none_sticks(
                                    g[r as int].connected_provinces@,
                                    share as int,
                                    inner_base,
                                    k + 1,
                                    conn_len as int,
                                );
                                lemma_pass_none_sticks(g, ps, base, h as int, r + 1, n as int);
                            }
                            return false;
                        },
                    };
                    let ne: i64 = match add_fx(cur.exposed, share) {
                        Some(v) => v,
                        None => {
                            proof {
                                lemma_region_none_sticks(
                                    g[r as int].connected_provinces@,
                                    share as int,
                                    inner_base,
                                    k + 1,
                                    conn_len as int,
                                );
                                lemma_pass_none_sticks(g, ps, base, h as int, r + 1, n as int);
                            }
                            return false;
                        },
                    };
                    let updated = StateVector { susceptible: ns, exposed: ne, ..cur };
                    states.set(nbr, updated);
                }
                k = k + 1;
            }
        }
        r = r + 1;
    }
    true
}

} // verus!
