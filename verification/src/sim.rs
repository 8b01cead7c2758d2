//! The joint multi-region run: for each time index every region takes
//! one RK4 step over its own padded history, then one coupling step
//! exchanges exposed mass across the graph, and the finished
//! trajectories are handed out with their padding stripped.

use vstd::prelude::*;
use crate::coupling::{coupling_c, coupling_step};
use crate::errors::SimError;
use crate::fixed::SCALE;
use crate::graph::{Province, ProvinceGraph};
use crate::history::{HistoryBuffer, pad_len};
use crate::integrator::{
    init_trajectory, make_history, rk4_impl, rk4_step_c, run_steps_count, setup_ok, span_ok,
};
use crate::params::SimulationParameters;
use crate::state::StateVector;

verus! {

/// The trajectories of a sequence of buffers.
pub open spec fn views_of(bufs: Seq<HistoryBuffer>) -> Seq<Seq<StateVector>> {
    Seq::new(bufs.len(), |r: int| bufs[r]@)
}

/// The freshly computed next state of each of the first `upto`
/// regions, before coupling: one RK4 step per region over its own
/// trajectory.
pub open spec fn regions_step_c(
    ps: Seq<SimulationParameters>,
    hists: Seq<Seq<StateVector>>,
    h: int,
    upto: int,
) -> Option<Seq<StateVector>>
    decreases upto,
{
    if upto <= 0 {
        Some(Seq::empty())
    } else {
        match regions_step_c(ps, hists, h, upto - 1) {
            None => None,
            Some(sts) => match rk4_step_c(ps[upto - 1], hists[upto - 1].last(), hists[upto - 1], h) {
                None => None,
                Some(nx) => Some(sts.push(nx)),
            },
        }
    }
}

/// One joint time index: every region's RK4 step, then one coupling
/// pass over the fresh states, then each result appended to its
/// region's trajectory.
pub open spec fn joint_step_c(
    g: Seq<Province>,
    ps: Seq<SimulationParameters>,
    hists: Seq<Seq<StateVector>>,
    h: int,
) -> Option<Seq<Seq<StateVector>>> {
    match regions_step_c(ps, hists, h, ps.len() as int) {
        None => None,
        Some(news) => match coupling_c(g, ps, news, h) {
            None => None,
            Some(coupled) => Some(Seq::new(hists.len(), |r: int| hists[r].push(coupled[r]))),
        },
    }
}

/// The joint trajectories after `steps` time indices.
pub open spec fn joint_advance_c(
    g: Seq<Province>,
    ps: Seq<SimulationParameters>,
    hists: Seq<Seq<StateVector>>,
    h: int,
    steps: nat,
) -> Option<Seq<Seq<StateVector>>>
    decreases steps,
{
    if steps == 0 {
        Some(hists)
    } else {
        match joint_advance_c(g, ps, hists, h, (steps - 1) as nat) {
            None => None,
            Some(hs) => joint_step_c(g, ps, hs, h),
        }
    }
}

/// Once a joint run has failed after some number of steps, running
/// longer fails too.
pub proof fn lemma_joint_advance_none_sticks(
    g: Seq<Province>,
    ps: Seq<SimulationParameters>,
    hists: Seq<Seq<StateVector>>,
    h: int,
    i: nat,
    j: nat,
)
    requires
        i <= j,
        joint_advance_c(g, ps, hists, h, i) is None,
    ensures
        joint_advance_c(g, ps, hists, h, j) is None,
    decreases j - i,
{
    if i < j {
        lemma_joint_advance_none_sticks(g, ps, hists, h, i, (j - 1) as nat);
    }
}

/// Once the per-region stepping has failed for a prefix of the
/// regions, it has failed for every longer prefix.
proof fn lemma_regions_step_none_sticks(
    ps: Seq<SimulationParameters>,
    hists: Seq<Seq<StateVector>>,
    h: int,
    i: int,
    j: int,
)
    requires
        0 <= i <= j,
        regions_step_c(ps, hists, h, i) is None,
    ensures
        regions_step_c(ps, hists, h, j) is None,
    decreases j - i,
{
    if i < j {
        lemma_regions_step_none_sticks(ps, hists, h, i, j - 1);
    }
}

/// The padded trajectories every region of `ps` starts from.
pub open spec fn init_trajectories(ps: Seq<SimulationParameters>, h: int) -> Seq<
    Seq<StateVector>,
> {
    Seq::new(ps.len(), |r: int| init_trajectory(ps[r], h))
}

/// Whether every region's buffer can be set up and the joint step
/// count is representable.  The first region's time span governs the
/// joint run.
pub open spec fn sim_setup_ok(ps: Seq<SimulationParameters>, h: int) -> bool {
    &&& forall|r: int| 0 <= r < ps.len() ==> setup_ok(#[trigger] ps[r], h)
    &&& (ps.len() == 0 || span_ok(ps[0], h))
}

/// The number of joint time indices a run covers.
pub open spec fn sim_steps(ps: Seq<SimulationParameters>, h: int) -> int {
    if ps.len() == 0 {
        0
    } else {
        run_steps_count(ps[0].time_span_in_days as int, h)
    }
}

/// Runs the whole joint simulation: sets up one padded buffer per
/// region, advances all regions step by step with coupling after each
/// joint index — exactly as [`joint_advance_c`] describes — and hands
/// each region's trajectory out with its padding stripped.
#[verifier::rlimit(80)]
pub fn simulate(graph: &ProvinceGraph, params: &Vec<SimulationParameters>, h: i64) -> (r: Result<
    Vec<Vec<StateVector>>,
    SimError,
>)
    requires
        graph.wf(),
        params@.len() == graph@.len(),
        forall|r: int| 0 <= r < params@.len() ==> (#[trigger] params@[r]).wf(),
    ensures
        r == Err::<Vec<Vec<StateVector>>, SimError>(SimError::InvalidStepSize) <==> h <= 0,
        r == Err::<Vec<Vec<StateVector>>, SimError>(SimError::Overflow) <==> h > 0
            && !sim_setup_ok(params@, h as int),
        r is Ok <==> h > 0 && sim_setup_ok(params@, h as int) && joint_advance_c(
            graph@,
            params@,
            init_trajectories(params@, h as int),
            h as int,
            sim_steps(params@, h as int) as nat,
        ) is Some,
        r matches Ok(series) ==> {
            &&& series@.len() == params@.len()
            &&& forall|q: int|
                0 <= q < params@.len() ==> (#[trigger] series@[q])@ == {
                    let full = joint_advance_c(
                        graph@,
                        params@,
                        init_trajectories(params@, h as int),
                        h as int,
                        sim_steps(params@, h as int) as nat,
                    ).unwrap()[q];
                    full.subrange(
                        pad_len(
                            params@[q].incubation_period_in_days * (SCALE as int),
                            h as int,
                        ),
                        full.len() as int,
                    )
                }
        },
{
    let ghost g = graph@;
    let ghost ps = params@;
    if h <= 0 {
        return Err(SimError::InvalidStepSize);
    }
    let n: usize = graph.len();

    let mut bufs: Vec<HistoryBuffer> = Vec::new();
    let mut r: usize = 0;
    while r < n
        invariant
            0 <= r <= n,
            n == ps.len(),
            ps == params@,
            h > 0,
            bufs@.len() == r,
            forall|q: int| 0 <= q < r ==> setup_ok(#[trigger] ps[q], h as int),
            forall|q: int| 0 <= q < r ==> (#[trigger] bufs@[q]).wf(),
            forall|q: int|
                0 <= q < r ==> (#[trigger] bufs@[q]).padding_spec() == pad_len(
                    ps[q].incubation_period_in_days * (SCALE as int),
                    h as int,
                ),
            forall|q: int| 0 <= q < r ==> (#[trigger] bufs@[q])@ == init_trajectory(ps[q], h as int),
        decreases n - r,
    {
        match make_history(&params[r], h) {
            Ok(b) => {
                bufs.push(b);
            },
            Err(_) => {
                return Err(SimError::Overflow);
            },
        }
        r = r + 1;
    }
    proof {
        assert(views_of(bufs@) =~= init_trajectories(ps, h as int));
    }

    let steps: usize = if n == 0 {
        0
    } else {
        let span_fx: u64 = match (params[0].time_span_in_days as u64).checked_mul(SCALE as u64) {
            Some(v) => v,
            None => {
                return Err(SimError::Overflow);
            },
        };
        let iters: u64 = span_fx / (h as u64);
        let steps_u: u64 = if iters >= 1 {
            iters - 1
        } else {
            0
        };
        if steps_u > usize::MAX as u64 {
            return Err(SimError::Overflow);
        }
        steps_u as usize
    };
    proof {
        assert(steps == sim_steps(ps, h as int));
        assert(sim_setup_ok(ps, h as int));
    }

    let ghost start = views_of(bufs@);
    let mut t: i64 = 0;
    let mut i: usize = 0;
    while i < steps
        invariant
            0 <= i <= steps,
            n == ps.len(),
            n == g.len(),
            g == graph@,
            ps == params@,
            graph.wf(),
            forall|q: int| 0 <= q < ps.len() ==> (#[trigger] ps[q]).wf(),
            h > 0,
            bufs@.len() == n,
            forall|q: int| 0 <= q < n ==> (#[trigger] bufs@[q]).wf(),
            forall|q: int|
                0 <= q < n ==> (#[trigger] bufs@[q]).padding_spec() == pad_len(
                    ps[q].incubation_period_in_days * (SCALE as int),
                    h as int,
                ),
            joint_advance_c(g, ps, start, h as int, i as nat) == Some(views_of(bufs@)),
            steps == sim_steps(ps, h as int),
            start == init_trajectories(ps, h as int),
            sim_setup_ok(ps, h as int),
        decreases steps - i,
    {
        let ghost hists_now = views_of(bufs@);
        let mut news: Vec<StateVector> = Vec::new();
        let mut q: usize = 0;
        while q < n
            invariant
                0 <= q <= n,
                n == ps.len(),
                ps == params@,
                forall|q2: int| 0 <= q2 < ps.len() ==> (#[trigger] ps[q2]).wf(),
                h > 0,
                bufs@.len() == n,
                forall|q2: int| 0 <= q2 < n ==> (#[trigger] bufs@[q2]).wf(),
                hists_now == views_of(bufs@),
                news@.len() == q,
                regions_step_c(ps, hists_now, h as int, q as int) == Some(news@),
                n == g.len(),
                g == graph@,
                graph.wf(),
                0 <= i < steps,
                steps == sim_steps(ps, h as int),
                start == init_trajectories(ps, h as int),
                sim_setup_ok(ps, h as int),
                joint_advance_c(g, ps, start, h as int, i as nat) == Some(hists_now),
            decreases n - q,
        {
            let current: StateVector = bufs[q].current();
            let nx: StateVector = match rk4_impl(&params[q], &current, &bufs[q], t, h) {
                Some(v) => v,
                None => {
                    proof {
                        lemma_regions_step_none_sticks(ps, hists_now, h as int, q + 1, n as int);
                        lemma_joint_advance_none_sticks(
                            g,
                            ps,
                            start,
                            h as int,
                            (i + 1) as nat,
                            steps as nat,
                        );
                    }
                    return Err(SimError::StepFailed);
                },
            };
            news.push(nx);
            q = q + 1;
        }
        let ghost pre_coupling = news@;
        let ok: bool = coupling_step(graph, params, &mut news, h);
        if !ok {
            proof {
                lemma_joint_advance_none_sticks(
                    g,
                    ps,
                    start,
                    h as int,
                    (i + 1) as nat,
                    steps as nat,
                );
            }
            return Err(SimError::StepFailed);
        }
        let ghost coupled = news@;
        let mut q2: usize = 0;
        while q2 < n
            invariant
                0 <= q2 <= n,
                n == ps.len(),
                bufs@.len() == n,
                news@.len() == n,
                news@ == coupled,
                forall|j: int| 0 <= j < n ==> (#[trigger] bufs@[j]).wf(),
                forall|j: int|
                    q2 <= j < n ==> (#[trigger] bufs@[j])@ == hists_now[j] && bufs@[j].padding_spec()
                        == old_padding(ps, h as int, j),
                forall|j: int|
                    0 <= j < q2 ==> (#[trigger] bufs@[j])@ == hists_now[j].push(coupled[j])
                        && bufs@[j].padding_spec() == old_padding(ps, h as int, j),
                hists_now.len() == n,
                forall|j: int|
                    0 <= j < n ==> (#[trigger] bufs@[j]).padding_spec() == old_padding(
                        ps,
                        h as int,
                        j,
                    ),
            decreases n - q2,
        {
            let nv: StateVector = news[q2];
            bufs[q2].push(nv);
            q2 = q2 + 1;
        }
        proof {
            assert(views_of(bufs@) =~= Seq::new(
                hists_now.len(),
                |j: int| hists_now[j].push(coupled[j]),
            ));
        }
        t = match t.checked_add(h) {
            Some(v) => v,
            // The clock only reaches the measures, which do not read
            // it; once it cannot advance it stands still.
            None => t,
        };
        i = i + 1;
    }

    let ghost finished = views_of(bufs@);
    let mut out: Vec<Vec<StateVector>> = Vec::new();
    let mut w: usize = 0;
    while w < n
        invariant
            0 <= w <= n,
            n == ps.len(),
            ps == params@,
            h > 0,
            bufs@.len() == n - w,
            out@.len() == w,
            finished.len() == n,
            forall|j: int| 0 <= j < n - w ==> (#[trigger] bufs@[j]).wf(),
            forall|j: int| 0 <= j < n - w ==> (#[trigger] bufs@[j])@ == finished[w + j],
            forall|j: int|
                0 <= j < n - w ==> (#[trigger] bufs@[j]).padding_spec() == old_padding(
                    ps,
                    h as int,
                    w + j,
                ),
            forall|j: int|
                0 <= j < w ==> (#[trigger] out@[j])@ == finished[j].subrange(
                    old_padding(ps, h as int, j),
                    finished[j].len() as int,
                ),
        decreases n - w,
    {
        let b: HistoryBuffer = bufs.remove(0);
        out.push(b.into_trimmed());
        w = w + 1;
    }
    Ok(out)
}

/// The padding length region `j` of `ps` was set up with.
pub open spec fn old_padding(ps: Seq<SimulationParameters>, h: int, j: int) -> int {
    pad_len(ps[j].incubation_period_in_days * (SCALE as int), h)
}

} // verus!
