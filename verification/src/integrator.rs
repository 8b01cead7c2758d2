//! Delay-aware fourth-order Runge-Kutta stepping over a padded history
//! buffer.
//!
//! The derivative samples are already step-scaled (see [`crate::model`]),
//! so the classical 1/6, 2/6, 2/6, 1/6 weighted sum here adds them to
//! the state without multiplying by the step size again.

use vstd::prelude::*;
use crate::errors::SimError;
use crate::fixed::{SCALE, div_tz, add_c, sub_c, divi_c, lift, value_of, add_fx, lemma_div_magnitude};
use crate::history::{HistoryBuffer, pad_len};
use crate::model::{deltas_c, rate_of_change_with_time};
use crate::params::SimulationParameters;
use crate::state::StateVector;

verus! {

/// Every compartment halved, with truncation: the perturbation used by
/// the two half-step stages.
pub open spec fn state_half(b: StateVector) -> StateVector {
    StateVector {
        susceptible: div_tz(b.susceptible as int, 2) as i64,
        exposed: div_tz(b.exposed as int, 2) as i64,
        infectious: div_tz(b.infectious as int, 2) as i64,
        recovered: div_tz(b.recovered as int, 2) as i64,
        dead: div_tz(b.dead as int, 2) as i64,
        population: div_tz(b.population as int, 2) as i64,
        hospitalized: div_tz(b.hospitalized as int, 2) as i64,
    }
}

/// Component-wise sum of two state vectors; fails when any component
/// leaves the carrier.
pub open spec fn state_add_c(a: StateVector, b: StateVector) -> Option<StateVector> {
    let s1 = add_c(lift(a.susceptible), lift(b.susceptible));
    let s2 = add_c(lift(a.exposed), lift(b.exposed));
    let s3 = add_c(lift(a.infectious), lift(b.infectious));
    let s4 = add_c(lift(a.recovered), lift(b.recovered));
    let s5 = add_c(lift(a.dead), lift(b.dead));
    let s6 = add_c(lift(a.population), lift(b.population));
    let s7 = add_c(lift(a.hospitalized), lift(b.hospitalized));
    if s1 is Some && s2 is Some && s3 is Some && s4 is Some && s5 is Some && s6 is Some && s7
        is Some {
        Some(
            StateVector {
                susceptible: s1.unwrap() as i64,
                exposed: s2.unwrap() as i64,
                infectious: s3.unwrap() as i64,
                recovered: s4.unwrap() as i64,
                dead: s5.unwrap() as i64,
                population: s6.unwrap() as i64,
                hospitalized: s7.unwrap() as i64,
            },
        )
    } else {
        None
    }
}

/// One compartment of the weighted sum: the old value plus
/// `(k1 + 2*k2 + 2*k3 + k4) / 6`, truncated.
pub open spec fn comb_c(stx: i64, a: i64, b: i64, c: i64, d: i64) -> Option<int> {
    add_c(
        lift(stx),
        divi_c(
            add_c(
                add_c(add_c(lift(a), add_c(lift(b), lift(b))), add_c(lift(c), lift(c))),
                lift(d),
            ),
            6,
        ),
    )
}

/// The full weighted combination of the four derivative samples.
pub open spec fn rk4_combine_c(
    st: StateVector,
    k1: StateVector,
    k2: StateVector,
    k3: StateVector,
    k4: StateVector,
) -> Option<StateVector> {
    let s1 = comb_c(st.susceptible, k1.susceptible, k2.susceptible, k3.susceptible, k4.susceptible);
    let s2 = comb_c(st.exposed, k1.exposed, k2.exposed, k3.exposed, k4.exposed);
    let s3 = comb_c(st.infectious, k1.infectious, k2.infectious, k3.infectious, k4.infectious);
    let s4 = comb_c(st.recovered, k1.recovered, k2.recovered, k3.recovered, k4.recovered);
    let s5 = comb_c(st.dead, k1.dead, k2.dead, k3.dead, k4.dead);
    let s6 = comb_c(st.population, k1.population, k2.population, k3.population, k4.population);
    let s7 = comb_c(
        st.hospitalized,
        k1.hospitalized,
        k2.hospitalized,
        k3.hospitalized,
        k4.hospitalized,
    );
    if s1 is Some && s2 is Some && s3 is Some && s4 is Some && s5 is Some && s6 is Some && s7
        is Some {
        Some(
            StateVector {
                susceptible: s1.unwrap() as i64,
                exposed: s2.unwrap() as i64,
                infectious: s3.unwrap() as i64,
                recovered: s4.unwrap() as i64,
                dead: s5.unwrap() as i64,
                population: s6.unwrap() as i64,
                hospitalized: s7.unwrap() as i64,
            },
        )
    } else {
        None
    }
}

/// One whole RK4 step from `st` over the trajectory `hist`: sample the
/// step-scaled derivative at `st`, at the two half-step perturbations,
/// and at the full-step perturbation, then combine with the classical
/// weights.  Opaque: proofs that need the stage structure reveal it.
#[verifier::opaque]
pub open spec fn rk4_step_c(
    p: SimulationParameters,
    st: StateVector,
    hist: Seq<StateVector>,
    h: int,
) -> Option<StateVector> {
    match deltas_c(p, st, hist, h) {
        None => None,
        Some(k1) => match state_add_c(st, state_half(k1)) {
            None => None,
            Some(st2) => match deltas_c(p, st2, hist, h) {
                None => None,
                Some(k2) => match state_add_c(st, state_half(k2)) {
                    None => None,
                    Some(st3) => match deltas_c(p, st3, hist, h) {
                        None => None,
                        Some(k3) => match state_add_c(st, k3) {
                            None => None,
                            Some(st4) => match deltas_c(p, st4, hist, h) {
                                None => None,
                                Some(k4) => rk4_combine_c(st, k1, k2, k3, k4),
                            },
                        },
                    },
                },
            },
        },
    }
}

/// The seeded state a run starts from: everyone susceptible but the
/// initial spreaders, who start exposed.  Fails when the subtraction
/// leaves the carrier.
pub open spec fn initial_state_c(p: SimulationParameters) -> Option<StateVector> {
    match sub_c(lift(p.initial_population), lift(p.initial_spreaders)) {
        None => None,
        Some(s0) => Some(
            StateVector {
                susceptible: s0 as i64,
                exposed: p.initial_spreaders,
                infectious: 0i64,
                recovered: 0i64,
                dead: 0i64,
                population: p.initial_population,
                hospitalized: 0i64,
            },
        ),
    }
}

/// The repeating-before value the padding holds: an empty state at the
/// initial population.
pub open spec fn padding_state_c(p: SimulationParameters) -> StateVector {
    StateVector {
        susceptible: 0i64,
        exposed: 0i64,
        infectious: 0i64,
        recovered: 0i64,
        dead: 0i64,
        population: p.initial_population,
        hospitalized: 0i64,
    }
}

/// The trajectory after `steps` RK4 steps from `hist`: each step
/// samples at the newest entry and appends the combined result.
pub open spec fn advance_c(
    p: SimulationParameters,
    hist: Seq<StateVector>,
    h: int,
    steps: nat,
) -> Option<Seq<StateVector>>
    decreases steps,
{
    if steps == 0 {
        Some(hist)
    } else {
        match advance_c(p, hist, h, (steps - 1) as nat) {
            None => None,
            Some(hs) => match rk4_step_c(p, hs.last(), hs, h) {
                None => None,
                Some(nx) => Some(hs.push(nx)),
            },
        }
    }
}

/// Once a run has failed after some number of steps, running longer
/// fails too.
pub proof fn lemma_advance_none_sticks(
    p: SimulationParameters,
    hist: Seq<StateVector>,
    h: int,
    i: nat,
    j: nat,
)
    requires
        i <= j,
        advance_c(p, hist, h, i) is None,
    ensures
        advance_c(p, hist, h, j) is None,
    decreases j - i,
{
    if i < j {
        lemma_advance_none_sticks(p, hist, h, i, (j - 1) as nat);
    }
}

/// How many steps a run covers: the time span divided by the step
/// size, less the one slot the seeded initial state occupies.
pub open spec fn run_steps_count(span_days: int, h: int) -> int {
    let iters = div_tz(span_days * (SCALE as int), h);
    if iters >= 1 {
        iters - 1
    } else {
        0
    }
}

/// Whether the span of `p` yields a representable step count at step
/// size `h`.
pub open spec fn span_ok(p: SimulationParameters, h: int) -> bool {
    &&& p.time_span_in_days * (SCALE as int) <= u64::MAX as int
    &&& run_steps_count(p.time_span_in_days as int, h) <= usize::MAX as int
}

/// Whether the padded buffer for `p` at step size `h` can be set up.
pub open spec fn setup_ok(p: SimulationParameters, h: int) -> bool {
    &&& initial_state_c(p) is Some
    &&& p.incubation_period_in_days * (SCALE as int) <= i64::MAX as int
    &&& pad_len(p.incubation_period_in_days * (SCALE as int), h) + 1 <= usize::MAX as int
}

/// The padded trajectory a run starts from: the padding entries, then
/// the seeded initial state.
pub open spec fn init_trajectory(p: SimulationParameters, h: int) -> Seq<StateVector> {
    Seq::new(
        (pad_len(p.incubation_period_in_days * (SCALE as int), h) + 1) as nat,
        |i: int|
            if i < pad_len(p.incubation_period_in_days * (SCALE as int), h) {
                padding_state_c(p)
            } else {
                initial_state_c(p).unwrap()
            },
    )
}

/// Builds the padded history buffer a run starts from: the seeded
/// initial state behind `pad_len` copies of the repeating-before
/// value.  Rejects a non-positive step size, and any horizon or seed
/// the machine carrier cannot hold.
pub fn make_history(p: &SimulationParameters, h: i64) -> (r: Result<HistoryBuffer, SimError>)
    ensures
        r == Err::<HistoryBuffer, SimError>(SimError::InvalidStepSize) <==> h <= 0,
        r is Ok <==> h > 0 && setup_ok(*p, h as int),
        r == Err::<HistoryBuffer, SimError>(SimError::Overflow) <==> h > 0 && !setup_ok(
            *p,
            h as int,
        ),
        r matches Ok(hb) ==> {
            &&& hb.wf()
            &&& hb.padding_spec() == pad_len(
                p.incubation_period_in_days * (SCALE as int),
                h as int,
            )
            &&& hb.before_spec() == padding_state_c(*p)
            &&& hb@ == init_trajectory(*p, h as int)
        },
{
    if h <= 0 {
        return Err(SimError::InvalidStepSize);
    }
    let susceptible0: i64 = match p.initial_population.checked_sub(p.initial_spreaders) {
        Some(v) => v,
        None => {
            return Err(SimError::Overflow);
        },
    };
    let initial = StateVector {
        susceptible: susceptible0,
        exposed: p.initial_spreaders,
        infectious: 0,
        recovered: 0,
        dead: 0,
        population: p.initial_population,
        hospitalized: 0,
    };
    let before = StateVector {
        susceptible: 0,
        exposed: 0,
        infectious: 0,
        recovered: 0,
        dead: 0,
        population: p.initial_population,
        hospitalized: 0,
    };
    let delay_u: u64 = match (p.incubation_period_in_days as u64).checked_mul(SCALE as u64) {
        Some(v) => v,
        None => {
            return Err(SimError::Overflow);
        },
    };
    if delay_u > i64::MAX as u64 {
        return Err(SimError::Overflow);
    }
    let delay: i64 = delay_u as i64;
    let history: HistoryBuffer = match HistoryBuffer::new(before, initial, delay, h) {
        Some(b) => b,
        None => {
            return Err(SimError::Overflow);
        },
    };
    proof {
        assert(history@ =~= init_trajectory(*p, h as int));
    }
    Ok(history)
}

/// Truncating halving of a single scalar.
fn half_i64(x: i64) -> (r: i64)
    ensures
        r as int == div_tz(x as int, 2),
{
    match x.checked_div(2) {
        Some(v) => v,
        None => {
            // A positive plain divisor cannot fail.
            proof {
                lemma_div_magnitude(x as int, 2);
                assert(false);
            }
            0
        },
    }
}

/// Executable counterpart of [`state_half`].
fn state_half_fx(b: &StateVector) -> (r: StateVector)
    ensures
        r == state_half(*b),
{
    StateVector {
        susceptible: half_i64(b.susceptible),
        exposed: half_i64(b.exposed),
        infectious: half_i64(b.infectious),
        recovered: half_i64(b.recovered),
        dead: half_i64(b.dead),
        population: half_i64(b.population),
        hospitalized: half_i64(b.hospitalized),
    }
}

/// Executable counterpart of [`state_add_c`].
fn state_add(a: &StateVector, b: &StateVector) -> (r: Option<StateVector>)
    ensures
        r == state_add_c(*a, *b),
{
    Some(
        StateVector {
            susceptible: add_fx(a.susceptible, b.susceptible)?,
            exposed: add_fx(a.exposed, b.exposed)?,
            infectious: add_fx(a.infectious, b.infectious)?,
            recovered: add_fx(a.recovered, b.recovered)?,
            dead: add_fx(a.dead, b.dead)?,
            population: add_fx(a.population, b.population)?,
            hospitalized: add_fx(a.hospitalized, b.hospitalized)?,
        },
    )
}

/// Executable counterpart of [`comb_c`].
fn comb_fx(stx: i64, a: i64, b: i64, c: i64, d: i64) -> (r: Option<i64>)
    ensures
        value_of(r) == comb_c(stx, a, b, c, d),
{
    let bb: i64 = add_fx(b, b)?;
    let cc: i64 = add_fx(c, c)?;
    let sum: i64 = add_fx(add_fx(add_fx(a, bb)?, cc)?, d)?;
    let weighted: i64 = match sum.checked_div(6) {
        Some(v) => v,
        None => {
            // A positive plain divisor cannot fail.
            proof {
                lemma_div_magnitude(sum as int, 6);
                assert(false);
            }
            0
        },
    };
    add_fx(stx, weighted)
}

/// Samples the four derivative points and combines them, as
/// [`rk4_step_c`].  The stage times only reach the measures, which do
/// not read them; when a stage time cannot be represented, the current
/// time stands in.
pub fn rk4_impl(
    params: &SimulationParameters,
    value: &StateVector,
    history: &HistoryBuffer,
    t: i64,
    h: i64,
) -> (r: Option<StateVector>)
    requires
        params.wf(),
    ensures
        r == rk4_step_c(*params, *value, history@, h as int),
{
    proof {
        reveal(rk4_step_c);
    }
    let t_mid: i64 = match t.checked_add(half_i64(h)) {
        Some(v) => v,
        None => t,
    };
    let t_end: i64 = match t.checked_add(h) {
        Some(v) => v,
        None => t,
    };
    let k1: StateVector = rate_of_change_with_time(params, value, history, t, h)?;
    let st2: StateVector = state_add(value, &state_half_fx(&k1))?;
    let k2: StateVector = rate_of_change_with_time(params, &st2, history, t_mid, h)?;
    let st3: StateVector = state_add(value, &state_half_fx(&k2))?;
    let k3: StateVector = rate_of_change_with_time(params, &st3, history, t_mid, h)?;
    let st4: StateVector = state_add(value, &k3)?;
    let k4: StateVector = rate_of_change_with_time(params, &st4, history, t_end, h)?;
    Some(
        StateVector {
            susceptible: comb_fx(
                value.susceptible,
                k1.susceptible,
                k2.susceptible,
                k3.susceptible,
                k4.susceptible,
            )?,
            exposed: comb_fx(value.exposed, k1.exposed, k2.exposed, k3.exposed, k4.exposed)?,
            infectious: comb_fx(
                value.infectious,
                k1.infectious,
                k2.infectious,
                k3.infectious,
                k4.infectious,
            )?,
            recovered: comb_fx(
                value.recovered,
                k1.recovered,
                k2.recovered,
                k3.recovered,
                k4.recovered,
            )?,
            dead: comb_fx(value.dead, k1.dead, k2.dead, k3.dead, k4.dead)?,
            population: comb_fx(
                value.population,
                k1.population,
                k2.population,
                k3.population,
                k4.population,
            )?,
            hospitalized: comb_fx(
                value.hospitalized,
                k1.hospitalized,
                k2.hospitalized,
                k3.hospitalized,
                k4.hospitalized,
            )?,
        },
    )
}

/// Drives delay-aware RK4 stepping for one region: owns the padded
/// history buffer, appends one entry per step, and hands the finished
/// trajectory out with the padding stripped.
pub struct DelayAwareIntegrator {
    params: SimulationParameters,
    history: HistoryBuffer,
    h: i64,
    time: i64,
}

impl DelayAwareIntegrator {
    /// The parameter bundle the run was started with.
    pub closed spec fn params_spec(&self) -> SimulationParameters {
        self.params
    }

    /// The step size the run was started with.
    pub closed spec fn step_size_spec(&self) -> int {
        self.h as int
    }

    /// The trajectory so far, padding included.
    pub closed spec fn trajectory(&self) -> Seq<StateVector> {
        self.history@
    }

    /// The number of leading padding entries.
    pub closed spec fn padding_spec(&self) -> int {
        self.history.padding_spec()
    }

    /// The repeating-before value of the padding.
    pub closed spec fn before_spec(&self) -> StateVector {
        self.history.before_spec()
    }

    /// Internal consistency: well-formed parameters, a well-formed
    /// buffer and a positive step size.
    pub closed spec fn wf(&self) -> bool {
        &&& self.params.wf()
        &&& self.history.wf()
        &&& self.h > 0
    }

    /// Sets up a run: seeds the initial state from the parameters and
    /// pre-fills the padding the delay horizon asks for.  Rejects a
    /// non-positive step size, and any horizon or seed the machine
    /// carrier cannot hold.
    pub fn new(params: SimulationParameters, h: i64) -> (r: Result<DelayAwareIntegrator, SimError>)
        requires
            params.wf(),
        ensures
            r == Err::<DelayAwareIntegrator, SimError>(SimError::InvalidStepSize) <==> h <= 0,
            r is Ok <==> h > 0 && setup_ok(params, h as int),
            r matches Ok(it) ==> {
                &&& it.wf()
                &&& it.params_spec() == params
                &&& it.step_size_spec() == h
                &&& it.padding_spec() == pad_len(
                    params.incubation_period_in_days * (SCALE as int),
                    h as int,
                )
                &&& it.before_spec() == padding_state_c(params)
                &&& it.trajectory() == init_trajectory(params, h as int)
            },
    {
        let history: HistoryBuffer = match make_history(&params, h) {
            Ok(b) => b,
            Err(e) => {
                return Err(e);
            },
        };
        Ok(DelayAwareIntegrator { params, history, h, time: 0 })
    }

    /// The newest finalized state.
    pub fn current_state(&self) -> (r: StateVector)
        requires
            self.wf(),
        ensures
            r == self.trajectory().last(),
    {
        self.history.current()
    }

    /// Number of trajectory entries so far, padding included.
    pub fn len(&self) -> (n: usize)
        ensures
            n == self.trajectory().len(),
    {
        self.history.len()
    }

    /// Computes the next state without appending it, so a caller may
    /// adjust it (the coupling step does) before it becomes history.
    pub fn compute_step(&self) -> (r: Option<StateVector>)
        requires
            self.wf(),
        ensures
            r == rk4_step_c(
                self.params_spec(),
                self.trajectory().last(),
                self.trajectory(),
                self.step_size_spec(),
            ),
    {
        let current: StateVector = self.history.current();
        rk4_impl(&self.params, &current, &self.history, self.time, self.h)
    }

    /// Appends one finalized state and advances the clock.
    pub fn push_step(&mut self, st: StateVector)
        requires
            old(self).wf(),
        ensures
            final(self).wf(),
            final(self).trajectory() == old(self).trajectory().push(st),
            final(self).params_spec() == old(self).params_spec(),
            final(self).step_size_spec() == old(self).step_size_spec(),
            final(self).padding_spec() == old(self).padding_spec(),
            final(self).before_spec() == old(self).before_spec(),
    {
        self.history.push(st);
        self.time = match self.time.checked_add(self.h) {
            Some(v) => v,
            // The clock only reaches the measures, which do not read
            // it; once it cannot advance it stands still.
            None => self.time,
        };
    }

    /// Runs the whole configured time span: `run_steps_count` steps,
    /// each one RK4 step appended to the trajectory, exactly as
    /// [`advance_c`] describes.
    #[verifier::rlimit(60)]
    pub fn integrate(&mut self) -> (r: Result<(), SimError>)
        requires
            old(self).wf(),
        ensures
            final(self).wf(),
            final(self).params_spec() == old(self).params_spec(),
            final(self).step_size_spec() == old(self).step_size_spec(),
            final(self).padding_spec() == old(self).padding_spec(),
            final(self).before_spec() == old(self).before_spec(),
            r == Err::<(), SimError>(SimError::Overflow) <==> !span_ok(
                old(self).params_spec(),
                old(self).step_size_spec(),
            ),
            r is Ok <==> span_ok(old(self).params_spec(), old(self).step_size_spec())
                && advance_c(
                old(self).params_spec(),
                old(self).trajectory(),
                old(self).step_size_spec(),
                run_steps_count(
                    old(self).params_spec().time_span_in_days as int,
                    old(self).step_size_spec(),
                ) as nat,
            ) is Some,
            r is Ok ==> Some(final(self).trajectory()) == advance_c(
                old(self).params_spec(),
                old(self).trajectory(),
                old(self).step_size_spec(),
                run_steps_count(
                    old(self).params_spec().time_span_in_days as int,
                    old(self).step_size_spec(),
                ) as nat,
            ),
    {
        let ghost p = self.params;
        let ghost start = self.history@;
        let ghost h_g = self.h as int;
        let span_fx: u64 = match (self.params.time_span_in_days as u64).checked_mul(SCALE as u64) {
            Some(v) => v,
            None => {
                return Err(SimError::Overflow);
            },
        };
        let iters: u64 = span_fx / (self.h as u64);
        let steps_u: u64 = if iters >= 1 {
            iters - 1
        } else {
            0
        };
        assert(steps_u == run_steps_count(p.time_span_in_days as int, h_g));
        if steps_u > usize::MAX as u64 {
            return Err(SimError::Overflow);
        }
        let steps: usize = steps_u as usize;
        let mut i: usize = 0;
        while i < steps
            invariant
                0 <= i <= steps,
                self.wf(),
                p == old(self).params_spec(),
                start == old(self).trajectory(),
                h_g == old(self).step_size_spec(),
                steps == run_steps_count(p.time_span_in_days as int, h_g),
                span_ok(p, h_g),
                self.params_spec() == p,
                self.step_size_spec() == h_g,
                self.padding_spec() == old(self).padding_spec(),
                self.before_spec() == old(self).before_spec(),
                advance_c(p, start, h_g, i as nat) == Some(self.trajectory()),
            decreases steps - i,
        {
            let nx: StateVector = match self.compute_step() {
                Some(v) => v,
                None => {
                    proof {
                        lemma_advance_none_sticks(p, start, h_g, (i + 1) as nat, steps as nat);
                    }
                    return Err(SimError::StepFailed);
                },
            };
            self.push_step(nx);
            i = i + 1;
        }
        Ok(())
    }

    /// Hands the finished trajectory out with the padding stripped,
    /// together with the parameters that produced it.
    pub fn into_series(self) -> (r: (Vec<StateVector>, SimulationParameters))
        requires
            self.wf(),
        ensures
            r.0@ == self.trajectory().subrange(
                self.padding_spec(),
                self.trajectory().len() as int,
            ),
            r.1 == self.params_spec(),
    {
        let DelayAwareIntegrator { params, history, .. } = self;
        (history.into_trimmed(), params)
    }
}

} // verus!
