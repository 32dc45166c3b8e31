//! Derivative state and the host step derivative computation.
use vstd::prelude::*;
use vstd::wrapping::i64_specs::{wrapping_add as wadd, wrapping_mul as wmul, wrapping_sub as wsub};
use crate::arith::{add_vec, mat_t_vec, mat_t_vec_exec, read_row, row_of};
use crate::estimation::{zeros, EstimationState, EstimationView};
use crate::model::{EngineError, FunctionalDescription};

verus! {

/// The per-run algorithm settings the derivative computation reads.
#[derive(Debug, Clone, Copy, PartialEq, Eq, Structural)]
pub struct AlgorithmConfig {
    /// Leave the gain accumulator untouched.
    pub freeze_gains: bool,
    /// Leave the delay accumulator untouched.
    pub freeze_delays: bool,
    /// Add the estimation state's gain correction term to the gain contribution.
    pub update_kalman_gain: bool,
    /// Steps per parameter update; `0` means one update per epoch.
    pub batch_size: usize,
}

/// The measured sensor readings of a run, one row of `num_sensors` per step.
pub struct ActualMeasurements {
    pub num_steps: usize,
    pub num_sensors: usize,
    pub values: Vec<i64>,
}

impl ActualMeasurements {
    /// The readings fill one row per step.
    pub open spec fn wf(&self, fd: &FunctionalDescription) -> bool {
        &&& self.num_steps == fd.num_steps
        &&& self.num_sensors == fd.num_sensors
        &&& self.values@.len() == fd.num_steps * fd.num_sensors
    }

    /// Wraps readings, refusing them unless there is one full row per step.
    pub fn new(num_steps: usize, num_sensors: usize, values: Vec<i64>) -> (r: Result<
        ActualMeasurements,
        EngineError,
    >)
        ensures
            r is Ok <==> values@.len() == num_steps * num_sensors,
            r is Err ==> r == Err::<ActualMeasurements, EngineError>(
                EngineError::DimensionMismatch,
            ),
            r matches Ok(a) ==> a.num_steps == num_steps && a.num_sensors == num_sensors
                && a.values@ == values@,
    {
        let len: usize = values.len();
        match num_steps.checked_mul(num_sensors) {
            Some(total) => {
                if len == total {
                    Ok(ActualMeasurements { num_steps, num_sensors, values })
                } else {
                    Err(EngineError::DimensionMismatch)
                }
            },
            None => Err(EngineError::DimensionMismatch),
        }
    }
}

/// Gradient accumulators, one entry per state for each parameter class.
pub struct DerivativeState {
    pub num_states: usize,
    pub gains: Vec<i64>,
    pub delays: Vec<i64>,
}

/// The contents of a [`DerivativeState`].
pub struct DerivativeView {
    pub gains: Seq<i64>,
    pub delays: Seq<i64>,
}

impl View for DerivativeState {
    type V = DerivativeView;

    open spec fn view(&self) -> DerivativeView {
        DerivativeView { gains: self.gains@, delays: self.delays@ }
    }
}

/// Both accumulators hold one entry per state of `fd`.
pub open spec fn derivatives_sized(d: DerivativeView, fd: FunctionalDescription) -> bool {
    d.gains.len() == fd.num_states && d.delays.len() == fd.num_states
}

/// `n` zeros.
pub open spec fn zero_seq(n: nat) -> Seq<i64> {
    Seq::new(n, |i: int| 0i64)
}

/// Predicted minus actual measurement at step `t`.
pub open spec fn residual(
    e: EstimationView,
    actual: Seq<i64>,
    fd: FunctionalDescription,
    t: int,
) -> Seq<i64> {
    let m = fd.num_sensors as int;
    Seq::new(
        fd.num_sensors as nat,
        |s: int| wsub(row_of(e.measurements, t, m)[s], row_of(actual, t, m)[s]),
    )
}

/// The residual of step `t` back-projected through the observation operator.
pub open spec fn back_projection(
    e: EstimationView,
    actual: Seq<i64>,
    fd: FunctionalDescription,
    t: int,
) -> Seq<i64> {
    mat_t_vec(
        fd.observation@,
        fd.num_sensors as int,
        fd.num_states as int,
        residual(e, actual, fd, t),
    )
}

/// Step `t`'s contribution to the gain accumulator: the back-projection carried
/// back through the transition operator, plus the gain correction term when
/// `update_kalman_gain` is set.
pub open spec fn gain_contribution(
    e: EstimationView,
    actual: Seq<i64>,
    fd: FunctionalDescription,
    config: AlgorithmConfig,
    t: int,
) -> Seq<i64> {
    let g = mat_t_vec(
        fd.transition@,
        fd.num_states as int,
        fd.num_states as int,
        back_projection(e, actual, fd, t),
    );
    if config.update_kalman_gain {
        add_vec(g, e.gain_correction)
    } else {
        g
    }
}

/// Step `t`'s contribution to the delay accumulator: the back-projection
/// weighted by the state of step `t`.
pub open spec fn delay_contribution(
    e: EstimationView,
    actual: Seq<i64>,
    fd: FunctionalDescription,
    t: int,
) -> Seq<i64> {
    let b = back_projection(e, actual, fd, t);
    let x = row_of(e.system_states, t, fd.num_states as int);
    Seq::new(fd.num_states as nat, |i: int| wmul(b[i], x[i]))
}

/// The accumulators after step `t`: each unfrozen class gains its contribution,
/// each frozen class is left as it was.
pub open spec fn derived(
    d: DerivativeView,
    e: EstimationView,
    actual: Seq<i64>,
    fd: FunctionalDescription,
    config: AlgorithmConfig,
    t: int,
) -> DerivativeView {
    DerivativeView {
        gains: if config.freeze_gains {
            d.gains
        } else {
            add_vec(d.gains, gain_contribution(e, actual, fd, config, t))
        },
        delays: if config.freeze_delays {
            d.delays
        } else {
            add_vec(d.delays, delay_contribution(e, actual, fd, t))
        },
    }
}

/// Adds `v` element-wise into `acc`, wrapping.
pub fn add_into(acc: &mut Vec<i64>, v: &Vec<i64>)
    requires
        old(acc)@.len() == v@.len(),
    ensures
        final(acc)@ == add_vec(old(acc)@, v@),
{
    let ghost start = acc@;
    let mut i: usize = 0;
    while i < v.len()
        invariant
            start.len() == v@.len(),
            acc@.len() == start.len(),
            i <= v@.len(),
            forall|j: int|
                0 <= j < i ==> acc@[j] == wadd(start[j], v@[j]),
            forall|j: int| i <= j < start.len() ==> acc@[j] == start[j],
        decreases v@.len() - i,
    {
        let s = acc[i].wrapping_add(v[i]);
        acc.set(i, s);
        i = i + 1;
    }
    assert(acc@ =~= add_vec(start, v@));
}

impl DerivativeState {
    /// The accumulators are sized for `fd`.
    pub open spec fn wf(&self, fd: &FunctionalDescription) -> bool {
        self.num_states == fd.num_states && derivatives_sized(self@, *fd)
    }

    /// Zeroed accumulators for `num_states` states.
    pub fn new(num_states: usize) -> (r: DerivativeState)
        ensures
            r.num_states == num_states,
            r@.gains == zero_seq(num_states as nat),
            r@.delays == zero_seq(num_states as nat),
    {
        DerivativeState { num_states, gains: zeros(num_states), delays: zeros(num_states) }
    }

    /// Zeroes both accumulators, as at the start of an epoch.
    pub fn reset(&mut self)
        ensures
            final(self).num_states == old(self).num_states,
            final(self)@.gains == zero_seq(old(self).gains@.len()),
            final(self)@.delays == zero_seq(old(self).delays@.len()),
    {
        let g = self.gains.len();
        let d = self.delays.len();
        self.gains = zeros(g);
        self.delays = zeros(d);
    }
}

/// Host step derivative computation: adds the contribution of step `step` to
/// every unfrozen accumulator.
pub fn calculate_step_derivatives(
    derivatives: &mut DerivativeState,
    estimations: &EstimationState,
    functional_description: &FunctionalDescription,
    actual_measurements: &ActualMeasurements,
    config: &AlgorithmConfig,
    step: usize,
)
    requires
        functional_description.wf(),
        estimations.wf(functional_description),
        old(derivatives).wf(functional_description),
        actual_measurements.wf(functional_description),
        step < functional_description.num_steps,
    ensures
        final(derivatives).wf(functional_description),
        final(derivatives)@ == derived(
            old(derivatives)@,
            estimations@,
            actual_measurements.values@,
            *functional_description,
            *config,
            step as int,
        ),
{
    let fd = functional_description;
    let n = fd.num_states;
    let m = fd.num_sensors;
    proof {
        assert((step + 1) * n <= fd.num_steps * n) by (nonlinear_arith)
            requires
                step < fd.num_steps,
        ;
        assert((step + 1) * m <= fd.num_steps * m) by (nonlinear_arith)
            requires
                step < fd.num_steps,
        ;
        assert(step * n + n == (step + 1) * n) by (nonlinear_arith);
        assert(step * m + m == (step + 1) * m) by (nonlinear_arith);
    }
    let ghost e = estimations@;
    let ghost actual = actual_measurements.values@;
    let predicted = read_row(&estimations.measurements, step, m);
    let measured = read_row(&actual_measurements.values, step, m);
    let mut r: Vec<i64> = Vec::new();
    let mut s: usize = 0;
    while s < m
        invariant
            m == fd.num_sensors,
            predicted@ == row_of(e.measurements, step as int, m as int),
            measured@ == row_of(actual, step as int, m as int),
            predicted@.len() == m,
            measured@.len() == m,
            s <= m,
            r@.len() == s,
            forall|j: int| 0 <= j < s ==> r@[j] == residual(e, actual, *fd, step as int)[j],
        decreases m - s,
    {
        r.push(predicted[s].wrapping_sub(measured[s]));
        s = s + 1;
    }
    assert(r@ =~= residual(e, actual, *fd, step as int));
    let b = mat_t_vec_exec(&fd.observation, m, n, &r);
    if !config.freeze_gains {
        let mut g = mat_t_vec_exec(&fd.transition, n, n, &b);
        if config.update_kalman_gain {
            add_into(&mut g, &estimations.gain_correction);
        }
        assert(g@ == gain_contribution(e, actual, *fd, *config, step as int));
        add_into(&mut derivatives.gains, &g);
    }
    if !config.freeze_delays {
        let x = read_row(&estimations.system_states, step, n);
        let mut dc: Vec<i64> = Vec::new();
        let mut i: usize = 0;
        while i < n
            invariant
                n == fd.num_states,
                b@.len() == n,
                x@ == row_of(e.system_states, step as int, n as int),
                x@.len() == n,
                b@ == back_projection(e, actual, *fd, step as int),
                i <= n,
                dc@.len() == i,
                forall|j: int|
                    0 <= j < i ==> dc@[j] == delay_contribution(e, actual, *fd, step as int)[j],
            decreases n - i,
        {
            dc.push(b[i].wrapping_mul(x[i]));
            i = i + 1;
        }
        assert(dc@ =~= delay_contribution(e, actual, *fd, step as int));
        add_into(&mut derivatives.delays, &dc);
    }
}

/// The accumulators after the contributions of steps `0..k`, in order.
pub open spec fn derive_steps(
    d: DerivativeView,
    e: EstimationView,
    actual: Seq<i64>,
    fd: FunctionalDescription,
    config: AlgorithmConfig,
    k: nat,
) -> DerivativeView
    decreases k,
{
    if k == 0 {
        d
    } else {
        derived(derive_steps(d, e, actual, fd, config, (k - 1) as nat), e, actual, fd, config, k - 1)
    }
}

/// Runs the host step derivative computation for steps `0..count`, in order.
pub fn run_derivation(
    derivatives: &mut DerivativeState,
    estimations: &EstimationState,
    functional_description: &FunctionalDescription,
    actual_measurements: &ActualMeasurements,
    config: &AlgorithmConfig,
    count: usize,
)
    requires
        functional_description.wf(),
        estimations.wf(functional_description),
        old(derivatives).wf(functional_description),
        actual_measurements.wf(functional_description),
        count <= functional_description.num_steps,
    ensures
        final(derivatives).wf(functional_description),
        final(derivatives)@ == derive_steps(
            old(derivatives)@,
            estimations@,
            actual_measurements.values@,
            *functional_description,
            *config,
            count as nat,
        ),
{
    let ghost start = derivatives@;
    let mut t: usize = 0;
    while t < count
        invariant
            functional_description.wf(),
            estimations.wf(functional_description),
            derivatives.wf(functional_description),
            actual_measurements.wf(functional_description),
            count <= functional_description.num_steps,
            t <= count,
            derivatives@ == derive_steps(
                start,
                estimations@,
                actual_measurements.values@,
                *functional_description,
                *config,
                t as nat,
            ),
        decreases count - t,
    {
        calculate_step_derivatives(
            derivatives,
            estimations,
            functional_description,
            actual_measurements,
            config,
            t,
        );
        t = t + 1;
    }
}

/// Whether the parameter update is due after step `step` of an epoch of
/// `num_steps` steps: after every `batch_size` accumulated steps, and always
/// after the last step; with `batch_size == 0` only after the last step.
pub fn batch_complete(config: &AlgorithmConfig, step: usize, num_steps: usize) -> (r: bool)
    requires
        step < num_steps,
    ensures
        r == (step + 1 == num_steps || (config.batch_size > 0 && (step + 1) % (
        config.batch_size as int) == 0)),
{
    if step + 1 == num_steps {
        true
    } else if config.batch_size == 0 {
        false
    } else {
        (step + 1) % config.batch_size == 0
    }
}

} // verus!
