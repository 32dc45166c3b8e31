//! Estimation state and the host system prediction.
use vstd::prelude::*;
use crate::arith::{copy_vec, mat_vec_exec, read_row, row_of, store_row, write_row};
use vstd::wrapping::i64_specs::wrapping_add as wadd;
use crate::model::{
    control_term, observe, transition_step, EngineError, FunctionalDescription,
};

verus! {

/// Per-run estimation state: the state and the predicted measurement of every
/// step (row-major, one row per step), the state the run starts from, the
/// per-state gain correction term, and the index of the last predicted step.
pub struct EstimationState {
    pub num_states: usize,
    pub num_sensors: usize,
    pub num_steps: usize,
    pub initial_state: Vec<i64>,
    pub system_states: Vec<i64>,
    pub measurements: Vec<i64>,
    pub gain_correction: Vec<i64>,
    pub step: usize,
}

/// The contents of an [`EstimationState`].
pub struct EstimationView {
    pub step: nat,
    pub initial_state: Seq<i64>,
    pub system_states: Seq<i64>,
    pub measurements: Seq<i64>,
    pub gain_correction: Seq<i64>,
}

impl View for EstimationState {
    type V = EstimationView;

    open spec fn view(&self) -> EstimationView {
        EstimationView {
            step: self.step as nat,
            initial_state: self.initial_state@,
            system_states: self.system_states@,
            measurements: self.measurements@,
            gain_correction: self.gain_correction@,
        }
    }
}

/// Whether a view's buffers are sized for a run of `fd`.
pub open spec fn estimation_sized(e: EstimationView, fd: FunctionalDescription) -> bool {
    &&& e.initial_state.len() == fd.num_states
    &&& e.gain_correction.len() == fd.num_states
    &&& e.system_states.len() == fd.num_steps * fd.num_states
    &&& e.measurements.len() == fd.num_steps * fd.num_sensors
}

/// The state that step `t` starts from: the initial state for step `0`, else
/// the state of step `t - 1`.
pub open spec fn previous_state(e: EstimationView, fd: FunctionalDescription, t: int) -> Seq<i64> {
    if t == 0 {
        e.initial_state
    } else {
        row_of(e.system_states, t - 1, fd.num_states as int)
    }
}

/// The estimation state after the host prediction of step `t`.
pub open spec fn predicted(e: EstimationView, fd: FunctionalDescription, t: int) -> EstimationView {
    let x = transition_step(fd, previous_state(e, fd, t), t);
    EstimationView {
        step: t as nat,
        system_states: write_row(e.system_states, t, fd.num_states as int, x),
        measurements: write_row(e.measurements, t, fd.num_sensors as int, observe(fd, x)),
        ..e
    }
}

impl EstimationState {
    /// The buffers are sized for a run of `fd`.
    pub open spec fn wf(&self, fd: &FunctionalDescription) -> bool {
        &&& self.num_states == fd.num_states
        &&& self.num_sensors == fd.num_sensors
        &&& self.num_steps == fd.num_steps
        &&& estimation_sized(self@, *fd)
    }

    /// A zeroed estimation state for a run of `fd` starting from `initial_state`.
    pub fn new(fd: &FunctionalDescription, initial_state: Vec<i64>) -> (r: Result<
        EstimationState,
        EngineError,
    >)
        requires
            fd.wf(),
        ensures
            r is Ok <==> (initial_state@.len() == fd.num_states && fd.num_steps * fd.num_states
                <= usize::MAX && fd.num_steps * fd.num_sensors <= usize::MAX),
            r is Err ==> r == Err::<EstimationState, EngineError>(EngineError::DimensionMismatch),
            r matches Ok(e) ==> {
                &&& e.wf(fd)
                &&& e.step == 0
                &&& e@.initial_state == initial_state@
                &&& e@.system_states == Seq::new(e@.system_states.len(), |i: int| 0i64)
                &&& e@.measurements == Seq::new(e@.measurements.len(), |i: int| 0i64)
                &&& e@.gain_correction == Seq::new(fd.num_states as nat, |i: int| 0i64)
            },
    {
        if initial_state.len() != fd.num_states {
            return Err(EngineError::DimensionMismatch);
        }
        let states_len = fd.num_steps.checked_mul(fd.num_states);
        let meas_len = fd.num_steps.checked_mul(fd.num_sensors);
        match (states_len, meas_len) {
            (Some(sl), Some(ml)) => {
                let system_states = zeros(sl);
                let measurements = zeros(ml);
                let gain_correction = zeros(fd.num_states);
                Ok(
                    EstimationState {
                        num_states: fd.num_states,
                        num_sensors: fd.num_sensors,
                        num_steps: fd.num_steps,
                        initial_state,
                        system_states,
                        measurements,
                        gain_correction,
                        step: 0,
                    },
                )
            },
            _ => Err(EngineError::DimensionMismatch),
        }
    }
}

/// A vector of `len` zeros.
pub fn zeros(len: usize) -> (r: Vec<i64>)
    ensures
        r@ == Seq::new(len as nat, |i: int| 0i64),
{
    let mut r: Vec<i64> = Vec::new();
    let mut k: usize = 0;
    while k < len
        invariant
            k <= len,
            r@ == Seq::new(k as nat, |i: int| 0i64),
        decreases len - k,
    {
        r.push(0);
        k = k + 1;
        assert(r@ =~= Seq::new(k as nat, |i: int| 0i64));
    }
    r
}

/// Host system prediction: computes the state of step `step` from the state the
/// step starts from, stores it and its predicted measurement in the step's rows,
/// and records `step` as the current step.
pub fn calculate_system_prediction(
    estimations: &mut EstimationState,
    functional_description: &FunctionalDescription,
    step: usize,
)
    requires
        functional_description.wf(),
        old(estimations).wf(functional_description),
        step < functional_description.num_steps,
    ensures
        final(estimations).wf(functional_description),
        final(estimations)@ == predicted(old(estimations)@, *functional_description, step as int),
{
    let fd = functional_description;
    let n = fd.num_states;
    let m = fd.num_sensors;
    proof {
        assert((step + 1) * n <= fd.num_steps * n) by (nonlinear_arith)
            requires
                step < fd.num_steps,
        ;
        assert((step + 1) * m <= fd.num_steps * m) by (nonlinear_arith)
            requires
                step < fd.num_steps,
        ;
        assert(step * n + n == (step + 1) * n) by (nonlinear_arith);
        assert(step * m + m == (step + 1) * m) by (nonlinear_arith);
    }
    let prev = if step == 0 {
        copy_vec(&estimations.initial_state)
    } else {
        proof {
            assert(((step - 1) as usize + 1) * n <= fd.num_steps * n) by (nonlinear_arith)
                requires
                    step < fd.num_steps,
                    step >= 1,
            ;
            assert(((step - 1) as usize + 1) * n == (step - 1) as usize * n + n) by (nonlinear_arith);
        }
        read_row(&estimations.system_states, step - 1, n)
    };
    assert(prev@ == previous_state(estimations@, *fd, step as int));
    let ax = mat_vec_exec(&fd.transition, n, n, &prev);
    let u = fd.excitation[step];
    let mut x: Vec<i64> = Vec::new();
    let mut i: usize = 0;
    while i < n
        invariant
            n == fd.num_states,
            fd.wf(),
            step < fd.num_steps,
            u == fd.excitation@[step as int],
            ax@.len() == n,
            i <= n,
            x@.len() == i,
            forall|j: int|
                0 <= j < i ==> x@[j] == wadd(ax@[j], control_term(*fd, step as int)[j]),
        decreases n - i,
    {
        x.push(ax[i].wrapping_add(fd.control[i].wrapping_mul(u)));
        i = i + 1;
    }
    assert(x@ =~= transition_step(*fd, prev@, step as int));
    let y = mat_vec_exec(&fd.observation, m, n, &x);
    store_row(&mut estimations.system_states, step, n, &x);
    store_row(&mut estimations.measurements, step, m, &y);
    estimations.step = step;
    proof {
        let e = estimations@;
        let p = predicted(old(estimations)@, *fd, step as int);
        assert(e.system_states =~= p.system_states);
        assert(e.measurements =~= p.measurements);
    }
}

/// The estimation state after host predictions of steps `0..k`, in order.
pub open spec fn predict_steps(e: EstimationView, fd: FunctionalDescription, k: nat) -> EstimationView
    decreases k,
{
    if k == 0 {
        e
    } else {
        predicted(predict_steps(e, fd, (k - 1) as nat), fd, k - 1)
    }
}

/// Runs the host prediction for steps `0..count`, in order.
pub fn run_prediction(
    estimations: &mut EstimationState,
    functional_description: &FunctionalDescription,
    count: usize,
)
    requires
        functional_description.wf(),
        old(estimations).wf(functional_description),
        count <= functional_description.num_steps,
    ensures
        final(estimations).wf(functional_description),
        final(estimations)@ == predict_steps(old(estimations)@, *functional_description, count as nat),
{
    let ghost start = estimations@;
    let mut t: usize = 0;
    while t < count
        invariant
            functional_description.wf(),
            estimations.wf(functional_description),
            count <= functional_description.num_steps,
            t <= count,
            estimations@ == predict_steps(start, *functional_description, t as nat),
        decreases count - t,
    {
        calculate_system_prediction(estimations, functional_description, t);
        t = t + 1;
    }
}

} // verus!
