//! Device mirrors of the host buffers, driven through one in-order command queue.
//!
//! The mirrors are private: device-resident state is only seen through
//! [`Device::pull`], which first runs every enqueued command.
use vstd::prelude::*;
use crate::arith::copy_vec;
use crate::derivation::{
    calculate_step_derivatives, derived, AlgorithmConfig, ActualMeasurements, DerivativeState,
    DerivativeView,
};
use crate::estimation::{calculate_system_prediction, predicted, EstimationState, EstimationView};
use crate::model::{EngineError, FunctionalDescription};

verus! {

/// A command on the device queue.
#[derive(Debug, Clone, Copy, PartialEq, Eq, Structural)]
pub enum Command {
    /// Store a step index in the step cell.
    WriteStep(usize),
    /// Run the prediction of the step in the step cell.
    Predict,
    /// Run the derivative computation of the step in the step cell.
    Derive(AlgorithmConfig),
}

/// Two descriptions with the same counts and the same operators.
pub open spec fn same_model(a: FunctionalDescription, b: FunctionalDescription) -> bool {
    &&& a.num_states == b.num_states
    &&& a.num_sensors == b.num_sensors
    &&& a.num_steps == b.num_steps
    &&& a.transition@ == b.transition@
    &&& a.observation@ == b.observation@
    &&& a.control@ == b.control@
    &&& a.excitation@ == b.excitation@
}

/// A copy of a functional description.
pub fn copy_model(fd: &FunctionalDescription) -> (r: FunctionalDescription)
    ensures
        same_model(r, *fd),
{
    FunctionalDescription {
        num_states: fd.num_states,
        num_sensors: fd.num_sensors,
        num_steps: fd.num_steps,
        transition: copy_vec(&fd.transition),
        observation: copy_vec(&fd.observation),
        control: copy_vec(&fd.control),
        excitation: copy_vec(&fd.excitation),
    }
}

/// What the device holds, and the commands not yet run.
pub struct DeviceView {
    pub model: FunctionalDescription,
    pub estimations: EstimationView,
    pub derivatives: DerivativeView,
    pub actual: Seq<i64>,
    pub step_cell: nat,
    pub pending: Seq<Command>,
}

/// The device contents after running command `c`.
pub open spec fn apply(s: DeviceView, c: Command) -> DeviceView {
    match c {
        Command::WriteStep(k) => DeviceView { step_cell: k as nat, ..s },
        Command::Predict => DeviceView {
            estimations: predicted(s.estimations, s.model, s.step_cell as int),
            ..s
        },
        Command::Derive(config) => DeviceView {
            derivatives: derived(
                s.derivatives,
                s.estimations,
                s.actual,
                s.model,
                config,
                s.step_cell as int,
            ),
            ..s
        },
    }
}

/// The device contents after running `cmds` in order.
pub open spec fn run(s: DeviceView, cmds: Seq<Command>) -> DeviceView
    decreases cmds.len(),
{
    if cmds.len() == 0 {
        s
    } else {
        apply(run(s, cmds.drop_last()), cmds.last())
    }
}

/// The device contents once every pending command has run; nothing is left pending.
pub open spec fn settled(s: DeviceView) -> DeviceView {
    DeviceView { pending: Seq::empty(), ..run(s, s.pending) }
}

/// The device, its mirror buffers and its command queue.
pub struct Device {
    model: FunctionalDescription,
    estimations: EstimationState,
    derivatives: DerivativeState,
    actual: ActualMeasurements,
    step_cell: usize,
    pending: Vec<Command>,
}

impl View for Device {
    type V = DeviceView;

    closed spec fn view(&self) -> DeviceView {
        DeviceView {
            model: self.model,
            estimations: self.estimations@,
            derivatives: self.derivatives@,
            actual: self.actual.values@,
            step_cell: self.step_cell as nat,
            pending: self.pending@,
        }
    }
}

/// Every command of `cmds` that writes a step writes one below `num_steps`.
pub open spec fn steps_in_range(cmds: Seq<Command>, num_steps: nat) -> bool {
    forall|i: int|
        0 <= i < cmds.len() ==> (#[trigger] cmds[i] matches Command::WriteStep(k) ==> k
            < num_steps)
}

impl Device {
    /// The mirrors are sized for the model and every step index is in range.
    pub closed spec fn wf(&self) -> bool {
        &&& self.model.wf()
        &&& self.model.num_steps > 0
        &&& self.estimations.wf(&self.model)
        &&& self.derivatives.wf(&self.model)
        &&& self.actual.wf(&self.model)
        &&& self.step_cell < self.model.num_steps
        &&& steps_in_range(self.pending@, self.model.num_steps as nat)
    }

    /// Mirrors the host buffers on a new device with an empty queue and step cell `0`.
    ///
    /// Refuses buffers that are not sized for `functional_description`, and a run of no steps.
    pub fn push(
        estimations: &EstimationState,
        derivatives: &DerivativeState,
        functional_description: &FunctionalDescription,
        actual_measurements: &ActualMeasurements,
    ) -> (r: Result<Device, EngineError>)
        requires
            functional_description.wf(),
        ensures
            r is Ok <==> (functional_description.num_steps > 0 && estimations.wf(
                functional_description,
            ) && derivatives.wf(functional_description) && actual_measurements.wf(
                functional_description,
            )),
            r is Err ==> r == Err::<Device, EngineError>(EngineError::DimensionMismatch),
            r matches Ok(d) ==> {
                &&& d.wf()
                &&& same_model(d@.model, *functional_description)
                &&& d@.estimations == estimations@
                &&& d@.derivatives == derivatives@
                &&& d@.actual == actual_measurements.values@
                &&& d@.step_cell == 0
                &&& d@.pending == Seq::<Command>::empty()
            },
    {
        let fd = functional_description;
        if fd.num_steps == 0 || !estimation_fits(estimations, fd) || derivatives.num_states
            != fd.num_states || derivatives.gains.len() != fd.num_states
            || derivatives.delays.len() != fd.num_states || actual_measurements.num_steps
            != fd.num_steps || actual_measurements.num_sensors != fd.num_sensors {
            return Err(EngineError::DimensionMismatch);
        }
        let actual_len: usize = actual_measurements.values.len();
        match fd.num_steps.checked_mul(fd.num_sensors) {
            Some(total) => {
                if actual_len != total {
                    return Err(EngineError::DimensionMismatch);
                }
            },
            None => {
                return Err(EngineError::DimensionMismatch);
            },
        }
        let d = Device {
            model: copy_model(fd),
            estimations: copy_estimation(estimations),
            derivatives: DerivativeState {
                num_states: derivatives.num_states,
                gains: copy_vec(&derivatives.gains),
                delays: copy_vec(&derivatives.delays),
            },
            actual: ActualMeasurements {
                num_steps: actual_measurements.num_steps,
                num_sensors: actual_measurements.num_sensors,
                values: copy_vec(&actual_measurements.values),
            },
            step_cell: 0,
            pending: Vec::new(),
        };
        assert(d@.pending =~= Seq::<Command>::empty());
        Ok(d)
    }

    /// The state, sensor and step counts the mirrors are sized for.
    pub fn dims(&self) -> (r: (usize, usize, usize))
        ensures
            r == (self@.model.num_states, self@.model.num_sensors, self@.model.num_steps),
    {
        (self.model.num_states, self.model.num_sensors, self.model.num_steps)
    }

    /// Enqueues a write of `step` into the step cell; refuses a step outside `[0, num_steps)`.
    pub fn write_step(&mut self, step: usize) -> (r: Result<(), EngineError>)
        requires
            old(self).wf(),
        ensures
            final(self).wf(),
            r is Ok <==> step < old(self)@.model.num_steps,
            r is Err ==> r == Err::<(), EngineError>(EngineError::StepOutOfRange) && final(self)@
                == old(self)@,
            r is Ok ==> final(self)@ == (DeviceView {
                pending: old(self)@.pending.push(Command::WriteStep(step)),
                ..old(self)@
            }),
    {
        if step >= self.model.num_steps {
            return Err(EngineError::StepOutOfRange);
        }
        self.enqueue(Command::WriteStep(step));
        Ok(())
    }

    fn enqueue(&mut self, c: Command)
        requires
            old(self).wf(),
            c matches Command::WriteStep(k) ==> k < old(self).model.num_steps,
        ensures
            final(self).wf(),
            final(self)@ == (DeviceView { pending: old(self)@.pending.push(c), ..old(self)@ }),
    {
        self.pending.push(c);
        proof {
            let p = self.pending@;
            assert forall|i: int| 0 <= i < p.len() implies (#[trigger] p[i] matches Command::WriteStep(
                k,
            ) ==> k < self.model.num_steps) by {
                if i < p.len() - 1 {
                    assert(p[i] == old(self).pending@[i]);
                }
            }
        }
    }

    /// Runs command `c` on the mirrors.
    fn run_command(&mut self, c: Command)
        requires
            old(self).wf(),
            c matches Command::WriteStep(k) ==> k < old(self).model.num_steps,
        ensures
            final(self).wf(),
            final(self)@ == apply(old(self)@, c),
            final(self).model == old(self).model,
    {
        match c {
            Command::WriteStep(k) => {
                self.step_cell = k;
            },
            Command::Predict => {
                calculate_system_prediction(&mut self.estimations, &self.model, self.step_cell);
            },
            Command::Derive(config) => {
                calculate_step_derivatives(
                    &mut self.derivatives,
                    &self.estimations,
                    &self.model,
                    &self.actual,
                    &config,
                    self.step_cell,
                );
            },
        }
    }

    /// Runs every pending command in the order it was enqueued, then empties the queue.
    pub fn finish(&mut self)
        requires
            old(self).wf(),
        ensures
            final(self).wf(),
            final(self)@ == settled(old(self)@),
            final(self)@.model == old(self)@.model,
    {
        let ghost start = self@;
        let ghost start_model = self.model;
        let mut i: usize = 0;
        while i < self.pending.len()
            invariant
                self.wf(),
                start.pending == self.pending@,
                self.model == start_model,
                start.model == start_model,
                i <= self.pending@.len(),
                self@ == run(start, start.pending.take(i as int)),
            decreases self.pending@.len() - i,
        {
            let c = self.pending[i];
            proof {
                let t = start.pending.take(i + 1);
                assert(t.drop_last() =~= start.pending.take(i as int));
                assert(t.last() == c);
            }
            self.run_command(c);
            i = i + 1;
        }
        assert(start.pending.take(i as int) =~= start.pending);
        self.pending = Vec::new();
        assert(self@.pending =~= Seq::<Command>::empty());
    }

    /// Runs every pending command, then overwrites the device estimation and
    /// derivative mirrors with the host buffers, as at an epoch boundary.
    /// Refuses buffers that are not sized for the device's model, and then
    /// changes nothing.
    pub fn push_state(&mut self, estimations: &EstimationState, derivatives: &DerivativeState) -> (r:
        Result<(), EngineError>)
        requires
            old(self).wf(),
        ensures
            final(self).wf(),
            r is Ok <==> (estimations.wf(&old(self)@.model) && derivatives.wf(&old(self)@.model)),
            r is Err ==> r == Err::<(), EngineError>(EngineError::DimensionMismatch) && final(self)@
                == old(self)@,
            r is Ok ==> final(self)@ == (DeviceView {
                estimations: estimations@,
                derivatives: derivatives@,
                ..settled(old(self)@)
            }),
    {
        if !estimation_fits(estimations, &self.model) || derivatives.num_states
            != self.model.num_states || derivatives.gains.len() != self.model.num_states
            || derivatives.delays.len() != self.model.num_states {
            return Err(EngineError::DimensionMismatch);
        }
        self.finish();
        self.estimations = copy_estimation(estimations);
        self.derivatives = DerivativeState {
            num_states: derivatives.num_states,
            gains: copy_vec(&derivatives.gains),
            delays: copy_vec(&derivatives.delays),
        };
        Ok(())
    }

    /// Runs every pending command, then copies the device estimation and
    /// derivative buffers into the host ones.
    pub fn pull(&mut self, estimations: &mut EstimationState, derivatives: &mut DerivativeState)
        requires
            old(self).wf(),
        ensures
            final(self).wf(),
            final(self)@ == settled(old(self)@),
            final(estimations)@ == final(self)@.estimations,
            final(derivatives)@ == final(self)@.derivatives,
            final(estimations).wf(&final(self)@.model),
            final(derivatives).wf(&final(self)@.model),
    {
        self.finish();
        *estimations = copy_estimation(&self.estimations);
        *derivatives = DerivativeState {
            num_states: self.derivatives.num_states,
            gains: copy_vec(&self.derivatives.gains),
            delays: copy_vec(&self.derivatives.delays),
        };
    }
}

/// Whether a kernel built for these counts fits the device's mirrors.
pub open spec fn counts_match(
    device: DeviceView,
    num_states: usize,
    num_sensors: usize,
    num_steps: usize,
) -> bool {
    &&& device.model.num_states == num_states
    &&& device.model.num_sensors == num_sensors
    &&& device.model.num_steps == num_steps
}

/// A prediction kernel bound to fixed dimension counts.
pub struct PredictionKernel {
    pub num_states: usize,
    pub num_sensors: usize,
    pub num_steps: usize,
}

impl PredictionKernel {
    /// Binds a prediction kernel to `device`; refuses counts that differ from its mirrors'.
    pub fn new(device: &Device, num_states: usize, num_sensors: usize, num_steps: usize) -> (r:
        Result<PredictionKernel, EngineError>)
        ensures
            r is Ok <==> counts_match(device@, num_states, num_sensors, num_steps),
            r is Err ==> r == Err::<PredictionKernel, EngineError>(
                EngineError::DimensionMismatch,
            ),
            r matches Ok(k) ==> k.num_states == num_states && k.num_sensors == num_sensors
                && k.num_steps == num_steps,
    {
        let (n, m, t) = device.dims();
        if n == num_states && m == num_sensors && t == num_steps {
            Ok(PredictionKernel { num_states, num_sensors, num_steps })
        } else {
            Err(EngineError::DimensionMismatch)
        }
    }

    /// Enqueues one prediction of the step in the step cell.
    pub fn execute(&self, device: &mut Device)
        requires
            old(device).wf(),
            counts_match(old(device)@, self.num_states, self.num_sensors, self.num_steps),
        ensures
            final(device).wf(),
            final(device)@ == (DeviceView {
                pending: old(device)@.pending.push(Command::Predict),
                ..old(device)@
            }),
    {
        device.enqueue(Command::Predict);
    }
}

/// A derivation kernel bound to fixed dimension counts and algorithm settings.
pub struct DerivationKernel {
    pub num_states: usize,
    pub num_sensors: usize,
    pub num_steps: usize,
    pub config: AlgorithmConfig,
}

impl DerivationKernel {
    /// Binds a derivation kernel to `device`; refuses counts that differ from its mirrors'.
    pub fn new(
        device: &Device,
        num_states: usize,
        num_sensors: usize,
        num_steps: usize,
        config: &AlgorithmConfig,
    ) -> (r: Result<DerivationKernel, EngineError>)
        ensures
            r is Ok <==> counts_match(device@, num_states, num_sensors, num_steps),
            r is Err ==> r == Err::<DerivationKernel, EngineError>(
                EngineError::DimensionMismatch,
            ),
            r matches Ok(k) ==> k.num_states == num_states && k.num_sensors == num_sensors
                && k.num_steps == num_steps && k.config == *config,
    {
        let (n, m, t) = device.dims();
        if n == num_states && m == num_sensors && t == num_steps {
            Ok(DerivationKernel { num_states, num_sensors, num_steps, config: *config })
        } else {
            Err(EngineError::DimensionMismatch)
        }
    }

    /// Enqueues one derivative computation of the step in the step cell.
    pub fn execute(&self, device: &mut Device)
        requires
            old(device).wf(),
            counts_match(old(device)@, self.num_states, self.num_sensors, self.num_steps),
        ensures
            final(device).wf(),
            final(device)@ == (DeviceView {
                pending: old(device)@.pending.push(Command::Derive(self.config)),
                ..old(device)@
            }),
    {
        device.enqueue(Command::Derive(self.config));
    }
}

/// Whether `e`'s buffers are sized for a run of `fd`.
fn estimation_fits(e: &EstimationState, fd: &FunctionalDescription) -> (r: bool)
    requires
        fd.wf(),
    ensures
        r == e.wf(fd),
{
    if e.num_states != fd.num_states || e.num_sensors != fd.num_sensors || e.num_steps
        != fd.num_steps || e.initial_state.len() != fd.num_states || e.gain_correction.len()
        != fd.num_states {
        return false;
    }
    let states_len: usize = e.system_states.len();
    let meas_len: usize = e.measurements.len();
    match (fd.num_steps.checked_mul(fd.num_states), fd.num_steps.checked_mul(fd.num_sensors)) {
        (Some(sl), Some(ml)) => states_len == sl && meas_len == ml,
        _ => false,
    }
}

/// A copy of an estimation state.
fn copy_estimation(e: &EstimationState) -> (r: EstimationState)
    ensures
        r@ == e@,
        r.num_states == e.num_states,
        r.num_sensors == e.num_sensors,
        r.num_steps == e.num_steps,
{
    EstimationState {
        num_states: e.num_states,
        num_sensors: e.num_sensors,
        num_steps: e.num_steps,
        initial_state: copy_vec(&e.initial_state),
        system_states: copy_vec(&e.system_states),
        measurements: copy_vec(&e.measurements),
        gain_correction: copy_vec(&e.gain_correction),
        step: e.step,
    }
}

} // verus!
