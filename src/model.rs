//! The functional description: the fixed linear operators of the forward model.
use vstd::prelude::*;
use vstd::wrapping::i64_specs::{wrapping_add as wadd, wrapping_mul as wmul};
use crate::arith::{add_vec, mat_vec};

verus! {

/// What can go wrong when a run is configured or driven.
#[derive(Debug, Clone, Copy, PartialEq, Eq, Structural)]
pub enum EngineError {
    /// A buffer's size does not agree with the declared dimension counts.
    DimensionMismatch,
    /// A step index outside `[0, num_steps)`.
    StepOutOfRange,
}

/// The fixed operators and dimension counts of one scenario.
///
/// Matrices are row-major: `transition` is `num_states x num_states`,
/// `observation` is `num_sensors x num_states`. `control` couples the scalar
/// excitation of each step (`excitation`, one entry per step) into every state.
pub struct FunctionalDescription {
    pub num_states: usize,
    pub num_sensors: usize,
    pub num_steps: usize,
    pub transition: Vec<i64>,
    pub observation: Vec<i64>,
    pub control: Vec<i64>,
    pub excitation: Vec<i64>,
}

/// Whether operators of these lengths fit the dimension counts.
pub open spec fn shapes_agree(
    n: int,
    m: int,
    t: int,
    transition_len: int,
    observation_len: int,
    control_len: int,
    excitation_len: int,
) -> bool {
    &&& transition_len == n * n
    &&& observation_len == m * n
    &&& control_len == n
    &&& excitation_len == t
}

impl FunctionalDescription {
    /// Every operator is sized against the dimension counts.
    pub open spec fn wf(&self) -> bool {
        shapes_agree(
            self.num_states as int,
            self.num_sensors as int,
            self.num_steps as int,
            self.transition@.len() as int,
            self.observation@.len() as int,
            self.control@.len() as int,
            self.excitation@.len() as int,
        )
    }

    /// Builds a description, refusing operators whose sizes disagree with the counts.
    pub fn new(
        num_states: usize,
        num_sensors: usize,
        num_steps: usize,
        transition: Vec<i64>,
        observation: Vec<i64>,
        control: Vec<i64>,
        excitation: Vec<i64>,
    ) -> (r: Result<FunctionalDescription, EngineError>)
        ensures
            shapes_agree(
                num_states as int,
                num_sensors as int,
                num_steps as int,
                transition@.len() as int,
                observation@.len() as int,
                control@.len() as int,
                excitation@.len() as int,
            ) <==> r is Ok,
            r is Err ==> r == Err::<FunctionalDescription, EngineError>(
                EngineError::DimensionMismatch,
            ),
            r matches Ok(fd) ==> {
                &&& fd.wf()
                &&& fd.num_states == num_states
                &&& fd.num_sensors == num_sensors
                &&& fd.num_steps == num_steps
                &&& fd.transition@ == transition@
                &&& fd.observation@ == observation@
                &&& fd.control@ == control@
                &&& fd.excitation@ == excitation@
            },
    {
        let transition_len: usize = transition.len();
        let observation_len: usize = observation.len();
        let nn = num_states.checked_mul(num_states);
        let mn = num_sensors.checked_mul(num_states);
        match (nn, mn) {
            (Some(nn), Some(mn)) => {
                if transition_len == nn && observation_len == mn && control.len() == num_states
                    && excitation.len() == num_steps {
                    Ok(
                        FunctionalDescription {
                            num_states,
                            num_sensors,
                            num_steps,
                            transition,
                            observation,
                            control,
                            excitation,
                        },
                    )
                } else {
                    Err(EngineError::DimensionMismatch)
                }
            },
            _ => Err(EngineError::DimensionMismatch),
        }
    }
}

/// The control term `B * u[t]` of step `t`.
pub open spec fn control_term(fd: FunctionalDescription, t: int) -> Seq<i64> {
    Seq::new(fd.num_states as nat, |i: int| wmul(fd.control@[i], fd.excitation@[t]))
}

/// One application of the transition: `A * x + B * u[t]`.
pub open spec fn transition_step(fd: FunctionalDescription, x: Seq<i64>, t: int) -> Seq<i64> {
    add_vec(
        mat_vec(fd.transition@, fd.num_states as int, fd.num_states as int, x),
        control_term(fd, t),
    )
}

/// The measurement that the observation operator predicts for state `x`.
pub open spec fn observe(fd: FunctionalDescription, x: Seq<i64>) -> Seq<i64> {
    mat_vec(fd.observation@, fd.num_sensors as int, fd.num_states as int, x)
}

/// The state after step `t` of a run that starts from `x0`: step `0` applies the
/// transition to `x0`, each later step to the state of the step before.
pub open spec fn state_at(fd: FunctionalDescription, x0: Seq<i64>, t: nat) -> Seq<i64>
    decreases t,
{
    if t == 0 {
        transition_step(fd, x0, 0)
    } else {
        transition_step(fd, state_at(fd, x0, (t - 1) as nat), t as int)
    }
}

/// `x` with the transition operator alone applied `k` times.
pub open spec fn apply_transition_times(fd: FunctionalDescription, x: Seq<i64>, k: nat) -> Seq<i64>
    decreases k,
{
    if k == 0 {
        x
    } else {
        mat_vec(
            fd.transition@,
            fd.num_states as int,
            fd.num_states as int,
            apply_transition_times(fd, x, (k - 1) as nat),
        )
    }
}

} // verus!
