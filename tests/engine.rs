use cardiotrust::derivation::{
    batch_complete, calculate_step_derivatives, run_derivation, ActualMeasurements,
    AlgorithmConfig, DerivativeState,
};
use cardiotrust::device::{DerivationKernel, Device, PredictionKernel};
use cardiotrust::estimation::{calculate_system_prediction, run_prediction, EstimationState};
use cardiotrust::model::{EngineError, FunctionalDescription};

/// Two states, one sensor: `A = [[1, 1], [0, 1]]`, `C = [1, 0]`, no control.
fn shear_model(num_steps: usize) -> FunctionalDescription {
    FunctionalDescription::new(
        2,
        1,
        num_steps,
        vec![1, 1, 0, 1],
        vec![1, 0],
        vec![0, 0],
        vec![0; num_steps],
    )
    .unwrap()
}

/// Three states, two sensors, with a control input.
fn driven_model() -> FunctionalDescription {
    FunctionalDescription::new(
        3,
        2,
        4,
        vec![2, 0, 1, -1, 1, 0, 0, 3, 1],
        vec![1, 2, 0, 0, -1, 1],
        vec![1, 0, -2],
        vec![1, 0, 2, -1],
    )
    .unwrap()
}

fn config(freeze_gains: bool, freeze_delays: bool, update_kalman_gain: bool) -> AlgorithmConfig {
    AlgorithmConfig { freeze_gains, freeze_delays, update_kalman_gain, batch_size: 0 }
}

#[test]
fn closed_form_shear_rows() {
    let fd = shear_model(3);
    let mut est = EstimationState::new(&fd, vec![0, 1]).unwrap();
    run_prediction(&mut est, &fd, 3);
    // A^(t+1) * [0, 1] = [t + 1, 1]
    assert_eq!(est.system_states, vec![1, 1, 2, 1, 3, 1]);
    assert_eq!(est.measurements, vec![1, 2, 3]);
    assert_eq!(est.step, 2);
}

#[test]
fn single_prediction_step_with_control() {
    let fd = driven_model();
    let mut est = EstimationState::new(&fd, vec![1, 2, 3]).unwrap();
    calculate_system_prediction(&mut est, &fd, 0);
    // A x0 = [5, 1, 9]; B u0 = [1, 0, -2]
    assert_eq!(&est.system_states[0..3], &[6, 1, 7]);
    // C x = [6 + 2, -1 + 7]
    assert_eq!(&est.measurements[0..2], &[8, 6]);
    assert_eq!(&est.system_states[3..], &[0; 9]);
}

#[test]
fn prediction_is_deterministic() {
    let fd = driven_model();
    let mut a = EstimationState::new(&fd, vec![1, -1, 2]).unwrap();
    let mut b = EstimationState::new(&fd, vec![1, -1, 2]).unwrap();
    // leftovers of an earlier run must not matter
    b.system_states = vec![9; 12];
    b.measurements = vec![-4; 8];
    run_prediction(&mut a, &fd, 4);
    run_prediction(&mut b, &fd, 4);
    assert_eq!(a.system_states, b.system_states);
    assert_eq!(a.measurements, b.measurements);
    run_prediction(&mut a, &fd, 4);
    assert_eq!(a.system_states, b.system_states);
}

#[test]
fn prediction_wraps_on_overflow() {
    let fd = FunctionalDescription::new(1, 1, 1, vec![1], vec![1], vec![1], vec![1]).unwrap();
    let mut est = EstimationState::new(&fd, vec![i64::MAX]).unwrap();
    calculate_system_prediction(&mut est, &fd, 0);
    assert_eq!(est.system_states, vec![i64::MIN]);
}

#[test]
fn step_derivatives_exact_values() {
    let fd = shear_model(1);
    let mut est = EstimationState::new(&fd, vec![0, 1]).unwrap();
    calculate_system_prediction(&mut est, &fd, 0);
    let actual = ActualMeasurements::new(1, 1, vec![3]).unwrap();
    let mut der = DerivativeState::new(2);
    calculate_step_derivatives(&mut der, &est, &fd, &actual, &config(false, false, false), 0);
    assert_eq!(der.gains, vec![-2, -2]);
    assert_eq!(der.delays, vec![-2, 0]);
}

#[test]
fn kalman_gain_correction_is_added() {
    let fd = shear_model(1);
    let mut est = EstimationState::new(&fd, vec![0, 1]).unwrap();
    est.gain_correction = vec![5, 7];
    calculate_system_prediction(&mut est, &fd, 0);
    let actual = ActualMeasurements::new(1, 1, vec![3]).unwrap();
    let mut der = DerivativeState::new(2);
    calculate_step_derivatives(&mut der, &est, &fd, &actual, &config(false, false, true), 0);
    assert_eq!(der.gains, vec![3, 5]);
    assert_eq!(der.delays, vec![-2, 0]);
}

#[test]
fn frozen_gains_stay_bit_identical() {
    let fd = shear_model(1);
    let mut est = EstimationState::new(&fd, vec![0, 1]).unwrap();
    calculate_system_prediction(&mut est, &fd, 0);
    let actual = ActualMeasurements::new(1, 1, vec![3]).unwrap();
    let mut der = DerivativeState::new(2);
    der.gains = vec![11, -12];
    der.delays = vec![1, 1];
    calculate_step_derivatives(&mut der, &est, &fd, &actual, &config(true, false, false), 0);
    assert_eq!(der.gains, vec![11, -12]);
    assert_eq!(der.delays, vec![-1, 1]);
    calculate_step_derivatives(&mut der, &est, &fd, &actual, &config(false, true, false), 0);
    assert_eq!(der.gains, vec![9, -14]);
    assert_eq!(der.delays, vec![-1, 1]);
}

#[test]
fn derivative_steps_commute() {
    let fd = driven_model();
    let mut est = EstimationState::new(&fd, vec![1, 0, -1]).unwrap();
    run_prediction(&mut est, &fd, 4);
    let actual = ActualMeasurements::new(4, 2, vec![1, 2, 3, 4, 5, 6, 7, 8]).unwrap();
    let cfg = config(false, false, false);
    let mut forward = DerivativeState::new(3);
    calculate_step_derivatives(&mut forward, &est, &fd, &actual, &cfg, 1);
    calculate_step_derivatives(&mut forward, &est, &fd, &actual, &cfg, 3);
    let mut backward = DerivativeState::new(3);
    calculate_step_derivatives(&mut backward, &est, &fd, &actual, &cfg, 3);
    calculate_step_derivatives(&mut backward, &est, &fd, &actual, &cfg, 1);
    assert_eq!(forward.gains, backward.gains);
    assert_eq!(forward.delays, backward.delays);
}

#[test]
fn reset_zeroes_accumulators() {
    let mut der = DerivativeState::new(3);
    der.gains = vec![1, 2, 3];
    der.delays = vec![4, 5, 6];
    der.reset();
    assert_eq!(der.gains, vec![0, 0, 0]);
    assert_eq!(der.delays, vec![0, 0, 0]);
    assert_eq!(der.num_states, 3);
}

#[test]
fn push_then_pull_is_identity() {
    let fd = driven_model();
    let mut est = EstimationState::new(&fd, vec![4, 5, 6]).unwrap();
    run_prediction(&mut est, &fd, 2);
    let mut der = DerivativeState::new(3);
    der.gains = vec![1, -2, 3];
    let actual = ActualMeasurements::new(4, 2, vec![0; 8]).unwrap();
    let mut device = Device::push(&est, &der, &fd, &actual).unwrap();
    let mut est_back = EstimationState::new(&fd, vec![0, 0, 0]).unwrap();
    let mut der_back = DerivativeState::new(3);
    device.pull(&mut est_back, &mut der_back);
    assert_eq!(est_back.initial_state, est.initial_state);
    assert_eq!(est_back.system_states, est.system_states);
    assert_eq!(est_back.measurements, est.measurements);
    assert_eq!(est_back.step, est.step);
    assert_eq!(der_back.gains, der.gains);
    assert_eq!(der_back.delays, der.delays);
}

#[test]
fn device_prediction_matches_host_path() {
    let fd = driven_model();
    let est0 = EstimationState::new(&fd, vec![1, 2, 3]).unwrap();
    let der0 = DerivativeState::new(3);
    let actual = ActualMeasurements::new(4, 2, vec![0; 8]).unwrap();
    let mut device = Device::push(&est0, &der0, &fd, &actual).unwrap();
    let kernel = PredictionKernel::new(&device, 3, 2, 4).unwrap();
    for step in 0..4 {
        device.write_step(step).unwrap();
        kernel.execute(&mut device);
    }
    let mut host = EstimationState::new(&fd, vec![1, 2, 3]).unwrap();
    run_prediction(&mut host, &fd, 4);
    let mut pulled = EstimationState::new(&fd, vec![0, 0, 0]).unwrap();
    let mut pulled_der = DerivativeState::new(3);
    device.pull(&mut pulled, &mut pulled_der);
    assert_eq!(pulled.system_states, host.system_states);
    assert_eq!(pulled.measurements, host.measurements);
}

#[test]
fn end_to_end_closed_form_on_both_paths() {
    let fd = shear_model(5);
    let mut host = EstimationState::new(&fd, vec![2, 1]).unwrap();
    run_prediction(&mut host, &fd, 5);
    // A^5 * [2, 1] = [7, 1]
    assert_eq!(&host.system_states[8..10], &[7, 1]);
    let der = DerivativeState::new(2);
    let actual = ActualMeasurements::new(5, 1, vec![0; 5]).unwrap();
    let start = EstimationState::new(&fd, vec![2, 1]).unwrap();
    let mut device = Device::push(&start, &der, &fd, &actual).unwrap();
    let kernel = PredictionKernel::new(&device, 2, 1, 5).unwrap();
    for step in 0..5 {
        device.write_step(step).unwrap();
        kernel.execute(&mut device);
    }
    let mut pulled = EstimationState::new(&fd, vec![0, 0]).unwrap();
    let mut pulled_der = DerivativeState::new(2);
    device.pull(&mut pulled, &mut pulled_der);
    assert_eq!(&pulled.system_states[8..10], &[7, 1]);
}

#[test]
fn no_batching_pull_sees_each_step() {
    let fd = driven_model();
    let mut est = EstimationState::new(&fd, vec![1, 1, 1]).unwrap();
    run_prediction(&mut est, &fd, 4);
    let actual = ActualMeasurements::new(4, 2, vec![3, -1, 0, 2, 5, 5, -2, 1]).unwrap();
    let cfg = config(false, false, false);
    let der0 = DerivativeState::new(3);
    let mut device = Device::push(&est, &der0, &fd, &actual).unwrap();
    let kernel = DerivationKernel::new(&device, 3, 2, 4, &cfg).unwrap();
    for step in 0..4 {
        device.write_step(step).unwrap();
        kernel.execute(&mut device);
        let mut pulled = EstimationState::new(&fd, vec![0, 0, 0]).unwrap();
        let mut pulled_der = DerivativeState::new(3);
        device.pull(&mut pulled, &mut pulled_der);
        let mut host = DerivativeState::new(3);
        run_derivation(&mut host, &est, &fd, &actual, &cfg, step + 1);
        assert_eq!(pulled_der.gains, host.gains);
        assert_eq!(pulled_der.delays, host.delays);
    }
}

#[test]
fn written_step_index_selects_state() {
    let fd = shear_model(3);
    let mut est = EstimationState::new(&fd, vec![0, 1]).unwrap();
    run_prediction(&mut est, &fd, 3);
    // make step 1 start from a different state than the host run gives
    est.system_states[0] = 10;
    let der = DerivativeState::new(2);
    let actual = ActualMeasurements::new(3, 1, vec![0; 3]).unwrap();
    let mut device = Device::push(&est, &der, &fd, &actual).unwrap();
    let kernel = PredictionKernel::new(&device, 2, 1, 3).unwrap();
    device.write_step(1).unwrap();
    kernel.execute(&mut device);
    let mut pulled = EstimationState::new(&fd, vec![0, 0]).unwrap();
    let mut pulled_der = DerivativeState::new(2);
    device.pull(&mut pulled, &mut pulled_der);
    assert_eq!(pulled.step, 1);
    assert_eq!(pulled.system_states, vec![10, 1, 11, 1, 3, 1]);
}

#[test]
fn out_of_range_step_is_refused() {
    let fd = shear_model(3);
    let est = EstimationState::new(&fd, vec![0, 1]).unwrap();
    let der = DerivativeState::new(2);
    let actual = ActualMeasurements::new(3, 1, vec![0; 3]).unwrap();
    let mut device = Device::push(&est, &der, &fd, &actual).unwrap();
    assert_eq!(device.write_step(3), Err(EngineError::StepOutOfRange));
    assert_eq!(device.write_step(2), Ok(()));
}

#[test]
fn mismatched_shapes_are_refused() {
    assert!(matches!(
        FunctionalDescription::new(2, 1, 1, vec![1, 1, 0], vec![1, 0], vec![0, 0], vec![0]),
        Err(EngineError::DimensionMismatch)
    ));
    assert!(matches!(
        FunctionalDescription::new(usize::MAX, 1, 1, vec![], vec![], vec![], vec![0]),
        Err(EngineError::DimensionMismatch)
    ));
    let fd = shear_model(2);
    assert!(matches!(EstimationState::new(&fd, vec![1]), Err(EngineError::DimensionMismatch)));
    assert!(matches!(
        ActualMeasurements::new(2, 1, vec![0; 3]),
        Err(EngineError::DimensionMismatch)
    ));
    let est = EstimationState::new(&fd, vec![0, 1]).unwrap();
    let actual = ActualMeasurements::new(2, 1, vec![0; 2]).unwrap();
    assert!(matches!(
        Device::push(&est, &DerivativeState::new(3), &fd, &actual),
        Err(EngineError::DimensionMismatch)
    ));
    let device = Device::push(&est, &DerivativeState::new(2), &fd, &actual).unwrap();
    assert!(matches!(PredictionKernel::new(&device, 2, 1, 3), Err(EngineError::DimensionMismatch)));
    assert!(matches!(
        DerivationKernel::new(&device, 3, 1, 2, &config(false, false, false)),
        Err(EngineError::DimensionMismatch)
    ));
}

#[test]
fn zero_step_run_is_refused_by_device() {
    let fd = shear_model(0);
    let est = EstimationState::new(&fd, vec![0, 1]).unwrap();
    let actual = ActualMeasurements::new(0, 1, vec![]).unwrap();
    assert!(matches!(
        Device::push(&est, &DerivativeState::new(2), &fd, &actual),
        Err(EngineError::DimensionMismatch)
    ));
}

#[test]
fn batch_boundaries() {
    let none = AlgorithmConfig {
        freeze_gains: false,
        freeze_delays: false,
        update_kalman_gain: false,
        batch_size: 0,
    };
    assert!(!batch_complete(&none, 0, 4));
    assert!(!batch_complete(&none, 2, 4));
    assert!(batch_complete(&none, 3, 4));
    let three = AlgorithmConfig { batch_size: 3, ..none };
    assert!(!batch_complete(&three, 0, 7));
    assert!(batch_complete(&three, 2, 7));
    assert!(batch_complete(&three, 5, 7));
    assert!(batch_complete(&three, 6, 7));
    assert!(!batch_complete(&three, 4, 7));
}

#[test]
fn epoch_push_runs_pending_then_overwrites() {
    let fd = shear_model(2);
    let est = EstimationState::new(&fd, vec![0, 1]).unwrap();
    let der = DerivativeState::new(2);
    let actual = ActualMeasurements::new(2, 1, vec![0; 2]).unwrap();
    let mut device = Device::push(&est, &der, &fd, &actual).unwrap();
    let kernel = PredictionKernel::new(&device, 2, 1, 2).unwrap();
    device.write_step(0).unwrap();
    kernel.execute(&mut device);
    let mut next = EstimationState::new(&fd, vec![5, 5]).unwrap();
    next.system_states = vec![1, 2, 3, 4];
    let mut next_der = DerivativeState::new(2);
    next_der.delays = vec![8, 9];
    assert_eq!(device.push_state(&next, &next_der), Ok(()));
    let mut pulled = EstimationState::new(&fd, vec![0, 0]).unwrap();
    let mut pulled_der = DerivativeState::new(2);
    device.pull(&mut pulled, &mut pulled_der);
    assert_eq!(pulled.initial_state, vec![5, 5]);
    assert_eq!(pulled.system_states, vec![1, 2, 3, 4]);
    assert_eq!(pulled_der.delays, vec![8, 9]);
    assert_eq!(
        device.push_state(&next, &DerivativeState::new(3)),
        Err(EngineError::DimensionMismatch)
    );
}
