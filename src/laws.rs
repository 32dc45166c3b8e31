//! Properties that relate the engine's operations to one another.
use vstd::prelude::*;
use vstd::wrapping::i64_specs::wrapping_add as wadd;
use crate::arith::{add_vec, lemma_write_row_row, mat_vec, row_of};
use crate::derivation::{
    delay_contribution, derivatives_sized, derive_steps, derived, gain_contribution, AlgorithmConfig,
    DerivativeView,
};
use crate::device::{apply, run, settled, Command, DeviceView};
use crate::estimation::{estimation_sized, predict_steps, predicted, previous_state, EstimationView};
use crate::model::{
    apply_transition_times, control_term, observe, state_at, transition_step,
    FunctionalDescription,
};

verus! {

/// The command sequence that drives steps `0..k` through one kernel: for each
/// step, write its index, then run the kernel's command `c`.
pub open spec fn step_commands(c: Command, k: nat) -> Seq<Command>
    decreases k,
{
    if k == 0 {
        Seq::empty()
    } else {
        step_commands(c, (k - 1) as nat) + seq![Command::WriteStep((k - 1) as usize), c]
    }
}

/// Running `a` and then `b` is running `a + b`.
pub proof fn lemma_run_append(s: DeviceView, a: Seq<Command>, b: Seq<Command>)
    ensures
        run(s, a + b) == run(run(s, a), b),
    decreases b.len(),
{
    if b.len() == 0 {
        assert(a + b =~= a);
    } else {
        assert((a + b).drop_last() =~= a + b.drop_last());
        assert((a + b).last() == b.last());
        lemma_run_append(s, a, b.drop_last());
    }
}

/// Running two commands applies them in order.
pub proof fn lemma_run_pair(s: DeviceView, c1: Command, c2: Command)
    ensures
        run(s, seq![c1, c2]) == apply(apply(s, c1), c2),
{
    let p = seq![c1, c2];
    assert(p.drop_last() =~= seq![c1]);
    assert(seq![c1].drop_last() =~= Seq::<Command>::empty());
    assert(run(s, Seq::<Command>::empty()) == s);
    assert(run(s, seq![c1]) == apply(s, c1));
}

/// Writing step index `k` and then executing a kernel computes step `k` of the
/// device-resident state: the prediction for a prediction kernel, the
/// derivative contribution for a derivation kernel.
pub proof fn written_step_is_used(s: DeviceView, k: usize, config: AlgorithmConfig)
    ensures
        run(s, seq![Command::WriteStep(k), Command::Predict]).estimations == predicted(
            s.estimations,
            s.model,
            k as int,
        ),
        run(s, seq![Command::WriteStep(k), Command::Derive(config)]).derivatives == derived(
            s.derivatives,
            s.estimations,
            s.actual,
            s.model,
            config,
            k as int,
        ),
{
    lemma_run_pair(s, Command::WriteStep(k), Command::Predict);
    lemma_run_pair(s, Command::WriteStep(k), Command::Derive(config));
}

/// With nothing enqueued between a push and a pull, the pulled state is the
/// pushed state.
pub proof fn push_pull_identity(s: DeviceView)
    requires
        s.pending.len() == 0,
    ensures
        settled(s) == s,
{
    assert(s.pending =~= Seq::<Command>::empty());
}

/// Driving steps `0..k` through the device prediction kernel leaves the
/// device estimation state equal to the host prediction of the same steps,
/// and every other device buffer as it was.
pub proof fn device_prediction_matches_host(s: DeviceView, k: nat)
    requires
        k <= usize::MAX,
    ensures
        run(s, step_commands(Command::Predict, k)).estimations == predict_steps(
            s.estimations,
            s.model,
            k,
        ),
        run(s, step_commands(Command::Predict, k)).derivatives == s.derivatives,
        run(s, step_commands(Command::Predict, k)).model == s.model,
        run(s, step_commands(Command::Predict, k)).actual == s.actual,
    decreases k,
{
    if k == 0 {
    } else {
        let prev = step_commands(Command::Predict, (k - 1) as nat);
        device_prediction_matches_host(s, (k - 1) as nat);
        lemma_run_append(s, prev, seq![Command::WriteStep((k - 1) as usize), Command::Predict]);
        lemma_run_pair(run(s, prev), Command::WriteStep((k - 1) as usize), Command::Predict);
    }
}

/// Driving steps `0..k` through the device derivation kernel leaves the
/// device accumulators equal to the host accumulation of exactly those steps:
/// a pull after step `k - 1` sees every contribution up to it and none after.
pub proof fn device_derivation_matches_host(s: DeviceView, config: AlgorithmConfig, k: nat)
    requires
        k <= usize::MAX,
    ensures
        run(s, step_commands(Command::Derive(config), k)).derivatives == derive_steps(
            s.derivatives,
            s.estimations,
            s.actual,
            s.model,
            config,
            k,
        ),
        run(s, step_commands(Command::Derive(config), k)).estimations == s.estimations,
        run(s, step_commands(Command::Derive(config), k)).model == s.model,
        run(s, step_commands(Command::Derive(config), k)).actual == s.actual,
    decreases k,
{
    if k == 0 {
    } else {
        let c = Command::Derive(config);
        let prev = step_commands(c, (k - 1) as nat);
        device_derivation_matches_host(s, config, (k - 1) as nat);
        lemma_run_append(s, prev, seq![Command::WriteStep((k - 1) as usize), c]);
        lemma_run_pair(run(s, prev), Command::WriteStep((k - 1) as usize), c);
    }
}

/// Host predictions keep the buffers' sizes and the initial state.
pub proof fn lemma_predict_steps_shape(e: EstimationView, fd: FunctionalDescription, k: nat)
    requires
        fd.wf(),
        estimation_sized(e, fd),
        k <= fd.num_steps,
    ensures
        estimation_sized(predict_steps(e, fd, k), fd),
        predict_steps(e, fd, k).initial_state == e.initial_state,
    decreases k,
{
    if k > 0 {
        let t = k - 1;
        let p = predict_steps(e, fd, t as nat);
        lemma_predict_steps_shape(e, fd, t as nat);
        let n = fd.num_states as int;
        let m = fd.num_sensors as int;
        assert((t + 1) * n <= fd.num_steps * n) by (nonlinear_arith)
            requires
                t < fd.num_steps,
                0 <= n,
        ;
        assert((t + 1) * m <= fd.num_steps * m) by (nonlinear_arith)
            requires
                t < fd.num_steps,
                0 <= m,
        ;
        let x = transition_step(fd, previous_state(p, fd, t), t);
        lemma_write_row_row(p.system_states, t, n, x, t);
        lemma_write_row_row(p.measurements, t, m, observe(fd, x), t);
    }
}

/// After host predictions of steps `0..k`, the row of every step `t < k` holds
/// the state `state_at(t)` of a run from the initial state, and its predicted
/// measurement: whatever the buffers held before, the output depends on the
/// initial state alone.
pub proof fn prediction_rows_from_initial_state(
    e: EstimationView,
    fd: FunctionalDescription,
    k: nat,
    t: nat,
)
    requires
        fd.wf(),
        estimation_sized(e, fd),
        k <= fd.num_steps,
        t < k,
    ensures
        row_of(predict_steps(e, fd, k).system_states, t as int, fd.num_states as int) == state_at(
            fd,
            e.initial_state,
            t,
        ),
        row_of(predict_steps(e, fd, k).measurements, t as int, fd.num_sensors as int) == observe(
            fd,
            state_at(fd, e.initial_state, t),
        ),
    decreases k,
{
    let last = k - 1;
    let p = predict_steps(e, fd, last as nat);
    lemma_predict_steps_shape(e, fd, last as nat);
    let n = fd.num_states as int;
    let m = fd.num_sensors as int;
    assert((last + 1) * n <= fd.num_steps * n) by (nonlinear_arith)
        requires
            last < fd.num_steps,
            0 <= n,
    ;
    assert((last + 1) * m <= fd.num_steps * m) by (nonlinear_arith)
        requires
            last < fd.num_steps,
            0 <= m,
    ;
    assert((t + 1) * n <= (last + 1) * n) by (nonlinear_arith)
        requires
            t <= last,
            0 <= n,
    ;
    assert((t + 1) * m <= (last + 1) * m) by (nonlinear_arith)
        requires
            t <= last,
            0 <= m,
    ;
    let prev = previous_state(p, fd, last);
    let x = transition_step(fd, prev, last);
    lemma_write_row_row(p.system_states, last, n, x, t as int);
    lemma_write_row_row(p.measurements, last, m, observe(fd, x), t as int);
    if t == last {
        if last > 0 {
            prediction_rows_from_initial_state(e, fd, last as nat, (last - 1) as nat);
        }
    } else {
        prediction_rows_from_initial_state(e, fd, last as nat, t);
    }
}

/// Two host runs from the same initial state predict the same state and
/// measurement at every step they both ran.
pub proof fn prediction_deterministic(
    a: EstimationView,
    b: EstimationView,
    fd: FunctionalDescription,
    k: nat,
    t: nat,
)
    requires
        fd.wf(),
        estimation_sized(a, fd),
        estimation_sized(b, fd),
        a.initial_state == b.initial_state,
        k <= fd.num_steps,
        t < k,
    ensures
        row_of(predict_steps(a, fd, k).system_states, t as int, fd.num_states as int) == row_of(
            predict_steps(b, fd, k).system_states,
            t as int,
            fd.num_states as int,
        ),
        row_of(predict_steps(a, fd, k).measurements, t as int, fd.num_sensors as int) == row_of(
            predict_steps(b, fd, k).measurements,
            t as int,
            fd.num_sensors as int,
        ),
{
    prediction_rows_from_initial_state(a, fd, k, t);
    prediction_rows_from_initial_state(b, fd, k, t);
}

/// With zero excitation at every step, the state after step `t` is the
/// transition operator applied `t + 1` times to the initial state.
pub proof fn prediction_closed_form(fd: FunctionalDescription, x0: Seq<i64>, t: nat)
    requires
        fd.wf(),
        x0.len() == fd.num_states,
        t < fd.num_steps,
        forall|s: int| 0 <= s < fd.num_steps ==> fd.excitation@[s] == 0,
    ensures
        state_at(fd, x0, t) == apply_transition_times(fd, x0, (t + 1) as nat),
    decreases t,
{
    let n = fd.num_states as int;
    let prev = if t == 0 {
        x0
    } else {
        state_at(fd, x0, (t - 1) as nat)
    };
    if t > 0 {
        prediction_closed_form(fd, x0, (t - 1) as nat);
    }
    assert(apply_transition_times(fd, x0, 0) == x0);
    let ax = mat_vec(fd.transition@, n, n, prev);
    let ct = control_term(fd, t as int);
    assert forall|i: int| 0 <= i < n implies #[trigger] ct[i] == 0i64 by {
        assert(fd.control@[i] * 0 == 0);
    }
    assert(add_vec(ax, ct) =~= ax);
}

/// Freezing gains leaves the gain accumulator exactly as it was while an
/// unfrozen delay accumulator still gains the step's contribution; freezing
/// delays does the same the other way round.
pub proof fn frozen_class_untouched(
    d: DerivativeView,
    e: EstimationView,
    actual: Seq<i64>,
    fd: FunctionalDescription,
    config: AlgorithmConfig,
    t: int,
)
    ensures
        config.freeze_gains ==> derived(d, e, actual, fd, config, t).gains == d.gains,
        config.freeze_delays ==> derived(d, e, actual, fd, config, t).delays == d.delays,
        !config.freeze_delays ==> derived(d, e, actual, fd, config, t).delays == add_vec(
            d.delays,
            delay_contribution(e, actual, fd, t),
        ),
{
}

/// Wrapping addition may take its addends in either order.
pub proof fn lemma_wrapping_add_swap(x: i64, y: i64, z: i64)
    ensures
        wadd(wadd(x, y), z) == wadd(wadd(x, z), y),
{
}

/// Adding two contributions to an accumulator gives the same result in either order.
pub proof fn lemma_add_vec_swap(a: Seq<i64>, b: Seq<i64>, c: Seq<i64>)
    requires
        b.len() == a.len(),
        c.len() == a.len(),
    ensures
        add_vec(add_vec(a, b), c) == add_vec(add_vec(a, c), b),
{
    assert forall|i: int| 0 <= i < a.len() implies #[trigger] add_vec(add_vec(a, b), c)[i]
        == add_vec(add_vec(a, c), b)[i] by {
        lemma_wrapping_add_swap(a[i], b[i], c[i]);
    }
    assert(add_vec(add_vec(a, b), c) =~= add_vec(add_vec(a, c), b));
}

/// The contributions of two steps accumulate to the same derivative state in
/// either order.
pub proof fn step_derivatives_commute(
    d: DerivativeView,
    e: EstimationView,
    actual: Seq<i64>,
    fd: FunctionalDescription,
    config: AlgorithmConfig,
    t1: int,
    t2: int,
)
    requires
        fd.wf(),
        derivatives_sized(d, fd),
        estimation_sized(e, fd),
    ensures
        derived(derived(d, e, actual, fd, config, t1), e, actual, fd, config, t2) == derived(
            derived(d, e, actual, fd, config, t2),
            e,
            actual,
            fd,
            config,
            t1,
        ),
{
    let g1 = gain_contribution(e, actual, fd, config, t1);
    let g2 = gain_contribution(e, actual, fd, config, t2);
    lemma_add_vec_swap(d.gains, g1, g2);
    lemma_add_vec_swap(
        d.delays,
        delay_contribution(e, actual, fd, t1),
        delay_contribution(e, actual, fd, t2),
    );
}

} // verus!
