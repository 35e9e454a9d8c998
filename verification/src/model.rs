//! The controller as mathematics: its quantities as integers, one step as a
//! function, a run as repeated steps, and what holds of them.

use vstd::prelude::*;
use crate::fixed::{decimal, difference, magnitude, product, ratio, representable, sum};
use crate::utils::limit_spec;

verus! {

/// The mathematical content of a controller, every quantity as a raw count.
pub ghost struct PidModel {
    /// Proportional gain.
    pub kp: int,
    /// Integral gain.
    pub ki: int,
    /// Derivative gain.
    pub kd: int,
    /// Anti-windup correction strength; stored, not yet read by any step.
    pub ksat: int,
    /// Upper end of the actuator range.
    pub up_lim: int,
    /// Lower end of the actuator range.
    pub lw_lim: int,
    /// Sample period.
    pub t_s: int,
    /// Integral accumulator, which is also the integral term of the last step.
    pub integral: int,
    /// Error of the last step, which the next step's derivative term reads.
    pub prev_error: int,
    /// Unsaturated output of the last step.
    pub output: int,
    /// Saturated output of the last step.
    pub output_sat: int,
    /// Proportional term of the last step.
    pub prop_term: int,
    /// Derivative term of the last step.
    pub der_term: int,
    /// Running sum of all errors seen.
    pub error_summ: int,
}

impl PidModel {
    /// Whether every quantity fits a `Fixed`, as it does in the model of
    /// every controller.
    pub open spec fn in_range(self) -> bool {
        &&& representable(self.kp)
        &&& representable(self.ki)
        &&& representable(self.kd)
        &&& representable(self.ksat)
        &&& representable(self.up_lim)
        &&& representable(self.lw_lim)
        &&& representable(self.t_s)
        &&& representable(self.integral)
        &&& representable(self.prev_error)
        &&& representable(self.output)
        &&& representable(self.output_sat)
        &&& representable(self.prop_term)
        &&& representable(self.der_term)
        &&& representable(self.error_summ)
    }
}

/// The model of a freshly built controller: the given gains, all else zero.
pub open spec fn initial(kp: int, ki: int, kd: int, ksat: int) -> PidModel {
    PidModel {
        kp,
        ki,
        kd,
        ksat,
        up_lim: 0,
        lw_lim: 0,
        t_s: 0,
        integral: 0,
        prev_error: 0,
        output: 0,
        output_sat: 0,
        prop_term: 0,
        der_term: 0,
        error_summ: 0,
    }
}

/// One step without anti-windup, on the model.
///
/// The error is setpoint minus measurement. The proportional term is the
/// error times `kp`. The integral accumulator grows by `ki` times the error
/// times the sample period and is itself the integral term. The derivative
/// term is the change of the error over the sample period, times `kd`. The
/// output is the sum of the three terms, and the saturated output is that sum
/// clamped between the limits. All arithmetic is the saturating fixed-point
/// arithmetic of [`crate::fixed`], division by a zero sample period included.
pub open spec fn step(m: PidModel, setpoint: int, measurement: int) -> PidModel {
    let error = difference(setpoint, measurement);
    let prop_term = product(error, m.kp);
    let integral = sum(m.integral, product(product(m.ki, error), m.t_s));
    let der_term = product(ratio(difference(error, m.prev_error), m.t_s), m.kd);
    let output = sum(sum(prop_term, integral), der_term);
    PidModel {
        integral,
        prev_error: error,
        output,
        output_sat: limit_spec(output, m.lw_lim, m.up_lim),
        prop_term,
        der_term,
        error_summ: sum(m.error_summ, error),
        ..m
    }
}

/// The text that reports gains, limits and sample period, in two lines.
pub open spec fn config_text(m: PidModel) -> Seq<char> {
    "Kp="@ + decimal(m.kp) + ", Ki="@ + decimal(m.ki) + ", Kd="@ + decimal(m.kd) + ", Ksat="@
        + decimal(m.ksat) + "\nLower limit: "@ + decimal(m.lw_lim) + ", upper limit: "@ + decimal(
        m.up_lim,
    ) + ". Sample time: "@ + decimal(m.t_s) + "s"@
}

/// The text that reports what the last step computed, in three lines.
pub open spec fn performance_text(m: PidModel) -> Seq<char> {
    "Controller output: "@ + decimal(m.output) + " (P="@ + decimal(m.prop_term) + ", I="@
        + decimal(m.integral) + ", D="@ + decimal(m.der_term)
        + ")\nController saturated output: "@ + decimal(m.lw_lim) + " <= "@ + decimal(
        m.output_sat,
    ) + " <= "@ + decimal(m.up_lim) + "\nController error: "@ + decimal(m.prev_error)
        + ". Accumulated error: "@ + decimal(m.error_summ)
}

/// A step keeps every quantity within the number range, whatever the
/// setpoint and the measurement.
pub proof fn lemma_step_in_range(m: PidModel, setpoint: int, measurement: int)
    requires
        m.in_range(),
    ensures
        step(m, setpoint, measurement).in_range(),
{
}

/// The model after a sequence of steps, each given as a pair of setpoint
/// and measurement, applied first to last.
pub open spec fn run(m: PidModel, inputs: Seq<(int, int)>) -> PidModel
    decreases inputs.len(),
{
    if inputs.len() == 0 {
        m
    } else {
        step(run(m, inputs.drop_last()), inputs.last().0, inputs.last().1)
    }
}

/// Stepping never touches the configuration: gains, limits and sample
/// period after any run are those before it. After at least one step with
/// well-ordered limits, the saturated output lies between the limits.
pub proof fn lemma_run_keeps_configuration(m: PidModel, inputs: Seq<(int, int)>)
    ensures
        run(m, inputs).kp == m.kp,
        run(m, inputs).ki == m.ki,
        run(m, inputs).kd == m.kd,
        run(m, inputs).ksat == m.ksat,
        run(m, inputs).up_lim == m.up_lim,
        run(m, inputs).lw_lim == m.lw_lim,
        run(m, inputs).t_s == m.t_s,
        inputs.len() > 0 && m.lw_lim <= m.up_lim ==> m.lw_lim <= run(m, inputs).output_sat
            <= m.up_lim,
    decreases inputs.len(),
{
    if inputs.len() > 0 {
        lemma_run_keeps_configuration(m, inputs.drop_last());
    }
}

/// Zero-error steady state: while every measurement equals its setpoint, an
/// integral accumulator that starts at zero stays at zero, and the
/// unsaturated output is zero from the first step on when the remembered
/// previous error is zero, and from the second step on in any case.
pub proof fn lemma_zero_error_steady_state(m: PidModel, inputs: Seq<(int, int)>)
    requires
        m.integral == 0,
        forall|i: int| 0 <= i < inputs.len() ==> (#[trigger] inputs[i]).0 == inputs[i].1,
    ensures
        run(m, inputs).integral == 0,
        inputs.len() >= 1 ==> run(m, inputs).prev_error == 0,
        inputs.len() >= 1 ==> run(m, inputs).prop_term == 0,
        (inputs.len() >= 1 && m.prev_error == 0) || inputs.len() >= 2 ==> run(m, inputs).der_term
            == 0 && run(m, inputs).output == 0,
    decreases inputs.len(),
{
    if inputs.len() > 0 {
        let before = run(m, inputs.drop_last());
        lemma_zero_error_steady_state(m, inputs.drop_last());
        lemma_run_keeps_configuration(m, inputs.drop_last());
        lemma_step_on_target(before, inputs.last().0);
    }
}

/// One step whose measurement equals its setpoint, from a zero integral
/// accumulator: the accumulator stays zero, the error and the proportional
/// term are zero, and with a zero previous error so are the derivative term
/// and the unsaturated output.
pub proof fn lemma_step_on_target(m: PidModel, target: int)
    requires
        m.integral == 0,
    ensures
        step(m, target, target).integral == 0,
        step(m, target, target).prev_error == 0,
        step(m, target, target).prop_term == 0,
        m.prev_error == 0 ==> step(m, target, target).der_term == 0 && step(
            m,
            target,
            target,
        ).output == 0,
{
    assert(0 * m.kp == 0);
    assert(m.ki * 0 == 0);
    assert(0 * m.t_s == 0);
    assert(0 * m.kd == 0);
    if m.t_s != 0 {
        assert(0int / magnitude(m.t_s) == 0);
    }
}

/// Pure proportional response: with zero integral and derivative gains and
/// an empty integral accumulator, the unsaturated output of a step is the
/// error times the proportional gain.
pub proof fn lemma_pure_proportional(m: PidModel, setpoint: int, measurement: int)
    requires
        m.ki == 0,
        m.kd == 0,
        m.integral == 0,
    ensures
        step(m, setpoint, measurement).output == product(
            difference(setpoint, measurement),
            m.kp,
        ),
        step(m, setpoint, measurement).integral == 0,
        step(m, setpoint, measurement).der_term == 0,
{
    let error = difference(setpoint, measurement);
    let slope = ratio(difference(error, m.prev_error), m.t_s);
    assert(0 * error == 0);
    assert(0 * m.t_s == 0);
    assert(slope * 0 == 0);
}

/// What one step at the given setpoint and measurement adds to the integral
/// accumulator: `ki` times the error times the sample period.
pub open spec fn increment(m: PidModel, setpoint: int, measurement: int) -> int {
    product(product(m.ki, difference(setpoint, measurement)), m.t_s)
}

/// The same setpoint and measurement, `n` times.
pub open spec fn held(setpoint: int, measurement: int, n: nat) -> Seq<(int, int)> {
    Seq::new(n, |i: int| (setpoint, measurement))
}

/// Integral accumulation: over `n` steps at one setpoint and one
/// measurement, the integral accumulator grows by `n` increments, as long
/// as that sum stays within the number range. With zero proportional and
/// derivative gains the unsaturated output of the last step is the
/// accumulator itself.
pub proof fn lemma_integral_accumulates(m: PidModel, setpoint: int, measurement: int, n: nat)
    requires
        representable(m.integral),
        representable(m.integral + n * increment(m, setpoint, measurement)),
    ensures
        run(m, held(setpoint, measurement, n)).integral == m.integral + n * increment(
            m,
            setpoint,
            measurement,
        ),
        n >= 1 && m.kp == 0 && m.kd == 0 ==> run(m, held(setpoint, measurement, n)).output
            == m.integral + n * increment(m, setpoint, measurement),
    decreases n,
{
    let inputs = held(setpoint, measurement, n);
    let d = increment(m, setpoint, measurement);
    if n > 0 {
        let shorter = held(setpoint, measurement, (n - 1) as nat);
        assert(inputs.drop_last() =~= shorter);
        assert(n * d == (n - 1) * d + d) by (nonlinear_arith);
        assert((d >= 0 ==> 0 <= (n - 1) * d <= n * d) && (d <= 0 ==> n * d <= (n - 1) * d <= 0))
            by (nonlinear_arith)
            requires
                n >= 1,
        ;
        lemma_integral_accumulates(m, setpoint, measurement, (n - 1) as nat);
        lemma_run_keeps_configuration(m, shorter);
        let before = run(m, shorter);
        let error = difference(setpoint, measurement);
        assert(error * 0 == 0);
        assert(ratio(difference(error, before.prev_error), m.t_s) * 0 == 0);
    } else {
        assert(0 * d == 0);
    }
}

} // verus!
