//! The controller: gains, limits, sample period, and the step that turns a
//! setpoint and a measurement into a bounded actuator signal.

use vstd::prelude::*;
use vstd::string::StringExecFns;
use crate::fixed::Fixed;
use crate::model::{config_text, initial, performance_text, step, PidModel};
use crate::utils::limit;

verus! {

/// The gains, limits and sample period of a controller, as plain values.
#[derive(Clone, Copy, Debug, PartialEq, Eq, Structural)]
pub struct PidConfig {
    pub kp: Fixed,
    pub ki: Fixed,
    pub kd: Fixed,
    pub ksat: Fixed,
    pub lw_lim: Fixed,
    pub up_lim: Fixed,
    pub t_s: Fixed,
}

/// What the last step computed, as plain values.
#[derive(Clone, Copy, Debug, PartialEq, Eq, Structural)]
pub struct PidPerformance {
    /// Unsaturated output.
    pub output: Fixed,
    /// Saturated output.
    pub output_sat: Fixed,
    /// Proportional term.
    pub prop_term: Fixed,
    /// Integral term, which is the integral accumulator.
    pub int_term: Fixed,
    /// Derivative term.
    pub der_term: Fixed,
    /// Error: setpoint minus measurement.
    pub error: Fixed,
    /// Running sum of all errors seen.
    pub error_summ: Fixed,
}

/// The anti-windup strategies that the controller names but does not yet offer.
#[derive(Clone, Copy, Debug, PartialEq, Eq, Structural)]
pub enum AntiWindup {
    Clamp,
    BackCalculation,
    ConditionalIntegration,
    Tracking,
}

/// The failure of a step variant that has no algorithm behind it yet.
#[derive(Clone, Copy, Debug, PartialEq, Eq, Structural)]
pub struct NotImplemented {
    pub strategy: AntiWindup,
}

/// A single-axis PID controller.
#[derive(Debug)]
pub struct Pid {
    kp: Fixed,
    ki: Fixed,
    kd: Fixed,
    ksat: Fixed,
    up_lim: Fixed,
    lw_lim: Fixed,
    t_s: Fixed,
    integral: Fixed,
    prev_error: Fixed,
    output: Fixed,
    output_sat: Fixed,
    prop_term: Fixed,
    der_term: Fixed,
    error_summ: Fixed,
}

impl View for Pid {
    type V = PidModel;

    closed spec fn view(&self) -> PidModel {
        PidModel {
            kp: self.kp@,
            ki: self.ki@,
            kd: self.kd@,
            ksat: self.ksat@,
            up_lim: self.up_lim@,
            lw_lim: self.lw_lim@,
            t_s: self.t_s@,
            integral: self.integral@,
            prev_error: self.prev_error@,
            output: self.output@,
            output_sat: self.output_sat@,
            prop_term: self.prop_term@,
            der_term: self.der_term@,
            error_summ: self.error_summ@,
        }
    }
}

impl Pid {
    /// Every quantity of a controller's model fits a `Fixed`.
    pub proof fn lemma_in_range(&self)
        ensures
            self@.in_range(),
    {
    }

    /// Builds a controller with the given gains. Limits, sample period,
    /// state and telemetry start at zero; call [`Pid::set_pid_config`]
    /// before stepping.
    pub fn new(kp: Fixed, ki: Fixed, kd: Fixed, ksat: Fixed) -> (pid: Pid)
        ensures
            pid@ == initial(kp@, ki@, kd@, ksat@),
    {
        Pid {
            kp,
            ki,
            kd,
            ksat,
            up_lim: Fixed::zero(),
            lw_lim: Fixed::zero(),
            t_s: Fixed::zero(),
            integral: Fixed::zero(),
            prev_error: Fixed::zero(),
            output: Fixed::zero(),
            output_sat: Fixed::zero(),
            prop_term: Fixed::zero(),
            der_term: Fixed::zero(),
            error_summ: Fixed::zero(),
        }
    }

    /// Overwrites the four gains; they take effect at the next step.
    pub fn set_pid_constants(&mut self, kp: Fixed, ki: Fixed, kd: Fixed, ksat: Fixed)
        ensures
            final(self)@ == (PidModel { kp: kp@, ki: ki@, kd: kd@, ksat: ksat@, ..old(self)@ }),
    {
        self.kp = kp;
        self.ki = ki;
        self.kd = kd;
        self.ksat = ksat;
    }

    /// Overwrites the output limits and the sample period. Nothing is
    /// validated: inverted limits and a non-positive period are stored as given.
    pub fn set_pid_config(&mut self, up_lim: Fixed, lw_lim: Fixed, t_s: Fixed)
        ensures
            final(self)@ == (PidModel {
                up_lim: up_lim@,
                lw_lim: lw_lim@,
                t_s: t_s@,
                ..old(self)@
            }),
    {
        self.set_pid_limits(up_lim, lw_lim);
        self.set_pid_sample_time(t_s);
    }

    /// Advances the controller by one sample without anti-windup and returns
    /// the saturated output.
    ///
    /// The sample period is not guarded. While it is zero, the integral
    /// accumulator stands still and a changing error drives the derivative
    /// quotient to an end of the number range.
    pub fn pid_step_wo_aw(&mut self, setp: Fixed, meas: Fixed) -> (out: Fixed)
        ensures
            final(self)@ == step(old(self)@, setp@, meas@),
            out@ == final(self)@.output_sat,
            old(self)@.lw_lim <= old(self)@.up_lim ==> old(self)@.lw_lim <= out@ <= old(self)@.up_lim,
    {
        let error = setp.sat_sub(meas);
        let prop_term = error.sat_mul(self.kp);

        self.integral = self.integral.sat_add(self.ki.sat_mul(error).sat_mul(self.t_s));
        let int_term = self.integral;

        let der_term = error.sat_sub(self.prev_error).sat_div(self.t_s).sat_mul(self.kd);

        self.prev_error = error;
        self.prop_term = prop_term;
        self.der_term = der_term;
        self.error_summ = self.error_summ.sat_add(error);

        self.output = prop_term.sat_add(int_term).sat_add(der_term);
        self.output_sat = limit(self.output, self.lw_lim, self.up_lim);
        self.output_sat
    }

    /// Step with clamping anti-windup: not offered yet. It fails on every
    /// call and changes nothing, so that no caller mistakes it for a step.
    pub fn pid_step_w_aw_clamp() -> (r: Result<(), NotImplemented>)
        ensures
            r == Err::<(), NotImplemented>(NotImplemented { strategy: AntiWindup::Clamp }),
    {
        Err(NotImplemented { strategy: AntiWindup::Clamp })
    }

    /// Step with back-calculation anti-windup: not offered yet; fails on
    /// every call.
    pub fn pid_step_w_aw_backcalc() -> (r: Result<(), NotImplemented>)
        ensures
            r == Err::<(), NotImplemented>(
                NotImplemented { strategy: AntiWindup::BackCalculation },
            ),
    {
        Err(NotImplemented { strategy: AntiWindup::BackCalculation })
    }

    /// Step with conditional-integration anti-windup: not offered yet;
    /// fails on every call.
    pub fn pid_step_w_aw_condint() -> (r: Result<(), NotImplemented>)
        ensures
            r == Err::<(), NotImplemented>(
                NotImplemented { strategy: AntiWindup::ConditionalIntegration },
            ),
    {
        Err(NotImplemented { strategy: AntiWindup::ConditionalIntegration })
    }

    /// Step with tracking anti-windup: not offered yet; fails on every call.
    pub fn pid_step_w_aw_tracking() -> (r: Result<(), NotImplemented>)
        ensures
            r == Err::<(), NotImplemented>(NotImplemented { strategy: AntiWindup::Tracking }),
    {
        Err(NotImplemented { strategy: AntiWindup::Tracking })
    }

    /// The current gains, limits and sample period.
    pub fn config(&self) -> (c: PidConfig)
        ensures
            c.kp@ == self@.kp,
            c.ki@ == self@.ki,
            c.kd@ == self@.kd,
            c.ksat@ == self@.ksat,
            c.lw_lim@ == self@.lw_lim,
            c.up_lim@ == self@.up_lim,
            c.t_s@ == self@.t_s,
    {
        PidConfig {
            kp: self.kp,
            ki: self.ki,
            kd: self.kd,
            ksat: self.ksat,
            lw_lim: self.lw_lim,
            up_lim: self.up_lim,
            t_s: self.t_s,
        }
    }

    /// The terms, outputs and errors of the last step; all zero before the
    /// first one.
    pub fn performance(&self) -> (p: PidPerformance)
        ensures
            p.output@ == self@.output,
            p.output_sat@ == self@.output_sat,
            p.prop_term@ == self@.prop_term,
            p.int_term@ == self@.integral,
            p.der_term@ == self@.der_term,
            p.error@ == self@.prev_error,
            p.error_summ@ == self@.error_summ,
    {
        PidPerformance {
            output: self.output,
            output_sat: self.output_sat,
            prop_term: self.prop_term,
            int_term: self.integral,
            der_term: self.der_term,
            error: self.prev_error,
            error_summ: self.error_summ,
        }
    }

    /// Gains, limits and sample period as text for a reader.
    pub fn config_report(&self) -> (text: String)
        ensures
            text@ == config_text(self@),
    {
        let mut text = String::from_str("Kp=");
        self.kp.write_decimal(&mut text);
        text.append(", Ki=");
        self.ki.write_decimal(&mut text);
        text.append(", Kd=");
        self.kd.write_decimal(&mut text);
        text.append(", Ksat=");
        self.ksat.write_decimal(&mut text);
        text.append("\nLower limit: ");
        self.lw_lim.write_decimal(&mut text);
        text.append(", upper limit: ");
        self.up_lim.write_decimal(&mut text);
        text.append(". Sample time: ");
        self.t_s.write_decimal(&mut text);
        text.append("s");
        text
    }

    /// The terms, outputs and errors of the last step as text for a reader.
    pub fn performance_report(&self) -> (text: String)
        ensures
            text@ == performance_text(self@),
    {
        let mut text = String::from_str("Controller output: ");
        self.output.write_decimal(&mut text);
        text.append(" (P=");
        self.prop_term.write_decimal(&mut text);
        text.append(", I=");
        self.integral.write_decimal(&mut text);
        text.append(", D=");
        self.der_term.write_decimal(&mut text);
        text.append(")\nController saturated output: ");
        self.lw_lim.write_decimal(&mut text);
        text.append(" <= ");
        self.output_sat.write_decimal(&mut text);
        text.append(" <= ");
        self.up_lim.write_decimal(&mut text);
        text.append("\nController error: ");
        self.prev_error.write_decimal(&mut text);
        text.append(". Accumulated error: ");
        self.error_summ.write_decimal(&mut text);
        text
    }

    fn set_pid_limits(&mut self, up_lim: Fixed, lw_lim: Fixed)
        ensures
            final(self)@ == (PidModel { up_lim: up_lim@, lw_lim: lw_lim@, ..old(self)@ }),
    {
        self.up_lim = up_lim;
        self.lw_lim = lw_lim;
    }

    fn set_pid_sample_time(&mut self, t_s: Fixed)
        ensures
            final(self)@ == (PidModel { t_s: t_s@, ..old(self)@ }),
    {
        self.t_s = t_s;
    }
}

} // verus!
