use crate::errors::ControlError;
use crate::fixed::{
    div_trunc, div_trunc_i128, in_range, lemma_div_trunc_bound, lemma_mul_bound, mul_wide, FX_MAX,
    SCALE,
};
use vstd::prelude::*;

verus! {

/// Upper cap on a controller's output: 100 %, in thousandths.
pub const OUTPUT_CAP: i64 = 100_000;

/// The coefficients of a proportional-integral-derivative controller, in
/// thousandths.
#[derive(Clone, Copy, Debug, PartialEq, Eq, Structural)]
pub struct PIDSettings {
    pub kp: i64,
    pub ki: i64,
    pub kd: i64,
}

impl PIDSettings {
    /// All three gains lie in the representable range.
    pub open spec fn wf(self) -> bool {
        in_range(self.kp as int) && in_range(self.ki as int) && in_range(self.kd as int)
    }

    pub fn new(kp: i64, ki: i64, kd: i64) -> (s: PIDSettings)
        ensures
            s == (PIDSettings { kp, ki, kd }),
    {
        PIDSettings { kp, ki, kd }
    }
}

/// An anti-windup proportional-integral-derivative controller.
///
/// On every update the integral accumulates the instantaneous error, the
/// output is capped at 100 %, and when the cap bites the integral update is
/// undone, so the integral cannot grow while the output is saturated.
#[derive(Clone, Copy, Debug)]
pub struct PIDController {
    pub settings: PIDSettings,
    pub setpoint: i64,
    pub integral: i64,
    pub previous_error: i64,
}

impl PIDController {
    /// Internal invariant: gains, setpoint and integral are in range; the
    /// remembered error is a difference of two in-range values.
    pub open spec fn wf(self) -> bool {
        &&& self.settings.wf()
        &&& in_range(self.setpoint as int)
        &&& in_range(self.integral as int)
        &&& -2 * (FX_MAX as int) <= self.previous_error as int <= 2 * (FX_MAX as int)
    }

    /// The instantaneous error of a reading: setpoint minus current value.
    pub open spec fn spec_error(self, current: int) -> int {
        self.setpoint - current
    }

    /// The integral as tentatively advanced by the current error.
    pub open spec fn spec_tentative_integral(self, current: int) -> int {
        self.integral + self.spec_error(current)
    }

    /// The discrete derivative: current error minus previous error.
    pub open spec fn spec_derivative(self, current: int) -> int {
        self.spec_error(current) - self.previous_error
    }

    /// The uncapped output: `kp*error + ki*integral + kd*derivative`, with
    /// each product of two thousandths-scaled factors scaled back down.
    pub open spec fn spec_raw_output(self, current: int) -> int {
        div_trunc(
            self.settings.kp * self.spec_error(current) + self.settings.ki
                * self.spec_tentative_integral(current) + self.settings.kd * self.spec_derivative(
                current,
            ),
            SCALE as int,
        )
    }

    /// Whether the 100 % cap bites on this reading.
    pub open spec fn spec_saturates(self, current: int) -> bool {
        self.spec_raw_output(current) > OUTPUT_CAP as int
    }

    /// The returned output: the raw output capped at 100 %.
    pub open spec fn spec_output(self, current: int) -> int {
        if self.spec_saturates(current) {
            OUTPUT_CAP as int
        } else {
            self.spec_raw_output(current)
        }
    }

    /// The controller state after a successful update: the error is
    /// remembered, and the integral keeps the tentative advance only when
    /// the output was not saturated.
    pub open spec fn spec_step(self, current: int) -> PIDController {
        PIDController {
            integral: if self.spec_saturates(current) {
                self.integral
            } else {
                self.spec_tentative_integral(current) as i64
            },
            previous_error: self.spec_error(current) as i64,
            ..self
        }
    }

    /// An update succeeds when the reading is in range and the resulting
    /// integral and output stay representable; a saturated tick always
    /// succeeds, since the cap itself is representable and the integral is
    /// held back.
    pub open spec fn spec_update_ok(self, current: int) -> bool {
        &&& in_range(current)
        &&& (self.spec_saturates(current) || (in_range(self.spec_tentative_integral(current))
            && self.spec_raw_output(current) >= -(FX_MAX as int)))
    }

    /// The state after one tick, successful or not: a rejected reading
    /// leaves the controller exactly as it was.
    pub open spec fn spec_tick(self, current: int) -> PIDController {
        if self.spec_update_ok(current) {
            self.spec_step(current)
        } else {
            self
        }
    }

    pub fn new(settings: PIDSettings, setpoint: i64) -> (c: PIDController)
        ensures
            c == (PIDController { settings, setpoint, integral: 0, previous_error: 0 }),
            settings.wf() && in_range(setpoint as int) ==> c.wf(),
    {
        PIDController { settings, setpoint, integral: 0, previous_error: 0 }
    }

    /// Replaces the setpoint; the integral and the remembered error are
    /// deliberately left untouched (no implicit reset).
    pub fn set_setpoint(&mut self, setpoint: i64)
        requires
            in_range(setpoint as int),
        ensures
            *final(self) == (PIDController { setpoint, ..*old(self) }),
            old(self).wf() ==> final(self).wf(),
    {
        self.setpoint = setpoint;
    }

    /// One control tick: accumulates the error into the integral, computes
    /// the capped output, and undoes the integral advance when the cap
    /// bites.  A reading outside the representable range, or one whose
    /// resulting integral or output would leave it, is rejected with
    /// `InvalidInput` and the state is left unchanged.
    pub fn update(&mut self, current_value: i64) -> (r: Result<i64, ControlError>)
        requires
            old(self).wf(),
        ensures
            final(self).wf(),
            r is Ok <==> old(self).spec_update_ok(current_value as int),
            r is Ok ==> *final(self) == old(self).spec_step(current_value as int) && r->Ok_0
                as int == old(self).spec_output(current_value as int),
            r is Err ==> *final(self) == *old(self) && r->Err_0 == ControlError::InvalidInput,
            *final(self) == old(self).spec_tick(current_value as int),
    {
        if current_value < -FX_MAX || current_value > FX_MAX {
            return Err(ControlError::InvalidInput);
        }
        let error: i64 = self.setpoint - current_value;
        let tentative: i64 = self.integral + error;
        let derivative: i64 = error - self.previous_error;
        let p_term: i128 = mul_wide(self.settings.kp, error);
        let i_term: i128 = mul_wide(self.settings.ki, tentative);
        let d_term: i128 = mul_wide(self.settings.kd, derivative);
        proof {
            lemma_mul_bound(
                self.settings.kp as int,
                error as int,
                FX_MAX as int,
                2 * (FX_MAX as int),
            );
            lemma_mul_bound(
                self.settings.ki as int,
                tentative as int,
                FX_MAX as int,
                3 * (FX_MAX as int),
            );
            lemma_mul_bound(
                self.settings.kd as int,
                derivative as int,
                FX_MAX as int,
                4 * (FX_MAX as int),
            );
        }
        let sum: i128 = p_term + i_term + d_term;
        let raw: i128 = div_trunc_i128(sum, SCALE as i128);
        if raw > OUTPUT_CAP as i128 {
            self.previous_error = error;
            Ok(OUTPUT_CAP)
        } else if tentative < -FX_MAX || tentative > FX_MAX || raw < -(FX_MAX as i128) {
            Err(ControlError::InvalidInput)
        } else {
            self.integral = tentative;
            self.previous_error = error;
            Ok(raw as i64)
        }
    }
}

/// The output of a tick never exceeds the 100 % cap, whatever the
/// controller's state and reading; since this holds of every state, no
/// finite input sequence can ever drive the output above the cap.
pub proof fn lemma_output_never_exceeds_cap(c: PIDController, current: int)
    ensures
        c.spec_output(current) <= OUTPUT_CAP as int,
{
}

/// The controller state reached after ticking through a sequence of
/// readings, each tick taken as the executable update takes it.
pub open spec fn spec_run(c: PIDController, inputs: Seq<int>) -> PIDController
    decreases inputs.len(),
{
    if inputs.len() == 0 {
        c
    } else {
        spec_run(c, inputs.drop_last()).spec_tick(inputs.last())
    }
}

/// Over any finite sequence of readings, every output the controller
/// emits along the way is capped at 100 %.
pub proof fn lemma_run_outputs_capped(c: PIDController, inputs: Seq<int>, i: int)
    requires
        0 <= i < inputs.len(),
    ensures
        spec_run(c, inputs.take(i)).spec_output(inputs[i]) <= OUTPUT_CAP as int,
{
    lemma_output_never_exceeds_cap(spec_run(c, inputs.take(i)), inputs[i]);
}

/// Anti-windup: on a saturating tick the integral does not advance.
pub proof fn lemma_anti_windup_holds_integral(c: PIDController, current: int)
    requires
        c.spec_saturates(current),
    ensures
        c.spec_step(current).integral == c.integral,
{
}

/// Under a sustained constant saturating error the integral reaches a
/// plateau rather than diverging: two consecutive saturated ticks on the
/// same reading leave it exactly where it started.
pub proof fn lemma_saturation_plateau(c: PIDController, current: int)
    requires
        c.spec_saturates(current),
        c.spec_step(current).spec_saturates(current),
    ensures
        c.spec_step(current).spec_step(current).integral == c.integral,
{
}

} // verus!
