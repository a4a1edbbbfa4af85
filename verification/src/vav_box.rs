use crate::errors::ControlError;
use crate::fixed::{
    div_trunc, div_trunc_i128, in_range, lemma_div_trunc_bound, lemma_mul_bound, mul_wide, FX_MAX,
    SCALE,
};
use crate::pid::{PIDController, PIDSettings, OUTPUT_CAP};
use vstd::math::abs;
use vstd::prelude::*;

verus! {

/// The three operating modes of a terminal unit.
#[derive(Clone, Copy, Debug, PartialEq, Eq, Structural)]
pub enum VavState {
    Heating,
    Cooling,
    Satisfied,
}

/// The two setpoints a tick commands to the terminal unit, in thousandths.
#[derive(Clone, Copy, Debug, PartialEq, Eq, Structural)]
pub struct ControlOutputs {
    pub discharge_air_temp_setpoint: i64,
    pub discharge_air_flow_setpoint: i64,
}

/// The mode selected for a deviation (setpoint minus current temperature)
/// under a deadband: strictly inside half the deadband the zone is
/// satisfied; otherwise a positive deviation calls for heating and any
/// other for cooling.
pub open spec fn spec_mode(deviation: int, deadband: int) -> VavState {
    if 2 * abs(deviation) < deadband {
        VavState::Satisfied
    } else if deviation > 0 {
        VavState::Heating
    } else {
        VavState::Cooling
    }
}

/// Clamping of a controller output to its lower bound of zero; the upper
/// cap is applied by the controller itself.
pub open spec fn clamp_nonneg(x: int) -> int {
    if x < 0 {
        0
    } else {
        x
    }
}

/// Linear interpolation between `min_val` (at output 0) and `max_val` (at
/// output 100 %), scaled by `pid_output / 100 %`.
pub open spec fn spec_interpolate(pid_output: int, max_val: int, min_val: int) -> int {
    min_val + div_trunc(pid_output * (max_val - min_val), OUTPUT_CAP as int)
}

/// A variable-air-volume terminal unit: a mode state machine over a
/// deadband, one heating and one cooling PID loop, and the staged mapping
/// from the loops' outputs to discharge-air temperature and flow setpoints.
#[derive(Clone, Copy, Debug)]
pub struct VavBox {
    pub current_temp: i64,
    pub setpoint_temp: i64,
    pub deadband: i64,
    pub ahu_supply_air_temp: i64,
    pub max_discharge_air_temp: i64,
    pub clg_flow_min: i64,
    pub clg_flow_max: i64,
    pub htg_flow_min: i64,
    pub htg_flow_max: i64,
    pub satisfied_flow_min: i64,
    pub state: VavState,
    pub heating_pid: PIDController,
    pub cooling_pid: PIDController,
    pub pid_output_heating: i64,
    pub pid_output_cooling: i64,
}

impl VavBox {
    /// Internal invariant: every configured quantity and reading is in
    /// range, the deadband is non-negative, both loops are well formed and
    /// both retained outputs are already clamped to `[0, 100 %]`.
    pub open spec fn wf(self) -> bool {
        &&& in_range(self.current_temp as int)
        &&& in_range(self.setpoint_temp as int)
        &&& 0 <= self.deadband <= FX_MAX
        &&& in_range(self.ahu_supply_air_temp as int)
        &&& in_range(self.max_discharge_air_temp as int)
        &&& in_range(self.clg_flow_min as int)
        &&& in_range(self.clg_flow_max as int)
        &&& in_range(self.htg_flow_min as int)
        &&& in_range(self.htg_flow_max as int)
        &&& in_range(self.satisfied_flow_min as int)
        &&& self.heating_pid.wf()
        &&& self.cooling_pid.wf()
        &&& 0 <= self.pid_output_heating <= OUTPUT_CAP
        &&& 0 <= self.pid_output_cooling <= OUTPUT_CAP
    }

    /// The current deviation: zone setpoint minus current temperature.
    pub open spec fn spec_deviation(self) -> int {
        self.setpoint_temp - self.current_temp
    }

    /// The mode the next tick will select.
    pub open spec fn spec_new_mode(self) -> VavState {
        spec_mode(self.spec_deviation(), self.deadband as int)
    }

    /// Whether a tick succeeds: it always does when the zone is satisfied,
    /// and otherwise exactly when the active loop's update succeeds.
    pub open spec fn spec_tick_ok(self) -> bool {
        match self.spec_new_mode() {
            VavState::Satisfied => true,
            VavState::Heating => self.heating_pid.spec_update_ok(self.current_temp as int),
            VavState::Cooling => self.cooling_pid.spec_update_ok(self.current_temp as int),
        }
    }

    /// The state after a successful tick: the new mode is stored, the
    /// active loop advances and its clamped output is retained, the
    /// inactive loop is untouched and its output forced to zero; when the
    /// zone is satisfied neither loop advances and both outputs are zero.
    pub open spec fn spec_after_tick(self) -> VavBox {
        match self.spec_new_mode() {
            VavState::Satisfied => VavBox {
                state: VavState::Satisfied,
                pid_output_heating: 0,
                pid_output_cooling: 0,
                ..self
            },
            VavState::Heating => VavBox {
                state: VavState::Heating,
                heating_pid: self.heating_pid.spec_step(self.current_temp as int),
                pid_output_heating: clamp_nonneg(
                    self.heating_pid.spec_output(self.current_temp as int),
                ) as i64,
                pid_output_cooling: 0,
                ..self
            },
            VavState::Cooling => VavBox {
                state: VavState::Cooling,
                cooling_pid: self.cooling_pid.spec_step(self.current_temp as int),
                pid_output_cooling: clamp_nonneg(
                    self.cooling_pid.spec_output(self.current_temp as int),
                ) as i64,
                pid_output_heating: 0,
                ..self
            },
        }
    }

    /// The discharge-air temperature setpoint for the stored mode: while
    /// heating at up to 50 % output, interpolated between the AHU supply
    /// temperature and the maximum discharge temperature over the full
    /// output range; above 50 %, clamped to the maximum; otherwise the AHU
    /// supply temperature (no reheat).
    pub open spec fn spec_discharge_air_temp(self) -> int {
        match self.state {
            VavState::Heating => if self.pid_output_heating <= OUTPUT_CAP / 2 {
                spec_interpolate(
                    self.pid_output_heating as int,
                    self.max_discharge_air_temp as int,
                    self.ahu_supply_air_temp as int,
                )
            } else {
                self.max_discharge_air_temp as int
            },
            VavState::Cooling => self.ahu_supply_air_temp as int,
            VavState::Satisfied => self.ahu_supply_air_temp as int,
        }
    }

    /// The discharge-air flow setpoint for the stored mode: while heating
    /// at up to 50 % output, held at the heating minimum ("reheat first");
    /// above 50 %, interpolated between the heating minimum and maximum;
    /// while cooling, interpolated between the cooling minimum and maximum
    /// over the full range; when satisfied, the satisfied-mode minimum.
    pub open spec fn spec_discharge_air_flow(self) -> int {
        match self.state {
            VavState::Heating => if self.pid_output_heating > OUTPUT_CAP / 2 {
                spec_interpolate(
                    self.pid_output_heating as int,
                    self.htg_flow_max as int,
                    self.htg_flow_min as int,
                )
            } else {
                self.htg_flow_min as int
            },
            VavState::Cooling => spec_interpolate(
                self.pid_output_cooling as int,
                self.clg_flow_max as int,
                self.clg_flow_min as int,
            ),
            VavState::Satisfied => self.satisfied_flow_min as int,
        }
    }

    /// Creates a terminal unit around the given zone setpoint, loop
    /// settings and deadband.  Both loops start at the zone setpoint with
    /// cleared integrals; mode and configured temperatures and flows start
    /// from the firmware defaults and may be changed through the setters.
    /// Out-of-range inputs or a negative deadband are rejected.
    pub fn new(
        setpoint: i64,
        heating_pid_settings: PIDSettings,
        cooling_pid_settings: PIDSettings,
        deadband: i64,
    ) -> (r: Result<VavBox, ControlError>)
        ensures
            r is Ok <==> (in_range(setpoint as int) && heating_pid_settings.wf()
                && cooling_pid_settings.wf() && 0 <= deadband <= FX_MAX),
            r is Ok ==> r->Ok_0 == (VavBox {
                current_temp: 21_900i64,
                setpoint_temp: setpoint,
                deadband,
                ahu_supply_air_temp: 60_000i64,
                max_discharge_air_temp: 110_000i64,
                clg_flow_min: 500_000i64,
                clg_flow_max: 1_000_000i64,
                htg_flow_min: 400_000i64,
                htg_flow_max: 800_000i64,
                satisfied_flow_min: 450_000i64,
                state: VavState::Satisfied,
                heating_pid: PIDController {
                    settings: heating_pid_settings,
                    setpoint,
                    integral: 0,
                    previous_error: 0,
                },
                cooling_pid: PIDController {
                    settings: cooling_pid_settings,
                    setpoint,
                    integral: 0,
                    previous_error: 0,
                },
                pid_output_heating: 0,
                pid_output_cooling: 0,
            }) && r->Ok_0.wf(),
            r is Err ==> r->Err_0 == ControlError::InvalidInput,
    {
        if setpoint < -FX_MAX || setpoint > FX_MAX {
            return Err(ControlError::InvalidInput);
        }
        if heating_pid_settings.kp < -FX_MAX || heating_pid_settings.kp > FX_MAX
            || heating_pid_settings.ki < -FX_MAX || heating_pid_settings.ki > FX_MAX
            || heating_pid_settings.kd < -FX_MAX || heating_pid_settings.kd > FX_MAX {
            return Err(ControlError::InvalidInput);
        }
        if cooling_pid_settings.kp < -FX_MAX || cooling_pid_settings.kp > FX_MAX
            || cooling_pid_settings.ki < -FX_MAX || cooling_pid_settings.ki > FX_MAX
            || cooling_pid_settings.kd < -FX_MAX || cooling_pid_settings.kd > FX_MAX {
            return Err(ControlError::InvalidInput);
        }
        if deadband < 0 || deadband > FX_MAX {
            return Err(ControlError::InvalidInput);
        }
        Ok(
            VavBox {
                current_temp: 21_900,
                setpoint_temp: setpoint,
                deadband,
                ahu_supply_air_temp: 60_000,
                max_discharge_air_temp: 110_000,
                clg_flow_min: 500_000,
                clg_flow_max: 1_000_000,
                htg_flow_min: 400_000,
                htg_flow_max: 800_000,
                satisfied_flow_min: 450_000,
                state: VavState::Satisfied,
                heating_pid: PIDController::new(heating_pid_settings, setpoint),
                cooling_pid: PIDController::new(cooling_pid_settings, setpoint),
                pid_output_heating: 0,
                pid_output_cooling: 0,
            },
        )
    }

    /// The mode selected for a deviation under a deadband.
    pub fn mode_for(deviation: i64, deadband: i64) -> (m: VavState)
        requires
            -2 * (FX_MAX as int) <= deviation as int <= 2 * (FX_MAX as int),
            0 <= deadband,
        ensures
            m == spec_mode(deviation as int, deadband as int),
    {
        let magnitude: i64 = if deviation >= 0 {
            deviation
        } else {
            -deviation
        };
        if 2 * magnitude < deadband {
            VavState::Satisfied
        } else if deviation > 0 {
            VavState::Heating
        } else {
            VavState::Cooling
        }
    }

    /// Recomputes the stored mode from the current deviation.
    pub fn update_state(&mut self)
        requires
            old(self).wf(),
        ensures
            *final(self) == (VavBox { state: old(self).spec_new_mode(), ..*old(self) }),
            final(self).wf(),
    {
        let deviation: i64 = self.setpoint_temp - self.current_temp;
        let mode = Self::mode_for(deviation, self.deadband);
        self.state = mode;
    }

    /// One tick of the mode state machine and of the active loop; see
    /// `spec_after_tick` for the committed state.  On failure of the
    /// active loop the unit is left exactly as it was.
    pub fn calculate_pid(&mut self) -> (r: Result<(), ControlError>)
        requires
            old(self).wf(),
        ensures
            final(self).wf(),
            r is Ok <==> old(self).spec_tick_ok(),
            r is Ok ==> *final(self) == old(self).spec_after_tick(),
            r is Err ==> *final(self) == *old(self) && r->Err_0 == ControlError::InvalidInput,
    {
        let deviation: i64 = self.setpoint_temp - self.current_temp;
        let mode = Self::mode_for(deviation, self.deadband);
        match mode {
            VavState::Satisfied => {
                self.state = VavState::Satisfied;
                self.pid_output_heating = 0;
                self.pid_output_cooling = 0;
                Ok(())
            },
            VavState::Heating => {
                let mut pid = self.heating_pid;
                match pid.update(self.current_temp) {
                    Ok(output) => {
                        self.heating_pid = pid;
                        self.pid_output_heating = if output < 0 {
                            0
                        } else {
                            output
                        };
                        self.pid_output_cooling = 0;
                        self.state = VavState::Heating;
                        Ok(())
                    },
                    Err(e) => Err(e),
                }
            },
            VavState::Cooling => {
                let mut pid = self.cooling_pid;
                match pid.update(self.current_temp) {
                    Ok(output) => {
                        self.cooling_pid = pid;
                        self.pid_output_cooling = if output < 0 {
                            0
                        } else {
                            output
                        };
                        self.pid_output_heating = 0;
                        self.state = VavState::Cooling;
                        Ok(())
                    },
                    Err(e) => Err(e),
                }
            },
        }
    }
    /// The discharge-air temperature setpoint for the stored mode.
    pub fn calculate_discharge_air_temp_setpoint(&self) -> (r: i64)
        requires
            self.wf(),
        ensures
            r as int == self.spec_discharge_air_temp(),
    {
        match self.state {
            VavState::Heating => {
                if self.pid_output_heating <= OUTPUT_CAP / 2 {
                    interpolate_output(
                        self.pid_output_heating,
                        self.max_discharge_air_temp,
                        self.ahu_supply_air_temp,
                    )
                } else {
                    self.max_discharge_air_temp
                }
            },
            VavState::Cooling => self.ahu_supply_air_temp,
            VavState::Satisfied => self.ahu_supply_air_temp,
        }
    }

    /// The discharge-air flow setpoint for the stored mode.
    pub fn calculate_discharge_air_flow_setpoint(&self) -> (r: i64)
        requires
            self.wf(),
        ensures
            r as int == self.spec_discharge_air_flow(),
    {
        match self.state {
            VavState::Heating => {
                if self.pid_output_heating > OUTPUT_CAP / 2 {
                    interpolate_output(
                        self.pid_output_heating,
                        self.htg_flow_max,
                        self.htg_flow_min,
                    )
                } else {
                    self.htg_flow_min
                }
            },
            VavState::Cooling => interpolate_output(
                self.pid_output_cooling,
                self.clg_flow_max,
                self.clg_flow_min,
            ),
            VavState::Satisfied => self.satisfied_flow_min,
        }
    }

    /// One full control tick: mode selection, the active loop's update,
    /// and the staged discharge-air setpoints computed from the committed
    /// state.  On failure the unit is left exactly as it was.
    pub fn calculate_control_logic(&mut self) -> (r: Result<ControlOutputs, ControlError>)
        requires
            old(self).wf(),
        ensures
            final(self).wf(),
            r is Ok <==> old(self).spec_tick_ok(),
            r is Ok ==> *final(self) == old(self).spec_after_tick()
                && r->Ok_0.discharge_air_temp_setpoint as int == final(self).spec_discharge_air_temp() && r->Ok_0.discharge_air_flow_setpoint as int == final(self).spec_discharge_air_flow(),
            r is Err ==> *final(self) == *old(self) && r->Err_0 == ControlError::InvalidInput,
    {
        match self.calculate_pid() {
            Ok(()) => {
                let temp_setpoint = self.calculate_discharge_air_temp_setpoint();
                let flow_setpoint = self.calculate_discharge_air_flow_setpoint();
                Ok(
                    ControlOutputs {
                        discharge_air_temp_setpoint: temp_setpoint,
                        discharge_air_flow_setpoint: flow_setpoint,
                    },
                )
            },
            Err(e) => Err(e),
        }
    }

    /// Takes a new temperature reading and runs one full control tick on
    /// it, reporting the resulting mode and discharge-air setpoints.  An
    /// out-of-range reading, or a tick whose active loop fails, leaves the
    /// unit exactly as it was.
    pub fn update_temperature(&mut self, new_temp: i64) -> (r: Result<
        (VavState, ControlOutputs),
        ControlError,
    >)
        requires
            old(self).wf(),
        ensures
            final(self).wf(),
            r is Ok <==> (in_range(new_temp as int) && (VavBox {
                current_temp: new_temp,
                ..*old(self)
            }).spec_tick_ok()),
            r is Ok ==> *final(self) == (VavBox {
                current_temp: new_temp,
                ..*old(self)
            }).spec_after_tick() && r->Ok_0.0 == final(self).state
                && r->Ok_0.1.discharge_air_temp_setpoint as int == final(self).spec_discharge_air_temp() && r->Ok_0.1.discharge_air_flow_setpoint as int == final(self).spec_discharge_air_flow(),
            r is Err ==> *final(self) == *old(self) && r->Err_0 == ControlError::InvalidInput,
    {
        if new_temp < -FX_MAX || new_temp > FX_MAX {
            return Err(ControlError::InvalidInput);
        }
        let mut staged = *self;
        staged.current_temp = new_temp;
        match staged.calculate_control_logic() {
            Ok(outputs) => {
                *self = staged;
                let mode = self.state;
                Ok((mode, outputs))
            },
            Err(e) => Err(e),
        }
    }

    /// Shifts the current temperature by the given amount and recomputes
    /// the mode; the loops do not advance.  A shift that is out of range,
    /// or would carry the temperature out of range, is rejected.
    pub fn change_temp(&mut self, temp_change: i64) -> (r: Result<(), ControlError>)
        requires
            old(self).wf(),
        ensures
            final(self).wf(),
            r is Ok <==> (in_range(temp_change as int) && in_range(
                old(self).current_temp + temp_change,
            )),
            r is Ok ==> *final(self) == (VavBox {
                current_temp: (old(self).current_temp + temp_change) as i64,
                state: (VavBox {
                    current_temp: (old(self).current_temp + temp_change) as i64,
                    ..*old(self)
                }).spec_new_mode(),
                ..*old(self)
            }),
            r is Err ==> *final(self) == *old(self) && r->Err_0 == ControlError::InvalidInput,
    {
        if temp_change < -FX_MAX || temp_change > FX_MAX {
            return Err(ControlError::InvalidInput);
        }
        let shifted: i64 = self.current_temp + temp_change;
        if shifted < -FX_MAX || shifted > FX_MAX {
            return Err(ControlError::InvalidInput);
        }
        self.current_temp = shifted;
        self.update_state();
        Ok(())
    }

    /// A unit command for the stored mode: full heating, full cooling, or
    /// none.
    pub fn control_signal(&self) -> (r: i64)
        ensures
            self.state is Heating ==> r == SCALE,
            self.state is Cooling ==> r == -SCALE,
            self.state is Satisfied ==> r == 0,
    {
        match self.state {
            VavState::Heating => SCALE,
            VavState::Cooling => -SCALE,
            VavState::Satisfied => 0,
        }
    }

    /// The stored mode.
    pub fn get_mode(&self) -> (m: VavState)
        ensures
            m == self.state,
    {
        self.state
    }

    /// The stored mode as a numeric code: heating 1, cooling 2,
    /// satisfied 3.
    pub fn get_state_code(&self) -> (code: u32)
        ensures
            self.state is Heating ==> code == 1,
            self.state is Cooling ==> code == 2,
            self.state is Satisfied ==> code == 3,
    {
        match self.state {
            VavState::Heating => 1,
            VavState::Cooling => 2,
            VavState::Satisfied => 3,
        }
    }

    /// The heating loop's retained output, already clamped to `[0, 100 %]`.
    pub fn get_pid_output_heating(&self) -> (r: i64)
        ensures
            r == self.pid_output_heating,
    {
        self.pid_output_heating
    }

    /// The cooling loop's retained output, already clamped to `[0, 100 %]`.
    pub fn get_pid_output_cooling(&self) -> (r: i64)
        ensures
            r == self.pid_output_cooling,
    {
        self.pid_output_cooling
    }

    /// Overwrites the current temperature reading without running a tick.
    pub fn set_zone_air_temp(&mut self, value: i64) -> (r: Result<(), ControlError>)
        requires
            old(self).wf(),
        ensures
            final(self).wf(),
            r is Ok <==> in_range(value as int),
            r is Ok ==> *final(self) == (VavBox { current_temp: value, ..*old(self) }),
            r is Err ==> *final(self) == *old(self) && r->Err_0 == ControlError::InvalidInput,
    {
        if value < -FX_MAX || value > FX_MAX {
            return Err(ControlError::InvalidInput);
        }
        self.current_temp = value;
        Ok(())
    }

    /// Replaces the zone setpoint, and with it both loops' setpoints; the
    /// loops' integrals and remembered errors are left untouched.
    pub fn set_zone_air_temp_setpoint(&mut self, value: i64) -> (r: Result<(), ControlError>)
        requires
            old(self).wf(),
        ensures
            final(self).wf(),
            r is Ok <==> in_range(value as int),
            r is Ok ==> *final(self) == (VavBox {
                setpoint_temp: value,
                heating_pid: (PIDController { setpoint: value, ..old(self).heating_pid }),
                cooling_pid: (PIDController { setpoint: value, ..old(self).cooling_pid }),
                ..*old(self)
            }),
            r is Err ==> *final(self) == *old(self) && r->Err_0 == ControlError::InvalidInput,
    {
        if value < -FX_MAX || value > FX_MAX {
            return Err(ControlError::InvalidInput);
        }
        self.setpoint_temp = value;
        self.heating_pid.set_setpoint(value);
        self.cooling_pid.set_setpoint(value);
        Ok(())
    }

    /// Replaces the AHU supply-air temperature.
    pub fn set_ahu_supply_air_temp(&mut self, value: i64) -> (r: Result<(), ControlError>)
        requires
            old(self).wf(),
        ensures
            final(self).wf(),
            r is Ok <==> in_range(value as int),
            r is Ok ==> *final(self) == (VavBox { ahu_supply_air_temp: value, ..*old(self) }),
            r is Err ==> *final(self) == *old(self) && r->Err_0 == ControlError::InvalidInput,
    {
        if value < -FX_MAX || value > FX_MAX {
            return Err(ControlError::InvalidInput);
        }
        self.ahu_supply_air_temp = value;
        Ok(())
    }

    /// Replaces the cooling minimum flow setpoint.
    pub fn set_clg_flow_min_air_flow_setpoint(&mut self, value: i64) -> (r: Result<
        (),
        ControlError,
    >)
        requires
            old(self).wf(),
        ensures
            final(self).wf(),
            r is Ok <==> in_range(value as int),
            r is Ok ==> *final(self) == (VavBox { clg_flow_min: value, ..*old(self) }),
            r is Err ==> *final(self) == *old(self) && r->Err_0 == ControlError::InvalidInput,
    {
        if value < -FX_MAX || value > FX_MAX {
            return Err(ControlError::InvalidInput);
        }
        self.clg_flow_min = value;
        Ok(())
    }

    /// Replaces the cooling maximum flow setpoint.
    pub fn set_clg_flow_max_air_flow_setpoint(&mut self, value: i64) -> (r: Result<
        (),
        ControlError,
    >)
        requires
            old(self).wf(),
        ensures
            final(self).wf(),
            r is Ok <==> in_range(value as int),
            r is Ok ==> *final(self) == (VavBox { clg_flow_max: value, ..*old(self) }),
            r is Err ==> *final(self) == *old(self) && r->Err_0 == ControlError::InvalidInput,
    {
        if value < -FX_MAX || value > FX_MAX {
            return Err(ControlError::InvalidInput);
        }
        self.clg_flow_max = value;
        Ok(())
    }

    /// Replaces the heating minimum flow setpoint.
    pub fn set_htg_flow_min_air_flow_setpoint(&mut self, value: i64) -> (r: Result<
        (),
        ControlError,
    >)
        requires
            old(self).wf(),
        ensures
            final(self).wf(),
            r is Ok <==> in_range(value as int),
            r is Ok ==> *final(self) == (VavBox { htg_flow_min: value, ..*old(self) }),
            r is Err ==> *final(self) == *old(self) && r->Err_0 == ControlError::InvalidInput,
    {
        if value < -FX_MAX || value > FX_MAX {
            return Err(ControlError::InvalidInput);
        }
        self.htg_flow_min = value;
        Ok(())
    }

    /// Replaces the heating maximum flow setpoint.
    pub fn set_htg_flow_max_air_flow_setpoint(&mut self, value: i64) -> (r: Result<
        (),
        ControlError,
    >)
        requires
            old(self).wf(),
        ensures
            final(self).wf(),
            r is Ok <==> in_range(value as int),
            r is Ok ==> *final(self) == (VavBox { htg_flow_max: value, ..*old(self) }),
            r is Err ==> *final(self) == *old(self) && r->Err_0 == ControlError::InvalidInput,
    {
        if value < -FX_MAX || value > FX_MAX {
            return Err(ControlError::InvalidInput);
        }
        self.htg_flow_max = value;
        Ok(())
    }

    /// Replaces the satisfied-mode minimum flow setpoint.
    pub fn set_satisfied_flow_min_air_flow_setpoint(&mut self, value: i64) -> (r: Result<
        (),
        ControlError,
    >)
        requires
            old(self).wf(),
        ensures
            final(self).wf(),
            r is Ok <==> in_range(value as int),
            r is Ok ==> *final(self) == (VavBox { satisfied_flow_min: value, ..*old(self) }),
            r is Err ==> *final(self) == *old(self) && r->Err_0 == ControlError::InvalidInput,
    {
        if value < -FX_MAX || value > FX_MAX {
            return Err(ControlError::InvalidInput);
        }
        self.satisfied_flow_min = value;
        Ok(())
    }

    /// Replaces the maximum discharge-air temperature.
    pub fn set_max_discharge_air_temp(&mut self, value: i64) -> (r: Result<(), ControlError>)
        requires
            old(self).wf(),
        ensures
            final(self).wf(),
            r is Ok <==> in_range(value as int),
            r is Ok ==> *final(self) == (VavBox { max_discharge_air_temp: value, ..*old(self) }),
            r is Err ==> *final(self) == *old(self) && r->Err_0 == ControlError::InvalidInput,
    {
        if value < -FX_MAX || value > FX_MAX {
            return Err(ControlError::InvalidInput);
        }
        self.max_discharge_air_temp = value;
        Ok(())
    }

    /// Replaces the deadband; a negative deadband is rejected.
    pub fn set_zone_air_temp_deadband(&mut self, value: i64) -> (r: Result<(), ControlError>)
        requires
            old(self).wf(),
        ensures
            final(self).wf(),
            r is Ok <==> 0 <= value <= FX_MAX,
            r is Ok ==> *final(self) == (VavBox { deadband: value, ..*old(self) }),
            r is Err ==> *final(self) == *old(self) && r->Err_0 == ControlError::InvalidInput,
    {
        if value < 0 || value > FX_MAX {
            return Err(ControlError::InvalidInput);
        }
        self.deadband = value;
        Ok(())
    }
}

/// Interpolation between `min_val` (at output 0) and `max_val` (at 100 %).
pub fn interpolate_output(pid_output: i64, max_val: i64, min_val: i64) -> (r: i64)
    requires
        0 <= pid_output <= OUTPUT_CAP,
        in_range(max_val as int),
        in_range(min_val as int),
    ensures
        r as int == spec_interpolate(pid_output as int, max_val as int, min_val as int),
{
    let difference: i64 = max_val - min_val;
    let scaled: i128 = mul_wide(pid_output, difference);
    proof {
        lemma_mul_bound(
            pid_output as int,
            difference as int,
            OUTPUT_CAP as int,
            2 * (FX_MAX as int),
        );
    }
    let quotient: i128 = div_trunc_i128(scaled, OUTPUT_CAP as i128);
    proof {
        lemma_div_trunc_bound(
            scaled as int,
            OUTPUT_CAP as int,
            OUTPUT_CAP as int * 2 * (FX_MAX as int),
        );
    }
    min_val + (quotient as i64)
}

/// After any successful tick the active loop's retained output lies in
/// `[0, 100 %]` and is the clamped loop output, the inactive loop's output
/// is forced to exactly zero, and the inactive loop's state has not
/// advanced; when the zone is satisfied neither loop advances and both
/// outputs are zero.
pub proof fn lemma_tick_output_invariant(v: VavBox)
    requires
        v.wf(),
    ensures
        v.spec_after_tick().state is Heating ==> 0 <= v.spec_after_tick().pid_output_heating
            <= OUTPUT_CAP && v.spec_after_tick().pid_output_cooling == 0
            && v.spec_after_tick().cooling_pid == v.cooling_pid,
        v.spec_after_tick().state is Cooling ==> 0 <= v.spec_after_tick().pid_output_cooling
            <= OUTPUT_CAP && v.spec_after_tick().pid_output_heating == 0
            && v.spec_after_tick().heating_pid == v.heating_pid,
        v.spec_after_tick().state is Satisfied ==> v.spec_after_tick().pid_output_heating == 0
            && v.spec_after_tick().pid_output_cooling == 0 && v.spec_after_tick().heating_pid
            == v.heating_pid && v.spec_after_tick().cooling_pid == v.cooling_pid,
{
    crate::pid::lemma_output_never_exceeds_cap(v.heating_pid, v.current_temp as int);
    crate::pid::lemma_output_never_exceeds_cap(v.cooling_pid, v.current_temp as int);
}

/// Any deviation strictly inside half the deadband selects Satisfied.
pub proof fn lemma_mode_satisfied(deviation: int, deadband: int)
    requires
        2 * abs(deviation) < deadband,
    ensures
        spec_mode(deviation, deadband) == VavState::Satisfied,
{
}

/// Any deviation at or above half the deadband selects Heating, whenever
/// the deviation is positive or the deadband is (so the deviation is too).
pub proof fn lemma_mode_heating(deviation: int, deadband: int)
    requires
        2 * deviation >= deadband,
        deviation > 0 || deadband > 0,
    ensures
        spec_mode(deviation, deadband) == VavState::Heating,
{
}

/// Any deviation at or below minus half a non-negative deadband selects
/// Cooling.
pub proof fn lemma_mode_cooling(deviation: int, deadband: int)
    requires
        2 * deviation <= -deadband,
        deadband >= 0,
    ensures
        spec_mode(deviation, deadband) == VavState::Cooling,
{
}

} // verus!
