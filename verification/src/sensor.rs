//! State machine of the ranging (time-of-flight) sensor.
//!
//! The device walks `Uninitialized -> Configured -> Armed -> Measuring` during
//! bring-up and then loops `Measuring -> DataReady -> Measuring` for the life
//! of the system.  Every step of the protocol is a bus transaction performed
//! by the platform; its outcome enters here as a plain `bool`, and the
//! transition functions state exactly which device state each outcome yields.
//! A bring-up failure is fatal (the device is left `Faulted`, startup is
//! aborted and the un-fed hardware watchdog performs the reset); a failure in
//! the steady-state loop only skips that measurement cycle.

use vstd::prelude::*;

verus! {

/// Lifecycle phase of the ranging device.
#[derive(Clone, Copy, PartialEq, Eq, Structural, Debug)]
pub enum SensorState {
    Uninitialized,
    Configured,
    Armed,
    Measuring,
    DataReady,
    Faulted,
}

/// Hardware status code attached to a ranging result.  Only `Valid` carries a
/// usable distance; any other code is surfaced as a diagnostic only.
#[derive(Clone, Copy, PartialEq, Eq, Structural, Debug)]
pub enum RangeStatus {
    Valid,
    Invalid(u8),
}

/// One ranging result as read from the device.
#[derive(Clone, Copy, PartialEq, Eq, Structural, Debug)]
pub struct Measurement {
    pub distance_mm: u16,
    pub status: RangeStatus,
}

/// Region-of-interest window: four integer bounds focusing the measurement
/// on a sub-window of the sensor's field of view.
#[derive(Clone, Copy, PartialEq, Eq, Structural, Debug)]
pub struct Roi {
    pub x_min: u16,
    pub y_min: u16,
    pub x_max: u16,
    pub y_max: u16,
}

/// Fatal bring-up failures.  Each names the protocol step whose bus
/// transaction failed; there is no software retry for any of them.
#[derive(Clone, Copy, PartialEq, Eq, Structural, Debug)]
pub enum SensorError {
    ResetFailed,
    DataInitFailed,
    StaticInitFailed,
    RoiRejected,
    BudgetRejected,
    PeriodRejected,
    StartFailed,
}

/// Bus outcome of each bring-up step, in protocol order.  Steps after the
/// first failure never reach the bus.
#[derive(Clone, Copy, PartialEq, Eq, Structural, Debug)]
pub struct BringUpOutcomes {
    pub reset_ok: bool,
    pub data_init_ok: bool,
    pub static_init_ok: bool,
    pub roi_ok: bool,
    pub budget_ok: bool,
    pub period_ok: bool,
    pub start_ok: bool,
}

/// The device integrates this long per measurement unless configured
/// otherwise.
pub const DEFAULT_TIMING_BUDGET_US: u32 = 50000;

/// Interval between automatic measurement cycles unless configured otherwise.
pub const DEFAULT_INTER_MEASUREMENT_PERIOD_MS: u32 = 100;

/// The inter-measurement period must cover the timing budget, or the device
/// skips cycles.
pub open spec fn period_covers_budget(budget_us: u32, period_ms: u32) -> bool {
    period_ms * 1000 >= budget_us
}

/// The ranging device as the control loop sees it: its lifecycle state, how
/// far bring-up has progressed, and the measurement configuration.
#[derive(Clone, Copy, PartialEq, Eq, Structural, Debug)]
pub struct SensorDevice {
    pub state: SensorState,
    /// Completed bring-up bus steps: 0 none, 1 software reset, 2 device-data
    /// initialization, 3 static initialization.
    pub init_progress: u8,
    pub roi: Option<Roi>,
    pub timing_budget_us: u32,
    pub inter_measurement_period_ms: u32,
}

impl SensorDevice {
    /// Well-formedness: bring-up progress agrees with the lifecycle state,
    /// and an armed or measuring device has a period that covers its budget.
    pub open spec fn wf(self) -> bool {
        &&& (self.state is Uninitialized ==> self.init_progress <= 2)
        &&& (self.state is Configured || self.state is Armed || self.state is Measuring
            || self.state is DataReady ==> self.init_progress == 3)
        &&& self.timing_budget_us >= 1
        &&& (self.state is Armed || self.state is Measuring || self.state is DataReady
            ==> period_covers_budget(self.timing_budget_us, self.inter_measurement_period_ms))
    }

    /// A device as it exists before any bus transaction has touched it.
    pub open spec fn fresh_spec() -> SensorDevice {
        SensorDevice {
            state: SensorState::Uninitialized,
            init_progress: 0,
            roi: None,
            timing_budget_us: DEFAULT_TIMING_BUDGET_US,
            inter_measurement_period_ms: DEFAULT_INTER_MEASUREMENT_PERIOD_MS,
        }
    }

    pub fn fresh() -> (d: SensorDevice)
        ensures
            d == SensorDevice::fresh_spec(),
            d.wf(),
    {
        SensorDevice {
            state: SensorState::Uninitialized,
            init_progress: 0,
            roi: None,
            timing_budget_us: DEFAULT_TIMING_BUDGET_US,
            inter_measurement_period_ms: DEFAULT_INTER_MEASUREMENT_PERIOD_MS,
        }
    }
}

/// Only a `Valid` status yields a usable distance.
pub open spec fn usable_distance_spec(m: Measurement) -> Option<u16> {
    if m.status is Valid {
        Some(m.distance_mm)
    } else {
        None
    }
}

/// Status gating: the distance of a result is usable exactly when its status
/// is `Valid`; every other status code yields nothing.
pub fn usable_distance(m: &Measurement) -> (r: Option<u16>)
    ensures
        r == usable_distance_spec(*m),
{
    match m.status {
        RangeStatus::Valid => Some(m.distance_mm),
        RangeStatus::Invalid(_) => None,
    }
}

// Spec-level transition functions.  Each takes the device before a protocol
// step together with the bus outcome of that step and yields the device
// after it; the executable methods below are proved equal to them.

pub open spec fn reset_step(d: SensorDevice, bus_ok: bool) -> SensorDevice {
    if bus_ok {
        SensorDevice { init_progress: 1, ..d }
    } else {
        SensorDevice { state: SensorState::Faulted, ..d }
    }
}

pub open spec fn data_init_step(d: SensorDevice, bus_ok: bool) -> SensorDevice {
    if bus_ok {
        SensorDevice { init_progress: 2, ..d }
    } else {
        SensorDevice { state: SensorState::Faulted, ..d }
    }
}

pub open spec fn static_init_step(d: SensorDevice, bus_ok: bool) -> SensorDevice {
    if bus_ok {
        SensorDevice { state: SensorState::Configured, init_progress: 3, ..d }
    } else {
        SensorDevice { state: SensorState::Faulted, ..d }
    }
}

pub open spec fn roi_step(d: SensorDevice, roi: Roi, bus_ok: bool) -> SensorDevice {
    if bus_ok {
        SensorDevice { roi: Some(roi), ..d }
    } else {
        SensorDevice { state: SensorState::Faulted, ..d }
    }
}

pub open spec fn budget_step(d: SensorDevice, budget_us: u32, bus_ok: bool) -> SensorDevice {
    if bus_ok {
        SensorDevice { timing_budget_us: budget_us, ..d }
    } else {
        SensorDevice { state: SensorState::Faulted, ..d }
    }
}

pub open spec fn period_step(d: SensorDevice, period_ms: u32, bus_ok: bool) -> SensorDevice {
    if bus_ok {
        SensorDevice {
            state: SensorState::Armed,
            inter_measurement_period_ms: period_ms,
            ..d
        }
    } else {
        SensorDevice { state: SensorState::Faulted, ..d }
    }
}

pub open spec fn start_step(d: SensorDevice, bus_ok: bool) -> SensorDevice {
    if bus_ok {
        SensorDevice { state: SensorState::Measuring, ..d }
    } else {
        SensorDevice { state: SensorState::Faulted, ..d }
    }
}

/// A data-ready event (edge signal, or a poll that found data waiting).
pub open spec fn ready_step(d: SensorDevice) -> SensorDevice {
    SensorDevice { state: SensorState::DataReady, ..d }
}

/// The combined read-clear-restart transaction.  Whether it succeeds or the
/// cycle is skipped, the device returns to `Measuring` with its configuration
/// untouched.
pub open spec fn consume_step(d: SensorDevice, bus_ok: bool) -> SensorDevice {
    SensorDevice { state: SensorState::Measuring, ..d }
}

impl SensorDevice {
    /// Software reset, the first bring-up step.
    pub fn apply_reset(&mut self, bus_ok: bool) -> (r: Result<(), SensorError>)
        requires
            old(self).state is Uninitialized,
            old(self).init_progress == 0,
        ensures
            *final(self) == reset_step(*old(self), bus_ok),
            r == (if bus_ok {
                Result::<(), SensorError>::Ok(())
            } else {
                Result::<(), SensorError>::Err(SensorError::ResetFailed)
            }),
    {
        if bus_ok {
            self.init_progress = 1;
            Ok(())
        } else {
            self.state = SensorState::Faulted;
            Err(SensorError::ResetFailed)
        }
    }

    /// Device-data initialization, the second bring-up step.
    pub fn apply_data_init(&mut self, bus_ok: bool) -> (r: Result<(), SensorError>)
        requires
            old(self).state is Uninitialized,
            old(self).init_progress == 1,
        ensures
            *final(self) == data_init_step(*old(self), bus_ok),
            r == (if bus_ok {
                Result::<(), SensorError>::Ok(())
            } else {
                Result::<(), SensorError>::Err(SensorError::DataInitFailed)
            }),
    {
        if bus_ok {
            self.init_progress = 2;
            Ok(())
        } else {
            self.state = SensorState::Faulted;
            Err(SensorError::DataInitFailed)
        }
    }

    /// Static (one-time calibration and default-table) initialization; on
    /// success the device is `Configured`.
    pub fn apply_static_init(&mut self, bus_ok: bool) -> (r: Result<(), SensorError>)
        requires
            old(self).state is Uninitialized,
            old(self).init_progress == 2,
        ensures
            *final(self) == static_init_step(*old(self), bus_ok),
            r == (if bus_ok {
                Result::<(), SensorError>::Ok(())
            } else {
                Result::<(), SensorError>::Err(SensorError::StaticInitFailed)
            }),
    {
        if bus_ok {
            self.init_progress = 3;
            self.state = SensorState::Configured;
            Ok(())
        } else {
            self.state = SensorState::Faulted;
            Err(SensorError::StaticInitFailed)
        }
    }

    /// Apply an optional region-of-interest window.  Skipping this step keeps
    /// the device default.
    pub fn apply_roi(&mut self, roi: Roi, bus_ok: bool) -> (r: Result<(), SensorError>)
        requires
            old(self).state is Configured,
        ensures
            *final(self) == roi_step(*old(self), roi, bus_ok),
            r == (if bus_ok {
                Result::<(), SensorError>::Ok(())
            } else {
                Result::<(), SensorError>::Err(SensorError::RoiRejected)
            }),
    {
        if bus_ok {
            self.roi = Some(roi);
            Ok(())
        } else {
            self.state = SensorState::Faulted;
            Err(SensorError::RoiRejected)
        }
    }

    /// Set the timing budget: the microseconds the device integrates per
    /// measurement, trading latency against signal quality.
    pub fn set_timing_budget(&mut self, budget_us: u32, bus_ok: bool) -> (r: Result<
        (),
        SensorError,
    >)
        requires
            old(self).state is Configured,
            budget_us >= 1,
        ensures
            *final(self) == budget_step(*old(self), budget_us, bus_ok),
            r == (if bus_ok {
                Result::<(), SensorError>::Ok(())
            } else {
                Result::<(), SensorError>::Err(SensorError::BudgetRejected)
            }),
    {
        if bus_ok {
            self.timing_budget_us = budget_us;
            Ok(())
        } else {
            self.state = SensorState::Faulted;
            Err(SensorError::BudgetRejected)
        }
    }

    /// Set the inter-measurement period; on success the device is `Armed`.
    /// The period must cover the timing budget, or the device would skip
    /// cycles.
    pub fn set_inter_measurement_period(&mut self, period_ms: u32, bus_ok: bool) -> (r: Result<
        (),
        SensorError,
    >)
        requires
            old(self).state is Configured,
            period_covers_budget(old(self).timing_budget_us, period_ms),
        ensures
            *final(self) == period_step(*old(self), period_ms, bus_ok),
            r == (if bus_ok {
                Result::<(), SensorError>::Ok(())
            } else {
                Result::<(), SensorError>::Err(SensorError::PeriodRejected)
            }),
    {
        if bus_ok {
            self.inter_measurement_period_ms = period_ms;
            self.state = SensorState::Armed;
            Ok(())
        } else {
            self.state = SensorState::Faulted;
            Err(SensorError::PeriodRejected)
        }
    }

    /// Issue start-measurement; on success the device free-runs measurement
    /// cycles at the configured period.
    pub fn start_ranging(&mut self, bus_ok: bool) -> (r: Result<(), SensorError>)
        requires
            old(self).state is Armed,
        ensures
            *final(self) == start_step(*old(self), bus_ok),
            r == (if bus_ok {
                Result::<(), SensorError>::Ok(())
            } else {
                Result::<(), SensorError>::Err(SensorError::StartFailed)
            }),
    {
        if bus_ok {
            self.state = SensorState::Measuring;
            Ok(())
        } else {
            self.state = SensorState::Faulted;
            Err(SensorError::StartFailed)
        }
    }

    /// A data-ready event was observed (edge signal asserted, or a poll found
    /// data waiting).
    pub fn signal_data_ready(&mut self)
        requires
            old(self).state is Measuring,
        ensures
            *final(self) == ready_step(*old(self)),
    {
        self.state = SensorState::DataReady;
    }

    /// Read the ranging result, clear the device flag and re-arm, as one
    /// combined bus transaction.  On success the result is gated by its
    /// status; on a bus fault the cycle is skipped with nothing usable.
    /// Either way the device returns to `Measuring` unchanged otherwise.
    pub fn read_and_restart(&mut self, m: Measurement, bus_ok: bool) -> (usable: Option<u16>)
        requires
            old(self).state is DataReady,
        ensures
            *final(self) == consume_step(*old(self), bus_ok),
            usable == (if bus_ok {
                usable_distance_spec(m)
            } else {
                Option::<u16>::None
            }),
    {
        self.state = SensorState::Measuring;
        if bus_ok {
            usable_distance(&m)
        } else {
            None
        }
    }

    /// Run the whole bring-up protocol: reset, device-data initialization,
    /// static initialization, the optional region of interest, timing budget,
    /// inter-measurement period, then start-measurement.  Succeeds exactly
    /// when every step's bus transaction succeeds; the first failure aborts
    /// bring-up with the device left `Faulted`.
    pub fn bring_up(
        &mut self,
        roi: Option<Roi>,
        budget_us: u32,
        period_ms: u32,
        o: BringUpOutcomes,
    ) -> (r: Result<(), SensorError>)
        requires
            old(self).wf(),
            old(self).state is Uninitialized,
            old(self).init_progress == 0,
            budget_us >= 1,
            period_covers_budget(budget_us, period_ms),
        ensures
            r == bring_up_result(o, roi is Some),
            r is Ok ==> {
                &&& final(self).state is Measuring
                &&& final(self).init_progress == 3
                &&& final(self).roi == (if roi is Some {
                    roi
                } else {
                    old(self).roi
                })
                &&& final(self).timing_budget_us == budget_us
                &&& final(self).inter_measurement_period_ms == period_ms
            },
            r is Err ==> final(self).state is Faulted,
            final(self).wf(),
    {
        self.apply_reset(o.reset_ok)?;
        self.apply_data_init(o.data_init_ok)?;
        self.apply_static_init(o.static_init_ok)?;
        if let Some(window) = roi {
            self.apply_roi(window, o.roi_ok)?;
        }
        self.set_timing_budget(budget_us, o.budget_ok)?;
        self.set_inter_measurement_period(period_ms, o.period_ok)?;
        self.start_ranging(o.start_ok)?;
        Ok(())
    }
}

/// Which result the bring-up protocol yields for each combination of bus
/// outcomes: the error of the first failing step, in protocol order, with
/// the region-of-interest step consulted only when a window was requested.
pub open spec fn bring_up_result(o: BringUpOutcomes, has_roi: bool) -> Result<(), SensorError> {
    if !o.reset_ok {
        Err(SensorError::ResetFailed)
    } else if !o.data_init_ok {
        Err(SensorError::DataInitFailed)
    } else if !o.static_init_ok {
        Err(SensorError::StaticInitFailed)
    } else if has_roi && !o.roi_ok {
        Err(SensorError::RoiRejected)
    } else if !o.budget_ok {
        Err(SensorError::BudgetRejected)
    } else if !o.period_ok {
        Err(SensorError::PeriodRejected)
    } else if !o.start_ok {
        Err(SensorError::StartFailed)
    } else {
        Ok(())
    }
}

/// State-machine totality: from a fresh device, the successful protocol
/// sequence reset, device-data initialization, static initialization,
/// optional region of interest, timing budget, inter-measurement period,
/// start-measurement deterministically reaches `Measuring`, well-formed and
/// carrying exactly the requested configuration.
pub proof fn lemma_bring_up_reaches_measuring(
    d: SensorDevice,
    roi: Option<Roi>,
    budget_us: u32,
    period_ms: u32,
)
    requires
        d.wf(),
        d.state is Uninitialized,
        d.init_progress == 0,
        budget_us >= 1,
        period_covers_budget(budget_us, period_ms),
    ensures
        ({
            let configured = static_init_step(
                data_init_step(reset_step(d, true), true),
                true,
            );
            let windowed = if roi is Some {
                roi_step(configured, roi->Some_0, true)
            } else {
                configured
            };
            let armed = period_step(budget_step(windowed, budget_us, true), period_ms, true);
            let measuring = start_step(armed, true);
            &&& measuring.state is Measuring
            &&& measuring.wf()
            &&& measuring.roi == (if roi is Some {
                roi
            } else {
                d.roi
            })
            &&& measuring.timing_budget_us == budget_us
            &&& measuring.inter_measurement_period_ms == period_ms
        }),
{
}

/// Steady-state round trip: a measuring device that sees a data-ready event
/// and then the read-clear-restart transaction (whatever its bus outcome) is
/// back in `Measuring`, bit-for-bit the device it was — the loop runs
/// unboundedly without state leakage.
pub proof fn lemma_data_ready_round_trip(d: SensorDevice, bus_ok: bool)
    requires
        d.state is Measuring,
    ensures
        consume_step(ready_step(d), bus_ok) == d,
        consume_step(ready_step(d), bus_ok).state is Measuring,
{
}

} // verus!
