//! Changing the configuration under the interlocks of the device.
//!
//! The device refuses some changes to its configuration register, depending
//! on what the register holds and on what is written to it:
//!
//! * A configuration that sets the temperature window lock, or keeps it set,
//!   must leave the hysteresis and the alert output select, mode, polarity
//!   and control as the device holds them, and must not put the device into
//!   shutdown.
//! * The same holds of the critical temperature lock, but for the alert
//!   output select, which that lock leaves free.
//! * A lock that is set stays set until the device is reset: no
//!   configuration may clear it.
//! * A configuration that puts the device into shutdown, or keeps it there,
//!   must leave the alert output status as it is and must not begin to clear
//!   the interrupt.
//!
//! A [`ConfigurationBuilder`] starts from the configuration that the device
//! holds, collects the settings to change, and hands out the new
//! configuration only if the device would take it.

use vstd::prelude::*;
use crate::configuration::AlertOutputControl;
use crate::configuration::AlertOutputMode;
use crate::configuration::AlertOutputPolarity;
use crate::configuration::AlertOutputSelect;
use crate::configuration::AlertOutputStatus;
use crate::configuration::Configuration;
use crate::configuration::CriticalTemperatureLock;
use crate::configuration::Hysteresis;
use crate::configuration::InterruptClear;
use crate::configuration::ShutdownMode;
use crate::configuration::TemperatureWindowLock;

verus! {

/// The interlock that stands against a proposed configuration.
#[derive(Debug, PartialEq, Eq, Structural, Clone, Copy)]
pub enum ConfigurationError {
    /// The temperature window lock forbids the change.
    TemperatureWindowLocked,
    /// The critical temperature lock forbids the change.
    CriticalTemperatureLocked,
    /// Shutdown mode forbids the change.
    ShutdownModeEnabled,
}

/// True when the proposal puts a device into shutdown that was not in it.
pub open spec fn enters_shutdown(initial: Configuration, proposed: Configuration) -> bool {
    initial.shutdown_mode != ShutdownMode::Shutdown && proposed.shutdown_mode
        == ShutdownMode::Shutdown
}

/// True when the proposal breaks the temperature window lock: with the lock
/// set in the proposal, it alters a setting that the lock protects or enters
/// shutdown; or it clears a lock that was set.
pub open spec fn breaks_window_lock(initial: Configuration, proposed: Configuration) -> bool {
    ||| {
        &&& proposed.temperature_window_lock == TemperatureWindowLock::Locked
        &&& {
            ||| proposed.hysteresis != initial.hysteresis
            ||| proposed.alert_output_select != initial.alert_output_select
            ||| proposed.alert_output_mode != initial.alert_output_mode
            ||| proposed.alert_output_polarity != initial.alert_output_polarity
            ||| proposed.alert_output_control != initial.alert_output_control
            ||| enters_shutdown(initial, proposed)
        }
    }
    ||| {
        &&& initial.temperature_window_lock == TemperatureWindowLock::Locked
        &&& proposed.temperature_window_lock == TemperatureWindowLock::Unlocked
    }
}

/// True when the proposal breaks the critical temperature lock: with the
/// lock set in the proposal, it alters a setting that the lock protects or
/// enters shutdown; or it clears a lock that was set.
pub open spec fn breaks_critical_lock(initial: Configuration, proposed: Configuration) -> bool {
    ||| {
        &&& proposed.critical_temperature_lock == CriticalTemperatureLock::Locked
        &&& {
            ||| proposed.hysteresis != initial.hysteresis
            ||| proposed.alert_output_mode != initial.alert_output_mode
            ||| proposed.alert_output_polarity != initial.alert_output_polarity
            ||| proposed.alert_output_control != initial.alert_output_control
            ||| enters_shutdown(initial, proposed)
        }
    }
    ||| {
        &&& initial.critical_temperature_lock == CriticalTemperatureLock::Locked
        &&& proposed.critical_temperature_lock == CriticalTemperatureLock::Unlocked
    }
}

/// True when the proposal breaks the rules of shutdown mode: with the device
/// in shutdown in the proposal, it alters the alert output status, or
/// clears an interrupt that was not being cleared before.
pub open spec fn breaks_shutdown(initial: Configuration, proposed: Configuration) -> bool {
    &&& proposed.shutdown_mode == ShutdownMode::Shutdown
    &&& {
        ||| proposed.alert_output_status != initial.alert_output_status
        ||| {
            &&& initial.interrupt_clear == InterruptClear::NotEffect
            &&& proposed.interrupt_clear == InterruptClear::Cleared
        }
    }
}

/// The outcome of proposing `proposed` to a device that holds `initial`.
///
/// The three interlocks are tried in a fixed order: temperature window lock,
/// critical temperature lock, shutdown mode. The first one that the proposal
/// breaks is the error. A proposal that breaks none is accepted as it is.
pub open spec fn validated(initial: Configuration, proposed: Configuration) -> Result<
    Configuration,
    ConfigurationError,
> {
    if breaks_window_lock(initial, proposed) {
        Err(ConfigurationError::TemperatureWindowLocked)
    } else if breaks_critical_lock(initial, proposed) {
        Err(ConfigurationError::CriticalTemperatureLocked)
    } else if breaks_shutdown(initial, proposed) {
        Err(ConfigurationError::ShutdownModeEnabled)
    } else {
        Ok(proposed)
    }
}

/// Collects changes to a configuration and checks them against the
/// interlocks of the device.
///
/// A setting counts as changed when its proposed value differs from the
/// initial one. Setting it back to the initial value is no change.
#[derive(Debug, PartialEq, Eq, Structural, Clone, Copy)]
pub struct ConfigurationBuilder {
    /// The configuration that the device holds.
    pub initial: Configuration,
    /// The configuration to write, with the changes made so far.
    pub proposed: Configuration,
}

impl ConfigurationBuilder {
    /// Starts from the configuration that the device holds, with no change
    /// proposed yet.
    pub fn new(initial: Configuration) -> (builder: Self)
        ensures
            builder.initial == initial,
            builder.proposed == initial,
    {
        ConfigurationBuilder { initial, proposed: initial }
    }

    /// Proposes a limit hysteresis.
    pub fn hysteresis(self, hysteresis: Hysteresis) -> (builder: Self)
        ensures
            builder.initial == self.initial,
            builder.proposed == (Configuration { hysteresis, ..self.proposed }),
    {
        ConfigurationBuilder {
            initial: self.initial,
            proposed: Configuration { hysteresis, ..self.proposed },
        }
    }

    /// Proposes the shutdown mode.
    pub fn shutdown_mode(self, shutdown_mode: ShutdownMode) -> (builder: Self)
        ensures
            builder.initial == self.initial,
            builder.proposed == (Configuration { shutdown_mode, ..self.proposed }),
    {
        ConfigurationBuilder {
            initial: self.initial,
            proposed: Configuration { shutdown_mode, ..self.proposed },
        }
    }

    /// Proposes a state of the critical temperature lock.
    pub fn critical_temperature_lock(self, critical_temperature_lock: CriticalTemperatureLock) -> (builder: Self)
        ensures
            builder.initial == self.initial,
            builder.proposed == (Configuration { critical_temperature_lock, ..self.proposed }),
    {
        ConfigurationBuilder {
            initial: self.initial,
            proposed: Configuration { critical_temperature_lock, ..self.proposed },
        }
    }

    /// Proposes a state of the temperature window lock.
    pub fn temperature_window_lock(self, temperature_window_lock: TemperatureWindowLock) -> (builder: Self)
        ensures
            builder.initial == self.initial,
            builder.proposed == (Configuration { temperature_window_lock, ..self.proposed }),
    {
        ConfigurationBuilder {
            initial: self.initial,
            proposed: Configuration { temperature_window_lock, ..self.proposed },
        }
    }

    /// Proposes a state of the interrupt clear bit.
    pub fn interrupt_clear(self, interrupt_clear: InterruptClear) -> (builder: Self)
        ensures
            builder.initial == self.initial,
            builder.proposed == (Configuration { interrupt_clear, ..self.proposed }),
    {
        ConfigurationBuilder {
            initial: self.initial,
            proposed: Configuration { interrupt_clear, ..self.proposed },
        }
    }

    /// Proposes an alert output status.
    pub fn alert_output_status(self, alert_output_status: AlertOutputStatus) -> (builder: Self)
        ensures
            builder.initial == self.initial,
            builder.proposed == (Configuration { alert_output_status, ..self.proposed }),
    {
        ConfigurationBuilder {
            initial: self.initial,
            proposed: Configuration { alert_output_status, ..self.proposed },
        }
    }

    /// Proposes an alert output control.
    pub fn alert_output_control(self, alert_output_control: AlertOutputControl) -> (builder: Self)
        ensures
            builder.initial == self.initial,
            builder.proposed == (Configuration { alert_output_control, ..self.proposed }),
    {
        ConfigurationBuilder {
            initial: self.initial,
            proposed: Configuration { alert_output_control, ..self.proposed },
        }
    }

    /// Proposes an alert output select.
    pub fn alert_output_select(self, alert_output_select: AlertOutputSelect) -> (builder: Self)
        ensures
            builder.initial == self.initial,
            builder.proposed == (Configuration { alert_output_select, ..self.proposed }),
    {
        ConfigurationBuilder {
            initial: self.initial,
            proposed: Configuration { alert_output_select, ..self.proposed },
        }
    }

    /// Proposes an alert output polarity.
    pub fn alert_output_polarity(self, alert_output_polarity: AlertOutputPolarity) -> (builder: Self)
        ensures
            builder.initial == self.initial,
            builder.proposed == (Configuration { alert_output_polarity, ..self.proposed }),
    {
        ConfigurationBuilder {
            initial: self.initial,
            proposed: Configuration { alert_output_polarity, ..self.proposed },
        }
    }

    /// Proposes an alert output mode.
    pub fn alert_output_mode(self, alert_output_mode: AlertOutputMode) -> (builder: Self)
        ensures
            builder.initial == self.initial,
            builder.proposed == (Configuration { alert_output_mode, ..self.proposed }),
    {
        ConfigurationBuilder {
            initial: self.initial,
            proposed: Configuration { alert_output_mode, ..self.proposed },
        }
    }

    /// Checks the proposed configuration against the initial one and hands
    /// it out if no interlock is broken. Otherwise names the first interlock
    /// that is, in the order of [`validated`].
    pub fn build(self) -> (outcome: Result<Configuration, ConfigurationError>)
        ensures
            outcome == validated(self.initial, self.proposed),
    {
        let initial = self.initial;
        let proposed = self.proposed;
        let enters_shutdown = initial.shutdown_mode != ShutdownMode::Shutdown
            && proposed.shutdown_mode == ShutdownMode::Shutdown;
        let alters_locked = proposed.hysteresis != initial.hysteresis || proposed.alert_output_mode
            != initial.alert_output_mode || proposed.alert_output_polarity
            != initial.alert_output_polarity || proposed.alert_output_control
            != initial.alert_output_control || enters_shutdown;
        if proposed.temperature_window_lock == TemperatureWindowLock::Locked {
            if alters_locked || proposed.alert_output_select != initial.alert_output_select {
                return Err(ConfigurationError::TemperatureWindowLocked);
            }
        } else if initial.temperature_window_lock == TemperatureWindowLock::Locked {
            return Err(ConfigurationError::TemperatureWindowLocked);
        }
        if proposed.critical_temperature_lock == CriticalTemperatureLock::Locked {
            if alters_locked {
                return Err(ConfigurationError::CriticalTemperatureLocked);
            }
        } else if initial.critical_temperature_lock == CriticalTemperatureLock::Locked {
            return Err(ConfigurationError::CriticalTemperatureLocked);
        }
        if proposed.shutdown_mode == ShutdownMode::Shutdown {
            let clears_interrupt = initial.interrupt_clear == InterruptClear::NotEffect
                && proposed.interrupt_clear == InterruptClear::Cleared;
            if proposed.alert_output_status != initial.alert_output_status || clears_interrupt {
                return Err(ConfigurationError::ShutdownModeEnabled);
            }
        }
        Ok(proposed)
    }
}

/// Proposing no change is always accepted, whatever the device holds.
pub proof fn lemma_unchanged_is_accepted(initial: Configuration)
    ensures
        validated(initial, initial) == Ok::<Configuration, ConfigurationError>(initial),
{
}

/// With the temperature window lock set on the device, every proposal that
/// alters the hysteresis is refused as `TemperatureWindowLocked`, whatever
/// else it changes.
pub proof fn lemma_window_lock_guards_hysteresis(initial: Configuration, proposed: Configuration)
    requires
        initial.temperature_window_lock == TemperatureWindowLock::Locked,
        proposed.hysteresis != initial.hysteresis,
    ensures
        validated(initial, proposed) == Err::<Configuration, ConfigurationError>(
            ConfigurationError::TemperatureWindowLocked,
        ),
{
}

/// With the device in shutdown, the proposal that alters the alert output
/// status and nothing else is refused as `ShutdownModeEnabled`.
pub proof fn lemma_shutdown_guards_alert_status(
    initial: Configuration,
    alert_output_status: AlertOutputStatus,
)
    requires
        initial.shutdown_mode == ShutdownMode::Shutdown,
        alert_output_status != initial.alert_output_status,
    ensures
        validated(initial, Configuration { alert_output_status, ..initial }) == Err::<
            Configuration,
            ConfigurationError,
        >(ConfigurationError::ShutdownModeEnabled),
{
}

/// With no lock set on the device, every proposal that sets no lock and
/// leaves the device out of shutdown is accepted as it is, whichever of the
/// other settings it changes.
pub proof fn lemma_unlocked_is_accepted(initial: Configuration, proposed: Configuration)
    requires
        initial.temperature_window_lock == TemperatureWindowLock::Unlocked,
        initial.critical_temperature_lock == CriticalTemperatureLock::Unlocked,
        proposed.temperature_window_lock == TemperatureWindowLock::Unlocked,
        proposed.critical_temperature_lock == CriticalTemperatureLock::Unlocked,
        proposed.shutdown_mode == ShutdownMode::ContinuousConversion,
    ensures
        validated(initial, proposed) == Ok::<Configuration, ConfigurationError>(proposed),
{
}

} // verus!
