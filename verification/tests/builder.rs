use mcp9808::builder::ConfigurationBuilder;
use mcp9808::builder::ConfigurationError;
use mcp9808::configuration::AlertOutputControl;
use mcp9808::configuration::AlertOutputMode;
use mcp9808::configuration::AlertOutputPolarity;
use mcp9808::configuration::AlertOutputSelect;
use mcp9808::configuration::AlertOutputStatus;
use mcp9808::configuration::Configuration;
use mcp9808::configuration::CriticalTemperatureLock;
use mcp9808::configuration::Hysteresis;
use mcp9808::configuration::InterruptClear;
use mcp9808::configuration::ShutdownMode;
use mcp9808::configuration::TemperatureWindowLock;

fn window_locked() -> Configuration {
    Configuration {
        temperature_window_lock: TemperatureWindowLock::Locked,
        ..Configuration::default()
    }
}

fn critical_locked() -> Configuration {
    Configuration {
        critical_temperature_lock: CriticalTemperatureLock::Locked,
        ..Configuration::default()
    }
}

fn shut_down() -> Configuration {
    Configuration {
        shutdown_mode: ShutdownMode::Shutdown,
        ..Configuration::default()
    }
}

/// Every configuration there is, one for each register word.
fn every_configuration() -> Vec<Configuration> {
    let mut all = Vec::new();
    for msb in 0u8..8 {
        for lsb in 0u8..=255 {
            all.push(Configuration::from([msb, lsb]));
        }
    }
    all
}

#[test]
fn new_builder_proposes_no_change() {
    let initial = Configuration::from([0b0000_0101, 0b1010_0110]);
    let builder = ConfigurationBuilder::new(initial);
    assert_eq!(initial, builder.initial);
    assert_eq!(initial, builder.proposed);
    assert_eq!(Ok(initial), builder.build());
}

#[test]
fn setters_change_one_setting_of_the_proposal_each() {
    let initial = Configuration::default();
    let builder = ConfigurationBuilder::new(initial)
        .hysteresis(Hysteresis::Deg3_0C)
        .shutdown_mode(ShutdownMode::Shutdown)
        .critical_temperature_lock(CriticalTemperatureLock::Locked)
        .temperature_window_lock(TemperatureWindowLock::Locked)
        .interrupt_clear(InterruptClear::Cleared)
        .alert_output_status(AlertOutputStatus::Asserted)
        .alert_output_control(AlertOutputControl::Enabled)
        .alert_output_select(AlertOutputSelect::CriticalOnly)
        .alert_output_polarity(AlertOutputPolarity::ActiveHigh)
        .alert_output_mode(AlertOutputMode::Interrupt);
    assert_eq!(initial, builder.initial);
    assert_eq!(
        Configuration {
            hysteresis: Hysteresis::Deg3_0C,
            shutdown_mode: ShutdownMode::Shutdown,
            critical_temperature_lock: CriticalTemperatureLock::Locked,
            temperature_window_lock: TemperatureWindowLock::Locked,
            interrupt_clear: InterruptClear::Cleared,
            alert_output_status: AlertOutputStatus::Asserted,
            alert_output_control: AlertOutputControl::Enabled,
            alert_output_select: AlertOutputSelect::CriticalOnly,
            alert_output_polarity: AlertOutputPolarity::ActiveHigh,
            alert_output_mode: AlertOutputMode::Interrupt,
        },
        builder.proposed
    );
    let builder = ConfigurationBuilder::new(initial).alert_output_polarity(AlertOutputPolarity::ActiveHigh);
    assert_eq!(
        Configuration {
            alert_output_polarity: AlertOutputPolarity::ActiveHigh,
            ..initial
        },
        builder.proposed
    );
}

#[test]
fn unlocked_device_takes_any_change_of_the_free_settings() {
    let initial = Configuration::default();
    let outcome = ConfigurationBuilder::new(initial)
        .hysteresis(Hysteresis::Deg6_0C)
        .interrupt_clear(InterruptClear::Cleared)
        .alert_output_status(AlertOutputStatus::Asserted)
        .alert_output_control(AlertOutputControl::Enabled)
        .alert_output_select(AlertOutputSelect::CriticalOnly)
        .alert_output_polarity(AlertOutputPolarity::ActiveHigh)
        .alert_output_mode(AlertOutputMode::Interrupt)
        .build();
    assert_eq!(Ok(Configuration::from([0b0000_0110, 0b0011_1111])), outcome);
}

#[test]
fn unlocked_device_takes_every_proposal_without_lock_or_shutdown() {
    for initial in every_configuration() {
        if initial.temperature_window_lock == TemperatureWindowLock::Locked
            || initial.critical_temperature_lock == CriticalTemperatureLock::Locked
        {
            continue;
        }
        for msb in [0b000u8, 0b010, 0b100, 0b110] {
            for lsb in 0u8..64 {
                let proposed = Configuration::from([msb, lsb]);
                let builder = ConfigurationBuilder { initial, proposed };
                assert_eq!(Ok(proposed), builder.build());
            }
        }
    }
}

#[test]
fn window_lock_refuses_a_change_of_hysteresis() {
    let outcome = ConfigurationBuilder::new(window_locked())
        .hysteresis(Hysteresis::Deg1_5C)
        .build();
    assert_eq!(Err(ConfigurationError::TemperatureWindowLocked), outcome);
}

#[test]
fn window_lock_refuses_every_change_of_hysteresis() {
    let all = every_configuration();
    for initial in all.iter().copied() {
        if initial.temperature_window_lock != TemperatureWindowLock::Locked {
            continue;
        }
        for proposed in all.iter().copied() {
            if proposed.hysteresis == initial.hysteresis {
                continue;
            }
            let builder = ConfigurationBuilder { initial, proposed };
            assert_eq!(
                Err(ConfigurationError::TemperatureWindowLocked),
                builder.build()
            );
        }
    }
}

#[test]
fn window_lock_refuses_each_setting_it_protects() {
    let locked = ConfigurationBuilder::new(window_locked());
    let refused = Err(ConfigurationError::TemperatureWindowLocked);
    assert_eq!(refused, locked.hysteresis(Hysteresis::Deg6_0C).build());
    assert_eq!(
        refused,
        locked.alert_output_select(AlertOutputSelect::CriticalOnly).build()
    );
    assert_eq!(
        refused,
        locked.alert_output_mode(AlertOutputMode::Interrupt).build()
    );
    assert_eq!(
        refused,
        locked.alert_output_polarity(AlertOutputPolarity::ActiveHigh).build()
    );
    assert_eq!(
        refused,
        locked.alert_output_control(AlertOutputControl::Enabled).build()
    );
    assert_eq!(refused, locked.shutdown_mode(ShutdownMode::Shutdown).build());
    assert_eq!(
        refused,
        locked.temperature_window_lock(TemperatureWindowLock::Unlocked).build()
    );
}

#[test]
fn window_lock_leaves_the_other_settings_free() {
    let initial = window_locked();
    let outcome = ConfigurationBuilder::new(initial)
        .interrupt_clear(InterruptClear::Cleared)
        .alert_output_status(AlertOutputStatus::Asserted)
        .critical_temperature_lock(CriticalTemperatureLock::Locked)
        .build();
    assert_eq!(
        Ok(Configuration {
            interrupt_clear: InterruptClear::Cleared,
            alert_output_status: AlertOutputStatus::Asserted,
            critical_temperature_lock: CriticalTemperatureLock::Locked,
            ..initial
        }),
        outcome
    );
}

#[test]
fn setting_the_window_lock_together_with_a_protected_change_is_refused() {
    let unlocked = ConfigurationBuilder::new(Configuration::default());
    assert_eq!(
        Ok(window_locked()),
        unlocked.temperature_window_lock(TemperatureWindowLock::Locked).build()
    );
    assert_eq!(
        Err(ConfigurationError::TemperatureWindowLocked),
        unlocked
            .temperature_window_lock(TemperatureWindowLock::Locked)
            .hysteresis(Hysteresis::Deg1_5C)
            .build()
    );
}

#[test]
fn critical_lock_refuses_each_setting_it_protects() {
    let locked = ConfigurationBuilder::new(critical_locked());
    let refused = Err(ConfigurationError::CriticalTemperatureLocked);
    assert_eq!(refused, locked.hysteresis(Hysteresis::Deg6_0C).build());
    assert_eq!(
        refused,
        locked.alert_output_mode(AlertOutputMode::Interrupt).build()
    );
    assert_eq!(
        refused,
        locked.alert_output_polarity(AlertOutputPolarity::ActiveHigh).build()
    );
    assert_eq!(
        refused,
        locked.alert_output_control(AlertOutputControl::Enabled).build()
    );
    assert_eq!(refused, locked.shutdown_mode(ShutdownMode::Shutdown).build());
    assert_eq!(
        refused,
        locked
            .critical_temperature_lock(CriticalTemperatureLock::Unlocked)
            .build()
    );
}

#[test]
fn critical_lock_leaves_the_alert_select_free() {
    let initial = critical_locked();
    let outcome = ConfigurationBuilder::new(initial)
        .alert_output_select(AlertOutputSelect::CriticalOnly)
        .interrupt_clear(InterruptClear::Cleared)
        .alert_output_status(AlertOutputStatus::Asserted)
        .build();
    assert_eq!(
        Ok(Configuration {
            alert_output_select: AlertOutputSelect::CriticalOnly,
            interrupt_clear: InterruptClear::Cleared,
            alert_output_status: AlertOutputStatus::Asserted,
            ..initial
        }),
        outcome
    );
}

#[test]
fn shutdown_refuses_a_change_of_alert_status() {
    let outcome = ConfigurationBuilder::new(shut_down())
        .alert_output_status(AlertOutputStatus::Asserted)
        .build();
    assert_eq!(Err(ConfigurationError::ShutdownModeEnabled), outcome);
    let asserted = Configuration {
        alert_output_status: AlertOutputStatus::Asserted,
        ..shut_down()
    };
    let outcome = ConfigurationBuilder::new(asserted)
        .alert_output_status(AlertOutputStatus::NotAsserted)
        .build();
    assert_eq!(Err(ConfigurationError::ShutdownModeEnabled), outcome);
}

#[test]
fn shutdown_refuses_every_toggle_of_alert_status_alone() {
    for initial in every_configuration() {
        if initial.shutdown_mode != ShutdownMode::Shutdown {
            continue;
        }
        let toggled = match initial.alert_output_status {
            AlertOutputStatus::NotAsserted => AlertOutputStatus::Asserted,
            AlertOutputStatus::Asserted => AlertOutputStatus::NotAsserted,
        };
        let outcome = ConfigurationBuilder::new(initial)
            .alert_output_status(toggled)
            .build();
        assert_eq!(Err(ConfigurationError::ShutdownModeEnabled), outcome);
    }
}

#[test]
fn shutdown_refuses_clearing_the_interrupt() {
    let outcome = ConfigurationBuilder::new(shut_down())
        .interrupt_clear(InterruptClear::Cleared)
        .build();
    assert_eq!(Err(ConfigurationError::ShutdownModeEnabled), outcome);
}

#[test]
fn shutdown_lets_the_interrupt_clear_bit_fall_back() {
    let initial = Configuration {
        interrupt_clear: InterruptClear::Cleared,
        ..shut_down()
    };
    assert_eq!(Ok(initial), ConfigurationBuilder::new(initial).build());
    let outcome = ConfigurationBuilder::new(initial)
        .interrupt_clear(InterruptClear::NotEffect)
        .build();
    assert_eq!(
        Ok(Configuration {
            interrupt_clear: InterruptClear::NotEffect,
            ..initial
        }),
        outcome
    );
}

#[test]
fn shutdown_leaves_the_other_settings_free() {
    let initial = shut_down();
    let outcome = ConfigurationBuilder::new(initial)
        .hysteresis(Hysteresis::Deg3_0C)
        .alert_output_control(AlertOutputControl::Enabled)
        .alert_output_select(AlertOutputSelect::CriticalOnly)
        .alert_output_polarity(AlertOutputPolarity::ActiveHigh)
        .alert_output_mode(AlertOutputMode::Interrupt)
        .temperature_window_lock(TemperatureWindowLock::Unlocked)
        .build();
    assert_eq!(Ok(Configuration::from([0b0000_0101, 0b0000_1111])), outcome);
}

#[test]
fn entering_shutdown_with_a_change_of_alert_status_is_refused() {
    let outcome = ConfigurationBuilder::new(Configuration::default())
        .shutdown_mode(ShutdownMode::Shutdown)
        .alert_output_status(AlertOutputStatus::Asserted)
        .build();
    assert_eq!(Err(ConfigurationError::ShutdownModeEnabled), outcome);
}

#[test]
fn leaving_shutdown_frees_the_alert_status() {
    let initial = shut_down();
    let outcome = ConfigurationBuilder::new(initial)
        .shutdown_mode(ShutdownMode::ContinuousConversion)
        .alert_output_status(AlertOutputStatus::Asserted)
        .interrupt_clear(InterruptClear::Cleared)
        .build();
    assert_eq!(Ok(Configuration::from([0, 0b0011_0000])), outcome);
}

#[test]
fn locked_device_can_leave_shutdown() {
    let initial = Configuration {
        shutdown_mode: ShutdownMode::Shutdown,
        temperature_window_lock: TemperatureWindowLock::Locked,
        critical_temperature_lock: CriticalTemperatureLock::Locked,
        ..Configuration::default()
    };
    let outcome = ConfigurationBuilder::new(initial)
        .shutdown_mode(ShutdownMode::ContinuousConversion)
        .build();
    assert_eq!(
        Ok(Configuration {
            shutdown_mode: ShutdownMode::ContinuousConversion,
            ..initial
        }),
        outcome
    );
}

#[test]
fn first_broken_interlock_is_reported() {
    let both_locked = Configuration {
        temperature_window_lock: TemperatureWindowLock::Locked,
        critical_temperature_lock: CriticalTemperatureLock::Locked,
        ..Configuration::default()
    };
    // Hysteresis is protected by both locks: the window lock comes first.
    assert_eq!(
        Err(ConfigurationError::TemperatureWindowLocked),
        ConfigurationBuilder::new(both_locked)
            .hysteresis(Hysteresis::Deg1_5C)
            .build()
    );
    // Clearing the critical lock breaks that lock only.
    assert_eq!(
        Err(ConfigurationError::CriticalTemperatureLocked),
        ConfigurationBuilder::new(both_locked)
            .critical_temperature_lock(CriticalTemperatureLock::Unlocked)
            .build()
    );
    // A locked device in shutdown: a lock is reported before shutdown mode.
    let locked_shut_down = Configuration {
        shutdown_mode: ShutdownMode::Shutdown,
        ..critical_locked()
    };
    assert_eq!(
        Err(ConfigurationError::CriticalTemperatureLocked),
        ConfigurationBuilder::new(locked_shut_down)
            .alert_output_mode(AlertOutputMode::Interrupt)
            .alert_output_status(AlertOutputStatus::Asserted)
            .build()
    );
    assert_eq!(
        Err(ConfigurationError::ShutdownModeEnabled),
        ConfigurationBuilder::new(locked_shut_down)
            .alert_output_status(AlertOutputStatus::Asserted)
            .build()
    );
}

#[test]
fn setting_a_value_back_is_no_change() {
    let initial = Configuration {
        hysteresis: Hysteresis::Deg3_0C,
        ..window_locked()
    };
    let outcome = ConfigurationBuilder::new(initial)
        .hysteresis(Hysteresis::Deg0C)
        .hysteresis(Hysteresis::Deg3_0C)
        .temperature_window_lock(TemperatureWindowLock::Locked)
        .build();
    assert_eq!(Ok(initial), outcome);
}

#[test]
fn proposing_no_change_is_always_accepted() {
    for initial in every_configuration() {
        assert_eq!(Ok(initial), ConfigurationBuilder::new(initial).build());
    }
}

#[test]
fn accepted_proposal_is_handed_out_unchanged() {
    let initial = Configuration::from([0b0000_0010, 0b0000_0100]);
    for proposed in every_configuration() {
        let builder = ConfigurationBuilder { initial, proposed };
        match builder.build() {
            Ok(configuration) => assert_eq!(proposed, configuration),
            Err(ConfigurationError::TemperatureWindowLocked) => assert_eq!(
                TemperatureWindowLock::Locked,
                proposed.temperature_window_lock
            ),
            Err(ConfigurationError::CriticalTemperatureLocked) => assert_eq!(
                CriticalTemperatureLock::Locked,
                proposed.critical_temperature_lock
            ),
            Err(ConfigurationError::ShutdownModeEnabled) => {
                assert_eq!(ShutdownMode::Shutdown, proposed.shutdown_mode)
            }
        }
    }
}
