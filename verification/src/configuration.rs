//! The configuration register and the settings packed into it.
//!
//! The register is one 16-bit word. Bits 15 to 11 are unimplemented and read
//! as zero. The ten settings occupy the remaining bits, each at a fixed place:
//!
//! | bits  | setting                     |
//! |-------|-----------------------------|
//! | 10..9 | [`Hysteresis`]              |
//! | 8     | [`ShutdownMode`]            |
//! | 7     | [`CriticalTemperatureLock`] |
//! | 6     | [`TemperatureWindowLock`]   |
//! | 5     | [`InterruptClear`]          |
//! | 4     | [`AlertOutputStatus`]       |
//! | 3     | [`AlertOutputControl`]      |
//! | 2     | [`AlertOutputSelect`]       |
//! | 1     | [`AlertOutputPolarity`]     |
//! | 0     | [`AlertOutputMode`]         |
//!
//! Every setting knows the number that stands for it in its field
//! (`to_u8`) and the setting that a number stands for (`from_u8`).

use vstd::prelude::*;

verus! {

/// T_HYST: hysteresis applied to the upper and lower temperature limits.
///
/// Cannot be altered while either lock bit is set. Can be programmed in
/// shutdown mode.
#[derive(Debug, PartialEq, Eq, Structural, Clone, Copy)]
pub enum Hysteresis {
    /// 0°C (power-up default)
    Deg0C,
    /// +1.5°C
    Deg1_5C,
    /// +3.0°C
    Deg3_0C,
    /// +6.0°C
    Deg6_0C,
}

impl Hysteresis {
    /// The number that stands for this setting in its two-bit field.
    pub open spec fn value(self) -> int {
        match self {
            Hysteresis::Deg0C => 0,
            Hysteresis::Deg1_5C => 1,
            Hysteresis::Deg3_0C => 2,
            Hysteresis::Deg6_0C => 3,
        }
    }

    /// The setting that `n` stands for, if any.
    pub open spec fn of_value(n: int) -> Option<Self> {
        if n == 0 {
            Some(Hysteresis::Deg0C)
        } else if n == 1 {
            Some(Hysteresis::Deg1_5C)
        } else if n == 2 {
            Some(Hysteresis::Deg3_0C)
        } else if n == 3 {
            Some(Hysteresis::Deg6_0C)
        } else {
            None
        }
    }

    /// The field value of this setting, `0b00` to `0b11`.
    pub fn to_u8(self) -> (n: u8)
        ensures
            n == self.value(),
            n <= 0b11,
    {
        match self {
            Hysteresis::Deg0C => 0b00,
            Hysteresis::Deg1_5C => 0b01,
            Hysteresis::Deg3_0C => 0b10,
            Hysteresis::Deg6_0C => 0b11,
        }
    }

    /// The setting with field value `n`; `None` when `n` is above `0b11`.
    pub fn from_u8(n: u8) -> (setting: Option<Self>)
        ensures
            setting == Self::of_value(n as int),
    {
        match n {
            0b00 => Some(Hysteresis::Deg0C),
            0b01 => Some(Hysteresis::Deg1_5C),
            0b10 => Some(Hysteresis::Deg3_0C),
            0b11 => Some(Hysteresis::Deg6_0C),
            _ => None,
        }
    }
}

/// SHDN: shutdown mode.
///
/// In shutdown all power-consuming activity is disabled, though every
/// register can still be read and written. Cannot be set to shutdown while
/// either lock bit is set; can always be cleared to continuous conversion.
#[derive(Debug, PartialEq, Eq, Structural, Clone, Copy)]
pub enum ShutdownMode {
    /// Continuous conversion (power-up default)
    ContinuousConversion,
    /// Shutdown (low-power mode)
    Shutdown,
}

impl ShutdownMode {
    /// The number that stands for this setting in its one-bit field.
    pub open spec fn value(self) -> int {
        match self {
            ShutdownMode::ContinuousConversion => 0,
            ShutdownMode::Shutdown => 1,
        }
    }

    /// The setting that `n` stands for, if any.
    pub open spec fn of_value(n: int) -> Option<Self> {
        if n == 0 {
            Some(ShutdownMode::ContinuousConversion)
        } else if n == 1 {
            Some(ShutdownMode::Shutdown)
        } else {
            None
        }
    }

    /// The field value of this setting, `0` or `1`.
    pub fn to_u8(self) -> (n: u8)
        ensures
            n == self.value(),
            n <= 1,
    {
        match self {
            ShutdownMode::ContinuousConversion => 0,
            ShutdownMode::Shutdown => 1,
        }
    }

    /// The setting with field value `n`; `None` when `n` is above `1`.
    pub fn from_u8(n: u8) -> (setting: Option<Self>)
        ensures
            setting == Self::of_value(n as int),
    {
        match n {
            0 => Some(ShutdownMode::ContinuousConversion),
            1 => Some(ShutdownMode::Shutdown),
            _ => None,
        }
    }
}

/// T_CRIT lock bit.
///
/// Once locked, the bit stays set until the device is reset. Can be
/// programmed in shutdown mode.
#[derive(Debug, PartialEq, Eq, Structural, Clone, Copy)]
pub enum CriticalTemperatureLock {
    /// Unlocked: the critical temperature register can be written (power-up default)
    Unlocked,
    /// Locked: the critical temperature register cannot be written
    Locked,
}

impl CriticalTemperatureLock {
    /// The number that stands for this setting in its one-bit field.
    pub open spec fn value(self) -> int {
        match self {
            CriticalTemperatureLock::Unlocked => 0,
            CriticalTemperatureLock::Locked => 1,
        }
    }

    /// The setting that `n` stands for, if any.
    pub open spec fn of_value(n: int) -> Option<Self> {
        if n == 0 {
            Some(CriticalTemperatureLock::Unlocked)
        } else if n == 1 {
            Some(CriticalTemperatureLock::Locked)
        } else {
            None
        }
    }

    /// The field value of this setting, `0` or `1`.
    pub fn to_u8(self) -> (n: u8)
        ensures
            n == self.value(),
            n <= 1,
    {
        match self {
            CriticalTemperatureLock::Unlocked => 0,
            CriticalTemperatureLock::Locked => 1,
        }
    }

    /// The setting with field value `n`; `None` when `n` is above `1`.
    pub fn from_u8(n: u8) -> (setting: Option<Self>)
        ensures
            setting == Self::of_value(n as int),
    {
        match n {
            0 => Some(CriticalTemperatureLock::Unlocked),
            1 => Some(CriticalTemperatureLock::Locked),
            _ => None,
        }
    }
}

/// T_UPPER and T_LOWER window lock bit.
///
/// Once locked, the bit stays set until the device is reset. Can be
/// programmed in shutdown mode.
#[derive(Debug, PartialEq, Eq, Structural, Clone, Copy)]
pub enum TemperatureWindowLock {
    /// Unlocked: the upper and lower limit registers can be written (power-up default)
    Unlocked,
    /// Locked: the upper and lower limit registers cannot be written
    Locked,
}

impl TemperatureWindowLock {
    /// The number that stands for this setting in its one-bit field.
    pub open spec fn value(self) -> int {
        match self {
            TemperatureWindowLock::Unlocked => 0,
            TemperatureWindowLock::Locked => 1,
        }
    }

    /// The setting that `n` stands for, if any.
    pub open spec fn of_value(n: int) -> Option<Self> {
        if n == 0 {
            Some(TemperatureWindowLock::Unlocked)
        } else if n == 1 {
            Some(TemperatureWindowLock::Locked)
        } else {
            None
        }
    }

    /// The field value of this setting, `0` or `1`.
    pub fn to_u8(self) -> (n: u8)
        ensures
            n == self.value(),
            n <= 1,
    {
        match self {
            TemperatureWindowLock::Unlocked => 0,
            TemperatureWindowLock::Locked => 1,
        }
    }

    /// The setting with field value `n`; `None` when `n` is above `1`.
    pub fn from_u8(n: u8) -> (setting: Option<Self>)
        ensures
            setting == Self::of_value(n as int),
    {
        match n {
            0 => Some(TemperatureWindowLock::Unlocked),
            1 => Some(TemperatureWindowLock::Locked),
            _ => None,
        }
    }
}

/// Interrupt clear bit.
///
/// Cannot be set in shutdown mode, but can be cleared after the device has
/// entered shutdown mode.
#[derive(Debug, PartialEq, Eq, Structural, Clone, Copy)]
pub enum InterruptClear {
    /// No effect (power-up default)
    NotEffect,
    /// Clear the interrupt output; when read, this bit returns to zero
    Cleared,
}

impl InterruptClear {
    /// The number that stands for this setting in its one-bit field.
    pub open spec fn value(self) -> int {
        match self {
            InterruptClear::NotEffect => 0,
            InterruptClear::Cleared => 1,
        }
    }

    /// The setting that `n` stands for, if any.
    pub open spec fn of_value(n: int) -> Option<Self> {
        if n == 0 {
            Some(InterruptClear::NotEffect)
        } else if n == 1 {
            Some(InterruptClear::Cleared)
        } else {
            None
        }
    }

    /// The field value of this setting, `0` or `1`.
    pub fn to_u8(self) -> (n: u8)
        ensures
            n == self.value(),
            n <= 1,
    {
        match self {
            InterruptClear::NotEffect => 0,
            InterruptClear::Cleared => 1,
        }
    }

    /// The setting with field value `n`; `None` when `n` is above `1`.
    pub fn from_u8(n: u8) -> (setting: Option<Self>)
        ensures
            setting == Self::of_value(n as int),
    {
        match n {
            0 => Some(InterruptClear::NotEffect),
            1 => Some(InterruptClear::Cleared),
            _ => None,
        }
    }
}

/// Alert output status bit.
///
/// Can be neither set nor cleared in shutdown mode.
#[derive(Debug, PartialEq, Eq, Structural, Clone, Copy)]
pub enum AlertOutputStatus {
    /// The alert output is not asserted by the device (power-up default)
    NotAsserted,
    /// The alert output is asserted as a comparator, interrupt or critical
    /// temperature output
    Asserted,
}

impl AlertOutputStatus {
    /// The number that stands for this setting in its one-bit field.
    pub open spec fn value(self) -> int {
        match self {
            AlertOutputStatus::NotAsserted => 0,
            AlertOutputStatus::Asserted => 1,
        }
    }

    /// The setting that `n` stands for, if any.
    pub open spec fn of_value(n: int) -> Option<Self> {
        if n == 0 {
            Some(AlertOutputStatus::NotAsserted)
        } else if n == 1 {
            Some(AlertOutputStatus::Asserted)
        } else {
            None
        }
    }

    /// The field value of this setting, `0` or `1`.
    pub fn to_u8(self) -> (n: u8)
        ensures
            n == self.value(),
            n <= 1,
    {
        match self {
            AlertOutputStatus::NotAsserted => 0,
            AlertOutputStatus::Asserted => 1,
        }
    }

    /// The setting with field value `n`; `None` when `n` is above `1`.
    pub fn from_u8(n: u8) -> (setting: Option<Self>)
        ensures
            setting == Self::of_value(n as int),
    {
        match n {
            0 => Some(AlertOutputStatus::NotAsserted),
            1 => Some(AlertOutputStatus::Asserted),
            _ => None,
        }
    }
}

/// Alert output control bit.
///
/// Cannot be altered while either lock bit is set. Can be programmed in
/// shutdown mode, but the alert output will not assert or deassert.
#[derive(Debug, PartialEq, Eq, Structural, Clone, Copy)]
pub enum AlertOutputControl {
    /// Disabled (power-up default)
    Disabled,
    /// Enabled
    Enabled,
}

impl AlertOutputControl {
    /// The number that stands for this setting in its one-bit field.
    pub open spec fn value(self) -> int {
        match self {
            AlertOutputControl::Disabled => 0,
            AlertOutputControl::Enabled => 1,
        }
    }

    /// The setting that `n` stands for, if any.
    pub open spec fn of_value(n: int) -> Option<Self> {
        if n == 0 {
            Some(AlertOutputControl::Disabled)
        } else if n == 1 {
            Some(AlertOutputControl::Enabled)
        } else {
            None
        }
    }

    /// The field value of this setting, `0` or `1`.
    pub fn to_u8(self) -> (n: u8)
        ensures
            n == self.value(),
            n <= 1,
    {
        match self {
            AlertOutputControl::Disabled => 0,
            AlertOutputControl::Enabled => 1,
        }
    }

    /// The setting with field value `n`; `None` when `n` is above `1`.
    pub fn from_u8(n: u8) -> (setting: Option<Self>)
        ensures
            setting == Self::of_value(n as int),
    {
        match n {
            0 => Some(AlertOutputControl::Disabled),
            1 => Some(AlertOutputControl::Enabled),
            _ => None,
        }
    }
}

/// Alert output select bit.
///
/// Cannot be altered while the window lock bit is set. Can be programmed in
/// shutdown mode, but the alert output will not assert or deassert.
#[derive(Debug, PartialEq, Eq, Structural, Clone, Copy)]
pub enum AlertOutputSelect {
    /// Alert output for the upper, lower and critical limits (power-up default)
    UpperLowerCritical,
    /// Alert output for the critical limit only; the window limits are disabled
    CriticalOnly,
}

impl AlertOutputSelect {
    /// The number that stands for this setting in its one-bit field.
    pub open spec fn value(self) -> int {
        match self {
            AlertOutputSelect::UpperLowerCritical => 0,
            AlertOutputSelect::CriticalOnly => 1,
        }
    }

    /// The setting that `n` stands for, if any.
    pub open spec fn of_value(n: int) -> Option<Self> {
        if n == 0 {
            Some(AlertOutputSelect::UpperLowerCritical)
        } else if n == 1 {
            Some(AlertOutputSelect::CriticalOnly)
        } else {
            None
        }
    }

    /// The field value of this setting, `0` or `1`.
    pub fn to_u8(self) -> (n: u8)
        ensures
            n == self.value(),
            n <= 1,
    {
        match self {
            AlertOutputSelect::UpperLowerCritical => 0,
            AlertOutputSelect::CriticalOnly => 1,
        }
    }

    /// The setting with field value `n`; `None` when `n` is above `1`.
    pub fn from_u8(n: u8) -> (setting: Option<Self>)
        ensures
            setting == Self::of_value(n as int),
    {
        match n {
            0 => Some(AlertOutputSelect::UpperLowerCritical),
            1 => Some(AlertOutputSelect::CriticalOnly),
            _ => None,
        }
    }
}

/// Alert output polarity bit.
///
/// Cannot be altered while either lock bit is set. Can be programmed in
/// shutdown mode, but the alert output will not assert or deassert.
#[derive(Debug, PartialEq, Eq, Structural, Clone, Copy)]
pub enum AlertOutputPolarity {
    /// Active-low (power-up default; a pull-up resistor is required)
    ActiveLow,
    /// Active-high
    ActiveHigh,
}

impl AlertOutputPolarity {
    /// The number that stands for this setting in its one-bit field.
    pub open spec fn value(self) -> int {
        match self {
            AlertOutputPolarity::ActiveLow => 0,
            AlertOutputPolarity::ActiveHigh => 1,
        }
    }

    /// The setting that `n` stands for, if any.
    pub open spec fn of_value(n: int) -> Option<Self> {
        if n == 0 {
            Some(AlertOutputPolarity::ActiveLow)
        } else if n == 1 {
            Some(AlertOutputPolarity::ActiveHigh)
        } else {
            None
        }
    }

    /// The field value of this setting, `0` or `1`.
    pub fn to_u8(self) -> (n: u8)
        ensures
            n == self.value(),
            n <= 1,
    {
        match self {
            AlertOutputPolarity::ActiveLow => 0,
            AlertOutputPolarity::ActiveHigh => 1,
        }
    }

    /// The setting with field value `n`; `None` when `n` is above `1`.
    pub fn from_u8(n: u8) -> (setting: Option<Self>)
        ensures
            setting == Self::of_value(n as int),
    {
        match n {
            0 => Some(AlertOutputPolarity::ActiveLow),
            1 => Some(AlertOutputPolarity::ActiveHigh),
            _ => None,
        }
    }
}

/// Alert output mode bit.
///
/// Cannot be altered while either lock bit is set. Can be programmed in
/// shutdown mode, but the alert output will not assert or deassert.
#[derive(Debug, PartialEq, Eq, Structural, Clone, Copy)]
pub enum AlertOutputMode {
    /// Comparator output (power-up default)
    Comparator,
    /// Interrupt output
    Interrupt,
}

impl AlertOutputMode {
    /// The number that stands for this setting in its one-bit field.
    pub open spec fn value(self) -> int {
        match self {
            AlertOutputMode::Comparator => 0,
            AlertOutputMode::Interrupt => 1,
        }
    }

    /// The setting that `n` stands for, if any.
    pub open spec fn of_value(n: int) -> Option<Self> {
        if n == 0 {
            Some(AlertOutputMode::Comparator)
        } else if n == 1 {
            Some(AlertOutputMode::Interrupt)
        } else {
            None
        }
    }

    /// The field value of this setting, `0` or `1`.
    pub fn to_u8(self) -> (n: u8)
        ensures
            n == self.value(),
            n <= 1,
    {
        match self {
            AlertOutputMode::Comparator => 0,
            AlertOutputMode::Interrupt => 1,
        }
    }

    /// The setting with field value `n`; `None` when `n` is above `1`.
    pub fn from_u8(n: u8) -> (setting: Option<Self>)
        ensures
            setting == Self::of_value(n as int),
    {
        match n {
            0 => Some(AlertOutputMode::Comparator),
            1 => Some(AlertOutputMode::Interrupt),
            _ => None,
        }
    }
}

/// All ten settings of the configuration register.
///
/// Every combination of settings is a valid register word, and every
/// register word holds exactly one combination: see
/// [`lemma_configuration_round_trip`] and
/// [`lemma_configuration_word_round_trip`].
#[derive(Debug, PartialEq, Eq, Structural, Copy, Clone)]
pub struct Configuration {
    /// T_HYST: limit hysteresis
    pub hysteresis: Hysteresis,
    /// Shutdown mode bit
    pub shutdown_mode: ShutdownMode,
    /// T_CRIT lock bit
    pub critical_temperature_lock: CriticalTemperatureLock,
    /// T_UPPER and T_LOWER window lock bit
    pub temperature_window_lock: TemperatureWindowLock,
    /// Interrupt clear bit
    pub interrupt_clear: InterruptClear,
    /// Alert output status bit
    pub alert_output_status: AlertOutputStatus,
    /// Alert output control bit
    pub alert_output_control: AlertOutputControl,
    /// Alert output select bit
    pub alert_output_select: AlertOutputSelect,
    /// Alert output polarity bit
    pub alert_output_polarity: AlertOutputPolarity,
    /// Alert output mode bit
    pub alert_output_mode: AlertOutputMode,
}

impl Configuration {
    /// The settings of a device that has just been powered up.
    pub open spec fn power_up() -> Configuration {
        Configuration {
            hysteresis: Hysteresis::Deg0C,
            shutdown_mode: ShutdownMode::ContinuousConversion,
            critical_temperature_lock: CriticalTemperatureLock::Unlocked,
            temperature_window_lock: TemperatureWindowLock::Unlocked,
            interrupt_clear: InterruptClear::NotEffect,
            alert_output_status: AlertOutputStatus::NotAsserted,
            alert_output_control: AlertOutputControl::Disabled,
            alert_output_select: AlertOutputSelect::UpperLowerCritical,
            alert_output_polarity: AlertOutputPolarity::ActiveLow,
            alert_output_mode: AlertOutputMode::Comparator,
        }
    }

    /// The high byte of the register word: hysteresis in bits 2 and 1,
    /// shutdown mode in bit 0, the five unimplemented bits zero.
    pub open spec fn msb(self) -> int {
        self.hysteresis.value() * 2 + self.shutdown_mode.value()
    }

    /// The low byte of the register word: one setting per bit, from the
    /// critical temperature lock in bit 7 down to the alert mode in bit 0.
    pub open spec fn lsb(self) -> int {
        self.critical_temperature_lock.value() * 128
            + self.temperature_window_lock.value() * 64
            + self.interrupt_clear.value() * 32
            + self.alert_output_status.value() * 16
            + self.alert_output_control.value() * 8
            + self.alert_output_select.value() * 4
            + self.alert_output_polarity.value() * 2
            + self.alert_output_mode.value()
    }

    /// The settings that the two bytes of a register word hold. Each setting
    /// is read from its own bits; the five unimplemented bits of `msb` are
    /// ignored.
    pub open spec fn of_bytes(msb: u8, lsb: u8) -> Configuration {
        Configuration {
            hysteresis: Hysteresis::of_value(msb as int / 2 % 4).unwrap(),
            shutdown_mode: ShutdownMode::of_value(msb as int % 2).unwrap(),
            critical_temperature_lock: CriticalTemperatureLock::of_value(
                lsb as int / 128 % 2,
            ).unwrap(),
            temperature_window_lock: TemperatureWindowLock::of_value(
                lsb as int / 64 % 2,
            ).unwrap(),
            interrupt_clear: InterruptClear::of_value(lsb as int / 32 % 2).unwrap(),
            alert_output_status: AlertOutputStatus::of_value(lsb as int / 16 % 2).unwrap(),
            alert_output_control: AlertOutputControl::of_value(lsb as int / 8 % 2).unwrap(),
            alert_output_select: AlertOutputSelect::of_value(lsb as int / 4 % 2).unwrap(),
            alert_output_polarity: AlertOutputPolarity::of_value(lsb as int / 2 % 2).unwrap(),
            alert_output_mode: AlertOutputMode::of_value(lsb as int % 2).unwrap(),
        }
    }

    /// The settings that a register word holds, high byte first.
    pub open spec fn of_word(raw: [u8; 2]) -> Configuration {
        Configuration::of_bytes(raw[0], raw[1])
    }

    /// The register word that holds these settings, high byte first.
    pub open spec fn word(self) -> [u8; 2] {
        [self.msb() as u8, self.lsb() as u8]
    }
}

impl Default for Configuration {
    /// The power-up settings.
    fn default() -> (configuration: Self)
        ensures
            configuration == Configuration::power_up(),
    {
        Configuration {
            hysteresis: Hysteresis::Deg0C,
            shutdown_mode: ShutdownMode::ContinuousConversion,
            critical_temperature_lock: CriticalTemperatureLock::Unlocked,
            temperature_window_lock: TemperatureWindowLock::Unlocked,
            interrupt_clear: InterruptClear::NotEffect,
            alert_output_status: AlertOutputStatus::NotAsserted,
            alert_output_control: AlertOutputControl::Disabled,
            alert_output_select: AlertOutputSelect::UpperLowerCritical,
            alert_output_polarity: AlertOutputPolarity::ActiveLow,
            alert_output_mode: AlertOutputMode::Comparator,
        }
    }
}

impl From<[u8; 2]> for Configuration {
    /// Unpacks a register word, high byte first.
    fn from(raw: [u8; 2]) -> (configuration: Self) {
        let msb: u8 = raw[0];
        let lsb: u8 = raw[1];
        assert({
            &&& (msb >> 1) & 0b11 == msb / 2 % 4
            &&& msb & 1 == msb % 2
        }) by (bit_vector);
        assert({
            &&& (lsb >> 7) & 1 == lsb / 128 % 2
            &&& (lsb >> 6) & 1 == lsb / 64 % 2
            &&& (lsb >> 5) & 1 == lsb / 32 % 2
            &&& (lsb >> 4) & 1 == lsb / 16 % 2
            &&& (lsb >> 3) & 1 == lsb / 8 % 2
            &&& (lsb >> 2) & 1 == lsb / 4 % 2
            &&& (lsb >> 1) & 1 == lsb / 2 % 2
            &&& lsb & 1 == lsb % 2
        }) by (bit_vector);
        Configuration {
            hysteresis: Hysteresis::from_u8((msb >> 1) & 0b11).unwrap(),
            shutdown_mode: ShutdownMode::from_u8(msb & 1).unwrap(),
            critical_temperature_lock: CriticalTemperatureLock::from_u8((lsb >> 7) & 1).unwrap(),
            temperature_window_lock: TemperatureWindowLock::from_u8((lsb >> 6) & 1).unwrap(),
            interrupt_clear: InterruptClear::from_u8((lsb >> 5) & 1).unwrap(),
            alert_output_status: AlertOutputStatus::from_u8((lsb >> 4) & 1).unwrap(),
            alert_output_control: AlertOutputControl::from_u8((lsb >> 3) & 1).unwrap(),
            alert_output_select: AlertOutputSelect::from_u8((lsb >> 2) & 1).unwrap(),
            alert_output_polarity: AlertOutputPolarity::from_u8((lsb >> 1) & 1).unwrap(),
            alert_output_mode: AlertOutputMode::from_u8(lsb & 1).unwrap(),
        }
    }
}

impl vstd::std_specs::convert::FromSpecImpl<[u8; 2]> for Configuration {
    open spec fn obeys_from_spec() -> bool {
        true
    }

    open spec fn from_spec(raw: [u8; 2]) -> Self {
        Configuration::of_word(raw)
    }
}

impl From<Configuration> for [u8; 2] {
    /// Packs the settings into a register word, high byte first. The
    /// unimplemented bits are written as zero.
    fn from(configuration: Configuration) -> (raw: Self) {
        let hysteresis: u8 = configuration.hysteresis.to_u8();
        let shutdown_mode: u8 = configuration.shutdown_mode.to_u8();
        let critical_lock: u8 = configuration.critical_temperature_lock.to_u8();
        let window_lock: u8 = configuration.temperature_window_lock.to_u8();
        let interrupt_clear: u8 = configuration.interrupt_clear.to_u8();
        let status: u8 = configuration.alert_output_status.to_u8();
        let control: u8 = configuration.alert_output_control.to_u8();
        let select: u8 = configuration.alert_output_select.to_u8();
        let polarity: u8 = configuration.alert_output_polarity.to_u8();
        let mode: u8 = configuration.alert_output_mode.to_u8();
        assert((hysteresis << 1) | shutdown_mode == hysteresis * 2 + shutdown_mode) by (bit_vector)
            requires
                hysteresis < 4,
                shutdown_mode < 2,
        ;
        assert((critical_lock << 7) | (window_lock << 6) | (interrupt_clear << 5) | (status << 4)
            | (control << 3) | (select << 2) | (polarity << 1) | mode == critical_lock * 128
            + window_lock * 64 + interrupt_clear * 32 + status * 16 + control * 8 + select * 4
            + polarity * 2 + mode) by (bit_vector)
            requires
                critical_lock < 2,
                window_lock < 2,
                interrupt_clear < 2,
                status < 2,
                control < 2,
                select < 2,
                polarity < 2,
                mode < 2,
        ;
        let msb: u8 = (hysteresis << 1) | shutdown_mode;
        let lsb: u8 = (critical_lock << 7) | (window_lock << 6) | (interrupt_clear << 5) | (status
            << 4) | (control << 3) | (select << 2) | (polarity << 1) | mode;
        [msb, lsb]
    }
}

impl vstd::std_specs::convert::FromSpecImpl<Configuration> for [u8; 2] {
    open spec fn obeys_from_spec() -> bool {
        true
    }

    open spec fn from_spec(configuration: Configuration) -> Self {
        configuration.word()
    }
}

/// The two bytes that a configuration packs into fit a byte each, leave the
/// unimplemented bits zero, and hold that configuration.
pub proof fn lemma_packed_bytes_unpack(configuration: Configuration)
    ensures
        0 <= configuration.msb() < 8,
        0 <= configuration.lsb() < 256,
        Configuration::of_bytes(configuration.msb() as u8, configuration.lsb() as u8)
            == configuration,
{
    let hysteresis: u8 = configuration.hysteresis.value() as u8;
    let shutdown_mode: u8 = configuration.shutdown_mode.value() as u8;
    let critical_lock: u8 = configuration.critical_temperature_lock.value() as u8;
    let window_lock: u8 = configuration.temperature_window_lock.value() as u8;
    let interrupt_clear: u8 = configuration.interrupt_clear.value() as u8;
    let status: u8 = configuration.alert_output_status.value() as u8;
    let control: u8 = configuration.alert_output_control.value() as u8;
    let select: u8 = configuration.alert_output_select.value() as u8;
    let polarity: u8 = configuration.alert_output_polarity.value() as u8;
    let mode: u8 = configuration.alert_output_mode.value() as u8;
    let msb: u8 = configuration.msb() as u8;
    let lsb: u8 = configuration.lsb() as u8;
    assert(msb / 2 % 4 == hysteresis && msb % 2 == shutdown_mode) by (bit_vector)
        requires
            hysteresis < 4,
            shutdown_mode < 2,
            msb == hysteresis * 2 + shutdown_mode,
    ;
    assert({
        &&& lsb / 128 % 2 == critical_lock
        &&& lsb / 64 % 2 == window_lock
        &&& lsb / 32 % 2 == interrupt_clear
        &&& lsb / 16 % 2 == status
        &&& lsb / 8 % 2 == control
        &&& lsb / 4 % 2 == select
        &&& lsb / 2 % 2 == polarity
        &&& lsb % 2 == mode
    }) by (bit_vector)
        requires
            critical_lock < 2,
            window_lock < 2,
            interrupt_clear < 2,
            status < 2,
            control < 2,
            select < 2,
            polarity < 2,
            mode < 2,
            lsb == critical_lock * 128 + window_lock * 64 + interrupt_clear * 32 + status * 16
                + control * 8 + select * 4 + polarity * 2 + mode,
    ;
}

/// The configuration that two bytes hold packs into those bytes again, but
/// for the five unimplemented bits of the high byte.
pub proof fn lemma_unpacked_bytes_pack(msb: u8, lsb: u8)
    ensures
        Configuration::of_bytes(msb, lsb).msb() == msb % 8,
        Configuration::of_bytes(msb, lsb).lsb() == lsb,
{
    assert((msb / 2 % 4) * 2 + msb % 2 == msb % 8) by (bit_vector);
    assert((lsb / 128 % 2) * 128 + (lsb / 64 % 2) * 64 + (lsb / 32 % 2) * 32 + (lsb / 16 % 2) * 16
        + (lsb / 8 % 2) * 8 + (lsb / 4 % 2) * 4 + (lsb / 2 % 2) * 2 + lsb % 2 == lsb)
        by (bit_vector);
}

/// Packing is lossless: unpacking the word that a configuration packs into
/// gives that configuration back, whatever its settings.
pub proof fn lemma_configuration_round_trip(configuration: Configuration)
    ensures
        Configuration::of_word(configuration.word()) == configuration,
{
    lemma_packed_bytes_unpack(configuration);
    let word: [u8; 2] = configuration.word();
    assert(word[0] == configuration.msb() && word[1] == configuration.lsb());
}

/// Unpacking is total and keeps every implemented bit: packing the
/// configuration that a word holds gives the word back, but for the five
/// unimplemented bits of the high byte, which come back as zero.
pub proof fn lemma_configuration_word_round_trip(raw: [u8; 2])
    ensures
        Configuration::of_word(raw).word() == [(raw[0] % 8) as u8, raw[1]],
        raw[0] < 8 ==> Configuration::of_word(raw).word() == raw,
{
    lemma_unpacked_bytes_pack(raw[0], raw[1]);
    let word: [u8; 2] = Configuration::of_word(raw).word();
    assert(word[0] == raw[0] % 8 && word[1] == raw[1]);
}

} // verus!
