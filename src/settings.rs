//! Timing and channel settings of the engine, checked before it starts.
use vstd::prelude::*;

verus! {

/// Why a set of settings is refused.
#[derive(Clone, Copy, Debug, PartialEq, Eq, Structural)]
pub enum SettingsError {
    /// The exit hysteresis is zero: the engine would go idle at once.
    ZeroExitHysteresis,
    /// The detection channel would hold no event.
    ZeroChannelCapacity,
}

/// The engine's configuration. Durations are in milliseconds.
#[derive(Clone, Copy, Debug, PartialEq, Eq, Structural)]
pub struct Settings {
    /// Quiet time after an accepted detection before another is accepted.
    pub entry_debounce_ms: u64,
    /// Silence after the last detection before the state goes idle.
    pub exit_hysteresis_ms: u64,
    /// How long the loop sleeps between polls.
    pub poll_interval_ms: u64,
    /// How many detections the channel holds before senders must wait.
    pub channel_capacity: usize,
}

/// The error that `settings` are refused with, checked in field order.
pub open spec fn settings_error(s: Settings) -> Option<SettingsError> {
    if s.exit_hysteresis_ms == 0 {
        Some(SettingsError::ZeroExitHysteresis)
    } else if s.channel_capacity == 0 {
        Some(SettingsError::ZeroChannelCapacity)
    } else {
        None
    }
}

impl Settings {
    /// Accepts the settings unless the exit hysteresis or the channel
    /// capacity is zero.
    pub fn validate(&self) -> (r: Result<(), SettingsError>)
        ensures
            match r {
                Ok(()) => settings_error(*self).is_none(),
                Err(e) => settings_error(*self) == Some(e),
            },
    {
        if self.exit_hysteresis_ms == 0 {
            Err(SettingsError::ZeroExitHysteresis)
        } else if self.channel_capacity == 0 {
            Err(SettingsError::ZeroChannelCapacity)
        } else {
            Ok(())
        }
    }
}

impl Default for Settings {
    /// A five second entry debounce, a two second exit hysteresis, a poll
    /// every 100 ms and room for ten detections.
    fn default() -> (r: Settings)
        ensures
            r.entry_debounce_ms == 5000,
            r.exit_hysteresis_ms == 2000,
            r.poll_interval_ms == 100,
            r.channel_capacity == 10,
    {
        Settings {
            entry_debounce_ms: 5000,
            exit_hysteresis_ms: 2000,
            poll_interval_ms: 100,
            channel_capacity: 10,
        }
    }
}

} // verus!
