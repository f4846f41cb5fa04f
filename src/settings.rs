use vstd::prelude::*;

verus! {

/// Why a configuration was refused.
#[derive(Clone, Copy, Debug, PartialEq, Eq, Structural)]
pub enum ConfigError {
    EmptyApiKey,
    TemperatureOutOfRange,
    ZeroMaxTokens,
    ZeroTimeout,
}

/// The first rule that a configuration breaks, checked in a fixed order.
pub open spec fn settings_verdict(
    api_key: Seq<char>,
    temperature_in_range: bool,
    max_tokens: u32,
    timeout: u64,
) -> Result<(), ConfigError> {
    if api_key.len() == 0 {
        Err(ConfigError::EmptyApiKey)
    } else if !temperature_in_range {
        Err(ConfigError::TemperatureOutOfRange)
    } else if max_tokens == 0 {
        Err(ConfigError::ZeroMaxTokens)
    } else if timeout == 0 {
        Err(ConfigError::ZeroTimeout)
    } else {
        Ok(())
    }
}

/// Checks a configuration: a non-empty key, a temperature within its range
/// (whether it is, the caller measures), and a positive token bound and timeout.
pub fn check_settings(
    api_key: &str,
    temperature_in_range: bool,
    max_tokens: u32,
    timeout: u64,
) -> (r: Result<(), ConfigError>)
    ensures
        r == settings_verdict(api_key@, temperature_in_range, max_tokens, timeout),
{
    if api_key.is_empty() {
        Err(ConfigError::EmptyApiKey)
    } else if !temperature_in_range {
        Err(ConfigError::TemperatureOutOfRange)
    } else if max_tokens == 0 {
        Err(ConfigError::ZeroMaxTokens)
    } else if timeout == 0 {
        Err(ConfigError::ZeroTimeout)
    } else {
        Ok(())
    }
}

} // verus!
