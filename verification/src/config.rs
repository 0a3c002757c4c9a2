//! Which configurations a driver accepts.
use crate::text::{decimal, decimal_text};
use crate::types::{AdcConfig, ConfigView, DriverError};
use vstd::prelude::*;
use vstd::string::*;

verus! {

/// The most events that a driver's queue may be made to hold.
pub const MAX_BUFFER_SIZE: usize = 10000;

/// Why a driver with `additional` slots of headroom refuses `config`, in the
/// order in which the rules are tried; `None` where it accepts it.
pub open spec fn rejection(config: ConfigView, additional: nat) -> Option<Seq<char>> {
    if !config.mock {
        Some("MockDriver requires config.mock=true"@)
    } else if config.batch_size == 0 {
        Some("Batch size must be greater than 0"@)
    } else if config.batch_size < config.channels.len() {
        Some(
            "Batch size ("@ + decimal_text(config.batch_size)
                + ") must be at least equal to the number of channels ("@ + decimal_text(
                config.channels.len(),
            ) + ")"@,
        )
    } else if config.batch_size + additional > MAX_BUFFER_SIZE {
        Some(
            "Total buffer size ("@ + decimal_text(config.batch_size + additional)
                + ") exceeds maximum allowed ("@ + decimal_text(MAX_BUFFER_SIZE as nat) + ")"@,
        )
    } else if config.sample_rate == 0 {
        Some("Sample rate must be greater than 0"@)
    } else if config.channels.len() == 0 {
        Some("At least one channel is required"@)
    } else {
        None
    }
}

/// A driver with `additional` slots of headroom accepts `config`.
pub open spec fn accepted(config: ConfigView, additional: nat) -> bool {
    rejection(config, additional) is None
}

/// A configuration is accepted exactly when it selects the synthetic
/// backend, samples at a positive rate, names at least one channel, holds at
/// least one sample per channel in a batch, and asks for a queue of at most
/// `MAX_BUFFER_SIZE` slots.
pub proof fn lemma_accepted(config: ConfigView, additional: nat)
    ensures
        accepted(config, additional) <==> {
            &&& config.mock
            &&& config.sample_rate > 0
            &&& config.channels.len() > 0
            &&& config.batch_size >= config.channels.len()
            &&& config.batch_size + additional <= MAX_BUFFER_SIZE
        },
{
}

/// Tries the rules on `config` and reports the first that it breaks.
pub fn validate_config(config: &AdcConfig, additional: usize) -> (r: Result<(), DriverError>)
    ensures
        match rejection(config@, additional as nat) {
            Some(text) => r matches Err(DriverError::ConfigurationError(t)) && t@ == text,
            None => r is Ok,
        },
{
    if !config.mock {
        return Err(
            DriverError::ConfigurationError(String::from_str("MockDriver requires config.mock=true")),
        );
    }
    if config.batch_size == 0 {
        return Err(
            DriverError::ConfigurationError(String::from_str("Batch size must be greater than 0")),
        );
    }
    if config.batch_size < config.channels.len() {
        let text = String::from_str("Batch size (").concat(
            decimal(config.batch_size as u128).as_str(),
        ).concat(") must be at least equal to the number of channels (").concat(
            decimal(config.channels.len() as u128).as_str(),
        ).concat(")");
        return Err(DriverError::ConfigurationError(text));
    }
    if config.batch_size > MAX_BUFFER_SIZE || additional > MAX_BUFFER_SIZE - config.batch_size {
        let total: u128 = config.batch_size as u128 + additional as u128;
        let text = String::from_str("Total buffer size (").concat(decimal(total).as_str()).concat(
            ") exceeds maximum allowed (",
        ).concat(decimal(MAX_BUFFER_SIZE as u128).as_str()).concat(")");
        return Err(DriverError::ConfigurationError(text));
    }
    if config.sample_rate == 0 {
        return Err(
            DriverError::ConfigurationError(String::from_str("Sample rate must be greater than 0")),
        );
    }
    if config.channels.len() == 0 {
        return Err(
            DriverError::ConfigurationError(String::from_str("At least one channel is required")),
        );
    }
    Ok(())
}

} // verus!
