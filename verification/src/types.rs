//! The data that crosses the driver's boundary: configuration, sample
//! points, events, status and errors.
use vstd::prelude::*;

verus! {

/// Where a driver stands in its lifecycle.
#[derive(Debug, Clone, Copy, PartialEq, Eq, Structural)]
pub enum DriverStatus {
    NotInitialized,
    Ready,
    Error,
    Stopped,
    Running,
}

/// The acquisition backends that the factory can build.
#[derive(Debug, Clone, Copy, PartialEq, Eq, Structural)]
pub enum DriverType {
    Mock,
}

/// Acquisition parameters.
///
/// `gain` is carried as the bit pattern of an IEEE 754 binary32 number; the
/// driver stores it and hands it back, and never computes with it.
#[derive(Debug)]
pub struct AdcConfig {
    pub sample_rate: u32,
    pub gain: u32,
    pub channels: Vec<usize>,
    pub batch_size: usize,
    pub mock: bool,
}

/// What an [`AdcConfig`] holds, as mathematical values.
pub struct ConfigView {
    pub sample_rate: nat,
    pub gain: u32,
    pub channels: Seq<usize>,
    pub batch_size: nat,
    pub mock: bool,
}

impl View for AdcConfig {
    type V = ConfigView;

    open spec fn view(&self) -> ConfigView {
        ConfigView {
            sample_rate: self.sample_rate as nat,
            gain: self.gain,
            channels: self.channels@,
            batch_size: self.batch_size as nat,
            mock: self.mock,
        }
    }
}

impl Clone for AdcConfig {
    fn clone(&self) -> (copy: Self)
        ensures
            copy@ == self@,
    {
        AdcConfig {
            sample_rate: self.sample_rate,
            gain: self.gain,
            channels: self.channels.clone(),
            batch_size: self.batch_size,
            mock: self.mock,
        }
    }
}

/// One sample point: for each channel the values read at `timestamp`.
///
/// The outer index of `samples` is the channel, the inner one the sub-sample.
/// Each value is the bit pattern of an IEEE 754 binary32 number. `timestamp`
/// counts microseconds from the start of the acquisition.
#[derive(Debug, Clone)]
pub struct AdcData {
    pub samples: Vec<Vec<u32>>,
    pub timestamp: u64,
}

/// What an [`AdcData`] holds, as mathematical values.
pub struct SampleView {
    pub samples: Seq<Seq<u32>>,
    pub timestamp: nat,
}

impl View for AdcData {
    type V = SampleView;

    open spec fn view(&self) -> SampleView {
        SampleView {
            samples: Seq::new(self.samples@.len(), |c: int| self.samples@[c]@),
            timestamp: self.timestamp as nat,
        }
    }
}

/// What a driver puts on its event stream.
#[derive(Debug, Clone)]
pub enum DriverEvent {
    Data(Vec<AdcData>),
    Error(String),
    StatusChange(DriverStatus),
}

/// `std::io::Error`, carried through as it is.
#[verifier::external_type_specification]
#[verifier::external_body]
pub struct ExIoError(std::io::Error);

/// `rppal::spi::Error`, carried through as it is.
#[verifier::external_type_specification]
#[verifier::external_body]
pub struct ExSpiFault(rppal::spi::Error);

/// `std::time::SystemTimeError`, carried through as it is.
#[verifier::external_type_specification]
#[verifier::external_body]
pub struct ExSystemTimeError(std::time::SystemTimeError);

/// Why an operation of a driver failed.
#[derive(Debug)]
pub enum DriverError {
    HardwareNotFound(String),
    ConfigurationError(String),
    AcquisitionError(String),
    NotInitialized,
    IoError(std::io::Error),
    Other(String),
    NotConfigured,
}

/// A failure of the SPI bus, as the bus library reports it.
#[derive(Debug)]
pub struct SpiError(pub rppal::spi::Error);

/// A failure to relate the system clock to the Unix epoch.
#[derive(Debug)]
pub struct TimeError(pub std::time::SystemTimeError);

impl From<SpiError> for DriverError {
    fn from(err: SpiError) -> (e: DriverError)
        ensures
            e matches DriverError::Other(text)
                && vstd::string::to_string_from_display_ensures::<rppal::spi::Error>(&err.0, text),
    {
        DriverError::Other(err.0.to_string())
    }
}

impl vstd::std_specs::convert::FromSpecImpl<SpiError> for DriverError {
    open spec fn obeys_from_spec() -> bool {
        false
    }

    open spec fn from_spec(err: SpiError) -> DriverError {
        arbitrary()
    }
}

impl From<TimeError> for DriverError {
    fn from(err: TimeError) -> (e: DriverError)
        ensures
            e matches DriverError::Other(text)
                && vstd::string::to_string_from_display_ensures::<std::time::SystemTimeError>(
                &err.0,
                text,
            ),
    {
        DriverError::Other(err.0.to_string())
    }
}

impl vstd::std_specs::convert::FromSpecImpl<TimeError> for DriverError {
    open spec fn obeys_from_spec() -> bool {
        false
    }

    open spec fn from_spec(err: TimeError) -> DriverError {
        arbitrary()
    }
}

impl From<std::io::Error> for DriverError {
    fn from(err: std::io::Error) -> (e: DriverError) {
        DriverError::IoError(err)
    }
}

impl vstd::std_specs::convert::FromSpecImpl<std::io::Error> for DriverError {
    open spec fn obeys_from_spec() -> bool {
        true
    }

    open spec fn from_spec(err: std::io::Error) -> DriverError {
        DriverError::IoError(err)
    }
}

impl DriverError {
    /// The text that `describe` gives for this error, where `cause` is the
    /// rendering of the wrapped I/O error (read only for `IoError`).
    pub open spec fn description(self, cause: Seq<char>) -> Seq<char> {
        match self {
            DriverError::HardwareNotFound(_) => "Hardware not found"@,
            DriverError::ConfigurationError(text) => "Configuration error: "@ + text@,
            DriverError::AcquisitionError(text) => "Acquisition error: "@ + text@,
            DriverError::NotInitialized => "Driver not initialized"@,
            DriverError::IoError(_) => "IO error: "@ + cause,
            DriverError::Other(text) => "Other error: "@ + text@,
            DriverError::NotConfigured => "Driver not configured"@,
        }
    }

    /// The error as a line of text for a person to read.
    pub fn describe(&self) -> (line: String)
        ensures
            match *self {
                DriverError::IoError(io) => exists|cause: String|
                    vstd::string::to_string_from_display_ensures::<std::io::Error>(&io, cause)
                        && line@ == self.description(cause@),
                _ => line@ == self.description(Seq::empty()),
            },
    {
        match self {
            DriverError::HardwareNotFound(_) => String::from_str("Hardware not found"),
            DriverError::ConfigurationError(text) => String::from_str(
                "Configuration error: ",
            ).concat(text.as_str()),
            DriverError::AcquisitionError(text) => String::from_str("Acquisition error: ").concat(
                text.as_str(),
            ),
            DriverError::NotInitialized => String::from_str("Driver not initialized"),
            DriverError::IoError(io) => {
                let cause = io.to_string();
                String::from_str("IO error: ").concat(cause.as_str())
            },
            DriverError::Other(text) => String::from_str("Other error: ").concat(text.as_str()),
            DriverError::NotConfigured => String::from_str("Driver not configured"),
        }
    }
}

} // verus!
