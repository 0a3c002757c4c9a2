use board_driver::types::{
    AdcConfig, AdcData, DriverError, DriverEvent, DriverStatus, DriverType, SpiError, TimeError,
};
use std::time::{Duration, SystemTime};

#[test]
fn errors_are_described_in_words() {
    assert_eq!(
        DriverError::HardwareNotFound("no chip".to_string()).describe(),
        "Hardware not found"
    );
    assert_eq!(
        DriverError::ConfigurationError("bad rate".to_string()).describe(),
        "Configuration error: bad rate"
    );
    assert_eq!(
        DriverError::AcquisitionError("overrun".to_string()).describe(),
        "Acquisition error: overrun"
    );
    assert_eq!(DriverError::NotInitialized.describe(), "Driver not initialized");
    assert_eq!(DriverError::Other("lock".to_string()).describe(), "Other error: lock");
    assert_eq!(DriverError::NotConfigured.describe(), "Driver not configured");
}

#[test]
fn an_io_error_is_described_with_its_cause() {
    let cause = std::io::Error::new(std::io::ErrorKind::NotFound, "no such device");
    let error = DriverError::from(cause);
    assert!(matches!(error, DriverError::IoError(_)));
    assert_eq!(error.describe(), "IO error: no such device");
}

#[test]
fn a_bus_error_becomes_a_general_error() {
    let error = DriverError::from(SpiError(rppal::spi::Error::BitsPerWordNotSupported(9)));
    match &error {
        DriverError::Other(text) => assert_eq!(text, "Bits per word value not supported: 9"),
        other => panic!("unexpected error {:?}", other),
    }
    assert_eq!(error.describe(), "Other error: Bits per word value not supported: 9");

    let error = DriverError::from(SpiError(rppal::spi::Error::ClockSpeedNotSupported(3)));
    match error {
        DriverError::Other(text) => assert_eq!(text, "Clock speed value not supported: 3"),
        other => panic!("unexpected error {:?}", other),
    }
}

#[test]
fn a_clock_error_becomes_a_general_error() {
    let later = SystemTime::UNIX_EPOCH + Duration::from_secs(10);
    let cause = SystemTime::UNIX_EPOCH.duration_since(later).unwrap_err();
    let expected = cause.to_string();
    match DriverError::from(TimeError(cause)) {
        DriverError::Other(text) => assert_eq!(text, expected),
        other => panic!("unexpected error {:?}", other),
    }
}

#[test]
fn a_configuration_is_copied_field_by_field() {
    let config = AdcConfig {
        sample_rate: 500,
        gain: 0x4000_0000,
        channels: vec![2, 0, 5],
        batch_size: 16,
        mock: true,
    };
    let copy = config.clone();
    assert_eq!(copy.sample_rate, 500);
    assert_eq!(copy.gain, 0x4000_0000);
    assert_eq!(copy.channels, vec![2, 0, 5]);
    assert_eq!(copy.batch_size, 16);
    assert!(copy.mock);
}

#[test]
fn events_are_copied_with_their_payload() {
    let point = AdcData { samples: vec![vec![1], vec![2]], timestamp: 42 };
    let event = DriverEvent::Data(vec![point]);
    match event.clone() {
        DriverEvent::Data(batch) => {
            assert_eq!(batch.len(), 1);
            assert_eq!(batch[0].samples, vec![vec![1], vec![2]]);
            assert_eq!(batch[0].timestamp, 42);
        }
        other => panic!("unexpected event {:?}", other),
    }
    assert!(matches!(
        DriverEvent::Error("lost".to_string()).clone(),
        DriverEvent::Error(text) if text == "lost"
    ));
    assert!(matches!(
        DriverEvent::StatusChange(DriverStatus::Error).clone(),
        DriverEvent::StatusChange(DriverStatus::Error)
    ));
}

#[test]
fn statuses_and_backends_compare_by_value() {
    assert_eq!(DriverStatus::Stopped, DriverStatus::Stopped);
    assert_ne!(DriverStatus::Ready, DriverStatus::Running);
    assert_ne!(DriverStatus::NotInitialized, DriverStatus::Error);
    assert_eq!(DriverType::Mock, DriverType::Mock);
}
