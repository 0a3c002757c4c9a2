use board_driver::clock::{current_timestamp_micros, elapsed_micros, timestamp_from_reading};
use board_driver::mock_driver::MockDriver;
use board_driver::signal::{
    batch_sleep_millis, check_sampling, generate_batch, sampling_turn, test_data,
};
use board_driver::text::decimal;
use board_driver::types::{AdcConfig, DriverError, DriverEvent, DriverStatus};

fn config(sample_rate: u32, channels: Vec<usize>, batch_size: usize) -> AdcConfig {
    AdcConfig { sample_rate, gain: 0x3f80_0000, channels, batch_size, mock: true }
}

fn sine(hz: u64, micros: u64) -> u32 {
    let t_secs = micros as f32 / 1_000_000.0;
    let angle = 2.0 * std::f32::consts::PI * (hz as f32) * t_secs;
    angle.sin().to_bits()
}

fn tag(hz: u64, micros: u64) -> u32 {
    (hz * 1_000_000 + micros) as u32
}

#[test]
fn each_channel_carries_its_own_frequency() {
    let c = config(250, vec![9, 4, 7, 1], 8);
    let point = test_data(&c, 123, &tag);
    assert_eq!(point.timestamp, 123);
    assert_eq!(
        point.samples,
        vec![vec![2_000_123], vec![6_000_123], vec![10_000_123], vec![14_000_123]]
    );
}

#[test]
fn a_sample_point_holds_one_value_per_channel() {
    let c = config(250, vec![0, 1, 2], 8);
    let point = test_data(&c, 0, &sine);
    assert_eq!(point.samples.len(), 3);
    for readings in &point.samples {
        assert_eq!(readings.len(), 1);
        assert_eq!(f32::from_bits(readings[0]), 0.0);
    }
}

#[test]
fn a_quarter_period_gives_the_crest() {
    let c = config(250, vec![0], 1);
    let point = test_data(&c, 125_000, &sine);
    let value = f32::from_bits(point.samples[0][0]);
    assert!((value - 1.0).abs() < 1e-6);
}

#[test]
fn consecutive_timestamps_are_one_interval_apart() {
    let c = config(250, vec![0, 1], 32);
    let batch = generate_batch(&c, 1_000, &tag);
    assert_eq!(batch.len(), 32);
    assert_eq!(batch[0].timestamp, 1_000);
    for i in 1..batch.len() {
        assert_eq!(batch[i].timestamp - batch[i - 1].timestamp, 4_000);
    }
    assert_eq!(batch[31].timestamp, 125_000);
}

#[test]
fn the_interval_is_rounded_down() {
    let c = config(300, vec![0], 4);
    let batch = generate_batch(&c, 0, &tag);
    let stamps: Vec<u64> = batch.iter().map(|p| p.timestamp).collect();
    assert_eq!(stamps, vec![0, 3_333, 6_666, 9_999]);

    let c = config(2_000_000, vec![0], 3);
    let batch = generate_batch(&c, 50, &tag);
    let stamps: Vec<u64> = batch.iter().map(|p| p.timestamp).collect();
    assert_eq!(stamps, vec![50, 50, 50]);
}

#[test]
fn a_batch_ends_at_the_last_timestamp_that_fits() {
    let c = config(1, vec![0], 3);
    let base = u64::MAX - 3_000_000;
    let batch = generate_batch(&c, base, &tag);
    assert_eq!(batch[2].timestamp, u64::MAX - 1_000_000);
}

#[test]
fn every_point_of_a_batch_is_sampled_at_its_own_timestamp() {
    let c = config(1_000, vec![5, 6], 4);
    let batch = generate_batch(&c, 10, &tag);
    for (i, point) in batch.iter().enumerate() {
        let stamp = 10 + 1_000 * i as u64;
        assert_eq!(point.timestamp, stamp);
        assert_eq!(point.samples, vec![vec![tag(2, stamp)], vec![tag(6, stamp)]]);
    }
}

#[test]
fn first_batch_after_start_follows_the_sine_of_each_channel() {
    let c = config(250, vec![0, 1], 32);
    let (mut driver, mut rx) = MockDriver::new(c, 0).unwrap();
    assert_eq!(rx.max_capacity(), 32);
    let tx = driver.event_sender();

    let announced = driver.start_acquisition().unwrap();
    tx.try_send(announced).unwrap();
    assert!(driver.claim_task_slot());
    let sampling = driver.sampling_config().unwrap();
    let batch = generate_batch(&sampling, 0, &sine);
    tx.try_send(DriverEvent::Data(batch)).unwrap();

    assert!(matches!(rx.try_recv(), Ok(DriverEvent::StatusChange(DriverStatus::Running))));
    let batch = match rx.try_recv() {
        Ok(DriverEvent::Data(batch)) => batch,
        other => panic!("unexpected event {:?}", other),
    };
    assert_eq!(batch.len(), 32);
    for (i, point) in batch.iter().enumerate() {
        assert_eq!(point.timestamp, 4_000 * i as u64);
        assert_eq!(point.samples.len(), 2);
        let t = point.timestamp as f64 / 1_000_000.0;
        let slow = (2.0 * std::f64::consts::PI * 2.0 * t).sin();
        let fast = (2.0 * std::f64::consts::PI * 6.0 * t).sin();
        assert!((f32::from_bits(point.samples[0][0]) as f64 - slow).abs() < 1e-6);
        assert!((f32::from_bits(point.samples[1][0]) as f64 - fast).abs() < 1e-6);
    }
}

#[test]
fn the_wait_after_a_batch_is_its_duration() {
    assert_eq!(batch_sleep_millis(&config(250, vec![0, 1], 32)), 128);
    assert_eq!(batch_sleep_millis(&config(300, vec![0], 1)), 3);
    assert_eq!(batch_sleep_millis(&config(1_000, vec![0], 10_000)), 10_000);
    assert_eq!(batch_sleep_millis(&config(4_000_000, vec![0], 32)), 0);
}

#[test]
fn a_clock_reading_becomes_a_timestamp() {
    assert_eq!(timestamp_from_reading(Ok(0)).unwrap(), 0);
    assert_eq!(timestamp_from_reading(Ok(1_700_000_000_000_000)).unwrap(), 1_700_000_000_000_000);
    assert_eq!(timestamp_from_reading(Ok(u64::MAX as u128)).unwrap(), u64::MAX);
}

#[test]
fn a_clock_reading_is_cut_to_64_bits() {
    assert_eq!(timestamp_from_reading(Ok((1u128 << 64) + 7)).unwrap(), 7);
    assert_eq!(timestamp_from_reading(Ok(u128::MAX)).unwrap(), u64::MAX);
}

#[test]
fn a_failed_clock_reading_becomes_an_error() {
    match timestamp_from_reading(Err("second time provided was later than self".to_string())) {
        Err(DriverError::Other(text)) => assert_eq!(
            text,
            "Failed to get timestamp: second time provided was later than self"
        ),
        other => panic!("unexpected result {:?}", other),
    }
}

#[test]
fn the_clock_reads_after_the_year_2020() {
    let first = current_timestamp_micros().unwrap();
    assert!(first > 1_577_836_800_000_000);
    let second = current_timestamp_micros().unwrap();
    assert!(second + 1_000_000 > first);
}

#[test]
fn elapsed_time_never_goes_negative() {
    assert_eq!(elapsed_micros(100, 350), 250);
    assert_eq!(elapsed_micros(100, 100), 0);
    assert_eq!(elapsed_micros(350, 100), 0);
    assert_eq!(elapsed_micros(0, u64::MAX), u64::MAX);
}

#[test]
fn numbers_are_written_in_base_ten() {
    assert_eq!(decimal(0), "0");
    assert_eq!(decimal(7), "7");
    assert_eq!(decimal(10), "10");
    assert_eq!(decimal(10001), "10001");
    assert_eq!(decimal(1234567890), "1234567890");
    assert_eq!(decimal(u128::MAX), u128::MAX.to_string());
}

#[test]
fn a_stored_configuration_can_be_sampled() {
    let c = config(250, vec![0, 1], 32);
    assert!(check_sampling(&c, 0));
    assert!(check_sampling(&c, 1_000_000_000_000));
    assert!(check_sampling(&c, u64::MAX - 128_000));
    assert!(!check_sampling(&c, u64::MAX - 127_999));
}

#[test]
fn a_rate_of_zero_cannot_be_sampled() {
    assert!(!check_sampling(&config(0, vec![0, 1], 32), 0));
}

#[test]
fn a_batch_beyond_the_range_cannot_be_sampled() {
    let c = config(1, vec![0], usize::MAX);
    assert!(!check_sampling(&c, 0));
    let c = config(2_000_000, vec![0], 1_000_000);
    assert!(check_sampling(&c, u64::MAX));
}

#[test]
fn a_turn_gives_the_batch_and_the_wait() {
    let c = config(250, vec![0, 1], 32);
    let (batch, millis) = sampling_turn(Some(c), 5_000, Ok(9_000), &tag).unwrap();
    assert_eq!(millis, 128);
    assert_eq!(batch.len(), 32);
    assert_eq!(batch[0].timestamp, 4_000);
    assert_eq!(batch[1].timestamp, 8_000);
    assert_eq!(batch[1].samples, vec![vec![tag(2, 8_000)], vec![tag(6, 8_000)]]);
}

#[test]
fn a_turn_starts_at_zero_when_the_clock_went_back() {
    let c = config(1_000, vec![0], 2);
    let (batch, millis) = sampling_turn(Some(c), 9_000, Ok(5_000), &tag).unwrap();
    assert_eq!(millis, 2);
    assert_eq!(batch[0].timestamp, 0);
    assert_eq!(batch[1].timestamp, 1_000);
}

#[test]
fn the_task_ends_without_a_configuration() {
    assert!(sampling_turn(None, 0, Ok(10), &tag).is_none());
}

#[test]
fn the_task_ends_when_the_clock_fails() {
    let c = config(250, vec![0, 1], 32);
    let failure = DriverError::Other("Failed to get timestamp: clock".to_string());
    assert!(sampling_turn(Some(c), 0, Err(failure), &tag).is_none());
}

#[test]
fn the_task_ends_when_the_batch_cannot_be_sampled() {
    let c = config(250, vec![0, 1], 32);
    assert!(sampling_turn(Some(c), 0, Ok(u64::MAX), &tag).is_none());
    assert!(sampling_turn(Some(config(0, vec![0], 4)), 0, Ok(10), &tag).is_none());
}

#[test]
fn the_task_ends_once_the_driver_is_discarded() {
    let (mut driver, _rx) = MockDriver::new(config(250, vec![0, 1], 32), 0).unwrap();
    driver.start_acquisition().unwrap();
    assert!(driver.claim_task_slot());
    assert!(sampling_turn(driver.sampling_config(), 0, Ok(10), &tag).is_some());
    driver.discard();
    assert!(sampling_turn(driver.sampling_config(), 0, Ok(20), &tag).is_none());
}
