use round_display::fault::SetupError;
use round_display::gyroscope_task::{
    gyroscope_task, sensors_setup, Acceleration, AccelerometerRange, AngularRate, FifoSample,
    GyroscopeRange, InterruptLine, Orientation, SensorSetting, SensorsAction, SensorsEvent,
    SensorsPhase, SensorsTaskData, FIFO_SIZE, FIFO_WATERMARK, OUTPUT_RATE,
};
use round_display::shared_state::SharedSlot;

fn rate(x: f32, y: f32, z: f32) -> AngularRate {
    AngularRate { x: x.to_bits(), y: y.to_bits(), z: z.to_bits() }
}

fn acceleration(x: f32, y: f32, z: f32) -> Acceleration {
    Acceleration { x: x.to_bits(), y: y.to_bits(), z: z.to_bits() }
}

fn sample(index: u16, seed: f32) -> FifoSample {
    FifoSample {
        index,
        acceleration: Some(acceleration(seed, seed + 1.0, seed + 2.0)),
        angular_rate: Some(rate(-seed, -seed - 1.0, -seed - 2.0)),
    }
}

/// A task and a reader on its slot, brought to the streaming loop.
fn streaming(gyroscope_ok: bool, accelerometer_ok: bool) -> (SensorsTaskData, SharedSlot<Orientation>) {
    let slot = SharedSlot::new(Orientation::default());
    let reader = slot.share();
    let mut task = SensorsTaskData::new(slot);
    assert_eq!(task.pending(), SensorsAction::ClaimInterruptPin);
    assert_eq!(
        gyroscope_task(&mut task, SensorsEvent::InterruptPinClaimed { ok: true }),
        SensorsAction::RunSelfTest
    );
    let mut action =
        gyroscope_task(&mut task, SensorsEvent::SelfTested { gyroscope_ok, accelerometer_ok });
    for setting in sensors_setup() {
        assert_eq!(action, SensorsAction::Configure(setting));
        action = gyroscope_task(&mut task, SensorsEvent::Configured { ok: true });
    }
    assert_eq!(action, SensorsAction::AwaitInterrupt);
    (task, reader)
}

fn drain(task: &mut SensorsTaskData, samples: Vec<FifoSample>, ok: bool) {
    assert_eq!(
        gyroscope_task(task, SensorsEvent::InterruptEdge { ok: true }),
        SensorsAction::DrainFifo
    );
    assert_eq!(
        gyroscope_task(task, SensorsEvent::Drained { samples, ok }),
        SensorsAction::AwaitInterrupt
    );
}

#[test]
fn default_reading_is_all_zero() {
    let reading = Orientation::default();
    assert!(!reading.gyroscope_alive);
    assert!(!reading.accelerometer_alive);
    assert_eq!(reading.sample_index, 0);
    assert_eq!(f32::from_bits(reading.angular_rate.x), 0.0);
    assert_eq!(f32::from_bits(reading.angular_rate.y), 0.0);
    assert_eq!(f32::from_bits(reading.angular_rate.z), 0.0);
    assert_eq!(f32::from_bits(reading.acceleration.x), 0.0);
    assert_eq!(f32::from_bits(reading.acceleration.y), 0.0);
    assert_eq!(f32::from_bits(reading.acceleration.z), 0.0);
}

#[test]
fn update_overwrites_samples_and_keeps_liveness() {
    let mut reading = Orientation::default();
    reading.gyroscope_alive = true;
    reading.update(9, Some(rate(1.5, -2.5, 3.25)), Some(acceleration(0.1, 0.2, 0.3)));
    assert!(reading.gyroscope_alive);
    assert!(!reading.accelerometer_alive);
    assert_eq!(reading.sample_index, 9);
    assert_eq!(f32::from_bits(reading.angular_rate.y), -2.5);
    assert_eq!(f32::from_bits(reading.acceleration.z), 0.3);
}

#[test]
fn update_without_a_sub_sensor_reads_zero() {
    let mut reading = Orientation::default();
    reading.update(1, Some(rate(1.0, 2.0, 3.0)), Some(acceleration(4.0, 5.0, 6.0)));
    reading.update(2, None, Some(acceleration(7.0, 8.0, 9.0)));
    assert_eq!(reading.sample_index, 2);
    assert_eq!(reading.angular_rate, AngularRate { x: 0, y: 0, z: 0 });
    assert_eq!(f32::from_bits(reading.acceleration.x), 7.0);
    reading.update(3, Some(rate(1.0, 2.0, 3.0)), None);
    assert_eq!(reading.acceleration, Acceleration { x: 0, y: 0, z: 0 });
    assert_eq!(f32::from_bits(reading.angular_rate.z), 3.0);
}

#[test]
fn sensor_plan_is_written_in_order() {
    let plan = sensors_setup();
    assert_eq!(
        plan,
        vec![
            SensorSetting::Interrupts { int1_enable: true, int2_enable: true, big_endian: true },
            SensorSetting::Accelerometer {
                range: AccelerometerRange::G2,
                rate: 8,
                self_test: false
            },
            SensorSetting::Gyroscope { range: GyroscopeRange::Dps256, rate: 8, self_test: false },
            SensorSetting::Enable {
                gyroscope: true,
                accelerometer: true,
                sync_sample: false,
                data_ready_disable: true
            },
            SensorSetting::Handshake { ctrl9_handshake_type: true },
            SensorSetting::Fifo { size: 128, watermark: 64, interrupt: InterruptLine::Int2 },
        ]
    );
    assert_eq!(FIFO_SIZE, 128);
    assert_eq!(FIFO_WATERMARK, 64);
    assert_eq!(OUTPUT_RATE, 8);
}

#[test]
fn interrupt_pin_failure_stops_the_task() {
    let mut task = SensorsTaskData::new(SharedSlot::new(Orientation::default()));
    let action = gyroscope_task(&mut task, SensorsEvent::InterruptPinClaimed { ok: false });
    assert_eq!(action, SensorsAction::Stop(SetupError::InterruptPin));
    assert_eq!(task.phase(), SensorsPhase::Stopped(SetupError::InterruptPin));
    let again = gyroscope_task(&mut task, SensorsEvent::InterruptEdge { ok: true });
    assert_eq!(again, SensorsAction::Stop(SetupError::InterruptPin));
}

#[test]
fn failed_configuration_writes_do_not_stop_the_task() {
    let slot = SharedSlot::new(Orientation::default());
    let mut task = SensorsTaskData::new(slot);
    gyroscope_task(&mut task, SensorsEvent::InterruptPinClaimed { ok: true });
    let mut action = gyroscope_task(
        &mut task,
        SensorsEvent::SelfTested { gyroscope_ok: true, accelerometer_ok: true },
    );
    let plan = sensors_setup();
    for (position, setting) in plan.iter().enumerate() {
        assert_eq!(task.phase(), SensorsPhase::Configuring(position));
        assert_eq!(action, SensorsAction::Configure(*setting));
        action = gyroscope_task(&mut task, SensorsEvent::Configured { ok: false });
    }
    assert_eq!(action, SensorsAction::AwaitInterrupt);
    assert_eq!(task.phase(), SensorsPhase::AwaitingInterrupt);
}

#[test]
fn self_test_failure_of_gyroscope_is_advisory() {
    let (mut task, reader) = streaming(false, true);
    let seen = reader.read_snapshot().unwrap();
    assert!(!seen.gyroscope_alive);
    assert!(seen.accelerometer_alive);
    drain(&mut task, vec![sample(5, 1.0)], true);
    let seen = reader.read_snapshot().unwrap();
    assert!(!seen.gyroscope_alive);
    assert!(seen.accelerometer_alive);
    assert_eq!(seen.sample_index, 5);
    assert_eq!(f32::from_bits(seen.angular_rate.x), -1.0);
    assert_eq!(f32::from_bits(seen.angular_rate.y), -2.0);
    assert_eq!(f32::from_bits(seen.angular_rate.z), -3.0);
    assert_eq!(task.phase(), SensorsPhase::AwaitingInterrupt);
}

#[test]
fn self_test_failure_of_both_still_streams() {
    let (mut task, reader) = streaming(false, false);
    drain(&mut task, vec![sample(1, 2.0)], true);
    let seen = reader.read_snapshot().unwrap();
    assert!(!seen.gyroscope_alive);
    assert!(!seen.accelerometer_alive);
    assert_eq!(seen.sample_index, 1);
}

#[test]
fn batch_leaves_its_last_entry() {
    let (mut task, reader) = streaming(true, true);
    drain(&mut task, vec![sample(10, 1.0), sample(11, 2.0), sample(12, 3.0)], true);
    let seen = reader.read_snapshot().unwrap();
    let mut expected = Orientation::default();
    expected.gyroscope_alive = true;
    expected.accelerometer_alive = true;
    expected.update(12, Some(rate(-3.0, -4.0, -5.0)), Some(acceleration(3.0, 4.0, 5.0)));
    assert_eq!(seen, expected);
    assert_eq!(task.reading(), expected);
}

#[test]
fn back_to_back_batches_show_only_the_later_index() {
    let (mut task, reader) = streaming(true, true);
    drain(&mut task, vec![sample(41, 1.0)], true);
    drain(&mut task, vec![sample(42, 7.0)], true);
    let seen = reader.read_snapshot().unwrap();
    assert_eq!(seen.sample_index, 42);
    assert_eq!(seen.angular_rate, rate(-7.0, -8.0, -9.0));
    assert_eq!(seen.acceleration, acceleration(7.0, 8.0, 9.0));
}

#[test]
fn empty_batch_changes_nothing() {
    let (mut task, reader) = streaming(true, false);
    drain(&mut task, vec![sample(3, 1.0)], true);
    let before = reader.read_snapshot().unwrap();
    drain(&mut task, Vec::new(), true);
    assert_eq!(reader.read_snapshot(), Some(before));
    assert_eq!(task.reading(), before);
}

#[test]
fn broken_off_drain_keeps_what_was_read() {
    let (mut task, reader) = streaming(true, true);
    drain(&mut task, vec![sample(20, 1.0), sample(21, 2.0)], false);
    assert_eq!(reader.read_snapshot().unwrap().sample_index, 21);
    assert_eq!(task.phase(), SensorsPhase::AwaitingInterrupt);
}

#[test]
fn failed_interrupt_wait_goes_back_to_waiting() {
    let (mut task, reader) = streaming(true, true);
    let before = reader.read_snapshot();
    let action = gyroscope_task(&mut task, SensorsEvent::InterruptEdge { ok: false });
    assert_eq!(action, SensorsAction::AwaitInterrupt);
    assert_eq!(task.phase(), SensorsPhase::AwaitingInterrupt);
    assert_eq!(reader.read_snapshot(), before);
}

#[test]
fn sample_index_wraps_with_the_sensor() {
    let (mut task, reader) = streaming(true, true);
    drain(&mut task, vec![sample(u16::MAX, 1.0), sample(0, 2.0)], true);
    assert_eq!(reader.read_snapshot().unwrap().sample_index, 0);
}

#[test]
fn event_out_of_turn_is_ignored() {
    let (mut task, reader) = streaming(true, true);
    let before = reader.read_snapshot();
    let action = gyroscope_task(&mut task, SensorsEvent::Drained { samples: vec![sample(9, 9.0)], ok: true });
    assert_eq!(action, SensorsAction::AwaitInterrupt);
    assert_eq!(reader.read_snapshot(), before);
    let action = gyroscope_task(&mut task, SensorsEvent::Configured { ok: true });
    assert_eq!(action, SensorsAction::AwaitInterrupt);
    assert_eq!(task.phase(), SensorsPhase::AwaitingInterrupt);
}
