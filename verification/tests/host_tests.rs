use botsim::blocking_api::{
    console_log, get_imu_fused_data, get_line_sensors, get_motor_angles, get_time_us, read_gyro,
    remote_enabled, sleep_for, sleep_until, wait_remote_disabled, wait_remote_enabled,
    write_csv_file, write_plain_file,
};
use botsim::exec_data::{CsvColumn, CsvValueKind};
use botsim::host::{AsyncSensorResult, AsyncVoidResult, BotHost, ReadError};
use botsim::sensors::{SensorIndexRange, SensorKind, SensorsData};
use botsim::stepper::MockStepper;

fn fresh_host(total_us: u32, period_us: u32) -> BotHost<MockStepper> {
    BotHost::new(MockStepper::new(), total_us, period_us, true, true)
}

#[test]
fn empty_run_records_one_step_per_period() {
    // A run of 1000 us at a 100 us step: sleeping the whole time leaves
    // exactly ten records, all with zero motor power and an unmoved pose.
    let mut host = fresh_host(1000, 100);
    host.sleep_blocking_for(1000);
    assert_eq!(host.current_time(), 1000);
    assert!(host.time_exhausted());
    let data = host.into_execution_data();
    assert_eq!(data.steps.len(), 10);
    for (i, step) in data.steps.iter().enumerate() {
        assert_eq!(step.time_us, 100 * (i as u32 + 1));
        assert_eq!(step.motor_commands, (0, 0));
        assert_eq!(step.body_transform.x_nm, 0);
        assert_eq!(step.body_transform.y_nm, 0);
        assert_eq!(step.body_transform.yaw_udeg, 0);
    }
}

#[test]
fn ragged_sleep_rounds_up_to_the_grid() {
    let mut host = fresh_host(10_000, 300);
    host.sleep_blocking_for(1000);
    // ceil(1000 / 300) = 4 steps.
    assert_eq!(host.current_time(), 1200);
}

#[test]
fn sleep_never_passes_the_entitlement() {
    let mut host = fresh_host(1000, 100);
    host.sleep_blocking_for(50_000);
    assert_eq!(host.current_time(), 1000);
    assert!(host.time_exhausted());
}

#[test]
fn sleep_until_a_past_time_returns_at_once() {
    let mut host = fresh_host(10_000, 100);
    host.sleep_blocking_for(500);
    let before = host.current_time();
    host.sleep_blocking_until(200);
    assert_eq!(host.current_time(), before);
    host.sleep_blocking_until(800);
    assert_eq!(host.current_time(), 800);
}

#[test]
fn set_power_is_clamped_and_recorded_on_following_steps() {
    let mut host = fresh_host(1000, 100);
    host.set_power(500, -3000);
    host.sleep_blocking_for(300);
    let data = host.into_execution_data();
    assert_eq!(data.steps.len(), 3);
    for step in &data.steps {
        assert_eq!(step.motor_commands, (500, -1000));
    }
}

#[test]
fn spin_turn_command_is_stored_symmetrically() {
    let mut host = fresh_host(1000, 100);
    host.set_power(1000, -1000);
    host.sleep_blocking_for(100);
    let data = host.into_execution_data();
    assert_eq!(data.steps[0].motor_commands, (1000, -1000));
}

#[test]
fn inactive_runs_keep_time_but_record_nothing() {
    let mut host = BotHost::new(MockStepper::new(), 1000, 100, false, true);
    host.sleep_blocking_for(1000);
    assert_eq!(host.current_time(), 1000);
    let data = host.into_execution_data();
    assert_eq!(data.steps.len(), 0);
}

#[test]
fn polling_never_advances_time() {
    // A tight poll loop makes no progress: this is how a guest burns its
    // whole fuel budget without the simulation moving.
    let mut host = fresh_host(1_000_000, 100);
    let handle = host.sleep_async_for(1_000_000);
    for _ in 0..1000 {
        assert_eq!(host.poll_timer(handle), Ok(AsyncVoidResult::Blocked));
        assert_eq!(host.current_time(), 0);
    }
}

#[test]
fn async_sleep_becomes_ready_at_its_deadline() {
    let mut host = fresh_host(100_000, 100);
    let timer = host.sleep_async_for(10_000);
    let sensor = host.read_sensor_async(SensorKind::Line, SensorIndexRange { start: 0, count: 16 });
    // The simulated sensor has no latency: its handle is ready at once,
    // while the sleep stays blocked.
    assert_eq!(host.poll_timer(timer), Ok(AsyncVoidResult::Blocked));
    match host.poll_sensor(sensor) {
        Ok(AsyncSensorResult::Ready(bytes)) => assert_eq!(bytes.len(), 16),
        other => panic!("sensor handle not ready: {:?}", other),
    }
    host.sleep_blocking_for(9_900);
    assert_eq!(host.poll_timer(timer), Ok(AsyncVoidResult::Blocked));
    host.sleep_blocking_for(100);
    assert_eq!(host.current_time(), 10_000);
    assert_eq!(host.poll_timer(timer), Ok(AsyncVoidResult::Ready));
}

#[test]
fn async_sleep_until_uses_an_absolute_deadline() {
    let mut host = fresh_host(100_000, 100);
    let timer = host.sleep_async_until(500);
    assert_eq!(host.poll_timer(timer), Ok(AsyncVoidResult::Blocked));
    host.sleep_blocking_for(500);
    assert_eq!(host.poll_timer(timer), Ok(AsyncVoidResult::Ready));
    // A deadline already in the past is ready at once.
    let past = host.sleep_async_until(100);
    assert_eq!(host.poll_timer(past), Ok(AsyncVoidResult::Ready));
}

#[test]
fn unknown_handles_are_invalid() {
    let host = fresh_host(1000, 100);
    assert_eq!(host.poll_timer(0), Err(ReadError::InvalidHandle));
    assert_eq!(host.poll_timer(7), Err(ReadError::InvalidHandle));
    assert_eq!(host.poll_sensor(123), Err(ReadError::InvalidHandle));
}

#[test]
fn forgotten_handles_are_invalid() {
    let mut host = fresh_host(1000, 100);
    let handle = host.sleep_async_for(100);
    assert_eq!(host.poll_timer(handle), Ok(AsyncVoidResult::Blocked));
    host.forget_handle(handle);
    assert_eq!(host.poll_timer(handle), Err(ReadError::InvalidHandle));
    assert_eq!(host.poll_sensor(handle), Err(ReadError::InvalidHandle));
    // Forgetting a handle that does not exist is silent.
    host.forget_handle(999);
}

#[test]
fn polls_across_handle_flavours_are_rejected() {
    let mut host = fresh_host(1000, 100);
    let timer = host.sleep_async_for(100);
    let sensor = host.read_sensor_async(SensorKind::Gyro, SensorIndexRange { start: 0, count: 3 });
    assert_eq!(host.poll_sensor(timer), Err(ReadError::InvalidSensor));
    assert_eq!(host.poll_timer(sensor), Err(ReadError::InvalidSensor));
}

#[test]
fn bad_ranges_are_rejected() {
    let mut host = fresh_host(1000, 100);
    let r = host.read_sensor_blocking(SensorKind::Gyro, SensorIndexRange { start: 2, count: 2 });
    assert_eq!(r, Err(ReadError::InvalidRange));
    let handle = host.read_sensor_async(SensorKind::Line, SensorIndexRange { start: 10, count: 7 });
    assert_eq!(host.poll_sensor(handle), Err(ReadError::InvalidRange));
}

#[test]
fn blocking_read_hands_out_packed_bytes() {
    let mut stepper = MockStepper::new();
    let mut sensors = SensorsData::initial();
    sensors.motor_angles = (0x1234, 0xBEEF);
    sensors.gyro = (-5, 10, -300);
    stepper.set_sensors(sensors);
    let mut host = BotHost::new(stepper, 1000, 100, true, true);
    let bytes = host
        .read_sensor_blocking(SensorKind::MotorAngles, SensorIndexRange { start: 0, count: 2 })
        .unwrap();
    assert_eq!(bytes, vec![0x34, 0x12, 0xEF, 0xBE]);
    let second = host
        .read_sensor_blocking(SensorKind::MotorAngles, SensorIndexRange { start: 1, count: 1 })
        .unwrap();
    assert_eq!(second, vec![0xEF, 0xBE]);
    let enabled = host
        .read_sensor_blocking(SensorKind::Enabled, SensorIndexRange { start: 0, count: 1 })
        .unwrap();
    assert_eq!(enabled, vec![1]);
}

#[test]
fn typed_reads_decode_the_wire_bytes() {
    let mut stepper = MockStepper::new();
    let mut sensors = SensorsData::initial();
    sensors.line = [3, 1, 4, 1, 5, 9, 2, 6, 5, 3, 5, 8, 9, 7, 9, 100];
    sensors.motor_angles = (123, 4567);
    sensors.gyro = (-5, 10, -32768);
    sensors.imu_fused = (90, -90, 179);
    stepper.set_sensors(sensors);
    let mut host = BotHost::new(stepper, 1000, 100, true, true);
    assert_eq!(get_line_sensors(&mut host), sensors.line);
    assert_eq!(get_motor_angles(&mut host), (123, 4567));
    assert_eq!(read_gyro(&mut host), (-5, 10, -32768));
    assert_eq!(get_imu_fused_data(&mut host), (90, -90, 179));
}

#[test]
fn typed_sleeps_and_time_agree_with_the_host() {
    let mut host = fresh_host(10_000, 100);
    assert_eq!(get_time_us(&host), 0);
    sleep_for(&mut host, 250);
    assert_eq!(get_time_us(&host), 300);
    sleep_until(&mut host, 1000);
    assert_eq!(get_time_us(&host), 1000);
}

#[test]
fn observed_times_never_decrease() {
    let mut host = fresh_host(100_000, 100);
    let mut observed = vec![get_time_us(&host)];
    host.set_power(100, 100);
    observed.push(get_time_us(&host));
    sleep_for(&mut host, 1234);
    observed.push(get_time_us(&host));
    let h = host.sleep_async_for(777);
    let _ = host.poll_timer(h);
    observed.push(get_time_us(&host));
    sleep_until(&mut host, 5000);
    observed.push(get_time_us(&host));
    wait_remote_enabled(&mut host);
    observed.push(get_time_us(&host));
    for pair in observed.windows(2) {
        assert!(pair[0] <= pair[1]);
    }
}

#[test]
fn identical_runs_leave_identical_traces() {
    // The whole host is a fold of pure transitions, so two runs over the
    // same inputs agree byte for byte.
    let run = || {
        let mut host = fresh_host(10_000, 100);
        host.set_power(321, -321);
        sleep_for(&mut host, 1500);
        let h = host.read_sensor_async(SensorKind::Line, SensorIndexRange { start: 0, count: 16 });
        let _ = host.poll_sensor(h);
        console_log(&mut host, "lap done");
        host.sleep_blocking_until(4000);
        host.into_execution_data()
    };
    let first = run();
    let second = run();
    assert_eq!(first, second);
}

#[test]
fn enable_signal_marks_the_run_live() {
    let mut host = BotHost::new(MockStepper::new(), 1000, 100, false, true);
    assert!(!host.is_active());
    assert!(remote_enabled(&mut host));
    assert!(host.is_active());
    // The signal is high, so waiting for it returns without any advance.
    wait_remote_enabled(&mut host);
    assert_eq!(host.current_time(), 0);
    // Waiting for it to drop runs the clock out instead.
    wait_remote_disabled(&mut host);
    assert_eq!(host.current_time(), 1000);
}

#[test]
fn wait_enabled_runs_the_clock_out_while_the_signal_is_low() {
    let mut host = BotHost::new(MockStepper::new(), 1000, 100, false, false);
    wait_remote_enabled(&mut host);
    assert_eq!(host.current_time(), 1000);
    assert!(host.is_active());
}

#[test]
fn log_lines_accumulate_as_utf8() {
    let mut host = fresh_host(1000, 100);
    console_log(&mut host, "hello");
    console_log(&mut host, "world");
    let data = host.into_execution_data();
    assert_eq!(data.log, b"hello\nworld\n".to_vec());
}

#[test]
fn csv_artifact_round_trips_bytes_and_schema() {
    let mut host = fresh_host(1000, 100);
    let bytes: Vec<u8> = vec![1, 0, 0, 0, 0xFE, 0xFF, 2, 0, 0, 0, 5, 0];
    let schema = vec![
        CsvColumn { name: "t".to_string(), kind: CsvValueKind::U32 },
        CsvColumn { name: "v".to_string(), kind: CsvValueKind::I16 },
    ];
    write_csv_file(&mut host, "t.csv", &bytes, schema.clone());
    let data = host.into_execution_data();
    assert_eq!(data.files.len(), 1);
    assert_eq!(data.files[0].name, "t.csv");
    assert_eq!(data.files[0].bytes, bytes);
    assert_eq!(data.files[0].schema, Some(schema));
}

#[test]
fn plain_file_artifact_keeps_its_bytes() {
    let mut host = fresh_host(1000, 100);
    write_plain_file(&mut host, "dump.bin", &[9, 8, 7]);
    let data = host.into_execution_data();
    assert_eq!(data.files.len(), 1);
    assert_eq!(data.files[0].name, "dump.bin");
    assert_eq!(data.files[0].bytes, vec![9, 8, 7]);
    assert_eq!(data.files[0].schema, None);
}
