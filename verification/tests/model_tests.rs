use botsim::driver::{
    fuel_for_time_us, validate_configuration, AppType, BotConfigWrapper, BotVisualization, Color,
    ConfigError, Configuration,
};
use botsim::exec_data::{csv_row_width, CsvColumn, CsvValueKind};
use botsim::reflectance::{line_reflection, sensor_reading, NormalRandom};
use botsim::sensors::{
    line_sensor_offset_nm, pack_sensor_values, quantize_deg, range_valid, SensorIndexRange,
    SensorKind, SensorsData, URAD_PER_DEG,
};

fn good_config() -> Configuration {
    Configuration {
        name: "liner".to_string(),
        color_main: Color { r: 255, g: 0, b: 0 },
        color_secondary: Color { r: 0, g: 255, b: 0 },
        width_axle: 200_000,
        length_front: 300_000,
        length_back: 20_000,
        clearing_back: 3_000,
        wheel_diameter: 30_000,
        gear_ratio_num: 1,
        gear_ratio_den: 20,
        front_sensors_spacing: 4_000,
        front_sensors_height: 4_000,
    }
}

#[test]
fn reflectance_is_black_over_the_line_and_white_beyond() {
    assert_eq!(line_reflection(0), 0);
    assert_eq!(line_reflection(5_000_000), 0);
    assert_eq!(line_reflection(10_000_000), 0);
    assert_eq!(line_reflection(30_000_000), 100);
    assert_eq!(line_reflection(1_000_000_000), 100);
    // Halfway through the transition the smoothstep sits exactly at 50.
    assert_eq!(line_reflection(20_000_000), 50);
}

#[test]
fn reflectance_is_even() {
    for d in [0i64, 3, 9_999_999, 10_000_001, 17_500_000, 25_000_000, 31_000_000] {
        assert_eq!(line_reflection(d), line_reflection(-d));
    }
}

#[test]
fn reflectance_is_monotone_away_from_the_line() {
    let mut last = 0u8;
    for d in (0..40).map(|k| k * 1_000_000) {
        let r = line_reflection(d);
        assert!(r >= last);
        last = r;
    }
}

#[test]
fn noise_is_deterministic_in_the_seed() {
    let mut a = NormalRandom::new(42);
    let mut b = NormalRandom::new(42);
    let run_a: Vec<u8> = (0..32).map(|_| a.noisy_value(50)).collect();
    let run_b: Vec<u8> = (0..32).map(|_| b.noisy_value(50)).collect();
    assert_eq!(run_a, run_b);
    let mut c = NormalRandom::new(43);
    let run_c: Vec<u8> = (0..32).map(|_| c.noisy_value(50)).collect();
    assert_ne!(run_a, run_c);
}

#[test]
fn noisy_readings_stay_in_range() {
    let mut rng = NormalRandom::new(7);
    for d in [0i64, 11_000_000, 29_000_000, 35_000_000] {
        for _ in 0..16 {
            let v = sensor_reading(d, &mut rng);
            assert!(v <= 100);
        }
    }
    let mut edge = NormalRandom::new(9);
    for _ in 0..64 {
        assert!(edge.noisy_value(0) <= 100);
        assert!(edge.noisy_value(100) <= 100);
    }
}

#[test]
fn a_good_configuration_passes() {
    assert_eq!(validate_configuration(&good_config()), Ok(()));
}

#[test]
fn each_option_out_of_range_names_itself() {
    let mut c = good_config();
    c.width_axle = 99_999;
    assert_eq!(validate_configuration(&c), Err(ConfigError::WidthAxle));
    c = good_config();
    c.length_front = 300_001;
    assert_eq!(validate_configuration(&c), Err(ConfigError::LengthFront));
    c = good_config();
    c.length_back = 9_999;
    assert_eq!(validate_configuration(&c), Err(ConfigError::LengthBack));
    c = good_config();
    c.clearing_back = 16_000;
    assert_eq!(validate_configuration(&c), Err(ConfigError::ClearingBack));
    c = good_config();
    c.wheel_diameter = 15_000;
    assert_eq!(validate_configuration(&c), Err(ConfigError::WheelDiameter));
    c = good_config();
    c.gear_ratio_num = 0;
    assert_eq!(validate_configuration(&c), Err(ConfigError::GearRatioNum));
    c = good_config();
    c.gear_ratio_den = 101;
    assert_eq!(validate_configuration(&c), Err(ConfigError::GearRatioDen));
    c = good_config();
    c.front_sensors_spacing = 16_000;
    assert_eq!(validate_configuration(&c), Err(ConfigError::FrontSensorsSpacing));
    c = good_config();
    c.front_sensors_height = 15_001;
    assert_eq!(validate_configuration(&c), Err(ConfigError::FrontSensorsHeight));
}

#[test]
fn fuel_schedule_is_linear_and_monotone() {
    assert_eq!(fuel_for_time_us(0), 1_000_000);
    assert_eq!(fuel_for_time_us(1000), 10_000 * 1000 + 1_000_000);
    assert!(fuel_for_time_us(1000) < fuel_for_time_us(1001));
    assert!(fuel_for_time_us(1_000_000) < fuel_for_time_us(3_000_000));
}

#[test]
fn app_types_know_their_features() {
    let sim = AppType::Simulator(good_config());
    let test = AppType::Test(good_config());
    let vis = AppType::Visualizer;
    assert!(sim.has_physics() && !sim.has_visualization());
    assert!(test.has_physics() && test.has_visualization());
    assert!(!vis.has_physics() && vis.has_visualization());
    assert!(sim.get_configuration().is_some());
    assert!(test.get_configuration().is_some());
    assert!(vis.get_configuration().is_none());
    let wrapped = BotConfigWrapper::new(good_config());
    assert_eq!(wrapped.config.width_axle, 200_000);
    let layer = BotVisualization::new(good_config(), 3);
    assert_eq!(layer.bot_number, 3);
}

#[test]
fn sensor_ranges_validate_against_their_kind() {
    assert!(range_valid(SensorKind::Line, SensorIndexRange { start: 0, count: 16 }));
    assert!(!range_valid(SensorKind::Line, SensorIndexRange { start: 1, count: 16 }));
    assert!(range_valid(SensorKind::Gyro, SensorIndexRange { start: 1, count: 2 }));
    assert!(!range_valid(SensorKind::Gyro, SensorIndexRange { start: 4, count: 0 }));
    assert!(range_valid(SensorKind::Enabled, SensorIndexRange { start: 0, count: 1 }));
    assert!(!range_valid(SensorKind::Enabled, SensorIndexRange { start: 0, count: 2 }));
}

#[test]
fn packed_bytes_follow_the_wire_layout() {
    let mut sensors = SensorsData::initial();
    sensors.line = [0, 1, 2, 3, 4, 5, 6, 7, 8, 9, 10, 11, 12, 13, 14, 15];
    sensors.gyro = (-1, 2, -3);
    let line = pack_sensor_values(&sensors, SensorKind::Line, SensorIndexRange {
        start: 4,
        count: 3,
    });
    assert_eq!(line, vec![4, 5, 6]);
    let gyro = pack_sensor_values(&sensors, SensorKind::Gyro, SensorIndexRange {
        start: 0,
        count: 3,
    });
    assert_eq!(gyro, vec![0xFF, 0xFF, 0x02, 0x00, 0xFD, 0xFF]);
}

#[test]
fn inertial_quantizer_truncates_and_saturates() {
    assert_eq!(quantize_deg(0), 0);
    assert_eq!(quantize_deg(URAD_PER_DEG), 1);
    assert_eq!(quantize_deg(URAD_PER_DEG - 1), 0);
    assert_eq!(quantize_deg(-URAD_PER_DEG), -1);
    assert_eq!(quantize_deg(-(URAD_PER_DEG - 1)), 0);
    assert_eq!(quantize_deg(90 * URAD_PER_DEG + 5), 90);
    assert_eq!(quantize_deg(i64::MAX), i16::MAX);
    assert_eq!(quantize_deg(i64::MIN), i16::MIN);
}

#[test]
fn line_sensor_array_is_centred() {
    // A 4 mm spacing: sensor 0 sits 30 mm left of centre, sensor 15 the
    // mirror image, and the two middle sensors half a spacing out.
    assert_eq!(line_sensor_offset_nm(4_000, 0), -30_000_000);
    assert_eq!(line_sensor_offset_nm(4_000, 15), 30_000_000);
    assert_eq!(line_sensor_offset_nm(4_000, 7), -2_000_000);
    assert_eq!(line_sensor_offset_nm(4_000, 8), 2_000_000);
    for i in 0..15 {
        assert_eq!(
            line_sensor_offset_nm(4_000, i + 1) - line_sensor_offset_nm(4_000, i),
            4_000_000
        );
    }
}

#[test]
fn csv_row_width_sums_the_column_widths() {
    let schema = vec![
        CsvColumn { name: "t".to_string(), kind: CsvValueKind::U32 },
        CsvColumn { name: "v".to_string(), kind: CsvValueKind::I16 },
        CsvColumn { name: "flag".to_string(), kind: CsvValueKind::U8 },
        CsvColumn { name: "x".to_string(), kind: CsvValueKind::F32 },
    ];
    assert_eq!(csv_row_width(&schema), 11);
    assert_eq!(csv_row_width(&Vec::new()), 0);
}
