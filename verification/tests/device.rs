use chrono::Utc;
use rand::rngs::mock::StepRng;
use rand::rngs::StdRng;
use rand::{Rng, SeedableRng};
use rumsim::device::Device;
use rumsim::generator::Reading;
use rumsim::message::{message, value_text, Timestamp};
use std::f64::consts::PI;

fn text_of(reading: Reading) -> String {
    match reading {
        Reading::Wave { phase, jitter } => {
            let x: f64 = 2.0 * PI * f64::from(phase) / 100.0;
            let plain_value = x.sin() * 20.0 + 100.0;
            let fraction: f64 = StepRng::new(jitter, 0).gen::<f64>();
            let jitter_value: f64 = 2.0 * 2.0 * fraction - 2.0 + plain_value;
            format!("{}", (jitter_value * 100.0).trunc() / 100.0)
        }
        register => value_text(register).unwrap(),
    }
}

#[test]
fn test_create_generators() {
    let mut rng = StdRng::seed_from_u64(1);

    let generators = Device::create_data_point_generators(0);
    assert_eq!(generators.len(), 0);

    let mut generators = Device::create_data_point_generators(1);
    assert_eq!(generators.len(), 1);
    let (name, _value) = generators[0].generate(&mut rng);
    assert!(name.contains("sensor"));

    // Two data points are both the rest of a division by three: sensors.
    let mut generators = Device::create_data_point_generators(2);
    assert_eq!(generators.len(), 2);
    let (name, _value) = generators[0].generate(&mut rng);
    assert!(name.contains("sensor"));
    let (name, _value) = generators[1].generate(&mut rng);
    assert!(name.contains("sensor"));

    let mut generators = Device::create_data_point_generators(3);
    assert_eq!(generators.len(), 3);
    let (name, _value) = generators[0].generate(&mut rng);
    assert!(name.contains("status"));
    let (name, _value) = generators[1].generate(&mut rng);
    assert!(name.contains("noise"));
    let (name, _value) = generators[2].generate(&mut rng);
    assert!(name.contains("sensor"));

    let mut generators = Device::create_data_point_generators(4);
    assert_eq!(generators.len(), 4);
    let (name, _value) = generators[2].generate(&mut rng);
    assert!(name.contains("sensor"));
    let (name, _value) = generators[3].generate(&mut rng);
    assert!(name.contains("sensor"));
}

#[test]
fn test_iter() {
    let data_points = 1;
    let mut device = Device::new("rumsim-2", 3, data_points, 1);
    let points = device.generate();
    assert_eq!(points.len(), 1);
    let now = Utc::now();
    let time = Timestamp { secs: now.timestamp(), nanos: now.timestamp_subsec_nanos() };
    let topic = points[0].topic.clone();
    let data = message(time, &points[0].name, &text_of(points[0].reading)).unwrap();
    assert_eq!(topic, String::from("s/us/rumsim-2_3"));
    assert_eq!(data.split(',').count(), 7);
}

#[test]
fn partition_of_data_points() {
    for n in 0..40usize {
        let mut rng = StdRng::seed_from_u64(1);
        let mut generators = Device::create_data_point_generators(n);
        assert_eq!(generators.len(), n);
        let third = n / 3;
        for (i, generator) in generators.iter_mut().enumerate() {
            let (name, _value) = generator.generate(&mut rng);
            let expected = if i < third {
                format!("status_{}", i)
            } else if i < 2 * third {
                format!("noise_{}", i - third)
            } else {
                format!("sensor_{}", i - 2 * third)
            };
            assert_eq!(name, expected);
        }
    }
}

#[test]
fn five_data_points_are_one_status_one_noise_three_sensors() {
    let mut device = Device::new("c", 0, 5, 9);
    let names: Vec<String> = device.generate().into_iter().map(|p| p.name).collect();
    assert_eq!(names, vec!["status_0", "noise_0", "sensor_0", "sensor_1", "sensor_2"]);
}

#[test]
fn device_cycle_keeps_order_and_topic() {
    let mut device = Device::new("plant", 12, 7, 99);
    for _ in 0..3 {
        let points = device.generate();
        assert_eq!(points.len(), 7);
        let names: Vec<&str> = points.iter().map(|p| p.name.as_str()).collect();
        assert_eq!(
            names,
            vec!["status_0", "status_1", "noise_0", "noise_1", "sensor_0", "sensor_1", "sensor_2"]
        );
        for point in &points {
            assert_eq!(point.topic, "s/us/plant_12");
        }
    }
}

#[test]
fn device_without_data_points_is_silent() {
    let mut device = Device::new("c", 0, 0, 1);
    assert!(device.generate().is_empty());
}

#[test]
fn generators_of_a_device_share_one_stream() {
    let mut reference = StdRng::seed_from_u64(21);
    let mut device = Device::new("c", 0, 3, 21);
    let points = device.generate();
    // The status register draws first, in its first call.
    let status: u16 = reference.gen();
    assert_eq!(points[0].reading, Reading::Register(status));
    let noise: u16 = reference.gen();
    assert_eq!(points[1].reading, Reading::Register(noise));
    let jitter: u64 = reference.gen();
    assert_eq!(points[2].reading, Reading::Wave { phase: 0, jitter });
}

#[test]
fn duplicate_is_equal() {
    let mut device = Device::new("c", 0, 3, 21);
    let points = device.generate();
    let copy = points[2].duplicate();
    assert_eq!(copy.topic, points[2].topic);
    assert_eq!(copy.name, points[2].name);
    assert_eq!(copy.reading, points[2].reading);
}
