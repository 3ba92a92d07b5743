use rand::rngs::mock::StepRng;
use rand::rngs::StdRng;
use rand::{Rng, SeedableRng};
use rumsim::generator::{
    create_generator, GeneratorType, NoiseGenerator, Reading, SensorGenerator, StatusGenerator,
    SPREAD, SUSTAIN,
};
use std::f64::consts::PI;

const AVG_TEMPERATURE: f64 = 100.0;
const DELTA_TEMPERATURE: f64 = 20.0;
const JITTER: f64 = 2.0;

fn sensor_value(phase: u32, jitter: u64) -> f64 {
    let x: f64 = 2.0 * PI * f64::from(phase) / f64::from(SPREAD);
    let plain_value = x.sin() * DELTA_TEMPERATURE + AVG_TEMPERATURE;
    let fraction: f64 = StepRng::new(jitter, 0).gen::<f64>();
    let jitter_value: f64 = JITTER * 2.0 * fraction - JITTER + plain_value;
    (jitter_value * 100.0).trunc() / 100.0
}

fn value_of(reading: Reading) -> f64 {
    match reading {
        Reading::Register(value) => value.into(),
        Reading::Wave { phase, jitter } => sensor_value(phase, jitter),
    }
}

#[test]
fn test_noise_generator() {
    let mut gen = NoiseGenerator::new(1);
    let (_name, reading) = gen.generate(&mut StdRng::seed_from_u64(1));
    let value = value_of(reading);
    assert!((0.0..u16::MAX as f64).contains(&value));
}

#[test]
fn test_sensor_generator() {
    let mut rng = StdRng::seed_from_u64(1);
    let mut gen = SensorGenerator::new(1);
    let (mut _name, reading) = gen.generate(&mut rng);
    let mut value = value_of(reading);

    assert!((AVG_TEMPERATURE - JITTER..AVG_TEMPERATURE + JITTER).contains(&value));

    for _i in 0..SPREAD - 1 {
        let (_name, reading) = gen.generate(&mut rng);
        value = value_of(reading);
    }

    assert!((AVG_TEMPERATURE - JITTER..AVG_TEMPERATURE + JITTER).contains(&value));
}

#[test]
fn test_status_generator() {
    let mut rng = StdRng::seed_from_u64(1);
    let mut gen = StatusGenerator::new(1);
    let (_name, start_value) = gen.generate(&mut rng);

    for _i in 0..SUSTAIN - 1 {
        let (_name, value) = gen.generate(&mut rng);
        assert_eq!(start_value, value);
    }

    let (_name, next_value) = gen.generate(&mut rng);
    assert_ne!(start_value, next_value);
}

#[test]
fn test_factory() {
    let mut rng = StdRng::seed_from_u64(1);
    let mut noise = create_generator(GeneratorType::Noise, 1);
    noise.generate(&mut rng);
    let mut sensor = create_generator(GeneratorType::Sensor, 1);
    sensor.generate(&mut rng);
    let mut status = create_generator(GeneratorType::Status, 1);
    status.generate(&mut rng);
}

#[test]
fn generator_names_hold_kind_and_number() {
    let mut rng = StdRng::seed_from_u64(3);
    let mut noise = create_generator(GeneratorType::Noise, 0);
    assert_eq!(noise.generate(&mut rng).0, "noise_0");
    let mut sensor = create_generator(GeneratorType::Sensor, 17);
    assert_eq!(sensor.generate(&mut rng).0, "sensor_17");
    let mut status = create_generator(GeneratorType::Status, 65536);
    assert_eq!(status.generate(&mut rng).0, "status_65536");
}

#[test]
fn noise_hands_out_the_low_half_of_each_word() {
    let mut reference = StdRng::seed_from_u64(7);
    let mut rng = StdRng::seed_from_u64(7);
    let mut gen = NoiseGenerator::new(0);
    for _ in 0..40 {
        let word: u32 = reference.gen();
        let (_name, reading) = gen.generate(&mut rng);
        assert_eq!(reading, Reading::Register((word % 0x1_0000) as u16));
    }
}

#[test]
fn noise_draws_as_the_crate_draws_a_u16() {
    let mut reference = StdRng::seed_from_u64(11);
    let mut rng = StdRng::seed_from_u64(11);
    let mut gen = NoiseGenerator::new(0);
    for _ in 0..40 {
        let expected: u16 = reference.gen();
        assert_eq!(gen.generate(&mut rng).1, Reading::Register(expected));
    }
}

#[test]
fn sensor_joins_two_words_and_walks_through_its_phases() {
    let mut reference = StdRng::seed_from_u64(5);
    let mut rng = StdRng::seed_from_u64(5);
    let mut gen = SensorGenerator::new(0);
    for call in 0..250u32 {
        let low: u32 = reference.gen();
        let high: u32 = reference.gen();
        let (_name, reading) = gen.generate(&mut rng);
        let jitter = (u64::from(high) << 32) | u64::from(low);
        assert_eq!(reading, Reading::Wave { phase: call % (SPREAD + 1), jitter });
    }
}

#[test]
fn sensor_value_is_that_of_a_drawn_fraction() {
    let mut reference = StdRng::seed_from_u64(9);
    let mut rng = StdRng::seed_from_u64(9);
    let mut gen = SensorGenerator::new(0);
    for index in 0..150u32 {
        let x: f64 = 2.0 * PI * f64::from(index % 101) / 100.0;
        let plain_value = x.sin() * 20.0 + 100.0;
        let jitter_value: f64 = 2.0 * 2.0 * reference.gen::<f64>() - 2.0 + plain_value;
        let expected = (jitter_value * 100.0).trunc() / 100.0;
        let (_name, reading) = gen.generate(&mut rng);
        assert_eq!(value_of(reading), expected);
    }
}

#[test]
fn sensor_stays_within_its_bounds() {
    let mut rng = StdRng::seed_from_u64(2);
    let mut gen = SensorGenerator::new(0);
    for call in 0..1000u32 {
        let (_name, reading) = gen.generate(&mut rng);
        let value = value_of(reading);
        assert!((78.0..=122.0).contains(&value));
        if call % 101 == 0 {
            assert!((98.0..=102.0).contains(&value));
        }
    }
}

#[test]
fn status_hands_out_every_value_in_exactly_100_calls() {
    let mut reference = StdRng::seed_from_u64(4);
    let mut rng = StdRng::seed_from_u64(4);
    let mut gen = StatusGenerator::new(0);
    for _ in 0..5 {
        let drawn: u16 = reference.gen();
        for _ in 0..SUSTAIN {
            assert_eq!(gen.generate(&mut rng).1, Reading::Register(drawn));
        }
        assert_eq!(rng, reference);
    }
}

#[test]
fn status_draws_in_the_first_call_of_a_window_only() {
    let mut reference = StdRng::seed_from_u64(6);
    let mut rng = StdRng::seed_from_u64(6);
    let mut gen = StatusGenerator::new(0);
    for _ in 0..3 {
        gen.generate(&mut rng);
        assert_ne!(rng, reference);
        let _: u16 = reference.gen();
        assert_eq!(rng, reference);
        for _ in 1..SUSTAIN {
            gen.generate(&mut rng);
            assert_eq!(rng, reference);
        }
    }
}

#[test]
fn status_windows_differ_for_this_seed() {
    let mut rng = StdRng::seed_from_u64(8);
    let mut gen = StatusGenerator::new(0);
    let mut values = Vec::new();
    for call in 0..400 {
        let (_name, reading) = gen.generate(&mut rng);
        if call % 100 == 0 {
            values.push(reading);
        }
    }
    assert_eq!(values.len(), 4);
    assert_ne!(values[0], values[1]);
    assert_ne!(values[1], values[2]);
    assert_ne!(values[2], values[3]);
}
