use rand::rngs::mock::StepRng;
use rand::rngs::StdRng;
use rand::{Rng, SeedableRng};
use rumsim::device::DataPoint;
use rumsim::generator::Reading;
use rumsim::interval::Interval;
use rumsim::message::{message, Timestamp};
use rumsim::simulation::{compute_master_seed, Simulation, SimulationParameters};
use std::f64::consts::PI;
use std::hash::{DefaultHasher, Hash, Hasher};

fn sensor_value(phase: u32, jitter: u64) -> f64 {
    let x: f64 = 2.0 * PI * f64::from(phase) / 100.0;
    let plain_value = x.sin() * 20.0 + 100.0;
    let fraction: f64 = StepRng::new(jitter, 0).gen::<f64>();
    let jitter_value: f64 = 2.0 * 2.0 * fraction - 2.0 + plain_value;
    (jitter_value * 100.0).trunc() / 100.0
}

fn value_of(reading: Reading) -> f64 {
    match reading {
        Reading::Register(value) => value.into(),
        Reading::Wave { phase, jitter } => sensor_value(phase, jitter),
    }
}

fn message_of(point: &DataPoint) -> String {
    let now = chrono::Utc::now();
    let time = Timestamp { secs: now.timestamp(), nanos: now.timestamp_subsec_nanos() };
    message(time, &point.name, &format!("{}", value_of(point.reading))).unwrap()
}

#[test]
fn test_simulation_new() {
    let devices = 1;
    let client_id = "test".to_string();
    let parms = SimulationParameters {
        devices,
        data_points: 1,
        seed: 12345,
        wait_time: Interval::from_secs(60),
    };

    let mut simulation = Simulation::new(&client_id, &parms);
    assert_eq!(simulation.device_count(), devices);

    let mut iter = simulation.iter();
    let point = iter.next().unwrap();
    let (name, value) = (point.topic.clone(), message_of(&point));
    assert!(name.contains(&client_id));
    assert!(name.contains("0")); // The device number of the first device.
    assert!(value.contains("sensor_0")); // The name of the first data point.
    assert!(value.contains("101.79")); // The value of the first data point with seed 12345.

    assert!(iter.next().is_none());
}

fn parameters(devices: usize, data_points: usize, seed: u64) -> SimulationParameters {
    SimulationParameters { devices, data_points, seed, wait_time: Interval::from_secs(1) }
}

fn plain(points: &[DataPoint]) -> Vec<(String, String, Reading)> {
    points.iter().map(|p| (p.topic.clone(), p.name.clone(), p.reading)).collect()
}

#[test]
fn same_parameters_give_the_same_values() {
    let parms = parameters(4, 7, 77);
    let mut first = Simulation::new("rumsim-0", &parms);
    let mut second = Simulation::new("rumsim-0", &parms);
    for _ in 0..250 {
        assert_eq!(plain(&first.next_cycle()), plain(&second.next_cycle()));
    }
}

#[test]
fn the_time_between_cycles_changes_no_value() {
    let mut first = Simulation::new("rumsim-0", &parameters(3, 4, 5));
    let mut second = Simulation::new(
        "rumsim-0",
        &SimulationParameters {
            devices: 3,
            data_points: 4,
            seed: 5,
            wait_time: Interval::from_secs(3600),
        },
    );
    for _ in 0..5 {
        assert_eq!(plain(&first.next_cycle()), plain(&second.next_cycle()));
    }
}

#[test]
fn instance_and_seed_change_the_values() {
    let mut reference = Simulation::new("rumsim-0", &parameters(2, 3, 5));
    let mut other_instance = Simulation::new("rumsim-1", &parameters(2, 3, 5));
    let mut other_seed = Simulation::new("rumsim-0", &parameters(2, 3, 6));
    let values: Vec<Reading> = reference.next_cycle().iter().map(|p| p.reading).collect();
    let by_instance: Vec<Reading> = other_instance.next_cycle().iter().map(|p| p.reading).collect();
    let by_seed: Vec<Reading> = other_seed.next_cycle().iter().map(|p| p.reading).collect();
    assert_ne!(values, by_instance);
    assert_ne!(values, by_seed);
}

#[test]
fn devices_have_seeds_of_their_own() {
    let mut simulation = Simulation::new("rumsim-0", &parameters(3, 1, 5));
    let points = simulation.next_cycle();
    assert_ne!(points[0].reading, points[1].reading);
    assert_ne!(points[1].reading, points[2].reading);
}

#[test]
fn stop_when_stopped_leaves_the_pool_empty() {
    let mut simulation = Simulation::new("rumsim-0", &SimulationParameters::stopped());
    assert!(!simulation.is_running());
    assert_eq!(simulation.device_count(), 0);
    simulation.apply(&SimulationParameters::stopped());
    assert!(!simulation.is_running());
    assert_eq!(simulation.device_count(), 0);
    assert!(simulation.next_cycle().is_empty());
    simulation.apply(&parameters(0, 12, 3));
    assert_eq!(simulation.device_count(), 0);
    assert!(simulation.next_cycle().is_empty());
}

#[test]
fn stop_tears_the_pool_down() {
    let mut simulation = Simulation::new("rumsim-0", &parameters(5, 2, 3));
    assert!(simulation.is_running());
    assert_eq!(simulation.device_count(), 5);
    simulation.apply(&SimulationParameters::stopped());
    assert!(!simulation.is_running());
    assert!(simulation.next_cycle().is_empty());
    assert_eq!(simulation.parameters(), SimulationParameters::stopped());
}

#[test]
fn new_parameters_rebuild_every_device() {
    let mut running = Simulation::new("rumsim-0", &parameters(2, 3, 5));
    for _ in 0..130 {
        running.next_cycle();
    }
    let next = parameters(2, 6, 5);
    running.apply(&next);
    let mut stopped = Simulation::new("rumsim-0", &SimulationParameters::stopped());
    stopped.apply(&next);
    let mut fresh = Simulation::new("rumsim-0", &next);
    assert_eq!(running.parameters(), next);
    for _ in 0..210 {
        let points = plain(&running.next_cycle());
        assert_eq!(points.len(), 12);
        assert_eq!(points, plain(&stopped.next_cycle()));
        assert_eq!(points, plain(&fresh.next_cycle()));
    }
}

#[test]
fn one_device_three_data_points() {
    let mut simulation = Simulation::new(
        "rumsim-0",
        &SimulationParameters {
            devices: 1,
            data_points: 3,
            seed: 1,
            wait_time: Interval::from_secs(1),
        },
    );
    let first = simulation.next_cycle();
    assert_eq!(first.len(), 3);
    assert_eq!(first[0].name, "status_0");
    assert_eq!(first[1].name, "noise_0");
    assert_eq!(first[2].name, "sensor_0");
    assert!(matches!(first[0].reading, Reading::Register(_)));
    assert!(matches!(first[1].reading, Reading::Register(_)));
    assert!(matches!(first[2].reading, Reading::Wave { phase: 0, .. }));
    for point in &first {
        assert_eq!(point.topic, "s/us/rumsim-0_0");
    }

    let second = simulation.next_cycle();
    assert_eq!(second.len(), 3);
    assert_eq!(second[0].reading, first[0].reading);
    assert!(matches!(second[2].reading, Reading::Wave { phase: 1, .. }));
    assert_ne!(second[2].reading, first[2].reading);
}

#[test]
fn cycles_run_device_after_device() {
    let mut simulation = Simulation::new("sim", &parameters(3, 4, 8));
    let points = simulation.next_cycle();
    let seen: Vec<(String, String)> =
        points.iter().map(|p| (p.topic.clone(), p.name.clone())).collect();
    let mut expected = Vec::new();
    for device in 0..3 {
        for name in ["status_0", "noise_0", "sensor_0", "sensor_1"] {
            expected.push((format!("s/us/sim_{}", device), name.to_string()));
        }
    }
    assert_eq!(seen, expected);
}

#[test]
fn iterator_hands_out_one_cycle() {
    let mut simulation = Simulation::new("sim", &parameters(2, 2, 8));
    let mut twin = Simulation::new("sim", &parameters(2, 2, 8));
    let expected = plain(&twin.next_cycle());
    let mut iter = simulation.iter();
    let mut seen = Vec::new();
    while let Some(point) = iter.next() {
        seen.push(point);
    }
    assert_eq!(plain(&seen), expected);
    assert!(iter.next().is_none());
    assert!(iter.next().is_none());
    assert_eq!(plain(&simulation.next_cycle()), plain(&twin.next_cycle()));
}

fn hashed(client_id: &str, seed: u64) -> u64 {
    let mut hasher = DefaultHasher::new();
    client_id.to_string().hash(&mut hasher);
    seed.hash(&mut hasher);
    hasher.finish()
}

#[test]
fn the_master_seed_is_the_hash_of_instance_and_seed() {
    for client_id in ["", "test", "rumsim-0", "a much longer name of a simulator", "gr\u{fc}n \u{1f600}"] {
        for seed in [0, 1, 12345, 0x0102_0304_0506_0708, u64::MAX] {
            assert_eq!(compute_master_seed(client_id, seed), hashed(client_id, seed));
        }
    }
    assert_ne!(compute_master_seed("ab", 1), compute_master_seed("a", 1));
    assert_ne!(compute_master_seed("a", 1), compute_master_seed("a", 2));
}

#[test]
fn device_seeds_are_drawn_from_the_master_stream() {
    let mut master = StdRng::seed_from_u64(hashed("plant-7", 42));
    let mut simulation = Simulation::new("plant-7", &parameters(5, 2, 42));
    let points = simulation.next_cycle();
    assert_eq!(points.len(), 10);
    for device in 0..5 {
        let seed: u64 = master.gen();
        let mut stream = StdRng::seed_from_u64(seed);
        let jitter: u64 = stream.gen();
        assert_eq!(points[2 * device].reading, Reading::Wave { phase: 0, jitter });
        let jitter: u64 = stream.gen();
        assert_eq!(points[2 * device + 1].reading, Reading::Wave { phase: 0, jitter });
    }
}
