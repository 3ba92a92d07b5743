use rumsim::commands::{parse, Command, CommandErr};
use rumsim::interval::Interval;
use rumsim::simulation::SimulationParameters;

#[test]
fn stop_command() {
    let command = &"stop".to_string();
    let reference = Ok(Command::Stop);
    assert_eq!(reference, parse(command));
}

#[test]
fn start_command() {
    {
        let command = "start 10 20 30".to_string();
        let reference = Ok(Command::Start(SimulationParameters {
            devices: 10,
            data_points: 20,
            wait_time: Interval::from_secs(30),
            seed: 1,
        }));
        assert_eq!(reference, parse(&command));
    }
    {
        let command = "start".to_string();
        let reference = Err(CommandErr::InvalidArguments);
        assert_eq!(reference, parse(&command));
    }
    {
        let command = "start 10".to_string();
        let reference = Err(CommandErr::InvalidArguments);
        assert_eq!(reference, parse(&command));
    }
    {
        let command = "start foo".to_string();
        let reference = Err(CommandErr::InvalidArguments);
        assert_eq!(reference, parse(&command));
    }
}

#[test]
fn no_command() {
    let command = "".to_string();
    let reference = Err(CommandErr::EmptyCommand);
    assert_eq!(reference, parse(&command));
}

#[test]
fn not_implemented_command() {
    let command = "foo 100!".to_string();
    let reference = Err(CommandErr::UnknownCommand);
    assert_eq!(reference, parse(&command));
}

fn started(devices: usize, data_points: usize, secs: u64, seed: u64) -> Result<Command, CommandErr> {
    Ok(Command::Start(SimulationParameters {
        devices,
        data_points,
        wait_time: Interval::from_secs(secs),
        seed,
    }))
}

#[test]
fn start_command_with_seed() {
    assert_eq!(parse(&"start 1 2 3 4".to_string()), started(1, 2, 3, 4));
    assert_eq!(parse(&"start 0 0 0 0".to_string()), started(0, 0, 0, 0));
    assert_eq!(
        parse(&"start 1 2 3 18446744073709551615".to_string()),
        started(1, 2, 3, u64::MAX)
    );
    assert_eq!(
        parse(&"start 1 2 3 18446744073709551616".to_string()),
        Err(CommandErr::InvalidArguments)
    );
    assert_eq!(parse(&"start 1 2 3 4 5".to_string()), Err(CommandErr::InvalidArguments));
    assert_eq!(parse(&"start 1 2 3 x".to_string()), Err(CommandErr::InvalidArguments));
}

#[test]
fn start_command_number_limits() {
    assert_eq!(parse(&"start 1 2 65535".to_string()), started(1, 2, 65535, 1));
    assert_eq!(parse(&"start 1 2 65536".to_string()), Err(CommandErr::InvalidArguments));
    assert_eq!(
        parse(&format!("start {} {} 1", usize::MAX, usize::MAX)),
        started(usize::MAX, usize::MAX, 1, 1)
    );
    assert_eq!(
        parse(&"start 99999999999999999999999999 1 1".to_string()),
        Err(CommandErr::InvalidArguments)
    );
    assert_eq!(parse(&"start 007 +8 0009".to_string()), started(7, 8, 9, 1));
}

#[test]
fn start_command_refuses_what_is_no_numeral() {
    for text in [
        "start -1 2 3",
        "start 1 -2 3",
        "start 1 2 -3",
        "start 1.0 2 3",
        "start 1 2 3s",
        "start + 2 3",
        "start ++1 2 3",
        "start 1 2 3 -4",
        "start 0x10 2 3",
        "start \u{661} 2 3",
    ] {
        assert_eq!(parse(&text.to_string()), Err(CommandErr::InvalidArguments), "{}", text);
    }
}

#[test]
fn commands_are_split_at_any_whitespace() {
    assert_eq!(parse(&"  start\t10\n20 \r 30  ".to_string()), started(10, 20, 30, 1));
    assert_eq!(parse(&"start\u{a0}1\u{2003}2\u{3000}3".to_string()), started(1, 2, 3, 1));
    assert_eq!(parse(&"\u{85}stop\u{2028}".to_string()), Ok(Command::Stop));
    assert_eq!(parse(&" \t\n ".to_string()), Err(CommandErr::EmptyCommand));
    // A zero-width space is no whitespace.
    assert_eq!(parse(&"stop\u{200b}".to_string()), Err(CommandErr::UnknownCommand));
}

#[test]
fn stop_ignores_what_follows() {
    assert_eq!(parse(&"stop now please".to_string()), Ok(Command::Stop));
    assert_eq!(parse(&"stop 1 2 3".to_string()), Ok(Command::Stop));
}

#[test]
fn unknown_commands() {
    for text in ["Start 1 2 3", "STOP", "starts 1 2 3", "sto", "stopp", "10 20 30", "start1 2 3"] {
        assert_eq!(parse(&text.to_string()), Err(CommandErr::UnknownCommand), "{}", text);
    }
}

#[test]
fn parse_agrees_with_the_standard_library() {
    let texts = [
        "start 10 20 30",
        "start 10 20 30 40",
        " start  1   2    3 ",
        "start 1 2",
        "start a 2 3",
        "start 1 2 70000",
        "start +1 +2 +3 +4",
        "start 1 2 3 99999999999999999999",
        "stop",
        "stop it",
        "",
        "halt",
    ];
    for text in texts {
        let parts: Vec<&str> = text.split_whitespace().collect();
        let expected = if parts.is_empty() {
            Err(CommandErr::EmptyCommand)
        } else if parts[0] == "stop" {
            Ok(Command::Stop)
        } else if parts[0] != "start" {
            Err(CommandErr::UnknownCommand)
        } else if parts.len() != 4 && parts.len() != 5 {
            Err(CommandErr::InvalidArguments)
        } else {
            let devices = parts[1].parse::<usize>();
            let data_points = parts[2].parse::<usize>();
            let secs = parts[3].parse::<u16>();
            let seed = if parts.len() == 5 { parts[4].parse::<u64>() } else { Ok(1) };
            match (devices, data_points, secs, seed) {
                (Ok(devices), Ok(data_points), Ok(secs), Ok(seed)) => {
                    started(devices, data_points, secs.into(), seed)
                }
                _ => Err(CommandErr::InvalidArguments),
            }
        };
        assert_eq!(parse(&text.to_string()), expected, "{}", text);
    }
}

#[test]
fn parameters_of_commands() {
    let parameters = SimulationParameters {
        devices: 3,
        data_points: 4,
        wait_time: Interval::from_secs(5),
        seed: 6,
    };
    assert_eq!(Command::Start(parameters).parameters(), parameters);
    assert_eq!(Command::Stop.parameters(), SimulationParameters::stopped());
    assert_eq!(
        SimulationParameters::stopped(),
        SimulationParameters { devices: 0, data_points: 0, wait_time: Interval::zero(), seed: 1 }
    );
    assert_eq!(parse(&"start 0 0 0".to_string()).unwrap().parameters(), Command::Stop.parameters());
}
