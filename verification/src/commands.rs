//! The commands that control a simulation at run time, and their grammar.
//!
//! A command is a line of words separated by whitespace:
//!
//! * `start <devices> <data points> <seconds between cycles> [seed]`
//! * `stop`

use crate::interval::Interval;
use crate::simulation::{SimulationParameters, DEFAULT_SEED};
use crate::text::{characters, parse_unsigned, same_text, split_words, unsigned_value, words};
use vstd::prelude::*;

verus! {

/// A command.
#[derive(Clone, Copy, Debug, PartialEq, Eq, Structural)]
pub enum Command {
    /// Start the simulation with these parameters, in place of the one that
    /// may be running.
    Start(SimulationParameters),
    /// Stop the simulation.
    Stop,
}

/// Why a text is no command.
#[derive(Clone, Copy, Debug, PartialEq, Eq, Structural)]
pub enum CommandErr {
    /// The text holds no word.
    EmptyCommand,
    /// The command has too few or too many arguments, or one of them is not
    /// a number that fits.
    InvalidArguments,
    /// The first word names no command.
    UnknownCommand,
}

/// The largest number of seconds that a command can name.
pub const MAX_WAIT_SECS: u64 = 0xFFFF;

/// The `start` command that `parts` spell, `parts[0]` being the word `start`.
/// There are three or four arguments, all unsigned decimal numerals: the
/// number of devices and the number of data points, up to `usize::MAX`; the
/// seconds between cycles, up to `MAX_WAIT_SECS`; and the seed, any 64-bit
/// number, `DEFAULT_SEED` where it is left out.
pub open spec fn start_command(parts: Seq<Seq<char>>) -> Result<Command, CommandErr> {
    if parts.len() != 4 && parts.len() != 5 {
        Err(CommandErr::InvalidArguments)
    } else {
        let devices = unsigned_value(parts[1], usize::MAX as nat);
        let data_points = unsigned_value(parts[2], usize::MAX as nat);
        let wait_secs = unsigned_value(parts[3], MAX_WAIT_SECS as nat);
        let seed = if parts.len() == 5 {
            unsigned_value(parts[4], u64::MAX as nat)
        } else {
            Some(DEFAULT_SEED as nat)
        };
        if devices is Some && data_points is Some && wait_secs is Some && seed is Some {
            Ok(
                Command::Start(
                    SimulationParameters {
                        devices: devices->0 as usize,
                        data_points: data_points->0 as usize,
                        wait_time: Interval::from_secs(wait_secs->0 as u64),
                        seed: seed->0 as u64,
                    },
                ),
            )
        } else {
            Err(CommandErr::InvalidArguments)
        }
    }
}

/// The command that `text` spells. The first word decides: `start` takes
/// arguments, `stop` ignores whatever follows it, any other word is unknown.
pub open spec fn command_of(text: Seq<char>) -> Result<Command, CommandErr> {
    let parts = words(text);
    if parts.len() == 0 {
        Err(CommandErr::EmptyCommand)
    } else if parts[0] == "start"@ {
        start_command(parts)
    } else if parts[0] == "stop"@ {
        Ok(Command::Stop)
    } else {
        Err(CommandErr::UnknownCommand)
    }
}

/// Reads the `start` command whose words are `parts`.
pub fn parse_start(parts: &Vec<Vec<char>>) -> (result: Result<Command, CommandErr>)
    ensures
        result == start_command(crate::text::word_views(parts@)),
{
    if parts.len() != 4 && parts.len() != 5 {
        return Err(CommandErr::InvalidArguments);
    }
    let devices = match parse_unsigned(&parts[1], usize::MAX as u64) {
        Some(n) => n as usize,
        None => {
            return Err(CommandErr::InvalidArguments);
        },
    };
    let data_points = match parse_unsigned(&parts[2], usize::MAX as u64) {
        Some(n) => n as usize,
        None => {
            return Err(CommandErr::InvalidArguments);
        },
    };
    let wait_time_secs = match parse_unsigned(&parts[3], MAX_WAIT_SECS) {
        Some(n) => n,
        None => {
            return Err(CommandErr::InvalidArguments);
        },
    };
    let seed: u64 = if parts.len() == 5 {
        match parse_unsigned(&parts[4], u64::MAX) {
            Some(n) => n,
            None => {
                return Err(CommandErr::InvalidArguments);
            },
        }
    } else {
        DEFAULT_SEED
    };
    Ok(
        Command::Start(
            SimulationParameters {
                devices,
                data_points,
                wait_time: Interval::from_secs(wait_time_secs),
                seed,
            },
        ),
    )
}

/// Reads a command.
pub fn parse(command_str: &String) -> (result: Result<Command, CommandErr>)
    ensures
        result == command_of(command_str@),
{
    let text = characters(command_str.as_str());
    let parts = split_words(&text);
    if parts.len() == 0 {
        return Err(CommandErr::EmptyCommand);
    }
    if same_text(&parts[0], "start") {
        parse_start(&parts)
    } else if same_text(&parts[0], "stop") {
        Ok(Command::Stop)
    } else {
        Err(CommandErr::UnknownCommand)
    }
}

impl Command {
    /// The parameters that the command asks for: those it holds, and for
    /// `Stop` those that stop a simulation.
    pub open spec fn spec_parameters(self) -> SimulationParameters {
        match self {
            Command::Start(parameters) => parameters,
            Command::Stop => SimulationParameters::stopped(),
        }
    }

    /// The parameters that the command asks for.
    #[verifier::when_used_as_spec(spec_parameters)]
    pub fn parameters(self) -> (parameters: SimulationParameters)
        ensures
            parameters == self.spec_parameters(),
    {
        match self {
            Command::Start(parameters) => parameters,
            Command::Stop => SimulationParameters::stopped(),
        }
    }
}

} // verus!
