//! The sequence of rounds: a write phase, then a read phase, a fixed number of
//! times, ending at the first failure.

use crate::retry::Fatal;
use vstd::prelude::*;

verus! {

/// The number of rounds of a run.
pub const ROUNDS: u32 = 14;

/// The number of read tasks of a read phase.
pub const READ_TASKS: u64 = 9999;

/// The two phases of a round.
#[derive(Debug, Clone, Copy, PartialEq, Eq, Structural)]
pub enum Stage {
    Write,
    Read,
}

/// What the run does next.
#[derive(Debug, Clone)]
pub enum Command {
    /// Run this phase of this round (rounds count from 0) and time it.
    Run { round: u32, stage: Stage },
    /// Every round is over.
    Stop,
    /// A phase failed: end the run with this failure.
    Halt(Fatal),
}

/// The command that opens a run of `rounds` rounds.
pub open spec fn first(rounds: u32) -> Command {
    if rounds > 0 {
        Command::Run { round: 0, stage: Stage::Write }
    } else {
        Command::Stop
    }
}

/// The command that follows the phase `stage` of round `round`, which ended
/// with `result`.
pub open spec fn next(rounds: u32, round: u32, stage: Stage, result: Result<(), Fatal>) -> Command {
    match result {
        Err(fatal) => Command::Halt(fatal),
        Ok(_) => match stage {
            Stage::Write => Command::Run { round, stage: Stage::Read },
            Stage::Read => if round + 1 < rounds {
                Command::Run { round: (round + 1) as u32, stage: Stage::Write }
            } else {
                Command::Stop
            },
        },
    }
}

/// The command that opens a run of `rounds` rounds: the write phase of the
/// first round, if there is one.
pub fn first_command(rounds: u32) -> (command: Command)
    ensures
        command == first(rounds),
{
    if rounds > 0 {
        Command::Run { round: 0, stage: Stage::Write }
    } else {
        Command::Stop
    }
}

/// The command that follows a phase. A failed phase halts the run. After a
/// write phase comes the read phase of the same round; after a read phase the
/// write phase of the next round, or the end of the run.
pub fn next_command(rounds: u32, round: u32, stage: Stage, result: Result<(), Fatal>) -> (command:
    Command)
    ensures
        command == next(rounds, round, stage, result),
{
    match result {
        Err(fatal) => Command::Halt(fatal),
        Ok(_) => match stage {
            Stage::Write => Command::Run { round, stage: Stage::Read },
            Stage::Read => {
                if rounds > 0 && round < rounds - 1 {
                    Command::Run { round: round + 1, stage: Stage::Write }
                } else {
                    Command::Stop
                }
            },
        },
    }
}

/// The command in force when `phases` phases have ended well: phase `2 r` is
/// the write phase of round `r`, phase `2 r + 1` its read phase.
pub open spec fn scheduled(rounds: u32, phases: nat) -> Command {
    if phases < 2 * rounds {
        Command::Run {
            round: (phases / 2) as u32,
            stage: if phases % 2 == 0 {
                Stage::Write
            } else {
                Stage::Read
            },
        }
    } else {
        Command::Stop
    }
}

/// A run opens with the first scheduled phase.
pub proof fn lemma_first_is_scheduled(rounds: u32)
    ensures
        first(rounds) == scheduled(rounds, 0),
{
}

/// While no phase fails, the commands follow the schedule: every round runs
/// its write phase and then its read phase, a read phase is commanded only
/// once the write phase of its round has ended well, and the run stops after
/// twice as many phases as there are rounds.
pub proof fn lemma_next_is_scheduled(rounds: u32, phases: nat)
    requires
        phases < 2 * rounds,
    ensures
        scheduled(rounds, phases) matches Command::Run { round, stage } && next(
            rounds,
            round,
            stage,
            Ok(()),
        ) == scheduled(rounds, phases + 1),
{
}

/// A failed phase halts the run at once, wherever it stands.
pub proof fn lemma_failure_halts_run(rounds: u32, round: u32, stage: Stage, fatal: Fatal)
    ensures
        next(rounds, round, stage, Err(fatal)) == Command::Halt(fatal),
{
}

} // verus!
