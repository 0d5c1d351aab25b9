use graph_bench::driver::first_command;
use graph_bench::driver::next_command;
use graph_bench::driver::Command;
use graph_bench::driver::Stage;
use graph_bench::driver::READ_TASKS;
use graph_bench::driver::ROUNDS;
use graph_bench::error::ErrorClass;
use graph_bench::error::StoreError;
use graph_bench::retry::Fatal;

fn fatal(text: &str) -> Fatal {
    Fatal { error: StoreError::Protocol(text.to_string()), class: ErrorClass::Query, retries: 0 }
}

#[test]
fn run_constants() {
    assert_eq!(ROUNDS, 14);
    assert_eq!(READ_TASKS, 9999);
}

#[test]
fn a_run_opens_with_the_first_write_phase() {
    assert!(matches!(first_command(14), Command::Run { round: 0, stage: Stage::Write }));
    assert!(matches!(first_command(1), Command::Run { round: 0, stage: Stage::Write }));
}

#[test]
fn a_run_of_no_rounds_stops_at_once() {
    assert!(matches!(first_command(0), Command::Stop));
}

#[test]
fn read_follows_write_in_the_same_round() {
    for round in 0..14u32 {
        match next_command(14, round, Stage::Write, Ok(())) {
            Command::Run { round: r, stage } => {
                assert_eq!(r, round);
                assert_eq!(stage, Stage::Read);
            },
            other => panic!("expected a read phase, got {:?}", other),
        }
    }
}

#[test]
fn write_of_the_next_round_follows_read() {
    for round in 0..13u32 {
        match next_command(14, round, Stage::Read, Ok(())) {
            Command::Run { round: r, stage } => {
                assert_eq!(r, round + 1);
                assert_eq!(stage, Stage::Write);
            },
            other => panic!("expected a write phase, got {:?}", other),
        }
    }
}

#[test]
fn the_run_stops_after_the_last_read() {
    assert!(matches!(next_command(14, 13, Stage::Read, Ok(())), Command::Stop));
    assert!(matches!(next_command(1, 0, Stage::Read, Ok(())), Command::Stop));
    assert!(matches!(next_command(0, 0, Stage::Read, Ok(())), Command::Stop));
    assert!(matches!(next_command(u32::MAX, u32::MAX, Stage::Read, Ok(())), Command::Stop));
}

#[test]
fn a_failed_phase_halts_the_run() {
    match next_command(14, 3, Stage::Write, Err(fatal("w"))) {
        Command::Halt(f) => assert_eq!(f.error.message(), "w"),
        other => panic!("expected halt, got {:?}", other),
    }
    match next_command(14, 3, Stage::Read, Err(fatal("r"))) {
        Command::Halt(f) => assert_eq!(f.error.message(), "r"),
        other => panic!("expected halt, got {:?}", other),
    }
    assert!(matches!(next_command(14, 13, Stage::Read, Err(fatal("x"))), Command::Halt(_)));
}

#[test]
fn fourteen_rounds_are_twenty_eight_phases() {
    let mut command = first_command(ROUNDS);
    let mut phases: Vec<(u32, Stage)> = Vec::new();
    loop {
        match command {
            Command::Run { round, stage } => {
                phases.push((round, stage));
                command = next_command(ROUNDS, round, stage, Ok(()));
            },
            Command::Stop => break,
            Command::Halt(f) => panic!("unexpected halt {:?}", f),
        }
    }
    assert_eq!(phases.len(), 28);
    for (i, (round, stage)) in phases.iter().enumerate() {
        assert_eq!(*round as usize, i / 2);
        assert_eq!(*stage, if i % 2 == 0 { Stage::Write } else { Stage::Read });
    }
}
