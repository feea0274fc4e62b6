use rclone_transfer::dispatch::{
    dispatch, prepare, schedule_failure, TransferOp, TransferRequest,
};
use rclone_transfer::runner::{RunnerEvent, RunnerPhase};

fn request(op: TransferOp, flags: &[&str]) -> TransferRequest {
    TransferRequest {
        op,
        source: "remoteA:/docs".to_string(),
        destination: "remoteB:/backup".to_string(),
        flags: flags.iter().map(|f| f.to_string()).collect(),
    }
}

#[test]
fn names_of_the_operations() {
    assert_eq!(TransferOp::Sync.name(), "sync");
    assert_eq!(TransferOp::Copy.name(), "copy");
    assert_eq!(TransferOp::Move.name(), "move");
    assert_eq!(TransferOp::Check.name(), "check");
}

#[test]
fn prepared_transfer_has_the_identifier_the_arguments_and_a_runner() {
    let transfer = prepare(&request(TransferOp::Copy, &[]), "my-id");
    assert_eq!(transfer.id, "my-id");
    assert_eq!(
        transfer.args,
        [
            "copy",
            "remoteA:/docs",
            "remoteB:/backup",
            "--use-json-log",
            "--stats",
            "1s",
            "--stats-log-level",
            "NOTICE",
            "--log-format",
            "json",
        ]
    );
    assert_eq!(transfer.runner.id(), "my-id");
    assert_eq!(transfer.runner.phase(), RunnerPhase::Ready);
}

#[test]
fn prepared_transfer_passes_the_flags_on() {
    let transfer = prepare(&request(TransferOp::Move, &["--dry-run", "-v"]), "x");
    assert_eq!(transfer.args[0], "move");
    assert_eq!(&transfer.args[10..], ["--dry-run", "-v"]);
}

#[test]
fn runner_of_a_prepared_transfer_echoes_the_request() {
    let mut transfer = prepare(&request(TransferOp::Check, &[]), "echo");
    transfer.runner.step(RunnerEvent::Spawned { pid: 1, log_open: true });
    transfer.runner.step(RunnerEvent::EndOfStream);
    let step = transfer.runner.step(RunnerEvent::Exited { success: false });
    let event = step.emit.unwrap();
    assert_eq!(event.id, "echo");
    assert_eq!(event.op, "check");
    assert_eq!(event.source, "remoteA:/docs");
    assert_eq!(event.destination, "remoteB:/backup");
    assert_eq!(step.outcome, Some(Err("rclone check exited with non-zero status".to_string())));
}

#[test]
fn dispatched_transfer_gets_an_identifier_of_the_hyphenated_form() {
    let transfer = dispatch(&request(TransferOp::Sync, &["--fast-list"]));
    let id: Vec<char> = transfer.id.chars().collect();
    assert_eq!(id.len(), 36);
    for (i, c) in id.iter().enumerate() {
        if i == 8 || i == 13 || i == 18 || i == 23 {
            assert_eq!(*c, '-');
        } else {
            assert!(matches!(*c, '0'..='9' | 'a'..='f'), "{:?} at {}", c, i);
        }
    }
    assert_eq!(transfer.runner.id(), transfer.id);
    assert_eq!(transfer.runner.phase(), RunnerPhase::Ready);
    assert_eq!(transfer.args[0], "sync");
    assert_eq!(transfer.args.last().map(|s| s.as_str()), Some("--fast-list"));
}

#[test]
fn dispatched_transfers_get_identifiers_of_their_own() {
    let one = dispatch(&request(TransferOp::Copy, &[]));
    let two = dispatch(&request(TransferOp::Copy, &[]));
    let three = dispatch(&request(TransferOp::Copy, &[]));
    assert_ne!(one.id, two.id);
    assert_ne!(two.id, three.id);
    assert_ne!(one.id, three.id);
}

#[test]
fn failure_to_schedule_is_an_error_of_its_own() {
    assert_eq!(schedule_failure("task 7 panicked"), "Task join error: task 7 panicked");
    assert_eq!(schedule_failure(""), "Task join error: ");
}
