use zallet_core::error::{CommandError, ErrorKind, Message};
use zallet_core::check_witnesses::{
    check_witnesses, ranges_found, ranges_queued, report, HeightRange, RescanStep, ScanPriority,
};

fn range(start: u32, end: u32) -> HeightRange {
    HeightRange { start: start.into(), end: end.into() }
}

#[test]
fn ranges_are_printed_one_to_a_line() {
    assert_eq!(
        report(&vec![range(2999500, 2999750), range(3000100, 3000200)]),
        vec!["2999500..2999750", "3000100..3000200"]
    );
    assert!(report(&vec![]).is_empty());
    assert_eq!(range(0, u32::MAX).text(), "0..4294967295");
}

#[test]
fn the_wallet_is_modified_only_on_request() {
    let ranges = vec![range(1, 2), range(5, 9)];
    let RescanStep::Report(line) = check_witnesses(ranges.clone(), false) else {
        panic!("nothing was asked to be queued");
    };
    assert_eq!(
        line,
        "2 range(s) need rescanning; re-run with --queue-rescan to queue them"
    );
    let step = check_witnesses(ranges.clone(), true);
    let RescanStep::Queue { ranges: queued, priority, log_line } = step else {
        panic!("the ranges are to be queued");
    };
    assert_eq!(Vec::from(queued), ranges);
    assert_eq!(priority, ScanPriority::Verify);
    assert_eq!(log_line, "Queued 2 range(s) to be rescanned on the next sync");
}

#[test]
fn without_ranges_there_is_nothing_to_do() {
    for queue_rescan in [false, true] {
        let RescanStep::Report(line) = check_witnesses(vec![], queue_rescan) else {
            panic!("there is nothing to queue");
        };
        assert_eq!(line, "Every spendable note has a witness; nothing to rescan");
    }
}

#[test]
fn failed_calls_end_the_command() {
    let failed = CommandError { kind: ErrorKind::Generic, message: Message::text("disk full") };
    assert_eq!(ranges_found(Ok(vec![range(1, 2)])), Ok(vec![range(1, 2)]));
    assert_eq!(ranges_found(Err("disk full".to_string())), Err(failed.clone()));
    assert_eq!(ranges_queued("queued".to_string(), Ok(())), Ok("queued".to_string()));
    assert_eq!(
        ranges_queued("queued".to_string(), Err("disk full".to_string())),
        Err(failed)
    );
}
