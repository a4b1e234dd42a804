use para_cli::error::{ParaError, TransferFailure};
use para_cli::transfer::{
    batch_total, percent_of, Stage, TransitReply, TransferAction, TransferKind, TransferOptions, TransferPlan, TransferRun,
};

fn plan(sources: &[&str], create_destination: bool) -> TransferPlan {
    TransferPlan {
        kind: TransferKind::Archive,
        options: TransferOptions {
            overwrite: false,
            skip_exist: false,
            buffer_size: 64000,
            copy_inside: false,
            content_only: false,
            depth: 0,
        },
        destination: "/r/Archives".to_string(),
        create_destination,
        sources: sources.iter().map(|s| s.to_string()).collect(),
    }
}

fn transfer_of(action: TransferAction) -> (usize, String, String) {
    match action {
        TransferAction::Transfer { index, source, destination } => (index, source, destination),
        other => panic!("unexpected: {:?}", other),
    }
}

#[test]
fn percent_exact_values() {
    assert_eq!(percent_of(0, 200), 0);
    assert_eq!(percent_of(1, 200), 0);
    assert_eq!(percent_of(2, 200), 1);
    assert_eq!(percent_of(50, 200), 25);
    assert_eq!(percent_of(199, 200), 99);
    assert_eq!(percent_of(200, 200), 100);
    assert_eq!(percent_of(1, 3), 33);
    assert_eq!(percent_of(2, 3), 66);
}

#[test]
fn percent_edges() {
    assert_eq!(percent_of(0, 0), 100);
    assert_eq!(percent_of(7, 0), 100);
    assert_eq!(percent_of(300, 200), 100);
    assert_eq!(percent_of(u64::MAX - 1, u64::MAX), 99);
    assert_eq!(percent_of(u64::MAX / 2, u64::MAX), 49);
    assert_eq!(percent_of(u64::MAX, u64::MAX), 100);
}

#[test]
fn percent_never_falls() {
    let total = 977;
    let mut last = 0;
    for copied in 0..=total + 5 {
        let now = percent_of(copied, total);
        assert!(last <= now && now <= 100);
        last = now;
    }
    assert_eq!(last, 100);
}

#[test]
fn run_without_sources_ends_at_once() {
    let (run, action) = TransferRun::start(plan(&[], false), 0);
    assert!(matches!(action, TransferAction::Finish(Ok(()))));
    assert_eq!(run.stage, Stage::Ended);
}

#[test]
fn run_takes_the_sources_in_order() {
    let (mut run, action) = TransferRun::start(plan(&["/b", "/a", "/c"], false), 30);
    assert_eq!(transfer_of(action), (0, "/b".to_string(), "/r/Archives".to_string()));
    let action = run.item_done(Ok(10));
    assert_eq!(transfer_of(action), (1, "/a".to_string(), "/r/Archives".to_string()));
    let action = run.item_done(Ok(10));
    assert_eq!(transfer_of(action), (2, "/c".to_string(), "/r/Archives".to_string()));
    let action = run.item_done(Ok(10));
    assert!(matches!(action, TransferAction::Finish(Ok(()))));
    assert_eq!(run.next, 3);
    assert_eq!(run.done_bytes, 30);
    assert_eq!(run.stage, Stage::Ended);
}

#[test]
fn run_creates_the_destination_first() {
    let (mut run, action) = TransferRun::start(plan(&["/a"], true), 1);
    match action {
        TransferAction::CreateDestination { path } => assert_eq!(path, "/r/Archives"),
        other => panic!("unexpected: {:?}", other),
    }
    assert_eq!(run.stage, Stage::Preparing);
    let action = run.destination_created(Ok(()));
    assert_eq!(transfer_of(action).0, 0);
}

#[test]
fn run_ends_when_the_destination_cannot_be_created() {
    let (mut run, _) = TransferRun::start(plan(&["/a"], true), 1);
    match run.destination_created(Err("read-only".to_string())) {
        TransferAction::Finish(Err(ParaError::Io { path, cause })) => {
            assert_eq!(path, "/r/Archives");
            assert_eq!(cause, "read-only");
        }
        other => panic!("unexpected: {:?}", other),
    }
    assert_eq!(run.next, 0);
    assert_eq!(run.stage, Stage::Ended);
}

#[test]
fn progress_is_that_of_the_whole_batch() {
    let (mut run, _) = TransferRun::start(plan(&["/a", "/b"], false), 200);
    assert_eq!(run.progress(0), Some(0));
    assert_eq!(run.progress(50), Some(25));
    assert_eq!(run.progress(100), Some(50));
    run.item_done(Ok(100));
    assert_eq!(run.progress(0), Some(50));
    assert_eq!(run.progress(30), Some(65));
    assert_eq!(run.progress(100), Some(100));
    assert_eq!(run.percent, 100);
}

#[test]
fn progress_never_goes_back() {
    let (mut run, _) = TransferRun::start(plan(&["/a"], false), 100);
    assert_eq!(run.progress(60), Some(60));
    assert_eq!(run.progress(10), Some(60));
    assert_eq!(run.progress(61), Some(61));
    assert_eq!(run.progress(u64::MAX), Some(100));
    assert_eq!(run.progress(0), Some(100));
}

#[test]
fn abort_stops_before_the_next_source() {
    let (mut run, _) = TransferRun::start(plan(&["/a", "/b", "/c"], false), 3);
    run.progress(1);
    run.abort();
    let action = run.item_done(Ok(1));
    assert!(matches!(
        action,
        TransferAction::Finish(Err(ParaError::Transfer(TransferFailure::Aborted)))
    ));
    assert_eq!(run.next, 1);
    assert_eq!(run.stage, Stage::Ended);
}

#[test]
fn failure_ends_the_run_with_that_error() {
    let (mut run, _) = TransferRun::start(plan(&["/a", "/b", "/c"], false), 3);
    run.item_done(Ok(1));
    let action = run.item_done(Err(ParaError::Transfer(TransferFailure::NameCollision)));
    assert!(matches!(
        action,
        TransferAction::Finish(Err(ParaError::Transfer(TransferFailure::NameCollision)))
    ));
    assert_eq!(run.next, 1);
    assert_eq!(run.done_bytes, 1);
    assert_eq!(run.stage, Stage::Ended);
}

#[test]
fn byte_count_stops_at_the_largest_value() {
    let (mut run, _) = TransferRun::start(plan(&["/a", "/b"], false), u64::MAX);
    run.item_done(Ok(u64::MAX - 1));
    assert_eq!(run.progress(5), Some(100));
    run.item_done(Ok(5));
    assert_eq!(run.done_bytes, u64::MAX);
}

#[test]
fn well_formed_runs() {
    let (mut run, _) = TransferRun::start(plan(&["/a"], false), 1);
    assert!(run.is_wf());
    run.percent = 101;
    assert!(!run.is_wf());
    run.percent = 100;
    run.next = 1;
    assert!(!run.is_wf());
    run.stage = Stage::Ended;
    assert!(run.is_wf());
    run.next = 2;
    assert!(!run.is_wf());
}

#[test]
fn nothing_is_reported_after_the_end() {
    let (mut run, _) = TransferRun::start(plan(&["/a"], false), 10);
    assert_eq!(run.progress(5), Some(50));
    run.item_done(Ok(10));
    assert_eq!(run.stage, Stage::Ended);
    assert_eq!(run.progress(10), None);
    assert_eq!(run.percent, 50);
}

#[test]
fn reply_follows_the_sink() {
    let (mut run, _) = TransferRun::start(plan(&["/a", "/b"], false), 10);
    assert_eq!(run.reply(), TransitReply::ContinueOrAbort);
    run.abort();
    assert_eq!(run.reply(), TransitReply::Abort);
    assert!(run.aborted);
}

#[test]
fn batch_total_sums_the_sizes() {
    assert_eq!(batch_total(&vec![]), 0);
    assert_eq!(batch_total(&vec![7]), 7);
    assert_eq!(batch_total(&vec![1, 2, 3, 4]), 10);
    assert_eq!(batch_total(&vec![u64::MAX - 1, 1]), u64::MAX);
    assert_eq!(batch_total(&vec![u64::MAX - 1, 2, 5]), u64::MAX);
    assert_eq!(batch_total(&vec![u64::MAX, u64::MAX]), u64::MAX);
}
