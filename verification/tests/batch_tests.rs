use picsumrs::batch::{BatchState, DownloadOutcome};
use picsumrs::config::{DownloadConfig, FilenameConfig, ImageDimensions, ImageEffects};
use picsumrs::error::Error;

fn config(count: u32, concurrent_limit: usize) -> DownloadConfig {
    DownloadConfig {
        count,
        dimensions: ImageDimensions { width: 800, height: 600 },
        output_dir: String::from("downloads"),
        effects: ImageEffects { grayscale: false, blur: None, quality: None },
        concurrent_limit,
        filename_config: FilenameConfig {
            prefix: String::from("picsum"),
            format: String::from("jpg"),
        },
    }
}

#[test]
fn a_full_batch_completes_every_unit() {
    let cfg = config(5, 2);
    let mut state = BatchState::new(&cfg);
    let mut max_in_flight = 0u32;
    // Drive the batch: admit units while admission capacity remains, then finish
    // the oldest in-flight unit.
    let mut finished = 0u32;
    while !state.is_done() {
        if state.can_start() {
            state.start_unit();
        } else {
            state.finish_unit(DownloadOutcome::Success(1000 + finished as u64));
            finished += 1;
        }
        if state.in_flight > max_in_flight {
            max_in_flight = state.in_flight;
        }
    }
    assert_eq!(state.started, 5);
    assert_eq!(state.completed, 5);
    assert_eq!(max_in_flight, 2);
    let result = state.result();
    assert_eq!(result.success_count, 5);
    assert_eq!(result.total_bytes, 1000 + 1001 + 1002 + 1003 + 1004);
}

#[test]
fn the_gate_never_admits_more_than_the_limit() {
    let cfg = config(50, 7);
    let mut state = BatchState::new(&cfg);
    while !state.is_done() {
        if state.can_start() {
            state.start_unit();
            assert!(state.in_flight as usize <= state.limit);
        } else {
            state.finish_unit(DownloadOutcome::Success(1));
        }
    }
    assert_eq!(state.result().success_count, 50);
}

#[test]
fn one_failure_leaves_the_other_units_accounted() {
    let cfg = config(4, 3);
    let mut state = BatchState::new(&cfg);
    let outcomes = [
        DownloadOutcome::Success(10),
        DownloadOutcome::Failure(Error::Api(String::from("Failed to download image: HTTP 500"))),
        DownloadOutcome::Success(20),
        DownloadOutcome::Success(30),
    ];
    for outcome in outcomes {
        assert!(state.can_start());
        state.start_unit();
        state.finish_unit(outcome);
    }
    assert!(state.is_done());
    assert_eq!(state.completed, 4);
    let result = state.result();
    assert_eq!(result.success_count, 3);
    assert_eq!(result.total_bytes, 60);
}

#[test]
fn success_count_never_exceeds_count() {
    let cfg = config(3, 1);
    let mut state = BatchState::new(&cfg);
    for _ in 0..3 {
        state.start_unit();
        state.finish_unit(DownloadOutcome::Success(u64::MAX / 4));
    }
    let result = state.result();
    assert!(result.success_count <= cfg.count);
    assert_eq!(result.success_count, 3);
}

#[test]
fn an_all_failure_batch_still_finishes() {
    let cfg = config(2, 2);
    let mut state = BatchState::new(&cfg);
    state.start_unit();
    state.start_unit();
    assert!(!state.can_start());
    state.finish_unit(DownloadOutcome::Failure(Error::Network(String::from("timed out"))));
    state.finish_unit(DownloadOutcome::Failure(Error::Io(String::from("disk full"))));
    assert!(state.is_done());
    let result = state.result();
    assert_eq!(result.success_count, 0);
    assert_eq!(result.total_bytes, 0);
}
