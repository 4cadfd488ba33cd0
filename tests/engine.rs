use rmeter::config::{Config, Operation};
use rmeter::opts::ArgsError;
use rmeter::report::Report;
use rmeter::schedule::{ramp_interval_nanos, ramp_plan};
use rmeter::stats::{Stats, NO_SAMPLE_MIN};
use rmeter::status::{classify_code, classify_status, outcome_of};
use rmeter::worker::{on_connect_failed, Action, ErrorClass, Outcome, Worker};

fn config(tasks: usize, loop_count: usize, max_retries: usize, delay_ms: u64) -> Config {
    Config {
        tasks,
        loop_count,
        ramp_seconds: 0,
        api: "cpu".to_string(),
        max_retries,
        retry_initial_delay_ms: delay_ms,
    }
}

/// Drives one worker through the given outcomes, returning the actions taken.
fn drive(w: &mut Worker, stats: &mut Stats, outcomes: &[Outcome]) -> Vec<Action> {
    let mut actions = vec![w.start()];
    for o in outcomes {
        if *actions.last().unwrap() == Action::Finish {
            break;
        }
        actions.push(w.on_outcome(*o, stats));
    }
    actions
}

#[test]
fn new_stats_are_empty() {
    let s = Stats::new();
    assert_eq!(s.total_success, 0);
    assert_eq!(s.total_failures, 0);
    assert_eq!(s.total_retries, 0);
    assert_eq!(s.total_resource_exhausted, 0);
    assert_eq!(s.total_unavailable, 0);
    assert_eq!(s.total_errors, 0);
    assert_eq!(s.total_response_time, 0);
    assert_eq!(s.max_response_time, 0);
    assert_eq!(s.min_response_time, u128::MAX);
    assert_eq!(NO_SAMPLE_MIN, u128::MAX);
}

#[test]
fn update_tracks_sum_and_extremes() {
    let mut s = Stats::new();
    s.update(30, 2);
    s.update(10, 0);
    s.update(20, 1);
    assert_eq!(s.total_success, 3);
    assert_eq!(s.total_retries, 3);
    assert_eq!(s.total_response_time, 60);
    assert_eq!(s.max_response_time, 30);
    assert_eq!(s.min_response_time, 10);
}

#[test]
fn record_counters_are_independent() {
    let mut s = Stats::new();
    s.record_failure();
    s.record_resource_exhausted();
    s.record_resource_exhausted();
    s.record_unavailable();
    s.record_error();
    s.record_retry();
    assert_eq!(s.total_failures, 1);
    assert_eq!(s.total_resource_exhausted, 2);
    assert_eq!(s.total_unavailable, 1);
    assert_eq!(s.total_errors, 1);
    assert_eq!(s.total_retries, 1);
    assert_eq!(s.total_success, 0);
}

#[test]
fn single_success_scenario() {
    let c = config(1, 1, 3, 1000);
    let mut w = Worker::new(&c);
    let mut s = Stats::new();
    let actions = drive(&mut w, &mut s, &[Outcome::Succeeded(10)]);
    assert_eq!(actions, vec![Action::Call, Action::Finish]);
    let r = Report::from_stats(1, 1, &s, 10_000_000);
    assert_eq!(r.success, 1);
    assert_eq!(r.failures, 0);
    assert_eq!(r.retries, 0);
    assert_eq!(r.avg_response_time, 10);
    assert_eq!(r.max_response_time, 10);
    assert_eq!(r.min_response_time, 10);
    assert_eq!(r.throughput_centi, 10_000);
}

#[test]
fn unavailable_every_time_scenario() {
    let c = config(1, 1, 2, 100);
    let mut w = Worker::new(&c);
    let mut s = Stats::new();
    let u = Outcome::Failed(ErrorClass::Unavailable);
    let actions = drive(&mut w, &mut s, &[u, u, u, u]);
    assert_eq!(
        actions,
        vec![Action::Call, Action::Retry(100), Action::Retry(200), Action::Finish]
    );
    assert_eq!(s.total_retries, 2);
    assert_eq!(s.total_failures, 1);
    assert_eq!(s.total_unavailable, 3);
    assert_eq!(s.total_success, 0);
}

#[test]
fn fatal_error_scenario() {
    let c = config(1, 1, 3, 1000);
    let mut w = Worker::new(&c);
    let mut s = Stats::new();
    let actions = drive(&mut w, &mut s, &[Outcome::Failed(ErrorClass::Other)]);
    assert_eq!(actions, vec![Action::Call, Action::Finish]);
    assert_eq!(s.total_retries, 0);
    assert_eq!(s.total_errors, 1);
    assert_eq!(s.total_success, 0);
    assert_eq!(s.total_failures, 0);
}

#[test]
fn no_tasks_scenario() {
    let s = Stats::new();
    assert_eq!(ramp_plan(10, 0), Vec::<u128>::new());
    assert_eq!(ramp_interval_nanos(10, 0), 0);
    let r = Report::from_stats(0, 50, &s, 0);
    assert_eq!(r.success, 0);
    assert_eq!(r.failures, 0);
    assert_eq!(r.retries, 0);
    assert_eq!(r.resource_exhausted, 0);
    assert_eq!(r.unavailable, 0);
    assert_eq!(r.errors, 0);
    assert_eq!(r.throughput_centi, 0);
    assert_eq!(r.avg_response_time, 0);
    assert_eq!(r.max_response_time, 0);
    assert_eq!(r.min_response_time, 0);
}

#[test]
fn each_iteration_ends_once() {
    let c = config(1, 3, 1, 5);
    let mut w = Worker::new(&c);
    let mut s = Stats::new();
    let ex = Outcome::Failed(ErrorClass::ResourceExhausted);
    let actions = drive(
        &mut w,
        &mut s,
        &[Outcome::Succeeded(4), ex, Outcome::Succeeded(6), ex, ex, Outcome::Succeeded(1)],
    );
    assert_eq!(
        actions,
        vec![
            Action::Call,
            Action::Call,
            Action::Retry(5),
            Action::Call,
            Action::Retry(5),
            Action::Finish
        ]
    );
    assert_eq!(s.total_success + s.total_failures, 3);
    assert_eq!(w.iteration, 3);
    // one retry counted when performed, once more with the success that followed it
    assert_eq!(s.total_retries, 3);
    assert_eq!(s.total_resource_exhausted, 3);
}

#[test]
fn first_try_success_adds_no_retry() {
    let c = config(1, 2, 3, 5);
    let mut w = Worker::new(&c);
    let mut s = Stats::new();
    drive(&mut w, &mut s, &[Outcome::Succeeded(3), Outcome::Succeeded(4)]);
    assert_eq!(s.total_retries, 0);
    assert_eq!(s.total_success, 2);
}

#[test]
fn zero_max_retries_gives_up_at_once() {
    let c = config(1, 2, 0, 5);
    let mut w = Worker::new(&c);
    let mut s = Stats::new();
    let actions = drive(
        &mut w,
        &mut s,
        &[Outcome::Failed(ErrorClass::ResourceExhausted), Outcome::Failed(ErrorClass::Unavailable)],
    );
    assert_eq!(actions, vec![Action::Call, Action::Call, Action::Finish]);
    assert_eq!(s.total_failures, 2);
    assert_eq!(s.total_retries, 0);
}

#[test]
fn backoff_doubles_within_an_iteration() {
    let c = config(1, 2, 4, 7);
    let mut w = Worker::new(&c);
    let mut s = Stats::new();
    let u = Outcome::Failed(ErrorClass::Unavailable);
    let actions = drive(&mut w, &mut s, &[u, u, u, u, Outcome::Succeeded(2), u]);
    assert_eq!(
        actions,
        vec![
            Action::Call,
            Action::Retry(7),
            Action::Retry(14),
            Action::Retry(28),
            Action::Retry(56),
            Action::Call,
            Action::Retry(7)
        ]
    );
    assert_eq!(s.total_retries, 4 + 4 + 1);
}

#[test]
fn zero_loop_count_finishes_at_start() {
    let c = config(1, 0, 3, 5);
    let w = Worker::new(&c);
    assert_eq!(w.start(), Action::Finish);
}

#[test]
fn connect_failure_counts_one_failure() {
    let mut s = Stats::new();
    on_connect_failed(&mut s);
    assert_eq!(s.total_failures, 1);
    assert_eq!(s.total_success, 0);
}

#[test]
fn backoff_fits_checks_the_longest_delay() {
    assert!(config(1, 1, 3, 1000).backoff_fits());
    assert!(config(1, 1, 63, 1).backoff_fits());
    assert!(!config(1, 1, 64, 1).backoff_fits());
    assert!(config(1, 1, 54, 1000).backoff_fits());
    assert!(!config(1, 1, 55, 1000).backoff_fits());
    assert!(config(1, 1, usize::MAX, 0).backoff_fits());
}

#[test]
fn report_figures() {
    let mut s = Stats::new();
    s.update(10, 0);
    s.update(25, 1);
    s.record_failure();
    let r = Report::from_stats(2, 3, &s, 4_000_000_000);
    assert_eq!(r.tasks, 2);
    assert_eq!(r.loop_count, 3);
    assert_eq!(r.avg_response_time, 17);
    assert_eq!(r.max_response_time, 25);
    assert_eq!(r.min_response_time, 10);
    assert_eq!(r.throughput_centi, 50);
    assert_eq!(r.failures, 1);
    assert_eq!(r.retries, 1);
}

#[test]
fn throughput_zero_without_time_or_success() {
    let mut s = Stats::new();
    assert_eq!(Report::from_stats(1, 1, &s, 1_000_000_000).throughput_centi, 0);
    s.update(5, 0);
    assert_eq!(Report::from_stats(1, 1, &s, 0).throughput_centi, 0);
    assert_eq!(Report::from_stats(1, 1, &s, 3_000_000_000).throughput_centi, 33);
}

#[test]
fn min_reported_zero_only_without_success() {
    let s = Stats::new();
    assert_eq!(Report::from_stats(1, 1, &s, 1).min_response_time, 0);
    let mut s = Stats::new();
    s.update(1, 0);
    assert_eq!(Report::from_stats(1, 1, &s, 1).min_response_time, 1);
}

#[test]
fn ramp_spreads_starts_evenly() {
    assert_eq!(ramp_interval_nanos(10, 4), 2_500_000_000);
    assert_eq!(ramp_plan(10, 4), vec![2_500_000_000, 2_500_000_000, 2_500_000_000, 0]);
    assert_eq!(ramp_plan(0, 3), vec![0, 0, 0]);
    assert_eq!(ramp_plan(1, 3), vec![333_333_333, 333_333_333, 0]);
    assert_eq!(ramp_plan(5, 1), vec![0]);
}

#[test]
fn status_codes_are_classified() {
    assert_eq!(classify_code(8), ErrorClass::ResourceExhausted);
    assert_eq!(classify_code(14), ErrorClass::Unavailable);
    assert_eq!(classify_code(13), ErrorClass::Other);
    assert_eq!(classify_code(0), ErrorClass::Other);
    assert_eq!(
        classify_status(&tonic::Status::resource_exhausted("busy")),
        ErrorClass::ResourceExhausted
    );
    assert_eq!(classify_status(&tonic::Status::unavailable("down")), ErrorClass::Unavailable);
    assert_eq!(classify_status(&tonic::Status::internal("bug")), ErrorClass::Other);
    assert_eq!(classify_status(&tonic::Status::not_found("gone")), ErrorClass::Other);
}

#[test]
fn call_results_become_outcomes() {
    assert_eq!(outcome_of(&Ok(()), 12), Outcome::Succeeded(12));
    assert_eq!(
        outcome_of(&Err(tonic::Status::unavailable("down")), 12),
        Outcome::Failed(ErrorClass::Unavailable)
    );
    assert_eq!(
        outcome_of(&Err(tonic::Status::permission_denied("no")), 3),
        Outcome::Failed(ErrorClass::Other)
    );
}

fn args(list: &[&str]) -> Vec<String> {
    list.iter().map(|s| s.to_string()).collect()
}

#[test]
fn operation_names() {
    assert_eq!(Operation::from_api(&"cpu".to_string()), Some(Operation::Cpu));
    assert_eq!(Operation::from_api(&"db".to_string()), Some(Operation::Db));
    assert_eq!(Operation::from_api(&"CPU".to_string()), None);
    assert_eq!(Operation::from_api(&"".to_string()), None);
}

#[test]
fn options_take_defaults() {
    let c = Config::from_args(&args(&["rmeter", "--api", "db"])).unwrap();
    assert_eq!(c.tasks, 5);
    assert_eq!(c.loop_count, 50);
    assert_eq!(c.ramp_seconds, 0);
    assert_eq!(c.api, "db");
    assert_eq!(c.max_retries, 3);
    assert_eq!(c.retry_initial_delay_ms, 1000);
}

#[test]
fn options_are_read() {
    let c = Config::from_args(&args(&[
        "rmeter",
        "--tasks",
        "8",
        "--loop=2",
        "--ramp",
        "+4",
        "--api",
        "cpu",
        "--max-retries",
        "0",
        "--retry-ms",
        "250",
    ]))
    .unwrap();
    assert_eq!(c.tasks, 8);
    assert_eq!(c.loop_count, 2);
    assert_eq!(c.ramp_seconds, 4);
    assert_eq!(c.api, "cpu");
    assert_eq!(c.max_retries, 0);
    assert_eq!(c.retry_initial_delay_ms, 250);
}

#[test]
fn unreadable_numbers_fall_back_to_defaults() {
    let c = Config::from_args(&args(&["rmeter", "--api", "cpu", "--tasks", "x1", "--loop", "abc"]))
        .unwrap();
    assert_eq!(c.tasks, 5);
    assert_eq!(c.loop_count, 50);
    let c = Config::from_values(
        None,
        None,
        Some("99999999999999999999".to_string()),
        Some("cpu".to_string()),
        None,
        Some(" 7".to_string()),
    )
    .unwrap();
    assert_eq!(c.ramp_seconds, 0);
    assert_eq!(c.retry_initial_delay_ms, 1000);
}

#[test]
fn api_is_required() {
    assert_eq!(Config::from_args(&args(&["rmeter"])).unwrap_err(), ArgsError::BadApi);
    assert_eq!(
        Config::from_args(&args(&["rmeter", "--api", "gpu"])).unwrap_err(),
        ArgsError::BadApi
    );
}

#[test]
fn help_and_bad_options() {
    assert_eq!(
        Config::from_args(&args(&["rmeter", "-h", "--api", "cpu"])).unwrap_err(),
        ArgsError::Help
    );
    assert_eq!(Config::from_args(&args(&["rmeter", "--help"])).unwrap_err(), ArgsError::Help);
    match Config::from_args(&args(&["rmeter", "--bogus"])) {
        Err(ArgsError::BadOptions(text)) => assert!(text.contains("bogus")),
        other => panic!("unexpected {:?}", other),
    }
    match Config::from_args(&args(&["rmeter", "--tasks"])) {
        Err(ArgsError::BadOptions(text)) => assert!(text.contains("tasks")),
        other => panic!("unexpected {:?}", other),
    }
}

#[test]
fn usage_lists_the_options() {
    let u = rmeter::opts::OptionSet::for_run().usage("rmeter");
    assert!(u.starts_with("Usage: rmeter [options]"));
    assert!(u.contains("--tasks"));
    assert!(u.contains("--retry-ms"));
    assert!(u.contains("-h, --help"));
}

#[test]
fn option_set_parse_refuses_or_reads() {
    let set = rmeter::opts::OptionSet::for_run();
    assert!(set.parse(&args(&["--api", "cpu", "--tasks", "2"])).is_ok());
    match set.parse(&args(&["--nope"])) {
        Err(text) => assert!(text.contains("nope")),
        Ok(_) => panic!("accepted an unknown option"),
    }
    match set.parse(&args(&["--api"])) {
        Err(text) => assert!(text.contains("api")),
        Ok(_) => panic!("accepted an option without its value"),
    }
}

#[test]
fn help_wins_over_a_bad_api() {
    assert_eq!(
        Config::from_args(&args(&["rmeter", "--api", "gpu", "--help"])).unwrap_err(),
        ArgsError::Help
    );
}
