//! Lifecycle scenarios: activation, repeated activation, deactivation, and
//! ownership transfer of the output sinks.

use streamctl::config::Config;
use streamctl::errors::{JoinOutcome, StreamError, WorkerError};
use streamctl::ids::StreamId;
use streamctl::media::FeedFault;
use streamctl::registry::Registry;
use streamctl::stream_map::StreamMap;
use streamctl::streaming::Streaming;

fn cfg_main_sub(pause_mode: &str) -> Config {
    let mut paths: StreamMap<Vec<String>> = StreamMap::empty();
    paths.insert(StreamId::Main, vec!["/cam/main".to_string()]);
    paths.insert(StreamId::Sub, vec!["/cam/sub".to_string()]);
    Config {
        streams: vec![StreamId::Main, StreamId::Sub],
        pause_mode: pause_mode.to_string(),
        permitted_users: vec!["admin".to_string()],
        paths,
    }
}

fn open_registry() -> Registry {
    Registry::new(Vec::new(), Vec::new())
}

fn joins_graceful() -> StreamMap<JoinOutcome> {
    let mut joins: StreamMap<JoinOutcome> = StreamMap::empty();
    joins.insert(StreamId::Main, JoinOutcome::Graceful);
    joins.insert(StreamId::Sub, JoinOutcome::Graceful);
    joins.insert(StreamId::Extern, JoinOutcome::Graceful);
    joins
}

#[test]
fn activate_starts_both_workers() {
    let cfg = cfg_main_sub("none");
    let mut reg = open_registry();
    let mut s = Streaming::new();
    assert!(s.setup(&cfg, &mut reg).is_ok());
    assert!(s.is_running());
    assert!(s.has_worker(StreamId::Main));
    assert!(s.has_worker(StreamId::Sub));
    assert!(!s.has_worker(StreamId::Extern));
    assert_eq!(reg.registered, vec!["/cam/main".to_string(), "/cam/sub".to_string()]);
    assert_eq!(reg.users, vec!["admin".to_string()]);
}

#[test]
fn second_activate_adds_no_worker_and_registers_nothing() {
    let cfg = cfg_main_sub("black");
    let mut reg = open_registry();
    let mut s = Streaming::new();
    assert!(s.setup(&cfg, &mut reg).is_ok());
    let registered_once = reg.registered.clone();
    assert!(s.setup(&cfg, &mut reg).is_ok());
    assert!(s.is_running());
    assert!(s.has_worker(StreamId::Main));
    assert!(s.has_worker(StreamId::Sub));
    assert_eq!(reg.registered, registered_once);
}

#[test]
fn full_cycle_two_streams() {
    // Configured sub-streams {Main, Sub}, placeholder mode "none": activation
    // records two workers; deactivation unregisters both paths and joins both
    // workers; two sinks are retained afterwards.
    let cfg = cfg_main_sub("none");
    let mut reg = open_registry();
    let mut s = Streaming::new();
    assert!(s.setup(&cfg, &mut reg).is_ok());
    assert!(s.is_running());
    assert_eq!(reg.registered.len(), 2);
    let r = s.tear_down(&cfg, &mut reg, &joins_graceful());
    assert!(r.is_ok());
    assert!(!s.is_running());
    assert!(!s.has_worker(StreamId::Main));
    assert!(!s.has_worker(StreamId::Sub));
    assert!(s.has_output(StreamId::Main));
    assert!(s.has_output(StreamId::Sub));
    assert!(reg.registered.is_empty());
}

#[test]
fn rejected_sub_path_spawns_no_worker() {
    // The registry refuses the Sub path: activation reports a registry error
    // naming that path and records no worker for either sub-stream.
    let cfg = cfg_main_sub("none");
    let mut reg = Registry::new(vec!["/cam/sub".to_string()], Vec::new());
    let mut s = Streaming::new();
    let r = s.setup(&cfg, &mut reg);
    assert_eq!(r, Err(StreamError::PathRejected { path: "/cam/sub".to_string() }));
    assert!(!s.has_worker(StreamId::Main));
    assert!(!s.has_worker(StreamId::Sub));
    // The Main sink registered before the refusal is retained, not rolled
    // back.
    assert_eq!(reg.registered, vec!["/cam/main".to_string()]);
    assert!(s.has_output(StreamId::Main));
    assert!(!s.has_output(StreamId::Sub));
}

#[test]
fn unknown_pause_mode_is_reported() {
    let cfg = cfg_main_sub("sepia");
    let mut reg = open_registry();
    let mut s = Streaming::new();
    assert_eq!(s.setup(&cfg, &mut reg), Err(StreamError::UnknownPauseMode));
    assert!(!s.has_worker(StreamId::Main));
    assert!(reg.registered.is_empty());
}

#[test]
fn unregister_refusal_reports_path_before_joins() {
    let cfg = cfg_main_sub("none");
    let mut reg = Registry::new(Vec::new(), vec!["/cam/sub".to_string()]);
    let mut s = Streaming::new();
    assert!(s.setup(&cfg, &mut reg).is_ok());
    let r = s.tear_down(&cfg, &mut reg, &joins_graceful());
    assert_eq!(r, Err(StreamError::UnregisterFailed { path: "/cam/sub".to_string() }));
    // The refusal short-circuits before any join: the workers stay recorded,
    // but cancellation has been signalled.
    assert!(s.has_worker(StreamId::Main));
    assert!(s.has_worker(StreamId::Sub));
    assert!(!s.is_running());
    // The Main path had already been unregistered when the Sub path was
    // refused.
    assert_eq!(reg.registered, vec!["/cam/sub".to_string()]);
}

#[test]
fn first_join_failure_is_surfaced() {
    let cfg = cfg_main_sub("none");
    let mut reg = open_registry();
    let mut s = Streaming::new();
    assert!(s.setup(&cfg, &mut reg).is_ok());
    let mut joins: StreamMap<JoinOutcome> = StreamMap::empty();
    joins.insert(
        StreamId::Main,
        JoinOutcome::Failed(WorkerError::Feed(FeedFault { code: 7 })),
    );
    joins.insert(StreamId::Sub, JoinOutcome::Graceful);
    let r = s.tear_down(&cfg, &mut reg, &joins);
    assert_eq!(
        r,
        Err(StreamError::Worker {
            stream: StreamId::Main,
            err: WorkerError::Feed(FeedFault { code: 7 }),
        })
    );
    // The registry is drained even though a join failed.
    assert!(!s.has_worker(StreamId::Main));
    assert!(!s.has_worker(StreamId::Sub));
}

#[test]
fn panicked_worker_is_reported() {
    let cfg = cfg_main_sub("none");
    let mut reg = open_registry();
    let mut s = Streaming::new();
    assert!(s.setup(&cfg, &mut reg).is_ok());
    let mut joins: StreamMap<JoinOutcome> = StreamMap::empty();
    joins.insert(StreamId::Main, JoinOutcome::Graceful);
    joins.insert(StreamId::Sub, JoinOutcome::Panicked);
    let r = s.tear_down(&cfg, &mut reg, &joins);
    assert_eq!(r, Err(StreamError::Panicked { stream: StreamId::Sub }));
}

#[test]
fn deactivate_with_no_workers_is_a_no_op() {
    let cfg = cfg_main_sub("none");
    let mut reg = open_registry();
    let mut s = Streaming::new();
    let r = s.tear_down(&cfg, &mut reg, &joins_graceful());
    assert!(r.is_ok());
    assert!(!s.is_running());
    assert!(reg.registered.is_empty());
}

#[test]
fn extract_outputs_yields_both_sinks_and_empties_registries() {
    let cfg = cfg_main_sub("still");
    let mut reg = open_registry();
    let mut s = Streaming::new();
    assert!(s.setup(&cfg, &mut reg).is_ok());
    let m = s.take_outputs(&joins_graceful()).unwrap();
    assert!(m.contains_key(StreamId::Main));
    assert!(m.contains_key(StreamId::Sub));
    assert!(!m.contains_key(StreamId::Extern));
    assert!(!s.has_output(StreamId::Main));
    assert!(!s.has_output(StreamId::Sub));
    assert!(!s.has_worker(StreamId::Main));
    assert!(!s.is_running());
}

#[test]
fn extract_surfaces_join_failure_and_keeps_sinks() {
    let cfg = cfg_main_sub("none");
    let mut reg = open_registry();
    let mut s = Streaming::new();
    assert!(s.setup(&cfg, &mut reg).is_ok());
    let mut joins: StreamMap<JoinOutcome> = StreamMap::empty();
    joins.insert(StreamId::Main, JoinOutcome::Graceful);
    joins.insert(StreamId::Sub, JoinOutcome::Failed(WorkerError::Rejected));
    let r = s.take_outputs(&joins);
    assert_eq!(
        r.err(),
        Some(StreamError::Worker { stream: StreamId::Sub, err: WorkerError::Rejected })
    );
    assert!(s.has_output(StreamId::Main));
    assert!(s.has_output(StreamId::Sub));
    assert!(!s.has_worker(StreamId::Main));
}

#[test]
fn adopt_then_activate_resumes_without_reregistering() {
    let cfg = cfg_main_sub("none");
    let mut reg = open_registry();
    let mut s1 = Streaming::new();
    assert!(s1.setup(&cfg, &mut reg).is_ok());
    let m = s1.take_outputs(&joins_graceful()).unwrap();
    let mut s2 = Streaming::new();
    assert!(s2.insert_outputs(m).is_ok());
    let registered_before = reg.registered.clone();
    assert!(s2.setup(&cfg, &mut reg).is_ok());
    assert!(s2.is_running());
    assert!(s2.has_worker(StreamId::Main));
    assert!(s2.has_worker(StreamId::Sub));
    assert_eq!(reg.registered, registered_before);
}

#[test]
fn marked_finished_worker_stops_is_running() {
    let cfg = cfg_main_sub("none");
    let mut reg = open_registry();
    let mut s = Streaming::new();
    assert!(s.setup(&cfg, &mut reg).is_ok());
    s.mark_finished(StreamId::Main);
    assert!(!s.is_running());
}

#[test]
fn all_paths_come_in_the_fixed_stream_order() {
    let mut paths: StreamMap<Vec<String>> = StreamMap::empty();
    paths.insert(StreamId::Sub, vec!["/c/sub".to_string()]);
    paths.insert(StreamId::Main, vec!["/c/main0".to_string(), "/c/main1".to_string()]);
    let cfg = Config {
        streams: vec![StreamId::Sub, StreamId::Main],
        pause_mode: "test".to_string(),
        permitted_users: Vec::new(),
        paths,
    };
    assert_eq!(
        cfg.get_all_paths(),
        vec!["/c/main0".to_string(), "/c/main1".to_string(), "/c/sub".to_string()]
    );
    assert_eq!(cfg.get_paths(StreamId::Extern), Vec::<String>::new());
}

#[test]
fn teardown_of_adopted_streams_tolerates_unregistered_paths() {
    // Sinks adopted from a sibling state were never registered by this
    // controller; deactivation still succeeds, leaving the registry's
    // registrations untouched.
    let cfg = cfg_main_sub("none");
    let mut reg = open_registry();
    let mut donor = Streaming::new();
    assert!(donor.setup(&cfg, &mut reg).is_ok());
    let m = donor.take_outputs(&joins_graceful()).unwrap();
    let mut reg2 = open_registry();
    let mut s = Streaming::new();
    assert!(s.insert_outputs(m).is_ok());
    assert!(s.setup(&cfg, &mut reg2).is_ok());
    assert!(reg2.registered.is_empty());
    assert!(s.tear_down(&cfg, &mut reg2, &joins_graceful()).is_ok());
    assert!(reg2.registered.is_empty());
    assert!(!s.has_worker(StreamId::Main));
    assert!(s.has_output(StreamId::Main));
}

#[test]
fn single_extern_stream_cycle() {
    let mut paths: StreamMap<Vec<String>> = StreamMap::empty();
    paths.insert(StreamId::Extern, vec!["/cam/ext".to_string()]);
    let cfg = Config {
        streams: vec![StreamId::Extern],
        pause_mode: "still".to_string(),
        permitted_users: Vec::new(),
        paths,
    };
    let mut reg = open_registry();
    let mut s = Streaming::new();
    assert!(s.setup(&cfg, &mut reg).is_ok());
    assert!(s.is_running());
    assert!(s.has_worker(StreamId::Extern));
    assert!(!s.has_worker(StreamId::Main));
    assert_eq!(reg.registered, vec!["/cam/ext".to_string()]);
    assert!(s.tear_down(&cfg, &mut reg, &joins_graceful()).is_ok());
    assert!(reg.registered.is_empty());
}
