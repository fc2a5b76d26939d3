use hull::cmd::path::get_hull_symlinks_root;
use hull::models::UploadJob;
use hull::types::{fatal_error_event, timing_event, EventsPayload, RunTime};
use std::path::PathBuf;

#[test]
fn a_timing_event_carries_the_run() {
    let event = timing_event(
        String::from("/bin/true"),
        vec![String::from("-v")],
        RunTime { secs: 1, subsec_nanos: 500_000_000 },
        1_540_000_000,
        0,
    );
    assert_eq!(event.event_name, "hull_timing");
    assert_eq!(event.event_data.cmd, "/bin/true");
    assert_eq!(event.event_data.args, vec![String::from("-v")]);
    assert_eq!(event.event_data.run, RunTime { secs: 1, subsec_nanos: 500_000_000 });
    assert_eq!(event.event_data.created_at, 1_540_000_000);
    assert_eq!(event.event_data.status_code, 0);
}

#[test]
fn a_fatal_error_event_carries_the_time_only() {
    let event = fatal_error_event(1_540_000_001);
    assert_eq!(event.event_name, "hull_fatal_error");
    assert_eq!(event.event_data.created_at, 1_540_000_001);
}

#[test]
fn a_batch_holds_its_events_in_order() {
    let batch = EventsPayload { events: vec![fatal_error_event(1), fatal_error_event(2)] };
    assert_eq!(batch.events.len(), 2);
    assert_eq!(batch.events[1].event_data.created_at, 2);
}

#[test]
fn an_upload_job_is_a_plain_record() {
    let job = UploadJob {
        id: 1,
        metric_id: 2,
        name: String::from("timing"),
        done: false,
        num_attempts: 0,
        created_at: String::from("2018-10-20"),
        updated_at: String::from("2018-10-21"),
    };
    assert_eq!(job.metric_id, 2);
    assert!(!job.done);
}

#[test]
fn the_root_is_the_override_where_one_is_set() {
    assert_eq!(
        get_hull_symlinks_root(Some(String::from("/opt/hull/bin"))),
        PathBuf::from("/opt/hull/bin")
    );
    assert_eq!(get_hull_symlinks_root(Some(String::new())), PathBuf::from(""));
}

#[test]
fn the_root_is_etc_hull_otherwise() {
    assert_eq!(get_hull_symlinks_root(None), PathBuf::from("/etc/hull"));
}
