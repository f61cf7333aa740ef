use hot_resize::daemon::{
    daemon_loop, get_device_size, notice_of_failure, notice_of_success, size_query, DaemonState,
    Scheduler, Sighting, Watch,
};
use hot_resize::pipeline::{Device, FileSystem, PipelineError};
use hot_resize::protocol::{Invocation, Level, Reply, Request, ToolOutcome};
use hot_resize::resize::ResizeError;

fn run(program: &str, args: &[&str]) -> Request {
    Request::Run(Invocation {
        program: program.to_string(),
        args: args.iter().map(|a| a.to_string()).collect(),
    })
}

fn exited(code: i32, stdout: &str, stderr: &str) -> Reply {
    Reply::Tool(ToolOutcome::Exited {
        code: Some(code),
        stdout: stdout.to_string(),
        stderr: stderr.to_string(),
    })
}

fn size(bytes: u64) -> Reply {
    exited(0, &format!("{}\n", bytes), "")
}

fn root_device() -> Device {
    Device {
        device: "/dev/vda1".to_string(),
        fs_type: FileSystem::Ext4,
        mount_point: "/".to_string(),
    }
}

const PARTITION: &str = "PKNAME=\"vda\" NAME=\"vda1\" PARTN=\"1\"\n";

/// Answers the requests of one tick up to the decision on the device.
fn read_sizes(mut s: Scheduler, parent: u64, device: u64) -> Scheduler {
    assert_eq!(s.request(), Request::CheckCancel);
    s = s.advance(Reply::Cancel(false));
    assert_eq!(s.request(), Request::Resolve { path: "/dev/vda1".to_string() });
    s = s.advance(Reply::Resolved(Some("/dev/vda1".to_string())));
    s = s.advance(exited(0, PARTITION, ""));
    assert_eq!(s.request(), run("blockdev", &["--getsize64", "/dev/vda"]));
    s = s.advance(size(parent));
    assert_eq!(s.request(), run("blockdev", &["--getsize64", "/dev/vda1"]));
    s.advance(size(device))
}

/// Answers the requests of the work on the device so that it succeeds.
fn work_succeeds(mut s: Scheduler) -> Scheduler {
    assert_eq!(s.request(), Request::Resolve { path: "/dev/vda1".to_string() });
    s = s.advance(Reply::Resolved(Some("/dev/vda1".to_string())));
    s = s.advance(exited(0, PARTITION, ""));
    assert_eq!(s.request(), run("growpart", &["/dev/vda", "1"]));
    s = s.advance(exited(0, "", ""));
    s = s.advance(exited(1, "", ""));
    s = s.advance(exited(0, "ext4\n", ""));
    assert_eq!(s.request(), run("resize2fs", &["-f", "/dev/vda1"]));
    s.advance(exited(0, "", ""))
}

/// Sleeps through an interval of `seconds` whole seconds.
fn sleep_through(mut s: Scheduler, seconds: u64) -> Scheduler {
    for _ in 0..seconds {
        assert_eq!(s.request(), Request::CheckCancel);
        s = s.advance(Reply::Cancel(false));
        assert_eq!(s.request(), Request::Sleep { millis: 1000 });
        s = s.advance(Reply::Slept);
    }
    s
}

#[test]
fn sizes_are_classified_against_the_record() {
    let mut state = DaemonState::new();
    assert_eq!(state.last_size("/dev/vda1"), None);
    assert_eq!(state.observe("/dev/vda1", 100), Sighting::First);
    assert_eq!(state.last_size("/dev/vda1"), Some(100));
    assert_eq!(state.observe("/dev/vda1", 100), Sighting::Unchanged);
    assert_eq!(state.observe("/dev/vda1", 200), Sighting::Changed);
    assert_eq!(state.last_size("/dev/vda1"), Some(200));
    assert_eq!(state.observe("/dev/vda1", 100), Sighting::Changed);
    assert_eq!(state.observe("/dev/vda1_parent", 100), Sighting::First);
    assert_eq!(state.last_size("/dev/vda1"), Some(100));
}

#[test]
fn work_is_due_on_first_sight_or_on_a_later_change() {
    let nothing = Watch { first_sight: false, changed: false };
    assert!(!nothing.is_due(true));
    assert!(!nothing.is_due(false));
    let first = nothing.note(Sighting::First);
    assert!(first.is_due(true));
    assert!(first.is_due(false));
    let changed = nothing.note(Sighting::Changed);
    assert!(!changed.is_due(true));
    assert!(changed.is_due(false));
    let both = changed.note(Sighting::First).note(Sighting::Unchanged);
    assert_eq!(both, Watch { first_sight: true, changed: true });
    assert!(both.is_due(true));
    assert_eq!(nothing.note(Sighting::Unchanged), nothing);
}

#[test]
fn size_is_read_from_the_size_command() {
    assert_eq!(
        size_query("/dev/vda"),
        Invocation {
            program: "blockdev".to_string(),
            args: vec!["--getsize64".to_string(), "/dev/vda".to_string()],
        }
    );
    let out = |code: i32, text: &str| ToolOutcome::Exited {
        code: Some(code),
        stdout: text.to_string(),
        stderr: String::new(),
    };
    assert_eq!(get_device_size(&out(0, "10737418240\n")), Some(10737418240));
    assert_eq!(get_device_size(&out(0, "  42  ")), Some(42));
    assert_eq!(get_device_size(&out(0, "18446744073709551615")), Some(u64::MAX));
    assert_eq!(get_device_size(&out(0, "18446744073709551616")), None);
    assert_eq!(get_device_size(&out(0, "")), None);
    assert_eq!(get_device_size(&out(0, "12 34")), None);
    assert_eq!(get_device_size(&out(1, "42")), None);
    assert_eq!(get_device_size(&ToolOutcome::NotLaunched { reason: "x".to_string() }), None);
}

#[test]
fn first_tick_works_on_a_device_seen_for_the_first_time() {
    let s = daemon_loop(vec![root_device()], true, 2000);
    let s = read_sizes(s, 1000, 900);
    assert_eq!(s.last_size("/dev/vda1"), Some(900));
    assert_eq!(s.last_size("/dev/vda1_parent"), Some(1000));
    let s = work_succeeds(s);
    assert_eq!(
        s.request(),
        Request::Log {
            level: Level::Debug,
            message: "Initial resize check completed for \"/dev/vda1\"".to_string(),
        }
    );
    let s = s.advance(Reply::Logged);
    let s = sleep_through(s, 2);
    assert!(!s.is_stopped());
    assert_eq!(s.request(), Request::CheckCancel);
}

#[test]
fn later_tick_with_unchanged_sizes_does_nothing() {
    let s = daemon_loop(vec![root_device()], true, 1000);
    let s = work_succeeds(read_sizes(s, 1000, 900)).advance(Reply::Logged);
    let s = sleep_through(s, 1);
    let s = read_sizes(s, 1000, 900);
    assert_eq!(s.request(), Request::CheckCancel);
    let s = s.advance(Reply::Cancel(false));
    assert_eq!(s.request(), Request::Sleep { millis: 1000 });
}

#[test]
fn later_tick_with_a_changed_size_works_and_records_it() {
    let s = daemon_loop(vec![root_device()], true, 1000);
    let s = work_succeeds(read_sizes(s, 1000, 900)).advance(Reply::Logged);
    let s = sleep_through(s, 1);
    let s = read_sizes(s, 2000, 900);
    assert_eq!(s.last_size("/dev/vda1_parent"), Some(2000));
    assert_eq!(s.last_size("/dev/vda1"), Some(900));
    let s = work_succeeds(s);
    assert_eq!(
        s.request(),
        Request::Log {
            level: Level::Warn,
            message: "Successfully resized \"/dev/vda1\" after size change".to_string(),
        }
    );
    assert_eq!(s.last_size("/dev/vda1_parent"), Some(2000));
}

#[test]
fn changed_size_stays_on_record_when_the_work_fails() {
    let s = daemon_loop(vec![root_device()], true, 1000);
    let s = work_succeeds(read_sizes(s, 1000, 900)).advance(Reply::Logged);
    let s = sleep_through(s, 1);
    let s = read_sizes(s, 1000, 950);
    assert_eq!(s.request(), Request::Resolve { path: "/dev/vda1".to_string() });
    let s = s.advance(Reply::Resolved(None));
    assert_eq!(
        s.request(),
        Request::Log {
            level: Level::Error,
            message: "Failed to process device \"/dev/vda1\": Device not found: /dev/vda1".to_string(),
        }
    );
    assert_eq!(s.last_size("/dev/vda1"), Some(950));
    let s = s.advance(Reply::Logged);
    let s = sleep_through(s, 1);
    let s = read_sizes(s, 1000, 950);
    assert_eq!(s.request(), Request::CheckCancel);
}

#[test]
fn first_tick_does_not_work_on_a_difference_alone() {
    // the second device brings sizes on record under the keys of the first
    // before the first tick has ended
    let twice = vec![root_device(), root_device()];
    let s = daemon_loop(twice, true, 1000);
    let s = work_succeeds(read_sizes(s, 1000, 900)).advance(Reply::Logged);
    assert_eq!(s.request(), Request::Resolve { path: "/dev/vda1".to_string() });
    let s = s.advance(Reply::Resolved(Some("/dev/vda1".to_string())));
    let s = s.advance(exited(0, PARTITION, ""));
    let s = s.advance(size(5000));
    let s = s.advance(size(4000));
    assert_eq!(s.last_size("/dev/vda1"), Some(4000));
    assert_eq!(s.last_size("/dev/vda1_parent"), Some(5000));
    assert_eq!(s.request(), Request::CheckCancel);
}

#[test]
fn device_that_cannot_be_analysed_is_passed_over() {
    let s = daemon_loop(vec![root_device()], true, 0);
    let s = s.advance(Reply::Cancel(false)).advance(Reply::Resolved(None));
    assert_eq!(s.request(), Request::CheckCancel);
    assert_eq!(s.last_size("/dev/vda1"), None);
    let s = s.advance(Reply::Cancel(false));
    assert_eq!(s.request(), Request::Resolve { path: "/dev/vda1".to_string() });
}

#[test]
fn sizes_that_cannot_be_read_are_not_recorded() {
    let s = daemon_loop(vec![root_device()], true, 0)
        .advance(Reply::Cancel(false))
        .advance(Reply::Resolved(Some("/dev/vda1".to_string())))
        .advance(exited(0, PARTITION, ""))
        .advance(exited(1, "", "blockdev: permission denied"))
        .advance(exited(0, "not a number", ""));
    assert_eq!(s.last_size("/dev/vda1"), None);
    assert_eq!(s.last_size("/dev/vda1_parent"), None);
    assert_eq!(s.request(), Request::CheckCancel);
}

#[test]
fn whole_disk_is_watched_by_its_own_size_only() {
    let device = Device {
        device: "/dev/vdb".to_string(),
        fs_type: FileSystem::Xfs,
        mount_point: "/data".to_string(),
    };
    let s = daemon_loop(vec![device], true, 0)
        .advance(Reply::Cancel(false))
        .advance(Reply::Resolved(Some("/dev/vdb".to_string())))
        .advance(exited(0, "PKNAME=\"\" NAME=\"vdb\" PARTN=\"\"", ""));
    assert_eq!(s.request(), run("blockdev", &["--getsize64", "/dev/vdb"]));
    let s = s.advance(size(123));
    assert_eq!(s.last_size("/dev/vdb"), Some(123));
    assert_eq!(s.last_size("/dev/vdb_parent"), None);
    assert_eq!(s.request(), Request::Resolve { path: "/dev/vdb".to_string() });
}

#[test]
fn cancellation_is_seen_before_a_tick_and_between_naps() {
    let s = daemon_loop(vec![root_device()], true, 2500);
    let stopped = s.advance(Reply::Cancel(true));
    assert!(stopped.is_stopped());
    assert_eq!(stopped.request(), Request::Done);
    assert!(stopped.advance(Reply::Cancel(false)).is_stopped());

    let s = daemon_loop(Vec::new(), true, 2500).advance(Reply::Cancel(false));
    assert_eq!(s.request(), Request::CheckCancel);
    let s = s.advance(Reply::Cancel(false));
    assert_eq!(s.request(), Request::Sleep { millis: 1000 });
    let s = s.advance(Reply::Slept).advance(Reply::Cancel(false));
    assert_eq!(s.request(), Request::Sleep { millis: 1000 });
    let s = s.advance(Reply::Slept).advance(Reply::Cancel(false));
    assert_eq!(s.request(), Request::Sleep { millis: 500 });
    let s = s.advance(Reply::Slept);
    assert_eq!(s.request(), Request::CheckCancel);
    let s = s.advance(Reply::Cancel(false)).advance(Reply::Cancel(false));
    assert_eq!(s.request(), Request::Sleep { millis: 1000 });
    let s = s.advance(Reply::Slept).advance(Reply::Cancel(true));
    assert!(s.is_stopped());
}

#[test]
fn failures_that_mean_nothing_to_do_are_reported_quietly() {
    for marker in ["already at maximum size", "no space left", "cannot be grown", "NOCHANGE"] {
        let error = PipelineError::Resize(ResizeError::GrowPartition(format!("x {} y", marker)));
        assert_eq!(
            notice_of_failure("/dev/vda1", &error),
            (Level::Debug, "Device \"/dev/vda1\" already at maximum size".to_string())
        );
    }
    let error = PipelineError::Resize(ResizeError::ResizeFs("broken".to_string()));
    assert_eq!(
        notice_of_failure("/dev/vda1", &error),
        (
            Level::Error,
            "Failed to process device \"/dev/vda1\": Failed to resize filesystem: broken".to_string()
        )
    );
}

#[test]
fn success_is_reported_by_what_led_to_the_work() {
    assert_eq!(
        notice_of_success("/dev/vda1", true, false),
        Some((Level::Warn, "Successfully resized \"/dev/vda1\" after size change".to_string()))
    );
    let initial = Some((Level::Debug, "Initial resize check completed for \"/dev/vda1\"".to_string()));
    assert_eq!(notice_of_success("/dev/vda1", true, true), initial);
    assert_eq!(notice_of_success("/dev/vda1", false, true), initial);
    assert_eq!(notice_of_success("/dev/vda1", false, false), None);
}
