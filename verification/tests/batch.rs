use hot_resize::batch::{count_successes, process_all};
use hot_resize::host::answer;
use hot_resize::pipeline::{Device, FileSystem};
use hot_resize::protocol::{Level, Reply, Request, ToolOutcome};

fn exited(code: i32, stdout: &str, stderr: &str) -> Reply {
    Reply::Tool(ToolOutcome::Exited {
        code: Some(code),
        stdout: stdout.to_string(),
        stderr: stderr.to_string(),
    })
}

fn device(path: &str) -> Device {
    Device {
        device: path.to_string(),
        fs_type: FileSystem::Ext4,
        mount_point: "/".to_string(),
    }
}

fn log(level: Level, message: &str) -> Request {
    Request::Log { level, message: message.to_string() }
}

#[test]
fn empty_batch_says_that_nothing_is_to_do() {
    let b = process_all(Vec::new(), false, true);
    assert_eq!(b.request(), log(Level::Warn, "No devices specified, nothing to do"));
    assert!(!b.is_finished());
    let b = b.advance(Reply::Logged);
    assert!(b.is_finished());
    assert_eq!(b.request(), Request::Done);
    assert_eq!(b.succeeded(), 0);
}

#[test]
fn failure_on_one_device_does_not_stop_the_batch() {
    let b = process_all(vec![device("/dev/a1"), device("/dev/b1"), device("/dev/c")], true, true);
    assert_eq!(b.request(), Request::Resolve { path: "/dev/a1".to_string() });
    let b = b.advance(Reply::Resolved(None));
    assert_eq!(
        b.request(),
        log(Level::Error, "Failed to process device \"/dev/a1\": Device not found: /dev/a1")
    );
    let b = b.advance(Reply::Logged);
    assert_eq!(b.request(), Request::Resolve { path: "/dev/b1".to_string() });
    let b = b
        .advance(Reply::Resolved(Some("/dev/b1".to_string())))
        .advance(exited(0, "PKNAME=\"b\" NAME=\"b1\" PARTN=\"1\"", ""))
        .advance(Reply::Logged)
        .advance(Reply::Logged);
    assert_eq!(b.request(), log(Level::Info, "Successfully processed device \"/dev/b1\""));
    assert_eq!(b.succeeded(), 1);
    let b = b.advance(Reply::Logged);
    assert_eq!(b.request(), Request::Resolve { path: "/dev/c".to_string() });
    let b = b.advance(Reply::Resolved(None)).advance(Reply::Logged);
    assert_eq!(
        b.request(),
        log(Level::Info, "Operation completed with 1/3 devices processed successfully")
    );
    assert!(!b.is_finished());
    let b = b.advance(Reply::Logged);
    assert!(b.is_finished());
    assert_eq!(b.succeeded(), 1);
    assert_eq!(b.clone().advance(Reply::Logged), b);
}

#[test]
fn batch_without_failures_says_so() {
    let b = process_all(vec![device("/dev/a1")], true, true)
        .advance(Reply::Resolved(Some("/dev/a1".to_string())))
        .advance(exited(0, "NAME=\"a1\"", ""))
        .advance(Reply::Logged)
        .advance(Reply::Logged)
        .advance(Reply::Logged);
    assert_eq!(b.request(), log(Level::Info, "Operation completed successfully for all devices"));
}

#[test]
fn successes_are_counted() {
    assert_eq!(count_successes(&vec![]), 0);
    assert_eq!(count_successes(&vec![true, false, true, true, false]), 3);
    assert_eq!(count_successes(&vec![false]), 0);
}

#[test]
fn host_answers_searches_and_capacity_queries_only() {
    let missing = Request::Locate { tool: "surely-no-such-tool-on-any-path-7f3a".to_string() };
    assert_eq!(answer(&missing), Some(Reply::Located(false)));
    assert!(matches!(
        answer(&Request::Locate { tool: "sh".to_string() }),
        Some(Reply::Located(_))
    ));
    let nowhere = Request::Stat { mount_point: "/surely/no/such/mount/point/7f3a".to_string() };
    assert_eq!(answer(&nowhere), Some(Reply::Stats(None)));
    assert!(matches!(
        answer(&Request::Stat { mount_point: "/".to_string() }),
        Some(Reply::Stats(_))
    ));
    assert_eq!(answer(&Request::ReadMounts), None);
    assert_eq!(answer(&Request::CheckCancel), None);
    assert_eq!(answer(&Request::Done), None);
    assert_eq!(answer(&Request::Sleep { millis: 5 }), None);
    assert_eq!(answer(&Request::Resolve { path: "/".to_string() }), None);
}
