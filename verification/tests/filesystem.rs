use hot_resize::protocol::{Invocation, Reply, Request, ToolOutcome};
use hot_resize::detect::describe_answer;
use hot_resize::filesystem::{fs_kind, FsKind};
use hot_resize::resize::{
    get_fs_type, resize_filesystem, resize_fs, resize_luks, ResizeError,
};

fn run(program: &str, args: &[&str]) -> Request {
    Request::Run(Invocation {
        program: program.to_string(),
        args: args.iter().map(|a| a.to_string()).collect(),
    })
}

fn exited(code: i32, stdout: &str, stderr: &str) -> Reply {
    Reply::Tool(ToolOutcome::Exited {
        code: Some(code),
        stdout: stdout.to_string(),
        stderr: stderr.to_string(),
    })
}

fn not_launched(reason: &str) -> Reply {
    Reply::Tool(ToolOutcome::NotLaunched { reason: reason.to_string() })
}

#[test]
fn families_ignore_ascii_case() {
    assert_eq!(fs_kind("ext4"), Some(FsKind::Ext));
    assert_eq!(fs_kind("ext3"), Some(FsKind::Ext));
    assert_eq!(fs_kind("ext2"), Some(FsKind::Ext));
    assert_eq!(fs_kind("EXT4"), Some(FsKind::Ext));
    assert_eq!(fs_kind("xfs"), Some(FsKind::Xfs));
    assert_eq!(fs_kind("Xfs"), Some(FsKind::Xfs));
    assert_eq!(fs_kind("btrfs"), Some(FsKind::Btrfs));
    assert_eq!(fs_kind("BtrFS"), Some(FsKind::Btrfs));
    assert_eq!(fs_kind("ext5"), None);
    assert_eq!(fs_kind("ntfs"), None);
    assert_eq!(fs_kind(""), None);
    assert_eq!(fs_kind(" ext4"), None);
}

#[test]
fn detection_asks_the_metadata_probe_first() {
    let m = get_fs_type("/dev/vda1");
    assert_eq!(m.request(), run("blkid", &["-s", "TYPE", "-o", "value", "/dev/vda1"]));
    assert_eq!(m.result(), None);
    let found = m.advance(exited(0, "ext4\n", ""));
    assert_eq!(found.result(), Some(Ok("ext4".to_string())));
    assert_eq!(found.request(), Request::Done);
}

#[test]
fn detection_falls_back_to_the_topology_query() {
    for reply in [exited(2, "ext4\n", ""), exited(0, "  \n", ""), not_launched("no blkid")] {
        let m = get_fs_type("/dev/vda1").advance(reply);
        assert_eq!(m.result(), None);
        assert_eq!(m.request(), run("lsblk", &["-ndo", "FSTYPE", "/dev/vda1"]));
        let found = m.advance(exited(0, " xfs \n", ""));
        assert_eq!(found.result(), Some(Ok("xfs".to_string())));
    }
}

#[test]
fn detection_falls_back_to_the_file_tool() {
    let m = get_fs_type("/dev/vda1")
        .advance(exited(1, "", ""))
        .advance(exited(0, "", ""));
    assert_eq!(m.request(), run("file", &["-Ls", "/dev/vda1"]));
    let found = m.clone().advance(exited(
        0,
        "Linux rev 1.0 EXT4 filesystem data, UUID=1234 (extents) (64bit)\n",
        "",
    ));
    assert_eq!(found.result(), Some(Ok("ext4".to_string())));
    let xfs = m.clone().advance(exited(0, "SGI XFS filesystem data (blksz 4096)", ""));
    assert_eq!(xfs.result(), Some(Ok("xfs".to_string())));
    let btrfs = m.clone().advance(exited(0, "BTRFS Filesystem sectorsize 4096", ""));
    assert_eq!(btrfs.result(), Some(Ok("btrfs".to_string())));
}

#[test]
fn detection_fails_when_all_three_fail() {
    let m = get_fs_type("/dev/vda1")
        .advance(not_launched("a"))
        .advance(exited(1, "ext4", "b"));
    for last in [exited(0, "data", ""), exited(1, "ext4 filesystem", ""), not_launched("c")] {
        let failed = m.clone().advance(last);
        assert_eq!(failed.result(), Some(Err(ResizeError::DetectFs("/dev/vda1".to_string()))));
        assert_eq!(failed.request(), Request::Done);
    }
    assert_eq!(
        ResizeError::DetectFs("/dev/vda1".to_string()).message(),
        "Failed to detect filesystem type for /dev/vda1"
    );
}

#[test]
fn description_names_the_first_known_type() {
    assert_eq!(describe_answer("ext4 and xfs"), Some("ext4".to_string()));
    assert_eq!(describe_answer("btrfs then XFS"), Some("xfs".to_string()));
    assert_eq!(describe_answer("BTRFS"), Some("btrfs".to_string()));
    assert_eq!(describe_answer("ext3 filesystem"), None);
    assert_eq!(describe_answer(""), None);
}

#[test]
fn ext_runs_the_extend_tool_once() {
    for name in ["ext4", "ext3", "ext2", "EXT4"] {
        let m = resize_fs(name, "/dev/vda1", "/");
        assert_eq!(m.request(), run("resize2fs", &["-f", "/dev/vda1"]));
        assert_eq!(m.result(), None);
        assert_eq!(m.clone().advance(exited(0, "", "")).result(), Some(Ok(())));
        let failed = m.clone().advance(exited(1, "", "bad superblock"));
        assert_eq!(
            failed.result(),
            Some(Err(ResizeError::ResizeFs(format!("Failed to resize {} filesystem", name))))
        );
        assert_eq!(failed.request(), Request::Done);
        let unlaunched = m.advance(not_launched("missing"));
        assert_eq!(
            unlaunched.result(),
            Some(Err(ResizeError::ResizeFs(format!("Failed to resize {} filesystem", name))))
        );
    }
}

#[test]
fn xfs_retries_with_the_data_flag() {
    let m = resize_fs("xfs", "/dev/vdb1", "/data");
    assert_eq!(m.request(), run("xfs_growfs", &["/data"]));
    assert_eq!(m.clone().advance(exited(0, "", "")).result(), Some(Ok(())));
    let retry = m.clone().advance(exited(1, "", "xfs_growfs: not mounted"));
    assert_eq!(retry.result(), None);
    assert_eq!(retry.request(), run("xfs_growfs", &["-d", "/data"]));
    assert_eq!(retry.clone().advance(exited(0, "", "")).result(), Some(Ok(())));
    let want = Some(Err(ResizeError::ResizeFs("Failed to resize XFS filesystem".to_string())));
    assert_eq!(retry.clone().advance(exited(1, "", "")).result(), want);
    assert_eq!(retry.advance(not_launched("gone")).result(), want);
    assert_eq!(m.advance(not_launched("missing")).result(), want);
}

#[test]
fn btrfs_retries_with_the_legacy_form() {
    let m = resize_fs("btrfs", "/dev/vdc", "/pool");
    assert_eq!(m.request(), run("btrfs", &["filesystem", "resize", "max", "/pool"]));
    assert_eq!(m.clone().advance(exited(0, "", "")).result(), Some(Ok(())));
    let retry = m.clone().advance(exited(1, "", "ERROR"));
    assert_eq!(retry.request(), run("btrfs", &["resize", "max", "/pool"]));
    assert_eq!(retry.clone().advance(exited(0, "", "")).result(), Some(Ok(())));
    let want = Some(Err(ResizeError::ResizeFs("Failed to resize Btrfs filesystem".to_string())));
    assert_eq!(retry.advance(exited(1, "", "ERROR")).result(), want);
    assert_eq!(m.advance(not_launched("missing")).result(), want);
}

#[test]
fn unknown_type_fails_at_once() {
    let m = resize_fs("ntfs", "/dev/vda1", "/");
    assert_eq!(m.request(), Request::Done);
    assert_eq!(
        m.result(),
        Some(Err(ResizeError::ResizeFs("Unsupported filesystem: ntfs".to_string())))
    );
    assert_eq!(
        m.result().unwrap().unwrap_err().message(),
        "Failed to resize filesystem: Unsupported filesystem: ntfs"
    );
}

#[test]
fn detected_type_is_preferred_over_declared_type() {
    let m = resize_filesystem("/dev/vda1", "ext4", "/");
    assert_eq!(m.request(), run("blkid", &["-s", "TYPE", "-o", "value", "/dev/vda1"]));
    let m = m.advance(exited(0, "xfs\n", ""));
    assert_eq!(m.request(), run("xfs_growfs", &["/"]));
    assert_eq!(m.result(), None);
    let m = m.advance(exited(0, "", ""));
    assert_eq!(m.result(), Some(Ok(())));
    assert_eq!(m.request(), Request::Done);
}

#[test]
fn declared_type_is_used_where_detection_fails() {
    let m = resize_filesystem("/dev/vda1", "btrfs", "/mnt")
        .advance(exited(1, "", ""))
        .advance(exited(1, "", ""));
    assert_eq!(m.request(), run("file", &["-Ls", "/dev/vda1"]));
    let m = m.advance(not_launched("no file tool"));
    assert_eq!(m.request(), run("btrfs", &["filesystem", "resize", "max", "/mnt"]));
}

#[test]
fn detected_type_that_cannot_be_grown_fails() {
    let m = resize_filesystem("/dev/vda1", "ext4", "/").advance(exited(0, "vfat\n", ""));
    assert_eq!(m.request(), Request::Done);
    assert_eq!(
        m.result(),
        Some(Err(ResizeError::ResizeFs("Unsupported filesystem: vfat".to_string())))
    );
}

#[test]
fn container_resize_reports_the_tool() {
    let m = resize_luks("/dev/mapper/root");
    assert_eq!(m.request(), run("cryptsetup", &["resize", "/dev/mapper/root"]));
    assert_eq!(m.result(), None);
    assert_eq!(m.clone().advance(exited(0, "", "")).result(), Some(Ok(())));
    assert_eq!(
        m.clone().advance(exited(1, "", "Device root is not active.")).result(),
        Some(Err(ResizeError::ResizeLuks("Device root is not active.".to_string())))
    );
    assert_eq!(
        m.advance(not_launched("No such file or directory")).result(),
        Some(Err(ResizeError::CommandFailed("No such file or directory".to_string())))
    );
}

#[test]
fn resize_error_messages() {
    let t = || "x".to_string();
    assert_eq!(ResizeError::ResizeFs(t()).message(), "Failed to resize filesystem: x");
    assert_eq!(ResizeError::CommandFailed(t()).message(), "Command execution failed: x");
    assert_eq!(ResizeError::DeviceNotFound(t()).message(), "Device not found: x");
    assert_eq!(ResizeError::ResizeLuks(t()).message(), "Failed to resize LUKS container: x");
    assert_eq!(
        ResizeError::AlternativeApproachFailed(t()).message(),
        "Alternative approach failed: x"
    );
    assert_eq!(ResizeError::ResizeFs(t()).duplicate(), ResizeError::ResizeFs(t()));
}
