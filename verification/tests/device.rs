use hot_resize::device::{parse_topology, read_analysis, read_topology, Topology};
use hot_resize::requirements::{check_tools, required_tools, tool_of};
use hot_resize::protocol::{Invocation, Reply, Request, ToolOutcome};
use hot_resize::{analyze_device, check_requirements, BlockDevice, DeviceError};

fn exited(code: i32, stdout: &str, stderr: &str) -> ToolOutcome {
    ToolOutcome::Exited {
        code: Some(code),
        stdout: stdout.to_string(),
        stderr: stderr.to_string(),
    }
}

fn info(text: &str) -> DeviceError {
    DeviceError::DeviceInfo(text.to_string())
}

#[test]
fn partition_report_names_parent_and_index() {
    let device = parse_topology("/dev/sda1", "PKNAME=\"sda\" NAME=\"sda1\" PARTN=\"1\"\n").unwrap();
    assert_eq!(
        device,
        BlockDevice {
            real_device: "/dev/sda1".to_string(),
            disk_name: "sda".to_string(),
            partition_number: Some(1),
        }
    );
}

#[test]
fn whole_disk_report_uses_own_name_as_disk() {
    for name in ["vdb", "nvme0n1", "x"] {
        let report = format!("PKNAME=\"\" NAME=\"{}\" PARTN=\"\"\n", name);
        let device = parse_topology("/dev/disk", &report).unwrap();
        assert_eq!(device.disk_name, name);
        assert_eq!(device.partition_number, None);
        assert_eq!(device.real_device, "/dev/disk");
    }
}

#[test]
fn partition_report_reads_back_for_every_index() {
    for (parent, name, index) in [
        ("sda", "sda1", 1u32),
        ("nvme0n1", "nvme0n1p15", 15),
        ("vda", "", 128),
        ("mmcblk0", "mmcblk0p2", 0),
        ("x", "x4294967295", u32::MAX),
    ] {
        let report = format!("PKNAME=\"{}\" NAME=\"{}\" PARTN=\"{}\"", parent, name, index);
        assert_eq!(
            parse_topology("/dev/real", &report),
            Ok(BlockDevice {
                real_device: "/dev/real".to_string(),
                disk_name: parent.to_string(),
                partition_number: Some(index),
            })
        );
    }
}

#[test]
fn report_without_keys_in_some_order_still_parses() {
    let device = parse_topology("/dev/a", "PARTN=\"12\" junk NAME=\"a12\" PKNAME=\"a\"").unwrap();
    assert_eq!(device.disk_name, "a");
    assert_eq!(device.partition_number, Some(12));
    let device = parse_topology("/dev/a", "  NAME=a  ").unwrap();
    assert_eq!(device.disk_name, "a");
    assert_eq!(device.partition_number, None);
}

#[test]
fn later_tokens_replace_earlier_ones() {
    let fields = read_topology("PKNAME=\"a\" PKNAME=\"\" NAME=\"x\" NAME=\"\" PARTN=\"1\" PARTN=\"2\" PARTN=\"\"")
        .unwrap();
    assert_eq!(
        fields,
        Topology {
            parent: Some("a".to_string()),
            name: Some("".to_string()),
            partition_number: Some(2),
        }
    );
}

#[test]
fn only_the_piece_before_the_second_equals_sign_is_the_value() {
    let fields = read_topology("NAME=\"a=b\" PKNAME").unwrap();
    assert_eq!(fields.name, Some("a".to_string()));
    assert_eq!(fields.parent, None);
}

#[test]
fn empty_report_is_an_error_that_quotes_the_device() {
    for report in ["", "  \n\t"] {
        assert_eq!(
            parse_topology("/dev/sda1", report),
            Err(info("lsblk returned no output for device \"/dev/sda1\""))
        );
    }
    assert_eq!(
        parse_topology("/dev/we\"ird", ""),
        Err(info("lsblk returned no output for device \"/dev/we\\\"ird\""))
    );
}

#[test]
fn partition_index_that_is_no_number_is_an_error() {
    for bad in ["x", "-1", "4294967296", "1.5", " 1"] {
        let report = format!("PKNAME=\"sda\" NAME=\"sda1\" PARTN=\"{}\"", bad);
        if bad == " 1" {
            // the space splits the token: `PARTN="` keeps an empty value
            assert!(parse_topology("/dev/sda1", &report).is_ok());
            continue;
        }
        assert_eq!(parse_topology("/dev/sda1", &report), Err(info("Invalid partition number")));
        assert_eq!(read_topology(&report), None);
    }
    let report = "PARTN=\"x\" PARTN=\"1\" NAME=\"a\"";
    assert_eq!(parse_topology("/dev/a", report), Err(info("Invalid partition number")));
    let device = parse_topology("/dev/sda1", "PKNAME=\"sda\" PARTN=\"4294967295\"").unwrap();
    assert_eq!(device.partition_number, Some(u32::MAX));
}

#[test]
fn report_without_any_name_is_an_error() {
    for report in ["PARTN=\"1\"", "junk", "NAME=\"\" PKNAME=\"\"", "PKNAME NAME"] {
        assert_eq!(
            parse_topology("/dev/a", report),
            Err(info("Could not determine device name"))
        );
    }
}

#[test]
fn failed_query_is_an_error_with_its_diagnostics() {
    assert_eq!(
        read_analysis("/dev/a", &exited(32, "NAME=\"a\"", "lsblk: /dev/a: not a block device\n")),
        Err(info("lsblk failed with error: lsblk: /dev/a: not a block device\n"))
    );
    assert_eq!(
        read_analysis("/dev/a", &ToolOutcome::NotLaunched { reason: "No such file".to_string() }),
        Err(info("Failed to execute lsblk: No such file"))
    );
    assert_eq!(
        read_analysis(
            "/dev/a",
            &ToolOutcome::Exited { code: None, stdout: "NAME=\"a\"".to_string(), stderr: "killed".to_string() }
        ),
        Err(info("lsblk failed with error: killed"))
    );
    assert!(read_analysis("/dev/a", &exited(0, "NAME=\"a\"", "warning")).is_ok());
}

#[test]
fn analysis_resolves_then_queries() {
    let m = analyze_device("/dev/disk/by-label/root");
    assert_eq!(m.request(), Request::Resolve { path: "/dev/disk/by-label/root".to_string() });
    assert_eq!(m.result(), None);
    let m = m.advance(Reply::Resolved(Some("/dev/vda1".to_string())));
    assert_eq!(
        m.request(),
        Request::Run(Invocation {
            program: "lsblk".to_string(),
            args: vec!["-Pno".to_string(), "pkname,name,partn".to_string(), "/dev/vda1".to_string()],
        })
    );
    assert_eq!(m.result(), None);
    let m = m.advance(Reply::Tool(exited(0, "PKNAME=\"vda\" NAME=\"vda1\" PARTN=\"1\"\n", "")));
    assert_eq!(m.request(), Request::Done);
    assert_eq!(
        m.result(),
        Some(Ok(BlockDevice {
            real_device: "/dev/vda1".to_string(),
            disk_name: "vda".to_string(),
            partition_number: Some(1),
        }))
    );
    let same = m.clone().advance(Reply::Resolved(None));
    assert_eq!(same, m);
}

#[test]
fn unresolved_path_is_not_found() {
    let m = analyze_device("/dev/nonexistent").advance(Reply::Resolved(None));
    assert_eq!(m.request(), Request::Done);
    assert_eq!(m.result(), Some(Err(DeviceError::NotFound("/dev/nonexistent".to_string()))));
    let unanswered = analyze_device("/dev/x").advance(Reply::Logged);
    assert_eq!(unanswered, analyze_device("/dev/x"));
}

#[test]
fn device_error_messages() {
    let t = || "x".to_string();
    assert_eq!(DeviceError::NotFound(t()).message(), "Device not found: x");
    assert_eq!(DeviceError::MissingTool(t()).message(), "Required tool not found: x");
    assert_eq!(DeviceError::DeviceInfo(t()).message(), "Failed to get device info: x");
    assert_eq!(DeviceError::Io(t()).message(), "IO error: x");
    assert_eq!(DeviceError::Io(t()).duplicate(), DeviceError::Io(t()));
}

#[test]
fn tools_follow_the_types_in_order_and_once() {
    assert_eq!(required_tools(&[]).unwrap(), vec!["lsblk", "growpart"]);
    assert_eq!(
        required_tools(&["xfs", "ext4", "ext3", "btrfs", "xfs"]).unwrap(),
        vec!["lsblk", "growpart", "xfs_growfs", "resize2fs", "btrfs"]
    );
    assert_eq!(required_tools(&["ext2"]).unwrap(), vec!["lsblk", "growpart", "resize2fs"]);
    assert_eq!(tool_of("ext4"), Some("resize2fs".to_string()));
    assert_eq!(tool_of("EXT4"), None);
}

#[test]
fn first_unsupported_type_is_reported() {
    let want = DeviceError::MissingTool("Unsupported filesystem: zfs".to_string());
    assert_eq!(required_tools(&["ext4", "zfs", "ntfs"]), Err(want.clone()));
    assert_eq!(check_requirements(&["ext4", "zfs", "ntfs"]), Err(want));
    assert_eq!(
        check_requirements(&["Ext4"]),
        Err(DeviceError::MissingTool("Unsupported filesystem: Ext4".to_string()))
    );
}

#[test]
fn first_missing_tool_is_reported() {
    let tools: Vec<String> = ["lsblk", "growpart", "btrfs"].iter().map(|t| t.to_string()).collect();
    assert_eq!(check_tools(&tools, &vec![true, true, true]), Ok(()));
    assert_eq!(
        check_tools(&tools, &vec![true, false, false]),
        Err(DeviceError::MissingTool("growpart".to_string()))
    );
    assert_eq!(
        check_tools(&tools, &vec![false, true, true]),
        Err(DeviceError::MissingTool("lsblk".to_string()))
    );
    assert_eq!(check_tools(&tools, &vec![true]), Ok(()));
    assert_eq!(check_tools(&Vec::new(), &Vec::new()), Ok(()));
}

#[test]
fn requirements_name_a_needed_tool_when_one_is_missing() {
    match check_requirements(&["xfs"]) {
        Ok(()) => {}
        Err(DeviceError::MissingTool(tool)) => {
            assert!(["lsblk", "growpart", "xfs_growfs"].contains(&tool.as_str()));
        }
        Err(e) => panic!("unexpected error: {}", e.message()),
    }
}
