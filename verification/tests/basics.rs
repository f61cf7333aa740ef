use hot_resize::device::{read_topology, DeviceAnalysis};
use hot_resize::pipeline::{Device, FileSystem};
use hot_resize::protocol::Reply;
use hot_resize::{analyze_device, check_requirements, BlockDevice, DeviceError};

#[test]
fn test_check_requirements() {
    let fs_types = vec!["ext4", "xfs", "btrfs"];
    match check_requirements(&fs_types) {
        Ok(_) => println!("All tools are available"),
        Err(DeviceError::MissingTool(tool)) => {
            assert!(
                ["lsblk", "growpart", "resize2fs", "xfs_growfs", "btrfs"].contains(&tool.as_str()),
                "Unexpected missing tool: {}",
                tool
            );
        }
        Err(e) => panic!("Unexpected error type: {}", e.message()),
    }
}

#[test]
fn test_analyze_invalid_device() {
    let analysis = analyze_device("/dev/nonexistent");
    let analysis = analysis.advance(Reply::Resolved(None));
    let result = analysis.result().unwrap();
    assert!(matches!(result, Err(DeviceError::NotFound(_))));
    assert!(matches!(analysis, DeviceAnalysis::Failed(_)));
}

#[test]
fn test_device_info_parsing() {
    let mock_output = "PKNAME=\"sda\" NAME=\"sda1\" PARTN=\"1\"";
    let fields = read_topology(mock_output).unwrap();
    let disk_name = fields.parent;
    let name = fields.name;
    let partition_number = fields.partition_number;

    assert_eq!(disk_name.unwrap(), "sda");
    assert_eq!(name.unwrap(), "sda1");
    assert_eq!(partition_number.unwrap(), 1);

    let mock_output = "PKNAME=\"\" NAME=\"vdb\" PARTN=\"\"";
    let fields = read_topology(mock_output).unwrap();
    let disk_name = fields.parent;
    let name = fields.name;
    let partition_number = fields.partition_number;

    assert_eq!(disk_name, None);
    assert_eq!(name.unwrap(), "vdb");
    assert_eq!(partition_number, None);
}

#[test]
fn test_block_device_creation() {
    let device = BlockDevice {
        real_device: String::from("/dev/sda1"),
        disk_name: "sda".to_string(),
        partition_number: Some(1),
    };

    assert_eq!(device.disk_name, "sda");
    assert_eq!(device.partition_number, Some(1));
    assert_eq!(device.real_device, String::from("/dev/sda1"));

    let device = BlockDevice {
        real_device: String::from("/dev/vdb"),
        disk_name: "vdb".to_string(),
        partition_number: None,
    };

    assert_eq!(device.disk_name, "vdb");
    assert_eq!(device.partition_number, None);
    assert_eq!(device.real_device, String::from("/dev/vdb"));
}

#[test]
fn test_filesystem_enum_conversion() {
    assert_eq!(FileSystem::Ext4.as_str(), "ext4");
    assert_eq!(FileSystem::Xfs.as_str(), "xfs");
    assert_eq!(FileSystem::Btrfs.as_str(), "btrfs");
}

#[test]
fn test_device_clone() {
    let device = Device {
        device: String::from("/dev/sda1"),
        fs_type: FileSystem::Ext4,
        mount_point: String::from("/"),
    };

    let cloned = device.clone();
    assert_eq!(device.device, cloned.device);
    assert_eq!(
        format!("{:?}", device.fs_type),
        format!("{:?}", cloned.fs_type)
    );
    assert_eq!(device.mount_point, cloned.mount_point);
}
