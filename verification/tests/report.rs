use hot_resize::protocol::FsStats;
use hot_resize::report::{
    figures_usable, get_device_for_mount, get_filesystem_info_native, percent_of,
    rounded_quotient, to_nearest_double,
};
use hot_resize::resize::format_bytes_human;

fn float_size(bytes: u64) -> String {
    let units = ["B", "K", "M", "G", "T", "P"];
    let mut size = bytes as f64;
    let mut unit_index = 0;
    while size >= 1024.0 && unit_index < units.len() - 1 {
        size /= 1024.0;
        unit_index += 1;
    }
    if unit_index == 0 {
        format!("{:.0}{}", size, units[unit_index])
    } else if size < 10.0 {
        format!("{:.1}{}", size, units[unit_index])
    } else {
        format!("{:.0}{}", size, units[unit_index])
    }
}

fn float_percent(used: u64, total: u64) -> u8 {
    if total > 0 {
        ((used as f64 / total as f64) * 100.0) as u8
    } else {
        0
    }
}

fn samples() -> Vec<u64> {
    let mut out: Vec<u64> = vec![0, 1, 9, 10, 511, 512, 1000, 1023, 1024, 1025, 1075, 1076, 1126, 1127, 1152, 1280, 1792];
    for shift in 10..64u32 {
        let p = 1u64 << shift;
        for delta in [0u64, 1, 2, 3, 511, 512, 513, 1023] {
            out.push(p.wrapping_sub(delta));
            out.push(p.wrapping_add(delta));
            out.push((p / 2).wrapping_mul(3).wrapping_add(delta));
            out.push((p / 4).wrapping_mul(5).wrapping_sub(delta));
            out.push((p / 1024).wrapping_mul(10 * 1024 - 51).wrapping_add(delta));
            out.push((p / 1024).wrapping_mul(10 * 1024).wrapping_sub(delta));
            out.push((p / 1024).wrapping_mul(1024 * 21 / 2).wrapping_add(delta));
            out.push((p / 1024).wrapping_mul(1024 * 23 / 2).wrapping_sub(delta));
        }
    }
    let mut x: u64 = 0x9e37_79b9_7f4a_7c15;
    for _ in 0..4000 {
        x ^= x << 13;
        x ^= x >> 7;
        x ^= x << 17;
        out.push(x);
        out.push(x >> (x % 64));
    }
    out.push(u64::MAX);
    out.push(u64::MAX - 1);
    out.push(u64::MAX - 1024);
    out
}

#[test]
fn sizes_below_one_kibibyte_are_written_in_full() {
    assert_eq!(format_bytes_human(0), "0B");
    assert_eq!(format_bytes_human(1), "1B");
    assert_eq!(format_bytes_human(512), "512B");
    assert_eq!(format_bytes_human(1023), "1023B");
}

#[test]
fn sizes_below_ten_units_have_one_decimal() {
    assert_eq!(format_bytes_human(1024), "1.0K");
    assert_eq!(format_bytes_human(1536), "1.5K");
    assert_eq!(format_bytes_human(1024 * 1024), "1.0M");
    assert_eq!(format_bytes_human(5 * 1024 * 1024 * 1024), "5.0G");
    assert_eq!(format_bytes_human(1u64 << 40), "1.0T");
    assert_eq!(format_bytes_human(1u64 << 50), "1.0P");
    assert_eq!(format_bytes_human(10239), "10.0K");
    assert_eq!(format_bytes_human(9 * 1024 + 972), "9.9K");
    assert_eq!(format_bytes_human(9 * 1024 + 973), "10.0K");
}

#[test]
fn sizes_from_ten_units_on_have_no_decimal() {
    assert_eq!(format_bytes_human(10 * 1024), "10K");
    assert_eq!(format_bytes_human(20 * 1024 * 1024 * 1024), "20G");
    assert_eq!(format_bytes_human(1023 * 1024 + 1023), "1024K");
    assert_eq!(format_bytes_human(u64::MAX), "16384P");
    assert_eq!(format_bytes_human(1u64 << 63), "8192P");
}

#[test]
fn halves_round_to_the_even_neighbour() {
    assert_eq!(format_bytes_human(1280), "1.2K");
    assert_eq!(format_bytes_human(1792), "1.8K");
    assert_eq!(format_bytes_human(10 * 1024 + 512), "10K");
    assert_eq!(format_bytes_human(11 * 1024 + 512), "12K");
    assert_eq!(format_bytes_human(11 * 1024 + 511), "11K");
    assert_eq!(format_bytes_human(10 * 1024 + 513), "11K");
}

#[test]
fn sizes_agree_with_double_precision_formatting() {
    for bytes in samples() {
        assert_eq!(format_bytes_human(bytes), float_size(bytes), "size of {}", bytes);
    }
}

#[test]
fn conversion_to_double_rounds_to_53_bits() {
    assert_eq!(to_nearest_double(0), 0);
    assert_eq!(to_nearest_double((1 << 53) - 1), (1 << 53) - 1);
    assert_eq!(to_nearest_double(1 << 53), 1 << 53);
    assert_eq!(to_nearest_double((1 << 53) + 1), 1 << 53);
    assert_eq!(to_nearest_double((1 << 53) + 2), (1 << 53) + 2);
    assert_eq!(to_nearest_double((1 << 53) + 3), (1 << 53) + 4);
    assert_eq!(to_nearest_double(u64::MAX as u128), 1u128 << 64);
    for n in samples() {
        assert_eq!(to_nearest_double(n as u128) as f64, n as f64, "double of {}", n);
    }
}

#[test]
fn quotients_round_half_to_even() {
    assert_eq!(rounded_quotient(0, 4), 0);
    assert_eq!(rounded_quotient(1, 4), 0);
    assert_eq!(rounded_quotient(2, 4), 0);
    assert_eq!(rounded_quotient(3, 4), 1);
    assert_eq!(rounded_quotient(6, 4), 2);
    assert_eq!(rounded_quotient(10, 4), 2);
    assert_eq!(rounded_quotient(14, 4), 4);
    assert_eq!(rounded_quotient(7, 1), 7);
}

#[test]
fn percent_is_cut_as_double_precision_cuts_it() {
    assert_eq!(percent_of(0, 100), 0);
    assert_eq!(percent_of(50, 100), 50);
    assert_eq!(percent_of(100, 100), 100);
    assert_eq!(percent_of(1, 3), 33);
    assert_eq!(percent_of(2, 3), 66);
    assert_eq!(percent_of(29, 100), 28);
    assert_eq!(percent_of(57, 100), 56);
    assert_eq!(percent_of(58, 100), 57);
    assert_eq!(percent_of(7, 0), 0);
    assert_eq!(percent_of(0, 0), 0);
    assert_eq!(percent_of(300, 100), 255);
    assert_eq!(percent_of(u64::MAX, 1), 255);
    assert_eq!(percent_of(1, u64::MAX), 0);
}

#[test]
fn percent_agrees_with_double_precision_arithmetic() {
    for total in 1..=300u64 {
        for used in 0..=total {
            assert_eq!(percent_of(used, total), float_percent(used, total), "{}/{}", used, total);
        }
    }
    let all = samples();
    for pair in all.windows(2) {
        let (a, b) = (pair[0], pair[1]);
        let (used, total) = if a <= b { (a, b) } else { (b, a) };
        assert_eq!(percent_of(used, total), float_percent(used, total), "{}/{}", used, total);
        assert_eq!(percent_of(total, used), float_percent(total, used), "{}/{}", total, used);
    }
    for blocks in [1_000u64, 2_621_440, 26_214_400, 1 << 40] {
        for k in 0..=100u64 {
            let used = blocks / 100 * k * 4096;
            let total = blocks * 4096;
            assert_eq!(percent_of(used, total), float_percent(used, total), "{}/{}", used, total);
        }
    }
}

#[test]
fn mount_table_gives_the_device_of_a_mount_point() {
    let mounts = "sysfs /sys sysfs rw 0 0\n/dev/vda1 / ext4 rw,relatime 0 0\n/dev/vdb1 /data xfs rw 0 0\ntmpfs / tmpfs rw 0 0\n";
    assert_eq!(get_device_for_mount(mounts, "/"), Some("/dev/vda1".to_string()));
    assert_eq!(get_device_for_mount(mounts, "/data"), Some("/dev/vdb1".to_string()));
    assert_eq!(get_device_for_mount(mounts, "/sys"), Some("sysfs".to_string()));
    assert_eq!(get_device_for_mount(mounts, "/dat"), None);
    assert_eq!(get_device_for_mount(mounts, "ext4"), None);
    assert_eq!(get_device_for_mount("", "/"), None);
    assert_eq!(get_device_for_mount("lonely\n\n  a   /x  \r\n", "/x"), Some("a".to_string()));
}

#[test]
fn capacity_report_lays_out_the_columns() {
    let stats = FsStats { fragment_size: 4096, blocks: 2_621_440, blocks_free: 1_310_720, blocks_available: 1_179_648 };
    assert_eq!(
        get_filesystem_info_native(&stats, "/dev/vda1", "/"),
        Some(
            "Filesystem      Size  Used Avail Use% Mounted on\n/dev/vda1        10G  5.0G  4.5G  50% /"
                .to_string()
        )
    );
    let small = FsStats { fragment_size: 512, blocks: 100, blocks_free: 71, blocks_available: 2 };
    assert_eq!(
        get_filesystem_info_native(&small, "/dev/mapper/a-very-long-name", "/mnt/x"),
        Some(
            "Filesystem      Size  Used Avail Use% Mounted on\n/dev/mapper/a-very-long-name  50K   14K  1.0K  28% /mnt/x"
                .to_string()
        )
    );
    let empty = FsStats { fragment_size: 4096, blocks: 0, blocks_free: 0, blocks_available: 0 };
    assert_eq!(
        get_filesystem_info_native(&empty, "none", "/proc"),
        Some("Filesystem      Size  Used Avail Use% Mounted on\nnone              0B    0B    0B   0% /proc".to_string())
    );
}

#[test]
fn figures_that_describe_no_filesystem_give_no_report() {
    let overflow = FsStats { fragment_size: 1 << 40, blocks: 1 << 40, blocks_free: 0, blocks_available: 0 };
    assert!(!figures_usable(&overflow));
    assert_eq!(get_filesystem_info_native(&overflow, "d", "/"), None);
    let more_free = FsStats { fragment_size: 4096, blocks: 10, blocks_free: 11, blocks_available: 0 };
    assert!(!figures_usable(&more_free));
    assert_eq!(get_filesystem_info_native(&more_free, "d", "/"), None);
    let wide_available = FsStats { fragment_size: 1 << 32, blocks: 1, blocks_free: 0, blocks_available: 1 << 33 };
    assert!(!figures_usable(&wide_available));
    let free_overflows = FsStats { fragment_size: 1 << 32, blocks: 1, blocks_free: 1 << 33, blocks_available: 0 };
    assert!(!figures_usable(&free_overflows));
    let fine = FsStats { fragment_size: 4096, blocks: 10, blocks_free: 10, blocks_available: 10 };
    assert!(figures_usable(&fine));
}
