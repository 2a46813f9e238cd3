use masterbooter::updater::{format_size, is_newer_version};

#[test]
fn test_version_comparison() {
    assert!(is_newer_version("0.1.0", "0.2.0"));
    assert!(is_newer_version("0.1.0", "1.0.0"));
    assert!(is_newer_version("1.0.0", "1.0.1"));
    assert!(is_newer_version("0.9.9", "1.0.0"));

    assert!(!is_newer_version("1.0.0", "1.0.0"));
    assert!(!is_newer_version("0.1.0", "0.1.0"));

    assert!(!is_newer_version("1.0.0", "0.9.0"));
    assert!(!is_newer_version("2.0.0", "1.0.0"));
}

#[test]
fn test_format_size() {
    assert_eq!(format_size(0), "0 bytes");
    assert_eq!(format_size(500), "500 bytes");
    assert_eq!(format_size(1024), "1 KB");
    assert_eq!(format_size(1_048_576), "1.0 MB");
    assert_eq!(format_size(9_000_000), "8.6 MB");
    assert_eq!(format_size(1_073_741_824), "1.0 GB");
}

#[test]
fn version_parts_that_are_not_numbers_count_as_zero() {
    assert!(is_newer_version("1.x.0", "1.0.1"));
    assert!(!is_newer_version("1.0", "1.0.0"));
    assert!(is_newer_version("", "0.0.1"));
}

#[test]
fn format_size_matches_float_formatting() {
    for &b in &[
        1023u64, 1536, 2047, 2048, 10_240, 524_288, 1_048_575, 1_572_864, 5_000_000,
        1_500_000_000, 10_737_418_240, 123_456_789_012, u64::MAX / 3,
    ] {
        let expected = if b >= 1_073_741_824 {
            format!("{:.1} GB", b as f64 / 1_073_741_824.0)
        } else if b >= 1_048_576 {
            format!("{:.1} MB", b as f64 / 1_048_576.0)
        } else if b >= 1024 {
            format!("{:.0} KB", b as f64 / 1024.0)
        } else {
            format!("{} bytes", b)
        };
        assert_eq!(format_size(b), expected, "bytes = {}", b);
    }
}
