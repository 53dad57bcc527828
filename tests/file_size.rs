use status_line::size::{format_file_size, human_file_size};

#[test]
fn test_format_file_size() {
    let size: u64 = 271;
    let result = format_file_size(size);
    assert_eq!(result, "271B");
}

#[test]
fn format_zero_is_zero_bytes() {
    assert_eq!(format_file_size(0), "0B");
}

#[test]
fn format_exactly_1024_stays_in_bytes() {
    assert_eq!(format_file_size(1024), "1024B");
}

#[test]
fn format_just_over_1024_is_one_kilobyte() {
    assert_eq!(format_file_size(1025), "1KB");
}

#[test]
fn format_discards_the_fraction() {
    assert_eq!(format_file_size(1536), "1KB");
}

#[test]
fn format_one_mebibyte_stays_in_kilobytes() {
    assert_eq!(format_file_size(1024 * 1024), "1024KB");
}

#[test]
fn format_just_over_one_mebibyte_truncates_to_1024_kilobytes() {
    // 1048577 / 1024 is 1024, which is not over 1024: the unit stays KB.
    assert_eq!(format_file_size(1024 * 1024 + 1), "1024KB");
}

#[test]
fn format_reaches_megabytes_past_1024_kilobytes() {
    assert_eq!(format_file_size(1024 * 1025), "1MB");
}

#[test]
fn format_larger_units() {
    assert_eq!(format_file_size(5 * 1024 * 1024 * 1024), "5GB");
    assert_eq!(format_file_size(3 * 1024u64.pow(4) + 7), "3TB");
    assert_eq!(format_file_size(2 * 1024u64.pow(5) + 1), "2PB");
}

#[test]
fn format_largest_u64() {
    assert_eq!(format_file_size(u64::MAX), "15EB");
}

#[test]
fn format_multi_digit_values() {
    assert_eq!(format_file_size(1000), "1000B");
    assert_eq!(format_file_size(10 * 1024 + 1), "10KB");
    assert_eq!(format_file_size(999 * 1024 + 512), "999KB");
}

#[test]
fn human_size_absent_file_is_empty() {
    assert_eq!(human_file_size(None), "");
}

#[test]
fn human_size_empty_file_is_empty() {
    assert_eq!(human_file_size(Some(0)), "");
}

#[test]
fn human_size_formats_present_file() {
    assert_eq!(human_file_size(Some(271)), "271B");
    assert_eq!(human_file_size(Some(2048)), "2KB");
}
