use repo_porter::fmt_size::format_file_size;
use repo_porter::sanitize::sanitize_path;

#[test]
fn bytes_are_plain() {
    assert_eq!(format_file_size(0), "0 B");
    assert_eq!(format_file_size(1), "1 B");
    assert_eq!(format_file_size(512), "512 B");
    assert_eq!(format_file_size(1023), "1023 B");
}

#[test]
fn kilobytes() {
    assert_eq!(format_file_size(1024), "1.00 KB");
    assert_eq!(format_file_size(1025), "1.00 KB");
    assert_eq!(format_file_size(1536), "1.50 KB");
}

#[test]
fn megabytes_and_gigabytes() {
    assert_eq!(format_file_size(1048576), "1.00 MB");
    assert_eq!(format_file_size(1073741824), "1.00 GB");
    assert_eq!(format_file_size(1610612736), "1.50 GB");
    assert_eq!(format_file_size(2147483648), "2.00 GB");
}

#[test]
fn ties_round_to_even() {
    // 1152 bytes is exactly 1.125 KB
    assert_eq!(format_file_size(1152), "1.12 KB");
}

#[test]
fn largest_size() {
    assert_eq!(format_file_size(u64::MAX), "17179869184.00 GB");
}

#[test]
fn unit_never_shrinks() {
    let sizes = [0u64, 1023, 1024, 1048575, 1048576, 1073741823, 1073741824, u64::MAX];
    let rank = |s: &str| {
        if s.ends_with(" GB") {
            3
        } else if s.ends_with(" MB") {
            2
        } else if s.ends_with(" KB") {
            1
        } else {
            0
        }
    };
    let mut last = 0;
    for s in sizes {
        let r = rank(&format_file_size(s));
        assert!(r >= last);
        last = r;
    }
}

#[test]
fn sanitize_replaces_reserved_characters() {
    assert_eq!(sanitize_path("a/b:c*d"), "a_b_c_d");
    assert_eq!(sanitize_path("<>:\"/\\|?*"), "_________");
    assert_eq!(sanitize_path("plain-name.txt"), "plain-name.txt");
    assert_eq!(sanitize_path(""), "");
}
