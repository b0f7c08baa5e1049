use cleanup::{contains_text, nth_token, Utils};

#[test]
fn format_size_scales_units() {
    assert_eq!(Utils::format_size(0), "0.00 B");
    assert_eq!(Utils::format_size(512), "512.00 B");
    assert_eq!(Utils::format_size(2048), "2.00 KB");
    assert_eq!(Utils::format_size(5_242_880), "5.00 MB");
}

#[test]
fn format_size_keeps_bytes_up_to_1024() {
    assert_eq!(Utils::format_size(1024), "1024.00 B");
    assert_eq!(Utils::format_size(1025), "1.00 KB");
}

#[test]
fn format_size_two_decimals() {
    assert_eq!(Utils::format_size(1536), "1.50 KB");
    assert_eq!(Utils::format_size(1_073_741_824 * 3), "3.00 GB");
    assert_eq!(Utils::format_size(1_099_511_627_776 * 2), "2.00 TB");
    assert_eq!(Utils::format_size(1_048_576 + 1_048_576 / 4), "1.25 MB");
}

#[test]
fn format_size_largest_count_stays_in_terabytes() {
    assert_eq!(Utils::format_size(u64::MAX), "16777216.00 TB");
}

#[test]
fn format_size_unit_never_shrinks_as_bytes_grow() {
    let units = ["B", "KB", "MB", "GB", "TB"];
    let unit_of = |b: u64| {
        let text = Utils::format_size(b);
        let unit = text.split(' ').nth(1).unwrap().to_string();
        units.iter().position(|u| *u == unit).unwrap()
    };
    let samples = [0u64, 1, 1023, 1024, 1025, 2048, 1_048_576, 1_048_577, 5_242_880, u64::MAX];
    for w in samples.windows(2) {
        assert!(unit_of(w[0]) <= unit_of(w[1]));
    }
}

#[test]
fn file_sizes_add_up_independent_of_depth() {
    let mut total = 0u64;
    for len in [2048u64, 1024] {
        total = Utils::add_file_size(total, len);
    }
    assert_eq!(total, 3072);
}

#[test]
fn file_sizes_hold_at_the_largest_count() {
    assert_eq!(Utils::add_file_size(u64::MAX - 1, 5), u64::MAX);
}

#[test]
fn tokens_are_split_on_white_space() {
    assert_eq!(nth_token("rustc 1.75.0 (82e1608df 2023-12-21)", 1), Some("1.75.0".to_string()));
    assert_eq!(nth_token("  stable-x86_64 (default)\n", 0), Some("stable-x86_64".to_string()));
    assert_eq!(nth_token("\tsolana-cli\u{3000}1.18.4", 1), Some("1.18.4".to_string()));
    assert_eq!(nth_token("only", 1), None);
    assert_eq!(nth_token("   ", 0), None);
}

#[test]
fn text_occurs_as_a_run() {
    assert!(contains_text("stable-aarch64-apple-darwin", "stable"));
    assert!(contains_text("abc", ""));
    assert!(!contains_text("nightly-aarch64", "stable"));
    assert!(!contains_text("st", "stable"));
}
