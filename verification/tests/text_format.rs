use tsukimi::text::{decimal_text, text_is};

#[test]
fn decimal_text_writes_numbers_like_display() {
    assert_eq!(decimal_text(0), "0");
    assert_eq!(decimal_text(7), "7");
    assert_eq!(decimal_text(10), "10");
    assert_eq!(decimal_text(2021), "2021");
    assert_eq!(decimal_text(u64::MAX), u64::MAX.to_string());
    for n in [1u64, 9, 99, 100, 101, 1_000_000, 48_000] {
        assert_eq!(decimal_text(n), n.to_string());
    }
}

#[test]
fn decimal_text_reads_back() {
    for n in [0u64, 5, 12, 305, 90_210, u64::MAX / 3] {
        assert_eq!(decimal_text(n).parse::<u64>().unwrap(), n);
    }
}

#[test]
fn text_is_compares_whole_text() {
    assert!(text_is(&"Movie".to_string(), "Movie"));
    assert!(!text_is(&"Movies".to_string(), "Movie"));
    assert!(!text_is(&"movie".to_string(), "Movie"));
    assert!(text_is(&String::new(), ""));
}
