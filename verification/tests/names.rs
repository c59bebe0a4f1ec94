use lz4tool::names::{add_suffix, ends_with_suffix, is_stdio, strip_suffix};

#[test]
fn suffix_detected() {
    assert!(ends_with_suffix("data.lz4"));
    assert!(ends_with_suffix(".lz4"));
    assert!(ends_with_suffix("a.b.lz4"));
}

#[test]
fn suffix_absent() {
    assert!(!ends_with_suffix("data"));
    assert!(!ends_with_suffix("lz4"));
    assert!(!ends_with_suffix("data.lz"));
    assert!(!ends_with_suffix("data.LZ4"));
    assert!(!ends_with_suffix(""));
}

#[test]
fn add_suffix_appends() {
    assert_eq!(add_suffix("report.txt"), "report.txt.lz4");
    assert_eq!(add_suffix(""), ".lz4");
}

#[test]
fn strip_suffix_removes() {
    assert_eq!(strip_suffix("data.lz4"), "data");
    assert_eq!(strip_suffix("a.b.lz4"), "a.b");
    assert_eq!(strip_suffix(".lz4"), "");
}

#[test]
fn suffix_round_trip_on_names() {
    for name in ["report.txt", "x", "", "weird name with spaces"] {
        let full = add_suffix(name);
        assert!(ends_with_suffix(&full));
        assert_eq!(strip_suffix(&full), name);
    }
}

#[test]
fn stdio_name_recognized() {
    assert!(is_stdio("-"));
    assert!(!is_stdio("--"));
    assert!(!is_stdio(""));
    assert!(!is_stdio("x"));
}
