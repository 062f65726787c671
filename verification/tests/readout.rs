use air_dashboard::readout::focused_text;

fn text(data: u16, units: &str) -> Option<String> {
    focused_text(data, units).map(|s| s.as_str().to_string())
}

#[test]
fn readout_of_co2_900() {
    assert_eq!(text(900, "ppm"), Some(" 900 ppm".to_string()));
}

#[test]
fn readout_has_no_leading_zeros() {
    assert_eq!(text(0, "F"), Some(" 0 F".to_string()));
    assert_eq!(text(7, "%"), Some(" 7 %".to_string()));
    assert_eq!(text(10, "%"), Some(" 10 %".to_string()));
    assert_eq!(text(100, "%"), Some(" 100 %".to_string()));
    assert_eq!(text(1005, "ppm"), Some(" 1005 ppm".to_string()));
    assert_eq!(text(65535, "F"), Some(" 65535 F".to_string()));
}

#[test]
fn readout_fills_the_buffer_exactly() {
    assert_eq!(text(9999, "ppm"), Some(" 9999 ppm".to_string()));
    assert_eq!(text(65535, "ab"), Some(" 65535 ab".to_string()));
}

#[test]
fn readout_that_does_not_fit_is_refused() {
    assert_eq!(text(10000, "ppm"), None);
    assert_eq!(text(65535, "ppm"), None);
    assert_eq!(text(1, "1234567"), None);
    assert_eq!(text(1, "123456"), Some(" 1 123456".to_string()));
}

#[test]
fn readout_counts_the_unit_in_bytes() {
    // the degree sign takes two bytes
    assert_eq!(text(21, "\u{b0}C"), Some(" 21 \u{b0}C".to_string()));
    assert_eq!(text(1234, "\u{b0}C"), Some(" 1234 \u{b0}C".to_string()));
    assert_eq!(text(12345, "\u{b0}C"), None);
}

#[test]
fn readout_without_a_unit() {
    assert_eq!(text(42, ""), Some(" 42 ".to_string()));
}
