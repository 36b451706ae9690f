use rambo::pressure::pressure_avg10_text;

fn reference(content: &str) -> Option<String> {
    for line in content.lines() {
        if line.starts_with("some ") {
            for part in line.split_whitespace() {
                if let Some(val) = part.strip_prefix("avg10=") {
                    return Some(val.to_string());
                }
            }
        }
    }
    None
}

#[test]
fn kernel_report() {
    let report = "some avg10=12.34 avg60=5.00 avg300=1.20 total=123456\nfull avg10=3.00 avg60=1.00 avg300=0.50 total=6543\n";
    assert_eq!(pressure_avg10_text(report).as_deref(), Some("12.34"));
    assert_eq!(pressure_avg10_text(report).unwrap().parse::<f64>().unwrap(), 12.34);
}

#[test]
fn no_some_line() {
    assert_eq!(pressure_avg10_text("full avg10=3.00\n"), None);
    assert_eq!(pressure_avg10_text(""), None);
    assert_eq!(pressure_avg10_text("some\n"), None);
}

#[test]
fn later_line_when_first_lacks_avg10() {
    let report = "some avg60=1.0\nsome  avg10=7.5\r\n";
    assert_eq!(pressure_avg10_text(report).as_deref(), Some("7.5"));
}

#[test]
fn matches_std_splitting() {
    let cases = [
        "some avg10=0.00 avg60=0.00",
        "some avg10=\n",
        "some\tavg10=1.5",
        "some avg10=9.99\r",
        "\n\nsome x avg10=2\n",
        "some avg10=1 avg10=2",
        "  some avg10=3",
        "some avg100=4 avg10=5",
        "some \u{2003}avg10=6.25\u{2003}x",
        "\r\nsome avg10=8\r\r\n",
    ];
    for c in cases {
        assert_eq!(pressure_avg10_text(c), reference(c), "case {c:?}");
    }
}

#[test]
fn some_line_not_full_line() {
    let report = "some avg10=1.23 avg60=0.50 avg300=0.10 total=12345\nfull avg10=9.99 avg60=0.00 avg300=0.00 total=0\n";
    assert_eq!(pressure_avg10_text(report).unwrap().parse::<f64>().ok(), Some(1.23));
}
