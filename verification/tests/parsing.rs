use pianki_supervisor::ready::parse_ready_port;

#[test]
fn extracts_the_announced_port() {
    let line = b"Server at http://localhost:9911 started";
    assert_eq!(parse_ready_port(line), Some(9911));
}

#[test]
fn marker_without_digits_yields_nothing() {
    let line = b"listening on http://localhost: soon";
    assert_eq!(parse_ready_port(line), None);
}

#[test]
fn marker_at_end_of_line_yields_nothing() {
    assert_eq!(parse_ready_port(b"http://localhost:"), None);
}

#[test]
fn line_without_marker_yields_nothing() {
    assert_eq!(parse_ready_port(b"backend warming up on port 9911"), None);
}

#[test]
fn empty_line_yields_nothing() {
    assert_eq!(parse_ready_port(b""), None);
}

#[test]
fn digits_stop_at_the_first_non_digit() {
    assert_eq!(parse_ready_port(b"http://localhost:9908/api ready"), Some(9908));
}

#[test]
fn the_first_marker_occurrence_decides() {
    // The first occurrence has no digits after it, so the line announces
    // nothing, even though a later occurrence would parse.
    let line = b"try http://localhost:x then http://localhost:80";
    assert_eq!(parse_ready_port(line), None);
}

#[test]
fn largest_port_is_accepted() {
    assert_eq!(parse_ready_port(b"http://localhost:65535"), Some(65535));
}

#[test]
fn value_above_the_largest_port_is_rejected() {
    assert_eq!(parse_ready_port(b"http://localhost:65536"), None);
    assert_eq!(parse_ready_port(b"http://localhost:99999 started"), None);
}

#[test]
fn port_zero_parses() {
    assert_eq!(parse_ready_port(b"http://localhost:0"), Some(0));
}

#[test]
fn leading_zeros_are_part_of_the_run() {
    assert_eq!(parse_ready_port(b"http://localhost:09911"), Some(9911));
}
