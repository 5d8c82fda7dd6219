use port_health::port_finder::{parse_port, port_or_default, PortScan};

#[test]
fn scan_returns_first_free_port() {
    // Ports 5000 and 5001 probe as occupied, 5002 as free.
    let mut scan = PortScan::new(5000, 5002);
    assert_eq!(scan.pending_port(), Some(5000));
    assert!(scan.record_probe(false).is_none());
    assert_eq!(scan.pending_port(), Some(5001));
    assert!(scan.record_probe(false).is_none());
    assert_eq!(scan.pending_port(), Some(5002));
    let res = scan.record_probe(true).expect("scan should be decided");
    assert_eq!(res.port, 5002);
    assert!(res.success);
    assert!(res.error.is_none());
}

#[test]
fn scan_stops_at_first_free_port() {
    let mut scan = PortScan::new(7000, 7010);
    assert!(scan.record_probe(false).is_none());
    let res = scan.record_probe(true).expect("scan should be decided");
    assert!(res.success);
    assert_eq!(res.port, 7001);
}

#[test]
fn all_ports_occupied_reports_failure() {
    let mut scan = PortScan::new(6000, 6002);
    assert!(scan.record_probe(false).is_none());
    assert!(scan.record_probe(false).is_none());
    let res = scan.record_probe(false).expect("scan should be decided");
    assert!(!res.success);
    assert_eq!(res.port, 6000);
    assert_eq!(res.error.as_deref(), Some("No free port found in range"));
}

#[test]
fn empty_range_fails_without_probe() {
    let scan = PortScan::new(6000, 5999);
    assert_eq!(scan.pending_port(), None);
    let res = scan.exhausted_result();
    assert!(!res.success);
    assert_eq!(res.port, 6000);
    assert_eq!(res.error.as_deref(), Some("No free port found in range"));
}

#[test]
fn single_port_range() {
    let mut scan = PortScan::new(8080, 8080);
    let res = scan.record_probe(true).expect("scan should be decided");
    assert!(res.success);
    assert_eq!(res.port, 8080);

    let mut scan = PortScan::new(8080, 8080);
    let res = scan.record_probe(false).expect("scan should be decided");
    assert!(!res.success);
    assert_eq!(res.port, 8080);
}

#[test]
fn widest_range_is_exhaustible() {
    let mut scan = PortScan::new(65534, 65535);
    assert!(scan.record_probe(false).is_none());
    assert_eq!(scan.pending_port(), Some(65535));
    let res = scan.record_probe(false).expect("scan should be decided");
    assert!(!res.success);
    assert_eq!(scan.pending_port(), None);
}

#[test]
fn parse_port_accepts_decimals() {
    assert_eq!(parse_port("3000"), Some(3000));
    assert_eq!(parse_port("65535"), Some(65535));
    assert_eq!(parse_port("0"), Some(0));
    assert_eq!(parse_port("+80"), Some(80));
    assert_eq!(parse_port("0080"), Some(80));
}

#[test]
fn parse_port_rejects_bad_input() {
    assert_eq!(parse_port(""), None);
    assert_eq!(parse_port("+"), None);
    assert_eq!(parse_port("abc"), None);
    assert_eq!(parse_port("80a"), None);
    assert_eq!(parse_port("-1"), None);
    assert_eq!(parse_port(" 80"), None);
}

#[test]
fn parse_port_rejects_out_of_range_values() {
    assert_eq!(parse_port("65536"), None);
    assert_eq!(parse_port("999999999999999999999999"), None);
}

#[test]
fn port_or_default_falls_back() {
    assert_eq!(port_or_default(None, 3000), 3000);
    let good = String::from("4242");
    assert_eq!(port_or_default(Some(&good), 3000), 4242);
    let bad = String::from("nope");
    assert_eq!(port_or_default(Some(&bad), 65535), 65535);
}
