use port_health::health_monitor::{check_health, database_probe_needed, uptime_secs};

#[test]
fn test_health_check_structure() {
    let health = check_health(1718000000, "", false, None);
    assert!(health.timestamp > 0);
    assert!(!health.version.is_empty());
}

#[test]
fn healthy_iff_database_probe_succeeded() {
    let ok = check_health(1000, "postgres://db/app", true, None);
    assert_eq!(ok.status, "healthy");
    assert!(ok.services.database);
    assert!(ok.services.api);
    assert!(ok.services.storage);

    let bad = check_health(1000, "postgres://db/app", false, None);
    assert_eq!(bad.status, "degraded");
    assert!(!bad.services.database);
    assert!(bad.services.api);
    assert!(!bad.services.storage);
}

#[test]
fn empty_db_url_degrades_whatever_else_holds() {
    let h = check_health(1718000000, "", true, Some(String::from("2.3.4")));
    assert_eq!(h.status, "degraded");
    assert!(!h.services.database);
    assert!(h.services.api);
    assert!(!h.services.storage);
    assert_eq!(h.version, "2.3.4");
}

#[test]
fn no_database_url_reports_degraded_record() {
    let h = check_health(1718000000, "", false, None);
    assert_eq!(h.status, "degraded");
    assert!(!h.services.database);
    assert!(h.services.api);
    assert!(!h.services.storage);
    assert_eq!(h.version, "1.0.0");
}

#[test]
fn probe_needed_only_with_connection_string() {
    assert!(!database_probe_needed(""));
    assert!(database_probe_needed("postgres://localhost:5432/app"));
}

#[test]
fn uptime_is_clock_minus_boot_time() {
    assert_eq!(uptime_secs(100, Some(40)), 60);
    assert_eq!(uptime_secs(100, Some(0)), 100);
    assert_eq!(uptime_secs(100, Some(100)), 0);
}

#[test]
fn uptime_degrades_to_zero_when_boot_time_unusable() {
    assert_eq!(uptime_secs(100, None), 0);
    assert_eq!(uptime_secs(100, Some(150)), 0);
    assert_eq!(uptime_secs(100, Some(-5)), 0);
}

#[test]
fn timestamps_increase_with_the_clock() {
    let h1 = check_health(1718000000, "", false, None);
    let h2 = check_health(1718000001, "", false, None);
    assert!(h2.timestamp > h1.timestamp);
}

#[test]
fn uptime_never_exceeds_the_clock() {
    let h = check_health(5, "postgres://db/app", true, None);
    assert!(h.uptime_secs <= 5);
}
