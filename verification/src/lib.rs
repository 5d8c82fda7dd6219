//! Two small operational utilities: a free-TCP-port finder that scans a port
//! range for the first bindable port, and a health reporter that aggregates a
//! database readiness probe, uptime and a version string into one structured
//! health record.

pub mod health_monitor;
pub mod port_finder;
