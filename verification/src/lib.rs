//! Security audit rules for Linux servers: the checks that turn what a host
//! reports (configuration files, command output, open ports) into findings,
//! the report that collects them, the store that keeps reports, and the
//! decisions behind webhook alerts.

pub mod api;
pub mod report;
pub mod scanner;
pub mod text;
pub mod webhook;

