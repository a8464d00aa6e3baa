//! The settings that the bridge runs with, and its command line.

use vstd::prelude::*;

use crate::schedule::TimeSchedule;

verus! {

/// The command line: an optional subcommand.
#[derive(Debug, Clone, Copy, PartialEq, Eq, Structural)]
pub struct Cli {
    pub command: Option<Commands>,
}

/// The subcommands.
#[derive(Debug, Clone, Copy, PartialEq, Eq, Structural)]
pub enum Commands {
    /// Dumps the print server's answer to the queue query.
    Dump,
}

/// The bus connection and where on the bus the bridge publishes.
#[derive(Debug, Clone)]
pub struct Mqtt {
    pub host: String,
    pub port: u16,
    pub secure: bool,
    pub ignore_tls_errors: bool,
    pub username: String,
    pub password: String,
    pub client_id: String,
    pub root_topic: String,
    pub ha: HomeAssistant,
}

/// Discovery metadata for the home-automation platform.
#[derive(Debug, Clone)]
pub struct HomeAssistant {
    pub enable_discovery: bool,
    pub discovery_topic_prefix: String,
    pub component_id: String,
}

/// The print server and the optional supply-level schedule.
#[derive(Debug)]
pub struct Cups {
    pub uri: String,
    pub ignore_tls_errors: bool,
    pub username: String,
    pub password: String,
    pub report_supply_levels_schedule: Option<TimeSchedule>,
}

/// All settings of the bridge.
#[derive(Debug)]
pub struct Settings {
    pub polling_schedule: TimeSchedule,
    pub mqtt: Mqtt,
    pub cups: Cups,
    pub sentry_dsn: Option<String>,
}

} // verus!
