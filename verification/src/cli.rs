//! The diagnostic command line tool: which endpoint each command asks.
use vstd::prelude::*;

verus! {

/// The commands of the diagnostic tool.
#[derive(Debug, Clone, Copy)]
pub enum CliCommand {
    /// Check system health.
    Health,
    /// Show system version.
    Version,
    /// Show system utilization.
    Status,
}

/// The path of the endpoint a command asks.
pub open spec fn command_path(cmd: CliCommand) -> Seq<char> {
    match cmd {
        CliCommand::Health => "/v1/capeos/health/services"@,
        CliCommand::Version => "/v1/sys/version/current"@,
        CliCommand::Status => "/v1/sys/utilization"@,
    }
}

/// The URL a command asks, on the gateway at `base_url`.
pub fn command_url(base_url: &str, cmd: CliCommand) -> (r: String)
    ensures
        r@ == base_url@ + command_path(cmd),
{
    let mut s = String::from_str(base_url);
    match cmd {
        CliCommand::Health => s.append("/v1/capeos/health/services"),
        CliCommand::Version => s.append("/v1/sys/version/current"),
        CliCommand::Status => s.append("/v1/sys/utilization"),
    }
    s
}

/// The gateway the tool asks when no URL is given.
pub const DEFAULT_GATEWAY_URL: &'static str = "http://localhost:80";

} // verus!
