use vstd::prelude::*;

verus! {

/// Settings of one server process, fixed once they are parsed at startup.
pub struct ServerConfig {
    /// Port the server binds.
    pub port: u16,
    /// Directory whose files are served; request paths are appended to it as text.
    pub root_path: String,
    /// Whether log lines are written as structured JSON instead of plain text.
    pub json_logging: bool,
}

/// Builds the settings from the values read off the command line.
pub fn input(port: u16, path: String, log_with_json: bool) -> (r: ServerConfig)
    ensures
        r.port == port,
        r.root_path@ == path@,
        r.json_logging == log_with_json,
{
    ServerConfig { port, root_path: path, json_logging: log_with_json }
}

} // verus!
