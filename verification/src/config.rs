//! Settings this transport reads from the configuration the daemon hands it
//! at start time: the bind address (with its default), the control socket
//! path and the project root.

use std::path::PathBuf;
use vstd::prelude::*;

verus! {

/// `std::path::PathBuf`, carried through as an opaque value.
#[verifier::external_type_specification]
#[verifier::external_body]
pub struct ExPathBuf(std::path::PathBuf);

/// `<PathBuf as Clone>::clone` (std): the copy names the same path.
pub assume_specification[ <std::path::PathBuf as Clone>::clone ](p: &std::path::PathBuf) -> (r: std::path::PathBuf)
    ensures
        r == *p,
;

/// The fields of the daemon's transport configuration that this plugin uses.
pub struct TransportConfig {
    pub bind_addr: Option<String>,
    pub control_socket_path: PathBuf,
    pub project_root: PathBuf,
}

/// Plugin-local view of the relevant config fields.
#[derive(Clone)]
pub struct HttpTransportSettings {
    pub bind_addr: String,
    pub control_socket_path: PathBuf,
    pub project_root: PathBuf,
}

/// The address the server binds when the configuration names none.
pub open spec fn default_bind_addr() -> Seq<char> {
    "127.0.0.1:8080"@
}

/// The bind address that a configuration selects.
pub open spec fn selected_bind_addr(configured: Option<String>) -> Seq<char> {
    match configured {
        Some(a) => a@,
        None => default_bind_addr(),
    }
}

impl HttpTransportSettings {
    pub const DEFAULT_BIND_ADDR: &'static str = "127.0.0.1:8080";

    /// Extract the HTTP-relevant fields from the supplied transport config.
    pub fn from_config(config: &TransportConfig) -> (s: Self)
        ensures
            s.bind_addr@ == selected_bind_addr(config.bind_addr),
            s.bind_addr@ == (match config.bind_addr {
                Some(a) => a@,
                None => "127.0.0.1:8080"@,
            }),
            s.control_socket_path == config.control_socket_path,
            s.project_root == config.project_root,
    {
        let bind_addr = match &config.bind_addr {
            Some(a) => a.clone(),
            None => String::from_str(Self::DEFAULT_BIND_ADDR),
        };
        HttpTransportSettings {
            bind_addr,
            control_socket_path: config.control_socket_path.clone(),
            project_root: config.project_root.clone(),
        }
    }
}

} // verus!
