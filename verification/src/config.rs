//! The fixed configuration of the sidecar: its executable, the loopback port
//! it serves on, the launch that follows from them and the address of its
//! health endpoint.

use vstd::prelude::*;
use vstd::string::*;
use crate::text::{decimal, decimal_text};

verus! {

/// The loopback port on which the sidecar serves its HTTP API.
pub const SIDECAR_PORT: u16 = 18008;

/// The number of seconds after which a health probe gives up.
pub const HEALTH_TIMEOUT_SECS: u64 = 3;

/// The longest body of a health answer, in bytes, that is given to the JSON
/// parser.
pub const MAX_BODY_BYTES: usize = 2147483647;

/// The name of the sidecar executable.
pub open spec fn sidecar_program() -> Seq<char> {
    "personal-aid-api"@
}

/// The port as the sidecar reads it from its command line.
pub open spec fn port_text() -> Seq<char> {
    decimal(SIDECAR_PORT as nat)
}

/// The address of the sidecar's health endpoint.
pub open spec fn health_url() -> Seq<char> {
    "http://127.0.0.1:"@ + port_text() + "/api/health"@
}

/// The port is written with the five digits of 18008.
pub proof fn lemma_port_text()
    ensures
        port_text() == "18008"@,
{
    reveal_strlit("18008");
    reveal_with_fuel(decimal, 5);
    assert(port_text() =~= "18008"@);
}

/// The health endpoint is `/api/health` on the loopback address and the
/// sidecar's port.
pub proof fn lemma_health_url()
    ensures
        health_url() == "http://127.0.0.1:18008/api/health"@,
{
    lemma_port_text();
    reveal_strlit("18008");
    reveal_strlit("http://127.0.0.1:");
    reveal_strlit("/api/health");
    reveal_strlit("http://127.0.0.1:18008/api/health");
    assert(health_url() =~= "http://127.0.0.1:18008/api/health"@);
}

/// What the spawn facility is asked to launch.
#[derive(Debug, PartialEq, Eq)]
pub struct SpawnRequest {
    /// The name of the executable.
    pub program: String,
    /// Its command-line arguments, in order.
    pub args: Vec<String>,
}

/// The mathematical value of a [`SpawnRequest`].
pub struct Launch {
    pub program: Seq<char>,
    pub args: Seq<Seq<char>>,
}

impl View for SpawnRequest {
    type V = Launch;

    open spec fn view(&self) -> Launch {
        Launch { program: self.program@, args: Seq::new(self.args@.len(), |i: int| self.args@[i]@) }
    }
}

/// The one launch that the configuration allows: the sidecar executable with
/// the port as its only argument.
pub open spec fn sidecar_launch() -> Launch {
    Launch { program: sidecar_program(), args: seq![port_text()] }
}

/// Builds the request to launch the sidecar.
pub fn launch_request() -> (request: SpawnRequest)
    ensures
        request@ == sidecar_launch(),
{
    let mut args: Vec<String> = Vec::new();
    args.push(decimal_text(SIDECAR_PORT as u64));
    let request = SpawnRequest { program: String::from_str("personal-aid-api"), args };
    assert(request@.args =~= seq![port_text()]);
    request
}

} // verus!
