//! The settings of the gateway process.

use crate::environment::Environment;
use vstd::prelude::*;

verus! {

/// The settings that the gateway is started with.
#[derive(Debug, PartialEq, Eq)]
pub struct ApigConfig {
    /// Host of the workflow engine.
    pub temporal_service_host: String,
    /// Port of the workflow engine.
    pub temporal_service_port: String,
    pub environment: Environment,
    /// Port on which the gateway listens.
    pub apig_port: String,
}

/// The port on which the gateway listens when the settings name none.
pub fn default_apig_port() -> (r: String)
    ensures
        r@ == "3000"@,
{
    "3000".to_owned()
}

/// The address of a workflow engine at `host` and `port`.
pub open spec fn engine_url(host: Seq<char>, port: Seq<char>) -> Seq<char> {
    "http://"@ + host + ":"@ + port
}

/// The address of a workflow engine at `host` and `port`.
pub fn temporal_url(host: &str, port: &str) -> (r: String)
    ensures
        r@ == engine_url(host@, port@),
{
    let mut r = "http://".to_owned();
    r.append(host);
    r.append(":");
    r.append(port);
    r
}

impl ApigConfig {
    /// The address of the workflow engine.
    pub fn temporal_url(&self) -> (r: String)
        ensures
            r@ == engine_url(self.temporal_service_host@, self.temporal_service_port@),
    {
        temporal_url(self.temporal_service_host.as_str(), self.temporal_service_port.as_str())
    }
}

} // verus!
