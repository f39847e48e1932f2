use vstd::prelude::*;

pub mod text;
pub mod duration;
pub mod resources;
pub mod error;
pub mod status;
pub mod provider;
pub mod reconcile;

verus! {

/// Path of the Prometheus endpoint that reports the server configuration status.
pub fn prometheus_default_path_status_config() -> (path: String)
    ensures
        path@ == "/prometheus/api/v1/status/config"@,
{
    String::from_str("/prometheus/api/v1/status/config")
}

} // verus!
