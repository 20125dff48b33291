//! The QUIC driver pair, built from the benchmark repository.

use crate::ssm_utils::netbench_driver::{GithubSource, NetbenchDriverType};
use vstd::prelude::*;
use vstd::string::StringExecFns;

verus! {

/// The QUIC benchmark server, built from the repository.
pub fn s2n_quic_server_driver() -> (r: NetbenchDriverType)
    ensures
        r matches NetbenchDriverType::GithubRustProj(s) && s.driver_name@
            == "s2n-netbench-driver-server-s2n-quic"@ && s.repo_name@ == "s2n-netbench"@,
{
    let source = GithubSource {
        driver_name: String::from_str("s2n-netbench-driver-server-s2n-quic"),
        repo_name: String::from_str("s2n-netbench"),
    };
    NetbenchDriverType::GithubRustProj(source)
}

/// The QUIC benchmark client, built from the repository.
pub fn s2n_quic_client_driver() -> (r: NetbenchDriverType)
    ensures
        r matches NetbenchDriverType::GithubRustProj(s) && s.driver_name@
            == "s2n-netbench-driver-client-s2n-quic"@ && s.repo_name@ == "s2n-netbench"@,
{
    let source = GithubSource {
        driver_name: String::from_str("s2n-netbench-driver-client-s2n-quic"),
        repo_name: String::from_str("s2n-netbench"),
    };
    NetbenchDriverType::GithubRustProj(source)
}

} // verus!
