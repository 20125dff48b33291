//! The TCP driver pair, built from the benchmark repository.

use crate::ssm_utils::netbench_driver::{GithubSource, NetbenchDriverType};
use vstd::prelude::*;
use vstd::string::StringExecFns;

verus! {

/// The TCP benchmark server, built from the repository.
pub fn tcp_server_driver() -> (r: NetbenchDriverType)
    ensures
        r matches NetbenchDriverType::GithubRustProj(s) && s.driver_name@
            == "s2n-netbench-driver-server-tcp"@ && s.repo_name@ == "s2n-netbench"@,
{
    let source = GithubSource {
        driver_name: String::from_str("s2n-netbench-driver-server-tcp"),
        repo_name: String::from_str("s2n-netbench"),
    };
    NetbenchDriverType::GithubRustProj(source)
}

/// The TCP benchmark client, built from the repository.
pub fn tcp_client_driver() -> (r: NetbenchDriverType)
    ensures
        r matches NetbenchDriverType::GithubRustProj(s) && s.driver_name@
            == "s2n-netbench-driver-client-tcp"@ && s.repo_name@ == "s2n-netbench"@,
{
    let source = GithubSource {
        driver_name: String::from_str("s2n-netbench-driver-client-tcp"),
        repo_name: String::from_str("s2n-netbench"),
    };
    NetbenchDriverType::GithubRustProj(source)
}

} // verus!
