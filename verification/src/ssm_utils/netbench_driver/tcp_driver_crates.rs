//! The TCP driver pair, installed as a published package.

use crate::ssm_utils::netbench_driver::{CrateIoSource, NetbenchDriverType};
use vstd::prelude::*;
use vstd::string::StringExecFns;

verus! {

/// The TCP benchmark server, installed from the package registry.
pub fn tcp_server_driver() -> (r: NetbenchDriverType)
    ensures
        r matches NetbenchDriverType::CratesIo(s) && s.krate@ == "s2n-netbench-driver-tcp"@
            && s.driver_name@ == "s2n-netbench-driver-server-tcp"@ && s.version@ == "*"@,
{
    let source = CrateIoSource {
        krate: String::from_str("s2n-netbench-driver-tcp"),
        driver_name: String::from_str("s2n-netbench-driver-server-tcp"),
        version: String::from_str("*"),
    };
    NetbenchDriverType::CratesIo(source)
}

/// The TCP benchmark client, installed from the package registry.
pub fn tcp_client_driver() -> (r: NetbenchDriverType)
    ensures
        r matches NetbenchDriverType::CratesIo(s) && s.krate@ == "s2n-netbench-driver-tcp"@
            && s.driver_name@ == "s2n-netbench-driver-client-tcp"@ && s.version@ == "*"@,
{
    let source = CrateIoSource {
        krate: String::from_str("s2n-netbench-driver-tcp"),
        driver_name: String::from_str("s2n-netbench-driver-client-tcp"),
        version: String::from_str("*"),
    };
    NetbenchDriverType::CratesIo(source)
}

} // verus!
