//! The TLS driver pair, installed as a published package.

use crate::ssm_utils::netbench_driver::{CrateIoSource, NetbenchDriverType};
use vstd::prelude::*;
use vstd::string::StringExecFns;

verus! {

/// The TLS benchmark server, installed from the package registry.
pub fn s2n_tls_server_driver() -> (r: NetbenchDriverType)
    ensures
        r matches NetbenchDriverType::CratesIo(s) && s.krate@ == "s2n-netbench-driver-s2n-tls"@
            && s.driver_name@ == "s2n-netbench-driver-server-s2n-tls"@ && s.version@ == "*"@,
{
    let source = CrateIoSource {
        krate: String::from_str("s2n-netbench-driver-s2n-tls"),
        driver_name: String::from_str("s2n-netbench-driver-server-s2n-tls"),
        version: String::from_str("*"),
    };
    NetbenchDriverType::CratesIo(source)
}

/// The TLS benchmark client, installed from the package registry.
pub fn s2n_tls_client_driver() -> (r: NetbenchDriverType)
    ensures
        r matches NetbenchDriverType::CratesIo(s) && s.krate@ == "s2n-netbench-driver-s2n-tls"@
            && s.driver_name@ == "s2n-netbench-driver-client-s2n-tls"@ && s.version@ == "*"@,
{
    let source = CrateIoSource {
        krate: String::from_str("s2n-netbench-driver-s2n-tls"),
        driver_name: String::from_str("s2n-netbench-driver-client-s2n-tls"),
        version: String::from_str("*"),
    };
    NetbenchDriverType::CratesIo(source)
}

} // verus!
