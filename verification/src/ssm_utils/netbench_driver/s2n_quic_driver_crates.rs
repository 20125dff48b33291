//! The QUIC driver pair, installed as a published package.

use crate::ssm_utils::netbench_driver::{CrateIoSource, NetbenchDriverType};
use vstd::prelude::*;
use vstd::string::StringExecFns;

verus! {

/// The QUIC benchmark server, installed from the package registry.
pub fn s2n_quic_server_driver() -> (r: NetbenchDriverType)
    ensures
        r matches NetbenchDriverType::CratesIo(s) && s.krate@ == "s2n-netbench-driver-s2n-quic"@
            && s.driver_name@ == "s2n-netbench-driver-server-s2n-quic"@ && s.version@ == "*"@,
{
    let source = CrateIoSource {
        krate: String::from_str("s2n-netbench-driver-s2n-quic"),
        driver_name: String::from_str("s2n-netbench-driver-server-s2n-quic"),
        version: String::from_str("*"),
    };
    NetbenchDriverType::CratesIo(source)
}

/// The QUIC benchmark client, installed from the package registry.
pub fn s2n_quic_client_driver() -> (r: NetbenchDriverType)
    ensures
        r matches NetbenchDriverType::CratesIo(s) && s.krate@ == "s2n-netbench-driver-s2n-quic"@
            && s.driver_name@ == "s2n-netbench-driver-client-s2n-quic"@ && s.version@ == "*"@,
{
    let source = CrateIoSource {
        krate: String::from_str("s2n-netbench-driver-s2n-quic"),
        driver_name: String::from_str("s2n-netbench-driver-client-s2n-quic"),
        version: String::from_str("*"),
    };
    NetbenchDriverType::CratesIo(source)
}

} // verus!
