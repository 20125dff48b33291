//! The native TLS driver pair, installed as a published package.

use crate::ssm_utils::netbench_driver::{CrateIoSource, NetbenchDriverType};
use vstd::prelude::*;
use vstd::string::StringExecFns;

verus! {

/// The native TLS benchmark server, installed from the package registry.
pub fn native_tls_server_driver() -> (r: NetbenchDriverType)
    ensures
        r matches NetbenchDriverType::CratesIo(s) && s.krate@
            == "s2n-netbench-driver-native-tls"@ && s.driver_name@
            == "s2n-netbench-driver-server-native-tls"@ && s.version@ == "*"@,
{
    let source = CrateIoSource {
        krate: String::from_str("s2n-netbench-driver-native-tls"),
        driver_name: String::from_str("s2n-netbench-driver-server-native-tls"),
        version: String::from_str("*"),
    };
    NetbenchDriverType::CratesIo(source)
}

/// The native TLS benchmark client, installed from the package registry.
pub fn native_tls_client_driver() -> (r: NetbenchDriverType)
    ensures
        r matches NetbenchDriverType::CratesIo(s) && s.krate@
            == "s2n-netbench-driver-native-tls"@ && s.driver_name@
            == "s2n-netbench-driver-client-native-tls"@ && s.version@ == "*"@,
{
    let source = CrateIoSource {
        krate: String::from_str("s2n-netbench-driver-native-tls"),
        driver_name: String::from_str("s2n-netbench-driver-client-native-tls"),
        version: String::from_str("*"),
    };
    NetbenchDriverType::CratesIo(source)
}

} // verus!
