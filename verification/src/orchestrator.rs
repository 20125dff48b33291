//! The benchmark run's driver roster and its pairing.
//!
//! A full run exercises one driver pair after another: the datacenter QUIC
//! pair from the uploaded local source, then the TCP, QUIC and TLS pairs
//! from the package registry. Servers and clients are zipped positionally,
//! so the two rosters must have the same length.

use crate::config::OrchestratorConfig;
use crate::error::OrchError;
use crate::ssm_utils::netbench_driver::{
    s2n_quic_dc_driver, s2n_quic_driver_crates, s2n_tls_driver, tcp_driver_crates,
    NetbenchDriverType,
};
use crate::state::State;
use vstd::prelude::*;
use vstd::string::StringExecFns;

verus! {

/// The server-side driver roster of a full run.
pub fn server_drivers(unique_id: &str, config: &OrchestratorConfig, state: &State) -> (r: Vec<
    NetbenchDriverType,
>)
    ensures
        r@.len() == 4,
        r@[0].driver_name_chars() == "s2n-netbench-driver-server-s2n-quic-dc"@,
        r@[1].driver_name_chars() == "s2n-netbench-driver-server-tcp"@,
        r@[2].driver_name_chars() == "s2n-netbench-driver-server-s2n-quic"@,
        r@[3].driver_name_chars() == "s2n-netbench-driver-server-s2n-tls"@,
{
    let mut r: Vec<NetbenchDriverType> = Vec::new();
    r.push(s2n_quic_dc_driver::dc_quic_server_driver(unique_id, config, state));
    r.push(tcp_driver_crates::tcp_server_driver());
    r.push(s2n_quic_driver_crates::s2n_quic_server_driver());
    r.push(s2n_tls_driver::s2n_tls_server_driver());
    r
}

/// The client-side driver roster of a full run, in the same order as the
/// servers.
pub fn client_drivers(unique_id: &str, config: &OrchestratorConfig, state: &State) -> (r: Vec<
    NetbenchDriverType,
>)
    ensures
        r@.len() == 4,
        r@[0].driver_name_chars() == "s2n-netbench-driver-client-s2n-quic-dc"@,
        r@[1].driver_name_chars() == "s2n-netbench-driver-client-tcp"@,
        r@[2].driver_name_chars() == "s2n-netbench-driver-client-s2n-quic"@,
        r@[3].driver_name_chars() == "s2n-netbench-driver-client-s2n-tls"@,
{
    let mut r: Vec<NetbenchDriverType> = Vec::new();
    r.push(s2n_quic_dc_driver::dc_quic_client_driver(unique_id, config, state));
    r.push(tcp_driver_crates::tcp_client_driver());
    r.push(s2n_quic_driver_crates::s2n_quic_client_driver());
    r.push(s2n_tls_driver::s2n_tls_client_driver());
    r
}

/// Pair the client roster with the server roster, position by position.
/// Rosters of different lengths cannot be paired.
pub fn driver_pairs(clients: Vec<NetbenchDriverType>, servers: Vec<NetbenchDriverType>) -> (r:
    Result<Vec<(NetbenchDriverType, NetbenchDriverType)>, OrchError>)
    ensures
        r is Ok <==> clients@.len() == servers@.len(),
        r matches Ok(pairs) ==> pairs@.len() == clients@.len() && (forall|i: int|
            0 <= i < pairs@.len() ==> (#[trigger] pairs@[i]).0 == clients@[i] && pairs@[i].1
                == servers@[i]),
        r matches Err(e) ==> e is Init,
{
    if clients.len() != servers.len() {
        return Err(
            OrchError::Init {
                dbg: String::from_str("every client driver needs a matching server driver"),
            },
        );
    }
    let ghost clients_view = clients@;
    let ghost servers_view = servers@;
    let mut pairs: Vec<(NetbenchDriverType, NetbenchDriverType)> = Vec::new();
    let mut clients = clients;
    let mut servers = servers;
    while clients.len() > 0
        invariant
            clients@.len() == servers@.len(),
            pairs@.len() + clients@.len() == clients_view.len(),
            clients_view.len() == servers_view.len(),
            clients@ =~= clients_view.skip(pairs@.len() as int),
            servers@ =~= servers_view.skip(pairs@.len() as int),
            forall|i: int|
                0 <= i < pairs@.len() ==> (#[trigger] pairs@[i]).0 == clients_view[i]
                    && pairs@[i].1 == servers_view[i],
        decreases clients@.len(),
    {
        let c = clients.remove(0);
        let s = servers.remove(0);
        pairs.push((c, s));
        proof {
            assert(clients@ =~= clients_view.skip(pairs@.len() as int));
            assert(servers@ =~= servers_view.skip(pairs@.len() as int));
        }
    }
    Ok(pairs)
}

} // verus!
