//! The datacenter QUIC driver pair, built from an uploaded local source.
//!
//! The source is synced from the operator's workstation to the run's
//! private bucket before dispatch; the host syncs it back down and builds
//! it. This module only assembles the descriptor and its host commands;
//! the upload itself happens outside.

use crate::config::OrchestratorConfig;
use crate::ssm_utils::netbench_driver::{LocalSource, NetbenchDriverType};
use crate::state::State;
use crate::workflow::string_views;
use vstd::prelude::*;
use vstd::string::StringExecFns;

verus! {

/// The project directory name of the uploaded source.
pub open spec fn dc_quic_proj_name() -> Seq<char> {
    "SaltyLib-Rust"@
}

/// The host commands that download and build the uploaded source: sync it
/// from the private bucket, enter the project, build with the unstable
/// flag, and link the binaries.
pub open spec fn dc_quic_build_cmds(
    config: OrchestratorConfig,
    unique_id: Seq<char>,
    state: State,
) -> Seq<Seq<char>> {
    seq![
        "aws s3 sync "@ + "s3://"@
            + config.cdk_config.resources.output_netbench_runner_private_src_bucket@ + "/"@
            + unique_id + "/"@ + dc_quic_proj_name() + "/ "@ + state.host_home_path@ + "/"@
            + dc_quic_proj_name(),
        "cd "@ + dc_quic_proj_name(),
        "env CARGO_REGISTRIES_CRATES_IO_PROTOCOL=sparse RUSTFLAGS='--cfg s2n_quic_unstable' "@
            + state.host_home_path@ + "/bin"@ + "/cargo"@ + " build --release"@,
        "find target/release -maxdepth 1 -type f -perm /a+x -exec cp {} "@ + state.host_home_path@
            + "/bin"@ + " \\;"@,
    ]
}

/// Build the local-source descriptor for one datacenter QUIC driver binary.
fn dc_quic_driver(
    driver_name: String,
    unique_id: &str,
    config: &OrchestratorConfig,
    state: &State,
) -> (r: NetbenchDriverType)
    ensures
        r matches NetbenchDriverType::Local(s) && s.driver_name@ == driver_name@ && s.proj_name@
            == dc_quic_proj_name() && s.local_path_to_proj@
            == "/Users/apoorvko/projects/ws_SaltyLib/src"@ && string_views(s.ssm_build_cmd@)
            == dc_quic_build_cmds(*config, unique_id@, *state),
{
    let proj_name = String::from_str("SaltyLib-Rust");
    let mut cmds: Vec<String> = Vec::new();
    cmds.push(
        String::from_str("aws s3 sync ").concat(
            config.s3_private_path(unique_id).as_str(),
        ).concat("/").concat(proj_name.as_str()).concat("/ ").concat(
            state.host_home_path.as_str(),
        ).concat("/").concat(proj_name.as_str()),
    );
    cmds.push(String::from_str("cd ").concat(proj_name.as_str()));
    cmds.push(
        String::from_str(
            "env CARGO_REGISTRIES_CRATES_IO_PROTOCOL=sparse RUSTFLAGS='--cfg s2n_quic_unstable' ",
        ).concat(state.cargo_path().as_str()).concat(" build --release"),
    );
    cmds.push(
        String::from_str("find target/release -maxdepth 1 -type f -perm /a+x -exec cp {} ").concat(
            state.host_bin_path().as_str(),
        ).concat(" \\;"),
    );
    proof {
        assert(string_views(cmds@) =~~= dc_quic_build_cmds(*config, unique_id@, *state));
    }
    let driver = LocalSource {
        driver_name,
        ssm_build_cmd: cmds,
        proj_name,
        local_path_to_proj: String::from_str("/Users/apoorvko/projects/ws_SaltyLib/src"),
    };
    NetbenchDriverType::Local(driver)
}

/// The datacenter QUIC benchmark server, from the uploaded local source.
pub fn dc_quic_server_driver(unique_id: &str, config: &OrchestratorConfig, state: &State) -> (r:
    NetbenchDriverType)
    ensures
        r matches NetbenchDriverType::Local(s) && s.driver_name@
            == "s2n-netbench-driver-server-s2n-quic-dc"@ && s.proj_name@ == dc_quic_proj_name()
            && string_views(s.ssm_build_cmd@) == dc_quic_build_cmds(*config, unique_id@, *state),
{
    dc_quic_driver(
        String::from_str("s2n-netbench-driver-server-s2n-quic-dc"),
        unique_id,
        config,
        state,
    )
}

/// The datacenter QUIC benchmark client, from the uploaded local source.
pub fn dc_quic_client_driver(unique_id: &str, config: &OrchestratorConfig, state: &State) -> (r:
    NetbenchDriverType)
    ensures
        r matches NetbenchDriverType::Local(s) && s.driver_name@
            == "s2n-netbench-driver-client-s2n-quic-dc"@ && s.proj_name@ == dc_quic_proj_name()
            && string_views(s.ssm_build_cmd@) == dc_quic_build_cmds(*config, unique_id@, *state),
{
    dc_quic_driver(
        String::from_str("s2n-netbench-driver-client-s2n-quic-dc"),
        unique_id,
        config,
        state,
    )
}

} // verus!
