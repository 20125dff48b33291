//! The payloads of the shared orchestration batches: host setup, the
//! coordination-protocol build, the scenario download and the raw-data
//! upload.

use crate::config::OrchestratorConfig;
use crate::digits::{dec_chars, u64_to_dec};
use crate::netbench::trim_driver_name_spec;
use crate::paths::file_stem_chars;
use crate::ssm_utils::netbench_driver::NetbenchDriverType;
use crate::state::State;
use crate::workflow::string_views;
use vstd::prelude::*;
use vstd::string::StringExecFns;

verus! {

/// The host-setup commands: arm the shutdown fuse, create the bin
/// directory, and install the build toolchain for both users.
pub open spec fn install_deps_cmd_views(state: State) -> Seq<Seq<char>> {
    seq![
        "shutdown -P +"@ + dec_chars(state.shutdown_min as int),
        "mkdir -p "@ + state.host_home_path@ + "/bin"@,
        "yum upgrade -y"@,
        "timeout 5m bash -c 'until yum install cargo cmake git perl openssl-devel bpftrace perf tree -y; do sleep 10; done'"@,
        "runuser -u ec2-user -- curl --proto '=https' --tlsv1.2 -sSf https://sh.rustup.rs > rustup.rs"@,
        "chmod +x rustup.rs"@,
        "chgrp ec2-user rustup.rs"@,
        "chown ec2-user rustup.rs"@,
        "sh ./rustup.rs -y"@,
        "runuser -u ec2-user -- sh ./rustup.rs -y"@,
        "./root/.cargo/bin/rustup update"@,
        "runuser -u ec2-user -- ./.cargo/bin/rustup update"@,
        "ln -s /home/ec2-user/.cargo/bin/cargo "@ + state.host_home_path@ + "/bin"@ + "/cargo"@,
    ]
}

/// Build the host-setup commands.
pub fn install_deps_cmd(state: &State) -> (r: Vec<String>)
    ensures
        string_views(r@) == install_deps_cmd_views(*state),
{
    let mut r: Vec<String> = Vec::new();
    r.push(
        String::from_str("shutdown -P +").concat(u64_to_dec(state.shutdown_min as u64).as_str()),
    );
    r.push(String::from_str("mkdir -p ").concat(state.host_bin_path().as_str()));
    r.push(String::from_str("yum upgrade -y"));
    r.push(
        String::from_str(
            "timeout 5m bash -c 'until yum install cargo cmake git perl openssl-devel bpftrace perf tree -y; do sleep 10; done'",
        ),
    );
    r.push(
        String::from_str(
            "runuser -u ec2-user -- curl --proto '=https' --tlsv1.2 -sSf https://sh.rustup.rs > rustup.rs",
        ),
    );
    r.push(String::from_str("chmod +x rustup.rs"));
    r.push(String::from_str("chgrp ec2-user rustup.rs"));
    r.push(String::from_str("chown ec2-user rustup.rs"));
    r.push(String::from_str("sh ./rustup.rs -y"));
    r.push(String::from_str("runuser -u ec2-user -- sh ./rustup.rs -y"));
    r.push(String::from_str("./root/.cargo/bin/rustup update"));
    r.push(String::from_str("runuser -u ec2-user -- ./.cargo/bin/rustup update"));
    r.push(
        String::from_str("ln -s /home/ec2-user/.cargo/bin/cargo ").concat(
            state.cargo_path().as_str(),
        ),
    );
    proof {
        assert(string_views(r@) =~~= install_deps_cmd_views(*state));
    }
    r
}

/// The commands that clone and build the coordination protocol and link
/// its binaries.
pub open spec fn build_russula_cmd_views(state: State) -> Seq<Seq<char>> {
    seq![
        "git clone --branch "@ + state.russula_branch@ + " "@ + state.russula_repo@,
        "cd netbench_orchestrator"@,
        "env CARGO_REGISTRIES_CRATES_IO_PROTOCOL=sparse "@ + state.host_home_path@ + "/bin"@
            + "/cargo"@ + " build --release"@,
        "find target/release -maxdepth 1 -type f -perm /a+x -exec cp {} "@ + state.host_home_path@
            + "/bin"@ + " \\;"@,
    ]
}

/// Build the coordination-protocol build commands.
pub fn build_russula_cmd(state: &State) -> (r: Vec<String>)
    ensures
        string_views(r@) == build_russula_cmd_views(*state),
{
    let mut r: Vec<String> = Vec::new();
    r.push(
        String::from_str("git clone --branch ").concat(state.russula_branch.as_str()).concat(
            " ",
        ).concat(state.russula_repo.as_str()),
    );
    r.push(String::from_str("cd netbench_orchestrator"));
    r.push(
        String::from_str("env CARGO_REGISTRIES_CRATES_IO_PROTOCOL=sparse ").concat(
            state.cargo_path().as_str(),
        ).concat(" build --release"),
    );
    r.push(
        String::from_str("find target/release -maxdepth 1 -type f -perm /a+x -exec cp {} ").concat(
            state.host_bin_path().as_str(),
        ).concat(" \\;"),
    );
    proof {
        assert(string_views(r@) =~~= build_russula_cmd_views(*state));
    }
    r
}

/// The command that copies the scenario file from the run's prefix in the
/// public bucket into the host bin directory.
pub open spec fn scenario_download_cmd_chars(
    config: OrchestratorConfig,
    unique_id: Seq<char>,
    state: State,
) -> Seq<char> {
    "aws s3 cp s3://"@ + config.cdk_config.resources.output_netbench_runner_public_logs_bucket@
        + "/"@ + unique_id + "/"@ + config.netbench_scenario_filename@ + " "@
        + state.host_home_path@ + "/bin"@ + "/"@ + config.netbench_scenario_filename@
}

/// Build the scenario download command.
pub fn download_netbench_scenario_cmd(
    config: &OrchestratorConfig,
    unique_id: &str,
    state: &State,
) -> (r: Vec<String>)
    ensures
        string_views(r@) == seq![scenario_download_cmd_chars(*config, unique_id@, *state)],
{
    let mut r: Vec<String> = Vec::new();
    r.push(
        String::from_str("aws s3 cp s3://").concat(
            config.cdk_config.netbench_runner_public_s3_bucket().as_str(),
        ).concat("/").concat(unique_id).concat("/").concat(
            config.netbench_scenario_filename().as_str(),
        ).concat(" ").concat(state.host_bin_path().as_str()).concat("/").concat(
            config.netbench_scenario_filename().as_str(),
        ),
    );
    proof {
        assert(string_views(r@) =~~= seq![
            scenario_download_cmd_chars(*config, unique_id@, *state),
        ]);
    }
    r
}

/// The commands that copy one driver's raw benchmark output to the run's
/// results prefix: one directory per scenario, one per driver below it.
pub open spec fn upload_data_cmd_views(
    config: OrchestratorConfig,
    unique_id: Seq<char>,
    driver_name: Seq<char>,
) -> Seq<Seq<char>> {
    let short = trim_driver_name_spec(driver_name);
    seq![
        "cd netbench_orchestrator"@,
        "aws s3 cp *"@ + short + ".json "@ + "s3://"@
            + config.cdk_config.resources.output_netbench_runner_public_logs_bucket@ + "/"@
            + unique_id + "/results/"@ + file_stem_chars(config.netbench_scenario_filepath@)
            + "/"@ + short + "/"@,
    ]
}

/// Build the raw-data upload commands for one driver.
pub fn upload_netbench_data_to_s3_cmd(
    config: &OrchestratorConfig,
    unique_id: &str,
    driver: &NetbenchDriverType,
) -> (r: Vec<String>)
    ensures
        string_views(r@) == upload_data_cmd_views(
            *config,
            unique_id@,
            driver.driver_name_chars(),
        ),
{
    let short = driver.trim_driver_name();
    let mut r: Vec<String> = Vec::new();
    r.push(String::from_str("cd netbench_orchestrator"));
    r.push(
        String::from_str("aws s3 cp *").concat(short.as_str()).concat(".json ").concat(
            config.s3_path(unique_id).as_str(),
        ).concat("/results/").concat(config.netbench_scenario_filepath_stem().as_str()).concat(
            "/",
        ).concat(short.as_str()).concat("/"),
    );
    proof {
        assert(string_views(r@) =~~= upload_data_cmd_views(
            *config,
            unique_id@,
            driver.driver_name_chars(),
        ));
    }
    r
}

/// The command line that starts a server worker on a remote host.
pub open spec fn server_worker_cmd_views(
    config: OrchestratorConfig,
    driver_name: Seq<char>,
    state: State,
) -> Seq<Seq<char>> {
    seq![
        "cd netbench_orchestrator"@,
        "env RUST_LOG=debug ./target/release/russula_cli netbench-server-worker --russula-port "@
            + dec_chars(state.russula_port as int) + " --driver "@ + driver_name + " --scenario "@
            + config.netbench_scenario_filename@ + " --netbench-port "@ + dec_chars(
            state.netbench_port as int,
        ),
    ]
}

/// Build the command line that starts a server worker.
pub fn run_server_worker_cmd(
    config: &OrchestratorConfig,
    driver: &NetbenchDriverType,
    state: &State,
) -> (r: Vec<String>)
    ensures
        string_views(r@) == server_worker_cmd_views(*config, driver.driver_name_chars(), *state),
{
    let mut r: Vec<String> = Vec::new();
    r.push(String::from_str("cd netbench_orchestrator"));
    r.push(
        String::from_str(
            "env RUST_LOG=debug ./target/release/russula_cli netbench-server-worker --russula-port ",
        ).concat(u64_to_dec(state.russula_port as u64).as_str()).concat(" --driver ").concat(
            driver.driver_name().as_str(),
        ).concat(" --scenario ").concat(config.netbench_scenario_filename().as_str()).concat(
            " --netbench-port ",
        ).concat(u64_to_dec(state.netbench_port as u64).as_str()),
    );
    proof {
        assert(string_views(r@) =~~= server_worker_cmd_views(
            *config,
            driver.driver_name_chars(),
            *state,
        ));
    }
    r
}

/// The benchmark servers' socket addresses, space separated: each private
/// address with the benchmark port.
pub open spec fn joined_server_addrs(ips: Seq<String>, port: int) -> Seq<char>
    decreases ips.len(),
{
    if ips.len() == 0 {
        Seq::empty()
    } else if ips.len() == 1 {
        ips[0]@ + ":"@ + dec_chars(port)
    } else {
        joined_server_addrs(ips.drop_last(), port) + " "@ + ips.last()@ + ":"@ + dec_chars(port)
    }
}

/// The command line that starts a client worker on a remote host, naming
/// every benchmark server it should connect to.
pub open spec fn client_worker_cmd_views(
    config: OrchestratorConfig,
    driver_name: Seq<char>,
    server_ips: Seq<String>,
    state: State,
) -> Seq<Seq<char>> {
    seq![
        "cd netbench_orchestrator"@,
        "env RUST_LOG=debug ./target/release/russula_cli netbench-client-worker --russula-port "@
            + dec_chars(state.russula_port as int) + " --driver "@ + driver_name + " --scenario "@
            + config.netbench_scenario_filename@ + " --netbench-servers "@ + joined_server_addrs(
            server_ips,
            state.netbench_port as int,
        ),
    ]
}

/// Build the command line that starts a client worker.
pub fn run_client_worker_cmd(
    config: &OrchestratorConfig,
    driver: &NetbenchDriverType,
    server_private_ips: &Vec<String>,
    state: &State,
) -> (r: Vec<String>)
    ensures
        string_views(r@) == client_worker_cmd_views(
            *config,
            driver.driver_name_chars(),
            server_private_ips@,
            *state,
        ),
{
    let mut addrs = String::new();
    let n = server_private_ips.len();
    let mut i: usize = 0;
    while i < n
        invariant
            0 <= i <= n,
            n == server_private_ips@.len(),
            addrs@ == joined_server_addrs(
                server_private_ips@.take(i as int),
                state.netbench_port as int,
            ),
        decreases n - i,
    {
        if i > 0 {
            addrs = addrs.concat(" ");
        }
        addrs = addrs.concat(server_private_ips[i].as_str()).concat(":").concat(
            u64_to_dec(state.netbench_port as u64).as_str(),
        );
        proof {
            assert(server_private_ips@.take(i + 1).drop_last() =~= server_private_ips@.take(
                i as int,
            ));
            assert(server_private_ips@.take(i + 1).last() == server_private_ips@[i as int]);
            assert(addrs@ =~= joined_server_addrs(
                server_private_ips@.take(i + 1),
                state.netbench_port as int,
            ));
        }
        i += 1;
    }
    proof {
        assert(server_private_ips@.take(n as int) =~= server_private_ips@);
    }
    let mut r: Vec<String> = Vec::new();
    r.push(String::from_str("cd netbench_orchestrator"));
    r.push(
        String::from_str(
            "env RUST_LOG=debug ./target/release/russula_cli netbench-client-worker --russula-port ",
        ).concat(u64_to_dec(state.russula_port as u64).as_str()).concat(" --driver ").concat(
            driver.driver_name().as_str(),
        ).concat(" --scenario ").concat(config.netbench_scenario_filename().as_str()).concat(
            " --netbench-servers ",
        ).concat(addrs.as_str()),
    );
    proof {
        assert(string_views(r@) =~~= client_worker_cmd_views(
            *config,
            driver.driver_name_chars(),
            server_private_ips@,
            *state,
        ));
    }
    r
}

} // verus!
