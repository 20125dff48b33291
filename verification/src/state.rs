//! The orchestrator's tuning constants, threaded as one immutable value.

use vstd::prelude::*;
use vstd::string::StringExecFns;

verus! {

/// Tuning constants for one orchestrator run: repositories, ports, poll
/// intervals, host paths and image names.
pub struct State {
    /// The orchestrator version, part of each run's unique id.
    pub version: String,
    /// The benchmark project repository.
    pub netbench_repo: String,
    /// The branch of the benchmark project to build.
    pub netbench_branch: String,
    /// The port the benchmark server listens on.
    pub netbench_port: u16,
    /// The home directory on each remote host.
    pub host_home_path: String,
    /// The local working directory for logs and reports.
    pub workspace_dir: String,
    /// Remote hosts shut themselves down after this many minutes.
    pub shutdown_min: u16,
    /// Seconds between remote-command status polls.
    pub poll_delay_ssm_secs: u64,
    /// The coordination-protocol repository.
    pub russula_repo: String,
    /// The branch of the coordination protocol to build.
    pub russula_branch: String,
    /// The port coordinator and workers talk over.
    pub russula_port: u16,
    /// Seconds between coordination polls.
    pub poll_delay_russula_secs: u64,
    /// The parameter-store name of the machine image to launch.
    pub ami_name: String,
    /// The key pair for host access, when one is set.
    pub ssh_key_name: Option<String>,
}

impl State {
    /// The constants an orchestrator run starts from.
    pub fn new() -> (r: State)
        ensures
            r.version@ == "v1.0.0"@,
            r.netbench_repo@ == "https://github.com/aws/s2n-netbench.git"@,
            r.netbench_branch@ == "main"@,
            r.netbench_port == 4433,
            r.host_home_path@ == "/home/ec2-user"@,
            r.workspace_dir@ == "./target/netbench"@,
            r.shutdown_min == 120,
            r.poll_delay_ssm_secs == 10,
            r.russula_repo@ == "https://github.com/toidiu/netbench_orchestrator.git"@,
            r.russula_branch@ == "ak-main"@,
            r.russula_port == 9000,
            r.poll_delay_russula_secs == 5,
            r.ami_name@
                == "/aws/service/ami-amazon-linux-latest/al2023-ami-kernel-default-x86_64"@,
            r.ssh_key_name is None,
    {
        State {
            version: String::from_str("v1.0.0"),
            netbench_repo: String::from_str("https://github.com/aws/s2n-netbench.git"),
            netbench_branch: String::from_str("main"),
            netbench_port: 4433,
            host_home_path: String::from_str("/home/ec2-user"),
            workspace_dir: String::from_str("./target/netbench"),
            shutdown_min: 120,
            poll_delay_ssm_secs: 10,
            russula_repo: String::from_str("https://github.com/toidiu/netbench_orchestrator.git"),
            russula_branch: String::from_str("ak-main"),
            russula_port: 9000,
            poll_delay_russula_secs: 5,
            ami_name: String::from_str(
                "/aws/service/ami-amazon-linux-latest/al2023-ami-kernel-default-x86_64",
            ),
            ssh_key_name: None,
        }
    }

    /// The directory every executable is linked into on a remote host.
    ///
    /// Drivers and tools arrive from several sources, so one bin directory
    /// makes discovery trivial.
    pub fn host_bin_path(&self) -> (r: String)
        ensures
            r@ == self.host_home_path@ + "/bin"@,
    {
        self.host_home_path.clone().concat("/bin")
    }

    /// The cargo binary linked under the host bin directory.
    pub fn cargo_path(&self) -> (r: String)
        ensures
            r@ == self.host_home_path@ + "/bin"@ + "/cargo"@,
    {
        self.host_bin_path().concat("/cargo")
    }

    /// The unique id of one run: the timestamp it started at — seconds
    /// resolution, as rendered by the caller — and the orchestrator
    /// version.
    pub fn unique_id(&self, timestamp: &str) -> (r: String)
        ensures
            r@ == timestamp@ + "-"@ + self.version@,
    {
        String::from_str(timestamp).concat("-").concat(self.version.as_str())
    }

    /// The name of the security group scoped to one run.
    pub fn security_group_name(&self, unique_id: &str) -> (r: String)
        ensures
            r@ == "netbench_"@ + unique_id@,
    {
        String::from_str("netbench_").concat(unique_id)
    }
}

} // verus!
