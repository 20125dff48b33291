//! Benchmark driver descriptors and their remote build commands.
//!
//! A driver arrives one of three ways: cloned and compiled from a public
//! repository, installed as a published package, or uploaded from the
//! operator's workstation to the private bucket and downloaded on the
//! host. Each variant knows the shell commands that build it.

use crate::netbench::{trim_driver_name, trim_driver_name_spec};
use crate::state::State;
use crate::workflow::string_views;
use vstd::prelude::*;
use vstd::string::StringExecFns;

pub mod native_tls_driver;
pub mod s2n_quic_dc_driver;
pub mod s2n_quic_driver_crates;
pub mod s2n_quic_driver_github;
pub mod s2n_tls_driver;
pub mod tcp_driver_crates;
pub mod tcp_driver_github;

verus! {

/// A driver compiled from a public repository.
pub struct GithubSource {
    /// The binary the build produces.
    pub driver_name: String,
    /// The repository directory the clone creates.
    pub repo_name: String,
}

/// A driver uploaded from the operator's workstation.
pub struct LocalSource {
    /// The binary the build produces.
    pub driver_name: String,
    /// The shell commands that fetch and build the source on the host.
    pub ssm_build_cmd: Vec<String>,
    /// The project directory name.
    pub proj_name: String,
    /// Where the source lives on the operator's workstation; it is synced
    /// to the private bucket before the run.
    pub local_path_to_proj: String,
}

/// A driver installed as a published package.
pub struct CrateIoSource {
    /// The package to install.
    pub krate: String,
    /// The binary the install produces.
    pub driver_name: String,
    /// The package version, a plain requirement string.
    pub version: String,
}

/// A benchmark driver and the way it reaches the host.
pub enum NetbenchDriverType {
    /// Clone and compile from a public repository.
    GithubRustProj(GithubSource),
    /// Install a published package.
    CratesIo(CrateIoSource),
    /// Download the uploaded source from the private bucket and compile.
    Local(LocalSource),
}

/// The command that installs the collector package.
pub open spec fn collector_install_cmd(state: State) -> Seq<char> {
    "runuser -u ec2-user -- env CARGO_REGISTRIES_CRATES_IO_PROTOCOL=sparse "@
        + state.host_home_path@ + "/bin"@ + "/cargo"@ + " install s2n-netbench-collector"@
}

/// The command that links the collector into the host bin directory.
pub open spec fn collector_link_cmd(state: State) -> Seq<char> {
    "ln -s /home/ec2-user/.cargo/bin/s2n-netbench-collector "@ + state.host_home_path@ + "/bin"@
        + "/s2n-netbench-collector"@
}

/// The commands that clone and build a repository-sourced project and link
/// its binaries.
pub open spec fn github_build_cmds(repo_name: Seq<char>, state: State) -> Seq<Seq<char>> {
    seq![
        "git clone --branch "@ + state.netbench_branch@ + " "@ + state.netbench_repo@,
        "cd "@ + repo_name,
        "env CARGO_REGISTRIES_CRATES_IO_PROTOCOL=sparse "@ + state.host_home_path@ + "/bin"@
            + "/cargo"@ + " build --release"@,
        "find target/release -maxdepth 1 -type f -perm /a+x -exec cp {} "@ + state.host_home_path@
            + "/bin"@ + " \\;"@,
    ]
}

/// The commands that install a published package and link its binary.
pub open spec fn crates_io_build_cmds(
    krate: Seq<char>,
    driver_name: Seq<char>,
    state: State,
) -> Seq<Seq<char>> {
    seq![
        "runuser -u ec2-user -- env CARGO_REGISTRIES_CRATES_IO_PROTOCOL=sparse "@
            + state.host_home_path@ + "/bin"@ + "/cargo"@ + " install "@ + krate,
        "ln -s /home/ec2-user/.cargo/bin/"@ + driver_name + " "@ + state.host_home_path@ + "/bin"@
            + "/"@ + driver_name,
    ]
}

impl GithubSource {
    /// The commands that clone, build and link this project on the host.
    pub fn ssm_build_rust_proj(&self, state: &State) -> (r: Vec<String>)
        ensures
            string_views(r@) == github_build_cmds(self.repo_name@, *state),
    {
        let mut r: Vec<String> = Vec::new();
        r.push(
            String::from_str("git clone --branch ").concat(state.netbench_branch.as_str()).concat(
                " ",
            ).concat(state.netbench_repo.as_str()),
        );
        r.push(String::from_str("cd ").concat(self.repo_name.as_str()));
        r.push(
            String::from_str("env CARGO_REGISTRIES_CRATES_IO_PROTOCOL=sparse ").concat(
                state.cargo_path().as_str(),
            ).concat(" build --release"),
        );
        r.push(
            String::from_str("find target/release -maxdepth 1 -type f -perm /a+x -exec cp {} ")
                .concat(state.host_bin_path().as_str()).concat(" \\;"),
        );
        proof {
            assert(string_views(r@) =~~= github_build_cmds(self.repo_name@, *state));
        }
        r
    }
}

impl CrateIoSource {
    /// The commands that install this package and link its binary on the
    /// host.
    pub fn ssm_build_crates_io_proj(&self, state: &State) -> (r: Vec<String>)
        ensures
            string_views(r@) == crates_io_build_cmds(self.krate@, self.driver_name@, *state),
    {
        let mut r: Vec<String> = Vec::new();
        r.push(
            String::from_str("runuser -u ec2-user -- env CARGO_REGISTRIES_CRATES_IO_PROTOCOL=sparse ")
                .concat(state.cargo_path().as_str()).concat(" install ").concat(
                self.krate.as_str(),
            ),
        );
        r.push(
            String::from_str("ln -s /home/ec2-user/.cargo/bin/").concat(
                self.driver_name.as_str(),
            ).concat(" ").concat(state.host_bin_path().as_str()).concat("/").concat(
                self.driver_name.as_str(),
            ),
        );
        proof {
            assert(string_views(r@) =~~= crates_io_build_cmds(
                self.krate@,
                self.driver_name@,
                *state,
            ));
        }
        r
    }
}

impl NetbenchDriverType {
    /// The binary this driver produces.
    pub open spec fn driver_name_chars(&self) -> Seq<char> {
        match self {
            NetbenchDriverType::GithubRustProj(source) => source.driver_name@,
            NetbenchDriverType::Local(source) => source.driver_name@,
            NetbenchDriverType::CratesIo(source) => source.driver_name@,
        }
    }

    /// The build commands of this driver's own source, before the shared
    /// collector commands.
    pub open spec fn own_build_cmds(&self, state: State) -> Seq<Seq<char>> {
        match self {
            NetbenchDriverType::GithubRustProj(source) => github_build_cmds(
                source.repo_name@,
                state,
            ),
            NetbenchDriverType::Local(source) => string_views(source.ssm_build_cmd@),
            NetbenchDriverType::CratesIo(source) => crates_io_build_cmds(
                source.krate@,
                source.driver_name@,
                state,
            ),
        }
    }

    /// The binary this driver produces.
    pub fn driver_name(&self) -> (r: &String)
        ensures
            r@ == self.driver_name_chars(),
    {
        match self {
            NetbenchDriverType::GithubRustProj(source) => &source.driver_name,
            NetbenchDriverType::Local(source) => &source.driver_name,
            NetbenchDriverType::CratesIo(source) => &source.driver_name,
        }
    }

    /// The short form of this driver's name.
    pub fn trim_driver_name(&self) -> (r: String)
        ensures
            r@ == trim_driver_name_spec(self.driver_name_chars()),
    {
        trim_driver_name(self.driver_name().as_str())
    }

    /// The commands that install the shared collector and link it into the
    /// host bin directory. Every driver needs the collector, whatever its
    /// own source.
    pub fn ssm_build_collector(&self, state: &State) -> (r: Vec<String>)
        ensures
            string_views(r@) == seq![collector_install_cmd(*state), collector_link_cmd(*state)],
    {
        let mut r: Vec<String> = Vec::new();
        r.push(
            String::from_str("runuser -u ec2-user -- env CARGO_REGISTRIES_CRATES_IO_PROTOCOL=sparse ")
                .concat(state.cargo_path().as_str()).concat(" install s2n-netbench-collector"),
        );
        r.push(
            String::from_str("ln -s /home/ec2-user/.cargo/bin/s2n-netbench-collector ").concat(
                state.host_bin_path().as_str(),
            ).concat("/s2n-netbench-collector"),
        );
        proof {
            assert(string_views(r@) =~~= seq![
                collector_install_cmd(*state),
                collector_link_cmd(*state),
            ]);
        }
        r
    }

    /// The whole build batch for this driver: the collector commands, then
    /// the driver's own build commands.
    pub fn ssm_build_cmd(&self, state: &State) -> (r: Vec<String>)
        ensures
            string_views(r@) == seq![collector_install_cmd(*state), collector_link_cmd(*state)]
                + self.own_build_cmds(*state),
    {
        let mut r = self.ssm_build_collector(state);
        let ghost collector_views = string_views(r@);
        let build = match self {
            NetbenchDriverType::GithubRustProj(source) => source.ssm_build_rust_proj(state),
            NetbenchDriverType::Local(source) => clone_strings(&source.ssm_build_cmd),
            NetbenchDriverType::CratesIo(source) => source.ssm_build_crates_io_proj(state),
        };
        let ghost build_views = string_views(build@);
        let n = build.len();
        let mut i: usize = 0;
        while i < n
            invariant
                0 <= i <= n,
                n == build_views.len(),
                build@.len() == n,
                string_views(build@) == build_views,
                string_views(r@) == collector_views + build_views.take(i as int),
            decreases n - i,
        {
            let c = build[i].clone();
            let ghost r_prev = r@;
            r.push(c);
            proof {
                assert(r@ == r_prev.push(build@[i as int]));
                assert(string_views(r@).len() == r_prev.len() + 1);
                assert(string_views(r_prev).len() == r_prev.len());
                assert(build_views.take(i as int).len() == i);
                assert(r_prev.len() == collector_views.len() + i);
                assert(forall|j: int|
                    0 <= j < r_prev.len() ==> #[trigger] string_views(r@)[j] == string_views(
                        r_prev,
                    )[j]);
                assert(string_views(r@)[r_prev.len() as int] == build@[i as int]@);
                assert(string_views(r@) =~= collector_views + build_views.take(i + 1));
            }
            i += 1;
        }
        proof {
            assert(build_views.take(n as int) =~~= build_views);
            assert(string_views(r@) =~~= seq![
                collector_install_cmd(*state),
                collector_link_cmd(*state),
            ] + self.own_build_cmds(*state));
        }
        r
    }
}

/// A copy of a list of commands, character for character.
fn clone_strings(v: &Vec<String>) -> (r: Vec<String>)
    ensures
        string_views(r@) == string_views(v@),
{
    let n = v.len();
    let mut r: Vec<String> = Vec::new();
    let mut i: usize = 0;
    while i < n
        invariant
            0 <= i <= n,
            n == v@.len(),
            r@.len() == i,
            string_views(r@) == string_views(v@).take(i as int),
        decreases n - i,
    {
        r.push(v[i].clone());
        proof {
            assert(string_views(r@) =~~= string_views(v@).take(i + 1));
        }
        i += 1;
    }
    proof {
        assert(string_views(v@).take(n as int) =~~= string_views(v@));
    }
    r
}

} // verus!
