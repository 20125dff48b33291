//! Role-specific state machines for netbench runs.
//!
//! Server pair: a coordinator that starts a benchmark server on each worker
//! and later kills it. Client pair: a coordinator that starts a benchmark
//! client on each worker and waits for it to finish on its own.

use vstd::prelude::*;
use crate::wire::str_eq;
use vstd::string::StringExecFns;

pub mod client_coord;
pub mod client_worker;
pub mod server_coord;
pub mod server_worker;

verus! {

/// What a substring trim has to produce: the characters of `s` with the
/// prefix `pre` removed when `s` starts with it.
pub open spec fn trimmed_start(s: Seq<char>, pre: Seq<char>) -> Seq<char> {
    if pre.len() <= s.len() && s.subrange(0, pre.len() as int) == pre {
        s.skip(pre.len() as int)
    } else {
        s
    }
}

/// The characters of `s` with the suffix `suf` removed when `s` ends
/// with it.
pub open spec fn trimmed_end(s: Seq<char>, suf: Seq<char>) -> Seq<char> {
    if suf.len() <= s.len() && s.skip(s.len() - suf.len()) == suf {
        s.take(s.len() - suf.len())
    } else {
        s
    }
}

/// The short form of a benchmark driver name: the well-known driver name
/// prefixes and the `.json` suffix stripped.
pub open spec fn trim_driver_name_spec(name: Seq<char>) -> Seq<char> {
    trimmed_end(
        trimmed_start(trimmed_start(name, "s2n-netbench-driver-"@), "netbench-driver-"@),
        ".json"@,
    )
}

/// Remove `pre` from the front of `s` once, if it is there.
fn strip_prefix_once(s: &str, pre: &str) -> (r: String)
    ensures
        r@ == trimmed_start(s@, pre@),
{
    let s_len = s.unicode_len();
    let p_len = pre.unicode_len();
    if p_len <= s_len {
        let head = s.substring_char(0, p_len);
        if str_eq(head, pre) {
            let tail = s.substring_char(p_len, s_len);
            return tail.to_owned();
        }
    }
    s.to_owned()
}

/// Remove `suf` from the end of `s` once, if it is there.
fn strip_suffix_once(s: &str, suf: &str) -> (r: String)
    ensures
        r@ == trimmed_end(s@, suf@),
{
    let s_len = s.unicode_len();
    let f_len = suf.unicode_len();
    if f_len <= s_len {
        let tail = s.substring_char(s_len - f_len, s_len);
        if str_eq(tail, suf) {
            let head = s.substring_char(0, s_len - f_len);
            return head.to_owned();
        }
    }
    s.to_owned()
}

/// The short form of a benchmark driver name.
pub fn trim_driver_name(driver: &str) -> (r: String)
    ensures
        r@ == trim_driver_name_spec(driver@),
{
    let a = strip_prefix_once(driver, "s2n-netbench-driver-");
    let b = strip_prefix_once(a.as_str(), "netbench-driver-");
    strip_suffix_once(b.as_str(), ".json")
}

/// One subprocess invocation, as plain values: the program, its
/// arguments, its environment, and where its standard output goes.
pub struct CommandSpec {
    /// The program to run.
    pub program: String,
    /// The arguments, in order.
    pub args: Vec<String>,
    /// The environment entries, in order.
    pub env: Vec<(String, String)>,
    /// The file standard output is captured to, when it is.
    pub stdout_file: Option<String>,
}

/// The character sequences of a list of environment entries.
pub open spec fn env_views(v: Seq<(String, String)>) -> Seq<(Seq<char>, Seq<char>)> {
    Seq::new(v.len(), |i: int| (v[i].0@, v[i].1@))
}

/// What a server worker needs to run its benchmark subprocess.
#[derive(Clone)]
pub struct ServerContext {
    /// Run a test stub instead of the netbench process.
    pub testing: bool,
    /// The directory that holds the netbench utilities and the scenario.
    pub netbench_path: String,
    /// The netbench driver binary to run.
    pub driver: String,
    /// The name of the scenario file.
    pub scenario: String,
    /// The port on which the netbench server accepts connections.
    pub netbench_port: u16,
}

impl ServerContext {
    /// A context for protocol tests: the worker runs a stub instead of a
    /// benchmark process.
    pub fn testing() -> (r: ServerContext)
        ensures
            r.testing,
            r.netbench_port == 4433,
    {
        ServerContext {
            testing: true,
            netbench_path: String::new(),
            driver: String::new(),
            scenario: String::new(),
            netbench_port: 4433,
        }
    }

    /// The short form of this context's driver name.
    pub fn trim_driver_name(&self) -> (r: String)
        ensures
            r@ == trim_driver_name_spec(self.driver@),
    {
        trim_driver_name(self.driver.as_str())
    }
}

/// What a client worker needs to run its benchmark subprocess.
#[derive(Clone)]
pub struct ClientContext {
    /// Run a test stub instead of the netbench process.
    pub testing: bool,
    /// The directory that holds the netbench utilities and the scenario.
    pub netbench_path: String,
    /// The netbench driver binary to run.
    pub driver: String,
    /// The name of the scenario file.
    pub scenario: String,
    /// The socket addresses of the netbench servers to connect to.
    pub netbench_servers: Vec<String>,
}

impl ClientContext {
    /// A context for protocol tests: the worker runs a stub instead of a
    /// benchmark process.
    pub fn testing() -> (r: ClientContext)
        ensures
            r.testing,
            r.netbench_servers@.len() == 0,
    {
        ClientContext {
            testing: true,
            netbench_path: String::new(),
            driver: String::new(),
            scenario: String::new(),
            netbench_servers: Vec::new(),
        }
    }

    /// The short form of this context's driver name.
    pub fn trim_driver_name(&self) -> (r: String)
        ensures
            r@ == trim_driver_name_spec(self.driver@),
    {
        trim_driver_name(self.driver.as_str())
    }
}

} // verus!
