//! Provisioned infrastructure and its best-effort teardown.
//!
//! Teardown runs in strict order — instances first, then placement groups,
//! then the security group — because the groups stay "in use" until the
//! instances are fully gone. The dependent deletes retry a bounded number
//! of times on the well-known in-use error codes.

use crate::error::OrchError;
use crate::wire::str_eq;
use vstd::prelude::*;
use vstd::string::StringExecFns;

pub mod launch_plan;
pub mod networking;
pub mod types;

use types::{Az, InstanceDetail, PrivIp, PubIp};

verus! {

/// How many times a dependent delete is retried while the resource is
/// still in use.
pub const MAX_RETRY_COUNT: u64 = 25;

/// Seconds between teardown retries.
pub const RETRY_BACKOFF_SECS: u64 = 5;

/// Everything one run provisioned: the security group, the hosts of both
/// roles, and one placement group per availability zone.
pub struct InfraDetail {
    /// The run's security group.
    pub security_group_id: String,
    /// The client hosts.
    pub clients: Vec<InstanceDetail>,
    /// The server hosts.
    pub servers: Vec<InstanceDetail>,
    /// One placement group name per availability zone.
    pub placement_map: Vec<(Az, String)>,
}

impl InfraDetail {
    /// The identifiers of the server hosts, in order.
    pub fn server_ids(&self) -> (r: Vec<String>)
        ensures
            r@.len() == self.servers@.len(),
            forall|i: int|
                0 <= i < r@.len() ==> r@[i]@ == (#[trigger] self.servers@[i]).instance_id_chars(),
    {
        instance_ids(&self.servers)
    }

    /// The identifiers of the client hosts, in order.
    pub fn client_ids(&self) -> (r: Vec<String>)
        ensures
            r@.len() == self.clients@.len(),
            forall|i: int|
                0 <= i < r@.len() ==> r@[i]@ == (#[trigger] self.clients@[i]).instance_id_chars(),
    {
        instance_ids(&self.clients)
    }

    /// The public addresses of the server hosts, in order.
    pub fn public_server_ips(&self) -> (r: Vec<PubIp>)
        ensures
            r@.len() == self.servers@.len(),
            forall|i: int|
                0 <= i < r@.len() ==> r@[i].0@ == (#[trigger] self.servers@[i]).host_ips_spec().public_chars(),
    {
        public_ips(&self.servers)
    }

    /// The private addresses of the server hosts, in order.
    pub fn private_server_ips(&self) -> (r: Vec<PrivIp>)
        ensures
            r@.len() == self.servers@.len(),
            forall|i: int|
                0 <= i < r@.len() ==> r@[i].0@ == (#[trigger] self.servers@[i]).host_ips_spec().private_chars(),
    {
        let n = self.servers.len();
        let mut r: Vec<PrivIp> = Vec::new();
        let mut i: usize = 0;
        while i < n
            invariant
                0 <= i <= n,
                n == self.servers@.len(),
                r@.len() == i,
                forall|j: int|
                    0 <= j < i ==> r@[j].0@ == (#[trigger] self.servers@[j]).host_ips_spec().private_chars(),
            decreases n - i,
        {
            r.push(PrivIp(self.servers[i].host_ips().private_ip().0.clone()));
            i += 1;
        }
        r
    }

    /// The public addresses of the client hosts, in order.
    pub fn public_client_ips(&self) -> (r: Vec<PubIp>)
        ensures
            r@.len() == self.clients@.len(),
            forall|i: int|
                0 <= i < r@.len() ==> r@[i].0@ == (#[trigger] self.clients@[i]).host_ips_spec().public_chars(),
    {
        public_ips(&self.clients)
    }
}

/// The identifiers of a list of hosts, in order.
fn instance_ids(instances: &Vec<InstanceDetail>) -> (r: Vec<String>)
    ensures
        r@.len() == instances@.len(),
        forall|i: int|
            0 <= i < r@.len() ==> r@[i]@ == (#[trigger] instances@[i]).instance_id_chars(),
{
    let n = instances.len();
    let mut r: Vec<String> = Vec::new();
    let mut i: usize = 0;
    while i < n
        invariant
            0 <= i <= n,
            n == instances@.len(),
            r@.len() == i,
            forall|j: int|
                0 <= j < i ==> r@[j]@ == (#[trigger] instances@[j]).instance_id_chars(),
        decreases n - i,
    {
        r.push(instances[i].instance_id().clone());
        i += 1;
    }
    r
}

/// The public addresses of a list of hosts, in order.
fn public_ips(instances: &Vec<InstanceDetail>) -> (r: Vec<PubIp>)
    ensures
        r@.len() == instances@.len(),
        forall|i: int|
            0 <= i < r@.len() ==> r@[i].0@ == (#[trigger] instances@[i]).host_ips_spec().public_chars(),
{
    let n = instances.len();
    let mut r: Vec<PubIp> = Vec::new();
    let mut i: usize = 0;
    while i < n
        invariant
            0 <= i <= n,
            n == instances@.len(),
            r@.len() == i,
            forall|j: int|
                0 <= j < i ==> r@[j].0@ == (#[trigger] instances@[j]).host_ips_spec().public_chars(),
        decreases n - i,
    {
        r.push(PubIp(instances[i].host_ips().public_ip().0.clone()));
        i += 1;
    }
    r
}

/// True of the error code on which a security-group delete should be
/// retried: the group stays in use until its instances are fully gone.
pub fn is_retryable_security_group_error(code: Option<&String>) -> (r: bool)
    ensures
        r == (code matches Some(c) && c@ == "DependencyViolation"@),
{
    match code {
        Some(c) => str_eq(c.as_str(), "DependencyViolation"),
        None => false,
    }
}

/// True of the error code on which a placement-group delete should be
/// retried: the group stays in use until its instances are fully gone.
pub fn is_retryable_placement_group_error(code: Option<&String>) -> (r: bool)
    ensures
        r == (code matches Some(c) && c@ == "InvalidPlacementGroup.InUse"@),
{
    match code {
        Some(c) => str_eq(c.as_str(), "InvalidPlacementGroup.InUse"),
        None => false,
    }
}

/// The teardown retry budget: a dependent delete is attempted up to
/// [`MAX_RETRY_COUNT`] times, sleeping [`RETRY_BACKOFF_SECS`] between
/// attempts, while the resource is still in use.
pub struct TeardownRetry {
    attempts_left: u64,
}

impl TeardownRetry {
    /// The attempts that remain.
    pub closed spec fn left(&self) -> u64 {
        self.attempts_left
    }

    /// A fresh budget of [`MAX_RETRY_COUNT`] attempts.
    pub fn new() -> (r: TeardownRetry)
        ensures
            r.left() == MAX_RETRY_COUNT,
    {
        TeardownRetry { attempts_left: MAX_RETRY_COUNT }
    }

    /// True when no attempts remain: the delete has failed for good.
    pub fn exhausted(&self) -> (r: bool)
        ensures
            r == (self.left() == 0),
    {
        self.attempts_left == 0
    }

    /// Spend one attempt that found the resource still in use.
    pub fn record_in_use(&mut self)
        requires
            old(self).left() > 0,
        ensures
            final(self).left() == old(self).left() - 1,
    {
        self.attempts_left = self.attempts_left - 1;
    }
}

/// What one delete attempt observed.
#[derive(Clone, Copy, Debug, PartialEq, Eq, Structural)]
pub enum DeleteAttempt {
    /// The resource is gone.
    Deleted,
    /// The resource is still referenced; try again after a pause.
    StillInUse,
}

/// What the delete retry loop yields on a given run of attempt outcomes
/// with a given budget: the delete goes through exactly when some attempt
/// within the budget finds the resource gone.
pub open spec fn delete_retry_succeeds(outcomes: Seq<DeleteAttempt>, budget: int) -> bool
    decreases budget,
{
    if budget <= 0 || outcomes.len() == 0 {
        false
    } else if outcomes[0] is Deleted {
        true
    } else {
        delete_retry_succeeds(outcomes.drop_first(), budget - 1)
    }
}

/// Teardown idempotence under transient dependency: a delete whose first
/// attempts find the resource still in use — as happens while instances
/// are still terminating — succeeds anyway, provided the dependency
/// resolves within the retry budget.
pub proof fn lemma_teardown_idempotent(outcomes: Seq<DeleteAttempt>, resolved_at: int)
    requires
        0 <= resolved_at < MAX_RETRY_COUNT,
        resolved_at < outcomes.len(),
        outcomes[resolved_at] is Deleted,
        forall|j: int| 0 <= j < resolved_at ==> outcomes[j] is StillInUse,
    ensures
        delete_retry_succeeds(outcomes, MAX_RETRY_COUNT as int),
{
    lemma_teardown_helper(outcomes, resolved_at, MAX_RETRY_COUNT as int);
}

proof fn lemma_teardown_helper(outcomes: Seq<DeleteAttempt>, resolved_at: int, budget: int)
    requires
        0 <= resolved_at < budget,
        resolved_at < outcomes.len(),
        outcomes[resolved_at] is Deleted,
        forall|j: int| 0 <= j < resolved_at ==> outcomes[j] is StillInUse,
    ensures
        delete_retry_succeeds(outcomes, budget),
    decreases resolved_at,
{
    if outcomes[0] is Deleted {
    } else {
        let rest = outcomes.drop_first();
        assert(rest[resolved_at - 1] is Deleted);
        assert(forall|j: int| 0 <= j < resolved_at - 1 ==> rest[j] is StillInUse);
        lemma_teardown_helper(rest, resolved_at - 1, budget - 1);
    }
}

} // verus!
