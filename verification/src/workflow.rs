//! Workflow aggregates: the set of instances one party drives.
//!
//! A coordinator aggregate holds one instance per worker; a worker
//! aggregate holds exactly one instance, its inbound coordinator. The
//! aggregate is at a target state exactly when every instance it holds is;
//! pairing retries a bounded number of times before it gives up.

use crate::error::RussulaError;
use crate::protocol::{PollResult, Protocol};
use crate::states::{StateApi, WorkflowState};
use crate::wire::str_eq;
use vstd::prelude::*;

verus! {

/// How many times pairing attempts to connect to a peer before it fails.
pub const CONNECT_RETRY_ATTEMPT: u64 = 10;

/// A workflow aggregate: the instances to synchronize with, and the pause
/// between progress checks, in seconds.
pub struct Workflow<W> {
    /// One workflow instance per peer.
    pub instances: Vec<W>,
    /// Polling frequency when trying to make progress.
    pub poll_delay_secs: u64,
}

impl<W: Protocol> Workflow<W> {
    /// True when every instance is at the target state.
    pub open spec fn all_at(&self, t: WorkflowState) -> bool {
        forall|i: int|
            0 <= i < self.instances@.len() ==> (#[trigger] self.instances@[i].state_spec()).serial_spec()
                == W::target_spec(t).serial_spec()
    }

    /// Whether every instance this aggregate holds is at the target state.
    /// Only coordinators may poll for the worker-running state.
    pub fn is_state(&self, t: WorkflowState) -> (r: bool)
        requires
            t is WorkerRunning ==> W::is_coordinator(),
        ensures
            r == self.all_at(t),
    {
        let n = self.instances.len();
        let mut i: usize = 0;
        while i < n
            invariant
                0 <= i <= n,
                n == self.instances@.len(),
                t is WorkerRunning ==> W::is_coordinator(),
                forall|j: int|
                    0 <= j < i ==> (#[trigger] self.instances@[j].state_spec()).serial_spec()
                        == W::target_spec(t).serial_spec(),
            decreases n - i,
        {
            let at_state = self.instances[i].is_state(t);
            if !at_state {
                return false;
            }
            i += 1;
        }
        true
    }

    /// Poll the aggregate once: ready exactly when every instance is at
    /// the target state.
    pub fn poll_result(&self, t: WorkflowState) -> (r: PollResult)
        requires
            t is WorkerRunning ==> W::is_coordinator(),
        ensures
            r is Ready <==> self.all_at(t),
    {
        if self.is_state(t) {
            PollResult::Ready
        } else {
            PollResult::Pending
        }
    }
}

/// The character sequences of a list of strings.
pub open spec fn string_views(v: Seq<String>) -> Seq<Seq<char>> {
    Seq::new(v.len(), |i: int| v[i]@)
}

/// True when some string in `v` has the characters `s`.
pub open spec fn contains_chars(v: Seq<String>, s: Seq<char>) -> bool {
    exists|i: int| 0 <= i < v.len() && v[i]@ == s
}

/// Whether some string in `v` equals `s`.
fn contains_string(v: &Vec<String>, s: &String) -> (r: bool)
    ensures
        r == contains_chars(v@, s@),
{
    let n = v.len();
    let mut i: usize = 0;
    while i < n
        invariant
            0 <= i <= n,
            n == v@.len(),
            forall|j: int| 0 <= j < i ==> v@[j]@ != s@,
        decreases n - i,
    {
        if str_eq(v[i].as_str(), s.as_str()) {
            return true;
        }
        i += 1;
    }
    false
}

/// The distinct peer addresses, first occurrence first: each address is
/// paired with exactly one workflow instance, however often it was named.
pub fn dedup_addrs(addrs: &Vec<String>) -> (r: Vec<String>)
    ensures
        forall|i: int, j: int| 0 <= i < j < r@.len() ==> r@[i]@ != r@[j]@,
        forall|i: int| 0 <= i < r@.len() ==> contains_chars(addrs@, #[trigger] r@[i]@),
        forall|i: int| 0 <= i < addrs@.len() ==> contains_chars(r@, #[trigger] addrs@[i]@),
{
    let n = addrs.len();
    let mut r: Vec<String> = Vec::new();
    let mut i: usize = 0;
    while i < n
        invariant
            0 <= i <= n,
            n == addrs@.len(),
            forall|a: int, b: int| 0 <= a < b < r@.len() ==> r@[a]@ != r@[b]@,
            forall|a: int| 0 <= a < r@.len() ==> contains_chars(addrs@, #[trigger] r@[a]@),
            forall|a: int| 0 <= a < i ==> contains_chars(r@, #[trigger] addrs@[a]@),
        decreases n - i,
    {
        let s = addrs[i].clone();
        let ghost r_before = r@;
        if !contains_string(&r, &s) {
            r.push(s);
            proof {
                assert forall|a: int| 0 <= a < i + 1 implies contains_chars(
                    r@,
                    #[trigger] addrs@[a]@,
                ) by {
                    if a < i {
                        let k = choose|k: int|
                            0 <= k < r_before.len() && r_before[k]@ == addrs@[a]@;
                        assert(r@[k]@ == addrs@[a]@);
                    } else {
                        assert(r@[r@.len() - 1]@ == addrs@[i as int]@);
                    }
                }
                assert(contains_chars(addrs@, r@[r@.len() - 1]@)) by {
                    assert(addrs@[i as int]@ == r@[r@.len() - 1]@);
                }
            }
        } else {
            proof {
                assert(contains_chars(r@, addrs@[i as int]@));
            }
        }
        i += 1;
    }
    r
}

/// True when some paired entry carries this address.
pub open spec fn addrs_have<W>(addrs: Seq<(String, W)>, a: Seq<char>) -> bool {
    exists|k: int| 0 <= k < addrs.len() && (#[trigger] addrs[k]).0@ == a
}

/// Builds a workflow aggregate that is ready to coordinate with its
/// peers. Establishing the connections happens over a network and is
/// fallible, so the embedding loop performs the connects, spending the
/// [`ConnectRetry`] budget per peer; the builder fixes which peers there
/// are — each distinct address once — and which instance belongs to each.
pub struct WorkflowBuilder<W> {
    /// One fresh workflow instance per distinct peer address.
    pub addrs: Vec<(String, W)>,
    /// Polling frequency when trying to make progress, in seconds.
    pub poll_delay_secs: u64,
}

impl<W: Protocol + Clone> WorkflowBuilder<W> {
    /// Pair one copy of the initial workflow instance with each distinct
    /// peer address, first occurrence first.
    pub fn new(peer_addrs: &Vec<String>, workflow: &W, poll_delay_secs: u64) -> (r:
        WorkflowBuilder<W>)
        ensures
            r.poll_delay_secs == poll_delay_secs,
            forall|i: int, j: int|
                0 <= i < j < r.addrs@.len() ==> (#[trigger] r.addrs@[i]).0@
                    != (#[trigger] r.addrs@[j]).0@,
            forall|i: int|
                0 <= i < r.addrs@.len() ==> contains_chars(
                    peer_addrs@,
                    (#[trigger] r.addrs@[i]).0@,
                ),
            forall|i: int|
                0 <= i < peer_addrs@.len() ==> addrs_have(r.addrs@, (#[trigger] peer_addrs@[i])@),
    {
        let unique = dedup_addrs(peer_addrs);
        let n = unique.len();
        let mut addrs: Vec<(String, W)> = Vec::new();
        let mut i: usize = 0;
        while i < n
            invariant
                0 <= i <= n,
                n == unique@.len(),
                addrs@.len() == i,
                forall|j: int| 0 <= j < i ==> (#[trigger] addrs@[j]).0@ == unique@[j]@,
            decreases n - i,
        {
            addrs.push((unique[i].clone(), workflow.clone()));
            i += 1;
        }
        proof {
            assert forall|k: int| 0 <= k < peer_addrs@.len() implies addrs_have(
                addrs@,
                (#[trigger] peer_addrs@[k])@,
            ) by {
                assert(contains_chars(unique@, peer_addrs@[k]@));
                let w = choose|w: int| 0 <= w < unique@.len() && unique@[w]@ == peer_addrs@[k]@;
                assert(addrs@[w].0@ == peer_addrs@[k]@);
            }
        }
        WorkflowBuilder { addrs, poll_delay_secs }
    }
}

/// The address a worker listens on: every interface, at the configured
/// port.
pub fn local_listen_addr(port: u16) -> (r: String)
    ensures
        r@ == "0.0.0.0:"@ + crate::digits::dec_chars(port as int),
{
    String::from_str("0.0.0.0:").concat(crate::digits::u64_to_dec(port as u64).as_str())
}

/// The pairing retry budget: a coordinator attempts an outbound connection
/// to each peer up to [`CONNECT_RETRY_ATTEMPT`] times, sleeping the poll
/// delay between attempts, before the aggregate build fails.
pub struct ConnectRetry {
    attempts_left: u64,
}

impl ConnectRetry {
    /// The attempts that remain.
    pub closed spec fn left(&self) -> u64 {
        self.attempts_left
    }

    /// A fresh budget of [`CONNECT_RETRY_ATTEMPT`] attempts.
    pub fn new() -> (r: ConnectRetry)
        ensures
            r.left() == CONNECT_RETRY_ATTEMPT,
    {
        ConnectRetry { attempts_left: CONNECT_RETRY_ATTEMPT }
    }

    /// True when no attempts remain: pairing has failed.
    pub fn exhausted(&self) -> (r: bool)
        ensures
            r == (self.left() == 0),
    {
        self.attempts_left == 0
    }

    /// Spend one attempt that did not connect.
    pub fn record_failure(&mut self)
        requires
            old(self).left() > 0,
        ensures
            final(self).left() == old(self).left() - 1,
    {
        self.attempts_left = self.attempts_left - 1;
    }

    /// The error pairing fails with once the budget is spent.
    pub fn refusal_error() -> (r: RussulaError)
        ensures
            r is NetworkConnectionRefused,
    {
        RussulaError::NetworkConnectionRefused {
            dbg: String::from_str("failed to connect to peer"),
        }
    }
}

/// What the pairing loop yields on a given run of attempt outcomes with a
/// given budget: it connects exactly when some attempt within the budget
/// succeeds.
pub open spec fn pairing_succeeds(outcomes: Seq<bool>, budget: int) -> bool
    decreases budget,
{
    if budget <= 0 || outcomes.len() == 0 {
        false
    } else if outcomes[0] {
        true
    } else {
        pairing_succeeds(outcomes.drop_first(), budget - 1)
    }
}

/// Retry on startup race: if the coordinator starts pairing before a worker
/// has bound its listener, the build still completes within the retry
/// budget, as long as every attempt from the moment the worker binds
/// succeeds and the worker binds before the budget runs out.
pub proof fn lemma_pairing_within_budget(outcomes: Seq<bool>, bound_at: int)
    requires
        0 <= bound_at < CONNECT_RETRY_ATTEMPT,
        bound_at < outcomes.len(),
        forall|k: int| bound_at <= k < outcomes.len() ==> outcomes[k],
    ensures
        pairing_succeeds(outcomes, CONNECT_RETRY_ATTEMPT as int),
{
    lemma_pairing_helper(outcomes, bound_at, CONNECT_RETRY_ATTEMPT as int);
}

proof fn lemma_pairing_helper(outcomes: Seq<bool>, bound_at: int, budget: int)
    requires
        0 <= bound_at < budget,
        bound_at < outcomes.len(),
        forall|k: int| bound_at <= k < outcomes.len() ==> outcomes[k],
    ensures
        pairing_succeeds(outcomes, budget),
    decreases bound_at,
{
    if outcomes[0] {
    } else {
        let rest = outcomes.drop_first();
        assert(forall|k: int| bound_at - 1 <= k < rest.len() ==> rest[k]);
        lemma_pairing_helper(rest, bound_at - 1, budget - 1);
    }
}

} // verus!
