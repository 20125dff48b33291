//! Remote-command batches, ordered by phase sentinels.
//!
//! The remote-command facility runs batches asynchronously and knows no
//! order. Order is imposed on the host itself: every batch first waits
//! until the sentinel file of each predecessor phase exists, then touches
//! its own start marker, runs its payload, and renames the start marker to
//! the fin sentinel that successors wait on.

use crate::error::OrchError;
use crate::protocol::PollResult;
use crate::workflow::string_views;
use vstd::prelude::*;
use vstd::string::StringExecFns;

pub mod common;
pub mod netbench_driver;

verus! {

/// How many times a remote-command dispatch is retried on transport
/// failure.
pub const SEND_COMMAND_RETRY: u32 = 5;

/// Seconds between remote-command dispatch retries.
pub const SEND_COMMAND_BACKOFF_SECS: u64 = 5;

/// One orchestration phase, named by its sentinel files on the host.
pub enum Step {
    /// Copy the scenario file to the host.
    UploadScenarioFile,
    /// Install build tools and create the bin directory.
    Configure,
    /// Build one benchmark driver. Driver builds are idempotent and
    /// independent, so they share one sentinel name; the driver name is
    /// kept as a detail marker.
    BuildDriver(String),
    /// Build the coordination-protocol binaries.
    BuildRussula,
    /// Run the coordination protocol.
    RunRussula,
    /// Copy raw benchmark output to the object store.
    UploadNetbenchRawData,
}

impl Step {
    /// The sentinel name of this phase.
    pub open spec fn name_chars(&self) -> Seq<char> {
        match self {
            Step::UploadScenarioFile => "upload_scenario_file"@,
            Step::Configure => "configure"@,
            Step::BuildDriver(_) => "build_driver"@,
            Step::BuildRussula => "build_russula"@,
            Step::RunRussula => "run_russula"@,
            Step::UploadNetbenchRawData => "upload_netbench_raw_data"@,
        }
    }

    /// The detail marker of this phase, when it has one.
    pub open spec fn detail_chars(&self) -> Option<Seq<char>> {
        match self {
            Step::BuildDriver(d) => Some(d@),
            _ => None,
        }
    }

    /// The sentinel name of this phase.
    pub fn as_str(&self) -> (r: &str)
        ensures
            r@ == self.name_chars(),
    {
        match self {
            Step::UploadScenarioFile => "upload_scenario_file",
            Step::Configure => "configure",
            Step::BuildDriver(_) => "build_driver",
            Step::BuildRussula => "build_russula",
            Step::RunRussula => "run_russula",
            Step::UploadNetbenchRawData => "upload_netbench_raw_data",
        }
    }

    /// The detail marker of this phase, when it has one.
    pub fn task_detail(&self) -> (r: Option<&String>)
        ensures
            r matches Some(d) <==> self is BuildDriver,
            r matches Some(d) ==> self.detail_chars() == Some(d@),
    {
        match self {
            Step::BuildDriver(driver_name) => Some(driver_name),
            _ => None,
        }
    }
}

/// The host command that waits for a phase's fin sentinel.
pub open spec fn wait_cmd(name: Seq<char>) -> Seq<char> {
    "cd /home/ec2-user; until [ -f fin_"@ + name + "___ ]; do sleep 5; done"@
}

/// The host command that touches a phase's start marker.
pub open spec fn start_cmd(name: Seq<char>) -> Seq<char> {
    "cd /home/ec2-user; touch start_"@ + name + "___"@
}

/// The host command that touches a phase's detailed start marker.
pub open spec fn start_detail_cmd(name: Seq<char>, detail: Seq<char>) -> Seq<char> {
    "cd /home/ec2-user; touch start_"@ + name + "_"@ + detail + "___"@
}

/// The host command that renames a phase's start marker to its fin
/// sentinel.
pub open spec fn fin_cmd(name: Seq<char>) -> Seq<char> {
    "mv start_"@ + name + "___ fin_"@ + name + "___"@
}

/// The host command that renames a phase's detailed start marker to its
/// detailed fin sentinel.
pub open spec fn fin_detail_cmd(name: Seq<char>, detail: Seq<char>) -> Seq<char> {
    "cd /home/ec2-user; mv start_"@ + name + "_"@ + detail + "___ fin_"@ + name + "_"@ + detail
        + "___"@
}

/// The wait prefix of a batch: one wait command per predecessor phase.
pub open spec fn wait_marks(waits: Seq<Step>) -> Seq<Seq<char>> {
    Seq::new(waits.len(), |i: int| wait_cmd(waits[i].name_chars()))
}

/// The start markers of a batch's own phase.
pub open spec fn start_marks(curr: Step) -> Seq<Seq<char>> {
    match curr.detail_chars() {
        Some(d) => seq![start_cmd(curr.name_chars()), start_detail_cmd(curr.name_chars(), d)],
        None => seq![start_cmd(curr.name_chars())],
    }
}

/// The fin suffix of a batch's own phase.
pub open spec fn fin_marks(curr: Step) -> Seq<Seq<char>> {
    match curr.detail_chars() {
        Some(d) => seq![
            "cd /home/ec2-user"@,
            fin_cmd(curr.name_chars()),
            fin_detail_cmd(curr.name_chars(), d),
        ],
        None => seq!["cd /home/ec2-user"@, fin_cmd(curr.name_chars())],
    }
}

/// The whole batch: waits, start markers, the payload, fin markers.
pub open spec fn assembled_views(waits: Seq<Step>, curr: Step, payload: Seq<String>) -> Seq<
    Seq<char>,
> {
    wait_marks(waits) + start_marks(curr) + string_views(payload) + fin_marks(curr)
}

/// Build the wait command for one phase.
fn build_wait_cmd(step: &Step) -> (r: String)
    ensures
        r@ == wait_cmd(step.name_chars()),
{
    String::from_str("cd /home/ec2-user; until [ -f fin_").concat(step.as_str()).concat(
        "___ ]; do sleep 5; done",
    )
}

/// The wait prefix: one command per predecessor phase, in order.
pub fn wait_previous_step(wait_steps: &Vec<Step>) -> (r: Vec<String>)
    ensures
        string_views(r@) == wait_marks(wait_steps@),
{
    let n = wait_steps.len();
    let mut r: Vec<String> = Vec::new();
    let mut i: usize = 0;
    while i < n
        invariant
            0 <= i <= n,
            n == wait_steps@.len(),
            r@.len() == i,
            string_views(r@) == wait_marks(wait_steps@).take(i as int),
        decreases n - i,
    {
        let cmd = build_wait_cmd(&wait_steps[i]);
        r.push(cmd);
        proof {
            assert(string_views(r@) =~= wait_marks(wait_steps@).take(i + 1));
        }
        i += 1;
    }
    proof {
        assert(wait_marks(wait_steps@).take(n as int) =~= wait_marks(wait_steps@));
    }
    r
}

/// Append the start markers of the current phase.
pub fn indicate_curr_step_started(assemble_command: &mut Vec<String>, curr_step: &Step)
    ensures
        string_views(final(assemble_command)@) == string_views(old(assemble_command)@)
            + start_marks(*curr_step),
{
    let cmd = String::from_str("cd /home/ec2-user; touch start_").concat(
        curr_step.as_str(),
    ).concat("___");
    assemble_command.push(cmd);
    match curr_step.task_detail() {
        Some(detail) => {
            let cmd2 = String::from_str("cd /home/ec2-user; touch start_").concat(
                curr_step.as_str(),
            ).concat("_").concat(detail.as_str()).concat("___");
            assemble_command.push(cmd2);
            proof {
                assert(string_views(assemble_command@) =~= string_views(old(assemble_command)@)
                    + start_marks(*curr_step));
            }
        },
        None => {
            proof {
                assert(string_views(assemble_command@) =~= string_views(old(assemble_command)@)
                    + start_marks(*curr_step));
            }
        },
    }
}

/// Append the fin markers of the current phase.
pub fn indicate_curr_step_finished(assemble_command: &mut Vec<String>, curr_step: &Step)
    ensures
        string_views(final(assemble_command)@) == string_views(old(assemble_command)@) + fin_marks(
            *curr_step,
        ),
{
    assemble_command.push(String::from_str("cd /home/ec2-user"));
    let mv = String::from_str("mv start_").concat(curr_step.as_str()).concat("___ fin_").concat(
        curr_step.as_str(),
    ).concat("___");
    assemble_command.push(mv);
    match curr_step.task_detail() {
        Some(detail) => {
            let mv2 = String::from_str("cd /home/ec2-user; mv start_").concat(
                curr_step.as_str(),
            ).concat("_").concat(detail.as_str()).concat("___ fin_").concat(
                curr_step.as_str(),
            ).concat("_").concat(detail.as_str()).concat("___");
            assemble_command.push(mv2);
            proof {
                assert(string_views(assemble_command@) =~= string_views(old(assemble_command)@)
                    + fin_marks(*curr_step));
            }
        },
        None => {
            proof {
                assert(string_views(assemble_command@) =~= string_views(old(assemble_command)@)
                    + fin_marks(*curr_step));
            }
        },
    }
}

/// Assemble one batch: wait for every predecessor's fin sentinel, mark the
/// phase started, run the payload, mark it finished.
pub fn assemble_command(wait_steps: &Vec<Step>, curr_step: &Step, commands: Vec<String>) -> (r:
    Vec<String>)
    ensures
        string_views(r@) == assembled_views(wait_steps@, *curr_step, commands@),
{
    let mut r = wait_previous_step(wait_steps);
    indicate_curr_step_started(&mut r, curr_step);
    let ghost before_payload = string_views(r@);
    let n = commands.len();
    let mut i: usize = 0;
    while i < n
        invariant
            0 <= i <= n,
            n == commands@.len(),
            string_views(r@) =~= before_payload + string_views(commands@).take(i as int),
        decreases n - i,
    {
        let c = commands[i].clone();
        let ghost r_prev = r@;
        r.push(c);
        proof {
            assert(r@ == r_prev.push(commands@[i as int]));
            assert(string_views(r@).len() == r_prev.len() + 1);
            assert(string_views(r_prev).len() == r_prev.len());
            assert(string_views(commands@).take(i as int).len() == i);
            assert(r_prev.len() == before_payload.len() + i);
            assert(forall|j: int|
                0 <= j < r_prev.len() ==> #[trigger] string_views(r@)[j] == string_views(
                    r_prev,
                )[j]);
            assert(string_views(r@)[r_prev.len() as int] == commands@[i as int]@);
            assert(string_views(r@) =~= before_payload + string_views(commands@).take(i + 1));
        }
        i += 1;
    }
    indicate_curr_step_finished(&mut r, curr_step);
    proof {
        assert(string_views(commands@).take(n as int) =~= string_views(commands@));
        assert(string_views(r@) =~= assembled_views(wait_steps@, *curr_step, commands@));
    }
    r
}

/// Ordering across phases, as the batch enforces it on the host: every
/// wait on a predecessor's fin sentinel stands before this phase's start
/// marker; the start marker stands before every payload command; and every
/// payload command stands before the rename that creates this phase's fin
/// sentinel. A successor phase that waits on this phase therefore cannot
/// pass its wait until this batch has run its whole payload.
pub proof fn lemma_batch_orders_sentinels(waits: Seq<Step>, curr: Step, payload: Seq<String>)
    ensures
        ({
            let v = assembled_views(waits, curr, payload);
            let starts = wait_marks(waits).len() as int;
            let pay = starts + start_marks(curr).len() as int;
            let fin = pay + payload.len() as int;
            &&& v.len() == fin + fin_marks(curr).len()
            &&& forall|i: int| 0 <= i < starts ==> v[i] == wait_cmd(waits[i].name_chars())
            &&& v[starts] == start_cmd(curr.name_chars())
            &&& forall|i: int| 0 <= i < payload.len() ==> v[pay + i] == payload[i]@
            &&& v[fin + 1] == fin_cmd(curr.name_chars())
        }),
{
    let v = assembled_views(waits, curr, payload);
    let starts = wait_marks(waits).len() as int;
    let pay = starts + start_marks(curr).len() as int;
    let fin = pay + payload.len() as int;
    assert(v[starts] == start_marks(curr)[0]);
    assert(v[fin + 1] == fin_marks(curr)[1]);
    assert(forall|i: int| 0 <= i < payload.len() ==> v[pay + i] == string_views(payload)[i]);
}

/// What the remote-command facility reports of one dispatched batch.
#[derive(Clone, Copy, Debug, PartialEq, Eq, Structural)]
pub enum CommandStatus {
    Cancelled,
    Cancelling,
    Failed,
    TimedOut,
    Delayed,
    InProgress,
    Pending,
    Success,
    /// A status this orchestrator does not know.
    Other,
}

/// True of the statuses that mean the batch is still on its way.
pub open spec fn status_pending(s: CommandStatus) -> bool {
    s is Delayed || s is InProgress || s is Pending
}

/// True of the statuses that end the batch in failure.
pub open spec fn status_failed(s: CommandStatus) -> bool {
    s is Cancelled || s is Cancelling || s is Failed || s is TimedOut || s is Other
}

/// Classify one status poll of a dispatched batch. A batch with no listed
/// invocation counts as ready; a terminal failure status is a fatal
/// remote-command error; the waiting statuses stay pending.
pub fn poll_ssm_results(status: Option<CommandStatus>, comment: &str) -> (r: Result<
    PollResult,
    OrchError,
>)
    ensures
        status is None ==> (r matches Ok(p) && p is Ready),
        (status matches Some(s) && s is Success) ==> (r matches Ok(p) && p is Ready),
        (status matches Some(s) && status_pending(s)) ==> (r matches Ok(p) && p is Pending),
        (status matches Some(s) && status_failed(s)) ==> (r matches Err(e) && e is Ssm),
{
    match status {
        None => Ok(PollResult::Ready),
        Some(CommandStatus::Success) => Ok(PollResult::Ready),
        Some(CommandStatus::Delayed) => Ok(PollResult::Pending),
        Some(CommandStatus::InProgress) => Ok(PollResult::Pending),
        Some(CommandStatus::Pending) => Ok(PollResult::Pending),
        Some(CommandStatus::Cancelled) | Some(CommandStatus::Cancelling) | Some(
            CommandStatus::Failed,
        ) | Some(CommandStatus::TimedOut) => Err(
            OrchError::Ssm { dbg: String::from_str("ssm command timeout ").concat(comment) },
        ),
        Some(CommandStatus::Other) => Err(
            OrchError::Ssm {
                dbg: String::from_str("error polling ssm command ").concat(comment),
            },
        ),
    }
}

/// How many of the dispatched batches have reached a ready status: what
/// the progress bar shows, and the whole group is complete when every one
/// of them is ready.
pub open spec fn count_ready_spec(polls: Seq<PollResult>) -> int
    decreases polls.len(),
{
    if polls.len() == 0 {
        0
    } else {
        count_ready_spec(polls.drop_last()) + if polls.last() is Ready {
            1int
        } else {
            0int
        }
    }
}

/// Count the batches that have reached a ready status.
pub fn count_ready(polls: &Vec<PollResult>) -> (r: usize)
    ensures
        r == count_ready_spec(polls@),
        r <= polls@.len(),
{
    let n = polls.len();
    let mut count: usize = 0;
    let mut i: usize = 0;
    while i < n
        invariant
            0 <= i <= n,
            n == polls@.len(),
            count == count_ready_spec(polls@.take(i as int)),
            count <= i,
        decreases n - i,
    {
        proof {
            assert(polls@.take(i + 1).drop_last() =~= polls@.take(i as int));
        }
        if polls[i].is_ready() {
            count += 1;
        }
        i += 1;
    }
    proof {
        assert(polls@.take(n as int) =~= polls@);
    }
    count
}

/// The dispatch retry budget: a batch is submitted up to
/// [`SEND_COMMAND_RETRY`] times, sleeping between attempts, before the
/// dispatch is given up.
pub struct SendCommandRetry {
    attempts_left: u32,
}

impl SendCommandRetry {
    /// The attempts that remain.
    pub closed spec fn left(&self) -> u32 {
        self.attempts_left
    }

    /// A fresh budget of [`SEND_COMMAND_RETRY`] attempts.
    pub fn new() -> (r: SendCommandRetry)
        ensures
            r.left() == SEND_COMMAND_RETRY,
    {
        SendCommandRetry { attempts_left: SEND_COMMAND_RETRY }
    }

    /// True when no attempts remain: the dispatch has failed.
    pub fn exhausted(&self) -> (r: bool)
        ensures
            r == (self.left() == 0),
    {
        self.attempts_left == 0
    }

    /// Spend one attempt that did not dispatch.
    pub fn record_failure(&mut self)
        requires
            old(self).left() > 0,
        ensures
            final(self).left() == old(self).left() - 1,
    {
        self.attempts_left = self.attempts_left - 1;
    }
}

} // verus!
