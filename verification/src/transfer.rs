//! Batch transfers: the plan of a move, a copy or an archive run, and the
//! run itself, one source after the other, with its progress in percent.

use crate::error::{ParaError, TransferFailure};
use vstd::arithmetic::div_mod::{lemma_div_is_ordered, lemma_multiply_divide_lt};
use vstd::prelude::*;

verus! {

/// How the sources reach the destination.
#[derive(Debug, Clone, Copy, PartialEq, Eq, Structural)]
pub enum TransferKind {
    Move,
    Copy,
    Archive,
}

/// The switches under which entries are copied and moved.
#[derive(Debug, Clone, Copy, PartialEq, Eq, Structural)]
pub struct TransferOptions {
    /// Replace an entry that is in the way.
    pub overwrite: bool,
    /// Leave out a source whose name is taken at the destination.
    pub skip_exist: bool,
    /// The bytes that are transferred between two progress reports.
    pub buffer_size: usize,
    /// Place a directory inside the destination under a new name.
    pub copy_inside: bool,
    /// Transfer what a directory holds, without the directory.
    pub content_only: bool,
    /// How many levels of a directory are read; 0 reads them all.
    pub depth: u64,
}

impl TransferOptions {
    /// Nothing in the way is replaced or skipped, so a taken name is a
    /// collision; directories arrive whole, under their own names, in
    /// portions of 64000 bytes.
    pub open spec fn is_default(&self) -> bool {
        &&& !self.overwrite
        &&& !self.skip_exist
        &&& self.buffer_size == 64000
        &&& !self.copy_inside
        &&& !self.content_only
        &&& self.depth == 0
    }
}

/// The options that `fs_extra::dir::CopyOptions::new` returns, field by
/// field. Taken on trust: they are the defaults named in `is_default`.
#[verifier::external_body]
pub(crate) fn default_options() -> (r: TransferOptions)
    ensures
        r.is_default(),
{
    let options = fs_extra::dir::CopyOptions::new();
    TransferOptions {
        overwrite: options.overwrite,
        skip_exist: options.skip_exist,
        buffer_size: options.buffer_size,
        copy_inside: options.copy_inside,
        content_only: options.content_only,
        depth: options.depth,
    }
}

/// A resolved transfer: the sources, in the order given, and the directory
/// that receives them.
#[derive(Debug, Clone)]
pub struct TransferPlan {
    pub kind: TransferKind,
    pub options: TransferOptions,
    pub destination: String,
    /// The destination is missing and has to be created, ancestors included,
    /// before the first source is transferred.
    pub create_destination: bool,
    pub sources: Vec<String>,
}

/// The share of the batch that has been transferred, in percent, rounded
/// down. A batch without bytes counts as transferred.
pub open spec fn percent_spec(copied: nat, total: nat) -> nat {
    if total == 0 || copied >= total {
        100
    } else {
        copied * 100 / total
    }
}

/// The percentage lies between 0 and 100 and never falls while the bytes
/// transferred grow.
pub proof fn lemma_percent_monotone(earlier: nat, later: nat, total: nat)
    requires
        earlier <= later,
    ensures
        percent_spec(earlier, total) <= percent_spec(later, total) <= 100,
{
    if total > 0 {
        if later < total {
            assert(earlier * 100 <= later * 100);
            lemma_div_is_ordered((earlier * 100) as int, (later * 100) as int, total as int);
            assert(later * 100 < total * 100);
            lemma_multiply_divide_lt((later * 100) as int, total as int, 100);
        } else if earlier < total {
            assert(earlier * 100 < total * 100);
            lemma_multiply_divide_lt((earlier * 100) as int, total as int, 100);
        }
    }
}

/// The percentage of `copied` bytes out of `total`.
pub fn percent_of(copied: u64, total: u64) -> (r: u64)
    ensures
        r == percent_spec(copied as nat, total as nat),
        r <= 100,
{
    if total == 0 || copied >= total {
        100
    } else {
        proof {
            lemma_percent_monotone(copied as nat, copied as nat, total as nat);
        }
        let scaled: u128 = (copied as u128) * 100;
        (scaled / (total as u128)) as u64
    }
}

/// What a transfer in progress is told after a progress report.
#[derive(Debug, Clone, Copy, PartialEq, Eq, Structural)]
pub enum TransitReply {
    /// Go on; stop with the error where something is in the way.
    ContinueOrAbort,
    /// Stop.
    Abort,
}

/// The sum of the first `n` sizes.
pub open spec fn sum_spec(sizes: Seq<u64>, n: nat) -> nat
    decreases n,
{
    if n == 0 {
        0
    } else {
        sum_spec(sizes, (n - 1) as nat) + sizes[n - 1] as nat
    }
}

/// The bytes of a batch whose sources have the given sizes: their sum, or
/// the largest `u64` where the sum is beyond it.
pub fn batch_total(sizes: &Vec<u64>) -> (total: u64)
    ensures
        total == if sum_spec(sizes@, sizes@.len()) > u64::MAX {
            u64::MAX as nat
        } else {
            sum_spec(sizes@, sizes@.len())
        },
{
    let mut total: u64 = 0;
    let mut i: usize = 0;
    while i < sizes.len()
        invariant
            i <= sizes@.len(),
            total == if sum_spec(sizes@, i as nat) > u64::MAX {
                u64::MAX as nat
            } else {
                sum_spec(sizes@, i as nat)
            },
        decreases sizes@.len() - i,
    {
        let size = sizes[i];
        total = if size > u64::MAX - total {
            u64::MAX
        } else {
            total + size
        };
        i = i + 1;
    }
    total
}

/// What the caller does next in a run.
#[derive(Debug)]
pub enum TransferAction {
    /// Create the directory `path` and its missing ancestors, then report
    /// with `destination_created`.
    CreateDestination { path: String },
    /// Transfer the source at position `index` into the directory
    /// `destination`, then report with `item_done`.
    Transfer { index: usize, source: String, destination: String },
    /// The run is over: every source was transferred, or the run stopped.
    Finish(Result<(), ParaError>),
}

/// A point in a run, once the destination is in place.
pub enum RunStep {
    /// The source at the position is transferred.
    Transfer(nat),
    /// Every source has been transferred.
    Completed,
    /// The sink asked to stop.
    Aborted,
    /// The source at the position did not arrive.
    Failed(nat),
}

impl RunStep {
    /// The step with `next` sources out of `count` transferred: the sink's
    /// wish to stop comes first, then the next source, then the end.
    pub open spec fn next_step(next: nat, count: nat, aborted: bool) -> RunStep {
        if aborted {
            RunStep::Aborted
        } else if next < count {
            RunStep::Transfer(next)
        } else {
            RunStep::Completed
        }
    }

    /// The step after the transfer of the source at `index`: the first
    /// source that does not arrive ends the run.
    pub open spec fn after_item(index: nat, count: nat, arrived: bool, aborted: bool) -> RunStep {
        if arrived {
            RunStep::next_step(index + 1, count, aborted)
        } else {
            RunStep::Failed(index)
        }
    }

    /// An upper bound on the transfers that can still follow.
    pub open spec fn remaining(self, count: nat) -> nat {
        match self {
            RunStep::Transfer(index) => if index < count {
                (count - index) as nat
            } else {
                0
            },
            _ => 0,
        }
    }
}

/// How a run over `count` sources goes on from `step`, where the source at
/// position `i` arrives if `arrives[i]` holds and the sink asks to stop
/// while the source at `stop_at` is in transfer: the last step, and the
/// positions of the sources whose transfer was started, in that order.
pub open spec fn run_spec(step: RunStep, count: nat, arrives: Seq<bool>, stop_at: nat) -> (
    RunStep,
    Seq<nat>,
)
    decreases step.remaining(count),
{
    match step {
        RunStep::Transfer(index) => if index < count {
            let rest = run_spec(
                RunStep::after_item(index, count, arrives[index as int], stop_at <= index),
                count,
                arrives,
                stop_at,
            );
            (rest.0, seq![index] + rest.1)
        } else {
            (step, Seq::empty())
        },
        _ => (step, Seq::empty()),
    }
}

/// A run that has transferred the first `from` sources and was not asked to
/// stop takes the remaining ones in the order given, each once, up to the
/// first that does not arrive or the one during which the sink asks to stop.
pub proof fn lemma_run_from(from: nat, count: nat, arrives: Seq<bool>, stop_at: nat)
    requires
        from <= count,
        arrives.len() == count,
        from <= stop_at,
    ensures
        ({
            let (end, started) = run_spec(
                RunStep::next_step(from, count, false),
                count,
                arrives,
                stop_at,
            );
            &&& started.len() <= count - from
            &&& forall|k: int| 0 <= k < started.len() ==> started[k] == from + k
            &&& forall|j: int| from <= j < from + started.len() - 1 ==> arrives[j]
            &&& end is Completed <==> stop_at >= count && forall|j: int|
                from <= j < count ==> arrives[j]
            &&& end is Completed ==> started.len() == count - from
            &&& end matches RunStep::Failed(j) ==> j == from + started.len() - 1 && !arrives[j as int]
            &&& end is Aborted ==> stop_at == from + started.len() - 1 && arrives[stop_at as int]
            &&& !(end is Transfer)
        }),
    decreases count - from,
{
    if from < count {
        let step = RunStep::next_step(from, count, false);
        let after = RunStep::after_item(from, count, arrives[from as int], stop_at <= from);
        let rest = run_spec(after, count, arrives, stop_at);
        let (end, started) = run_spec(step, count, arrives, stop_at);
        assert(end == rest.0);
        assert(started =~= seq![from] + rest.1);
        if arrives[from as int] && stop_at > from {
            lemma_run_from(from + 1, count, arrives, stop_at);
            assert(after == RunStep::next_step(from + 1, count, false));
            assert forall|k: int| 0 <= k < started.len() implies started[k] == from + k by {
                if k > 0 {
                    assert(started[k] == rest.1[k - 1]);
                }
            }
        } else {
            assert(rest.1 =~= Seq::<nat>::empty());
        }
    }
}

/// Batches go in order: a run starts the transfer of the sources one by
/// one in the order given and of none twice; it ends as completed exactly
/// when every source arrived and the sink never asked to stop, and
/// otherwise with the first source that did not arrive or the one during
/// which the sink asked to stop as the last one started.
pub proof fn lemma_run_in_order(count: nat, arrives: Seq<bool>, stop_at: nat)
    requires
        arrives.len() == count,
    ensures
        ({
            let (end, started) = run_spec(
                RunStep::next_step(0, count, false),
                count,
                arrives,
                stop_at,
            );
            &&& started.len() <= count
            &&& forall|k: int| 0 <= k < started.len() ==> started[k] == k
            &&& forall|k: int| 0 <= k < started.len() - 1 ==> arrives[k]
            &&& end is Completed <==> stop_at >= count && forall|j: int|
                0 <= j < count ==> arrives[j]
            &&& end is Completed ==> started.len() == count
            &&& end matches RunStep::Failed(j) ==> j == started.len() - 1 && !arrives[j as int]
            &&& end is Aborted ==> stop_at == started.len() - 1 && arrives[stop_at as int]
        }),
{
    lemma_run_from(0, count, arrives, stop_at);
}

/// Where a run stands.
#[derive(Debug, Clone, Copy, PartialEq, Eq, Structural)]
pub enum Stage {
    /// The destination has to be created first.
    Preparing,
    /// The source at position `next` is to be transferred, or is in transfer.
    Transferring,
    /// The final action has been handed out.
    Ended,
}

/// A batch transfer under way.
#[derive(Debug, Clone)]
pub struct TransferRun {
    pub plan: TransferPlan,
    pub stage: Stage,
    /// How many sources have been transferred; they are the first `next`.
    pub next: usize,
    /// The bytes of the whole batch.
    pub total_bytes: u64,
    /// The bytes of the sources transferred so far.
    pub done_bytes: u64,
    /// The last percentage reported.
    pub percent: u64,
    /// The progress sink asked to stop.
    pub aborted: bool,
}

impl TransferRun {
    /// The sources transferred are a prefix of the plan's, the percentage is
    /// one, and while a source is in transfer there is such a source.
    pub open spec fn wf(&self) -> bool {
        &&& self.next <= self.plan.sources@.len()
        &&& self.percent <= 100
        &&& self.stage == Stage::Transferring ==> self.next < self.plan.sources@.len()
    }

    /// Whether the run is well formed.
    pub fn is_wf(&self) -> (r: bool)
        ensures
            r == self.wf(),
    {
        let count = self.plan.sources.len();
        self.next <= count && self.percent <= 100 && (match self.stage {
            Stage::Transferring => self.next < count,
            _ => true,
        })
    }

    /// The bytes transferred in all once `item_copied` bytes of the current
    /// source have arrived; the count stops at the largest `u64`.
    pub open spec fn cumulative_spec(&self, item_copied: u64) -> nat {
        if self.done_bytes + item_copied > u64::MAX {
            u64::MAX as nat
        } else {
            (self.done_bytes + item_copied) as nat
        }
    }

    /// The percentage on record once `item_copied` bytes of the current
    /// source have arrived: that of the bytes transferred in all, unless a
    /// higher one was reported before.
    pub open spec fn reported_spec(&self, item_copied: u64) -> nat {
        let now = percent_spec(self.cumulative_spec(item_copied), self.total_bytes as nat);
        if self.percent >= now {
            self.percent as nat
        } else {
            now
        }
    }

    /// The step that the run takes once the destination is in place.
    pub open spec fn step_spec(&self) -> RunStep {
        RunStep::next_step(self.next as nat, self.plan.sources@.len(), self.aborted)
    }

    /// The run takes its step with `action`: it opens the transfer of the
    /// source at `self.next`, or closes the run when none is left or the
    /// sink asked to stop.
    pub open spec fn proceeds(&self, action: TransferAction) -> bool {
        match self.step_spec() {
            RunStep::Aborted => {
                &&& self.stage == Stage::Ended
                &&& action matches TransferAction::Finish(Err(ParaError::Transfer(f)))
                &&& f == TransferFailure::Aborted
            },
            RunStep::Transfer(position) => {
                &&& self.stage == Stage::Transferring
                &&& action matches TransferAction::Transfer { index, source, destination }
                &&& index == position
                &&& source@ == self.plan.sources@[position as int]@
                &&& destination@ == self.plan.destination@
            },
            RunStep::Completed => {
                &&& self.stage == Stage::Ended
                &&& action matches TransferAction::Finish(Ok(_))
            },
            RunStep::Failed(_) => false,
        }
    }

    /// Everything but the stage is as in `before`.
    pub open spec fn same_progress(&self, before: &TransferRun) -> bool {
        &&& self.plan == before.plan
        &&& self.next == before.next
        &&& self.total_bytes == before.total_bytes
        &&& self.done_bytes == before.done_bytes
        &&& self.percent == before.percent
        &&& self.aborted == before.aborted
    }

    /// Hands out the next action once the destination is in place.
    fn proceed(&mut self) -> (action: TransferAction)
        requires
            old(self).next <= old(self).plan.sources@.len(),
            old(self).percent <= 100,
        ensures
            final(self).wf(),
            final(self).same_progress(old(self)),
            final(self).proceeds(action),
    {
        if self.aborted {
            self.stage = Stage::Ended;
            TransferAction::Finish(Err(ParaError::Transfer(TransferFailure::Aborted)))
        } else if self.next < self.plan.sources.len() {
            self.stage = Stage::Transferring;
            TransferAction::Transfer {
                index: self.next,
                source: self.plan.sources[self.next].clone(),
                destination: self.plan.destination.clone(),
            }
        } else {
            self.stage = Stage::Ended;
            TransferAction::Finish(Ok(()))
        }
    }

    /// Opens a run of `plan` over a batch of `total_bytes` bytes. The first
    /// action creates the destination where the plan asks for it; otherwise
    /// it transfers the first source, or ends the run at once when there is
    /// none.
    pub fn start(plan: TransferPlan, total_bytes: u64) -> (r: (TransferRun, TransferAction))
        ensures
            r.0.wf(),
            r.0.plan == plan,
            r.0.next == 0,
            r.0.total_bytes == total_bytes,
            r.0.done_bytes == 0,
            r.0.percent == 0,
            !r.0.aborted,
            plan.create_destination ==> r.0.stage == Stage::Preparing && (
            r.1 matches TransferAction::CreateDestination { path } && path@ == plan.destination@),
            !plan.create_destination ==> r.0.proceeds(r.1),
    {
        let mut run = TransferRun {
            plan,
            stage: Stage::Preparing,
            next: 0,
            total_bytes,
            done_bytes: 0,
            percent: 0,
            aborted: false,
        };
        if run.plan.create_destination {
            let path = run.plan.destination.clone();
            (run, TransferAction::CreateDestination { path })
        } else {
            let action = run.proceed();
            (run, action)
        }
    }

    /// The caller's report on creating the destination. After a success the
    /// run goes on to the first source. A failure ends the run with an `Io`
    /// error at the destination that carries the cause; no source has been
    /// touched.
    pub fn destination_created(&mut self, outcome: Result<(), String>) -> (action: TransferAction)
        requires
            old(self).wf(),
            old(self).stage == Stage::Preparing,
        ensures
            final(self).wf(),
            final(self).same_progress(old(self)),
            outcome is Ok ==> final(self).proceeds(action),
            outcome matches Err(cause) ==> final(self).stage == Stage::Ended && (
            action matches TransferAction::Finish(Err(e)) && e.is_io(
                old(self).plan.destination@,
                cause@,
            )),
    {
        match outcome {
            Ok(()) => self.proceed(),
            Err(cause) => {
                self.stage = Stage::Ended;
                TransferAction::Finish(
                    Err(ParaError::Io { path: self.plan.destination.clone(), cause }),
                )
            },
        }
    }

    /// Takes note that `item_copied` bytes of the current source have
    /// arrived, and returns the percentage to report: that of the whole
    /// batch, and never less than the one reported before. Once the run has
    /// ended nothing is reported any more.
    pub fn progress(&mut self, item_copied: u64) -> (report: Option<u64>)
        requires
            old(self).wf(),
        ensures
            final(self).wf(),
            final(self).plan == old(self).plan,
            final(self).stage == old(self).stage,
            final(self).next == old(self).next,
            final(self).total_bytes == old(self).total_bytes,
            final(self).done_bytes == old(self).done_bytes,
            final(self).aborted == old(self).aborted,
            old(self).stage == Stage::Ended ==> report.is_none() && final(self).percent == old(
                self,
            ).percent,
            old(self).stage != Stage::Ended ==> report == Some(final(self).percent),
            old(self).stage != Stage::Ended ==> final(self).percent == old(self).reported_spec(
                item_copied,
            ),
            old(self).percent <= final(self).percent <= 100,
    {
        if self.stage == Stage::Ended {
            return None;
        }
        let cumulative: u64 = if item_copied > u64::MAX - self.done_bytes {
            u64::MAX
        } else {
            self.done_bytes + item_copied
        };
        let percent = percent_of(cumulative, self.total_bytes);
        if percent > self.percent {
            self.percent = percent;
        }
        Some(self.percent)
    }

    /// What the transfer in progress is told after a report: to go on as
    /// long as nothing is in its way, or, once the sink asked to stop, to
    /// stop.
    pub fn reply(&self) -> (r: TransitReply)
        ensures
            r == if self.aborted {
                TransitReply::Abort
            } else {
                TransitReply::ContinueOrAbort
            },
    {
        if self.aborted {
            TransitReply::Abort
        } else {
            TransitReply::ContinueOrAbort
        }
    }

    /// Takes note that the progress sink asked to stop. The source in
    /// transfer is finished; no further one is started.
    pub fn abort(&mut self)
        requires
            old(self).wf(),
        ensures
            final(self).wf(),
            final(self).aborted,
            final(self).plan == old(self).plan,
            final(self).stage == old(self).stage,
            final(self).next == old(self).next,
            final(self).total_bytes == old(self).total_bytes,
            final(self).done_bytes == old(self).done_bytes,
            final(self).percent == old(self).percent,
    {
        self.aborted = true;
    }

    /// The caller's report on the source in transfer: its size in bytes where
    /// it arrived, the error where it did not. After a success the run goes
    /// on to the next source, unless the sink asked to stop. An error ends
    /// the run and is handed back as it came; the sources transferred before
    /// stay where they are.
    pub fn item_done(&mut self, outcome: Result<u64, ParaError>) -> (action: TransferAction)
        requires
            old(self).wf(),
            old(self).stage == Stage::Transferring,
        ensures
            final(self).wf(),
            final(self).plan == old(self).plan,
            final(self).total_bytes == old(self).total_bytes,
            final(self).percent == old(self).percent,
            final(self).aborted == old(self).aborted,
            outcome matches Ok(bytes) ==> {
                &&& final(self).next == old(self).next + 1
                &&& final(self).done_bytes == old(self).cumulative_spec(bytes)
                &&& final(self).proceeds(action)
            },
            outcome matches Err(error) ==> {
                &&& final(self).next == old(self).next
                &&& final(self).done_bytes == old(self).done_bytes
                &&& final(self).stage == Stage::Ended
                &&& action matches TransferAction::Finish(Err(e))
                &&& e == error
            },
    {
        match outcome {
            Ok(bytes) => {
                self.done_bytes = if bytes > u64::MAX - self.done_bytes {
                    u64::MAX
                } else {
                    self.done_bytes + bytes
                };
                assert(self.next < self.plan.sources.len());
                self.next = self.next + 1;
                self.proceed()
            },
            Err(error) => {
                self.stage = Stage::Ended;
                TransferAction::Finish(Err(error))
            },
        }
    }
}

} // verus!
