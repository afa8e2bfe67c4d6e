use vstd::prelude::*;
use crate::protocol::Protocol;
use crate::statistics::{Statistics, StatsView};

verus! {

/// Desired behaviour for how a socket should be written to. Spans of time are
/// whole milliseconds. Constructed once from the three user inputs by
/// `from_flags` and never mutated afterwards.
#[derive(Clone, Copy, Debug, PartialEq, Eq, Structural)]
pub enum WriteOptions {
    /// Issue exactly this many writes per resolved address.
    Count(u64),
    /// Issue writes continuously until this many milliseconds have elapsed.
    Duration(u64),
    /// Issue writes until the count is reached or the milliseconds have
    /// elapsed, whichever comes first.
    CountOrDuration(u64, u64),
    /// Split the count of writes evenly across this many concurrent workers;
    /// the remainder of the integer division is dropped.
    ConcurrencyWithCount(u64, u64),
    /// Run this many concurrent workers, each writing until the milliseconds
    /// have elapsed.
    ConcurrencyWithDuration(u64, u64),
}

/// The full precedence table for selecting a policy from the three user
/// inputs: concurrency, when present, always wins over a plain count or
/// duration, and duration together with concurrency ignores the count.
pub open spec fn spec_from_flags(
    count: u64,
    duration: Option<u64>,
    concurrency: Option<u64>,
) -> WriteOptions {
    match (duration, concurrency) {
        (Some(d), None) => if count > 1 {
            WriteOptions::CountOrDuration(count, d)
        } else {
            WriteOptions::Duration(d)
        },
        (None, Some(c)) => WriteOptions::ConcurrencyWithCount(c, count),
        (Some(d), Some(c)) => WriteOptions::ConcurrencyWithDuration(c, d),
        (None, None) => WriteOptions::Count(count),
    }
}

impl WriteOptions {
    /// A policy is well formed when a concurrency level that acts as a
    /// divisor is not zero; with zero workers there is no count to split.
    pub open spec fn wf(self) -> bool {
        self matches WriteOptions::ConcurrencyWithCount(c, _) ==> c > 0
    }

    /// Create [`WriteOptions`] from the known flags of the application which
    /// influence the behaviour of writes: the requested count, an optional
    /// span of milliseconds, and an optional concurrency level.
    pub fn from_flags(count: u64, duration: Option<u64>, concurrency: Option<u64>) -> (r: Self)
        ensures
            r == spec_from_flags(count, duration, concurrency),
    {
        match (duration, concurrency) {
            (Some(d), None) => if count > 1 {
                WriteOptions::CountOrDuration(count, d)
            } else {
                WriteOptions::Duration(d)
            },
            (None, Some(c)) => WriteOptions::ConcurrencyWithCount(c, count),
            (Some(d), Some(c)) => WriteOptions::ConcurrencyWithDuration(c, d),
            (None, None) => WriteOptions::Count(count),
        }
    }

    /// How the work fans out: the number of workers to run and the bound each
    /// one's private attempt loop obeys.
    pub open spec fn spec_plan(self) -> TaskPlan
        recommends
            self.wf(),
    {
        match self {
            WriteOptions::Count(n) => TaskPlan { workers: 1, bound: TaskBound::Attempts(n) },
            WriteOptions::Duration(d) => TaskPlan { workers: 1, bound: TaskBound::Time(d) },
            WriteOptions::CountOrDuration(n, d) => TaskPlan {
                workers: 1,
                bound: TaskBound::AttemptsOrTime(n, d),
            },
            WriteOptions::ConcurrencyWithCount(c, n) => TaskPlan {
                workers: c,
                bound: TaskBound::Attempts(n / c),
            },
            WriteOptions::ConcurrencyWithDuration(c, d) => TaskPlan {
                workers: c,
                bound: TaskBound::Time(d),
            },
        }
    }

    /// Resolve the policy into its dispatch plan. The sequential policies run
    /// as a single worker; the concurrent ones split the requested count by
    /// integer division, so a count not evenly divisible by the concurrency
    /// level issues fewer writes than requested.
    pub fn plan(&self) -> (p: TaskPlan)
        requires
            self.wf(),
        ensures
            p == self.spec_plan(),
    {
        match *self {
            WriteOptions::Count(n) => TaskPlan { workers: 1, bound: TaskBound::Attempts(n) },
            WriteOptions::Duration(d) => TaskPlan { workers: 1, bound: TaskBound::Time(d) },
            WriteOptions::CountOrDuration(n, d) => TaskPlan {
                workers: 1,
                bound: TaskBound::AttemptsOrTime(n, d),
            },
            WriteOptions::ConcurrencyWithCount(c, n) => TaskPlan {
                workers: c,
                bound: TaskBound::Attempts(n / c),
            },
            WriteOptions::ConcurrencyWithDuration(c, d) => TaskPlan {
                workers: c,
                bound: TaskBound::Time(d),
            },
        }
    }
}

/// A bare count with neither duration nor concurrency always selects `Count`.
pub proof fn lemma_from_flags_count_only(n: u64)
    ensures
        spec_from_flags(n, None, None) == WriteOptions::Count(n),
{
}

/// A duration without concurrency selects `Duration` for the default count of
/// at most one, and `CountOrDuration` for any larger count.
pub proof fn lemma_from_flags_duration(n: u64, d: u64)
    ensures
        n <= 1 ==> spec_from_flags(n, Some(d), None) == WriteOptions::Duration(d),
        n > 1 ==> spec_from_flags(n, Some(d), None) == WriteOptions::CountOrDuration(n, d),
{
}

/// A concurrency level without a duration selects `ConcurrencyWithCount`,
/// whatever the count.
pub proof fn lemma_from_flags_concurrency(n: u64, c: u64)
    ensures
        spec_from_flags(n, None, Some(c)) == WriteOptions::ConcurrencyWithCount(c, n),
{
}

/// A duration together with a concurrency level always selects
/// `ConcurrencyWithDuration`; the count is ignored in that case.
pub proof fn lemma_from_flags_concurrency_duration(n: u64, d: u64, c: u64)
    ensures
        spec_from_flags(n, Some(d), Some(c)) == WriteOptions::ConcurrencyWithDuration(c, d),
{
}

/// The bound one worker's private attempt loop obeys, derived from the
/// selected policy.
#[derive(Clone, Copy, Debug, PartialEq, Eq, Structural)]
pub enum TaskBound {
    /// Stop after this many attempts.
    Attempts(u64),
    /// Stop once this many milliseconds have elapsed.
    Time(u64),
    /// Stop at the attempt count or at the elapsed milliseconds, whichever
    /// comes first.
    AttemptsOrTime(u64, u64),
}

/// How a run fans out: how many workers to spawn and the bound each one
/// obeys. Every worker follows the same bound.
#[derive(Clone, Copy, Debug, PartialEq, Eq, Structural)]
pub struct TaskPlan {
    pub workers: u64,
    pub bound: TaskBound,
}

impl TaskBound {
    /// Whether a worker that has issued `attempts` attempts with
    /// `elapsed_millis` on its clock should issue one more. An attempt in
    /// flight when the boundary is crossed is allowed to complete: the check
    /// happens before each send only.
    pub open spec fn spec_should_attempt(self, attempts: u64, elapsed_millis: u64) -> bool {
        match self {
            TaskBound::Attempts(n) => attempts < n,
            TaskBound::Time(d) => elapsed_millis < d,
            TaskBound::AttemptsOrTime(n, d) => attempts < n && elapsed_millis < d,
        }
    }

    /// Decide whether a worker should issue one more attempt.
    pub fn should_attempt(&self, attempts: u64, elapsed_millis: u64) -> (r: bool)
        ensures
            r == self.spec_should_attempt(attempts, elapsed_millis),
    {
        match *self {
            TaskBound::Attempts(n) => attempts < n,
            TaskBound::Time(d) => elapsed_millis < d,
            TaskBound::AttemptsOrTime(n, d) => attempts < n && elapsed_millis < d,
        }
    }
}

/// What one write attempt came to: the transport either confirmed this many
/// bytes sent, or reported an I/O failure. Failure kinds are not
/// distinguished; they are only counted.
#[derive(Clone, Copy, Debug, PartialEq, Eq, Structural)]
pub enum SendOutcome {
    /// The full payload was sent; this many bytes were confirmed.
    Sent(u64),
    /// The attempt failed with an I/O error.
    Failed,
}

/// The bytes one outcome contributes to the total: the confirmed bytes of a
/// successful attempt, nothing for a failed one.
pub open spec fn outcome_bytes(o: SendOutcome) -> int {
    match o {
        SendOutcome::Sent(b) => b as int,
        SendOutcome::Failed => 0,
    }
}

/// The bytes a run of outcomes contributes to the total.
pub open spec fn bytes_of(outcomes: Seq<SendOutcome>) -> int
    decreases outcomes.len(),
{
    if outcomes.len() == 0 {
        0
    } else {
        outcome_bytes(outcomes.first()) + bytes_of(outcomes.drop_first())
    }
}

/// How many of the outcomes were successful sends.
pub open spec fn successes_of(outcomes: Seq<SendOutcome>) -> int
    decreases outcomes.len(),
{
    if outcomes.len() == 0 {
        0
    } else {
        (if outcomes.first() is Sent {
            1int
        } else {
            0int
        }) + successes_of(outcomes.drop_first())
    }
}

/// How many of the outcomes were failures.
pub open spec fn failures_of(outcomes: Seq<SendOutcome>) -> int
    decreases outcomes.len(),
{
    if outcomes.len() == 0 {
        0
    } else {
        (if outcomes.first() is Failed {
            1int
        } else {
            0int
        }) + failures_of(outcomes.drop_first())
    }
}

/// None of the three tallies of a run can be negative.
pub proof fn lemma_outcome_sums_nonneg(outcomes: Seq<SendOutcome>)
    ensures
        bytes_of(outcomes) >= 0,
        successes_of(outcomes) >= 0,
        failures_of(outcomes) >= 0,
    decreases outcomes.len(),
{
    if outcomes.len() > 0 {
        lemma_outcome_sums_nonneg(outcomes.drop_first());
    }
}

/// Every attempt is exactly one success or one failure, so the two tallies
/// together always account for the number of attempts issued.
pub proof fn lemma_outcomes_partition(outcomes: Seq<SendOutcome>)
    ensures
        successes_of(outcomes) + failures_of(outcomes) == outcomes.len(),
    decreases outcomes.len(),
{
    if outcomes.len() > 0 {
        lemma_outcomes_partition(outcomes.drop_first());
    }
}

/// A run of attempts that all send the full payload of `s` bytes accounts for
/// exactly `s` bytes per attempt, one success per attempt and no failures.
pub proof fn lemma_uniform_success(outcomes: Seq<SendOutcome>, s: u64)
    requires
        forall|i: int| 0 <= i < outcomes.len() ==> outcomes[i] == SendOutcome::Sent(s),
    ensures
        bytes_of(outcomes) == outcomes.len() * s,
        successes_of(outcomes) == outcomes.len(),
        failures_of(outcomes) == 0,
    decreases outcomes.len(),
{
    if outcomes.len() > 0 {
        let rest = outcomes.drop_first();
        assert(forall|i: int| 0 <= i < rest.len() ==> rest[i] == SendOutcome::Sent(s));
        lemma_uniform_success(rest, s);
        assert(outcomes.len() * s == s + (outcomes.len() - 1) * s) by (nonlinear_arith);
    }
}

/// One concurrent worker's private tally: bytes confirmed, successes and
/// failures of its own attempts. Workers never touch the shared statistics;
/// the engine folds each tally in after all workers have completed.
#[derive(Clone, Copy, Debug, PartialEq, Eq, Structural)]
pub struct WorkerTally {
    pub bytes: u64,
    pub successes: u64,
    pub failures: u64,
}

impl WorkerTally {
    /// A fresh tally with nothing counted.
    pub fn new() -> (t: Self)
        ensures
            t == (WorkerTally { bytes: 0, successes: 0, failures: 0 }),
    {
        WorkerTally { bytes: 0, successes: 0, failures: 0 }
    }

    /// Count one attempt's outcome into this worker's tally.
    pub fn record(&mut self, outcome: SendOutcome)
        requires
            outcome matches SendOutcome::Sent(b) ==> old(self).bytes + b <= u64::MAX
                && old(self).successes < u64::MAX,
            outcome is Failed ==> old(self).failures < u64::MAX,
        ensures
            outcome matches SendOutcome::Sent(b) ==> *final(self) == (WorkerTally {
                bytes: (old(self).bytes + b) as u64,
                successes: (old(self).successes + 1) as u64,
                failures: old(self).failures,
            }),
            outcome is Failed ==> *final(self) == (WorkerTally {
                failures: (old(self).failures + 1) as u64,
                ..*old(self)
            }),
    {
        match outcome {
            SendOutcome::Sent(b) => {
                self.bytes = self.bytes + b;
                self.successes = self.successes + 1;
            },
            SendOutcome::Failed => {
                self.failures = self.failures + 1;
            },
        }
    }
}

/// The bytes a sequence of worker tallies contributes to the total.
pub open spec fn tally_bytes_of(tallies: Seq<WorkerTally>) -> int
    decreases tallies.len(),
{
    if tallies.len() == 0 {
        0
    } else {
        tallies.first().bytes + tally_bytes_of(tallies.drop_first())
    }
}

/// The successes a sequence of worker tallies contributes to the count.
pub open spec fn tally_successes_of(tallies: Seq<WorkerTally>) -> int
    decreases tallies.len(),
{
    if tallies.len() == 0 {
        0
    } else {
        tallies.first().successes + tally_successes_of(tallies.drop_first())
    }
}

/// The failures a sequence of worker tallies contributes to the count.
pub open spec fn tally_failures_of(tallies: Seq<WorkerTally>) -> int
    decreases tallies.len(),
{
    if tallies.len() == 0 {
        0
    } else {
        tallies.first().failures + tally_failures_of(tallies.drop_first())
    }
}

/// None of the three folded tallies can be negative.
pub proof fn lemma_tally_sums_nonneg(tallies: Seq<WorkerTally>)
    ensures
        tally_bytes_of(tallies) >= 0,
        tally_successes_of(tallies) >= 0,
        tally_failures_of(tallies) >= 0,
    decreases tallies.len(),
{
    if tallies.len() > 0 {
        lemma_tally_sums_nonneg(tallies.drop_first());
    }
}

/// Workers that all report the same tally fold to that tally taken once per
/// worker.
pub proof fn lemma_uniform_tallies(tallies: Seq<WorkerTally>, t: WorkerTally)
    requires
        forall|i: int| 0 <= i < tallies.len() ==> tallies[i] == t,
    ensures
        tally_bytes_of(tallies) == tallies.len() * t.bytes,
        tally_successes_of(tallies) == tallies.len() * t.successes,
        tally_failures_of(tallies) == tallies.len() * t.failures,
    decreases tallies.len(),
{
    if tallies.len() > 0 {
        let rest = tallies.drop_first();
        assert(forall|i: int| 0 <= i < rest.len() ==> rest[i] == t);
        lemma_uniform_tallies(rest, t);
        assert(tallies.len() * t.bytes == t.bytes + (tallies.len() - 1) * t.bytes)
            by (nonlinear_arith);
        assert(tallies.len() * t.successes == t.successes + (tallies.len() - 1) * t.successes)
            by (nonlinear_arith);
        assert(tallies.len() * t.failures == t.failures + (tallies.len() - 1) * t.failures)
            by (nonlinear_arith);
    }
}

/// Under `ConcurrencyWithCount(c, n)` each of the `c` workers performs
/// `n / c` attempts. When every attempt sends the full payload of `s` bytes,
/// the folded totals are exactly `(n / c) * c` attempts of `s` bytes each:
/// the remainder that the integer division drops is reflected, not made up.
pub proof fn lemma_concurrent_count_total(tallies: Seq<WorkerTally>, c: u64, n: u64, s: u64)
    requires
        c > 0,
        tallies.len() == c,
        (n / c) * s <= u64::MAX,
        forall|i: int| 0 <= i < tallies.len() ==> tallies[i] == (WorkerTally {
            bytes: ((n / c) * s) as u64,
            successes: n / c,
            failures: 0,
        }),
    ensures
        tally_bytes_of(tallies) == (n / c) as int * c * s,
        tally_successes_of(tallies) == (n / c) as int * c,
        tally_failures_of(tallies) == 0,
{
    let t = WorkerTally { bytes: ((n / c) * s) as u64, successes: n / c, failures: 0 };
    lemma_uniform_tallies(tallies, t);
    assert(c as int * (((n / c) * s) as u64 as int) == (n / c) as int * c * s)
        by (nonlinear_arith)
        requires
            (n / c) * s <= u64::MAX,
    ;
    assert(c as int * ((n / c) as int) == (n / c) as int * c) by (nonlinear_arith);
}

/// The view of a write engine: the payload bytes, the chosen transport and
/// policy, and the statistics folded in so far.
pub struct ManagerView {
    pub input: Seq<u8>,
    pub protocol: Protocol,
    pub write_options: WriteOptions,
    pub stats: StatsView,
}

/// The write engine for one run: it owns the payload, the chosen transport
/// and policy, and the one statistics accumulator every outcome folds into.
/// The transport that actually opens sockets lives outside this crate; it
/// asks the engine how to fan out (`plan`), whether to keep going
/// (`TaskBound::should_attempt`), and hands every outcome back
/// (`record_attempt`, `merge_tally`, `write`).
pub struct SocketManager {
    input: Vec<u8>,
    protocol: Protocol,
    write_options: WriteOptions,
    stats: Statistics,
}

impl View for SocketManager {
    type V = ManagerView;

    closed spec fn view(&self) -> ManagerView {
        ManagerView {
            input: self.input@,
            protocol: self.protocol,
            write_options: self.write_options,
            stats: self.stats@,
        }
    }
}

impl SocketManager {
    /// Create a new [`SocketManager`] around the payload to write, the
    /// transport and policy to write it under, and a fresh statistics
    /// accumulator.
    pub fn new(
        input: Vec<u8>,
        protocol: Protocol,
        write_options: WriteOptions,
        stats: Statistics,
    ) -> (s: Self)
        ensures
            s@.input == input@,
            s@.protocol == protocol,
            s@.write_options == write_options,
            s@.stats == stats@,
    {
        SocketManager { input, protocol, write_options, stats }
    }

    /// The payload each attempt writes.
    pub fn input(&self) -> (r: &Vec<u8>)
        ensures
            r@ == self@.input,
    {
        &self.input
    }

    /// The transport every attempt uses.
    pub fn protocol(&self) -> (p: Protocol)
        ensures
            p == self@.protocol,
    {
        self.protocol
    }

    /// The policy this run was configured with.
    pub fn write_options(&self) -> (o: WriteOptions)
        ensures
            o == self@.write_options,
    {
        self.write_options
    }

    /// Fold one attempt's outcome into the statistics: a successful send adds
    /// its bytes and one success, a failed one adds one failure. A failure
    /// never aborts a run; it is recorded and the loop moves on.
    pub fn record_attempt(&mut self, outcome: SendOutcome)
        requires
            old(self)@.stats.success_count + old(self)@.stats.failure_count < u64::MAX,
            outcome matches SendOutcome::Sent(b) ==> old(self)@.stats.total_bytes + b
                <= u64::MAX,
        ensures
            final(self)@.input == old(self)@.input,
            final(self)@.protocol == old(self)@.protocol,
            final(self)@.write_options == old(self)@.write_options,
            final(self)@.stats.throughput == old(self)@.stats.throughput,
            outcome matches SendOutcome::Sent(b) ==> final(self)@.stats.total_bytes
                == old(self)@.stats.total_bytes + b
                && final(self)@.stats.success_count == old(self)@.stats.success_count + 1
                && final(self)@.stats.failure_count == old(self)@.stats.failure_count,
            outcome is Failed ==> final(self)@.stats.failure_count
                == old(self)@.stats.failure_count + 1
                && final(self)@.stats.total_bytes == old(self)@.stats.total_bytes
                && final(self)@.stats.success_count == old(self)@.stats.success_count,
    {
        match outcome {
            SendOutcome::Sent(b) => {
                self.stats.increment_total(b);
                self.stats.record_success();
            },
            SendOutcome::Failed => {
                self.stats.record_failure();
            },
        }
    }

    /// Fold one completed worker's tally into the statistics, after the
    /// worker has been joined.
    pub fn merge_tally(&mut self, tally: &WorkerTally)
        requires
            old(self)@.stats.total_bytes + tally.bytes <= u64::MAX,
            old(self)@.stats.success_count + old(self)@.stats.failure_count + tally.successes
                + tally.failures <= u64::MAX,
        ensures
            final(self)@.input == old(self)@.input,
            final(self)@.protocol == old(self)@.protocol,
            final(self)@.write_options == old(self)@.write_options,
            final(self)@.stats.throughput == old(self)@.stats.throughput,
            final(self)@.stats.total_bytes == old(self)@.stats.total_bytes + tally.bytes,
            final(self)@.stats.success_count == old(self)@.stats.success_count
                + tally.successes,
            final(self)@.stats.failure_count == old(self)@.stats.failure_count
                + tally.failures,
    {
        self.stats.increment_total(tally.bytes);
        let mut j: u64 = 0;
        while j < tally.successes
            invariant
                j <= tally.successes,
                old(self)@.stats.success_count + old(self)@.stats.failure_count
                    + tally.successes + tally.failures <= u64::MAX,
                self@.stats.success_count == old(self)@.stats.success_count + j,
                self@.stats.failure_count == old(self)@.stats.failure_count,
                self@.stats.total_bytes == old(self)@.stats.total_bytes + tally.bytes,
                self@.stats.throughput == old(self)@.stats.throughput,
                self@.input == old(self)@.input,
                self@.protocol == old(self)@.protocol,
                self@.write_options == old(self)@.write_options,
            decreases tally.successes - j,
        {
            self.stats.record_success();
            j = j + 1;
        }
        let mut j: u64 = 0;
        while j < tally.failures
            invariant
                j <= tally.failures,
                old(self)@.stats.success_count + old(self)@.stats.failure_count
                    + tally.successes + tally.failures <= u64::MAX,
                self@.stats.success_count == old(self)@.stats.success_count + tally.successes,
                self@.stats.failure_count == old(self)@.stats.failure_count + j,
                self@.stats.total_bytes == old(self)@.stats.total_bytes + tally.bytes,
                self@.stats.throughput == old(self)@.stats.throughput,
                self@.input == old(self)@.input,
                self@.protocol == old(self)@.protocol,
                self@.write_options == old(self)@.write_options,
            decreases tally.failures - j,
        {
            self.stats.record_failure();
            j = j + 1;
        }
    }

    /// Fold every completed worker's tally into the statistics, in the order
    /// the workers were joined.
    pub fn merge_tallies(&mut self, tallies: &Vec<WorkerTally>)
        requires
            old(self)@.stats.total_bytes + tally_bytes_of(tallies@) <= u64::MAX,
            old(self)@.stats.success_count + old(self)@.stats.failure_count
                + tally_successes_of(tallies@) + tally_failures_of(tallies@) <= u64::MAX,
        ensures
            final(self)@.input == old(self)@.input,
            final(self)@.protocol == old(self)@.protocol,
            final(self)@.write_options == old(self)@.write_options,
            final(self)@.stats.throughput == old(self)@.stats.throughput,
            final(self)@.stats.total_bytes == old(self)@.stats.total_bytes
                + tally_bytes_of(tallies@),
            final(self)@.stats.success_count == old(self)@.stats.success_count
                + tally_successes_of(tallies@),
            final(self)@.stats.failure_count == old(self)@.stats.failure_count
                + tally_failures_of(tallies@),
    {
        proof {
            assert(tallies@.skip(0) =~= tallies@);
        }
        let n = tallies.len();
        let mut i: usize = 0;
        while i < n
            invariant
                i <= n,
                n == tallies@.len(),
                old(self)@.stats.total_bytes + tally_bytes_of(tallies@) <= u64::MAX,
                old(self)@.stats.success_count + old(self)@.stats.failure_count
                    + tally_successes_of(tallies@) + tally_failures_of(tallies@) <= u64::MAX,
                self@.stats.total_bytes == old(self)@.stats.total_bytes
                    + tally_bytes_of(tallies@) - tally_bytes_of(tallies@.skip(i as int)),
                self@.stats.success_count == old(self)@.stats.success_count
                    + tally_successes_of(tallies@) - tally_successes_of(
                    tallies@.skip(i as int),
                ),
                self@.stats.failure_count == old(self)@.stats.failure_count
                    + tally_failures_of(tallies@) - tally_failures_of(tallies@.skip(i as int)),
                self@.stats.throughput == old(self)@.stats.throughput,
                self@.input == old(self)@.input,
                self@.protocol == old(self)@.protocol,
                self@.write_options == old(self)@.write_options,
            decreases n - i,
        {
            proof {
                assert(tallies@.skip(i as int).first() == tallies@[i as int]);
                assert(tallies@.skip(i as int).drop_first() =~= tallies@.skip(i as int + 1));
                lemma_tally_sums_nonneg(tallies@.skip(i as int + 1));
            }
            let tally = tallies[i];
            self.merge_tally(&tally);
            i = i + 1;
        }
        proof {
            assert(tallies@.skip(n as int) =~= Seq::<WorkerTally>::empty());
        }
    }

    /// Record the throughput sample for the whole run and hand back the total
    /// number of bytes written. The elapsed seconds come from the clock the
    /// statistics were created with, so their value cannot be pinned down;
    /// whatever it is, the sample's byte figure is the run's total.
    pub fn finish(&mut self) -> (total: u64)
        ensures
            final(self)@.input == old(self)@.input,
            final(self)@.protocol == old(self)@.protocol,
            final(self)@.write_options == old(self)@.write_options,
            final(self)@.stats.total_bytes == old(self)@.stats.total_bytes,
            final(self)@.stats.success_count == old(self)@.stats.success_count,
            final(self)@.stats.failure_count == old(self)@.stats.failure_count,
            final(self)@.stats.throughput.total_bytes == old(self)@.stats.total_bytes,
            total == old(self)@.stats.total_bytes,
    {
        self.stats.record_throughput();
        self.stats.total_bytes()
    }

    /// Fold the outcomes of a completed run of sequential attempts into the
    /// statistics, record the run's throughput, and hand back the total
    /// number of bytes written.
    pub fn write(&mut self, outcomes: &Vec<SendOutcome>) -> (total: u64)
        requires
            old(self)@.stats.total_bytes + bytes_of(outcomes@) <= u64::MAX,
            old(self)@.stats.success_count + old(self)@.stats.failure_count
                + outcomes@.len() <= u64::MAX,
        ensures
            final(self)@.input == old(self)@.input,
            final(self)@.protocol == old(self)@.protocol,
            final(self)@.write_options == old(self)@.write_options,
            final(self)@.stats.total_bytes == old(self)@.stats.total_bytes
                + bytes_of(outcomes@),
            final(self)@.stats.success_count == old(self)@.stats.success_count
                + successes_of(outcomes@),
            final(self)@.stats.failure_count == old(self)@.stats.failure_count
                + failures_of(outcomes@),
            final(self)@.stats.throughput.total_bytes == final(self)@.stats.total_bytes,
            total == final(self)@.stats.total_bytes,
    {
        proof {
            assert(outcomes@.skip(0) =~= outcomes@);
        }
        let n = outcomes.len();
        let mut i: usize = 0;
        while i < n
            invariant
                i <= n,
                n == outcomes@.len(),
                old(self)@.stats.total_bytes + bytes_of(outcomes@) <= u64::MAX,
                old(self)@.stats.success_count + old(self)@.stats.failure_count
                    + outcomes@.len() <= u64::MAX,
                self@.stats.total_bytes == old(self)@.stats.total_bytes
                    + bytes_of(outcomes@) - bytes_of(outcomes@.skip(i as int)),
                self@.stats.success_count == old(self)@.stats.success_count
                    + successes_of(outcomes@) - successes_of(outcomes@.skip(i as int)),
                self@.stats.failure_count == old(self)@.stats.failure_count
                    + failures_of(outcomes@) - failures_of(outcomes@.skip(i as int)),
                self@.stats.throughput == old(self)@.stats.throughput,
                self@.input == old(self)@.input,
                self@.protocol == old(self)@.protocol,
                self@.write_options == old(self)@.write_options,
            decreases n - i,
        {
            proof {
                assert(outcomes@.skip(i as int).first() == outcomes@[i as int]);
                assert(outcomes@.skip(i as int).drop_first() =~= outcomes@.skip(i as int + 1));
                lemma_outcome_sums_nonneg(outcomes@.skip(i as int + 1));
                lemma_outcomes_partition(outcomes@.skip(i as int));
                lemma_outcomes_partition(outcomes@);
            }
            let outcome = outcomes[i];
            self.record_attempt(outcome);
            i = i + 1;
        }
        proof {
            assert(outcomes@.skip(n as int) =~= Seq::<SendOutcome>::empty());
        }
        self.finish()
    }

    /// Get the recorded throughput from the internal [`Statistics`].
    pub fn throughput(&self) -> (t: crate::statistics::Throughput)
        ensures
            t == self@.stats.throughput,
    {
        self.stats.throughput()
    }

    /// Get the total number of bytes from the internal [`Statistics`].
    pub fn total_bytes(&self) -> (r: u64)
        ensures
            r == self@.stats.total_bytes,
    {
        self.stats.total_bytes()
    }

    /// The number of successful requests from the internal [`Statistics`].
    pub fn successful_requests(&self) -> (r: u64)
        ensures
            r == self@.stats.success_count,
    {
        self.stats.successful_requests()
    }

    /// The number of failed requests from the internal [`Statistics`].
    pub fn failed_requests(&self) -> (r: u64)
        ensures
            r == self@.stats.failure_count,
    {
        self.stats.failed_requests()
    }

    /// Ratio of requests that were successful from the internal
    /// [`Statistics`].
    pub fn successful_requests_percentage(&self) -> (r: crate::statistics::SuccessRatio)
        requires
            self@.stats.wf(),
        ensures
            r.successes == self@.stats.success_count,
            r.attempts == self@.stats.success_count + self@.stats.failure_count,
    {
        self.stats.success_percentage()
    }

    /// The whole milliseconds since the statistics were created: a clock
    /// reading, so nothing is promised of its value.
    pub fn elapsed(&self) -> u128 {
        self.stats.elapsed()
    }
}

} // verus!
