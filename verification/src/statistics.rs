use vstd::prelude::*;
use std::time::Duration;
use std::time::Instant;

verus! {

/// `std::time::Instant` is opaque here: it only serves as the origin from
/// which the clock wrappers below measure elapsed time.
#[verifier::external_type_specification]
#[verifier::external_body]
pub struct ExInstant(Instant);

/// Relies on `std::time::Instant::now`: captures the current moment of the
/// monotonic clock. Nothing can be promised of when it is called.
#[verifier::external_body]
fn instant_now() -> Instant {
    Instant::now()
}

/// Relies on `std::time::Instant::elapsed`: the time passed since `start`
/// was captured. Nothing can be promised of a clock reading.
#[verifier::external_body]
fn instant_elapsed(start: &Instant) -> Duration {
    start.elapsed()
}

/// Relies on `std::time::Duration::as_millis`: the duration in whole
/// milliseconds, sub-millisecond precision dropped.
#[verifier::external_body]
fn duration_as_millis(d: &Duration) -> u128 {
    d.as_millis()
}

/// Relies on `std::time::Duration::as_secs`: the duration in whole seconds,
/// sub-second precision dropped.
#[verifier::external_body]
fn duration_as_secs(d: &Duration) -> u64 {
    d.as_secs()
}

/// A throughput sample: the bytes written over a whole run, against the whole
/// seconds the run took. The quotient of the two is the bytes-per-second
/// figure a report shows; keeping the pair instead of the quotient preserves
/// it exactly. Truncation to whole seconds is deliberate: a run shorter than
/// one second has `elapsed_seconds == 0` and its quotient is undefined.
#[derive(Clone, Copy, Debug, PartialEq, Eq, Structural)]
pub struct Throughput {
    pub total_bytes: u64,
    pub elapsed_seconds: u64,
}

impl Throughput {
    /// The quotient is a positive number exactly when some bytes were written
    /// and at least one whole second passed.
    pub open spec fn spec_is_positive(self) -> bool {
        self.total_bytes > 0 && self.elapsed_seconds > 0
    }

    /// Whether the sample's bytes-per-second quotient is defined and positive.
    pub fn is_positive(&self) -> (r: bool)
        ensures
            r == self.spec_is_positive(),
    {
        self.total_bytes > 0 && self.elapsed_seconds > 0
    }
}

/// After a run with any bytes written and at least one whole second elapsed,
/// the recorded throughput is positive.
pub proof fn lemma_throughput_positive(t: Throughput)
    requires
        t.total_bytes > 0,
        t.elapsed_seconds >= 1,
    ensures
        t.spec_is_positive(),
{
}

/// The ratio of successful attempts to all attempts, kept as an exact pair.
/// The percentage a report shows is `100 * successes / attempts`; with no
/// attempts at all the ratio is undefined.
#[derive(Clone, Copy, Debug, PartialEq, Eq, Structural)]
pub struct SuccessRatio {
    pub successes: u64,
    pub attempts: u64,
}

/// The counters of one run, as contracts see them. The clock origin that the
/// concrete accumulator also carries has no mathematical model and is absent.
pub struct StatsView {
    pub total_bytes: u64,
    pub success_count: u64,
    pub failure_count: u64,
    pub throughput: Throughput,
}

impl StatsView {
    /// The attempt tally stays countable: one more success or failure can
    /// always be expressed without the total overflowing.
    pub open spec fn wf(self) -> bool {
        self.success_count + self.failure_count <= u64::MAX
    }
}

/// Accumulator for one run: bytes confirmed written, per-attempt outcome
/// tallies, the moment the run began, and the throughput sample recorded once
/// at the end. Counters only ever increase while a run is underway.
pub struct Statistics {
    start_time: Instant,
    total_bytes: u64,
    success_count: u64,
    failure_count: u64,
    throughput: Throughput,
}

impl View for Statistics {
    type V = StatsView;

    closed spec fn view(&self) -> StatsView {
        StatsView {
            total_bytes: self.total_bytes,
            success_count: self.success_count,
            failure_count: self.failure_count,
            throughput: self.throughput,
        }
    }
}

impl Default for Statistics {
    /// A fresh accumulator, identical to `Statistics::new`.
    fn default() -> (s: Self)
        ensures
            s@.total_bytes == 0,
            s@.success_count == 0,
            s@.failure_count == 0,
            s@.throughput == (Throughput { total_bytes: 0, elapsed_seconds: 0 }),
    {
        Statistics::new()
    }
}

impl Statistics {
    /// A fresh accumulator with every counter at zero and the clock origin
    /// captured now.
    pub fn new() -> (s: Self)
        ensures
            s@.total_bytes == 0,
            s@.success_count == 0,
            s@.failure_count == 0,
            s@.throughput == (Throughput { total_bytes: 0, elapsed_seconds: 0 }),
    {
        Statistics {
            start_time: instant_now(),
            total_bytes: 0,
            success_count: 0,
            failure_count: 0,
            throughput: Throughput { total_bytes: 0, elapsed_seconds: 0 },
        }
    }

    /// Add `inc` bytes to the total written.
    pub fn increment_total(&mut self, inc: u64)
        requires
            old(self)@.total_bytes + inc <= u64::MAX,
        ensures
            final(self)@.total_bytes == old(self)@.total_bytes + inc,
            final(self)@.success_count == old(self)@.success_count,
            final(self)@.failure_count == old(self)@.failure_count,
            final(self)@.throughput == old(self)@.throughput,
    {
        self.total_bytes = self.total_bytes + inc;
    }

    /// Count one more successful attempt.
    pub fn record_success(&mut self)
        requires
            old(self)@.success_count + old(self)@.failure_count < u64::MAX,
        ensures
            final(self)@.success_count == old(self)@.success_count + 1,
            final(self)@.total_bytes == old(self)@.total_bytes,
            final(self)@.failure_count == old(self)@.failure_count,
            final(self)@.throughput == old(self)@.throughput,
    {
        self.success_count = self.success_count + 1;
    }

    /// Count one more failed attempt.
    pub fn record_failure(&mut self)
        requires
            old(self)@.success_count + old(self)@.failure_count < u64::MAX,
        ensures
            final(self)@.failure_count == old(self)@.failure_count + 1,
            final(self)@.total_bytes == old(self)@.total_bytes,
            final(self)@.success_count == old(self)@.success_count,
            final(self)@.throughput == old(self)@.throughput,
    {
        self.failure_count = self.failure_count + 1;
    }

    /// The number of attempts that succeeded.
    pub fn successful_requests(&self) -> (r: u64)
        ensures
            r == self@.success_count,
    {
        self.success_count
    }

    /// The number of attempts that failed.
    pub fn failed_requests(&self) -> (r: u64)
        ensures
            r == self@.failure_count,
    {
        self.failure_count
    }

    /// The share of attempts that succeeded, as an exact ratio.
    pub fn success_percentage(&self) -> (r: SuccessRatio)
        requires
            self@.wf(),
        ensures
            r.successes == self@.success_count,
            r.attempts == self@.success_count + self@.failure_count,
    {
        SuccessRatio { successes: self.success_count, attempts: self.success_count + self.failure_count }
    }

    /// The total number of bytes confirmed written.
    pub fn total_bytes(&self) -> (r: u64)
        ensures
            r == self@.total_bytes,
    {
        self.total_bytes
    }

    /// The total number of attempts issued, successful or not.
    pub fn request_count(&self) -> (r: u64)
        requires
            self@.wf(),
        ensures
            r == self@.success_count + self@.failure_count,
    {
        self.success_count + self.failure_count
    }

    /// Record the throughput sample for the run so far: the bytes written to
    /// date over the given number of whole elapsed seconds.
    pub fn record_throughput_at(&mut self, elapsed_seconds: u64)
        ensures
            final(self)@.throughput.total_bytes == old(self)@.total_bytes,
            final(self)@.throughput.elapsed_seconds == elapsed_seconds,
            final(self)@.total_bytes == old(self)@.total_bytes,
            final(self)@.success_count == old(self)@.success_count,
            final(self)@.failure_count == old(self)@.failure_count,
    {
        self.throughput = Throughput { total_bytes: self.total_bytes, elapsed_seconds };
    }

    /// Record the throughput sample for the run so far, reading the elapsed
    /// whole seconds from the clock. Which seconds value the clock yields
    /// cannot be pinned down; `record_throughput_at` says what is recorded
    /// for each value it may yield.
    pub fn record_throughput(&mut self)
        ensures
            final(self)@.throughput.total_bytes == old(self)@.total_bytes,
            final(self)@.total_bytes == old(self)@.total_bytes,
            final(self)@.success_count == old(self)@.success_count,
            final(self)@.failure_count == old(self)@.failure_count,
    {
        let d = instant_elapsed(&self.start_time);
        let secs = duration_as_secs(&d);
        self.record_throughput_at(secs);
    }

    /// The whole milliseconds passed since this accumulator was created. A
    /// clock reading: nothing is promised of its value.
    pub fn elapsed(&self) -> u128 {
        let d = instant_elapsed(&self.start_time);
        duration_as_millis(&d)
    }

    /// The throughput sample recorded by the latest `record_throughput`, or
    /// the zero sample if none was recorded yet.
    pub fn throughput(&self) -> (t: Throughput)
        ensures
            t == self@.throughput,
    {
        self.throughput
    }
}

} // verus!
