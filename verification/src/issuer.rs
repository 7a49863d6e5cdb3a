//! The issuer's decision core: admission under the in-flight cap, the
//! warmup/measurement phase split, and per-request-kind latency recording.
//!
//! An issuer thread drains the shared channel and dispatches requests to its
//! client. This state machine makes every decision — whether another request
//! may be dispatched, when the accept loop shuts down, and which histogram a
//! completed request's sojourn time lands in — while the thread around it
//! does the blocking.

use vstd::prelude::*;
use crate::request::LobstersRequest;
use crate::request::NUM_REQUEST_KINDS;
use crate::request::RequestKind;

verus! {

/// A client adapter: dispatches one logical request against the backend and
/// returns when the operation has been issued. Implemented by the driver.
pub trait LobstersClient {
    /// Dispatch one request; completion is signalled by returning, success or
    /// failure undifferentiated.
    fn handle(&mut self, req: LobstersRequest);
}

/// A client factory: spawns one client instance per issuer thread.
/// Implemented by the driver.
pub trait Issuer {
    type Instance: LobstersClient;

    /// Idempotent schema bootstrap, run once before any traffic when the
    /// target database is primed.
    fn setup(&mut self);

    /// Create the client instance an issuer thread will own.
    fn spawn(&mut self) -> Self::Instance;
}

/// A per-kind latency histogram. The inner high-dynamic-range histogram is
/// opaque to the verifier; its recorded count is tracked abstractly.
#[verifier::external_body]
pub struct LatencyHistogram {
    inner: hdrhistogram::Histogram<u64>,
}

impl LatencyHistogram {
    /// Relies on `hdrhistogram::Histogram::max`: the highest equivalent
    /// recorded value, for reporting.
    #[verifier::external_body]
    pub fn max_value(&self) -> u64 {
        self.inner.max()
    }
}

/// The number of values recorded in a latency histogram, i.e. what its `len`
/// reports.
pub uninterp spec fn recorded_count(h: LatencyHistogram) -> int;

/// Relies on `hdrhistogram::Histogram::new_with_bounds`: with a lowest
/// trackable value of 1, a highest of at least 2 and at most 5 significant
/// figures it returns an empty histogram.
#[verifier::external_body]
fn hist_new(high: u64, sigfig: u8) -> (h: LatencyHistogram)
    requires
        high >= 2,
        sigfig <= 5,
    ensures
        recorded_count(h) == 0,
{
    LatencyHistogram { inner: hdrhistogram::Histogram::new_with_bounds(1, high, sigfig).unwrap() }
}

/// Relies on `hdrhistogram::Histogram::saturating_record`: it always records,
/// clamping out-of-range values, and raises the recorded count of the indexed
/// histogram by one.
#[verifier::external_body]
fn hist_record_at(hists: &mut Vec<LatencyHistogram>, idx: usize, value: u64)
    requires
        idx < old(hists)@.len(),
        recorded_count(old(hists)@[idx as int]) < u64::MAX,
    ensures
        final (hists)@.len() == old(hists)@.len(),
        recorded_count(final (hists)@[idx as int]) == recorded_count(old(hists)@[idx as int]) + 1,
        forall|j: int|
            0 <= j < old(hists)@.len() && j != idx ==> final (hists)@[j] == old(hists)@[j],
{
    hists[idx].inner.saturating_record(value);
}

/// Relies on `hdrhistogram::Histogram::len`: the total number of recorded
/// values.
#[verifier::external_body]
pub fn hist_len(h: &LatencyHistogram) -> (r: u64)
    ensures
        r == recorded_count(*h),
{
    h.inner.len()
}

/// Which window a request belongs to, by its enqueue time.
#[derive(Debug, Clone, Copy, Eq, PartialEq, Structural)]
pub enum Phase {
    Warmup,
    Measurement,
}

/// The phase of a request enqueued at `enqueued_at`: everything before the
/// warmup window closes — including requests enqueued before the start clock
/// — is warmup; everything at or after `start + warmup` is measurement.
pub open spec fn phase_of(enqueued_at: int, start: int, warmup: int) -> Phase {
    if enqueued_at < start + warmup {
        Phase::Warmup
    } else {
        Phase::Measurement
    }
}

/// Phase assignment is total and exclusive: a request enqueued inside the
/// warmup window is warmup, one enqueued inside the measurement window is
/// measurement, and no request is both.
pub proof fn lemma_phase_assignment(enqueued_at: int, start: int, warmup: int)
    ensures
        phase_of(enqueued_at, start, warmup) is Warmup <==> enqueued_at < start + warmup,
        phase_of(enqueued_at, start, warmup) is Measurement <==> enqueued_at >= start + warmup,
        !(phase_of(enqueued_at, start, warmup) is Warmup && phase_of(enqueued_at, start, warmup)
            is Measurement),
{
}

/// The per-thread issuer state: the admission window, the phase clock, and
/// the two histogram banks, one slot per request kind.
pub struct IssuerState {
    pub cap: usize,
    pub outstanding: usize,
    pub start_ns: u64,
    pub warmup_ns: u64,
    pub runtime_ns: u64,
    pub accepted: u64,
    pub completed: u64,
    pub warmup_hists: Vec<LatencyHistogram>,
    pub measurement_hists: Vec<LatencyHistogram>,
}

/// The default highest trackable sojourn time: one minute, in nanoseconds.
pub const MAX_TRACKED_SOJOURN_NS: u64 = 60_000_000_000;

/// The default number of significant figures.
pub const SOJOURN_SIGFIG: u8 = 3;

impl IssuerState {
    /// The issuer invariant: the in-flight count never exceeds the cap, the
    /// counters balance, the clock windows fit, and each bank has one
    /// histogram per request kind, none fuller than the completion count.
    pub open spec fn wf(&self) -> bool {
        &&& self.cap >= 1
        &&& self.outstanding <= self.cap
        &&& self.completed <= self.accepted
        &&& self.outstanding as int == self.accepted - self.completed
        &&& self.start_ns + self.warmup_ns + self.runtime_ns <= u64::MAX
        &&& self.warmup_hists@.len() == NUM_REQUEST_KINDS
        &&& self.measurement_hists@.len() == NUM_REQUEST_KINDS
        &&& forall|i: int|
            0 <= i < NUM_REQUEST_KINDS ==> 0 <= recorded_count(#[trigger] self.warmup_hists@[i])
                && 0 <= recorded_count(self.measurement_hists@[i]) && recorded_count(
                self.warmup_hists@[i],
            ) + recorded_count(self.measurement_hists@[i]) <= self.completed
    }

    /// Build an idle issuer with an in-flight cap of `cap` and empty
    /// histogram banks.
    pub fn new(cap: usize, warmup_ns: u64, runtime_ns: u64) -> (st: IssuerState)
        requires
            cap >= 1,
            warmup_ns + runtime_ns <= u64::MAX,
        ensures
            st.wf(),
            st.cap == cap,
            st.outstanding == 0,
            st.accepted == 0,
            st.completed == 0,
            st.start_ns == 0,
            st.warmup_ns == warmup_ns,
            st.runtime_ns == runtime_ns,
            forall|i: int|
                0 <= i < NUM_REQUEST_KINDS ==> recorded_count(#[trigger] st.warmup_hists@[i]) == 0
                    && recorded_count(st.measurement_hists@[i]) == 0,
    {
        let mut warmup_hists: Vec<LatencyHistogram> = Vec::new();
        let mut measurement_hists: Vec<LatencyHistogram> = Vec::new();
        let mut i: usize = 0;
        while i < NUM_REQUEST_KINDS
            invariant
                0 <= i <= NUM_REQUEST_KINDS,
                warmup_hists@.len() == i,
                measurement_hists@.len() == i,
                forall|j: int|
                    0 <= j < i ==> recorded_count(#[trigger] warmup_hists@[j]) == 0
                        && recorded_count(measurement_hists@[j]) == 0,
            decreases NUM_REQUEST_KINDS - i,
        {
            warmup_hists.push(hist_new(MAX_TRACKED_SOJOURN_NS, SOJOURN_SIGFIG));
            measurement_hists.push(hist_new(MAX_TRACKED_SOJOURN_NS, SOJOURN_SIGFIG));
            i = i + 1;
        }
        IssuerState {
            cap,
            outstanding: 0,
            start_ns: 0,
            warmup_ns,
            runtime_ns,
            accepted: 0,
            completed: 0,
            warmup_hists,
            measurement_hists,
        }
    }

    /// Whether another request may be accepted without breaching the cap.
    pub fn can_accept(&self) -> (r: bool)
        ensures
            r == (self.outstanding < self.cap),
    {
        self.outstanding < self.cap
    }

    /// Whether a request enqueued at this time is still issued: the accept
    /// loop shuts down once enqueue times reach the end of the measurement
    /// window.
    pub fn should_issue(&self, enqueued_at: u64) -> (r: bool)
        requires
            self.wf(),
        ensures
            r == (enqueued_at < self.start_ns + self.warmup_ns + self.runtime_ns),
    {
        enqueued_at < self.start_ns + self.warmup_ns + self.runtime_ns
    }

    /// Take one request under the cap: the in-flight count rises by one and
    /// never exceeds the cap.
    pub fn dispatch(&mut self)
        requires
            old(self).wf(),
            old(self).outstanding < old(self).cap,
            old(self).accepted < u64::MAX,
        ensures
            final (self).wf(),
            final (self).outstanding == old(self).outstanding + 1,
            final (self).accepted == old(self).accepted + 1,
            final (self).completed == old(self).completed,
            final (self).cap == old(self).cap,
            final (self).start_ns == old(self).start_ns,
            final (self).warmup_ns == old(self).warmup_ns,
            final (self).runtime_ns == old(self).runtime_ns,
            final (self).warmup_hists == old(self).warmup_hists,
            final (self).measurement_hists == old(self).measurement_hists,
    {
        self.outstanding = self.outstanding + 1;
        self.accepted = self.accepted + 1;
    }

    /// Retire one outstanding request, recording its sojourn time
    /// `now - enqueued_at` in the histogram of its kind, in the bank its
    /// enqueue time's phase selects — and in no other slot.
    pub fn complete(&mut self, kind: RequestKind, enqueued_at: u64, now: u64)
        requires
            old(self).wf(),
            old(self).outstanding >= 1,
            old(self).completed < u64::MAX,
            enqueued_at <= now,
        ensures
            final (self).wf(),
            final (self).outstanding == old(self).outstanding - 1,
            final (self).completed == old(self).completed + 1,
            final (self).accepted == old(self).accepted,
            final (self).cap == old(self).cap,
            final (self).start_ns == old(self).start_ns,
            final (self).warmup_ns == old(self).warmup_ns,
            final (self).runtime_ns == old(self).runtime_ns,
            phase_of(enqueued_at as int, old(self).start_ns as int, old(self).warmup_ns as int)
                is Warmup ==> {
                &&& recorded_count(final (self).warmup_hists@[kind.index_spec()]) == recorded_count(
                    old(self).warmup_hists@[kind.index_spec()],
                ) + 1
                &&& final (self).measurement_hists == old(self).measurement_hists
                &&& forall|j: int|
                    0 <= j < NUM_REQUEST_KINDS && j != kind.index_spec() ==> final (
                    self).warmup_hists@[j] == old(self).warmup_hists@[j]
            },
            phase_of(enqueued_at as int, old(self).start_ns as int, old(self).warmup_ns as int)
                is Measurement ==> {
                &&& recorded_count(final (self).measurement_hists@[kind.index_spec()])
                    == recorded_count(old(self).measurement_hists@[kind.index_spec()]) + 1
                &&& final (self).warmup_hists == old(self).warmup_hists
                &&& forall|j: int|
                    0 <= j < NUM_REQUEST_KINDS && j != kind.index_spec() ==> final (
                    self).measurement_hists@[j] == old(self).measurement_hists@[j]
            },
    {
        let idx = kind.index();
        let sojourn = now - enqueued_at;
        if enqueued_at < self.start_ns + self.warmup_ns {
            hist_record_at(&mut self.warmup_hists, idx, sojourn);
        } else {
            hist_record_at(&mut self.measurement_hists, idx, sojourn);
        }
        self.outstanding = self.outstanding - 1;
        self.completed = self.completed + 1;
    }

    /// Reset the warmup clock to the post-barrier instant a `Start` marker
    /// names.
    pub fn on_start(&mut self, now: u64)
        requires
            old(self).wf(),
            now + old(self).warmup_ns + old(self).runtime_ns <= u64::MAX,
        ensures
            final (self).wf(),
            final (self).start_ns == now,
            final (self).outstanding == old(self).outstanding,
            final (self).accepted == old(self).accepted,
            final (self).completed == old(self).completed,
            final (self).cap == old(self).cap,
            final (self).warmup_ns == old(self).warmup_ns,
            final (self).runtime_ns == old(self).runtime_ns,
            final (self).warmup_hists == old(self).warmup_hists,
            final (self).measurement_hists == old(self).measurement_hists,
    {
        self.start_ns = now;
    }

    /// Whether every accepted request has completed; shutdown requires it.
    pub fn drained(&self) -> (r: bool)
        ensures
            r == (self.outstanding == 0),
    {
        self.outstanding == 0
    }
}

/// The in-flight cap holds in every reachable issuer state: never more than
/// `cap` outstanding client operations.
pub proof fn lemma_in_flight_cap(st: IssuerState)
    requires
        st.wf(),
    ensures
        st.outstanding <= st.cap,
        st.outstanding as int == st.accepted - st.completed,
{
}

} // verus!
