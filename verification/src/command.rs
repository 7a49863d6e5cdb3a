//! The payload of the shared work channel. Issuers receive these in order;
//! `Wait` and `Start` are the barrier markers the priming protocol interposes
//! between batches of requests. The driver attaches a real barrier to each
//! marker when it sends the command.

use vstd::prelude::*;
use crate::request::LobstersRequest;
use crate::request::UserId;

verus! {

/// One item on the shared work channel. `enqueued_at` is the monotonic
/// timestamp (in nanoseconds) at channel insertion: the clock origin for the
/// request's sojourn time.
#[derive(Debug, Clone)]
pub enum WorkerCommand {
    Request { enqueued_at: u64, user: Option<UserId>, req: LobstersRequest },
    Wait,
    Start,
}

/// How many commands of a sequence are requests.
pub open spec fn count_requests(s: Seq<WorkerCommand>) -> int
    decreases s.len(),
{
    if s.len() == 0 {
        0
    } else {
        count_requests(s.drop_last()) + if s.last() is Request {
            1int
        } else {
            0int
        }
    }
}

/// How many commands of a sequence are `Wait` barriers.
pub open spec fn count_waits(s: Seq<WorkerCommand>) -> int
    decreases s.len(),
{
    if s.len() == 0 {
        0
    } else {
        count_waits(s.drop_last()) + if s.last() is Wait {
            1int
        } else {
            0int
        }
    }
}

/// How many commands of a sequence are `Start` markers.
pub open spec fn count_starts(s: Seq<WorkerCommand>) -> int
    decreases s.len(),
{
    if s.len() == 0 {
        0
    } else {
        count_starts(s.drop_last()) + if s.last() is Start {
            1int
        } else {
            0int
        }
    }
}

/// Appending one command raises exactly the matching count by one.
pub proof fn lemma_counts_push(s: Seq<WorkerCommand>, c: WorkerCommand)
    ensures
        count_requests(s.push(c)) == count_requests(s) + if c is Request {
            1int
        } else {
            0int
        },
        count_waits(s.push(c)) == count_waits(s) + if c is Wait {
            1int
        } else {
            0int
        },
        count_starts(s.push(c)) == count_starts(s) + if c is Start {
            1int
        } else {
            0int
        },
{
    assert(s.push(c).drop_last() =~= s);
}

/// The send/receive ledger of the shared work channel: every receive matches
/// an earlier send, and what was sent but never received is dropped at
/// shutdown.
pub struct ChannelLedger {
    pub sent: u64,
    pub received: u64,
}

impl ChannelLedger {
    /// Nothing can be received before it is sent.
    pub open spec fn wf(&self) -> bool {
        self.received <= self.sent
    }

    /// An empty ledger.
    pub fn new() -> (l: ChannelLedger)
        ensures
            l.wf(),
            l.sent == 0,
            l.received == 0,
    {
        ChannelLedger { sent: 0, received: 0 }
    }

    /// Account one send.
    pub fn on_send(&mut self)
        requires
            old(self).wf(),
            old(self).sent < u64::MAX,
        ensures
            final (self).wf(),
            final (self).sent == old(self).sent + 1,
            final (self).received == old(self).received,
    {
        self.sent = self.sent + 1;
    }

    /// Account one receive; only a sent item can be received.
    pub fn on_receive(&mut self)
        requires
            old(self).wf(),
            old(self).received < old(self).sent,
        ensures
            final (self).wf(),
            final (self).received == old(self).received + 1,
            final (self).sent == old(self).sent,
    {
        self.received = self.received + 1;
    }

    /// The dropped count at shutdown: what was sent and never received, so
    /// receives plus dropped always equals sends.
    pub fn dropped(&self) -> (d: u64)
        requires
            self.wf(),
        ensures
            d == self.sent - self.received,
            d + self.received == self.sent,
    {
        self.sent - self.received
    }
}

/// Sum the per-generator emitted counts: the total number of channel sends
/// the generators performed.
pub fn total_emitted(counts: &Vec<u64>) -> (t: u64)
    requires
        sum_u64(counts@) <= u64::MAX,
    ensures
        t == sum_u64(counts@),
{
    let mut t: u64 = 0;
    let mut i: usize = 0;
    proof {
        assert(counts@.take(0) =~= Seq::<u64>::empty());
    }
    while i < counts.len()
        invariant
            0 <= i <= counts@.len(),
            sum_u64(counts@) <= u64::MAX,
            t == sum_u64(counts@.take(i as int)),
        decreases counts@.len() - i,
    {
        proof {
            lemma_sum_u64_take_succ(counts@, i as int);
            lemma_sum_u64_prefix_le(counts@, i as int + 1);
        }
        t = t + counts[i];
        i = i + 1;
    }
    proof {
        assert(counts@.take(counts@.len() as int) =~= counts@);
    }
    t
}

/// The sum of a sequence of counters.
pub open spec fn sum_u64(s: Seq<u64>) -> int
    decreases s.len(),
{
    if s.len() == 0 {
        0
    } else {
        sum_u64(s.drop_last()) + s.last()
    }
}

proof fn lemma_sum_u64_take_succ(s: Seq<u64>, i: int)
    requires
        0 <= i < s.len(),
    ensures
        sum_u64(s.take(i + 1)) == sum_u64(s.take(i)) + s[i],
{
    assert(s.take(i + 1).drop_last() =~= s.take(i));
    assert(s.take(i + 1).last() == s[i]);
}

proof fn lemma_sum_u64_prefix_le(s: Seq<u64>, i: int)
    requires
        0 <= i <= s.len(),
    ensures
        sum_u64(s.take(i)) <= sum_u64(s),
    decreases s.len() - i,
{
    if i == s.len() {
        assert(s.take(i) =~= s);
    } else {
        lemma_sum_u64_take_succ(s, i);
        lemma_sum_u64_prefix_le(s, i + 1);
    }
}

/// Every command of a sequence is a request, a wait, or a start, so the three
/// counts partition its length.
pub proof fn lemma_counts_partition(s: Seq<WorkerCommand>)
    ensures
        count_requests(s) + count_waits(s) + count_starts(s) == s.len(),
    decreases s.len(),
{
    if s.len() > 0 {
        lemma_counts_partition(s.drop_last());
    }
}

} // verus!
