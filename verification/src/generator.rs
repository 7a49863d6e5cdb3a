//! The generator's decision core: deterministic pacing toward a target
//! arrival rate, the categorical request mix, and per-kind ID selection.
//!
//! A generator thread loops: it waits until the next emission deadline,
//! builds one request, sends it, and advances the deadline by one interval.
//! Everything but the waiting and the send is decided here.

use vstd::prelude::*;
use crate::request::LobstersRequest;
use crate::request::NUM_REQUEST_KINDS;
use crate::request::Vote;
use crate::sampler::WorkloadSampler;
use crate::sampler::rand_below;
use crate::sampler::rand_coin;

verus! {

/// The sum of a weight table.
pub open spec fn sum_weights(s: Seq<u32>) -> int
    decreases s.len(),
{
    if s.len() == 0 {
        0
    } else {
        sum_weights(s.drop_last()) + s.last()
    }
}

proof fn lemma_sum_weights_take_succ(s: Seq<u32>, i: int)
    requires
        0 <= i < s.len(),
    ensures
        sum_weights(s.take(i + 1)) == sum_weights(s.take(i)) + s[i],
{
    assert(s.take(i + 1).drop_last() =~= s.take(i));
    assert(s.take(i + 1).last() == s[i]);
}

proof fn lemma_sum_weights_prefix_le(s: Seq<u32>, i: int)
    requires
        0 <= i <= s.len(),
    ensures
        sum_weights(s.take(i)) <= sum_weights(s),
    decreases s.len() - i,
{
    if i == s.len() {
        assert(s.take(i) =~= s);
    } else {
        lemma_sum_weights_take_succ(s, i);
        lemma_sum_weights_prefix_le(s, i + 1);
    }
}

proof fn lemma_sum_weights_nonneg(s: Seq<u32>)
    ensures
        sum_weights(s) >= 0,
    decreases s.len(),
{
    if s.len() > 0 {
        lemma_sum_weights_nonneg(s.drop_last());
    }
}

/// Sum a weight table.
pub fn total_weight(weights: &Vec<u32>) -> (t: u64)
    requires
        weights@.len() <= 0x1_0000,
    ensures
        t == sum_weights(weights@),
{
    let mut t: u64 = 0;
    let mut i: usize = 0;
    proof {
        assert(weights@.take(0) =~= Seq::<u32>::empty());
    }
    while i < weights.len()
        invariant
            0 <= i <= weights@.len(),
            weights@.len() <= 0x1_0000,
            t == sum_weights(weights@.take(i as int)),
            t <= i * 0x1_0000_0000,
        decreases weights@.len() - i,
    {
        proof {
            lemma_sum_weights_take_succ(weights@, i as int);
        }
        t = t + weights[i] as u64;
        i = i + 1;
    }
    proof {
        assert(weights@.take(weights@.len() as int) =~= weights@);
    }
    t
}

/// Roll the categorical request mix: pick an index of the weight table with
/// probability proportional to its weight. The picked index always carries a
/// positive weight.
pub fn pick_kind(weights: &Vec<u32>, rng: &mut rand::rngs::ThreadRng) -> (k: usize)
    requires
        weights@.len() == NUM_REQUEST_KINDS,
        1 <= sum_weights(weights@) <= u32::MAX,
    ensures
        k < NUM_REQUEST_KINDS,
        weights@[k as int] >= 1,
{
    let total = total_weight(weights) as u32;
    let roll = rand_below(rng, total);
    let mut acc: u32 = 0;
    let mut k: usize = 0;
    proof {
        assert(weights@.take(0) =~= Seq::<u32>::empty());
    }
    while k < weights.len()
        invariant
            0 <= k <= weights@.len(),
            weights@.len() == NUM_REQUEST_KINDS,
            sum_weights(weights@) <= u32::MAX,
            acc == sum_weights(weights@.take(k as int)),
            roll >= acc,
            roll < sum_weights(weights@),
        decreases weights@.len() - k,
    {
        proof {
            lemma_sum_weights_take_succ(weights@, k as int);
            lemma_sum_weights_prefix_le(weights@, k as int + 1);
        }
        let w = weights[k];
        if roll < acc + w {
            return k;
        }
        acc = acc + w;
        k = k + 1;
    }
    proof {
        assert(weights@.take(weights@.len() as int) =~= weights@);
    }
    // roll < sum_weights yet acc reached the whole sum: impossible.
    assert(false);
    0
}

/// The emission deadline clock: one emission every `interval_ns`.
pub struct Pacing {
    pub next_ns: u64,
    pub interval_ns: u64,
}

impl Pacing {
    /// Start pacing at `start_ns` toward a rate of `target_milli_rps`
    /// millirequests per second; the interval is the nanosecond period of
    /// that rate, rounded down.
    pub fn new(start_ns: u64, target_milli_rps: u64) -> (p: Pacing)
        requires
            target_milli_rps >= 1,
        ensures
            p.next_ns == start_ns,
            p.interval_ns == 1_000_000_000_000u64 as int / target_milli_rps as int,
    {
        Pacing { next_ns: start_ns, interval_ns: 1_000_000_000_000u64 / target_milli_rps }
    }

    /// Whether the next emission is due.
    pub fn due(&self, now_ns: u64) -> (r: bool)
        ensures
            r == (now_ns >= self.next_ns),
    {
        now_ns >= self.next_ns
    }

    /// Advance the deadline by one interval after an emission.
    pub fn advance(&mut self)
        requires
            old(self).next_ns + old(self).interval_ns <= u64::MAX,
        ensures
            final (self).next_ns == old(self).next_ns + old(self).interval_ns,
            final (self).interval_ns == old(self).interval_ns,
    {
        self.next_ns = self.next_ns + self.interval_ns;
    }
}

/// When a generator stops emitting: once the grace-extended run window has
/// elapsed.
pub open spec fn generation_over(now: int, start: int, warmup: int, runtime: int, grace: int) -> bool {
    now >= start + warmup + runtime + grace
}

/// Whether the generator is past the end of its run window.
pub fn generation_done(now_ns: u64, start_ns: u64, warmup_ns: u64, runtime_ns: u64, grace_ns: u64) -> (r: bool)
    requires
        start_ns + warmup_ns + runtime_ns + grace_ns <= u64::MAX,
    ensures
        r == generation_over(
            now_ns as int,
            start_ns as int,
            warmup_ns as int,
            runtime_ns as int,
            grace_ns as int,
        ),
{
    now_ns >= start_ns + warmup_ns + runtime_ns + grace_ns
}

/// The deterministic ideal behind the target rate: the emission deadlines
/// `start + k * interval` that fall inside the window `[start, end)` are
/// exactly the first `ceil((end - start) / interval)` of them, so a generator
/// that keeps every deadline emits that many requests over the window.
pub proof fn lemma_paced_emissions_in_window(start: int, end: int, interval: int)
    requires
        start <= end,
        1 <= interval,
    ensures
        Set::new(|k: int| 0 <= k && start + k * interval < end).len() == crate::harness::ceil_div(
            end - start,
            interval,
        ),
{
    let x = end - start;
    let c = crate::harness::ceil_div(x, interval);
    vstd::arithmetic::div_mod::lemma_fundamental_div_mod(x + interval - 1, interval);
    vstd::arithmetic::div_mod::lemma_mod_division_less_than_divisor(x + interval - 1, interval);
    vstd::arithmetic::div_mod::lemma_div_pos_is_pos(x + interval - 1, interval);
    // interval * c sits in [x, x + interval - 1].
    assert(interval * c <= x + interval - 1);
    assert(interval * c >= x);
    assert forall|k: int| (0 <= k && start + #[trigger] (k * interval) < end) <==> (0 <= k < c) by {
        if 0 <= k {
            if start + k * interval < end {
                // k * interval < x, so k < c.
                if k >= c {
                    vstd::arithmetic::mul::lemma_mul_inequality(c, k, interval);
                    vstd::arithmetic::mul::lemma_mul_is_commutative(c, interval);
                    vstd::arithmetic::mul::lemma_mul_is_commutative(k, interval);
                }
            }
            if k < c {
                // k * interval <= (c - 1) * interval <= x - 1.
                vstd::arithmetic::mul::lemma_mul_inequality(k, c - 1, interval);
                vstd::arithmetic::mul::lemma_mul_is_distributive_sub(interval, c, 1);
                vstd::arithmetic::mul::lemma_mul_is_commutative(c - 1, interval);
                vstd::arithmetic::mul::lemma_mul_is_commutative(k, interval);
            }
        }
    }
    assert(Set::new(|k: int| 0 <= k && start + k * interval < end) =~= vstd::set_lib::set_int_range(
        0,
        c,
    ));
    vstd::set_lib::lemma_int_range(0, c);
}

/// The per-generator counters: how many requests it has emitted, and the
/// fresh-ID counters for submissions and comments.
pub struct GeneratorState {
    pub emitted: u64,
    pub new_stories: u32,
    pub new_comments: u32,
}

impl GeneratorState {
    /// A generator that has emitted nothing.
    pub fn new() -> (st: GeneratorState)
        ensures
            st.emitted == 0,
            st.new_stories == 0,
            st.new_comments == 0,
    {
        GeneratorState { emitted: 0, new_stories: 0, new_comments: 0 }
    }
}

/// Pick a parent for a steady-state comment on `story`: with probability one
/// half, one of the primed comments of that story; otherwise none. Primed
/// comment `c` belongs to story `c % nstories`.
pub fn steady_comment_parent(
    story: u32,
    nstories: u32,
    ncomments: u32,
    rng: &mut rand::rngs::ThreadRng,
) -> (p: Option<u32>)
    requires
        1 <= nstories,
        story < nstories,
    ensures
        match p {
            Some(pp) => pp < ncomments && pp as int % nstories as int == story as int,
            None => true,
        },
{
    if story < ncomments && rand_coin(rng) {
        let candidates = ((ncomments - story) as u64 + nstories as u64 - 1) / nstories as u64;
        proof {
            let x = (ncomments - story) as int;
            let ns = nstories as int;
            let c = candidates as int;
            vstd::arithmetic::div_mod::lemma_fundamental_div_mod(x + ns - 1, ns);
            vstd::arithmetic::div_mod::lemma_mod_division_less_than_divisor(x + ns - 1, ns);
            vstd::arithmetic::div_mod::lemma_div_pos_is_pos(x + ns - 1, ns);
            // candidates >= 1 because x >= 1
            vstd::arithmetic::div_mod::lemma_div_is_ordered(ns, x + ns - 1, ns);
            vstd::arithmetic::div_mod::lemma_div_by_self(ns);
            // candidates <= x, so it fits a u32
            assert(ns * c <= x + ns - 1);
            assert(c <= x) by (nonlinear_arith)
                requires
                    ns >= 1,
                    x >= 1,
                    c >= 0,
                    ns * c <= x + ns - 1,
            ;
        }
        let pick = rand_below(rng, candidates as u32);
        proof {
            let x = (ncomments - story) as int;
            let ns = nstories as int;
            let c = candidates as int;
            // ns * c <= x + ns - 1, so ns * (c - 1) <= x - 1 < x
            vstd::arithmetic::mul::lemma_mul_inequality(pick as int, c - 1, ns);
            vstd::arithmetic::mul::lemma_mul_is_distributive_sub(ns, c, 1);
            vstd::arithmetic::mul::lemma_mul_is_commutative(pick as int, ns);
            vstd::arithmetic::mul::lemma_mul_is_commutative(c, ns);
        }
        let parent = story + nstories * pick;
        proof {
            let ns = nstories as int;
            vstd::arithmetic::div_mod::lemma_mod_multiples_vanish(pick as int, story as int, ns);
            vstd::arithmetic::div_mod::lemma_small_mod(story as nat, nstories as nat);
        }
        Some(parent)
    } else {
        None
    }
}

/// What the generator promises of each request it emits, given the entity
/// cardinalities and the fresh-ID counters before the draw.
pub open spec fn steady_request_ok(
    req: LobstersRequest,
    nusers: int,
    nstories: int,
    ncomments: int,
    new_stories: int,
    new_comments: int,
) -> bool {
    match req {
        LobstersRequest::Frontpage => true,
        LobstersRequest::Story(s) => s < nstories,
        LobstersRequest::Login(u) => u < nusers,
        LobstersRequest::Logout(u) => u < nusers,
        LobstersRequest::StoryVote(u, s, _v) => u < nusers && s < nstories,
        LobstersRequest::CommentVote(u, c, _v) => u < nusers && c < ncomments,
        LobstersRequest::Submit { id, user, title: _ } => id == nstories + new_stories && user
            < nusers,
        LobstersRequest::Comment { id, user, story, parent } => {
            &&& id == ncomments + new_comments
            &&& user < nusers
            &&& story < nstories
            &&& match parent {
                Some(p) => p < ncomments && p as int % nstories == story as int,
                None => true,
            }
        },
    }
}

/// Build the next steady-state request: roll the mix, draw the IDs its kind
/// needs, and bump the matching counters. The emitted count always rises by
/// exactly one.
pub fn next_request<S: WorkloadSampler>(
    sampler: &S,
    st: &mut GeneratorState,
    weights: &Vec<u32>,
    rng: &mut rand::rngs::ThreadRng,
) -> (pair: (Option<u32>, LobstersRequest))
    requires
        sampler.wf(),
        sampler.spec_nusers() >= 1,
        sampler.spec_nstories() >= 1,
        weights@.len() == NUM_REQUEST_KINDS,
        1 <= sum_weights(weights@) <= u32::MAX,
        sampler.spec_ncomments() >= 1 || weights@[5] == 0,
        old(st).emitted < u64::MAX,
        old(st).new_stories + sampler.spec_nstories() < u32::MAX,
        old(st).new_comments + sampler.spec_ncomments() < u32::MAX,
    ensures
        final (st).emitted == old(st).emitted + 1,
        steady_request_ok(
            pair.1,
            sampler.spec_nusers() as int,
            sampler.spec_nstories() as int,
            sampler.spec_ncomments() as int,
            old(st).new_stories as int,
            old(st).new_comments as int,
        ),
        match pair.0 {
            Some(u) => u < sampler.spec_nusers(),
            None => true,
        },
        weights@[pair.1.kind_spec().index_spec()] >= 1,
        pair.0 is Some <==> !(pair.1 is Frontpage || pair.1 is Story),
        pair.1 is Submit ==> final (st).new_stories == old(st).new_stories + 1,
        !(pair.1 is Submit) ==> final (st).new_stories == old(st).new_stories,
        pair.1 is Comment ==> final (st).new_comments == old(st).new_comments + 1,
        !(pair.1 is Comment) ==> final (st).new_comments == old(st).new_comments,
{
    let k = pick_kind(weights, rng);
    let req: LobstersRequest;
    let mut user: Option<u32> = None;
    if k == 0 {
        req = LobstersRequest::Frontpage;
    } else if k == 1 {
        req = LobstersRequest::Story(sampler.story_for_vote(rng));
    } else if k == 2 {
        let u = sampler.user(rng);
        user = Some(u);
        req = LobstersRequest::Login(u);
    } else if k == 3 {
        let u = sampler.user(rng);
        user = Some(u);
        req = LobstersRequest::Logout(u);
    } else if k == 4 {
        let u = sampler.user(rng);
        user = Some(u);
        let s = sampler.story_for_vote(rng);
        let v = if rand_coin(rng) {
            Vote::Up
        } else {
            Vote::Down
        };
        req = LobstersRequest::StoryVote(u, s, v);
    } else if k == 5 {
        let u = sampler.user(rng);
        user = Some(u);
        let c = sampler.comment_for_vote(rng);
        let v = if rand_coin(rng) {
            Vote::Up
        } else {
            Vote::Down
        };
        req = LobstersRequest::CommentVote(u, c, v);
    } else if k == 6 {
        let u = sampler.user(rng);
        user = Some(u);
        let id = sampler.nstories() + st.new_stories;
        st.new_stories = st.new_stories + 1;
        req = LobstersRequest::Submit { id, user: u, title: crate::request::article_title(id) };
    } else {
        let u = sampler.user(rng);
        user = Some(u);
        let story = sampler.story_for_comment(rng);
        let parent = steady_comment_parent(story, sampler.nstories(), sampler.ncomments(), rng);
        let id = sampler.ncomments() + st.new_comments;
        st.new_comments = st.new_comments + 1;
        req = LobstersRequest::Comment { id, user: u, story, parent };
    }
    st.emitted = st.emitted + 1;
    (user, req)
}

} // verus!
