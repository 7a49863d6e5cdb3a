//! The harness core: workload configuration, the priming plan with its
//! barrier placement, and the split of the target rate over generators.
//!
//! The harness thread sends the priming plan down the shared channel before
//! any generator starts. A `Wait` group is `nthreads` consecutive `Wait`
//! commands: because a `Wait` blocks the issuer that receives it until every
//! issuer has one, the group orders everything sent before it strictly before
//! everything sent after it.

use vstd::prelude::*;
use crate::command::WorkerCommand;
use crate::command::count_requests;
use crate::command::count_starts;
use crate::command::count_waits;
use crate::command::lemma_counts_partition;
use crate::command::lemma_counts_push;
use crate::request::LobstersRequest;
use crate::sampler::WorkloadSampler;
use crate::sampler::rand_below;
use crate::sampler::rand_coin;

verus! {

/// The immutable run configuration. The two scale factors are fixed-point in
/// thousandths; durations are in nanoseconds.
pub struct Workload {
    pub mem_scale_milli: u64,
    pub req_scale_milli: u64,
    pub threads: usize,
    pub warmup_ns: u64,
    pub runtime_ns: u64,
}

/// Why a configuration was rejected.
#[derive(Debug, Clone, Copy, Eq, PartialEq, Structural)]
pub enum ConfigError {
    ZeroMemScale,
    ZeroReqScale,
    ZeroThreads,
    ZeroWarmup,
    ZeroRuntime,
    DurationOverflow,
}

impl Workload {
    /// A usable configuration: positive scales, at least one issuer, positive
    /// windows, and a total window that fits the clock.
    pub open spec fn wf(&self) -> bool {
        &&& self.mem_scale_milli >= 1
        &&& self.req_scale_milli >= 1
        &&& self.threads >= 1
        &&& self.warmup_ns >= 1
        &&& self.runtime_ns >= 1
        &&& self.warmup_ns + self.runtime_ns <= u64::MAX
    }

    /// Check the configuration, failing fast on the first offending field.
    pub fn validate(&self) -> (r: Result<(), ConfigError>)
        ensures
            r is Ok <==> self.wf(),
            r == Err::<(), ConfigError>(ConfigError::ZeroMemScale) <==> self.mem_scale_milli == 0,
            r == Err::<(), ConfigError>(ConfigError::ZeroReqScale) <==> self.mem_scale_milli >= 1
                && self.req_scale_milli == 0,
            r == Err::<(), ConfigError>(ConfigError::ZeroThreads) <==> self.mem_scale_milli >= 1
                && self.req_scale_milli >= 1 && self.threads == 0,
            r == Err::<(), ConfigError>(ConfigError::ZeroWarmup) <==> self.mem_scale_milli >= 1
                && self.req_scale_milli >= 1 && self.threads >= 1 && self.warmup_ns == 0,
            r == Err::<(), ConfigError>(ConfigError::ZeroRuntime) <==> self.mem_scale_milli >= 1
                && self.req_scale_milli >= 1 && self.threads >= 1 && self.warmup_ns >= 1
                && self.runtime_ns == 0,
            r == Err::<(), ConfigError>(ConfigError::DurationOverflow) <==> self.mem_scale_milli
                >= 1 && self.req_scale_milli >= 1 && self.threads >= 1 && self.warmup_ns >= 1
                && self.runtime_ns >= 1 && self.warmup_ns + self.runtime_ns > u64::MAX,
    {
        if self.mem_scale_milli == 0 {
            Err(ConfigError::ZeroMemScale)
        } else if self.req_scale_milli == 0 {
            Err(ConfigError::ZeroReqScale)
        } else if self.threads == 0 {
            Err(ConfigError::ZeroThreads)
        } else if self.warmup_ns == 0 {
            Err(ConfigError::ZeroWarmup)
        } else if self.runtime_ns == 0 {
            Err(ConfigError::ZeroRuntime)
        } else if self.warmup_ns > u64::MAX - self.runtime_ns {
            Err(ConfigError::DurationOverflow)
        } else {
            Ok(())
        }
    }
}

/// The ceiling of `a / b`.
pub open spec fn ceil_div(a: int, b: int) -> int {
    (a + b - 1) / b
}

/// How many barrier rounds the comment loop interposes: one at the start of
/// each pass over the stories.
pub open spec fn prime_rounds(ncomments: int, nstories: int) -> int {
    ceil_div(ncomments, nstories)
}

/// One step of the round count: a pass boundary adds a round.
#[verifier::spinoff_prover]
proof fn lemma_ceil_div_step(i: int, b: int)
    requires
        0 <= i,
        1 <= b,
    ensures
        i % b == 0 ==> ceil_div(i + 1, b) == ceil_div(i, b) + 1,
        i % b != 0 ==> ceil_div(i + 1, b) == ceil_div(i, b),
{
    let q = i / b;
    let r = i % b;
    vstd::arithmetic::div_mod::lemma_fundamental_div_mod(i, b);
    vstd::arithmetic::div_mod::lemma_hoist_over_denominator(r + b - 1, q, b as nat);
    vstd::arithmetic::div_mod::lemma_hoist_over_denominator(r + b, q, b as nat);
    if r == 0 {
        vstd::arithmetic::div_mod::lemma_basic_div(b - 1, b);
        vstd::arithmetic::div_mod::lemma_div_by_self(b);
    } else {
        vstd::arithmetic::div_mod::lemma_hoist_over_denominator(r - 1, 1, b as nat);
        vstd::arithmetic::div_mod::lemma_basic_div(r - 1, b);
        vstd::arithmetic::div_mod::lemma_hoist_over_denominator(r, 1, b as nat);
        vstd::arithmetic::div_mod::lemma_basic_div(r, b);
    }
}

/// What the priming plan promises of each command it holds: every request is
/// stamped with the plan's clock origin, addressed to a known user, and is a
/// login of a known user, a submit of a known story with its canonical title,
/// or a comment on the story its ID maps to whose parent, if any, is an
/// earlier comment on the same story.
pub open spec fn prime_cmd_ok(
    c: WorkerCommand,
    now: int,
    nusers: int,
    nstories: int,
    ncomments: int,
) -> bool {
    match c {
        WorkerCommand::Request { enqueued_at, user, req } => {
            &&& enqueued_at == now
            &&& match user {
                Some(u) => u < nusers,
                None => false,
            }
            &&& match req {
                LobstersRequest::Login(u) => u < nusers,
                LobstersRequest::Submit { id, user: author, title } => {
                    &&& id < nstories
                    &&& author < nusers
                    &&& title@ == crate::request::title_of(id as int)
                },
                LobstersRequest::Comment { id, user: author, story, parent } => {
                    &&& id < ncomments
                    &&& author < nusers
                    &&& story as int == id as int % nstories
                    &&& match parent {
                        Some(p) => p as int % nstories == story as int && p < id,
                        None => true,
                    }
                },
                _ => false,
            }
        },
        _ => true,
    }
}

/// `prime_cmd_ok` over a whole plan.
pub open spec fn all_prime_ok(
    s: Seq<WorkerCommand>,
    now: int,
    nusers: int,
    nstories: int,
    ncomments: int,
) -> bool {
    forall|i: int| 0 <= i < s.len() ==> prime_cmd_ok(#[trigger] s[i], now, nusers, nstories, ncomments)
}

proof fn lemma_prime_ok_push(
    s: Seq<WorkerCommand>,
    c: WorkerCommand,
    now: int,
    nusers: int,
    nstories: int,
    ncomments: int,
)
    requires
        all_prime_ok(s, now, nusers, nstories, ncomments),
        prime_cmd_ok(c, now, nusers, nstories, ncomments),
    ensures
        all_prime_ok(s.push(c), now, nusers, nstories, ncomments),
{
    assert forall|i: int| 0 <= i < s.push(c).len() implies prime_cmd_ok(
        #[trigger] s.push(c)[i],
        now,
        nusers,
        nstories,
        ncomments,
    ) by {
        if i < s.len() {
            assert(s.push(c)[i] == s[i]);
        } else {
            assert(s.push(c)[i] == c);
        }
    }
}

/// Where priming comment `i` sits in the plan: after the logins, the first
/// barrier group and the submits, preceded by `i` earlier comments and the
/// barrier groups of the rounds up to and including its own.
pub open spec fn comment_slot(nusers: int, nthreads: int, nstories: int, i: int) -> int {
    nusers + nthreads + nstories + i + nthreads * ceil_div(i + 1, nstories)
}

/// The first `n` priming comments stand at their slots: comment `i` is a
/// request stamped with the plan's clock whose payload is a comment with ID
/// exactly `i` — so the plan holds each comment ID below `n` exactly once.
pub open spec fn comments_pinned(
    s: Seq<WorkerCommand>,
    nusers: int,
    nthreads: int,
    nstories: int,
    now: int,
    n: int,
) -> bool {
    forall|i: int|
        0 <= i < n ==> 0 <= comment_slot(nusers, nthreads, nstories, i) < s.len() && ((
        #[trigger] s[comment_slot(nusers, nthreads, nstories, i)]) matches WorkerCommand::Request {
            enqueued_at: e,
            user: _,
            req: LobstersRequest::Comment { id: cid, .. },
        } && e == now && cid == i)
}

proof fn lemma_comments_pinned_push(
    s: Seq<WorkerCommand>,
    c: WorkerCommand,
    nusers: int,
    nthreads: int,
    nstories: int,
    now: int,
    n: int,
)
    requires
        comments_pinned(s, nusers, nthreads, nstories, now, n),
    ensures
        comments_pinned(s.push(c), nusers, nthreads, nstories, now, n),
{
    assert forall|i: int| 0 <= i < n implies 0 <= comment_slot(nusers, nthreads, nstories, i)
        < s.push(c).len() && ((#[trigger] s.push(c)[comment_slot(
        nusers,
        nthreads,
        nstories,
        i,
    )]) matches WorkerCommand::Request {
        enqueued_at: e,
        user: _,
        req: LobstersRequest::Comment { id: cid, .. },
    } && e == now && cid == i) by {
        assert(0 <= comment_slot(nusers, nthreads, nstories, i) < s.len() && ((s[comment_slot(
            nusers,
            nthreads,
            nstories,
            i,
        )]) matches WorkerCommand::Request {
            enqueued_at: e,
            user: _,
            req: LobstersRequest::Comment { id: cid, .. },
        } && e == now && cid == i));
        assert(s.push(c)[comment_slot(nusers, nthreads, nstories, i)] == s[comment_slot(
            nusers,
            nthreads,
            nstories,
            i,
        )]);
    }
}

proof fn lemma_comments_pinned_extend(
    s: Seq<WorkerCommand>,
    c: WorkerCommand,
    nusers: int,
    nthreads: int,
    nstories: int,
    now: int,
    n: int,
)
    requires
        0 <= n,
        comments_pinned(s, nusers, nthreads, nstories, now, n),
        s.len() == comment_slot(nusers, nthreads, nstories, n),
        (c matches WorkerCommand::Request {
            enqueued_at: e,
            user: _,
            req: LobstersRequest::Comment { id: cid, .. },
        } && e == now && cid == n),
    ensures
        comments_pinned(s.push(c), nusers, nthreads, nstories, now, n + 1),
{
    lemma_comments_pinned_push(s, c, nusers, nthreads, nstories, now, n);
    assert(0 <= comment_slot(nusers, nthreads, nstories, n));
    assert(s.push(c)[comment_slot(nusers, nthreads, nstories, n)] == c);
}

/// Pick a parent for priming comment `id`: with probability one half, an
/// earlier comment in the same story round-robin class; otherwise none.
pub fn comment_parent(id: u32, nstories: u32, rng: &mut rand::rngs::ThreadRng) -> (p: Option<u32>)
    requires
        nstories >= 1,
    ensures
        match p {
            Some(pp) => pp as int % nstories as int == id as int % nstories as int && pp < id,
            None => true,
        },
{
    if rand_coin(rng) {
        let story = id % nstories;
        proof {
            if id < nstories {
                vstd::arithmetic::div_mod::lemma_small_mod(id as nat, nstories as nat);
            }
            assert(story <= id);
        }
        let generated = id - story;
        let per_story = generated / nstories;
        if per_story != 0 {
            let pick = rand_below(rng, per_story);
            proof {
                let n = id as int;
                let ns = nstories as int;
                vstd::arithmetic::div_mod::lemma_fundamental_div_mod(n, ns);
                // generated == ns * (id / ns), so per_story == id / ns
                vstd::arithmetic::div_mod::lemma_div_multiples_vanish(n / ns, ns);
                vstd::arithmetic::mul::lemma_mul_inequality(
                    pick as int,
                    per_story as int - 1,
                    ns,
                );
                vstd::arithmetic::mul::lemma_mul_is_distributive_sub(
                    ns,
                    per_story as int,
                    1,
                );
                vstd::arithmetic::mul::lemma_mul_is_commutative(pick as int, ns);
                vstd::arithmetic::mul::lemma_mul_is_commutative(per_story as int, ns);
            }
            let parent = story + nstories * pick;
            proof {
                let ns = nstories as int;
                vstd::arithmetic::div_mod::lemma_mod_multiples_vanish(
                    pick as int,
                    story as int,
                    ns,
                );
                vstd::arithmetic::div_mod::lemma_small_mod(story as nat, nstories as nat);
            }
            Some(parent)
        } else {
            None
        }
    } else {
        None
    }
}

/// Build the priming plan: log in every user; a `Wait` group; submit every
/// story; the comments, with a `Wait` group at the start of each pass over
/// the stories; a final `Wait` group. The counts are exact: one request per
/// user, story and comment, and `nthreads * (2 + rounds)` barrier commands.
pub fn priming_commands<S: WorkloadSampler>(
    sampler: &S,
    nthreads: usize,
    now: u64,
    rng: &mut rand::rngs::ThreadRng,
) -> (cmds: Vec<WorkerCommand>)
    requires
        sampler.wf(),
        sampler.spec_nusers() >= 1,
        sampler.spec_nstories() >= 1,
        nthreads >= 1,
    ensures
        count_requests(cmds@) == sampler.spec_nusers() + sampler.spec_nstories()
            + sampler.spec_ncomments(),
        count_waits(cmds@) == nthreads * (2 + prime_rounds(
            sampler.spec_ncomments() as int,
            sampler.spec_nstories() as int,
        )),
        count_starts(cmds@) == 0,
        cmds@.len() == count_requests(cmds@) + count_waits(cmds@),
        forall|i: int|
            0 <= i < sampler.spec_nusers() ==> #[trigger] cmds@[i] == (WorkerCommand::Request {
                enqueued_at: now,
                user: Some(i as u32),
                req: LobstersRequest::Login(i as u32),
            }),
        forall|i: int|
            0 <= i < nthreads ==> #[trigger] cmds@[sampler.spec_nusers() + i] is Wait,
        forall|i: int|
            0 <= i < sampler.spec_nstories() ==> ((#[trigger] cmds@[sampler.spec_nusers()
                + nthreads + i]) matches WorkerCommand::Request {
                enqueued_at: e,
                user: _,
                req: LobstersRequest::Submit { id, .. },
            } && e == now && id == i),
        comments_pinned(
            cmds@,
            sampler.spec_nusers() as int,
            nthreads as int,
            sampler.spec_nstories() as int,
            now as int,
            sampler.spec_ncomments() as int,
        ),
        all_prime_ok(
            cmds@,
            now as int,
            sampler.spec_nusers() as int,
            sampler.spec_nstories() as int,
            sampler.spec_ncomments() as int,
        ),
{
    let nusers = sampler.nusers();
    let nstories = sampler.nstories();
    let ncomments = sampler.ncomments();
    let ghost gnow = now as int;
    let ghost gu = nusers as int;
    let ghost gs = nstories as int;
    let ghost gc = ncomments as int;
    let mut cmds: Vec<WorkerCommand> = Vec::new();

    // 1. Log in every user.
    let mut u: u32 = 0;
    while u < nusers
        invariant
            0 <= u <= nusers,
            cmds@.len() == u,
            count_requests(cmds@) == u,
            count_waits(cmds@) == 0,
            count_starts(cmds@) == 0,
            forall|i: int|
                0 <= i < u ==> #[trigger] cmds@[i] == (WorkerCommand::Request {
                    enqueued_at: now,
                    user: Some(i as u32),
                    req: LobstersRequest::Login(i as u32),
                }),
            all_prime_ok(cmds@, gnow, gu, gs, gc),
            gnow == now as int && gu == nusers as int && gs == nstories as int && gc
                == ncomments as int,
        decreases nusers - u,
    {
        let c = WorkerCommand::Request {
            enqueued_at: now,
            user: Some(u),
            req: LobstersRequest::Login(u),
        };
        proof {
            lemma_counts_push(cmds@, c);
            lemma_prime_ok_push(cmds@, c, gnow, gu, gs, gc);
        }
        cmds.push(c);
        u = u + 1;
    }

    // 2. Barrier group: every issuer drains its logins and blocks.
    let mut w: usize = 0;
    while w < nthreads
        invariant
            0 <= w <= nthreads,
            cmds@.len() == nusers + w,
            count_requests(cmds@) == nusers,
            count_waits(cmds@) == w,
            count_starts(cmds@) == 0,
            forall|i: int|
                0 <= i < nusers ==> #[trigger] cmds@[i] == (WorkerCommand::Request {
                    enqueued_at: now,
                    user: Some(i as u32),
                    req: LobstersRequest::Login(i as u32),
                }),
            forall|i: int| 0 <= i < w ==> #[trigger] cmds@[nusers + i] is Wait,
            all_prime_ok(cmds@, gnow, gu, gs, gc),
            gnow == now as int && gu == nusers as int && gs == nstories as int && gc
                == ncomments as int,
        decreases nthreads - w,
    {
        proof {
            lemma_counts_push(cmds@, WorkerCommand::Wait);
            lemma_prime_ok_push(cmds@, WorkerCommand::Wait, gnow, gu, gs, gc);
        }
        cmds.push(WorkerCommand::Wait);
        w = w + 1;
    }

    // 3. Submit every story, authored by a histogram-drawn user.
    let mut sid: u32 = 0;
    while sid < nstories
        invariant
            0 <= sid <= nstories,
            sampler.wf(),
            sampler.spec_nusers() >= 1,
            cmds@.len() == nusers + nthreads + sid,
            count_requests(cmds@) == nusers + sid,
            count_waits(cmds@) == nthreads as int,
            count_starts(cmds@) == 0,
            forall|i: int|
                0 <= i < nusers ==> #[trigger] cmds@[i] == (WorkerCommand::Request {
                    enqueued_at: now,
                    user: Some(i as u32),
                    req: LobstersRequest::Login(i as u32),
                }),
            forall|i: int| 0 <= i < nthreads ==> #[trigger] cmds@[nusers + i] is Wait,
            forall|i: int|
                0 <= i < sid ==> ((#[trigger] cmds@[nusers + nthreads as int + i])
                    matches WorkerCommand::Request {
                    enqueued_at: e,
                    user: _,
                    req: LobstersRequest::Submit { id, .. },
                } && e == now && id == i),
            all_prime_ok(cmds@, gnow, gu, gs, gc),
            gnow == now as int && gu == sampler.spec_nusers() as int && gu == nusers as int && gs
                == nstories as int && gc == ncomments as int,
        decreases nstories - sid,
    {
        let author = sampler.user(rng);
        let c = WorkerCommand::Request {
            enqueued_at: now,
            user: Some(author),
            req: LobstersRequest::Submit {
                id: sid,
                user: author,
                title: crate::request::article_title(sid),
            },
        };
        proof {
            lemma_counts_push(cmds@, c);
            lemma_prime_ok_push(cmds@, c, gnow, gu, gs, gc);
        }
        cmds.push(c);
        sid = sid + 1;
    }

    // 4. The comments, one pass over the stories per round, with a barrier
    // group at each round start so that parent candidates already exist.
    let mut id: u32 = 0;
    proof {
        assert(ceil_div(0, gs) == 0) by {
            vstd::arithmetic::div_mod::lemma_basic_div(gs - 1, gs);
        }
    }
    while id < ncomments
        invariant
            0 <= id <= ncomments,
            sampler.wf(),
            sampler.spec_nusers() >= 1,
            nstories >= 1,
            cmds@.len() >= nusers + nthreads + nstories,
            cmds@.len() == nusers + nthreads as int + nstories + id + nthreads as int * ceil_div(
                id as int,
                gs,
            ),
            comments_pinned(cmds@, gu, nthreads as int, gs, gnow, id as int),
            forall|i: int|
                0 <= i < nusers ==> #[trigger] cmds@[i] == (WorkerCommand::Request {
                    enqueued_at: now,
                    user: Some(i as u32),
                    req: LobstersRequest::Login(i as u32),
                }),
            forall|i: int| 0 <= i < nthreads ==> #[trigger] cmds@[nusers + i] is Wait,
            forall|i: int|
                0 <= i < nstories ==> ((#[trigger] cmds@[nusers + nthreads as int + i])
                    matches WorkerCommand::Request {
                    enqueued_at: e,
                    user: _,
                    req: LobstersRequest::Submit { id, .. },
                } && e == now && id == i),
            count_requests(cmds@) == nusers + nstories + id,
            count_waits(cmds@) == nthreads * (1 + ceil_div(id as int, gs)),
            count_starts(cmds@) == 0,
            all_prime_ok(cmds@, gnow, gu, gs, gc),
            gnow == now as int && gu == sampler.spec_nusers() as int && gu == nusers as int && gs
                == nstories as int && gc == ncomments as int,
        decreases ncomments - id,
    {
        let story = id % nstories;
        proof {
            lemma_ceil_div_step(id as int, gs);
        }
        if story == 0 {
            let mut w2: usize = 0;
            while w2 < nthreads
                invariant
                    0 <= w2 <= nthreads,
                    cmds@.len() >= nusers + nthreads + nstories,
                    cmds@.len() == nusers + nthreads as int + nstories + id + nthreads as int
                        * ceil_div(id as int, gs) + w2,
                    comments_pinned(cmds@, gu, nthreads as int, gs, gnow, id as int),
            forall|i: int|
                0 <= i < nusers ==> #[trigger] cmds@[i] == (WorkerCommand::Request {
                    enqueued_at: now,
                    user: Some(i as u32),
                    req: LobstersRequest::Login(i as u32),
                }),
            forall|i: int| 0 <= i < nthreads ==> #[trigger] cmds@[nusers + i] is Wait,
            forall|i: int|
                0 <= i < nstories ==> ((#[trigger] cmds@[nusers + nthreads as int + i])
                    matches WorkerCommand::Request {
                    enqueued_at: e,
                    user: _,
                    req: LobstersRequest::Submit { id, .. },
                } && e == now && id == i),
                    count_requests(cmds@) == nusers + nstories + id,
                    count_waits(cmds@) == nthreads * (1 + ceil_div(id as int, gs)) + w2,
                    count_starts(cmds@) == 0,
                    all_prime_ok(cmds@, gnow, gu, gs, gc),
                    gnow == now as int && gu == nusers as int && gs == nstories as int && gc
                        == ncomments as int,
                decreases nthreads - w2,
            {
                proof {
                    lemma_counts_push(cmds@, WorkerCommand::Wait);
                    lemma_prime_ok_push(cmds@, WorkerCommand::Wait, gnow, gu, gs, gc);
                    lemma_comments_pinned_push(
                        cmds@,
                        WorkerCommand::Wait,
                        gu,
                        nthreads as int,
                        gs,
                        gnow,
                        id as int,
                    );
                }
                cmds.push(WorkerCommand::Wait);
                w2 = w2 + 1;
            }
            proof {
                vstd::arithmetic::mul::lemma_mul_is_distributive_add(
                    nthreads as int,
                    1 + ceil_div(id as int, gs),
                    1,
                );
                vstd::arithmetic::mul::lemma_mul_is_distributive_add(
                    nthreads as int,
                    ceil_div(id as int, gs),
                    1,
                );
            }
        }
        let parent = comment_parent(id, nstories, rng);
        let author = sampler.user(rng);
        let c = WorkerCommand::Request {
            enqueued_at: now,
            user: Some(author),
            req: LobstersRequest::Comment { id, user: author, story, parent },
        };
        proof {
            lemma_counts_push(cmds@, c);
            lemma_prime_ok_push(cmds@, c, gnow, gu, gs, gc);
            assert(cmds@.len() == comment_slot(gu, nthreads as int, gs, id as int));
            lemma_comments_pinned_extend(
                cmds@,
                c,
                gu,
                nthreads as int,
                gs,
                gnow,
                id as int,
            );
        }
        cmds.push(c);
        id = id + 1;
    }

    // 5. Final barrier group: priming is complete once it falls.
    let mut w3: usize = 0;
    while w3 < nthreads
        invariant
            0 <= w3 <= nthreads,
            cmds@.len() >= nusers + nthreads + nstories,
            comments_pinned(cmds@, gu, nthreads as int, gs, gnow, gc),
            forall|i: int|
                0 <= i < nusers ==> #[trigger] cmds@[i] == (WorkerCommand::Request {
                    enqueued_at: now,
                    user: Some(i as u32),
                    req: LobstersRequest::Login(i as u32),
                }),
            forall|i: int| 0 <= i < nthreads ==> #[trigger] cmds@[nusers + i] is Wait,
            forall|i: int|
                0 <= i < nstories ==> ((#[trigger] cmds@[nusers + nthreads as int + i])
                    matches WorkerCommand::Request {
                    enqueued_at: e,
                    user: _,
                    req: LobstersRequest::Submit { id, .. },
                } && e == now && id == i),
            count_requests(cmds@) == nusers + nstories + ncomments,
            count_waits(cmds@) == nthreads * (1 + ceil_div(gc, gs)) + w3,
            count_starts(cmds@) == 0,
            all_prime_ok(cmds@, gnow, gu, gs, gc),
            gnow == now as int && gu == nusers as int && gs == nstories as int && gc
                == ncomments as int,
        decreases nthreads - w3,
    {
        proof {
            lemma_counts_push(cmds@, WorkerCommand::Wait);
            lemma_prime_ok_push(cmds@, WorkerCommand::Wait, gnow, gu, gs, gc);
            lemma_comments_pinned_push(
                cmds@,
                WorkerCommand::Wait,
                gu,
                nthreads as int,
                gs,
                gnow,
                gc,
            );
        }
        cmds.push(WorkerCommand::Wait);
        w3 = w3 + 1;
    }
    proof {
        vstd::arithmetic::mul::lemma_mul_is_distributive_add(
            nthreads as int,
            1 + ceil_div(gc, gs),
            1,
        );
        lemma_counts_partition(cmds@);
    }
    cmds
}

/// The barrier-through-a-queue argument. An issuer that receives a `Wait`
/// blocks on its barrier, so it cannot receive a second one of the same
/// group; hence the receivers of one group's `nthreads` commands are
/// pairwise distinct. This lemma closes the argument: distinct receivers of
/// `nthreads` commands among `nthreads` issuers cover every issuer, so each
/// has drained everything sent before the group — the happens-before edge
/// from each message before the barrier to each message after it.
pub proof fn lemma_wait_group_covers_all_issuers(receivers: Seq<int>, nthreads: int)
    requires
        nthreads >= 1,
        receivers.len() == nthreads,
        forall|i: int| 0 <= i < nthreads ==> 0 <= #[trigger] receivers[i] < nthreads,
        forall|i: int, j: int|
            0 <= i < nthreads && 0 <= j < nthreads && i != j ==> receivers[i] != receivers[j],
    ensures
        forall|t: int| 0 <= t < nthreads ==> #[trigger] receivers.contains(t),
{
    let s = receivers.to_set();
    let r = vstd::set_lib::set_int_range(0, nthreads);
    assert(receivers.no_duplicates());
    receivers.unique_seq_to_set();
    vstd::set_lib::lemma_int_range(0, nthreads);
    assert(s.subset_of(r)) by {
        assert forall|x: int| s.contains(x) implies r.contains(x) by {
            assert(receivers.contains(x));
        }
    }
    vstd::set_lib::lemma_subset_equality(s, r);
    assert forall|t: int| 0 <= t < nthreads implies #[trigger] receivers.contains(t) by {
        assert(r.contains(t));
        assert(s.contains(t));
    }
}

/// Build the `Start` group: `nthreads` consecutive `Start` markers, so every
/// issuer resets its warmup clock at the same barrier.
pub fn start_commands(nthreads: usize) -> (cmds: Vec<WorkerCommand>)
    ensures
        cmds@.len() == nthreads,
        count_requests(cmds@) == 0,
        count_waits(cmds@) == 0,
        count_starts(cmds@) == nthreads,
        forall|i: int| 0 <= i < cmds@.len() ==> cmds@[i] is Start,
{
    let mut cmds: Vec<WorkerCommand> = Vec::new();
    let mut w: usize = 0;
    while w < nthreads
        invariant
            0 <= w <= nthreads,
            cmds@.len() == w,
            count_requests(cmds@) == 0,
            count_waits(cmds@) == 0,
            count_starts(cmds@) == w,
            forall|i: int| 0 <= i < cmds@.len() ==> cmds@[i] is Start,
        decreases nthreads - w,
    {
        proof {
            lemma_counts_push(cmds@, WorkerCommand::Start);
        }
        cmds.push(WorkerCommand::Start);
        w = w + 1;
    }
    cmds
}

/// How many generator threads a target rate needs, and the rate each one
/// drives: the smallest number of generators that keeps each below the
/// per-generator ceiling, the target split evenly with the remainder dropped.
/// Rates are in milli-requests per second.
pub fn generator_split(target_milli_rps: u64, capacity_rps: u64) -> (r: (u64, u64))
    requires
        1 <= capacity_rps <= 1_000_000_000,
        target_milli_rps <= 0x4000_0000_0000_0000,
    ensures
        r.0 >= 1,
        target_milli_rps >= 1 ==> r.0 == ceil_div(target_milli_rps as int, capacity_rps as int
            * 1000),
        r.0 * (capacity_rps as int * 1000) >= target_milli_rps,
        r.1 <= capacity_rps * 1000,
        r.0 * r.1 <= target_milli_rps < r.0 * (r.1 + 1),
{
    let cap_milli = capacity_rps * 1000;
    let ngen_raw = (target_milli_rps + cap_milli - 1) / cap_milli;
    let ngen = if ngen_raw == 0 {
        1
    } else {
        ngen_raw
    };
    let per = target_milli_rps / ngen;
    proof {
        let t = target_milli_rps as int;
        let c = cap_milli as int;
        let g = ngen as int;
        vstd::arithmetic::div_mod::lemma_fundamental_div_mod(t + c - 1, c);
        vstd::arithmetic::div_mod::lemma_mod_division_less_than_divisor(t + c - 1, c);
        vstd::arithmetic::div_mod::lemma_div_pos_is_pos(t + c - 1, c);
        if ngen_raw == 0 {
            assert(t == 0) by {
                if t >= 1 {
                    vstd::arithmetic::div_mod::lemma_div_is_ordered(c, t + c - 1, c);
                    vstd::arithmetic::div_mod::lemma_div_by_self(c);
                }
            }
        }
        vstd::arithmetic::div_mod::lemma_fundamental_div_mod(t, g);
        vstd::arithmetic::div_mod::lemma_mod_division_less_than_divisor(t, g);
        vstd::arithmetic::div_mod::lemma_div_pos_is_pos(t, g);
        vstd::arithmetic::mul::lemma_mul_is_distributive_add(g, per as int, 1);
        vstd::arithmetic::mul::lemma_mul_is_commutative(g, per as int);
        // Each generator stays below its ceiling: t <= g * c, so t / g <= c.
        vstd::arithmetic::mul::lemma_mul_is_commutative(g, c);
        vstd::arithmetic::div_mod::lemma_div_is_ordered(t, g * c, g);
        vstd::arithmetic::div_mod::lemma_div_multiples_vanish(c, g);
    }
    (ngen, per)
}

} // verus!
