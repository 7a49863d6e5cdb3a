//! The workload samplers: entity cardinalities and ID draws shaped by
//! empirical histograms.
//!
//! The database-size multiplier is carried as a fixed-point factor in
//! thousandths (`scale_milli`), so a factor of `1.0` is `1000`. Each empirical
//! bin count is multiplied by the factor and rounded to the nearest integer;
//! the sum of the scaled counts of a table is the effective cardinality of the
//! entity the table describes.

use vstd::prelude::*;

verus! {

/// A bin count scaled by a fixed-point factor in thousandths, rounded to the
/// nearest integer.
pub open spec fn scaled_count(n: int, milli: int) -> int {
    (n * milli + 500) / 1000
}

/// The sum of the scaled counts of a histogram table.
pub open spec fn sum_scaled(bins: Seq<(usize, usize)>, milli: int) -> int
    decreases bins.len(),
{
    if bins.len() == 0 {
        0
    } else {
        sum_scaled(bins.drop_last(), milli) + scaled_count(bins.last().1 as int, milli)
    }
}

/// The sum of the raw counts of a histogram table.
pub open spec fn sum_counts(bins: Seq<(usize, usize)>) -> int
    decreases bins.len(),
{
    if bins.len() == 0 {
        0
    } else {
        sum_counts(bins.drop_last()) + bins.last().1
    }
}

/// The width of the sampling interval a histogram sampler builds internally:
/// each bin spans `count * bin_value * 4`, or `count * bin_width` for the
/// zero bin.
pub open spec fn sum_weighted(bins: Seq<(usize, usize)>, width: int) -> int
    decreases bins.len(),
{
    if bins.len() == 0 {
        0
    } else {
        sum_weighted(bins.drop_last(), width) + bins.last().1 * (
        if bins.last().0 == 0 {
            width
        } else {
            4 * bins.last().0
        })
    }
}

proof fn lemma_scaled_count_nonneg(n: int, milli: int)
    requires
        n >= 0,
        milli >= 0,
    ensures
        scaled_count(n, milli) >= 0,
{
    vstd::arithmetic::mul::lemma_mul_nonnegative(n, milli);
    vstd::arithmetic::div_mod::lemma_div_pos_is_pos(n * milli + 500, 1000);
}

/// Scaling by a larger factor never scales a count down.
proof fn lemma_scaled_count_monotonic(n: int, m1: int, m2: int)
    requires
        n >= 0,
        0 <= m1 <= m2,
    ensures
        scaled_count(n, m1) <= scaled_count(n, m2),
{
    vstd::arithmetic::mul::lemma_mul_inequality(m1, m2, n);
    vstd::arithmetic::div_mod::lemma_div_is_ordered(n * m1 + 500, n * m2 + 500, 1000);
}

/// A larger database-size factor never shrinks an entity cardinality.
pub proof fn lemma_sum_scaled_monotonic(bins: Seq<(usize, usize)>, m1: int, m2: int)
    requires
        0 <= m1 <= m2,
    ensures
        sum_scaled(bins, m1) <= sum_scaled(bins, m2),
    decreases bins.len(),
{
    if bins.len() > 0 {
        lemma_sum_scaled_monotonic(bins.drop_last(), m1, m2);
        lemma_scaled_count_monotonic(bins.last().1 as int, m1, m2);
    }
}

proof fn lemma_sum_scaled_nonneg(bins: Seq<(usize, usize)>, milli: int)
    requires
        milli >= 0,
    ensures
        sum_scaled(bins, milli) >= 0,
    decreases bins.len(),
{
    if bins.len() > 0 {
        lemma_sum_scaled_nonneg(bins.drop_last(), milli);
        lemma_scaled_count_nonneg(bins.last().1 as int, milli);
    }
}

proof fn lemma_sum_scaled_take_succ(bins: Seq<(usize, usize)>, milli: int, i: int)
    requires
        0 <= i < bins.len(),
    ensures
        sum_scaled(bins.take(i + 1), milli) == sum_scaled(bins.take(i), milli) + scaled_count(
            bins[i].1 as int,
            milli,
        ),
{
    assert(bins.take(i + 1).drop_last() =~= bins.take(i));
    assert(bins.take(i + 1).last() == bins[i]);
}

proof fn lemma_sum_scaled_prefix_le(bins: Seq<(usize, usize)>, milli: int, i: int)
    requires
        0 <= i <= bins.len(),
        milli >= 0,
    ensures
        sum_scaled(bins.take(i), milli) <= sum_scaled(bins, milli),
    decreases bins.len() - i,
{
    if i == bins.len() {
        assert(bins.take(i) =~= bins);
    } else {
        lemma_sum_scaled_take_succ(bins, milli, i);
        lemma_scaled_count_nonneg(bins[i].1 as int, milli);
        lemma_sum_scaled_prefix_le(bins, milli, i + 1);
    }
}

/// When a table's counts are the scaled counts of another table, bin for bin,
/// its raw sum is the other's scaled sum.
proof fn lemma_sum_counts_of_scaled(raw: Seq<(usize, usize)>, scaled: Seq<(usize, usize)>, m: int)
    requires
        raw.len() == scaled.len(),
        forall|i: int|
            0 <= i < raw.len() ==> scaled[i].0 == raw[i].0 && scaled[i].1 == scaled_count(
                raw[i].1 as int,
                m,
            ),
    ensures
        sum_counts(scaled) == sum_scaled(raw, m),
    decreases raw.len(),
{
    if raw.len() > 0 {
        lemma_sum_counts_of_scaled(raw.drop_last(), scaled.drop_last(), m);
    }
}

/// As `lemma_sum_counts_of_scaled`, for the weighted interval sum.
proof fn lemma_sum_weighted_of_scaled(
    raw: Seq<(usize, usize)>,
    scaled: Seq<(usize, usize)>,
    m: int,
    width: int,
)
    requires
        raw.len() == scaled.len(),
        forall|i: int|
            0 <= i < raw.len() ==> scaled[i].0 == raw[i].0 && scaled[i].1 == scaled_count(
                raw[i].1 as int,
                m,
            ),
    ensures
        sum_weighted(scaled, width) == sum_weighted_scaled(raw, m, width),
    decreases raw.len(),
{
    if raw.len() > 0 {
        lemma_sum_weighted_of_scaled(raw.drop_last(), scaled.drop_last(), m, width);
    }
}

/// The weighted interval sum a histogram sampler would build from a table
/// after scaling its counts.
pub open spec fn sum_weighted_scaled(bins: Seq<(usize, usize)>, milli: int, width: int) -> int
    decreases bins.len(),
{
    if bins.len() == 0 {
        0
    } else {
        sum_weighted_scaled(bins.drop_last(), milli, width) + scaled_count(
            bins.last().1 as int,
            milli,
        ) * (
        if bins.last().0 == 0 {
            width
        } else {
            4 * bins.last().0
        })
    }
}

/// Scale every count of a histogram table by the fixed-point factor, rounding
/// to the nearest integer.
pub fn scale_bins(bins: &Vec<(usize, usize)>, scale_milli: u64) -> (r: Vec<(usize, usize)>)
    requires
        forall|i: int|
            0 <= i < bins@.len() ==> bins@[i].1 * scale_milli + 500 <= usize::MAX,
    ensures
        r@.len() == bins@.len(),
        forall|i: int|
            0 <= i < bins@.len() ==> r@[i].0 == bins@[i].0 && r@[i].1 == scaled_count(
                bins@[i].1 as int,
                scale_milli as int,
            ),
{
    let mut r: Vec<(usize, usize)> = Vec::new();
    let mut i: usize = 0;
    while i < bins.len()
        invariant
            0 <= i <= bins@.len(),
            r@.len() == i,
            forall|j: int|
                0 <= j < bins@.len() ==> bins@[j].1 * scale_milli + 500 <= usize::MAX,
            forall|j: int|
                0 <= j < i ==> r@[j].0 == bins@[j].0 && r@[j].1 == scaled_count(
                    bins@[j].1 as int,
                    scale_milli as int,
                ),
        decreases bins@.len() - i,
    {
        let (bin, n) = bins[i];
        let scaled: u64 = (n as u64 * scale_milli + 500) / 1000;
        r.push((bin, scaled as usize));
        i = i + 1;
    }
    r
}

/// Sum the scaled counts of a table; this is the entity cardinality the table
/// yields at the given database-size factor.
pub fn sum_scaled_counts(bins: &Vec<(usize, usize)>, scale_milli: u64) -> (t: u64)
    requires
        forall|i: int|
            0 <= i < bins@.len() ==> bins@[i].1 * scale_milli + 500 <= usize::MAX,
        sum_scaled(bins@, scale_milli as int) <= u64::MAX,
    ensures
        t == sum_scaled(bins@, scale_milli as int),
{
    let ghost m: int = scale_milli as int;
    let mut t: u64 = 0;
    let mut i: usize = 0;
    proof {
        assert(bins@.take(0) =~= Seq::<(usize, usize)>::empty());
    }
    while i < bins.len()
        invariant
            0 <= i <= bins@.len(),
            m == scale_milli as int,
            forall|j: int| 0 <= j < bins@.len() ==> bins@[j].1 * scale_milli + 500 <= usize::MAX,
            sum_scaled(bins@, m) <= u64::MAX,
            t == sum_scaled(bins@.take(i as int), m),
        decreases bins@.len() - i,
    {
        let (_bin, n) = bins[i];
        let scaled: u64 = (n as u64 * scale_milli + 500) / 1000;
        proof {
            lemma_sum_scaled_take_succ(bins@, m, i as int);
            lemma_sum_scaled_prefix_le(bins@, m, i as int + 1);
            lemma_scaled_count_nonneg(bins@[i as int].1 as int, m);
            lemma_sum_scaled_nonneg(bins@.take(i as int), m);
        }
        t = t + scaled;
        i = i + 1;
    }
    proof {
        assert(bins@.take(bins@.len() as int) =~= bins@);
    }
    t
}

#[verifier::external_type_specification]
#[verifier::external_body]
pub struct ExThreadRng(rand::rngs::ThreadRng);

/// Relies on `rand::thread_rng`: hands out the thread-local generator.
#[verifier::external_body]
pub fn new_rng() -> rand::rngs::ThreadRng {
    rand::thread_rng()
}

/// Relies on `rand::Rng::gen_range` over `0..hi`: a draw uniform in the
/// half-open range, so strictly below `hi`. It panics on an empty range,
/// which the precondition rules out.
#[verifier::external_body]
pub fn rand_below(rng: &mut rand::rngs::ThreadRng, hi: u32) -> (r: u32)
    requires
        hi >= 1,
    ensures
        r < hi,
{
    rand::Rng::gen_range(rng, 0..hi)
}

/// Flip a fair coin.
pub fn rand_coin(rng: &mut rand::rngs::ThreadRng) -> bool {
    rand_below(rng, 2) == 1
}

#[verifier::external_type_specification]
#[verifier::external_body]
pub struct ExHistogramSampler(histogram_sampler::Sampler);

/// The number of distinct values a histogram sampler can produce, i.e. what
/// its `nvalues` reports: the sum of the bin counts it was built from.
pub uninterp spec fn nvalues_of(s: histogram_sampler::Sampler) -> int;

/// That a histogram sampler was built by `from_bins` with a positive bin
/// width, so its internal sampling interval is non-degenerate.
pub uninterp spec fn hs_well_formed(s: histogram_sampler::Sampler) -> bool;

/// Relies on `histogram_sampler::Sampler::from_bins`: the number of distinct
/// values it can later produce is the sum of the bin counts handed to it. The
/// precondition keeps its internal interval arithmetic within `usize`.
#[verifier::external_body]
pub fn hs_from_bins(bins: &Vec<(usize, usize)>, bin_width: usize) -> (s:
    histogram_sampler::Sampler)
    requires
        bin_width >= 1,
        sum_weighted(bins@, bin_width as int) <= usize::MAX,
    ensures
        hs_well_formed(s),
        nvalues_of(s) == sum_counts(bins@),
{
    histogram_sampler::Sampler::from_bins(bins.clone(), bin_width)
}

/// Relies on `histogram_sampler::Sampler::nvalues`: reports the number of
/// distinct values the sampler can produce.
#[verifier::external_body]
pub fn hs_nvalues(s: &histogram_sampler::Sampler) -> (r: usize)
    ensures
        r == nvalues_of(*s),
{
    s.nvalues()
}

/// Relies on `Distribution::sample` for `histogram_sampler::Sampler`: it
/// returns `first_id + (k % count)` for the bin holding ids
/// `first_id..first_id + count`, hence a value strictly below `nvalues`. It
/// panics on an empty sampler, which the precondition rules out.
#[verifier::external_body]
pub fn hs_sample(s: &histogram_sampler::Sampler, rng: &mut rand::rngs::ThreadRng) -> (r: usize)
    requires
        hs_well_formed(*s),
        nvalues_of(*s) >= 1,
    ensures
        r < nvalues_of(*s),
{
    rand::distributions::Distribution::sample(s, rng)
}

/// Typed ID draws over the four empirical tables, with the cardinality of
/// each entity space.
pub trait WorkloadSampler: Sized {
    /// The internal well-formedness the sampling methods need.
    spec fn wf(&self) -> bool;

    /// The number of users, i.e. the user ID space is `0..spec_nusers()`.
    spec fn spec_nusers(&self) -> u32;

    /// The number of stories.
    spec fn spec_nstories(&self) -> u32;

    /// The number of comments.
    spec fn spec_ncomments(&self) -> u32;

    /// Draw a user ID.
    fn user(&self, rng: &mut rand::rngs::ThreadRng) -> (r: u32)
        requires
            self.wf(),
            self.spec_nusers() >= 1,
        ensures
            r < self.spec_nusers(),
    ;

    /// The number of users.
    fn nusers(&self) -> (r: u32)
        requires
            self.wf(),
        ensures
            r == self.spec_nusers(),
    ;

    /// Draw a comment ID to vote on.
    fn comment_for_vote(&self, rng: &mut rand::rngs::ThreadRng) -> (r: u32)
        requires
            self.wf(),
            self.spec_ncomments() >= 1,
        ensures
            r < self.spec_ncomments(),
    ;

    /// Draw a story ID to vote on.
    fn story_for_vote(&self, rng: &mut rand::rngs::ThreadRng) -> (r: u32)
        requires
            self.wf(),
            self.spec_nstories() >= 1,
        ensures
            r < self.spec_nstories(),
    ;

    /// The number of stories.
    fn nstories(&self) -> (r: u32)
        requires
            self.wf(),
        ensures
            r == self.spec_nstories(),
    ;

    /// Draw a story ID to comment on.
    fn story_for_comment(&self, rng: &mut rand::rngs::ThreadRng) -> (r: u32)
        requires
            self.wf(),
            self.spec_nstories() >= 1,
        ensures
            r < self.spec_nstories(),
    ;

    /// The number of comments.
    fn ncomments(&self) -> (r: u32)
        requires
            self.wf(),
        ensures
            r == self.spec_ncomments(),
    ;
}

/// A sampler that draws every ID uniformly; the entity cardinalities still
/// come from the scaled empirical tables.
pub struct UniformSampler {
    pub users: u32,
    pub stories: u32,
    pub comments: u32,
}

impl UniformSampler {
    /// Build a uniform sampler whose cardinalities are the scaled sums of the
    /// three vote tables.
    pub fn new(
        scale_milli: u64,
        votes_per_user: &Vec<(usize, usize)>,
        votes_per_story: &Vec<(usize, usize)>,
        votes_per_comment: &Vec<(usize, usize)>,
    ) -> (s: UniformSampler)
        requires
            forall|i: int|
                0 <= i < votes_per_user@.len() ==> votes_per_user@[i].1 * scale_milli + 500
                    <= usize::MAX,
            forall|i: int|
                0 <= i < votes_per_story@.len() ==> votes_per_story@[i].1 * scale_milli + 500
                    <= usize::MAX,
            forall|i: int|
                0 <= i < votes_per_comment@.len() ==> votes_per_comment@[i].1 * scale_milli + 500
                    <= usize::MAX,
            sum_scaled(votes_per_user@, scale_milli as int) <= u32::MAX,
            sum_scaled(votes_per_story@, scale_milli as int) <= u32::MAX,
            sum_scaled(votes_per_comment@, scale_milli as int) <= u32::MAX,
        ensures
            s.users == sum_scaled(votes_per_user@, scale_milli as int),
            s.stories == sum_scaled(votes_per_story@, scale_milli as int),
            s.comments == sum_scaled(votes_per_comment@, scale_milli as int),
            s.wf(),
    {
        let users = sum_scaled_counts(votes_per_user, scale_milli) as u32;
        let stories = sum_scaled_counts(votes_per_story, scale_milli) as u32;
        let comments = sum_scaled_counts(votes_per_comment, scale_milli) as u32;
        UniformSampler { users, stories, comments }
    }
}

impl WorkloadSampler for UniformSampler {
    open spec fn wf(&self) -> bool {
        true
    }

    open spec fn spec_nusers(&self) -> u32 {
        self.users
    }

    open spec fn spec_nstories(&self) -> u32 {
        self.stories
    }

    open spec fn spec_ncomments(&self) -> u32 {
        self.comments
    }

    fn user(&self, rng: &mut rand::rngs::ThreadRng) -> (r: u32) {
        rand_below(rng, self.users)
    }

    fn nusers(&self) -> (r: u32) {
        self.users
    }

    fn comment_for_vote(&self, rng: &mut rand::rngs::ThreadRng) -> (r: u32) {
        rand_below(rng, self.comments)
    }

    fn story_for_vote(&self, rng: &mut rand::rngs::ThreadRng) -> (r: u32) {
        rand_below(rng, self.stories)
    }

    fn nstories(&self) -> (r: u32) {
        self.stories
    }

    fn story_for_comment(&self, rng: &mut rand::rngs::ThreadRng) -> (r: u32) {
        rand_below(rng, self.stories)
    }

    fn ncomments(&self) -> (r: u32) {
        self.comments
    }
}

/// The width hint for the votes-per-user table.
pub const USER_BIN_WIDTH: usize = 100;

/// The width hint for the story and comment tables.
pub const NARROW_BIN_WIDTH: usize = 10;

/// A sampler that draws IDs from the empirical histograms themselves: users
/// by votes-per-user, stories by votes-per-story, comments to vote on by
/// votes-per-comment, and stories to comment on by comments-per-story.
pub struct LobstersSampler {
    pub votes_per_user: histogram_sampler::Sampler,
    pub votes_per_story: histogram_sampler::Sampler,
    pub votes_per_comment: histogram_sampler::Sampler,
    pub comments_per_story: histogram_sampler::Sampler,
}

impl LobstersSampler {
    /// Build the four histogram samplers from the raw tables, scaling each
    /// count by the database-size factor first.
    pub fn new(
        scale_milli: u64,
        votes_per_user: &Vec<(usize, usize)>,
        votes_per_story: &Vec<(usize, usize)>,
        votes_per_comment: &Vec<(usize, usize)>,
        comments_per_story: &Vec<(usize, usize)>,
    ) -> (s: LobstersSampler)
        requires
            forall|i: int|
                0 <= i < votes_per_user@.len() ==> votes_per_user@[i].1 * scale_milli + 500
                    <= usize::MAX,
            forall|i: int|
                0 <= i < votes_per_story@.len() ==> votes_per_story@[i].1 * scale_milli + 500
                    <= usize::MAX,
            forall|i: int|
                0 <= i < votes_per_comment@.len() ==> votes_per_comment@[i].1 * scale_milli + 500
                    <= usize::MAX,
            forall|i: int|
                0 <= i < comments_per_story@.len() ==> comments_per_story@[i].1 * scale_milli + 500
                    <= usize::MAX,
            sum_weighted_scaled(votes_per_user@, scale_milli as int, USER_BIN_WIDTH as int)
                <= usize::MAX,
            sum_weighted_scaled(votes_per_story@, scale_milli as int, NARROW_BIN_WIDTH as int)
                <= usize::MAX,
            sum_weighted_scaled(votes_per_comment@, scale_milli as int, NARROW_BIN_WIDTH as int)
                <= usize::MAX,
            sum_weighted_scaled(comments_per_story@, scale_milli as int, NARROW_BIN_WIDTH as int)
                <= usize::MAX,
            sum_scaled(votes_per_user@, scale_milli as int) <= u32::MAX,
            sum_scaled(votes_per_story@, scale_milli as int) <= u32::MAX,
            sum_scaled(votes_per_comment@, scale_milli as int) <= u32::MAX,
            sum_scaled(comments_per_story@, scale_milli as int) <= u32::MAX,
        ensures
            s.wf(),
            s.spec_nusers() == sum_scaled(votes_per_user@, scale_milli as int),
            s.spec_nstories() == sum_scaled(votes_per_story@, scale_milli as int),
            s.spec_ncomments() == sum_scaled(votes_per_comment@, scale_milli as int),
    {
        let vpu = scale_bins(votes_per_user, scale_milli);
        let vps = scale_bins(votes_per_story, scale_milli);
        let vpc = scale_bins(votes_per_comment, scale_milli);
        let cps = scale_bins(comments_per_story, scale_milli);
        proof {
            let m = scale_milli as int;
            lemma_sum_counts_of_scaled(votes_per_user@, vpu@, m);
            lemma_sum_counts_of_scaled(votes_per_story@, vps@, m);
            lemma_sum_counts_of_scaled(votes_per_comment@, vpc@, m);
            lemma_sum_counts_of_scaled(comments_per_story@, cps@, m);
            lemma_sum_weighted_of_scaled(votes_per_user@, vpu@, m, USER_BIN_WIDTH as int);
            lemma_sum_weighted_of_scaled(votes_per_story@, vps@, m, NARROW_BIN_WIDTH as int);
            lemma_sum_weighted_of_scaled(votes_per_comment@, vpc@, m, NARROW_BIN_WIDTH as int);
            lemma_sum_weighted_of_scaled(comments_per_story@, cps@, m, NARROW_BIN_WIDTH as int);
            lemma_sum_scaled_nonneg(votes_per_user@, m);
            lemma_sum_scaled_nonneg(votes_per_story@, m);
            lemma_sum_scaled_nonneg(votes_per_comment@, m);
            lemma_sum_scaled_nonneg(comments_per_story@, m);
        }
        LobstersSampler {
            votes_per_user: hs_from_bins(&vpu, USER_BIN_WIDTH),
            votes_per_story: hs_from_bins(&vps, NARROW_BIN_WIDTH),
            votes_per_comment: hs_from_bins(&vpc, NARROW_BIN_WIDTH),
            comments_per_story: hs_from_bins(&cps, NARROW_BIN_WIDTH),
        }
    }
}

impl WorkloadSampler for LobstersSampler {
    open spec fn wf(&self) -> bool {
        &&& hs_well_formed(self.votes_per_user)
        &&& hs_well_formed(self.votes_per_story)
        &&& hs_well_formed(self.votes_per_comment)
        &&& hs_well_formed(self.comments_per_story)
        &&& 0 <= nvalues_of(self.votes_per_user) <= u32::MAX
        &&& 0 <= nvalues_of(self.votes_per_story) <= u32::MAX
        &&& 0 <= nvalues_of(self.votes_per_comment) <= u32::MAX
        &&& 0 <= nvalues_of(self.comments_per_story) <= u32::MAX
    }

    open spec fn spec_nusers(&self) -> u32 {
        nvalues_of(self.votes_per_user) as u32
    }

    open spec fn spec_nstories(&self) -> u32 {
        nvalues_of(self.votes_per_story) as u32
    }

    open spec fn spec_ncomments(&self) -> u32 {
        nvalues_of(self.votes_per_comment) as u32
    }

    fn user(&self, rng: &mut rand::rngs::ThreadRng) -> (r: u32) {
        hs_sample(&self.votes_per_user, rng) as u32
    }

    fn nusers(&self) -> (r: u32) {
        hs_nvalues(&self.votes_per_user) as u32
    }

    fn comment_for_vote(&self, rng: &mut rand::rngs::ThreadRng) -> (r: u32) {
        hs_sample(&self.votes_per_comment, rng) as u32
    }

    fn story_for_vote(&self, rng: &mut rand::rngs::ThreadRng) -> (r: u32) {
        hs_sample(&self.votes_per_story, rng) as u32
    }

    fn nstories(&self) -> (r: u32) {
        hs_nvalues(&self.votes_per_story) as u32
    }

    fn story_for_comment(&self, rng: &mut rand::rngs::ThreadRng) -> (r: u32) {
        // The comments-per-story table counts the same story population as
        // the votes-per-story table, but rounding under scaling can leave the
        // two sums apart: clamp a draw past the last story, and fall back to
        // a uniform draw when the table knows no story at all.
        let ns = self.nstories();
        if hs_nvalues(&self.comments_per_story) >= 1 {
            let s = hs_sample(&self.comments_per_story, rng) as u32;
            if s < ns {
                s
            } else {
                ns - 1
            }
        } else {
            rand_below(rng, ns)
        }
    }

    fn ncomments(&self) -> (r: u32) {
        hs_nvalues(&self.votes_per_comment) as u32
    }
}

} // verus!
