use trawler::sampler::LobstersSampler;
use trawler::sampler::UniformSampler;
use trawler::sampler::WorkloadSampler;
use trawler::sampler::new_rng;
use trawler::sampler::rand_below;
use trawler::sampler::scale_bins;
use trawler::sampler::sum_scaled_counts;

fn user_table() -> Vec<(usize, usize)> {
    // 100 users in all.
    vec![(0, 60), (10, 30), (20, 10)]
}

fn story_table() -> Vec<(usize, usize)> {
    // 50 stories in all.
    vec![(0, 30), (10, 15), (20, 5)]
}

fn comment_table() -> Vec<(usize, usize)> {
    // 200 comments in all.
    vec![(0, 150), (10, 40), (20, 10)]
}

fn comments_per_story_table() -> Vec<(usize, usize)> {
    // 50 stories in all, keyed by how many comments each has.
    vec![(0, 40), (10, 10)]
}

#[test]
fn scale_bins_rounds_to_nearest() {
    // 3 * 1.5 = 4.5 rounds up to 5; 3 * 1.1 = 3.3 rounds down to 3.
    let bins = vec![(10usize, 3usize)];
    assert_eq!(scale_bins(&bins, 1500), vec![(10, 5)]);
    assert_eq!(scale_bins(&bins, 1100), vec![(10, 3)]);
    assert_eq!(scale_bins(&bins, 1000), vec![(10, 3)]);
}

#[test]
fn sum_scaled_counts_is_exact() {
    assert_eq!(sum_scaled_counts(&user_table(), 1000), 100);
    assert_eq!(sum_scaled_counts(&story_table(), 1000), 50);
    assert_eq!(sum_scaled_counts(&comment_table(), 1000), 200);
    // Doubling the factor doubles every count here (no rounding effects).
    assert_eq!(sum_scaled_counts(&user_table(), 2000), 200);
}

#[test]
fn uniform_sampler_cardinalities() {
    let s = UniformSampler::new(1000, &user_table(), &story_table(), &comment_table());
    assert_eq!(s.nusers(), 100);
    assert_eq!(s.nstories(), 50);
    assert_eq!(s.ncomments(), 200);
}

#[test]
fn uniform_sampler_draws_in_range() {
    let s = UniformSampler::new(1000, &user_table(), &story_table(), &comment_table());
    let mut rng = new_rng();
    for _ in 0..500 {
        assert!(s.user(&mut rng) < s.nusers());
        assert!(s.story_for_vote(&mut rng) < s.nstories());
        assert!(s.story_for_comment(&mut rng) < s.nstories());
        assert!(s.comment_for_vote(&mut rng) < s.ncomments());
    }
}

#[test]
fn scaling_is_monotonic() {
    let small = UniformSampler::new(500, &user_table(), &story_table(), &comment_table());
    let large = UniformSampler::new(2000, &user_table(), &story_table(), &comment_table());
    assert!(small.nusers() <= large.nusers());
    assert!(small.nstories() <= large.nstories());
    assert!(small.ncomments() <= large.ncomments());
}

#[test]
fn lobsters_sampler_cardinalities() {
    let s = LobstersSampler::new(
        1000,
        &user_table(),
        &story_table(),
        &comment_table(),
        &comments_per_story_table(),
    );
    assert_eq!(s.nusers(), 100);
    assert_eq!(s.nstories(), 50);
    assert_eq!(s.ncomments(), 200);
}

#[test]
fn lobsters_sampler_draws_in_range() {
    let s = LobstersSampler::new(
        1000,
        &user_table(),
        &story_table(),
        &comment_table(),
        &comments_per_story_table(),
    );
    let mut rng = new_rng();
    for _ in 0..500 {
        assert!(s.user(&mut rng) < s.nusers());
        assert!(s.story_for_vote(&mut rng) < s.nstories());
        assert!(s.story_for_comment(&mut rng) < s.nstories());
        assert!(s.comment_for_vote(&mut rng) < s.ncomments());
    }
}

#[test]
fn lobsters_sampler_scaled_up() {
    let s = LobstersSampler::new(
        2000,
        &user_table(),
        &story_table(),
        &comment_table(),
        &comments_per_story_table(),
    );
    assert_eq!(s.nusers(), 200);
    assert_eq!(s.nstories(), 100);
    assert_eq!(s.ncomments(), 400);
}

#[test]
fn rand_below_stays_below() {
    let mut rng = new_rng();
    for hi in [1u32, 2, 7, 100] {
        for _ in 0..200 {
            assert!(rand_below(&mut rng, hi) < hi);
        }
    }
}

#[test]
fn story_for_comment_clamps_oversized_table() {
    // The comments-per-story table claims more stories than votes-per-story
    // does; draws past the last story are clamped into range.
    let s = LobstersSampler::new(
        1000,
        &user_table(),
        &story_table(),
        &comment_table(),
        &vec![(0, 200), (10, 60)],
    );
    assert_eq!(s.nstories(), 50);
    let mut rng = new_rng();
    for _ in 0..500 {
        assert!(s.story_for_comment(&mut rng) < 50);
    }
}
