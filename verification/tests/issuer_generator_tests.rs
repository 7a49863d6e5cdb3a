use trawler::generator::GeneratorState;
use trawler::generator::Pacing;
use trawler::generator::generation_done;
use trawler::generator::next_request;
use trawler::generator::pick_kind;
use trawler::generator::steady_comment_parent;
use trawler::generator::total_weight;
use trawler::issuer::IssuerState;
use trawler::issuer::hist_len;
use trawler::request::LobstersRequest;
use trawler::request::NUM_REQUEST_KINDS;
use trawler::request::RequestKind;
use trawler::sampler::UniformSampler;
use trawler::sampler::new_rng;

fn sampler_100_50_200() -> UniformSampler {
    UniformSampler::new(
        1000,
        &vec![(0, 60), (10, 30), (20, 10)],
        &vec![(0, 30), (10, 15), (20, 5)],
        &vec![(0, 150), (10, 40), (20, 10)],
    )
}

#[test]
fn request_kinds_are_distinct() {
    let all = LobstersRequest::all();
    assert_eq!(all.len(), NUM_REQUEST_KINDS);
    for (i, k) in all.iter().enumerate() {
        assert_eq!(k.index(), i);
    }
}

#[test]
fn request_kind_tags() {
    assert_eq!(LobstersRequest::Frontpage.kind(), RequestKind::Frontpage);
    assert_eq!(LobstersRequest::Story(3).kind(), RequestKind::Story);
    assert_eq!(LobstersRequest::Login(1).kind(), RequestKind::Login);
    assert_eq!(LobstersRequest::Logout(1).kind(), RequestKind::Logout);
    assert_eq!(
        LobstersRequest::Submit { id: 1, user: 2, title: String::new() }.kind(),
        RequestKind::Submit
    );
}

#[test]
fn in_flight_never_exceeds_cap() {
    // One issuer, a cap of four, a client that never completes: of 100
    // offered requests exactly four are dispatched, 96 stay queued.
    let mut st = IssuerState::new(4, 1_000, 1_000);
    let mut queued = 0u32;
    for _ in 0..100 {
        if st.can_accept() {
            st.dispatch();
        } else {
            queued += 1;
        }
        assert!(st.outstanding <= st.cap);
    }
    assert_eq!(st.outstanding, 4);
    assert_eq!(st.accepted, 4);
    assert_eq!(queued, 96);
}

#[test]
fn completion_reopens_the_window() {
    let mut st = IssuerState::new(2, 1_000, 1_000);
    st.dispatch();
    st.dispatch();
    assert!(!st.can_accept());
    st.complete(RequestKind::Frontpage, 0, 10);
    assert!(st.can_accept());
    assert_eq!(st.outstanding, 1);
    assert_eq!(st.completed, 1);
}

#[test]
fn phase_split_routes_histograms() {
    let mut st = IssuerState::new(4, 1_000, 1_000);
    st.on_start(10_000);
    // Enqueued during warmup (before start + warmup = 11_000).
    st.dispatch();
    st.complete(RequestKind::Story, 10_500, 10_600);
    // Enqueued before the start clock: still warmup.
    st.dispatch();
    st.complete(RequestKind::Story, 9_000, 10_700);
    // Enqueued in the measurement window.
    st.dispatch();
    st.complete(RequestKind::Story, 11_500, 11_900);
    let idx = RequestKind::Story.index();
    assert_eq!(hist_len(&st.warmup_hists[idx]), 2);
    assert_eq!(hist_len(&st.measurement_hists[idx]), 1);
    // No other kind's slot was touched.
    let other = RequestKind::Frontpage.index();
    assert_eq!(hist_len(&st.warmup_hists[other]), 0);
    assert_eq!(hist_len(&st.measurement_hists[other]), 0);
}

#[test]
fn accept_loop_shuts_down_after_window() {
    let mut st = IssuerState::new(4, 1_000, 1_000);
    st.on_start(10_000);
    assert!(st.should_issue(11_999));
    assert!(!st.should_issue(12_000));
    assert!(!st.should_issue(50_000));
}

#[test]
fn pacing_interval_is_period_of_rate() {
    // 1000 requests per second is one per millisecond.
    let mut p = Pacing::new(5, 1_000_000);
    assert_eq!(p.interval_ns, 1_000_000);
    assert_eq!(p.next_ns, 5);
    assert!(p.due(5));
    assert!(!p.due(4));
    p.advance();
    assert_eq!(p.next_ns, 1_000_005);
}

#[test]
fn generation_stops_after_grace() {
    assert!(!generation_done(3_999, 1_000, 1_000, 1_000, 1_000));
    assert!(generation_done(4_000, 1_000, 1_000, 1_000, 1_000));
}

#[test]
fn pick_kind_lands_on_positive_weight() {
    let mut rng = new_rng();
    let only_frontpage = vec![1, 0, 0, 0, 0, 0, 0, 0];
    let only_comment = vec![0, 0, 0, 0, 0, 0, 0, 9];
    for _ in 0..50 {
        assert_eq!(pick_kind(&only_frontpage, &mut rng), 0);
        assert_eq!(pick_kind(&only_comment, &mut rng), 7);
    }
    let mixed = vec![10, 10, 1, 1, 5, 5, 2, 2];
    assert_eq!(total_weight(&mixed), 36);
    for _ in 0..200 {
        let k = pick_kind(&mixed, &mut rng);
        assert!(k < 8);
        assert!(mixed[k] > 0);
    }
}

#[test]
fn steady_parent_is_primed_comment_of_story() {
    let mut rng = new_rng();
    let mut saw_parent = false;
    for story in 0..50u32 {
        for _ in 0..8 {
            if let Some(p) = steady_comment_parent(story, 50, 200, &mut rng) {
                assert!(p < 200);
                assert_eq!(p % 50, story);
                saw_parent = true;
            }
        }
    }
    assert!(saw_parent);
}

#[test]
fn submit_ids_are_fresh_and_sequential() {
    let s = sampler_100_50_200();
    let mut st = GeneratorState::new();
    let mut rng = new_rng();
    let only_submit = vec![0, 0, 0, 0, 0, 0, 1, 0];
    for i in 0..5u32 {
        let (user, req) = next_request(&s, &mut st, &only_submit, &mut rng);
        assert!(user.unwrap() < 100);
        match req {
            LobstersRequest::Submit { id, user: author, title } => {
                assert_eq!(id, 50 + i);
                assert!(author < 100);
                assert_eq!(title, format!("Base article {}", id));
            }
            other => panic!("expected a submit, got {:?}", other),
        }
    }
    assert_eq!(st.emitted, 5);
    assert_eq!(st.new_stories, 5);
}

#[test]
fn steady_comments_are_fresh_with_valid_parents() {
    let s = sampler_100_50_200();
    let mut st = GeneratorState::new();
    let mut rng = new_rng();
    let only_comment = vec![0, 0, 0, 0, 0, 0, 0, 1];
    for i in 0..20u32 {
        let (_user, req) = next_request(&s, &mut st, &only_comment, &mut rng);
        match req {
            LobstersRequest::Comment { id, user: author, story, parent } => {
                assert_eq!(id, 200 + i);
                assert!(author < 100);
                assert!(story < 50);
                if let Some(p) = parent {
                    assert!(p < 200);
                    assert_eq!(p % 50, story);
                }
            }
            other => panic!("expected a comment, got {:?}", other),
        }
    }
    assert_eq!(st.emitted, 20);
    assert_eq!(st.new_comments, 20);
}

#[test]
fn emitted_counts_every_request() {
    let s = sampler_100_50_200();
    let mut st = GeneratorState::new();
    let mut rng = new_rng();
    let mixed = vec![10, 10, 1, 1, 5, 5, 2, 2];
    for _ in 0..100 {
        let _ = next_request(&s, &mut st, &mixed, &mut rng);
    }
    assert_eq!(st.emitted, 100);
}

#[test]
fn recorded_sojourn_is_the_enqueue_to_completion_gap() {
    let mut st = IssuerState::new(4, 1_000_000, 1_000_000);
    st.dispatch();
    // Sojourn of 700 ns, enqueued during warmup.
    st.complete(RequestKind::Frontpage, 300, 1_000);
    let idx = RequestKind::Frontpage.index();
    assert_eq!(hist_len(&st.warmup_hists[idx]), 1);
    assert_eq!(st.warmup_hists[idx].max_value(), 700);
}

#[test]
fn emitted_sums_match_channel_sends() {
    // Three generators emit batches; the channel sees exactly the sum.
    let s = sampler_100_50_200();
    let mut rng = new_rng();
    let mixed = vec![10, 10, 1, 1, 5, 5, 2, 2];
    let mut ledger = trawler::command::ChannelLedger::new();
    let mut per_generator: Vec<u64> = Vec::new();
    for batch in [13u64, 7, 21] {
        let mut st = GeneratorState::new();
        for _ in 0..batch {
            let _ = next_request(&s, &mut st, &mixed, &mut rng);
            ledger.on_send();
        }
        per_generator.push(st.emitted);
    }
    assert_eq!(trawler::command::total_emitted(&per_generator), 41);
    assert_eq!(ledger.sent, 41);
}

#[test]
fn zero_weight_kinds_are_never_emitted() {
    let s = sampler_100_50_200();
    let mut st = GeneratorState::new();
    let mut rng = new_rng();
    // No logouts, no comment votes, no comments.
    let weights = vec![10, 10, 3, 0, 5, 0, 2, 0];
    for _ in 0..300 {
        let (user, req) = next_request(&s, &mut st, &weights, &mut rng);
        assert!(weights[req.kind().index()] > 0);
        // The acting user accompanies exactly the kinds that act as one.
        let acts = !matches!(
            req,
            LobstersRequest::Frontpage | LobstersRequest::Story(_)
        );
        assert_eq!(user.is_some(), acts);
    }
}
