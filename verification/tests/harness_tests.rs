use trawler::command::ChannelLedger;
use trawler::command::WorkerCommand;
use trawler::command::total_emitted;
use trawler::harness::ConfigError;
use trawler::harness::Workload;
use trawler::harness::comment_parent;
use trawler::harness::generator_split;
use trawler::harness::priming_commands;
use trawler::harness::start_commands;
use trawler::issuer::IssuerState;
use trawler::request::LobstersRequest;
use trawler::sampler::UniformSampler;
use trawler::sampler::new_rng;

fn sampler_100_50_200() -> UniformSampler {
    UniformSampler::new(
        1000,
        &vec![(0, 60), (10, 30), (20, 10)],
        &vec![(0, 30), (10, 15), (20, 5)],
        &vec![(0, 150), (10, 40), (20, 10)],
    )
}

#[test]
fn priming_plan_shape() {
    // nusers = 100, nstories = 50, ncomments = 200, nthreads = 3:
    // 350 requests and 3 * (2 + ceil(200 / 50)) = 18 barrier commands.
    let s = sampler_100_50_200();
    let mut rng = new_rng();
    let cmds = priming_commands(&s, 3, 7, &mut rng);
    let mut requests = 0usize;
    let mut waits = 0usize;
    let mut starts = 0usize;
    for c in &cmds {
        match c {
            WorkerCommand::Request { .. } => requests += 1,
            WorkerCommand::Wait => waits += 1,
            WorkerCommand::Start => starts += 1,
        }
    }
    assert_eq!(requests, 350);
    assert_eq!(waits, 18);
    assert_eq!(starts, 0);
    assert_eq!(cmds.len(), 368);
}

#[test]
fn priming_plan_contents() {
    let s = sampler_100_50_200();
    let mut rng = new_rng();
    let cmds = priming_commands(&s, 2, 42, &mut rng);
    let mut logins = Vec::new();
    let mut submits = Vec::new();
    let mut comments = 0usize;
    for c in &cmds {
        if let WorkerCommand::Request { enqueued_at, user, req } = c {
            assert_eq!(*enqueued_at, 42);
            let u = user.expect("every priming request names a user");
            assert!(u < 100);
            match req {
                LobstersRequest::Login(lu) => {
                    assert!(*lu < 100);
                    logins.push(*lu);
                }
                LobstersRequest::Submit { id, user: author, title } => {
                    assert!(*id < 50);
                    assert!(*author < 100);
                    assert_eq!(title, &format!("Base article {}", id));
                    submits.push(*id);
                }
                LobstersRequest::Comment { id, user: author, story, parent } => {
                    assert!(*id < 200);
                    assert!(*author < 100);
                    assert_eq!(*story, id % 50);
                    if let Some(p) = parent {
                        // The parent is an earlier comment on the same story.
                        assert_eq!(p % 50, *story);
                        assert!(p < id);
                    }
                    comments += 1;
                }
                other => panic!("unexpected priming request {:?}", other),
            }
        }
    }
    // Every user logs in once, every story is submitted once, in order.
    assert_eq!(logins, (0..100).collect::<Vec<u32>>());
    assert_eq!(submits, (0..50).collect::<Vec<u32>>());
    assert_eq!(comments, 200);
}

#[test]
fn priming_comments_cover_every_id_once() {
    let s = sampler_100_50_200();
    let mut rng = new_rng();
    let cmds = priming_commands(&s, 3, 0, &mut rng);
    let mut comment_ids = Vec::new();
    for c in &cmds {
        if let WorkerCommand::Request { req: LobstersRequest::Comment { id, .. }, .. } = c {
            comment_ids.push(*id);
        }
    }
    assert_eq!(comment_ids, (0..200).collect::<Vec<u32>>());
}

#[test]
fn comment_parent_is_earlier_same_story() {
    let mut rng = new_rng();
    let mut saw_parent = false;
    for id in 0..400u32 {
        for _ in 0..4 {
            if let Some(p) = comment_parent(id, 50, &mut rng) {
                assert_eq!(p % 50, id % 50);
                assert!(p < id);
                saw_parent = true;
            }
        }
    }
    assert!(saw_parent);
}

#[test]
fn start_group_is_all_starts() {
    let cmds = start_commands(4);
    assert_eq!(cmds.len(), 4);
    for c in &cmds {
        assert!(matches!(c, WorkerCommand::Start));
    }
}

#[test]
fn generator_split_respects_capacity() {
    // 250k requests per second over 100k-capable generators: three of them.
    let (ngen, per) = generator_split(250_000_000, 100_000);
    assert_eq!(ngen, 3);
    assert_eq!(per, 83_333_333);
    assert!(ngen * per <= 250_000_000);
    assert!(250_000_000 < ngen * (per + 1));
    assert!(per <= 100_000_000);
}

#[test]
fn generator_split_single() {
    let (ngen, per) = generator_split(40_000_000, 100_000);
    assert_eq!(ngen, 1);
    assert_eq!(per, 40_000_000);
}

#[test]
fn generator_split_zero_target() {
    let (ngen, per) = generator_split(0, 100_000);
    assert_eq!(ngen, 1);
    assert_eq!(per, 0);
}

fn workload(mem: u64, req: u64, threads: usize, warmup: u64, runtime: u64) -> Workload {
    Workload {
        mem_scale_milli: mem,
        req_scale_milli: req,
        threads,
        warmup_ns: warmup,
        runtime_ns: runtime,
    }
}

#[test]
fn workload_validate_accepts_sane_config() {
    assert_eq!(workload(1000, 1000, 4, 1, 2).validate(), Ok(()));
}

#[test]
fn workload_validate_rejects_each_field() {
    assert_eq!(
        workload(0, 1000, 4, 1, 2).validate(),
        Err(ConfigError::ZeroMemScale)
    );
    assert_eq!(
        workload(1000, 0, 4, 1, 2).validate(),
        Err(ConfigError::ZeroReqScale)
    );
    assert_eq!(
        workload(1000, 1000, 0, 1, 2).validate(),
        Err(ConfigError::ZeroThreads)
    );
    assert_eq!(
        workload(1000, 1000, 4, 0, 2).validate(),
        Err(ConfigError::ZeroWarmup)
    );
    assert_eq!(
        workload(1000, 1000, 4, 1, 0).validate(),
        Err(ConfigError::ZeroRuntime)
    );
    assert_eq!(
        workload(1000, 1000, 4, u64::MAX, 1).validate(),
        Err(ConfigError::DurationOverflow)
    );
}

#[test]
fn ledger_accounts_for_drops() {
    let mut l = ChannelLedger::new();
    for _ in 0..5 {
        l.on_send();
    }
    for _ in 0..3 {
        l.on_receive();
    }
    assert_eq!(l.dropped(), 2);
    assert_eq!(l.dropped() + l.received, l.sent);
}

#[test]
fn ledger_clean_shutdown_drains_to_zero() {
    let mut l = ChannelLedger::new();
    for _ in 0..7 {
        l.on_send();
    }
    for _ in 0..7 {
        l.on_receive();
    }
    assert_eq!(l.dropped(), 0);
}

#[test]
fn total_emitted_sums_generators() {
    assert_eq!(total_emitted(&vec![3, 4, 5]), 12);
    assert_eq!(total_emitted(&vec![]), 0);
}

#[test]
fn simulated_run_drains_cleanly() {
    // A single-threaded walk of the whole protocol: every plan command is
    // sent, received and processed; at the end nothing is outstanding and
    // every priming request landed in exactly one histogram slot.
    let s = sampler_100_50_200();
    let mut rng = new_rng();
    let plan = priming_commands(&s, 1, 0, &mut rng);
    let mut ledger = ChannelLedger::new();
    let mut st = IssuerState::new(4, 1_000_000, 1_000_000);
    let mut clock: u64 = 1;
    for cmd in &plan {
        ledger.on_send();
    }
    let mut starts = start_commands(1);
    for _ in &starts {
        ledger.on_send();
    }
    for cmd in plan {
        ledger.on_receive();
        match cmd {
            WorkerCommand::Request { enqueued_at, user: _, req } => {
                assert!(st.should_issue(enqueued_at));
                assert!(st.can_accept());
                let kind = req.kind();
                st.dispatch();
                clock += 10;
                st.complete(kind, enqueued_at, clock);
            }
            WorkerCommand::Wait => assert!(st.drained()),
            WorkerCommand::Start => panic!("no start markers during priming"),
        }
    }
    match starts.pop() {
        Some(WorkerCommand::Start) => st.on_start(clock),
        other => panic!("expected a start marker, got {:?}", other),
    }
    ledger.on_receive();
    assert!(st.drained());
    assert_eq!(st.completed, 350);
    assert_eq!(ledger.dropped(), 0);
    let mut recorded: u64 = 0;
    for h in st.warmup_hists.iter().chain(st.measurement_hists.iter()) {
        recorded += trawler::issuer::hist_len(h);
    }
    assert_eq!(recorded, 350);
}
