use hello_bench::config::Config;
use hello_bench::orchestrator::{run_benchmark, run_workers};
use hello_bench::report::{global_report, total_requests, Report};
use hello_bench::request::RequestOption;
use hello_bench::tally::{fold_tallies, Tally};

#[test]
fn two_connections_five_messages_each() {
    // connections=2, concurrency=1, messages=5, remote always succeeds:
    // total=10, successes=10, failures=0.
    let config = Config {
        connections: 2,
        concurrency: 1,
        messages: 5,
        request: RequestOption::Empty,
        port: 50051,
    };
    let outcomes = vec![vec![true; 5], vec![true; 5]];
    let r: Report = run_benchmark(&config, &outcomes, 12);
    assert_eq!(r.total, 10);
    assert_eq!(r.ok, 10);
    assert_eq!(r.fail, 0);
    assert_eq!(r.elapsed_ms, 12);
}

#[test]
fn report_total_is_connections_times_messages() {
    let config = Config {
        connections: 3,
        concurrency: 2,
        messages: 4,
        request: RequestOption::Something,
        port: 50051,
    };
    let outcomes = vec![
        vec![true, false, true, true],
        vec![false, false, false, false],
        vec![true, true, true, true],
    ];
    let r = run_benchmark(&config, &outcomes, 7);
    assert_eq!(r.total, 12);
    assert_eq!(r.ok + r.fail, 12);
    assert_eq!(r.ok, 7);
    assert_eq!(r.fail, 5);
}

#[test]
fn workers_return_one_complete_tally_each() {
    let outcomes = vec![vec![true, true, false], vec![false, true, true]];
    let tallies = run_workers(2, 3, &outcomes);
    assert_eq!(tallies.len(), 2);
    for t in &tallies {
        assert_eq!(t.ok + t.fail, 3);
    }
    assert_eq!(tallies[0].ok, 2);
    assert_eq!(tallies[0].fail, 1);
    assert_eq!(tallies[1].ok, 2);
    assert_eq!(tallies[1].fail, 1);
}

#[test]
fn folding_tallies_in_any_order_gives_the_same_sum() {
    let a = Tally { ok: 3, fail: 1 };
    let b = Tally { ok: 0, fail: 4 };
    let c = Tally { ok: 2, fail: 2 };
    let one_order = fold_tallies(&vec![a, b, c]);
    let another = fold_tallies(&vec![c, a, b]);
    let third = fold_tallies(&vec![b, c, a]);
    assert_eq!(one_order, another);
    assert_eq!(another, third);
    assert_eq!(one_order.ok, 5);
    assert_eq!(one_order.fail, 7);
}

#[test]
fn pairwise_add_is_commutative_and_associative() {
    let a = Tally { ok: 1, fail: 2 };
    let b = Tally { ok: 3, fail: 4 };
    let c = Tally { ok: 5, fail: 6 };
    assert_eq!(a.add(&b), b.add(&a));
    assert_eq!(a.add(&b).add(&c), a.add(&b.add(&c)));
}

#[test]
fn empty_tally_list_folds_to_zero() {
    let folded = fold_tallies(&Vec::new());
    assert_eq!(folded.ok, 0);
    assert_eq!(folded.fail, 0);
}

#[test]
fn global_report_carries_elapsed_time_and_split() {
    let tallies = vec![Tally { ok: 4, fail: 1 }, Tally { ok: 5, fail: 0 }];
    let r = global_report(250, 2, 5, &tallies);
    assert_eq!(r.elapsed_ms, 250);
    assert_eq!(r.total, 10);
    assert_eq!(r.ok, 9);
    assert_eq!(r.fail, 1);
}

#[test]
fn total_requests_multiplies_exactly() {
    assert_eq!(total_requests(3, 10000), Some(30000));
    assert_eq!(total_requests(1, 1), Some(1));
}

#[test]
fn total_requests_reports_overflow() {
    assert_eq!(total_requests(usize::MAX, 2), None);
}
