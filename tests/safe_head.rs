use opfp::config::BlockId;
use opfp::rollup_node::SafeHeadResponse;
use opfp::safe_head::{SafeHeadSearch, SearchAction};

fn response(l1: u64, safe: u64) -> SafeHeadResponse {
    SafeHeadResponse {
        l1_block: BlockId { hash: [l1 as u8; 32], number: l1 },
        safe_head: BlockId { hash: [safe as u8; 32], number: safe },
    }
}

#[test]
fn stalled_endpoint_gives_up_after_ten_probes() {
    let origin = 1000;
    let mut search = SafeHeadSearch::new(origin, 500);
    let mut probes = Vec::new();
    let mut action = search.advance();
    while let SearchAction::Probe(n) = action {
        probes.push(n);
        action = search.observe(&response(n, 499));
    }
    assert_eq!(action, SearchAction::Exhausted);
    let expected: Vec<u64> = (1..=10).map(|k| origin + 32 * k).collect();
    assert_eq!(probes, expected);
    assert_eq!(search.probes, 10);
}

#[test]
fn search_stops_when_safe_head_reaches_target() {
    let mut search = SafeHeadSearch::new(100, 50);
    assert_eq!(search.advance(), SearchAction::Probe(132));
    assert_eq!(search.observe(&response(132, 40)), SearchAction::Probe(164));
    let found = response(164, 50);
    assert_eq!(search.observe(&found), SearchAction::Found(found));
    assert_eq!(search.probes, 2);
}

#[test]
fn search_with_chosen_step_and_bound() {
    let mut search = SafeHeadSearch::with_step(0, 10, 5, 2);
    assert_eq!(search.advance(), SearchAction::Probe(5));
    assert_eq!(search.observe(&response(5, 0)), SearchAction::Probe(10));
    assert_eq!(search.observe(&response(10, 9)), SearchAction::Exhausted);
}

#[test]
fn search_gives_up_when_block_numbers_run_out() {
    let mut search = SafeHeadSearch::new(u64::MAX - 40, 7);
    assert_eq!(search.advance(), SearchAction::Probe(u64::MAX - 8));
    assert_eq!(search.observe(&response(0, 0)), SearchAction::Exhausted);
}
