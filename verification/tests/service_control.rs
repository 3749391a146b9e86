use bundler_core::receipt::{poll_for_receipt, receipt_wait_done};
use bundler_core::service::{
    bundler_service_run, Bundler, BundlerService, NowAction,
};
use bundler_core::types::{Address, ConfigError, Mode, Receipt, TxHash, UserOperation};

fn addr(v: u128) -> Address {
    Address { value: v }
}

fn bundler(ep: u128) -> Bundler {
    Bundler::new(addr(0xA), addr(0xB), addr(ep), 1, 0, false)
}

fn op(sender: u128, nonce: u64) -> UserOperation {
    UserOperation {
        sender: addr(sender),
        nonce,
        init_code: vec![],
        call_data: vec![1, 2, 3],
        max_fee_per_gas: 10,
        max_priority_fee_per_gas: 5,
        signature: vec![],
    }
}

#[test]
fn zero_bundlers_rejected_at_startup() {
    assert_eq!(BundlerService::new(vec![]).err(), Some(ConfigError::ZeroBundlers));
    let r = bundler_service_run(addr(0xA), vec![], 1, addr(0xB), 0, 10, false);
    assert_eq!(r.err(), Some(ConfigError::ZeroBundlers));
}

#[test]
fn startup_builds_one_bundler_per_target_and_starts() {
    let r = bundler_service_run(addr(0xA), vec![addr(1), addr(2)], 5, addr(0xB), 7, 30, true);
    let (service, tasks) = r.ok().expect("two targets must be accepted");
    assert!(service.is_running());
    assert_eq!(service.bundlers.len(), 2);
    assert_eq!(service.bundlers[0].entry_point, addr(1));
    assert_eq!(service.bundlers[1].entry_point, addr(2));
    assert_eq!(service.bundlers[0].chain_id, 5);
    assert_eq!(service.bundlers[0].min_balance, 7);
    assert!(service.bundlers[0].enable_access_list);
    assert_eq!(tasks.len(), 2);
    assert_eq!(tasks[0].interval_secs, 30);
    assert!(service.loop_tick_should_run(&tasks[0]));
    assert!(service.loop_tick_should_run(&tasks[1]));
}

#[test]
fn start_bundling_twice_spawns_no_second_loop_set() {
    let mut service = BundlerService::new(vec![bundler(1), bundler(2)]).unwrap();
    assert!(!service.is_running());
    let first = service.start_bundling(10);
    assert_eq!(first.len(), 2);
    assert!(service.is_running());
    let second = service.start_bundling(10);
    assert_eq!(second.len(), 0);
    assert!(service.is_running());
    // the first loop set is still the live one
    assert!(service.loop_tick_should_run(&first[0]));
}

#[test]
fn stop_then_start_leaves_one_live_loop_set() {
    let mut service = BundlerService::new(vec![bundler(1)]).unwrap();
    let stale = service.start_bundling(10);
    service.stop_bundling();
    assert!(!service.is_running());
    // a stale task observes the stop on its next tick and terminates
    assert!(!service.loop_tick_should_run(&stale[0]));
    let fresh = service.start_bundling(10);
    assert_eq!(fresh.len(), 1);
    // after the grace period only the fresh set keeps ticking
    assert!(!service.loop_tick_should_run(&stale[0]));
    assert!(service.loop_tick_should_run(&fresh[0]));
}

#[test]
fn set_bundler_mode_switches_both_ways() {
    let mut service = BundlerService::new(vec![bundler(1)]).unwrap();
    let spawned = service.set_bundler_mode(Mode::Auto, 15);
    assert_eq!(spawned.len(), 1);
    assert!(service.is_running());
    let none_spawned = service.set_bundler_mode(Mode::Manual, 15);
    assert!(none_spawned.is_empty());
    assert!(!service.is_running());
}

#[test]
fn empty_pools_give_empty_result_not_error() {
    let service = BundlerService::new(vec![bundler(1), bundler(2)]).unwrap();
    let mut outcomes: Vec<Option<TxHash>> = Vec::new();
    for b in &service.bundlers {
        // every bundler reports zero pending operations
        let prepared = b.prepare_bundle(vec![]);
        assert!(prepared.is_none());
        outcomes.push(None);
    }
    assert_eq!(service.send_bundles(&outcomes), None);
}

#[test]
fn first_bundler_outcome_is_reported() {
    let service = BundlerService::new(vec![bundler(1), bundler(2)]).unwrap();
    let h1 = TxHash { value: 0x11 };
    let h2 = TxHash { value: 0x22 };
    let outcomes = vec![Some(h1), Some(h2)];
    assert_eq!(service.send_bundles(&outcomes), Some(h1));
}

#[test]
fn full_report_pairs_every_target_with_its_outcome() {
    let service = BundlerService::new(vec![bundler(1), bundler(2)]).unwrap();
    let h = TxHash { value: 0x33 };
    let outcomes = vec![None, Some(h)];
    let report = service.outcomes_by_target(&outcomes);
    assert_eq!(report, vec![(addr(1), None), (addr(2), Some(h))]);
}

#[test]
fn prepare_bundle_keeps_operations_and_target() {
    let b = bundler(3);
    let uos = vec![op(1, 0), op(2, 0)];
    let bundle = b.prepare_bundle(uos).expect("non-empty list must yield a bundle");
    assert_eq!(bundle.entry_point, addr(3));
    assert_eq!(bundle.beneficiary, addr(0xB));
    assert_eq!(bundle.ops.len(), 2);
    assert_eq!(bundle.ops[0].sender, addr(1));
    assert!(!bundle.with_access_list);
}

#[test]
fn send_bundle_now_returns_empty_without_transaction() {
    let service = BundlerService::new(vec![bundler(1)]).unwrap();
    assert_eq!(service.send_bundle_now_plan(None), NowAction::ReturnEmpty);
    let h = TxHash { value: 9 };
    assert_eq!(service.send_bundle_now_plan(Some(h)), NowAction::AwaitReceipt(h));
}

#[test]
fn bundle_now_waits_until_receipt_is_observed() {
    let rec = Receipt { tx_hash: TxHash { value: 9 }, block_number: 40 };
    // the client answers "no receipt" three times, then the receipt: the
    // wait returns only after the fourth poll
    let polls: Vec<Option<Receipt>> = vec![None, None, None, Some(rec)];
    assert_eq!(poll_for_receipt(&polls), Some(3));
    assert!(!receipt_wait_done(&polls[2]));
    assert!(receipt_wait_done(&polls[3]));
    // a receipt observed at once ends the wait after one poll
    assert_eq!(poll_for_receipt(&vec![Some(rec)]), Some(0));
    // no receipt observed: the wait does not end
    assert_eq!(poll_for_receipt(&vec![None, None]), None);
}
