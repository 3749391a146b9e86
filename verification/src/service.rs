//! The bundler service: per-target bundlers, the scheduler state machine
//! with its running flag and loop-task epochs, and the control surface.

use vstd::prelude::*;

use crate::types::{Address, ConfigError, Mode, TxHash, UserOperation};

verus! {

/// Per-target bundler: immutable configuration used to assemble and submit
/// one bundle transaction at a time.
#[derive(Clone, Debug)]
pub struct Bundler {
    pub signer: Address,
    pub beneficiary: Address,
    pub entry_point: Address,
    pub chain_id: u64,
    pub min_balance: u128,
    pub enable_access_list: bool,
}

/// A bundle transaction assembled for one target contract, ready for
/// signing and submission.
#[derive(Clone, Debug)]
pub struct Bundle {
    pub entry_point: Address,
    pub beneficiary: Address,
    pub chain_id: u64,
    pub with_access_list: bool,
    pub ops: Vec<UserOperation>,
}

impl Bundler {
    /// A bundler for the target contract `entry_point`.
    pub fn new(
        signer: Address,
        beneficiary: Address,
        entry_point: Address,
        chain_id: u64,
        min_balance: u128,
        enable_access_list: bool,
    ) -> (r: Bundler)
        ensures
            r == (Bundler {
                signer,
                beneficiary,
                entry_point,
                chain_id,
                min_balance,
                enable_access_list,
            }),
    {
        Bundler { signer, beneficiary, entry_point, chain_id, min_balance, enable_access_list }
    }

    /// Assemble a bundle from already-validated operations.  An empty list
    /// yields `None`: an explicit no-op signal, distinct from failure.
    pub fn prepare_bundle(&self, uos: Vec<UserOperation>) -> (r: Option<Bundle>)
        ensures
            uos@.len() == 0 ==> r is None,
            uos@.len() > 0 ==> (r matches Some(b) && b.entry_point == self.entry_point
                && b.beneficiary == self.beneficiary && b.chain_id == self.chain_id
                && b.with_access_list == self.enable_access_list && b.ops@ == uos@),
    {
        if uos.len() == 0 {
            None
        } else {
            Some(Bundle {
                entry_point: self.entry_point,
                beneficiary: self.beneficiary,
                chain_id: self.chain_id,
                with_access_list: self.enable_access_list,
                ops: uos,
            })
        }
    }
}

/// Description of one periodic loop task the caller is to spawn: which
/// bundler it serves, the scheduler epoch it belongs to, and its tick
/// interval in seconds.
#[derive(Clone, Copy, PartialEq, Eq, Structural, Debug)]
pub struct LoopTask {
    pub bundler_index: usize,
    pub epoch: u64,
    pub interval_secs: u64,
}

/// The bundling scheduler: owns the bundlers, the shared running flag and
/// the epoch that ties each spawned loop task to the start that spawned it.
#[derive(Debug)]
pub struct BundlerService {
    pub bundlers: Vec<Bundler>,
    pub running: bool,
    pub epoch: u64,
}

/// A loop task keeps ticking exactly while the scheduler runs and the task
/// belongs to the current epoch; a stale or stopped task terminates at its
/// next tick.
pub open spec fn task_live(s: BundlerService, t: LoopTask) -> bool {
    s.running && t.epoch == s.epoch
}

/// The loop tasks a start spawns: one per bundler, in bundler order, all in
/// the given epoch.
pub open spec fn spawn_set(n: nat, epoch: u64, interval_secs: u64) -> Seq<LoopTask> {
    Seq::new(n, |i: int| LoopTask { bundler_index: i as usize, epoch, interval_secs })
}

/// Scheduler state after `start_bundling`: unchanged when already running,
/// otherwise running in a fresh epoch.
pub open spec fn start_post(s: BundlerService) -> BundlerService {
    if s.running {
        s
    } else {
        BundlerService { bundlers: s.bundlers, running: true, epoch: (s.epoch + 1) as u64 }
    }
}

/// Loop tasks `start_bundling` asks the caller to spawn: none when already
/// running, else one per bundler in the fresh epoch.
pub open spec fn start_spawn(s: BundlerService, interval_secs: u64) -> Seq<LoopTask> {
    if s.running {
        Seq::empty()
    } else {
        spawn_set(s.bundlers@.len(), (s.epoch + 1) as u64, interval_secs)
    }
}

/// Scheduler state after `stop_bundling`: stopped, all else unchanged.
pub open spec fn stop_post(s: BundlerService) -> BundlerService {
    BundlerService { bundlers: s.bundlers, running: false, epoch: s.epoch }
}

impl BundlerService {
    /// At least one bundler is configured.
    pub open spec fn wf(self) -> bool {
        self.bundlers@.len() >= 1
    }

    /// A stopped scheduler over the given bundlers.  A configuration with
    /// zero bundlers is a fatal startup error and is rejected here, before
    /// any service operation runs.
    pub fn new(bundlers: Vec<Bundler>) -> (r: Result<BundlerService, ConfigError>)
        ensures
            r is Ok <==> bundlers@.len() > 0,
            r matches Err(e) ==> e == ConfigError::ZeroBundlers,
            r matches Ok(s) ==> s.bundlers@ == bundlers@ && !s.running && s.epoch == 0 && s.wf(),
    {
        if bundlers.len() == 0 {
            Err(ConfigError::ZeroBundlers)
        } else {
            Ok(BundlerService { bundlers, running: false, epoch: 0 })
        }
    }

    /// Read the shared running flag.
    pub fn is_running(&self) -> (r: bool)
        ensures
            r == self.running,
    {
        self.running
    }

    /// Stop auto bundling: every loop task, stale or current, terminates at
    /// its next tick (a bounded grace period, not immediate effect).
    pub fn stop_bundling(&mut self)
        ensures
            *final(self) == stop_post(*old(self)),
    {
        self.running = false;
    }

    /// Start auto bundling and return the loop tasks to spawn, one per
    /// bundler.  A no-op when already running: no state change and no task
    /// to spawn, so a duplicate start never duplicates the loops.
    pub fn start_bundling(&mut self, interval_secs: u64) -> (tasks: Vec<LoopTask>)
        requires
            old(self).epoch < u64::MAX,
        ensures
            *final(self) == start_post(*old(self)),
            tasks@ == start_spawn(*old(self), interval_secs),
    {
        if self.running {
            let tasks: Vec<LoopTask> = Vec::new();
            proof {
                assert(tasks@ =~= start_spawn(*old(self), interval_secs));
            }
            return tasks;
        }
        self.running = true;
        self.epoch = self.epoch + 1;
        let epoch = self.epoch;
        let n = self.bundlers.len();
        let mut tasks: Vec<LoopTask> = Vec::new();
        let mut i: usize = 0;
        while i < n
            invariant
                i <= n,
                tasks@ =~= spawn_set(i as nat, epoch, interval_secs),
            decreases n - i,
        {
            tasks.push(LoopTask { bundler_index: i, epoch, interval_secs });
            i = i + 1;
            proof {
                assert(tasks@ =~= spawn_set(i as nat, epoch, interval_secs));
            }
        }
        proof {
            assert(tasks@ =~= start_spawn(*old(self), interval_secs));
        }
        tasks
    }

    /// Per-tick decision of a loop task: whether this tick may fetch and
    /// send, or the task must terminate.
    pub fn loop_tick_should_run(&self, task: &LoopTask) -> (r: bool)
        ensures
            r == task_live(*self, *task),
    {
        self.running && task.epoch == self.epoch
    }

    /// Control-surface mode switch: `Manual` stops auto bundling, `Auto`
    /// starts it with the given interval.  Always succeeds; the returned
    /// tasks are the loops the caller is to spawn.
    pub fn set_bundler_mode(&mut self, mode: Mode, interval_secs: u64) -> (tasks: Vec<LoopTask>)
        requires
            mode is Auto ==> old(self).epoch < u64::MAX,
        ensures
            mode is Manual ==> *final(self) == stop_post(*old(self)) && tasks@.len() == 0,
            mode is Auto ==> *final(self) == start_post(*old(self)) && tasks@ == start_spawn(
                *old(self),
                interval_secs,
            ),
    {
        match mode {
            Mode::Manual => {
                self.stop_bundling();
                Vec::new()
            },
            Mode::Auto => self.start_bundling(interval_secs),
        }
    }

    /// Combine the per-bundler submission outcomes gathered in configured
    /// order into the single result the control surface reports: the first
    /// bundler's outcome, the others discarded (a known limitation of this
    /// single-result call).
    pub fn send_bundles(&self, outcomes: &Vec<Option<TxHash>>) -> (r: Option<TxHash>)
        requires
            self.wf(),
            outcomes@.len() == self.bundlers@.len(),
        ensures
            r == outcomes@[0],
    {
        outcomes[0]
    }

    /// The per-bundler outcomes paired with their target contracts, in
    /// configured order: the full report that the single-result
    /// `send_bundles` call discards beyond its first entry.
    pub fn outcomes_by_target(&self, outcomes: &Vec<Option<TxHash>>) -> (r: Vec<
        (Address, Option<TxHash>),
    >)
        requires
            outcomes@.len() == self.bundlers@.len(),
        ensures
            r@.len() == self.bundlers@.len(),
            forall|i: int|
                0 <= i < r@.len() ==> #[trigger] r@[i] == (
                self.bundlers@[i].entry_point,
                outcomes@[i],
                ),
    {
        let mut r: Vec<(Address, Option<TxHash>)> = Vec::new();
        let mut i: usize = 0;
        while i < self.bundlers.len()
            invariant
                i <= self.bundlers@.len(),
                outcomes@.len() == self.bundlers@.len(),
                r@.len() == i,
                forall|j: int|
                    0 <= j < i ==> #[trigger] r@[j] == (
                    self.bundlers@[j].entry_point,
                    outcomes@[j],
                    ),
            decreases self.bundlers@.len() - i,
        {
            r.push((self.bundlers[i].entry_point, outcomes[i]));
            i = i + 1;
        }
        r
    }

    /// Decision of the synchronous "bundle now" path once the bundles went
    /// out: with no transaction produced return empty at once, otherwise
    /// await the receipt of the produced transaction.
    pub fn send_bundle_now_plan(&self, sent: Option<TxHash>) -> (r: NowAction)
        ensures
            sent is None ==> r is ReturnEmpty,
            sent matches Some(h) ==> r == NowAction::AwaitReceipt(h),
    {
        match sent {
            None => NowAction::ReturnEmpty,
            Some(h) => NowAction::AwaitReceipt(h),
        }
    }
}

/// What the synchronous "bundle now" path does after submission.
#[derive(Clone, Copy, PartialEq, Eq, Structural, Debug)]
pub enum NowAction {
    ReturnEmpty,
    AwaitReceipt(TxHash),
}

/// Build the service from startup configuration and start auto bundling at
/// the default interval: one bundler per target contract, all sharing the
/// signing credential, beneficiary, chain and balance gate.  Returns the
/// started service and the loop tasks to spawn, or the fatal configuration
/// error when no target contract is given.
pub fn bundler_service_run(
    signer: Address,
    eps: Vec<Address>,
    chain_id: u64,
    beneficiary: Address,
    min_balance: u128,
    bundle_interval: u64,
    enable_access_list: bool,
) -> (r: Result<(BundlerService, Vec<LoopTask>), ConfigError>)
    ensures
        eps@.len() == 0 <==> r is Err,
        r matches Err(e) ==> e == ConfigError::ZeroBundlers,
        r matches Ok(p) ==> {
            &&& p.0.wf()
            &&& p.0.bundlers@.len() == eps@.len()
            &&& forall|i: int|
                0 <= i < eps@.len() ==> p.0.bundlers@[i] == (Bundler {
                    signer,
                    beneficiary,
                    entry_point: eps@[i],
                    chain_id,
                    min_balance,
                    enable_access_list,
                })
            &&& p.0.running
            &&& p.0.epoch == 1
            &&& p.1@ == spawn_set(eps@.len(), 1, bundle_interval)
        },
{
    let mut bundlers: Vec<Bundler> = Vec::new();
    let mut i: usize = 0;
    while i < eps.len()
        invariant
            i <= eps@.len(),
            bundlers@.len() == i,
            forall|j: int|
                0 <= j < i ==> bundlers@[j] == (Bundler {
                    signer,
                    beneficiary,
                    entry_point: eps@[j],
                    chain_id,
                    min_balance,
                    enable_access_list,
                }),
        decreases eps@.len() - i,
    {
        let b = Bundler::new(
            signer,
            beneficiary,
            eps[i],
            chain_id,
            min_balance,
            enable_access_list,
        );
        bundlers.push(b);
        i = i + 1;
    }
    let mut service = match BundlerService::new(bundlers) {
        Ok(s) => s,
        Err(e) => {
            return Err(e);
        },
    };
    let tasks = service.start_bundling(bundle_interval);
    Ok((service, tasks))
}

/// Starting the scheduler is idempotent: the first start leaves it running,
/// and a second start while it runs changes nothing and spawns no further
/// loop task, whatever interval it asks for.
pub proof fn lemma_start_bundling_idempotent(s: BundlerService, interval_secs: u64)
    requires
        s.epoch < u64::MAX,
    ensures
        start_post(s).running,
        start_post(start_post(s)) == start_post(s),
        start_spawn(start_post(s), interval_secs).len() == 0,
{
}

/// Stop followed immediately by start leaves exactly one live loop set:
/// every task spawned before the stop is stale afterwards and terminates at
/// its next tick, while the fresh start spawns exactly one live task per
/// bundler.
pub proof fn lemma_stop_start_single_loop_set(
    s: BundlerService,
    stale: Seq<LoopTask>,
    interval_secs: u64,
)
    requires
        s.epoch < u64::MAX,
        forall|i: int| 0 <= i < stale.len() ==> #[trigger] stale[i].epoch <= s.epoch,
    ensures
        ({
            let fresh = start_spawn(stop_post(s), interval_secs);
            let after = start_post(stop_post(s));
            &&& !stop_post(s).running
            &&& forall|i: int| 0 <= i < stale.len() ==> !task_live(after, #[trigger] stale[i])
            &&& fresh.len() == s.bundlers@.len()
            &&& forall|i: int|
                0 <= i < fresh.len() ==> task_live(after, #[trigger] fresh[i])
                    && fresh[i].bundler_index == i
        }),
{
    let fresh = start_spawn(stop_post(s), interval_secs);
    let after = start_post(stop_post(s));
    vstd::std_specs::vec::axiom_spec_len(&s.bundlers);
    assert forall|i: int| 0 <= i < stale.len() implies !task_live(after, #[trigger] stale[i]) by {
        assert(stale[i].epoch <= s.epoch);
        assert(after.epoch == s.epoch + 1);
    }
    assert forall|i: int| 0 <= i < fresh.len() implies task_live(after, #[trigger] fresh[i])
        && fresh[i].bundler_index == i by {
        assert(fresh[i] == (LoopTask {
            bundler_index: i as usize,
            epoch: (s.epoch + 1) as u64,
            interval_secs,
        }));
    }
}

/// With every bundler reporting zero pending operations no bundle is
/// produced, and the collected outcomes make `send_bundles` report an empty
/// result rather than an error.
pub proof fn lemma_empty_pools_empty_result(
    s: BundlerService,
    pools: Seq<Seq<UserOperation>>,
    outcomes: Seq<Option<TxHash>>,
)
    requires
        s.wf(),
        pools.len() == s.bundlers@.len(),
        outcomes.len() == s.bundlers@.len(),
        forall|i: int| 0 <= i < pools.len() ==> #[trigger] pools[i].len() == 0,
        // the driver submits only produced bundles: an empty pool leaves
        // its outcome empty
        forall|i: int|
            0 <= i < outcomes.len() ==> pools[i].len() == 0 ==> #[trigger] outcomes[i] is None,
    ensures
        outcomes[0] is None,
{
    assert(pools[0].len() == 0);
}

} // verus!
