//! Admission-time sanity pipeline: the sender/replacement rule and the
//! fail-fast executor that runs registered rules in a fixed order.

use vstd::prelude::*;

use crate::types::{Address, SanityError, UserOperation};

verus! {

/// Minimum percentage by which both fee fields must rise before a pending
/// operation with the same sender and nonce may be replaced.
pub const GAS_INCREASE_PERC: u64 = 10;

/// Read-only snapshot of the pending operations the mempool holds, in the
/// mempool's own order.
#[derive(Debug)]
pub struct MempoolView {
    pub ops: Vec<UserOperation>,
}

/// Read-only snapshot of the reputation state: a score per address.  Rules
/// that throttle abusive addresses read it; the sender rule does not.
#[derive(Debug)]
pub struct ReputationView {
    pub scores: Vec<(Address, u64)>,
}

/// How many pending operations of `ops` come from `sender`.
pub open spec fn count_by_sender(ops: Seq<UserOperation>, sender: Address) -> nat
    decreases ops.len(),
{
    if ops.len() == 0 {
        0
    } else {
        count_by_sender(ops.drop_last(), sender) + if ops.last().sender == sender {
            1nat
        } else {
            0nat
        }
    }
}

/// The first pending operation of `ops` from `sender` with nonce `nonce`,
/// in pool order: the operation a new one would replace.
pub open spec fn first_replacement(
    ops: Seq<UserOperation>,
    sender: Address,
    nonce: u64,
) -> Option<UserOperation>
    decreases ops.len(),
{
    if ops.len() == 0 {
        None
    } else if ops.first().sender == sender && ops.first().nonce == nonce {
        Some(ops.first())
    } else {
        first_replacement(ops.drop_first(), sender, nonce)
    }
}

/// The sender/deployment gate: exactly one of "bytecode present at the
/// sender" and "init code present" must hold.
pub open spec fn sender_gate_ok(code_present: bool, init_code_present: bool) -> bool {
    code_present != init_code_present
}

/// Exact replacement-fee condition: `new_fee >= prev_fee * (1 + perc/100)`,
/// stated over the integers as `100 * new_fee >= prev_fee * (100 + perc)`.
pub open spec fn fee_sufficient(new_fee: u64, prev_fee: u64, perc: u64) -> bool {
    100 * new_fee >= prev_fee * (100 + perc)
}

/// Both fee fields of `new_op` rise by at least `perc` percent over `prev_op`.
pub open spec fn fees_ok(new_op: UserOperation, prev_op: UserOperation, perc: u64) -> bool {
    &&& fee_sufficient(new_op.max_fee_per_gas, prev_op.max_fee_per_gas, perc)
    &&& fee_sufficient(
        new_op.max_priority_fee_per_gas,
        prev_op.max_priority_fee_per_gas,
        perc,
    )
}

/// Whether the sender check admits `uo`, given whether bytecode is present
/// at the sender and the mempool's pending operations.
pub open spec fn sender_check_passes(
    uo: UserOperation,
    code_present: bool,
    ops: Seq<UserOperation>,
) -> bool {
    &&& sender_gate_ok(code_present, uo.init_code@.len() > 0)
    &&& (count_by_sender(ops, uo.sender) == 0 || match first_replacement(
        ops,
        uo.sender,
        uo.nonce,
    ) {
        None => true,
        Some(prev) => fees_ok(uo, prev, GAS_INCREASE_PERC),
    })
}

impl MempoolView {
    /// Number of pending operations from `sender`.
    pub fn get_number_by_sender(&self, sender: Address) -> (n: usize)
        ensures
            n == count_by_sender(self.ops@, sender),
    {
        let mut n: usize = 0;
        let mut i: usize = 0;
        while i < self.ops.len()
            invariant
                i <= self.ops@.len(),
                n <= i,
                n == count_by_sender(self.ops@.take(i as int), sender),
            decreases self.ops@.len() - i,
        {
            proof {
                assert(self.ops@.take(i + 1).drop_last() =~= self.ops@.take(i as int));
                assert(self.ops@.take(i + 1).last() == self.ops@[i as int]);
            }
            if self.ops[i].sender == sender {
                n = n + 1;
            }
            i = i + 1;
        }
        proof {
            assert(self.ops@.take(self.ops@.len() as int) =~= self.ops@);
        }
        n
    }

    /// Index of the first pending operation from `sender` with nonce
    /// `nonce`, if one exists.
    pub fn find_replacement(&self, sender: Address, nonce: u64) -> (r: Option<usize>)
        ensures
            match r {
                Some(i) => i < self.ops@.len() && first_replacement(self.ops@, sender, nonce)
                    == Some(self.ops@[i as int]),
                None => first_replacement(self.ops@, sender, nonce) is None,
            },
    {
        proof {
            assert(self.ops@.skip(0) =~= self.ops@);
        }
        let mut i: usize = 0;
        while i < self.ops.len()
            invariant
                i <= self.ops@.len(),
                first_replacement(self.ops@, sender, nonce) == first_replacement(
                    self.ops@.skip(i as int),
                    sender,
                    nonce,
                ),
            decreases self.ops@.len() - i,
        {
            proof {
                assert(self.ops@.skip(i as int).first() == self.ops@[i as int]);
                assert(self.ops@.skip(i as int).drop_first() =~= self.ops@.skip(i + 1));
            }
            if self.ops[i].sender == sender && self.ops[i].nonce == nonce {
                return Some(i);
            }
            i = i + 1;
        }
        None
    }
}

/// Whether `new_fee` suffices to replace an operation that offered
/// `prev_fee`, at the configured minimum increase.
pub fn replacement_fee_sufficient(new_fee: u64, prev_fee: u64) -> (r: bool)
    ensures
        r == fee_sufficient(new_fee, prev_fee, GAS_INCREASE_PERC),
{
    let factor: u128 = 100 + (GAS_INCREASE_PERC as u128);
    assert(factor == 110);
    (new_fee as u128) * 100 >= (prev_fee as u128) * factor
}

/// The sender sanity rule.
#[derive(Clone, Copy, Debug)]
pub struct Sender;

impl Sender {
    /// Check the sender of `uo`: the sender/deployment gate, the
    /// first-operation fast path, and the replacement-fee rule.
    ///
    /// `code` is the outcome of the bytecode query at the operation's
    /// sender; a failed query surfaces as a `Provider` error carrying its
    /// diagnostic text, distinguishable from semantic `Sender` failures.
    pub fn check_user_operation(
        &self,
        uo: &UserOperation,
        mempool: &MempoolView,
        _reputation: &ReputationView,
        code: &Result<Vec<u8>, String>,
    ) -> (r: Result<(), SanityError>)
        ensures
            code matches Err(e) ==> (r matches Err(SanityError::Provider { inner }) && inner@
                == e@),
            code matches Ok(c) ==> {
                &&& r is Ok <==> sender_check_passes(*uo, c@.len() > 0, mempool.ops@)
                &&& r matches Err(err) ==> err is Sender
            },
    {
        let code_bytes = match code {
            Ok(b) => b,
            Err(e) => {
                return Err(SanityError::Provider { inner: e.clone() });
            },
        };

        // check if sender or init code
        let code_present = code_bytes.len() > 0;
        let init_code_present = uo.init_code.len() > 0;
        if code_present == init_code_present {
            return Err(SanityError::Sender {
                inner: "sender is an existing contract, or the init code is not empty (but not both)".to_owned(),
            });
        }

        // check if prev user operation exists
        if mempool.get_number_by_sender(uo.sender) == 0 {
            return Ok(());
        }

        match mempool.find_replacement(uo.sender, uo.nonce) {
            None => Ok(()),
            Some(i) => {
                let prev = &mempool.ops[i];
                if replacement_fee_sufficient(uo.max_fee_per_gas, prev.max_fee_per_gas)
                    && replacement_fee_sufficient(
                    uo.max_priority_fee_per_gas,
                    prev.max_priority_fee_per_gas,
                ) {
                    Ok(())
                } else {
                    Err(SanityError::Sender {
                        inner: "couldn't replace user operation (gas increase too low)".to_owned(),
                    })
                }
            },
        }
    }
}

/// A registered sanity rule; new rules add a variant and a `rule_passes`
/// arm without touching the executor.
#[derive(Clone, Copy, Debug)]
pub enum SanityRule {
    SenderRule(Sender),
}

/// Whether one rule admits `uo` under an answered bytecode query.
pub open spec fn rule_passes(
    rule: SanityRule,
    uo: UserOperation,
    code_present: bool,
    ops: Seq<UserOperation>,
) -> bool {
    match rule {
        SanityRule::SenderRule(_) => sender_check_passes(uo, code_present, ops),
    }
}

/// Fail-fast pipeline executor: runs the registered rules in order and
/// returns the first error; it never aggregates several failures.
pub fn run_sanity_checks(
    rules: &Vec<SanityRule>,
    uo: &UserOperation,
    mempool: &MempoolView,
    reputation: &ReputationView,
    code: &Result<Vec<u8>, String>,
) -> (r: Result<(), SanityError>)
    ensures
        code matches Ok(c) ==> {
            &&& r is Ok <==> (forall|k: int|
                0 <= k < rules@.len() ==> rule_passes(rules@[k], *uo, c@.len() > 0, mempool.ops@))
            &&& r is Err ==> exists|k: int|
                {
                    &&& 0 <= k < rules@.len()
                    &&& !rule_passes(rules@[k], *uo, c@.len() > 0, mempool.ops@)
                    &&& forall|j: int|
                        0 <= j < k ==> rule_passes(rules@[j], *uo, c@.len() > 0, mempool.ops@)
                }
            &&& r matches Err(err) ==> err is Sender
        },
        code is Err && rules@.len() > 0 ==> (r matches Err(err) && err is Provider),
        code is Err && rules@.len() == 0 ==> r is Ok,
{
    let mut k: usize = 0;
    while k < rules.len()
        invariant
            k <= rules@.len(),
            code is Err ==> k == 0,
            code matches Ok(c) ==> forall|j: int|
                0 <= j < k ==> rule_passes(rules@[j], *uo, c@.len() > 0, mempool.ops@),
        decreases rules@.len() - k,
    {
        let outcome = match &rules[k] {
            SanityRule::SenderRule(rule) => rule.check_user_operation(
                uo,
                mempool,
                reputation,
                code,
            ),
        };
        if let Err(e) = outcome {
            return Err(e);
        }
        k = k + 1;
    }
    Ok(())
}

/// A pool with zero pending operations from `sender` holds none at any
/// position.
pub proof fn lemma_count_zero_no_sender_op(ops: Seq<UserOperation>, sender: Address)
    requires
        count_by_sender(ops, sender) == 0,
    ensures
        forall|i: int| 0 <= i < ops.len() ==> ops[i].sender != sender,
    decreases ops.len(),
{
    if ops.len() > 0 {
        lemma_count_zero_no_sender_op(ops.drop_last(), sender);
        assert forall|i: int| 0 <= i < ops.len() implies ops[i].sender != sender by {
            if i < ops.len() - 1 {
                assert(ops.drop_last()[i] == ops[i]);
            }
        }
    }
}

/// The pending replacement, when one exists, is an operation of the pool
/// with the sought sender and nonce.
pub proof fn lemma_replacement_in_pool(ops: Seq<UserOperation>, sender: Address, nonce: u64)
    requires
        first_replacement(ops, sender, nonce) is Some,
    ensures
        ({
            let p = first_replacement(ops, sender, nonce)->Some_0;
            exists|i: int| 0 <= i < ops.len() && ops[i] == p && p.sender == sender && p.nonce
                == nonce
        }),
    decreases ops.len(),
{
    let p = first_replacement(ops, sender, nonce)->Some_0;
    if ops.first().sender == sender && ops.first().nonce == nonce {
        assert(ops[0] == p);
    } else {
        lemma_replacement_in_pool(ops.drop_first(), sender, nonce);
        let i = choose|i: int|
            0 <= i < ops.drop_first().len() && ops.drop_first()[i] == p && p.sender == sender
                && p.nonce == nonce;
        assert(ops[i + 1] == p);
    }
}

/// For every combination of bytecode presence and init-code presence, the
/// sender check of a first operation passes iff exactly one of the two is
/// present.
pub proof fn lemma_sender_check_gate(uo: UserOperation, code_present: bool, ops: Seq<UserOperation>)
    requires
        count_by_sender(ops, uo.sender) == 0,
    ensures
        sender_check_passes(uo, code_present, ops) <==> sender_gate_ok(
            code_present,
            uo.init_code@.len() > 0,
        ),
{
}

/// First-operation fast path: with zero prior pending operations from the
/// sender, the check passes whatever the fee fields hold.
pub proof fn lemma_first_operation_fast_path(
    uo: UserOperation,
    code_present: bool,
    ops: Seq<UserOperation>,
)
    requires
        count_by_sender(ops, uo.sender) == 0,
        sender_gate_ok(code_present, uo.init_code@.len() > 0),
    ensures
        sender_check_passes(uo, code_present, ops),
{
}

/// Replacement rule: against a pending operation `prev` sharing its sender
/// and nonce, the check passes iff both fee fields rise by at least the
/// configured minimum fraction.
pub proof fn lemma_replacement_rule(
    uo: UserOperation,
    prev: UserOperation,
    code_present: bool,
    ops: Seq<UserOperation>,
)
    requires
        sender_gate_ok(code_present, uo.init_code@.len() > 0),
        first_replacement(ops, uo.sender, uo.nonce) == Some(prev),
    ensures
        sender_check_passes(uo, code_present, ops) <==> fees_ok(uo, prev, GAS_INCREASE_PERC),
{
    if count_by_sender(ops, uo.sender) == 0 {
        lemma_count_zero_no_sender_op(ops, uo.sender);
        lemma_replacement_in_pool(ops, uo.sender, uo.nonce);
    }
}

} // verus!
