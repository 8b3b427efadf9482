use crate::account::Account;
use crate::accrual::lemma_yield_nonnegative;
use crate::vault::{ids_owned_by, payout_of, VaultError, VaultState, VaultStatus};
use vstd::prelude::*;

verus! {

/// Ids are handed out in sequence: an accepted deposit gets the number of
/// vaults created before it (so 0 on a fresh contract), and the next
/// accepted deposit gets the id after it. A deposit with a positive amount
/// and an allowed lock is accepted once the contract is initialized, unless
/// the lock's end ledger or the id cannot be represented.
pub proof fn lemma_deposit_ids_sequential(
    s: VaultState,
    from1: Account,
    amount1: i128,
    days1: u64,
    now1: u32,
    from2: Account,
    amount2: i128,
    days2: u64,
    now2: u32,
)
    requires
        s.wf(),
    ensures
        ({
            let (s1, r1) = s.deposit(from1, amount1, days1, now1);
            let (s2, r2) = s1.deposit(from2, amount2, days2, now2);
            &&& r1 is Ok ==> r1->Ok_0.0 == s.vaults.len()
            &&& r1 is Ok && s.vaults.len() == 0 ==> r1->Ok_0.0 == 0
            &&& r1 is Ok && r2 is Ok ==> r2->Ok_0.0 == r1->Ok_0.0 + 1
            &&& s.deposit_error(amount1, days1, now1) is None <==> r1 is Ok
        }),
{
}

/// A call that changes a vault contract other than a withdrawal.
pub enum VaultCall {
    Initialize(Account, Account, u128),
    Deposit(Account, i128, u64, u32),
    SetApyRate(Account, u128),
}

/// The state after `call`, accepted or refused.
pub open spec fn after_call(s: VaultState, call: VaultCall) -> VaultState {
    match call {
        VaultCall::Initialize(admin, token, rate) => s.initialize(admin, token, rate).0,
        VaultCall::Deposit(from, amount, days, now) => s.deposit(from, amount, days, now).0,
        VaultCall::SetApyRate(caller, rate) => s.set_apy_rate(caller, rate).0,
    }
}

/// The state after `calls`, made one after another.
pub open spec fn after_calls(s: VaultState, calls: Seq<VaultCall>) -> VaultState
    decreases calls.len(),
{
    if calls.len() == 0 {
        s
    } else {
        after_calls(after_call(s, calls[0]), calls.drop_first())
    }
}

/// The ids returned by the accepted deposits among `deposits` (each a
/// depositor, an amount, a lock in days and a ledger), made one after
/// another from `s`.
pub open spec fn accepted_ids(s: VaultState, deposits: Seq<(Account, i128, u64, u32)>) -> Seq<u64>
    decreases deposits.len(),
{
    if deposits.len() == 0 {
        Seq::empty()
    } else {
        let d = deposits[0];
        let (s1, r) = s.deposit(d.0, d.1, d.2, d.3);
        let rest = accepted_ids(s1, deposits.drop_first());
        match r {
            Ok(x) => seq![x.0] + rest,
            Err(_) => rest,
        }
    }
}

/// Over any run of deposits, the accepted ones get consecutive ids, the
/// first the number of vaults before the run: 0, 1, 2, ... on a fresh
/// contract.
pub proof fn lemma_accepted_ids_consecutive(s: VaultState, deposits: Seq<(Account, i128, u64, u32)>)
    ensures
        forall|k: int|
            0 <= k < accepted_ids(s, deposits).len() ==> accepted_ids(s, deposits)[k] == s.vaults.len()
                + k,
    decreases deposits.len(),
{
    if deposits.len() > 0 {
        let d = deposits[0];
        let (s1, r) = s.deposit(d.0, d.1, d.2, d.3);
        let rest = accepted_ids(s1, deposits.drop_first());
        lemma_accepted_ids_consecutive(s1, deposits.drop_first());
        match r {
            Ok(x) => {
                assert(s1.vaults.len() == s.vaults.len() + 1);
                assert(x.0 == s.vaults.len());
                let all = seq![x.0] + rest;
                assert(accepted_ids(s, deposits) == all);
                assert forall|k: int| 0 <= k < all.len() implies all[k] == s.vaults.len() + k by {
                    if k > 0 {
                        assert(all[k] == rest[k - 1]);
                    }
                }
            },
            Err(_) => {
                assert(s1 == s);
            },
        }
    }
}

/// Any run of initializations, deposits and rate changes leaves every
/// existing vault as it was: a read of it before the run and one after give
/// the same record, and withdrawing it has the same outcome, at the rate
/// frozen when it was created, whatever rates were set since.
pub proof fn lemma_vault_stable_across_calls(
    s: VaultState,
    calls: Seq<VaultCall>,
    id: u64,
    caller: Account,
    now: u32,
)
    ensures
        s.vault(id) is Ok ==> after_calls(s, calls).vault(id) == s.vault(id),
        s.vault(id) is Ok ==> after_calls(s, calls).withdraw(caller, id, now).1 == s.withdraw(
            caller,
            id,
            now,
        ).1,
    decreases calls.len(),
{
    if calls.len() > 0 && s.vault(id) is Ok {
        let s1 = after_call(s, calls[0]);
        assert(s1.vault(id) == s.vault(id));
        lemma_vault_stable_across_calls(s1, calls.drop_first(), id, caller, now);
        let e = after_calls(s, calls);
        assert(e.vaults[id as int] == s.vaults[id as int]);
        assert(e.withdraw_error(caller, id, now) == s.withdraw_error(caller, id, now));
    }
}

/// A locked vault can be withdrawn by its owner at its end ledger, whose
/// payout fits, and not one ledger earlier.
pub proof fn lemma_maturity_boundary(s: VaultState, id: u64)
    requires
        s.wf(),
        id < s.vaults.len(),
        s.vaults[id as int].status == VaultStatus::Locked,
        payout_of(s.vaults[id as int]) <= i128::MAX,
    ensures
        ({
            let v = s.vaults[id as int];
            &&& s.withdraw(v.owner, id, v.end_ledger).1 is Ok
            &&& s.withdraw(v.owner, id, (v.end_ledger - 1) as u32).1 == Err::<
                crate::account::Transfer,
                VaultError,
            >(VaultError::StillLocked)
        }),
{
    let v = s.vaults[id as int];
    lemma_yield_nonnegative(
        v.amount as int,
        v.apy_rate_at_lock as int,
        v.end_ledger - v.start_ledger,
    );
}

/// After a successful withdrawal, every later withdrawal of the same vault
/// fails with `AlreadyWithdrawn`, whoever asks and whenever, and changes
/// nothing.
pub proof fn lemma_double_withdraw(
    s: VaultState,
    id: u64,
    caller1: Account,
    now1: u32,
    caller2: Account,
    now2: u32,
)
    requires
        s.wf(),
        s.withdraw(caller1, id, now1).1 is Ok,
    ensures
        ({
            let s1 = s.withdraw(caller1, id, now1).0;
            &&& s1.withdraw(caller2, id, now2).0 == s1
            &&& s1.withdraw(caller2, id, now2).1 == Err::<
                crate::account::Transfer,
                VaultError,
            >(VaultError::AlreadyWithdrawn)
        }),
{
}

/// The ids listed for an owner are exactly the ids of the vaults that owner
/// created, in increasing order.
pub proof fn lemma_ids_owned_by_exact(s: VaultState, owner: Account)
    requires
        s.wf(),
    ensures
        forall|id: u64|
            ids_owned_by(s.vaults, owner).contains(id) <==> (id < s.vaults.len()
                && s.vaults[id as int].owner == owner),
        forall|i: int, j: int|
            0 <= i < j < ids_owned_by(s.vaults, owner).len() ==> ids_owned_by(s.vaults, owner)[i]
                < ids_owned_by(s.vaults, owner)[j],
    decreases s.vaults.len(),
{
    if s.vaults.len() > 0 {
        let n = s.vaults.len() - 1;
        let rest = VaultState { config: s.config, vaults: s.vaults.drop_last() };
        assert forall|i: int| 0 <= i < rest.vaults.len() implies rest.vaults[i] == s.vaults[i] by {}
        assert(rest.wf());
        lemma_ids_owned_by_exact(rest, owner);
        lemma_ids_owned_by_bound(rest.vaults, owner);
        let r = ids_owned_by(rest.vaults, owner);
        let last = s.vaults[n];
        assert(last.id == n);
        if last.owner == owner {
            assert(ids_owned_by(s.vaults, owner) == r.push(last.id));
        } else {
            assert(ids_owned_by(s.vaults, owner) == r);
        }
        assert forall|id: u64|
            ids_owned_by(s.vaults, owner).contains(id) <==> (id < s.vaults.len()
                && s.vaults[id as int].owner == owner) by {
            if id < n {
                assert(rest.vaults[id as int] == s.vaults[id as int]);
            }
            if last.owner == owner {
                if r.contains(id) {
                    let k = choose|k: int| 0 <= k < r.len() && r[k] == id;
                    assert(r.push(last.id)[k] == id);
                }
                if id == last.id {
                    assert(r.push(last.id)[r.len() as int] == id);
                }
                if r.push(last.id).contains(id) && id != last.id {
                    let k = choose|k: int| 0 <= k < r.len() + 1 && r.push(last.id)[k] == id;
                    assert(r[k] == id);
                }
            }
        }
    }
}

/// Every id listed for an owner is below the number of vaults.
proof fn lemma_ids_owned_by_bound(vaults: Seq<crate::vault::Vault>, owner: Account)
    requires
        forall|i: int| 0 <= i < vaults.len() ==> (#[trigger] vaults[i]).id == i,
    ensures
        forall|i: int|
            0 <= i < ids_owned_by(vaults, owner).len() ==> ids_owned_by(vaults, owner)[i]
                < vaults.len(),
    decreases vaults.len(),
{
    if vaults.len() > 0 {
        let n = vaults.len() - 1;
        let rest = vaults.drop_last();
        assert forall|i: int| 0 <= i < rest.len() implies (#[trigger] rest[i]).id == i by {
            assert(rest[i] == vaults[i]);
        }
        lemma_ids_owned_by_bound(rest, owner);
        let r = ids_owned_by(rest, owner);
        assert(vaults[n].id == n);
        if vaults[n].owner == owner {
            assert(ids_owned_by(vaults, owner) == r.push(vaults[n].id));
        } else {
            assert(ids_owned_by(vaults, owner) == r);
        }
    }
}

} // verus!
