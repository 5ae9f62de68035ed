use vstd::prelude::*;
use vstd::arithmetic::div_mod::{
    lemma_div_multiples_vanish, lemma_div_pos_is_pos, lemma_fundamental_div_mod, lemma_mod_bound,
    lemma_multiply_divide_le,
};
use vstd::arithmetic::mul::{
    lemma_mul_is_commutative, lemma_mul_is_distributive_add, lemma_mul_nonnegative,
};
use crate::errors::VaultError;
use crate::exchange::{
    assets_for_withdraw, lemma_withdraw_amount_bounds, shares_for_deposit, spec_deposit,
    spec_withdraw,
};
use crate::ledger::VaultLedger;

verus! {

/// One request against the exchange engine. For a withdrawal,
/// `caller_share_balance` is the redeemer's balance as the host
/// collaborator reported it for that request.
pub enum VaultOp {
    Deposit { amount: u64 },
    Withdraw { shares: u64, caller_share_balance: u64 },
}

/// The ledger after one operation, per the engine's contracts: a
/// successful operation moves to the updated ledger, a failed one
/// leaves the ledger exactly as it was.
pub open spec fn step(pre: VaultLedger, op: VaultOp) -> VaultLedger {
    match op {
        VaultOp::Deposit { amount } => match spec_deposit(pre, amount) {
            Ok(p) => p.0,
            Err(_) => pre,
        },
        VaultOp::Withdraw { shares, caller_share_balance } => match spec_withdraw(
            pre,
            shares,
            caller_share_balance,
        ) {
            Ok(p) => p.0,
            Err(_) => pre,
        },
    }
}

/// The ledger after a whole sequence of operations, first to last.
pub open spec fn run(pre: VaultLedger, ops: Seq<VaultOp>) -> VaultLedger
    decreases ops.len(),
{
    if ops.len() == 0 {
        pre
    } else {
        run(step(pre, ops[0]), ops.subrange(1, ops.len() as int))
    }
}

/// A successful deposit keeps the bootstrap/drain symmetry: it adds a
/// positive amount to each side, so both totals stay positive.
pub proof fn lemma_deposit_preserves_invariant(pre: VaultLedger, amount: u64)
    requires
        pre.wf(),
    ensures
        spec_deposit(pre, amount) matches Ok(p) ==> p.0.wf(),
{
    if pre.total_shares > 0 {
        lemma_mul_nonnegative(amount as int, pre.total_shares as int);
        lemma_div_pos_is_pos(amount * pre.total_shares, pre.total_assets as int);
    }
}

/// A successful withdrawal keeps the bootstrap/drain symmetry: a full
/// redemption drains both totals to zero, a partial one leaves both
/// positive.
pub proof fn lemma_withdraw_preserves_invariant(
    pre: VaultLedger,
    shares: u64,
    caller_share_balance: u64,
)
    requires
        pre.wf(),
    ensures
        spec_withdraw(pre, shares, caller_share_balance) matches Ok(p) ==> p.0.wf(),
{
    if 0 < shares <= pre.total_shares && pre.total_shares > 0 {
        lemma_withdraw_amount_bounds(
            pre.total_assets as int,
            pre.total_shares as int,
            shares as int,
        );
    }
}

/// One operation, successful or failed, keeps the symmetry invariant.
pub proof fn lemma_step_preserves_invariant(pre: VaultLedger, op: VaultOp)
    requires
        pre.wf(),
    ensures
        step(pre, op).wf(),
{
    match op {
        VaultOp::Deposit { amount } => lemma_deposit_preserves_invariant(pre, amount),
        VaultOp::Withdraw { shares, caller_share_balance } => lemma_withdraw_preserves_invariant(
            pre,
            shares,
            caller_share_balance,
        ),
    }
}

/// Invariant preservation: after every operation of any sequence of
/// deposits and withdrawals starting from a well-formed ledger,
/// `total_shares == 0 <==> total_assets == 0` still holds (and both
/// totals are 64-bit naturals, so they never drop below zero).
pub proof fn lemma_invariant_preserved(pre: VaultLedger, ops: Seq<VaultOp>)
    requires
        pre.wf(),
    ensures
        run(pre, ops).wf(),
    decreases ops.len(),
{
    if ops.len() > 0 {
        lemma_step_preserves_invariant(pre, ops[0]);
        lemma_invariant_preserved(step(pre, ops[0]), ops.subrange(1, ops.len() as int));
    }
}

/// Non-dilutive bootstrap: the first deposit into an empty vault mints
/// exactly one share per asset unit and cannot fail.
pub proof fn lemma_non_dilutive_bootstrap(pre: VaultLedger, amount: u64)
    requires
        pre.wf(),
        pre.total_shares == 0,
        !pre.paused,
        0 < amount,
    ensures
        spec_deposit(pre, amount) == Ok::<(VaultLedger, u64), VaultError>(
            (VaultLedger { total_assets: amount, total_shares: amount, ..pre }, amount),
        ),
{
}

/// Proportionality of deposits: whenever a deposit against a funded
/// pool succeeds, the shares minted are exactly the floor-rounded
/// pro-rata quantity `amount * total_shares / total_assets`.
pub proof fn lemma_proportional_deposit(pre: VaultLedger, amount: u64)
    requires
        pre.wf(),
        pre.total_shares > 0,
    ensures
        spec_deposit(pre, amount) matches Ok(p) ==> p.1 == (amount * pre.total_shares) / (
        pre.total_assets as int),
{
    lemma_mul_nonnegative(amount as int, pre.total_shares as int);
    lemma_div_pos_is_pos(amount * pre.total_shares, pre.total_assets as int);
}

/// Proportionality of withdrawals: whenever a withdrawal succeeds, the
/// assets released are exactly the floor-rounded pro-rata quantity
/// `shares * total_assets / total_shares`.
pub proof fn lemma_proportional_withdraw(pre: VaultLedger, shares: u64, caller_share_balance: u64)
    requires
        pre.wf(),
        pre.total_shares > 0,
    ensures
        spec_withdraw(pre, shares, caller_share_balance) matches Ok(p) ==> p.1 == (shares
            * pre.total_assets) / (pre.total_shares as int),
{
    lemma_mul_nonnegative(shares as int, pre.total_assets as int);
    lemma_div_pos_is_pos(shares * pre.total_assets, pre.total_shares as int);
}

/// Round-trip non-profitability: depositing `amount` and immediately
/// redeeming every share that deposit minted never returns more than
/// `amount`. Floor division on both legs keeps each rounding remainder
/// with the pool.
pub proof fn lemma_round_trip_no_profit(pre: VaultLedger, amount: u64)
    requires
        pre.wf(),
    ensures
        spec_deposit(pre, amount) matches Ok(p) ==> (spec_withdraw(p.0, p.1, p.1) matches Ok(q)
            ==> q.1 <= amount),
{
    let ta = pre.total_assets as int;
    let ts = pre.total_shares as int;
    let a = amount as int;
    if spec_deposit(pre, amount) is Ok {
        let p = spec_deposit(pre, amount)->Ok_0;
        let s = p.1 as int;
        let mid_ta = ta + a;
        let mid_ts = ts + s;
        if ts == 0 {
            // bootstrap: the vault was empty, so the round trip redeems
            // `amount` shares against a pool of exactly `amount` assets
            assert(ta == 0);
            assert(s == a);
            lemma_div_multiples_vanish(a, a);
            assert(s * mid_ta == a * a);
            assert(assets_for_withdraw(mid_ta, mid_ts, s) == a);
        } else {
            // s is the floor of a * ts / ta, so s * ta <= a * ts
            lemma_fundamental_div_mod(a * ts, ta);
            lemma_mod_bound(a * ts, ta);
            assert(s == (a * ts) / ta);
            assert(ta * s <= a * ts);
            lemma_mul_is_commutative(ta, s);
            assert(s * ta <= a * ts);
            // hence s * (ta + a) <= a * (ts + s)
            lemma_mul_is_distributive_add(s, ta, a);
            lemma_mul_is_distributive_add(a, ts, s);
            lemma_mul_is_commutative(s, a);
            assert(s * mid_ta <= a * mid_ts);
            // and the floor of (s * mid_ta) / mid_ts is at most a
            lemma_mul_is_commutative(a, mid_ts);
            lemma_multiply_divide_le(s * mid_ta, mid_ts, a);
            assert(assets_for_withdraw(mid_ta, mid_ts, s) <= a);
        }
    }
}

/// Overflow boundary: a deposit whose pro-rata share quantity cannot be
/// represented in 64 bits, or whose updated totals cannot, fails with
/// `Overflow` (and, by the engine's contract, changes nothing). The
/// 128-bit intermediate product itself never overflows; see
/// `lemma_widened_product_fits`.
pub proof fn lemma_overflow_rejected(pre: VaultLedger, amount: u64)
    requires
        0 < amount,
        !pre.paused,
        shares_for_deposit(pre.total_assets as int, pre.total_shares as int, amount as int) != 0,
        shares_for_deposit(pre.total_assets as int, pre.total_shares as int, amount as int)
            > u64::MAX || pre.total_assets + amount > u64::MAX || pre.total_shares
            + shares_for_deposit(pre.total_assets as int, pre.total_shares as int, amount as int)
            > u64::MAX,
    ensures
        spec_deposit(pre, amount) == Err::<(VaultLedger, u64), VaultError>(VaultError::Overflow),
{
}

/// The exchange rate never decreases across a deposit: comparing
/// `total_assets / total_shares` before and after by cross-multiplying,
/// the new pool backs each outstanding share at least as well.
pub proof fn lemma_rate_non_decreasing_deposit(pre: VaultLedger, amount: u64)
    requires
        pre.wf(),
    ensures
        spec_deposit(pre, amount) matches Ok(p) ==> p.0.total_assets * pre.total_shares
            >= pre.total_assets * p.0.total_shares,
{
    let ta = pre.total_assets as int;
    let ts = pre.total_shares as int;
    let a = amount as int;
    if spec_deposit(pre, amount) is Ok {
        let s = spec_deposit(pre, amount)->Ok_0.1 as int;
        if ts == 0 {
            assert(ta == 0);
        } else {
            // s * ta <= a * ts, so (ta + a) * ts >= ta * (ts + s)
            lemma_fundamental_div_mod(a * ts, ta);
            lemma_mod_bound(a * ts, ta);
            assert(ta * s <= a * ts);
            lemma_mul_is_distributive_add(ta, ts, s);
            lemma_mul_is_commutative(ta + a, ts);
            lemma_mul_is_distributive_add(ts, ta, a);
            lemma_mul_is_commutative(ts, ta);
            lemma_mul_is_commutative(ts, a);
        }
    }
}

/// The exchange rate never decreases across a withdrawal: the assets
/// released are the floor of the pro-rata quantity, so each remaining
/// share is backed at least as well as before.
pub proof fn lemma_rate_non_decreasing_withdraw(
    pre: VaultLedger,
    shares: u64,
    caller_share_balance: u64,
)
    requires
        pre.wf(),
    ensures
        spec_withdraw(pre, shares, caller_share_balance) matches Ok(p) ==> p.0.total_assets
            * pre.total_shares >= pre.total_assets * p.0.total_shares,
{
    let ta = pre.total_assets as int;
    let ts = pre.total_shares as int;
    let s = shares as int;
    if spec_withdraw(pre, shares, caller_share_balance) is Ok {
        let w = spec_withdraw(pre, shares, caller_share_balance)->Ok_0.1 as int;
        lemma_mul_nonnegative(s, ta);
        lemma_div_pos_is_pos(s * ta, ts);
        // w * ts <= s * ta, so (ta - w) * ts >= ta * (ts - s)
        lemma_fundamental_div_mod(s * ta, ts);
        lemma_mod_bound(s * ta, ts);
        assert(ts * w <= s * ta);
        lemma_mul_is_commutative(ts, w);
        lemma_mul_is_distributive_add(ta, ts - s, s);
        lemma_mul_is_commutative(ta, ts - s);
        lemma_mul_is_distributive_add(ts, ta - w, w);
        lemma_mul_is_commutative(ts, ta - w);
        lemma_mul_is_commutative(ta, s);
        lemma_mul_is_commutative(ta, ts);
        assert((ta - w) * ts == ta * ts - ts * w);
        assert(ta * (ts - s) == ta * ts - ta * s);
    }
}

} // verus!
