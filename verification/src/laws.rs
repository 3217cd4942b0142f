//! Global laws of the market state machine.
//!
//! These proof functions state the properties that hold across whole
//! sequences of operations: conservation of the reference reserve,
//! non-negativity of all reserves, the one-way nature of settlement, and the
//! round-trip loss of the pricing curve.

use vstd::prelude::*;
use crate::market::{AccountId, ErrorCode, MarketState, Outcome};
use crate::pricing;

verus! {

/// One attempted state-changing operation: a purchase, a sale, or a
/// settlement, together with the inputs it was attempted with.
pub enum MarketOp {
    Buy { outcome: Outcome, amount_in: u64, now: i64 },
    Sell { outcome: Outcome, amount_in: u64, now: i64 },
    Settle { caller: AccountId, observed_result: u64, now: i64 },
}

/// True exactly when the operation succeeds from state `m`.
pub open spec fn op_ok(m: MarketState, op: MarketOp) -> bool {
    match op {
        MarketOp::Buy { outcome, amount_in, now } => amount_in > 0 && m.buy_ok(outcome, amount_in, now),
        MarketOp::Sell { outcome, amount_in, now } => m.sell_ok(outcome, amount_in, now),
        MarketOp::Settle { caller, now, .. } => m.settle_ok(caller, now),
    }
}

/// The state after attempting one operation: the successor state on
/// success, `m` itself on failure (every failure leaves the market
/// unchanged).
pub open spec fn op_step(m: MarketState, op: MarketOp) -> MarketState {
    if op_ok(m, op) {
        match op {
            MarketOp::Buy { outcome, amount_in, .. } => m.buy_step(outcome, amount_in),
            MarketOp::Sell { outcome, amount_in, .. } => m.sell_step(outcome, amount_in),
            MarketOp::Settle { observed_result, .. } => m.settle_step(observed_result),
        }
    } else {
        m
    }
}

/// The state after attempting a whole sequence of operations in order.
pub open spec fn run(m: MarketState, ops: Seq<MarketOp>) -> MarketState
    decreases ops.len(),
{
    if ops.len() == 0 {
        m
    } else {
        run(op_step(m, ops[0]), ops.drop_first())
    }
}

/// True when every operation in the sequence is a trade (a purchase or a
/// sale) and every one of them succeeds from the state it is attempted in.
pub open spec fn all_trades_ok(m: MarketState, ops: Seq<MarketOp>) -> bool
    decreases ops.len(),
{
    ops.len() == 0 || {
        &&& !(ops[0] is Settle)
        &&& op_ok(m, ops[0])
        &&& all_trades_ok(op_step(m, ops[0]), ops.drop_first())
    }
}

/// The total reference currency the sequence deposits into the pool: the
/// sum of the purchase amounts.
pub open spec fn deposited(ops: Seq<MarketOp>) -> int
    decreases ops.len(),
{
    if ops.len() == 0 {
        0
    } else {
        (match ops[0] {
            MarketOp::Buy { amount_in, .. } => amount_in as int,
            _ => 0,
        }) + deposited(ops.drop_first())
    }
}

/// The total reference currency the sequence withdraws from the pool: the
/// sum of the sale payouts, each priced at the reserves it executes
/// against.
pub open spec fn withdrawn(m: MarketState, ops: Seq<MarketOp>) -> int
    decreases ops.len(),
{
    if ops.len() == 0 {
        0
    } else {
        (match ops[0] {
            MarketOp::Sell { outcome, amount_in, .. } => m.sell_amount_out(outcome, amount_in),
            _ => 0,
        }) + withdrawn(op_step(m, ops[0]), ops.drop_first())
    }
}

/// Reserves can never be negative: each is represented as an unsigned
/// 64-bit counter, so non-negativity holds at every observable boundary.
pub proof fn lemma_reserves_nonnegative(m: MarketState)
    ensures
        m.yes_reserve >= 0,
        m.no_reserve >= 0,
        m.reference_reserve >= 0,
{
}

/// Conservation: across any sequence of successful trades, the reference
/// reserve is exactly the initial reserve plus everything deposited by
/// purchases minus everything withdrawn by sales. No reference currency is
/// created or destroyed by trading.
pub proof fn lemma_conservation(m: MarketState, ops: Seq<MarketOp>)
    requires
        all_trades_ok(m, ops),
    ensures
        run(m, ops).reference_reserve == m.reference_reserve + deposited(ops) - withdrawn(m, ops),
    decreases ops.len(),
{
    if ops.len() > 0 {
        let m1 = op_step(m, ops[0]);
        match ops[0] {
            MarketOp::Buy { amount_in, .. } => {
                assert(m1.reference_reserve == m.reference_reserve + amount_in);
            },
            MarketOp::Sell { outcome, amount_in, .. } => {
                pricing::lemma_burn_quote_le_reference(
                    amount_in,
                    m.reserve_of(outcome),
                    m.reference_reserve,
                );
                assert(m1.reference_reserve
                    == m.reference_reserve - m.sell_amount_out(outcome, amount_in));
            },
            MarketOp::Settle { .. } => {
                assert(false);
            },
        }
        lemma_conservation(m1, ops.drop_first());
    }
}

/// Monotonic settlement: once a market is settled, no sequence of attempted
/// operations can unsettle it or change the winning outcome. Purchases,
/// sales and further settlements all fail on a settled market and leave it
/// unchanged.
pub proof fn lemma_settlement_monotonic(m: MarketState, ops: Seq<MarketOp>)
    requires
        m.is_settled,
    ensures
        run(m, ops) == m,
    decreases ops.len(),
{
    if ops.len() > 0 {
        assert(op_step(m, ops[0]) == m);
        lemma_settlement_monotonic(m, ops.drop_first());
    }
}

/// A settled market reports `MarketSettled` to every attempted trade.
pub proof fn lemma_settled_trade_error(m: MarketState, outcome: Outcome, amount_in: u64, now: i64)
    requires
        m.is_settled,
    ensures
        !m.buy_ok(outcome, amount_in, now),
        !m.sell_ok(outcome, amount_in, now),
        m.buy_error(outcome, amount_in, now) == ErrorCode::MarketSettled,
        m.sell_error(outcome, amount_in, now) == ErrorCode::MarketSettled,
{
}

/// Round-trip loss: buying with `amount_in` and immediately selling every
/// token received never returns more reference currency than was paid,
/// provided the traded side's pool was nonempty before the purchase, or the
/// reference reserve did not exceed `amount_in + 1`. (On an empty pool side
/// the bootstrap one-for-one mint ignores the reference reserve, and an
/// immediate sale can return more than was paid once the reference reserve
/// is larger than that.)
pub proof fn lemma_round_trip_loss(m: MarketState, outcome: Outcome, amount_in: u64, now: i64)
    requires
        amount_in > 0,
        m.buy_ok(outcome, amount_in, now),
        m.reserve_of(outcome) > 0 || m.reference_reserve <= amount_in + 1,
    ensures
        ({
            let bought = m.buy_amount_out(outcome, amount_in);
            let m2 = m.buy_step(outcome, amount_in);
            m2.sell_amount_out(outcome, bought as u64) <= amount_in
        }),
{
    let or = m.reserve_of(outcome) as int;
    let rr = m.reference_reserve as int;
    let a = amount_in as int;
    let bought = m.buy_amount_out(outcome, amount_in);
    let m2 = m.buy_step(outcome, amount_in);
    assert(m2.reserve_of(outcome) == or + bought);
    assert(m2.reference_reserve == rr + a);
    let den2 = (or + bought) + bought;
    if or == 0 {
        // Bootstrap: the purchase mints one-for-one.
        assert(bought == a);
        assert(den2 == 2 * a);
        // rr <= a + 1, so a * (rr + a) <= a * (2a + 1) < (2a) * (a + 1).
        assert(a * (rr + a) < (2 * a) * (a + 1)) by (nonlinear_arith)
            requires
                a > 0,
                rr <= a + 1,
                rr >= 0,
        ;
        vstd::arithmetic::div_mod::lemma_multiply_divide_lt(a * (rr + a), 2 * a, a + 1);
        assert((a * (rr + a)) / (2 * a) < a + 1);
        assert(m2.sell_amount_out(outcome, bought as u64) == (a * (rr + a)) / (2 * a));
    } else {
        // bought == floor(a * or / (rr + a)), so bought * (rr + a) <= a * or.
        let num = a * or;
        let den = rr + a;
        assert(bought == num / den);
        vstd::arithmetic::div_mod::lemma_fundamental_div_mod(num, den);
        vstd::arithmetic::div_mod::lemma_mod_division_less_than_divisor(num, den);
        assert(num % den >= 0);
        assert(bought * den <= num) by (nonlinear_arith)
            requires
                num == den * bought + num % den,
                num % den >= 0,
        ;
        pricing::lemma_mint_quote_le_outcome_reserve(
            amount_in,
            m.reserve_of(outcome),
            m.reference_reserve,
        );
        assert(bought >= 0);
        assert(den2 >= or > 0);
        // bought * den <= a * or <= a * den2 <= (a + 1) * den2 - 1 < (a + 1) * den2.
        assert(bought * den < den2 * (a + 1)) by (nonlinear_arith)
            requires
                bought * den <= a * or,
                den2 == or + 2 * bought,
                bought >= 0,
                or > 0,
                a > 0,
        ;
        vstd::arithmetic::div_mod::lemma_multiply_divide_lt(bought * den, den2, a + 1);
        assert((bought * den) / den2 < a + 1);
        assert(m2.sell_amount_out(outcome, bought as u64) == (bought * den) / den2);
    }
}

} // verus!
