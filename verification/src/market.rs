//! The market state machine.
//!
//! A `MarketState` owns the authoritative reserves and lifecycle flags of one
//! binary prediction market. Trading (`buy_tokens`, `sell_tokens`) is legal
//! only strictly before the deadline and before settlement; `settle_market`
//! is the single one-way transition that fixes the winning outcome; after it,
//! `redeem_tokens` computes the one-for-one payout for winning tokens.
//!
//! Every operation is all-or-nothing: on any error the state is unchanged.
//! Token custody is an external collaborator; callers read the returned
//! quantities and instruct the custodian accordingly.

use vstd::prelude::*;
use crate::pricing;

verus! {

/// The identity of a principal or of a fungible token kind, as the external
/// custodian names them.
#[derive(Clone, Copy, Debug, PartialEq, Eq, Hash, Structural)]
pub struct AccountId(pub u64);

/// One of the two binary positions.
#[derive(Clone, Copy, Debug, PartialEq, Eq, Structural)]
pub enum Outcome {
    Yes,
    No,
}

/// Everything that can go wrong with a market operation. Every failure
/// leaves the market unchanged.
#[derive(Clone, Copy, Debug, PartialEq, Eq, Structural)]
pub enum ErrorCode {
    /// The deadline handed to `initialize` is not in the future.
    InvalidDeadline,
    /// A trade was attempted after settlement.
    MarketSettled,
    /// A trade was attempted at or after the deadline.
    DeadlinePassed,
    /// Settlement was attempted before the deadline.
    DeadlineNotPassed,
    /// Settlement was attempted twice.
    MarketAlreadySettled,
    /// Redemption was attempted before settlement.
    MarketNotSettled,
    /// A sale asked for more outcome tokens than the pool side holds.
    InsufficientLiquidity,
    /// Redemption presented a token other than the winning outcome's.
    WrongTokenType,
    /// Someone other than the market authority tried to settle.
    Unauthorized,
    /// An intermediate product or sum does not fit in 64 bits.
    ArithmeticOverflow,
    /// A pricing divisor was zero (both operands zero, rejected defensively).
    DivisionUndefined,
}

/// The authoritative state of one market.
///
/// Each outcome reserve doubles as the circulating supply of that position
/// token: tokens minted to buyers are counted into the reserve, not held in a
/// separate pool. The reference reserve is exactly the currency deposited by
/// buys minus the currency withdrawn by sells.
#[derive(Clone, Debug, PartialEq, Eq)]
pub struct MarketState {
    /// The only principal permitted to settle the market.
    pub authority: AccountId,
    /// The reference currency's token kind.
    pub reference_mint: AccountId,
    /// The YES position token kind.
    pub yes_mint: AccountId,
    /// The NO position token kind.
    pub no_mint: AccountId,
    /// The threshold the observed result is compared against at settlement.
    pub fundraising_goal: u64,
    /// Trading is legal only strictly before this timestamp.
    pub deadline: i64,
    /// The market's human-readable name.
    pub project_name: String,
    /// YES reserve, simultaneously the YES circulating supply.
    pub yes_reserve: u64,
    /// NO reserve, simultaneously the NO circulating supply.
    pub no_reserve: u64,
    /// Reference currency held in escrow by the pool.
    pub reference_reserve: u64,
    /// One-way flag: set by settlement, never cleared.
    pub is_settled: bool,
    /// Unset until settlement, then fixed forever.
    pub winning_outcome: Option<Outcome>,
}

impl MarketState {
    /// The reserve of the given outcome's pool side.
    pub open spec fn reserve_of(self, outcome: Outcome) -> u64 {
        match outcome {
            Outcome::Yes => self.yes_reserve,
            Outcome::No => self.no_reserve,
        }
    }

    /// The same market with the given outcome's reserve replaced.
    pub open spec fn with_reserve(self, outcome: Outcome, v: u64) -> MarketState {
        match outcome {
            Outcome::Yes => MarketState { yes_reserve: v, ..self },
            Outcome::No => MarketState { no_reserve: v, ..self },
        }
    }

    /// The token kind of the given outcome.
    pub open spec fn mint_of(self, outcome: Outcome) -> AccountId {
        match outcome {
            Outcome::Yes => self.yes_mint,
            Outcome::No => self.no_mint,
        }
    }

    /// Well-formedness: a settled market always carries a winning outcome.
    pub open spec fn wf(self) -> bool {
        self.is_settled ==> self.winning_outcome is Some
    }

    /// The immutable identity of the market: everything except the reserves
    /// and the settlement fields.
    pub open spec fn same_identity(self, other: MarketState) -> bool {
        &&& self.authority == other.authority
        &&& self.reference_mint == other.reference_mint
        &&& self.yes_mint == other.yes_mint
        &&& self.no_mint == other.no_mint
        &&& self.fundraising_goal == other.fundraising_goal
        &&& self.deadline == other.deadline
        &&& self.project_name == other.project_name
    }

    /// Trading is legal only strictly before the deadline, on an unsettled
    /// market.
    pub open spec fn trading_open(self, now: i64) -> bool {
        !self.is_settled && now < self.deadline
    }

    /// The number of outcome tokens a purchase of `amount_in` reference
    /// units mints at the current reserves.
    pub open spec fn buy_amount_out(self, outcome: Outcome, amount_in: u64) -> int {
        pricing::mint_quote(amount_in, self.reserve_of(outcome), self.reference_reserve)
    }

    /// True exactly when `buy_tokens(amount_in, outcome, now)` succeeds.
    pub open spec fn buy_ok(self, outcome: Outcome, amount_in: u64, now: i64) -> bool {
        &&& self.trading_open(now)
        &&& pricing::mint_quote_fits(amount_in, self.reserve_of(outcome), self.reference_reserve)
        &&& pricing::mint_quote_defined(amount_in, self.reserve_of(outcome), self.reference_reserve)
        &&& self.reserve_of(outcome) + self.buy_amount_out(outcome, amount_in) <= u64::MAX
        &&& self.reference_reserve + amount_in <= u64::MAX
    }

    /// The market after a successful purchase: the traded side's reserve
    /// grows by the minted amount, the reference reserve by the deposit.
    pub open spec fn buy_step(self, outcome: Outcome, amount_in: u64) -> MarketState {
        let with_outcome = self.with_reserve(
            outcome,
            (self.reserve_of(outcome) + self.buy_amount_out(outcome, amount_in)) as u64,
        );
        MarketState { reference_reserve: (self.reference_reserve + amount_in) as u64, ..with_outcome }
    }

    /// The error a failing purchase reports, by precedence.
    pub open spec fn buy_error(self, outcome: Outcome, amount_in: u64, now: i64) -> ErrorCode {
        if self.is_settled {
            ErrorCode::MarketSettled
        } else if now >= self.deadline {
            ErrorCode::DeadlinePassed
        } else if !pricing::mint_quote_fits(amount_in, self.reserve_of(outcome), self.reference_reserve) {
            ErrorCode::ArithmeticOverflow
        } else if !pricing::mint_quote_defined(amount_in, self.reserve_of(outcome), self.reference_reserve) {
            ErrorCode::DivisionUndefined
        } else {
            ErrorCode::ArithmeticOverflow
        }
    }

    /// The reference currency a sale of `amount_in` outcome tokens returns
    /// at the current reserves.
    pub open spec fn sell_amount_out(self, outcome: Outcome, amount_in: u64) -> int {
        pricing::burn_quote(amount_in, self.reserve_of(outcome), self.reference_reserve)
    }

    /// True exactly when `sell_tokens(amount_in, outcome, now)` succeeds.
    pub open spec fn sell_ok(self, outcome: Outcome, amount_in: u64, now: i64) -> bool {
        &&& self.trading_open(now)
        &&& amount_in <= self.reserve_of(outcome)
        &&& pricing::burn_quote_fits(amount_in, self.reserve_of(outcome), self.reference_reserve)
        &&& pricing::burn_quote_defined(amount_in, self.reserve_of(outcome), self.reference_reserve)
    }

    /// The market after a successful sale: the traded side's reserve shrinks
    /// by the burned tokens, the reference reserve by the payout.
    pub open spec fn sell_step(self, outcome: Outcome, amount_in: u64) -> MarketState {
        let with_outcome = self.with_reserve(
            outcome,
            (self.reserve_of(outcome) - amount_in) as u64,
        );
        MarketState {
            reference_reserve: (self.reference_reserve - self.sell_amount_out(outcome, amount_in)) as u64,
            ..with_outcome
        }
    }

    /// The error a failing sale reports, by precedence.
    pub open spec fn sell_error(self, outcome: Outcome, amount_in: u64, now: i64) -> ErrorCode {
        if self.is_settled {
            ErrorCode::MarketSettled
        } else if now >= self.deadline {
            ErrorCode::DeadlinePassed
        } else if amount_in > self.reserve_of(outcome) {
            ErrorCode::InsufficientLiquidity
        } else if !pricing::burn_quote_fits(amount_in, self.reserve_of(outcome), self.reference_reserve) {
            ErrorCode::ArithmeticOverflow
        } else {
            ErrorCode::DivisionUndefined
        }
    }

    /// True exactly when `settle_market(caller, observed_result, now)`
    /// succeeds.
    pub open spec fn settle_ok(self, caller: AccountId, now: i64) -> bool {
        &&& caller == self.authority
        &&& now >= self.deadline
        &&& !self.is_settled
    }

    /// The outcome settlement selects: YES exactly when the observed result
    /// reaches the fundraising goal.
    pub open spec fn settle_outcome(self, observed_result: u64) -> Outcome {
        if observed_result >= self.fundraising_goal {
            Outcome::Yes
        } else {
            Outcome::No
        }
    }

    /// The market after a successful settlement: reserves untouched, the
    /// settled flag set, the winning outcome fixed.
    pub open spec fn settle_step(self, observed_result: u64) -> MarketState {
        MarketState {
            is_settled: true,
            winning_outcome: Some(self.settle_outcome(observed_result)),
            ..self
        }
    }

    /// The error a failing settlement reports, by precedence.
    pub open spec fn settle_error(self, caller: AccountId, now: i64) -> ErrorCode {
        if caller != self.authority {
            ErrorCode::Unauthorized
        } else if now < self.deadline {
            ErrorCode::DeadlineNotPassed
        } else {
            ErrorCode::MarketAlreadySettled
        }
    }

    /// True exactly when redeeming tokens of kind `presented_mint` succeeds:
    /// the market is settled and the presented token is the winning
    /// outcome's.
    pub open spec fn redeem_ok(self, presented_mint: AccountId) -> bool {
        &&& self.is_settled
        &&& self.winning_outcome matches Some(w) && presented_mint == self.mint_of(w)
    }

    /// The error a failing redemption reports, by precedence.
    pub open spec fn redeem_error(self, presented_mint: AccountId) -> ErrorCode {
        if !self.is_settled || self.winning_outcome is None {
            ErrorCode::MarketNotSettled
        } else {
            ErrorCode::WrongTokenType
        }
    }

    /// Create a market. The deadline must lie strictly in the future; the
    /// reserves start at zero and the market starts unsettled.
    pub fn initialize(
        authority: AccountId,
        reference_mint: AccountId,
        yes_mint: AccountId,
        no_mint: AccountId,
        fundraising_goal: u64,
        deadline: i64,
        project_name: String,
        now: i64,
    ) -> (r: Result<MarketState, ErrorCode>)
        ensures
            r is Ok <==> deadline > now,
            r matches Ok(m) ==> m == (MarketState {
                authority,
                reference_mint,
                yes_mint,
                no_mint,
                fundraising_goal,
                deadline,
                project_name,
                yes_reserve: 0,
                no_reserve: 0,
                reference_reserve: 0,
                is_settled: false,
                winning_outcome: None,
            }),
            r matches Ok(m) ==> m.wf(),
            r matches Err(e) ==> e == ErrorCode::InvalidDeadline,
    {
        if deadline <= now {
            return Err(ErrorCode::InvalidDeadline);
        }
        Ok(MarketState {
            authority,
            reference_mint,
            yes_mint,
            no_mint,
            fundraising_goal,
            deadline,
            project_name,
            yes_reserve: 0,
            no_reserve: 0,
            reference_reserve: 0,
            is_settled: false,
            winning_outcome: None,
        })
    }

    /// Buy outcome tokens with `amount_in` units of reference currency.
    ///
    /// On success the caller owes the pool `amount_in` reference currency and
    /// is owed the returned number of freshly minted outcome tokens; the
    /// reserves are updated accordingly. On any error the market is
    /// unchanged.
    pub fn buy_tokens(&mut self, amount_in: u64, outcome: Outcome, now: i64) -> (r: Result<u64, ErrorCode>)
        requires
            amount_in > 0,
        ensures
            r is Ok <==> old(self).buy_ok(outcome, amount_in, now),
            r matches Ok(v) ==> v == old(self).buy_amount_out(outcome, amount_in)
                && *final(self) == old(self).buy_step(outcome, amount_in),
            r is Err ==> *final(self) == *old(self),
            r matches Err(e) ==> e == old(self).buy_error(outcome, amount_in, now),
            old(self).same_identity(*final(self)),
            final(self).is_settled == old(self).is_settled,
            final(self).winning_outcome == old(self).winning_outcome,
            old(self).wf() ==> final(self).wf(),
    {
        if self.is_settled {
            return Err(ErrorCode::MarketSettled);
        }
        if now >= self.deadline {
            return Err(ErrorCode::DeadlinePassed);
        }
        let outcome_reserve = match outcome {
            Outcome::Yes => self.yes_reserve,
            Outcome::No => self.no_reserve,
        };
        let tokens_to_mint = match pricing::quote_mint(amount_in, outcome_reserve, self.reference_reserve) {
            Ok(v) => v,
            Err(e) => {
                return Err(e);
            },
        };
        let new_outcome_reserve = match outcome_reserve.checked_add(tokens_to_mint) {
            Some(v) => v,
            None => {
                return Err(ErrorCode::ArithmeticOverflow);
            },
        };
        let new_reference_reserve = match self.reference_reserve.checked_add(amount_in) {
            Some(v) => v,
            None => {
                return Err(ErrorCode::ArithmeticOverflow);
            },
        };
        match outcome {
            Outcome::Yes => {
                self.yes_reserve = new_outcome_reserve;
            },
            Outcome::No => {
                self.no_reserve = new_outcome_reserve;
            },
        }
        self.reference_reserve = new_reference_reserve;
        Ok(tokens_to_mint)
    }

    /// Sell `amount_in` outcome tokens back to the pool.
    ///
    /// On success the caller owes the pool the burned tokens and is owed the
    /// returned amount of reference currency; the reserves are updated
    /// accordingly. On any error the market is unchanged.
    pub fn sell_tokens(&mut self, amount_in: u64, outcome: Outcome, now: i64) -> (r: Result<u64, ErrorCode>)
        ensures
            r is Ok <==> old(self).sell_ok(outcome, amount_in, now),
            r matches Ok(v) ==> v == old(self).sell_amount_out(outcome, amount_in)
                && v <= old(self).reference_reserve
                && *final(self) == old(self).sell_step(outcome, amount_in),
            r is Err ==> *final(self) == *old(self),
            r matches Err(e) ==> e == old(self).sell_error(outcome, amount_in, now),
            old(self).same_identity(*final(self)),
            final(self).is_settled == old(self).is_settled,
            final(self).winning_outcome == old(self).winning_outcome,
            old(self).wf() ==> final(self).wf(),
    {
        if self.is_settled {
            return Err(ErrorCode::MarketSettled);
        }
        if now >= self.deadline {
            return Err(ErrorCode::DeadlinePassed);
        }
        let outcome_reserve = match outcome {
            Outcome::Yes => self.yes_reserve,
            Outcome::No => self.no_reserve,
        };
        let reference_to_return = match pricing::quote_burn(amount_in, outcome_reserve, self.reference_reserve) {
            Ok(v) => v,
            Err(e) => {
                return Err(e);
            },
        };
        proof {
            pricing::lemma_burn_quote_le_reference(amount_in, outcome_reserve, self.reference_reserve);
        }
        match outcome {
            Outcome::Yes => {
                self.yes_reserve = outcome_reserve - amount_in;
            },
            Outcome::No => {
                self.no_reserve = outcome_reserve - amount_in;
            },
        }
        self.reference_reserve = self.reference_reserve - reference_to_return;
        Ok(reference_to_return)
    }

    /// Settle the market: compare the observed fundraising result against
    /// the stored goal and fix the winning outcome forever.
    ///
    /// Only the market authority may settle, only at or after the deadline,
    /// and only once. Reserves are untouched.
    pub fn settle_market(&mut self, caller: AccountId, observed_result: u64, now: i64) -> (r: Result<(), ErrorCode>)
        ensures
            r is Ok <==> old(self).settle_ok(caller, now),
            r is Ok ==> *final(self) == old(self).settle_step(observed_result),
            r is Ok ==> final(self).is_settled
                && final(self).winning_outcome == Some(old(self).settle_outcome(observed_result)),
            r is Err ==> *final(self) == *old(self),
            r matches Err(e) ==> e == old(self).settle_error(caller, now),
            old(self).same_identity(*final(self)),
            final(self).yes_reserve == old(self).yes_reserve,
            final(self).no_reserve == old(self).no_reserve,
            final(self).reference_reserve == old(self).reference_reserve,
            old(self).wf() ==> final(self).wf(),
    {
        if caller != self.authority {
            return Err(ErrorCode::Unauthorized);
        }
        if now < self.deadline {
            return Err(ErrorCode::DeadlineNotPassed);
        }
        if self.is_settled {
            return Err(ErrorCode::MarketAlreadySettled);
        }
        let winning = if observed_result >= self.fundraising_goal {
            Outcome::Yes
        } else {
            Outcome::No
        };
        self.is_settled = true;
        self.winning_outcome = Some(winning);
        Ok(())
    }

    /// Redeem winning outcome tokens one-for-one for reference currency.
    ///
    /// Legal only after settlement and only for the winning outcome's token
    /// kind. Returns the reference currency owed, which equals `amount`.
    /// The market itself is read-only here: custody burns the tokens and
    /// pays out of escrow.
    pub fn redeem_tokens(&self, presented_mint: AccountId, amount: u64) -> (r: Result<u64, ErrorCode>)
        ensures
            r is Ok <==> self.redeem_ok(presented_mint),
            r matches Ok(v) ==> v == amount,
            r matches Err(e) ==> e == self.redeem_error(presented_mint),
    {
        if !self.is_settled {
            return Err(ErrorCode::MarketNotSettled);
        }
        let winning = match self.winning_outcome {
            Some(w) => w,
            None => {
                return Err(ErrorCode::MarketNotSettled);
            },
        };
        let winning_mint = match winning {
            Outcome::Yes => self.yes_mint,
            Outcome::No => self.no_mint,
        };
        if presented_mint != winning_mint {
            return Err(ErrorCode::WrongTokenType);
        }
        Ok(amount)
    }
}

} // verus!
