use indie_star_market::market::{AccountId, ErrorCode, MarketState, Outcome};

const AUTHORITY: AccountId = AccountId(1);
const REFERENCE_MINT: AccountId = AccountId(10);
const YES_MINT: AccountId = AccountId(11);
const NO_MINT: AccountId = AccountId(12);
const GOAL: u64 = 1_000_000;
const DEADLINE: i64 = 1_000;

fn fresh_market() -> MarketState {
    MarketState::initialize(
        AUTHORITY,
        REFERENCE_MINT,
        YES_MINT,
        NO_MINT,
        GOAL,
        DEADLINE,
        String::from("indie star"),
        0,
    )
    .unwrap()
}

#[test]
fn initialize_sets_up_an_open_empty_market() {
    let m = fresh_market();
    assert_eq!(m.authority, AUTHORITY);
    assert_eq!(m.reference_mint, REFERENCE_MINT);
    assert_eq!(m.yes_mint, YES_MINT);
    assert_eq!(m.no_mint, NO_MINT);
    assert_eq!(m.fundraising_goal, GOAL);
    assert_eq!(m.deadline, DEADLINE);
    assert_eq!(m.project_name, "indie star");
    assert_eq!(m.yes_reserve, 0);
    assert_eq!(m.no_reserve, 0);
    assert_eq!(m.reference_reserve, 0);
    assert!(!m.is_settled);
    assert_eq!(m.winning_outcome, None);
}

#[test]
fn initialize_rejects_past_or_present_deadline() {
    let past = MarketState::initialize(
        AUTHORITY,
        REFERENCE_MINT,
        YES_MINT,
        NO_MINT,
        GOAL,
        50,
        String::from("late"),
        100,
    );
    assert_eq!(past.unwrap_err(), ErrorCode::InvalidDeadline);
    let exactly_now = MarketState::initialize(
        AUTHORITY,
        REFERENCE_MINT,
        YES_MINT,
        NO_MINT,
        GOAL,
        100,
        String::from("now"),
        100,
    );
    assert_eq!(exactly_now.unwrap_err(), ErrorCode::InvalidDeadline);
}

#[test]
fn full_scenario_two_buyers_settle_and_redeem() {
    let mut m = fresh_market();

    // Buyer A buys YES with 1000 reference units against a virgin pool.
    assert_eq!(m.buy_tokens(1000, Outcome::Yes, 10), Ok(1000));
    assert_eq!(
        (m.yes_reserve, m.no_reserve, m.reference_reserve),
        (1000, 0, 1000)
    );

    // Buyer B buys NO with 500; the NO side is still virgin.
    assert_eq!(m.buy_tokens(500, Outcome::No, 20), Ok(500));
    assert_eq!(
        (m.yes_reserve, m.no_reserve, m.reference_reserve),
        (1000, 500, 1500)
    );

    // At the deadline the authority settles above the goal: YES wins.
    assert_eq!(m.settle_market(AUTHORITY, 1_200_000, DEADLINE), Ok(()));
    assert!(m.is_settled);
    assert_eq!(m.winning_outcome, Some(Outcome::Yes));

    // A redeems 1000 YES one-for-one.
    assert_eq!(m.redeem_tokens(YES_MINT, 1000), Ok(1000));

    // B's NO tokens are worthless.
    assert_eq!(m.redeem_tokens(NO_MINT, 500), Err(ErrorCode::WrongTokenType));
}

#[test]
fn buy_prices_along_the_curve_once_seeded() {
    let mut m = fresh_market();
    assert_eq!(m.buy_tokens(1000, Outcome::Yes, 10), Ok(1000));
    // floor(100 * 1000 / (1000 + 100)) == 90
    assert_eq!(m.buy_tokens(100, Outcome::Yes, 11), Ok(90));
    assert_eq!(m.yes_reserve, 1090);
    assert_eq!(m.reference_reserve, 1100);
}

#[test]
fn sell_returns_reference_and_shrinks_reserves() {
    let mut m = fresh_market();
    assert_eq!(m.buy_tokens(1000, Outcome::Yes, 10), Ok(1000));
    assert_eq!(m.buy_tokens(500, Outcome::No, 11), Ok(500));
    // floor(500 * 1500 / (1000 + 500)) == 500
    assert_eq!(m.sell_tokens(500, Outcome::Yes, 12), Ok(500));
    assert_eq!(
        (m.yes_reserve, m.no_reserve, m.reference_reserve),
        (500, 500, 1000)
    );
}

#[test]
fn conservation_holds_over_a_trade_sequence() {
    let mut m = fresh_market();
    let mut deposited: u64 = 0;
    let mut withdrawn: u64 = 0;

    for (amount, outcome) in [(1000u64, Outcome::Yes), (500, Outcome::No), (250, Outcome::Yes)] {
        m.buy_tokens(amount, outcome, 10).unwrap();
        deposited += amount;
    }
    withdrawn += m.sell_tokens(100, Outcome::Yes, 20).unwrap();
    withdrawn += m.sell_tokens(200, Outcome::No, 21).unwrap();
    withdrawn += m.sell_tokens(50, Outcome::Yes, 22).unwrap();

    assert_eq!(m.reference_reserve, deposited - withdrawn);
}

#[test]
fn round_trip_never_profits_on_a_seeded_side() {
    let mut m = fresh_market();
    m.buy_tokens(1000, Outcome::Yes, 10).unwrap();
    m.buy_tokens(700, Outcome::No, 11).unwrap();
    for amount in [1u64, 10, 100, 999] {
        let mut n = m.clone();
        let bought = n.buy_tokens(amount, Outcome::Yes, 12).unwrap();
        let returned = n.sell_tokens(bought, Outcome::Yes, 13).unwrap();
        assert!(returned <= amount);
    }
}

#[test]
fn bootstrap_round_trip_can_profit_when_reference_reserve_is_deep() {
    // The one-for-one bootstrap mint ignores the reference reserve, so a
    // buy on a virgin side of a pool already deep in reference currency can
    // be sold straight back at a profit. The curve only guarantees a loss
    // once the traded side is seeded.
    let mut m = fresh_market();
    m.buy_tokens(1000, Outcome::No, 10).unwrap();
    let bought = m.buy_tokens(100, Outcome::Yes, 11).unwrap();
    assert_eq!(bought, 100);
    // floor(100 * 1100 / (100 + 100)) == 550 > 100
    assert_eq!(m.sell_tokens(100, Outcome::Yes, 12), Ok(550));
}

#[test]
fn trades_fail_once_the_deadline_is_reached() {
    let mut m = fresh_market();
    m.buy_tokens(1000, Outcome::Yes, 10).unwrap();
    let before = m.clone();
    assert_eq!(
        m.buy_tokens(100, Outcome::Yes, DEADLINE),
        Err(ErrorCode::DeadlinePassed)
    );
    assert_eq!(
        m.sell_tokens(100, Outcome::Yes, DEADLINE + 5),
        Err(ErrorCode::DeadlinePassed)
    );
    assert_eq!(m, before);
}

#[test]
fn trades_fail_after_settlement() {
    let mut m = fresh_market();
    m.buy_tokens(1000, Outcome::Yes, 10).unwrap();
    m.settle_market(AUTHORITY, 0, DEADLINE).unwrap();
    let before = m.clone();
    assert_eq!(
        m.buy_tokens(100, Outcome::Yes, DEADLINE + 1),
        Err(ErrorCode::MarketSettled)
    );
    assert_eq!(
        m.sell_tokens(100, Outcome::Yes, DEADLINE + 1),
        Err(ErrorCode::MarketSettled)
    );
    assert_eq!(m, before);
}

#[test]
fn sell_rejects_more_than_the_reserve_holds() {
    let mut m = fresh_market();
    m.buy_tokens(1000, Outcome::Yes, 10).unwrap();
    let before = m.clone();
    assert_eq!(
        m.sell_tokens(1001, Outcome::Yes, 11),
        Err(ErrorCode::InsufficientLiquidity)
    );
    assert_eq!(
        m.sell_tokens(1, Outcome::No, 11),
        Err(ErrorCode::InsufficientLiquidity)
    );
    assert_eq!(m, before);
}

#[test]
fn buy_reports_overflow_and_leaves_the_market_unchanged() {
    let mut m = fresh_market();
    m.buy_tokens(u64::MAX, Outcome::Yes, 10).unwrap();
    assert_eq!(m.yes_reserve, u64::MAX);
    let before = m.clone();
    assert_eq!(
        m.buy_tokens(1, Outcome::Yes, 11),
        Err(ErrorCode::ArithmeticOverflow)
    );
    assert_eq!(m, before);
}

#[test]
fn settlement_at_the_goal_resolves_yes() {
    let mut m = fresh_market();
    assert_eq!(m.settle_market(AUTHORITY, GOAL, DEADLINE), Ok(()));
    assert_eq!(m.winning_outcome, Some(Outcome::Yes));
}

#[test]
fn settlement_one_below_the_goal_resolves_no() {
    let mut m = fresh_market();
    assert_eq!(m.settle_market(AUTHORITY, GOAL - 1, DEADLINE), Ok(()));
    assert_eq!(m.winning_outcome, Some(Outcome::No));
}

#[test]
fn settlement_requires_the_authority() {
    let mut m = fresh_market();
    assert_eq!(
        m.settle_market(AccountId(99), GOAL, DEADLINE),
        Err(ErrorCode::Unauthorized)
    );
    assert!(!m.is_settled);
}

#[test]
fn settlement_requires_the_deadline_to_have_passed() {
    let mut m = fresh_market();
    assert_eq!(
        m.settle_market(AUTHORITY, GOAL, DEADLINE - 1),
        Err(ErrorCode::DeadlineNotPassed)
    );
    assert!(!m.is_settled);
}

#[test]
fn settlement_is_one_way() {
    let mut m = fresh_market();
    m.settle_market(AUTHORITY, GOAL, DEADLINE).unwrap();
    assert_eq!(m.winning_outcome, Some(Outcome::Yes));
    assert_eq!(
        m.settle_market(AUTHORITY, 0, DEADLINE + 1),
        Err(ErrorCode::MarketAlreadySettled)
    );
    assert!(m.is_settled);
    assert_eq!(m.winning_outcome, Some(Outcome::Yes));
}

#[test]
fn redeem_fails_before_settlement() {
    let m = fresh_market();
    assert_eq!(
        m.redeem_tokens(YES_MINT, 100),
        Err(ErrorCode::MarketNotSettled)
    );
}

#[test]
fn redeem_rejects_the_losing_token() {
    let mut m = fresh_market();
    m.settle_market(AUTHORITY, GOAL - 1, DEADLINE).unwrap();
    assert_eq!(m.winning_outcome, Some(Outcome::No));
    assert_eq!(m.redeem_tokens(NO_MINT, 100), Ok(100));
    assert_eq!(
        m.redeem_tokens(YES_MINT, 100),
        Err(ErrorCode::WrongTokenType)
    );
    assert_eq!(
        m.redeem_tokens(REFERENCE_MINT, 100),
        Err(ErrorCode::WrongTokenType)
    );
}

#[test]
fn selling_the_whole_reserve_empties_it() {
    let mut m = fresh_market();
    m.buy_tokens(1000, Outcome::Yes, 10).unwrap();
    // floor(1000 * 1000 / (1000 + 1000)) == 500: half the deposit stays.
    assert_eq!(m.sell_tokens(1000, Outcome::Yes, 11), Ok(500));
    assert_eq!((m.yes_reserve, m.reference_reserve), (0, 500));
}

#[test]
fn selling_nothing_returns_nothing() {
    let mut m = fresh_market();
    m.buy_tokens(1000, Outcome::Yes, 10).unwrap();
    let before = m.clone();
    assert_eq!(m.sell_tokens(0, Outcome::Yes, 11), Ok(0));
    assert_eq!(m, before);
}
