use kalshi_core::arb::fees::ArbFeeModel;
use kalshi_core::arb::quotes::MarketQuote;
use kalshi_core::fees::FeeSchedule;

fn make_quotes(pairs: &[(i64, i64)]) -> Vec<MarketQuote> {
    pairs
        .iter()
        .enumerate()
        .map(|(i, (bid, ask))| MarketQuote {
            ticker: format!("MKT-{}", i),
            yes_bid: *bid,
            yes_ask: *ask,
            last_price: (bid + ask) / 2,
            volume: 100,
            age_ms: 0,
        })
        .collect()
}

#[test]
fn test_taker_fee_50c_100_contracts() {
    let fs = FeeSchedule::weather();
    let fee = fs.taker_fee_cents(100, 50);
    assert_eq!(fee, 175, "100 contracts @ 50¢ should be 175¢ ($1.75)");
}

#[test]
fn test_taker_fee_1c_100_contracts() {
    let fs = FeeSchedule::weather();
    let fee = fs.taker_fee_cents(100, 1);
    assert_eq!(fee, 7, "100 contracts @ 1¢ should be 7¢ ($0.07)");
}

#[test]
fn test_taker_fee_99c_symmetric() {
    let fs = FeeSchedule::weather();
    let fee_1 = fs.taker_fee_cents(100, 1);
    let fee_99 = fs.taker_fee_cents(100, 99);
    assert_eq!(fee_1, fee_99, "Fee should be symmetric around 50¢");
}

#[test]
fn test_maker_fee_quarter_of_taker() {
    let fs = FeeSchedule::weather();
    let maker_coeff = fs.maker_coeff_bp as f64 / 10_000.0;
    let taker_coeff = fs.taker_coeff_bp as f64 / 10_000.0;
    assert!((maker_coeff - taker_coeff / 4.0).abs() < 1e-10);
    assert_eq!(fs.maker_coeff_bp * 4, fs.taker_coeff_bp);
}

#[test]
fn test_round_trip_fee() {
    let fs = FeeSchedule::weather();
    let rt = fs.round_trip_fee_cents(10, 20, 45);
    let entry = fs.taker_fee_cents(10, 20);
    let exit = fs.taker_fee_cents(10, 45);
    assert_eq!(rt, entry + exit);
}

#[test]
fn test_fee_ceil_rounding() {
    let fs = FeeSchedule::weather();
    let fee = fs.taker_fee_cents(1, 50);
    assert_eq!(fee, 2, "Fractional cents should round up");
}

#[test]
fn fee_is_symmetric_at_every_price() {
    let fs = FeeSchedule::weather();
    for qty in [1i64, 3, 10, 100, 12_345] {
        for price in 0..=100i64 {
            assert_eq!(
                fs.taker_fee_cents(qty, price),
                fs.taker_fee_cents(qty, 100 - price)
            );
            assert_eq!(
                fs.maker_fee_cents(qty, price),
                fs.maker_fee_cents(qty, 100 - price)
            );
        }
    }
}

#[test]
fn fee_exact_values() {
    let fs = FeeSchedule::weather();
    // 0.07 * 0.12 * 0.88 * 100 = 0.7392 -> 1
    assert_eq!(fs.per_contract_taker_fee(12), 1);
    // 0.07 * 0.45 * 0.55 * 100 = 1.7325 -> 2
    assert_eq!(fs.per_contract_taker_fee(45), 2);
    // maker: 0.0175 * 100 * 0.5 * 0.5 * 100 = 43.75 -> 44
    assert_eq!(fs.maker_fee_cents(100, 50), 44);
    // 0.07 * 10 * 0.35 * 0.65 * 100 = 15.925 -> 16
    assert_eq!(fs.taker_fee_cents(10, 35), 16);
    // an exact number of cents is not rounded up
    assert_eq!(fs.taker_fee_cents(400, 50), 700);
}

#[test]
fn fee_is_zero_at_the_ends_and_for_nothing() {
    let fs = FeeSchedule::weather();
    assert_eq!(fs.taker_fee_cents(100, 0), 0);
    assert_eq!(fs.taker_fee_cents(100, 100), 0);
    assert_eq!(fs.taker_fee_cents(0, 50), 0);
    assert_eq!(fs.taker_fee_cents(-5, 50), 0);
    assert_eq!(fs.taker_fee_cents(5, 150), 0);
}

#[test]
fn fee_saturates_instead_of_overflowing() {
    let fs = FeeSchedule {
        taker_coeff_bp: u32::MAX,
        maker_coeff_bp: 1,
    };
    assert_eq!(fs.taker_fee_cents(i64::MAX, 50), i64::MAX);
    assert_eq!(fs.taker_fee_cents(i64::MIN, i64::MIN), i64::MAX);
    assert_eq!(fs.round_trip_fee_cents(i64::MAX, 50, 50), i64::MAX);
}

#[test]
fn default_schedule_is_the_standard_one() {
    let fs = FeeSchedule::default();
    assert_eq!(fs, FeeSchedule::weather());
    assert_eq!(fs.taker_coeff_bp, 700);
    assert_eq!(fs.maker_coeff_bp, 175);
}

#[test]
fn test_buy_set_cost_simple() {
    let fee_model = ArbFeeModel::new(0);
    let quotes = make_quotes(&[(38, 40), (53, 55)]);
    assert!(fee_model.can_price(&quotes, 1));
    let cost = fee_model.net_buy_set_cost(&quotes, 1);
    assert!(cost > 95, "Cost should include fees: {}", cost);
    assert_eq!(cost, 99);
}

#[test]
fn test_sell_set_revenue_simple() {
    let fee_model = ArbFeeModel::new(0);
    let quotes = make_quotes(&[(60, 65), (45, 50)]);
    assert!(fee_model.can_price(&quotes, 1));
    let rev = fee_model.net_sell_set_revenue(&quotes, 1).unwrap();
    assert!(rev < 105, "Revenue should be reduced by fees: {}", rev);
    assert_eq!(rev, 60 - 2 + 45 - 2);
}

#[test]
fn test_sell_set_revenue_rejects_non_positive_executable_bid() {
    let fee_model = ArbFeeModel::new(1);
    let quotes = make_quotes(&[(0, 10), (60, 65)]);
    assert!(fee_model.can_price(&quotes, 1));
    assert!(
        fee_model.net_sell_set_revenue(&quotes, 1).is_none(),
        "Any non-positive effective bid should invalidate sell-set revenue",
    );
}

#[test]
fn test_slippage_increases_buy_cost() {
    let no_slip = ArbFeeModel::new(0);
    let with_slip = ArbFeeModel::new(1);
    let quotes = make_quotes(&[(40, 45), (50, 55)]);
    assert!(no_slip.can_price(&quotes, 10));
    assert!(with_slip.can_price(&quotes, 10));

    let cost_no_slip = no_slip.net_buy_set_cost(&quotes, 10);
    let cost_with_slip = with_slip.net_buy_set_cost(&quotes, 10);

    assert!(
        cost_with_slip > cost_no_slip,
        "Slippage should increase cost: {} vs {}",
        cost_with_slip,
        cost_no_slip
    );
}

#[test]
fn test_ev_discounted_payout() {
    assert_eq!(ArbFeeModel::ev_discounted_payout(0), 100);
    assert_eq!(ArbFeeModel::ev_discounted_payout(100_000), 90);
    assert_eq!(ArbFeeModel::ev_discounted_payout(500_000), 50);
}

#[test]
fn ev_discounted_payout_rounds_down() {
    assert_eq!(ArbFeeModel::ev_discounted_payout(50_000), 95);
    assert_eq!(ArbFeeModel::ev_discounted_payout(20_000), 98);
    assert_eq!(ArbFeeModel::ev_discounted_payout(1), 99);
    assert_eq!(ArbFeeModel::ev_discounted_payout(1_000_000), 0);
    assert_eq!(ArbFeeModel::ev_discounted_payout(1_000_001), -1);
}

#[test]
fn test_arb_detectable_buy_set() {
    let fee_model = ArbFeeModel::new(0);
    let quotes = make_quotes(&[(30, 35), (55, 60)]);
    assert!(fee_model.can_price(&quotes, 1));
    let per_contract_cost = fee_model.per_contract_buy_cost(&quotes);
    assert!(
        per_contract_cost <= 100,
        "This should be an arb: cost={} <= 100",
        per_contract_cost
    );
    assert_eq!(per_contract_cost, 99);
}

#[test]
fn per_contract_sell_revenue_matches_unit_quantity() {
    let fee_model = ArbFeeModel::new(2);
    let quotes = make_quotes(&[(60, 65), (45, 50)]);
    assert!(fee_model.can_price(&quotes, 1));
    assert_eq!(
        fee_model.per_contract_sell_revenue(&quotes),
        fee_model.net_sell_set_revenue(&quotes, 1)
    );
    // (58 - fee(58)) + (43 - fee(43)) with fee 2 each
    assert_eq!(fee_model.per_contract_sell_revenue(&quotes), Some(58 - 2 + 43 - 2));
}

#[test]
fn pricing_range_is_checked() {
    let fee_model = ArbFeeModel::new(0);
    let good = make_quotes(&[(40, 45)]);
    assert!(fee_model.can_price(&good, 1));
    assert!(!fee_model.can_price(&good, 0));
    assert!(!fee_model.can_price(&good, -1));
    assert!(!fee_model.can_price(&good, 1_000_000_001));
    let bad = make_quotes(&[(40, 101)]);
    assert!(!fee_model.can_price(&bad, 1));
    let negative = make_quotes(&[(-1, 10)]);
    assert!(!fee_model.can_price(&negative, 1));
    let wild = ArbFeeModel::new(1_000_001);
    assert!(!wild.can_price(&good, 1));
}
