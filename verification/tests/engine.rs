use crash_game::crypto::{
    crypto_to_usd, get_base_price, multiplier, multiplier_ms, mark_to_market, simulate_price,
    usd_to_crypto,
};
use crash_game::fixed::{balance_parts, MIN_PRICE, SCALE, STARTING_BALANCE};
use crash_game::game::{Bet, Game};
use crash_game::session::{ErrorKind, ServerMsg, Session};

fn sol() -> Vec<u8> {
    b"sol".to_vec()
}

fn eth() -> Vec<u8> {
    b"eth".to_vec()
}

#[test]
fn price_floor_holds_over_many_steps() {
    // P1: for all positive currents the next price is at least 0.01.
    let mut price: u64 = 150_000_000;
    for _ in 0..2000 {
        price = simulate_price(price);
        assert!(price >= MIN_PRICE);
    }
    // Even a price already at the floor stays at or above it.
    for _ in 0..200 {
        let p = simulate_price(MIN_PRICE);
        assert!(p >= MIN_PRICE);
    }
}

#[test]
fn simulated_step_is_a_bounded_move() {
    // One step never moves more than the documented maximum total
    // change (26% in fixed point, with slack for truncation).
    for _ in 0..2000 {
        let p = simulate_price(150_000_000);
        assert!(p >= 150_000_000 - 150_000_000 / 100 * 26);
        assert!(p <= 150_000_000 + 150_000_000 / 100 * 26);
    }
}

#[test]
fn conversion_fails_exactly_on_zero_price() {
    // P2: to_asset fails iff the price is not positive.
    assert_eq!(usd_to_crypto(100_000_000, &sol(), 0), None);
    assert_eq!(usd_to_crypto(0, &sol(), 0), None);
    assert!(usd_to_crypto(100_000_000, &sol(), 1).is_some());
    assert!(usd_to_crypto(0, &sol(), 150_000_000).is_some());
}

#[test]
fn conversion_round_trip_is_tight() {
    // P2: converting fiat to an asset quantity and back loses only
    // fixed-point truncation: at most one price step scaled down.
    let cases: [(u64, u64); 4] = [
        (100_000_000, 150_000_000),
        (1_000_000, 3_000_000),
        (999_999, 7),
        (123_456_789, 2_000_000_000),
    ];
    for (f, p) in cases {
        let q = usd_to_crypto(f, &sol(), p).unwrap();
        let back = crypto_to_usd(q, p);
        assert!(back <= f);
        assert!((f as u128) * (SCALE as u128) < (back as u128) * (SCALE as u128) + p as u128 + SCALE as u128);
    }
    // The worked example: 100.0 at price 150.0 and back.
    let q = usd_to_crypto(100_000_000, &sol(), 150_000_000).unwrap();
    assert_eq!(q, 666_666);
    assert_eq!(crypto_to_usd(q, 150_000_000), 99_999_900);
}

#[test]
fn fresh_player_starts_with_one_thousand() {
    // P3: the starting balance is exactly 1000.0.
    let mut g = Game::new();
    let id = g.register_user();
    assert_eq!(g.get_balance(id), Some(STARTING_BALANCE));
    assert_eq!(STARTING_BALANCE, 1_000_000_000);
    let id2 = g.register_user();
    assert_ne!(id, id2);
    assert_eq!(g.get_balance(id2), Some(1_000_000_000));
}

#[test]
fn bet_beyond_balance_is_rejected_and_harmless() {
    // P4: placing a bet larger than the balance fails and leaves the
    // balance unchanged.
    let mut g = Game::new();
    let id = g.register_user();
    let bet = Bet { crypto: sol(), amount_crypto: STARTING_BALANCE + 1, start_time_ms: 0 };
    assert!(!g.place_bet(id, bet));
    assert_eq!(g.get_balance(id), Some(STARTING_BALANCE));
}

#[test]
fn bet_and_cash_out_move_the_balance_exactly() {
    // P5: a successful bet debits exactly the wagered quantity; a
    // cash-out credits exactly the computed winnings and removes the
    // open bet.
    let mut g = Game::new();
    let id = g.register_user();
    let bet = Bet { crypto: sol(), amount_crypto: 666_666, start_time_ms: 0 };
    assert!(g.place_bet(id, bet));
    assert_eq!(g.get_balance(id), Some(STARTING_BALANCE - 666_666));

    // Multiplier 1.0, price 150.0: winnings are 666_666 * 150 fiat.
    let nb = g.cash_out(id, SCALE, 150_000_000);
    assert_eq!(nb, Some(STARTING_BALANCE - 666_666 + 99_999_900));
    assert_eq!(g.get_balance(id), nb);
    // The bet is gone: a second cash-out finds nothing.
    assert_eq!(g.cash_out(id, SCALE, 150_000_000), None);
    assert_eq!(g.get_balance(id), nb);
}

#[test]
fn mark_to_market_respects_the_floor() {
    // P6: with a floor given, the value never drops below it.
    let v = mark_to_market(666_666, SCALE, 150_000_000, Some(100_000_000));
    assert_eq!(v, 100_000_000);
    let collapsed = mark_to_market(666_666, SCALE, MIN_PRICE, Some(100_000_000));
    assert_eq!(collapsed, 100_000_000);
    // Above the floor the raw value wins.
    let grown = mark_to_market(666_666, 2_000_000, 150_000_000, Some(100_000_000));
    assert_eq!(grown, 199_999_800);
    // Without a floor the raw value is returned as is.
    assert_eq!(mark_to_market(666_666, SCALE, MIN_PRICE, None), 6_666);
}

#[test]
fn multiplier_formula_at_known_points() {
    // P7: multiplier(0) is 1.0 and multiplier(100) is 2.0.
    assert_eq!(multiplier(0), SCALE);
    assert_eq!(multiplier(100), 2_000_000);
    assert_eq!(multiplier(50), 1_500_000);
    // The millisecond form agrees on whole seconds.
    assert_eq!(multiplier_ms(0), multiplier(0));
    assert_eq!(multiplier_ms(100_000), multiplier(100));
    assert_eq!(multiplier_ms(1_500), 1_015_000);
}

#[test]
fn start_and_immediate_stop_pays_the_floor() {
    // P8: register (1000), start 100.0 on sol (base 150.0): the
    // wager is ~0.6667 sol and the balance becomes ~999.333; an
    // immediate stop at the unchanged price pays the 100.0 floor.
    let mut g = Game::new();
    let mut s = Session::new(&mut g);
    assert_eq!(g.get_balance(s.user_id), Some(1_000_000_000));

    let r = s.handle_start(&mut g, Some(100_000_000), &sol(), 0);
    assert_eq!(r, None);
    assert_eq!(g.get_balance(s.user_id), Some(999_333_334));
    assert_eq!(s.bet_amount, Some(666_666));
    assert_eq!(s.price, 150_000_000);
    assert_eq!(s.initial_usd_value, Some(100_000_000));

    let out = s.handle_stop(&mut g, 0);
    assert_eq!(
        out,
        ServerMsg::CashoutResult {
            balance: 1_099_333_234,
            crypto_amount: 666_666,
            usd_amount: 100_000_000,
        }
    );
    assert!(s.crypto.is_none());
    assert_eq!(g.get_balance(s.user_id), Some(1_099_333_234));
    let (whole, cents) = balance_parts(1_099_333_234);
    assert_eq!((whole, cents), (1099, 33));
}

#[test]
fn set_price_updates_table_but_not_base_price() {
    // P9: set_price for eth while idle updates the shared table; a
    // later start still sizes the wager at the fixed base price.
    let mut g = Game::new();
    let mut s = Session::new(&mut g);
    let out = s.handle_set_price(&mut g, &eth(), 2_500_000_000);
    assert_eq!(
        out,
        ServerMsg::PriceUpdate { price: 2_500_000_000, multiplier: SCALE, usd_value: 0 }
    );
    assert_eq!(g.get_crypto_price(&eth()), 2_500_000_000);

    let r = s.handle_start(&mut g, Some(100_000_000), &eth(), 0);
    assert_eq!(r, None);
    // 100.0 at the base price 2000.0, not at the live 2500.0.
    assert_eq!(s.bet_amount, Some(50_000));
    assert_eq!(s.price, 2_000_000_000);
}

#[test]
fn stop_without_start_is_a_no_active_bet_error() {
    // P10: stop with no prior start reports "No active bet" and
    // changes no balance.
    let mut g = Game::new();
    let mut s = Session::new(&mut g);
    let out = s.handle_stop(&mut g, 0);
    assert_eq!(out, ServerMsg::Error { kind: ErrorKind::NoActiveBet });
    assert_eq!(ErrorKind::NoActiveBet.message(), "No active bet");
    assert_eq!(g.get_balance(s.user_id), Some(STARTING_BALANCE));
}

#[test]
fn base_prices_are_case_insensitive_with_default() {
    assert_eq!(get_base_price(&sol()), 150_000_000);
    assert_eq!(get_base_price(&b"SOL".to_vec()), 150_000_000);
    assert_eq!(get_base_price(&b"Eth".to_vec()), 2_000_000_000);
    assert_eq!(get_base_price(&eth()), 2_000_000_000);
    assert_eq!(get_base_price(&b"doge".to_vec()), SCALE);
    assert_eq!(get_base_price(&b"".to_vec()), SCALE);
}

#[test]
fn price_table_defaults_and_overwrites() {
    let mut g = Game::new();
    assert_eq!(g.get_crypto_price(&sol()), SCALE);
    g.set_crypto_price(&sol(), 200_000_000);
    assert_eq!(g.get_crypto_price(&sol()), 200_000_000);
    g.set_crypto_price(&sol(), 120_000_000);
    assert_eq!(g.get_crypto_price(&sol()), 120_000_000);
    assert_eq!(g.get_crypto_price(&eth()), SCALE);
}

#[test]
fn unreadable_amount_is_an_input_error() {
    let mut g = Game::new();
    let mut s = Session::new(&mut g);
    let r = s.handle_start(&mut g, None, &sol(), 0);
    assert_eq!(r, Some(ServerMsg::Error { kind: ErrorKind::InvalidAmount }));
    assert_eq!(ErrorKind::InvalidAmount.message(), "Invalid amount");
    assert!(s.crypto.is_none());
    assert_eq!(g.get_balance(s.user_id), Some(STARTING_BALANCE));
}

#[test]
fn insufficient_balance_is_reported_and_harmless() {
    let mut g = Game::new();
    let mut s = Session::new(&mut g);
    // 200000.0 fiat at base 150.0 is ~1333.3 sol, more than 1000.
    let r = s.handle_start(&mut g, Some(200_000_000_000), &sol(), 0);
    assert_eq!(r, Some(ServerMsg::Error { kind: ErrorKind::InsufficientBalance }));
    assert_eq!(ErrorKind::InsufficientBalance.message(), "Insufficient balance");
    assert!(s.crypto.is_none());
    assert_eq!(g.get_balance(s.user_id), Some(STARTING_BALANCE));
}

#[test]
fn second_start_while_active_is_rejected() {
    let mut g = Game::new();
    let mut s = Session::new(&mut g);
    assert_eq!(s.handle_start(&mut g, Some(100_000_000), &sol(), 0), None);
    let balance_after = g.get_balance(s.user_id);
    let r = s.handle_start(&mut g, Some(100_000_000), &sol(), 1_000);
    assert_eq!(r, Some(ServerMsg::Error { kind: ErrorKind::BetAlreadyActive }));
    assert_eq!(g.get_balance(s.user_id), balance_after);
    assert_eq!(s.start_time_ms, Some(0));
}

#[test]
fn stop_on_unsupported_asset_keeps_the_bet() {
    let mut g = Game::new();
    let mut s = Session::new(&mut g);
    // "doge" has base price 1.0, so 100.0 buys 100.0 of it.
    assert_eq!(s.handle_start(&mut g, Some(100_000_000), &b"doge".to_vec(), 0), None);
    let out = s.handle_stop(&mut g, 0);
    assert_eq!(out, ServerMsg::Error { kind: ErrorKind::UnsupportedCrypto });
    assert_eq!(ErrorKind::UnsupportedCrypto.message(), "Unsupported crypto type");
    // The bet is still open, locally and in the ledger.
    assert!(s.crypto.is_some());
    assert_eq!(g.get_balance(s.user_id), Some(900_000_000));
}

#[test]
fn ledger_desync_on_stop_clears_the_session() {
    let mut g = Game::new();
    let mut s = Session::new(&mut g);
    assert_eq!(s.handle_start(&mut g, Some(100_000_000), &sol(), 0), None);
    // The ledger loses the bet behind the session's back.
    assert!(g.cash_out(s.user_id, SCALE, 150_000_000).is_some());
    let out = s.handle_stop(&mut g, 0);
    assert_eq!(out, ServerMsg::Error { kind: ErrorKind::NoActiveBet });
    assert!(s.crypto.is_none());
    assert!(s.bet_amount.is_none());
}

#[test]
fn idle_tick_is_silent() {
    let mut g = Game::new();
    let mut s = Session::new(&mut g);
    assert_eq!(s.tick(1_000), None);
    assert_eq!(s.price, 0);
}

#[test]
fn active_tick_reports_a_floored_valuation() {
    let mut g = Game::new();
    let mut s = Session::new(&mut g);
    assert_eq!(s.handle_start(&mut g, Some(100_000_000), &sol(), 0), None);
    match s.tick(5_000) {
        Some(ServerMsg::PriceUpdate { price, multiplier: m, usd_value }) => {
            assert!(price >= MIN_PRICE);
            assert_eq!(price, s.price);
            assert_eq!(m, 1_050_000);
            // The no-loss floor: never shown below the initial stake.
            assert!(usd_value >= 100_000_000);
        }
        other => panic!("expected a price update, got {:?}", other),
    }
}

#[test]
fn set_price_overrides_the_session_price_of_the_active_asset() {
    let mut g = Game::new();
    let mut s = Session::new(&mut g);
    assert_eq!(s.handle_start(&mut g, Some(100_000_000), &sol(), 0), None);
    let out = s.handle_set_price(&mut g, &sol(), 300_000_000);
    // The echoed update shows the new price, a display multiplier of
    // 1.0, and the wager revalued at the new price.
    assert_eq!(
        out,
        ServerMsg::PriceUpdate {
            price: 300_000_000,
            multiplier: SCALE,
            usd_value: 199_999_800,
        }
    );
    assert_eq!(s.price, 300_000_000);
    // A different asset leaves the local price alone.
    let out2 = s.handle_set_price(&mut g, &eth(), 2_500_000_000);
    assert_eq!(
        out2,
        ServerMsg::PriceUpdate {
            price: 2_500_000_000,
            multiplier: SCALE,
            usd_value: 1_666_665_000,
        }
    );
    assert_eq!(s.price, 300_000_000);
    assert_eq!(g.get_crypto_price(&sol()), 300_000_000);
    assert_eq!(g.get_crypto_price(&eth()), 2_500_000_000);
}

#[test]
fn balance_parts_truncate_to_cents() {
    assert_eq!(balance_parts(1_000_000_000), (1000, 0));
    assert_eq!(balance_parts(999_333_334), (999, 33));
    assert_eq!(balance_parts(1_099_339_999), (1099, 33));
    assert_eq!(balance_parts(10_000), (0, 1));
    assert_eq!(balance_parts(9_999), (0, 0));
}
