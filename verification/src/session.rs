//! The per-connection session state machine.
//!
//! A session is idle or active. `start` places a bet and makes it
//! active, `stop` cashes the bet out and makes it idle again, a
//! periodic tick advances the locally simulated price and reports the
//! position's worth, and `set_price` overrides the shared price table
//! and, for the session's own asset, the local simulation. Message
//! framing and (de)serialization live outside; the session works on
//! plain values and returns the reply to send, if any.

use vstd::prelude::*;

use crate::crypto::{
    base_price_spec, crypto_to_usd, get_base_price, is_supported, is_supported_crypto,
    mark_to_market, multiplier_ms, position_value_spec, simulate_price, usd_to_crypto,
};
use crate::fixed::{add_sat_spec, cap, div_fp_spec, mul_fp_spec, MIN_PRICE, SCALE};
use crate::game::{clone_bytes, Bet, Game};

verus! {

/// The user-facing failures; every one leaves the connection open.
#[derive(Clone, Copy, Debug, PartialEq, Eq, Structural)]
pub enum ErrorKind {
    /// The fiat amount of a `start` could not be read as a number.
    InvalidAmount,
    /// Fiat could not be converted at a non-positive price.
    ConversionFailed,
    /// The balance does not cover the wager.
    InsufficientBalance,
    /// A bet is already open, so a second `start` is rejected.
    BetAlreadyActive,
    /// A cash-out named an asset that is not supported.
    UnsupportedCrypto,
    /// A `stop` arrived with no open bet behind it.
    NoActiveBet,
    /// The incoming message could not be understood at all.
    InvalidMessage,
}

impl ErrorKind {
    /// The wording of each failure.
    pub open spec fn message_spec(self) -> Seq<char> {
        match self {
            ErrorKind::InvalidAmount => "Invalid amount"@,
            ErrorKind::ConversionFailed => "Conversion failed"@,
            ErrorKind::InsufficientBalance => "Insufficient balance"@,
            ErrorKind::BetAlreadyActive => "Bet already active"@,
            ErrorKind::UnsupportedCrypto => "Unsupported crypto type"@,
            ErrorKind::NoActiveBet => "No active bet"@,
            ErrorKind::InvalidMessage => "Invalid message"@,
        }
    }

    /// The message text sent to the player.
    pub fn message(&self) -> (r: &'static str)
        ensures
            r@ == self.message_spec(),
    {
        match self {
            ErrorKind::InvalidAmount => "Invalid amount",
            ErrorKind::ConversionFailed => "Conversion failed",
            ErrorKind::InsufficientBalance => "Insufficient balance",
            ErrorKind::BetAlreadyActive => "Bet already active",
            ErrorKind::UnsupportedCrypto => "Unsupported crypto type",
            ErrorKind::NoActiveBet => "No active bet",
            ErrorKind::InvalidMessage => "Invalid message",
        }
    }
}

/// An outbound message, in fixed-point units.
#[derive(Clone, Copy, Debug, PartialEq, Eq, Structural)]
pub enum ServerMsg {
    /// A price-and-valuation update for the open position.
    PriceUpdate { price: u64, multiplier: u64, usd_value: u64 },
    /// The result of a cash-out: the new balance, the asset quantity
    /// paid out, and its fiat worth.
    CashoutResult { balance: u64, crypto_amount: u64, usd_amount: u64 },
    /// A non-fatal failure.
    Error { kind: ErrorKind },
}

/// One connected player's private view.
pub struct Session {
    /// The ledger identifier handed out at registration.
    pub user_id: usize,
    /// The asset of the open bet, while one is open.
    pub crypto: Option<Vec<u8>>,
    /// The locally simulated price of that asset.
    pub price: u64,
    /// When the open bet started (monotonic milliseconds).
    pub start_time_ms: Option<u64>,
    /// The asset quantity wagered.
    pub bet_amount: Option<u64>,
    /// The fiat stake at placement: the no-loss floor.
    pub initial_usd_value: Option<u64>,
}

impl Session {
    /// The bet-tracking fields are all set or all empty: the session
    /// is wholly active or wholly idle.
    pub open spec fn wf(self) -> bool {
        &&& (self.crypto is Some <==> self.start_time_ms is Some)
        &&& (self.crypto is Some <==> self.bet_amount is Some)
        &&& (self.crypto is Some <==> self.initial_usd_value is Some)
    }

    /// Whether a bet is open.
    pub open spec fn is_active(self) -> bool {
        self.crypto is Some
    }

    /// The session and the ledger agree: the session's open bet
    /// mirrors the ledger's for this player, or neither has one.
    pub open spec fn synced(self, g: Game) -> bool {
        &&& (self.user_id as int) < g.num_players()
        &&& (self.is_active() <==> g.bet_of(self.user_id as int) is Some)
        &&& (self.is_active() ==> {
            let bet = g.bet_of(self.user_id as int)->Some_0;
            &&& bet.amount_crypto == self.bet_amount->Some_0
            &&& bet.crypto@ == self.crypto->Some_0@
        })
    }

    /// Opens a session: registers a fresh player in the ledger and
    /// starts idle, in step with the ledger.
    pub fn new(game: &mut Game) -> (s: Session)
        requires
            old(game).wf(),
        ensures
            final(game).wf(),
            s.wf(),
            !s.is_active(),
            s.price == 0,
            s.user_id as int == old(game).num_players(),
            s.synced(*final(game)),
            final(game).num_players() == old(game).num_players() + 1,
            final(game).balance_of(s.user_id as int) == crate::fixed::STARTING_BALANCE,
            forall|i: int|
                0 <= i < old(game).num_players() ==> #[trigger] final(game).balance_of(i) == old(
                    game,
                ).balance_of(i),
            forall|i: int|
                0 <= i < old(game).num_players() ==> #[trigger] final(game).bet_of(i) == old(
                    game,
                ).bet_of(i),
            forall|c: Seq<u8>| #[trigger] final(game).price_of(c) == old(game).price_of(c),
    {
        let user_id = game.register_user();
        Session {
            user_id,
            crypto: None,
            price: 0,
            start_time_ms: None,
            bet_amount: None,
            initial_usd_value: None,
        }
    }

    /// Handles `start`: sizes the wager at the asset's base price,
    /// places the bet, and becomes active. `amount_micro` is the fiat
    /// amount already read from the message, `None` when it was
    /// unreadable. On any failure nothing changes and an error is
    /// returned; on success there is no reply.
    pub fn handle_start(
        &mut self,
        game: &mut Game,
        amount_micro: Option<u64>,
        crypto: &Vec<u8>,
        now_ms: u64,
    ) -> (r: Option<ServerMsg>)
        requires
            old(self).wf(),
            old(game).wf(),
            (old(self).user_id as int) < old(game).num_players(),
        ensures
            final(self).wf(),
            final(game).wf(),
            final(self).user_id == old(self).user_id,
            final(game).num_players() == old(game).num_players(),
            old(self).synced(*old(game)) ==> final(self).synced(*final(game)),
            forall|c: Seq<u8>| #[trigger] final(game).price_of(c) == old(game).price_of(c),
            forall|i: int|
                0 <= i < old(game).num_players() && i != old(self).user_id as int
                    ==> #[trigger] final(game).balance_of(i) == old(game).balance_of(i),
            forall|i: int|
                0 <= i < old(game).num_players() && i != old(self).user_id as int
                    ==> #[trigger] final(game).bet_of(i) == old(game).bet_of(i),
            old(self).is_active() ==> {
                &&& *final(self) == *old(self)
                &&& *final(game) == *old(game)
                &&& r == Some((ServerMsg::Error { kind: ErrorKind::BetAlreadyActive }))
            },
            !old(self).is_active() ==> match amount_micro {
                None => {
                    &&& *final(self) == *old(self)
                    &&& *final(game) == *old(game)
                    &&& r == Some((ServerMsg::Error { kind: ErrorKind::InvalidAmount }))
                },
                Some(a) => {
                    let price = base_price_spec(crypto@);
                    let qty = div_fp_spec(a as int, price as int);
                    if old(game).balance_of(old(self).user_id as int) >= qty {
                        &&& final(game).balance_of(old(self).user_id as int) == old(
                            game,
                        ).balance_of(old(self).user_id as int) - qty
                        &&& final(game).bet_of(old(self).user_id as int) matches Some(b)
                            && b.amount_crypto as int == qty && b.crypto@ == crypto@
                            && b.start_time_ms == now_ms
                        &&& final(self).is_active()
                        &&& final(self).crypto matches Some(c) && c@ == crypto@
                        &&& final(self).price == price
                        &&& final(self).start_time_ms == Some(now_ms)
                        &&& final(self).bet_amount matches Some(q) && q as int == qty
                        &&& final(self).initial_usd_value == Some(a)
                        &&& r is None
                    } else {
                        &&& *final(self) == *old(self)
                        &&& *final(game) == *old(game)
                        &&& r == Some((ServerMsg::Error { kind: ErrorKind::InsufficientBalance }))
                    }
                },
            },
    {
        if self.crypto.is_some() {
            return Some(ServerMsg::Error { kind: ErrorKind::BetAlreadyActive });
        }
        let usd = match amount_micro {
            Some(a) => a,
            None => {
                return Some(ServerMsg::Error { kind: ErrorKind::InvalidAmount });
            },
        };
        let price = get_base_price(crypto);
        let amt_crypto = match usd_to_crypto(usd, crypto, price) {
            Some(q) => q,
            None => {
                // A base price is never zero, so conversion cannot fail
                // here; the branch mirrors the conversion's interface.
                return Some(ServerMsg::Error { kind: ErrorKind::ConversionFailed });
            },
        };
        let bet = Bet {
            crypto: clone_bytes(crypto),
            amount_crypto: amt_crypto,
            start_time_ms: now_ms,
        };
        let placed = game.place_bet(self.user_id, bet);
        if !placed {
            return Some(ServerMsg::Error { kind: ErrorKind::InsufficientBalance });
        }
        self.crypto = Some(clone_bytes(crypto));
        self.price = price;
        self.start_time_ms = Some(now_ms);
        self.bet_amount = Some(amt_crypto);
        self.initial_usd_value = Some(usd);
        None
    }

    /// Handles `stop`: computes the time-based multiplier and the
    /// payout at the locally simulated price, applies the no-loss
    /// floor, cashes out in the ledger, and returns to idle. With no
    /// open bet nothing changes; with an unsupported asset nothing
    /// changes either; when the ledger has lost the bet (a
    /// desynchronization) the local state is still cleared.
    pub fn handle_stop(&mut self, game: &mut Game, now_ms: u64) -> (r: ServerMsg)
        requires
            old(self).wf(),
            old(game).wf(),
            (old(self).user_id as int) < old(game).num_players(),
            old(self).start_time_ms matches Some(t) ==> now_ms >= t,
        ensures
            final(self).wf(),
            final(game).wf(),
            final(self).user_id == old(self).user_id,
            final(self).price == old(self).price,
            final(game).num_players() == old(game).num_players(),
            old(self).synced(*old(game)) ==> final(self).synced(*final(game)),
            forall|c: Seq<u8>| #[trigger] final(game).price_of(c) == old(game).price_of(c),
            forall|i: int|
                0 <= i < old(game).num_players() && i != old(self).user_id as int
                    ==> #[trigger] final(game).balance_of(i) == old(game).balance_of(i),
            forall|i: int|
                0 <= i < old(game).num_players() && i != old(self).user_id as int
                    ==> #[trigger] final(game).bet_of(i) == old(game).bet_of(i),
            // The no-loss floor: a cash-out never pays out less fiat
            // than was originally wagered.
            r matches ServerMsg::CashoutResult { usd_amount, .. } ==> usd_amount >= old(
                self,
            ).initial_usd_value->Some_0,
            !old(self).is_active() ==> {
                &&& *final(self) == *old(self)
                &&& *final(game) == *old(game)
                &&& r == (ServerMsg::Error { kind: ErrorKind::NoActiveBet })
            },
            old(self).is_active() && !is_supported(old(self).crypto->Some_0@) ==> {
                &&& *final(self) == *old(self)
                &&& *final(game) == *old(game)
                &&& r == (ServerMsg::Error { kind: ErrorKind::UnsupportedCrypto })
            },
            old(self).is_active() && is_supported(old(self).crypto->Some_0@) ==> {
                let t = old(self).start_time_ms->Some_0;
                let qty = old(self).bet_amount->Some_0;
                let init = old(self).initial_usd_value->Some_0;
                let m = cap(SCALE as int + (now_ms - t) * 10);
                let crypto_amount = mul_fp_spec(qty as int, m);
                let calculated = mul_fp_spec(crypto_amount, old(self).price as int);
                let usd_amount = vstd::math::max(calculated, init as int);
                &&& !final(self).is_active()
                &&& match old(game).bet_of(old(self).user_id as int) {
                    Some(bet) => {
                        let winnings = mul_fp_spec(
                            mul_fp_spec(bet.amount_crypto as int, m),
                            old(self).price as int,
                        );
                        let nb = add_sat_spec(
                            old(game).balance_of(old(self).user_id as int) as int,
                            winnings,
                        );
                        &&& final(game).bet_of(old(self).user_id as int) is None
                        &&& final(game).balance_of(old(self).user_id as int) as int == nb
                        &&& r == (ServerMsg::CashoutResult {
                            balance: nb as u64,
                            crypto_amount: crypto_amount as u64,
                            usd_amount: usd_amount as u64,
                        })
                    },
                    None => {
                        &&& *final(game) == *old(game)
                        &&& r == (ServerMsg::Error { kind: ErrorKind::NoActiveBet })
                    },
                }
            },
    {
        let qty = match self.bet_amount {
            Some(q) => q,
            None => {
                return ServerMsg::Error { kind: ErrorKind::NoActiveBet };
            },
        };
        let supported = match &self.crypto {
            Some(c) => is_supported_crypto(c),
            None => false,
        };
        if !supported {
            return ServerMsg::Error { kind: ErrorKind::UnsupportedCrypto };
        }
        let start = match self.start_time_ms {
            Some(t) => t,
            None => {
                return ServerMsg::Error { kind: ErrorKind::NoActiveBet };
            },
        };
        let m = multiplier_ms(now_ms - start);
        let price_per_crypto = self.price;
        let crypto_amount = crate::fixed::mul_fp(qty, m);
        let calculated = crypto_to_usd(crypto_amount, price_per_crypto);
        let usd_amount = match self.initial_usd_value {
            Some(init) => crate::fixed::max_u64(calculated, init),
            None => calculated,
        };
        let result = game.cash_out(self.user_id, m, price_per_crypto);
        self.crypto = None;
        self.start_time_ms = None;
        self.bet_amount = None;
        self.initial_usd_value = None;
        match result {
            Some(new_bal) => ServerMsg::CashoutResult {
                balance: new_bal,
                crypto_amount,
                usd_amount,
            },
            None => ServerMsg::Error { kind: ErrorKind::NoActiveBet },
        }
    }

    /// Handles `set_price`: writes the shared price table, overrides
    /// the local simulation when the named asset is the session's own,
    /// and echoes an update with the multiplier displayed as 1.0.
    pub fn handle_set_price(&mut self, game: &mut Game, crypto: &Vec<u8>, price: u64) -> (r:
        ServerMsg)
        requires
            old(self).wf(),
            old(game).wf(),
        ensures
            final(self).wf(),
            final(game).wf(),
            final(self).user_id == old(self).user_id,
            final(self).crypto == old(self).crypto,
            final(self).start_time_ms == old(self).start_time_ms,
            final(self).bet_amount == old(self).bet_amount,
            final(self).initial_usd_value == old(self).initial_usd_value,
            final(game).num_players() == old(game).num_players(),
            old(self).synced(*old(game)) ==> final(self).synced(*final(game)),
            final(game).price_of(crypto@) == price,
            forall|c: Seq<u8>|
                c != crypto@ ==> #[trigger] final(game).price_of(c) == old(game).price_of(c),
            forall|i: int|
                0 <= i < old(game).num_players() ==> #[trigger] final(game).balance_of(i) == old(
                    game,
                ).balance_of(i),
            forall|i: int|
                0 <= i < old(game).num_players() ==> #[trigger] final(game).bet_of(i) == old(
                    game,
                ).bet_of(i),
            final(self).price == if old(self).crypto matches Some(c) && c@ == crypto@ {
                price
            } else {
                old(self).price
            },
            r == (ServerMsg::PriceUpdate {
                price,
                multiplier: SCALE,
                usd_value: match old(self).bet_amount {
                    Some(a) => mul_fp_spec(a as int, price as int) as u64,
                    None => 0u64,
                },
            }),
    {
        game.set_crypto_price(crypto, price);
        let is_current = match &self.crypto {
            Some(c) => crate::game::bytes_eq(c, crypto),
            None => false,
        };
        if is_current {
            self.price = price;
        }
        let usd_value = match self.bet_amount {
            Some(a) => crate::fixed::mul_fp(a, price),
            None => 0,
        };
        ServerMsg::PriceUpdate { price, multiplier: SCALE, usd_value }
    }

    /// One periodic tick: with no asset selected it does nothing;
    /// otherwise it advances the locally simulated price one random
    /// step and reports the position's current worth, floored at the
    /// initial stake. Only the local price changes.
    pub fn tick(&mut self, now_ms: u64) -> (r: Option<ServerMsg>)
        requires
            old(self).wf(),
            old(self).start_time_ms matches Some(t) ==> now_ms >= t,
        ensures
            final(self).wf(),
            final(self).user_id == old(self).user_id,
            final(self).crypto == old(self).crypto,
            final(self).start_time_ms == old(self).start_time_ms,
            final(self).bet_amount == old(self).bet_amount,
            final(self).initial_usd_value == old(self).initial_usd_value,
            !old(self).is_active() ==> *final(self) == *old(self) && r is None,
            // The no-loss floor: the reported worth of an open
            // position never drops below the initial stake.
            r matches Some(ServerMsg::PriceUpdate { usd_value, .. }) ==> usd_value >= old(
                self,
            ).initial_usd_value->Some_0,
            old(self).is_active() ==> {
                let t = old(self).start_time_ms->Some_0;
                let qty = old(self).bet_amount->Some_0;
                let init = old(self).initial_usd_value->Some_0;
                let m = cap(SCALE as int + (now_ms - t) * 10);
                &&& final(self).price >= MIN_PRICE
                &&& r == Some((ServerMsg::PriceUpdate {
                    price: final(self).price,
                    multiplier: m as u64,
                    usd_value: vstd::math::max(
                        position_value_spec(qty as int, m, final(self).price as int),
                        init as int,
                    ) as u64,
                }))
            },
    {
        if self.crypto.is_none() {
            return None;
        }
        self.price = simulate_price(self.price);
        let start = match self.start_time_ms {
            Some(t) => t,
            None => {
                return None;
            },
        };
        let m = multiplier_ms(now_ms - start);
        let qty = match self.bet_amount {
            Some(a) => a,
            None => {
                return None;
            },
        };
        let usd_value = mark_to_market(qty, m, self.price, self.initial_usd_value);
        Some(ServerMsg::PriceUpdate { price: self.price, multiplier: m, usd_value })
    }
}

} // verus!
