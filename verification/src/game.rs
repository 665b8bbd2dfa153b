//! The shared ledger: player balances, open bets, and the price table.
//!
//! Players are keyed by the `usize` identifier that registration hands
//! out; identifiers are consecutive indices, so balances and bets live
//! in vectors of the same length. The price table is an association
//! list where the most recent entry for a key stands first.

use vstd::prelude::*;

use crate::fixed::{add_sat, add_sat_spec, mul_fp, mul_fp_spec, SCALE, STARTING_BALANCE};

verus! {

/// One open bet: the asset wagered on, the asset quantity wagered,
/// and the moment the bet started (a monotonic clock reading in
/// milliseconds).
pub struct Bet {
    pub crypto: Vec<u8>,
    pub amount_crypto: u64,
    pub start_time_ms: u64,
}

/// The shared game ledger.
pub struct Game {
    balances: Vec<u64>,
    active_bets: Vec<Option<Bet>>,
    crypto_prices: Vec<(Vec<u8>, u64)>,
}

/// The price an association list gives an asset: the first entry with
/// the key, or 1.0 when the key is unset.
pub open spec fn lookup_price(s: Seq<(Vec<u8>, u64)>, c: Seq<u8>) -> u64
    decreases s.len(),
{
    if s.len() == 0 {
        SCALE
    } else if s[0].0@ == c {
        s[0].1
    } else {
        lookup_price(s.drop_first(), c)
    }
}

impl Game {
    /// Balances and bets are per-player parallel vectors.
    pub closed spec fn wf(self) -> bool {
        self.balances.len() == self.active_bets.len()
    }

    /// How many players have registered.
    pub closed spec fn num_players(self) -> int {
        self.balances.len() as int
    }

    /// A registered player's fiat balance.
    pub closed spec fn balance_of(self, id: int) -> u64 {
        self.balances[id]
    }

    /// A registered player's open bet, if any.
    pub closed spec fn bet_of(self, id: int) -> Option<Bet> {
        self.active_bets[id]
    }

    /// The last price set for an asset, or 1.0 when none was set.
    pub closed spec fn price_of(self, c: Seq<u8>) -> u64 {
        lookup_price(self.crypto_prices@, c)
    }

    /// Creates an empty ledger: no players, no prices.
    pub fn new() -> (g: Game)
        ensures
            g.wf(),
            g.num_players() == 0,
            forall|c: Seq<u8>| #[trigger] g.price_of(c) == SCALE,
    {
        Game { balances: Vec::new(), active_bets: Vec::new(), crypto_prices: Vec::new() }
    }

    /// Registers a new player: allocates the next identifier and sets
    /// the starting balance. Always succeeds; every other player's
    /// state and the price table are untouched.
    pub fn register_user(&mut self) -> (user_id: usize)
        requires
            old(self).wf(),
        ensures
            final(self).wf(),
            user_id as int == old(self).num_players(),
            final(self).num_players() == old(self).num_players() + 1,
            final(self).balance_of(user_id as int) == STARTING_BALANCE,
            final(self).bet_of(user_id as int) is None,
            forall|i: int|
                0 <= i < old(self).num_players() ==> #[trigger] final(self).balance_of(i) == old(self).balance_of(i),
            forall|i: int|
                0 <= i < old(self).num_players() ==> #[trigger] final(self).bet_of(i) == old(self).bet_of(i),
            forall|c: Seq<u8>| #[trigger] final(self).price_of(c) == old(self).price_of(c),
    {
        let user_id = self.balances.len();
        self.balances.push(STARTING_BALANCE);
        self.active_bets.push(None);
        user_id
    }

    /// Places a bet: succeeds exactly when the player is registered
    /// and the balance covers the asset quantity wagered; then the
    /// quantity is debited from the balance (the deliberate
    /// unit-mixing debit) and the bet stored. On failure nothing
    /// changes.
    pub fn place_bet(&mut self, user_id: usize, bet: Bet) -> (r: bool)
        requires
            old(self).wf(),
        ensures
            final(self).wf(),
            final(self).num_players() == old(self).num_players(),
            r == ((user_id as int) < old(self).num_players() && old(self).balance_of(user_id as int) >= bet.amount_crypto),
            r ==> final(self).balance_of(user_id as int) == old(self).balance_of(user_id as int)
                - bet.amount_crypto,
            r ==> final(self).bet_of(user_id as int) == Some(bet),
            !r ==> *final(self) == *old(self),
            forall|i: int|
                0 <= i < old(self).num_players() && i != user_id as int ==> #[trigger] final(self).balance_of(i) == old(self).balance_of(i),
            forall|i: int|
                0 <= i < old(self).num_players() && i != user_id as int ==> #[trigger] final(self).bet_of(i) == old(self).bet_of(i),
            forall|c: Seq<u8>| #[trigger] final(self).price_of(c) == old(self).price_of(c),
    {
        if user_id >= self.balances.len() {
            return false;
        }
        let balance = self.balances[user_id];
        if balance >= bet.amount_crypto {
            self.balances.set(user_id, balance - bet.amount_crypto);
            self.active_bets.set(user_id, Some(bet));
            true
        } else {
            false
        }
    }

    /// Cashes out a player's open bet, if one exists: removes the
    /// bet, computes the winnings `amount_crypto * multiplier`
    /// converted to fiat at the given price (never negative), credits
    /// them, and returns the new balance. Returns `None`, changing
    /// nothing, when the player has no open bet.
    pub fn cash_out(&mut self, user_id: usize, mult: u64, price_per_crypto: u64) -> (r: Option<
        u64,
    >)
        requires
            old(self).wf(),
        ensures
            final(self).wf(),
            final(self).num_players() == old(self).num_players(),
            (r is Some) <==> ((user_id as int) < old(self).num_players() && old(self).bet_of(user_id as int) is Some),
            r matches Some(new_balance) ==> {
                let bet = old(self).bet_of(user_id as int)->Some_0;
                let winnings = mul_fp_spec(
                    mul_fp_spec(bet.amount_crypto as int, mult as int),
                    price_per_crypto as int,
                );
                &&& new_balance as int == add_sat_spec(
                    old(self).balance_of(user_id as int) as int,
                    winnings,
                )
                &&& final(self).balance_of(user_id as int) == new_balance
                &&& final(self).bet_of(user_id as int) is None
            },
            r is None ==> *final(self) == *old(self),
            forall|i: int|
                0 <= i < old(self).num_players() && i != user_id as int ==> #[trigger] final(self).balance_of(i) == old(self).balance_of(i),
            forall|i: int|
                0 <= i < old(self).num_players() && i != user_id as int ==> #[trigger] final(self).bet_of(i) == old(self).bet_of(i),
            forall|c: Seq<u8>| #[trigger] final(self).price_of(c) == old(self).price_of(c),
    {
        if user_id >= self.active_bets.len() {
            return None;
        }
        let amount_crypto: u64 = match &self.active_bets[user_id] {
            Some(b) => b.amount_crypto,
            None => {
                return None;
            },
        };
        self.active_bets.set(user_id, None);
        let winnings_crypto = mul_fp(amount_crypto, mult);
        let winnings_usd = mul_fp(winnings_crypto, price_per_crypto);
        let balance = self.balances[user_id];
        let new_balance = add_sat(balance, winnings_usd);
        self.balances.set(user_id, new_balance);
        Some(new_balance)
    }

    /// Reads a registered player's balance; `None` for an unknown
    /// identifier.
    pub fn get_balance(&self, user_id: usize) -> (r: Option<u64>)
        ensures
            r == if (user_id as int) < self.num_players() {
                Some(self.balance_of(user_id as int))
            } else {
                Option::<u64>::None
            },
    {
        if user_id < self.balances.len() {
            Some(self.balances[user_id])
        } else {
            None
        }
    }

    /// Sets the live price of an asset in the shared price table.
    /// Balances and bets are untouched.
    pub fn set_crypto_price(&mut self, crypto: &Vec<u8>, price: u64)
        requires
            old(self).wf(),
        ensures
            final(self).wf(),
            final(self).num_players() == old(self).num_players(),
            final(self).price_of(crypto@) == price,
            forall|c: Seq<u8>|
                c != crypto@ ==> #[trigger] final(self).price_of(c) == old(self).price_of(c),
            forall|i: int|
                0 <= i < old(self).num_players() ==> #[trigger] final(self).balance_of(i) == old(self).balance_of(i),
            forall|i: int|
                0 <= i < old(self).num_players() ==> #[trigger] final(self).bet_of(i) == old(self).bet_of(i),
    {
        let key = clone_bytes(crypto);
        self.crypto_prices.insert(0, (key, price));
        proof {
            assert(self.crypto_prices@.drop_first() =~= old(self).crypto_prices@);
        }
    }

    /// Reads the live price of an asset: the last value set, or 1.0
    /// when none was ever set.
    pub fn get_crypto_price(&self, crypto: &Vec<u8>) -> (r: u64)
        ensures
            r == self.price_of(crypto@),
    {
        let n = self.crypto_prices.len();
        let mut i: usize = 0;
        proof {
            assert(self.crypto_prices@.skip(0) =~= self.crypto_prices@);
        }
        while i < n
            invariant
                n == self.crypto_prices.len(),
                i <= n,
                lookup_price(self.crypto_prices@, crypto@) == lookup_price(
                    self.crypto_prices@.skip(i as int),
                    crypto@,
                ),
            decreases n - i,
        {
            let entry = &self.crypto_prices[i];
            if bytes_eq(&entry.0, crypto) {
                proof {
                    assert(self.crypto_prices@.skip(i as int)[0] == self.crypto_prices@[i as int]);
                }
                return entry.1;
            }
            proof {
                assert(self.crypto_prices@.skip(i as int).drop_first() =~= self.crypto_prices@.skip(
                    i as int + 1,
                ));
            }
            i = i + 1;
        }
        proof {
            assert(self.crypto_prices@.skip(n as int).len() == 0);
        }
        SCALE
    }
}

/// Byte-string equality.
pub fn bytes_eq(a: &Vec<u8>, b: &Vec<u8>) -> (r: bool)
    ensures
        r == (a@ == b@),
{
    if a.len() != b.len() {
        return false;
    }
    let mut i: usize = 0;
    while i < a.len()
        invariant
            a.len() == b.len(),
            i <= a.len(),
            forall|j: int| 0 <= j < i ==> a@[j] == b@[j],
        decreases a.len() - i,
    {
        if a[i] != b[i] {
            return false;
        }
        i = i + 1;
    }
    proof {
        assert(a@ =~= b@);
    }
    true
}

/// Copies a byte string.
pub fn clone_bytes(a: &Vec<u8>) -> (r: Vec<u8>)
    ensures
        r@ == a@,
{
    let mut out: Vec<u8> = Vec::new();
    let mut i: usize = 0;
    while i < a.len()
        invariant
            i <= a.len(),
            out@ == a@.take(i as int),
        decreases a.len() - i,
    {
        out.push(a[i]);
        proof {
            assert(out@ =~= a@.take(i as int + 1));
        }
        i = i + 1;
    }
    proof {
        assert(out@ =~= a@);
    }
    out
}

} // verus!
