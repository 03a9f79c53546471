use vstd::prelude::*;

use crate::address::Address;
use crate::contract::YourContract;
use crate::counters::lookup_amount;
use crate::env::Env;

verus! {

/// One whole token in base units: 18 decimal places of precision.
pub const WEI_PER_TOKEN: u128 = 1_000_000_000_000_000_000;

/// The 64-bit accumulator after folding the first `n` byte positions of the
/// two addresses: at position `i`, the token byte shifted left by `i mod 8`
/// and the account byte shifted left by `(i + 4) mod 8` are folded in with
/// exclusive or.
pub open spec fn mock_hash(token: Seq<u8>, account: Seq<u8>, n: int) -> u64
    decreases n,
{
    if n <= 0 {
        0u64
    } else {
        let i = n - 1;
        (mock_hash(token, account, i) ^ ((token[i] as u64) << ((i % 8) as u64))) ^ ((account[i]
            as u64) << (((i + 4) % 8) as u64))
    }
}

/// The deterministic pseudo-balance of a `(token, account)` pair: the
/// accumulator over all 20 byte positions, reduced to `1..=10000` and scaled
/// to base units. A pure function of the two addresses alone.
pub open spec fn mock_token_balance(token: Seq<u8>, account: Seq<u8>) -> u128 {
    ((((mock_hash(token, account, 20) as int) % 10000) + 1) * WEI_PER_TOKEN) as u128
}

impl YourContract {
    /// The native-currency balance the environment records for `account`.
    pub fn get_eth_balance(&self, env: &Env, account: Address) -> (r: u128)
        ensures
            r == lookup_amount(env.balances@, account@),
    {
        env.balance_of(&account)
    }

    /// The environment balances of `accounts`, one per input address, in
    /// input order, duplicates preserved.
    pub fn get_eth_balances(&self, env: &Env, accounts: &Vec<Address>) -> (r: Vec<u128>)
        ensures
            r@.len() == accounts@.len(),
            forall|i: int|
                0 <= i < accounts@.len() ==> r@[i] == lookup_amount(env.balances@, accounts@[i]@),
    {
        let mut out: Vec<u128> = Vec::new();
        let mut i: usize = 0;
        while i < accounts.len()
            invariant
                i <= accounts@.len(),
                out@.len() == i,
                forall|j: int|
                    0 <= j < i ==> out@[j] == lookup_amount(env.balances@, accounts@[j]@),
            decreases accounts@.len() - i,
        {
            out.push(env.balance_of(&accounts[i]));
            i = i + 1;
        }
        out
    }

    /// The deterministic pseudo-balance for `(token, account)`: identical
    /// inputs always give the identical output, and the result is always
    /// between one and ten thousand whole tokens.
    pub fn get_mock_token_balance(&self, token: Address, account: Address) -> (r: u128)
        ensures
            r == mock_token_balance(token@, account@),
            WEI_PER_TOKEN <= r <= 10000 * WEI_PER_TOKEN,
    {
        let mut hash: u64 = 0;
        let mut i: usize = 0;
        while i < 20
            invariant
                i <= 20,
                hash == mock_hash(token@, account@, i as int),
            decreases 20 - i,
        {
            hash = hash ^ ((token.bytes[i] as u64) << ((i as u64) % 8));
            hash = hash ^ ((account.bytes[i] as u64) << (((i as u64) + 4) % 8));
            i = i + 1;
        }
        let base: u64 = (hash % 10000) + 1;
        proof {
            assert(1 <= base <= 10000);
            assert((WEI_PER_TOKEN as int) <= (base as int) * (WEI_PER_TOKEN as int) <= 10000 * (
            WEI_PER_TOKEN as int)) by (nonlinear_arith)
                requires
                    1 <= base <= 10000,
            ;
        }
        (base as u128) * WEI_PER_TOKEN
    }

    /// The pseudo-balances of `tokens` for one `account`, in input order.
    pub fn get_mock_token_balances(&self, tokens: &Vec<Address>, account: Address) -> (r: Vec<
        u128,
    >)
        ensures
            r@.len() == tokens@.len(),
            forall|i: int|
                0 <= i < tokens@.len() ==> r@[i] == mock_token_balance(tokens@[i]@, account@),
    {
        let mut out: Vec<u128> = Vec::new();
        let mut i: usize = 0;
        while i < tokens.len()
            invariant
                i <= tokens@.len(),
                out@.len() == i,
                forall|j: int|
                    0 <= j < i ==> out@[j] == mock_token_balance(tokens@[j]@, account@),
            decreases tokens@.len() - i,
        {
            let token = tokens[i];
            out.push(self.get_mock_token_balance(token, account));
            i = i + 1;
        }
        out
    }

    /// The portfolio of one account: its environment balance paired with the
    /// pseudo-balances of `tokens`.
    pub fn get_portfolio(&self, env: &Env, account: Address, tokens: &Vec<Address>) -> (r: (
        u128,
        Vec<u128>,
    ))
        ensures
            r.0 == lookup_amount(env.balances@, account@),
            r.1@.len() == tokens@.len(),
            forall|i: int|
                0 <= i < tokens@.len() ==> r.1@[i] == mock_token_balance(tokens@[i]@, account@),
    {
        let eth_balance = self.get_eth_balance(env, account);
        let token_balances = self.get_mock_token_balances(tokens, account);
        (eth_balance, token_balances)
    }

    /// The portfolios of several accounts at once: the environment balances
    /// in input order, and one pseudo-balance row per account, each row
    /// covering the same `tokens` in input order.
    pub fn get_multiple_portfolios(&self, env: &Env, accounts: &Vec<Address>, tokens: &Vec<
        Address,
    >) -> (r: (Vec<u128>, Vec<Vec<u128>>))
        ensures
            r.0@.len() == accounts@.len(),
            forall|j: int|
                0 <= j < accounts@.len() ==> r.0@[j] == lookup_amount(
                    env.balances@,
                    accounts@[j]@,
                ),
            r.1@.len() == accounts@.len(),
            forall|j: int| 0 <= j < accounts@.len() ==> #[trigger] r.1@[j]@.len() == tokens@.len(),
            forall|j: int, i: int|
                0 <= j < accounts@.len() && 0 <= i < tokens@.len() ==> #[trigger] r.1@[j]@[i]
                    == mock_token_balance(tokens@[i]@, accounts@[j]@),
    {
        let eth_balances = self.get_eth_balances(env, accounts);
        let mut token_balances: Vec<Vec<u128>> = Vec::new();
        let mut j: usize = 0;
        while j < accounts.len()
            invariant
                j <= accounts@.len(),
                token_balances@.len() == j,
                forall|q: int|
                    0 <= q < j ==> #[trigger] token_balances@[q]@.len() == tokens@.len(),
                forall|q: int, i: int|
                    0 <= q < j && 0 <= i < tokens@.len() ==> #[trigger] token_balances@[q]@[i]
                        == mock_token_balance(tokens@[i]@, accounts@[q]@),
            decreases accounts@.len() - j,
        {
            let account = accounts[j];
            let row = self.get_mock_token_balances(tokens, account);
            token_balances.push(row);
            j = j + 1;
        }
        (eth_balances, token_balances)
    }
}

} // verus!
