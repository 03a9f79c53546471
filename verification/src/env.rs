use vstd::prelude::*;

use crate::address::Address;
use crate::counters::lookup;
use crate::counters::lookup_amount;

verus! {

/// A snapshot of the hosting environment's balance sheet, handed in
/// explicitly by the host: the component's own native-currency balance and
/// the balances of whatever accounts a query may touch. An account without
/// an entry reads as zero; the first entry for an address decides.
pub struct Env {
    /// The component's own native-currency balance.
    pub contract_balance: u128,
    /// Native-currency balances by account.
    pub balances: Vec<(Address, u128)>,
}

impl Env {
    /// The balance recorded for `account`; zero when absent.
    pub fn balance_of(&self, account: &Address) -> (r: u128)
        ensures
            r == lookup_amount(self.balances@, account@),
    {
        lookup(&self.balances, account)
    }
}

} // verus!
