use vstd::prelude::*;

use crate::address::is_zero_address;
use crate::address::Address;
use crate::counters::find_key;
use crate::counters::lemma_lookup_absent;
use crate::counters::lemma_lookup_found;
use crate::counters::lemma_lookup_le_sum;
use crate::counters::lemma_lookup_push_other;
use crate::counters::lemma_lookup_update_other;
use crate::counters::lemma_sum_push;
use crate::counters::lemma_sum_update;
use crate::counters::lookup;
use crate::counters::lookup_amount;
use crate::counters::sum_amounts;
use crate::counters::unique_keys;
use crate::env::Env;
use crate::error::Error;
use crate::ownable::Ownable;
use crate::ownable::OwnershipTransferred;

verus! {

/// The change notification produced exactly once per greeting mutation and
/// handed back to the host to emit; it is never stored.
pub struct GreetingChange {
    pub greeting_setter: Address,
    pub new_greeting: String,
    pub premium: bool,
    pub value: u128,
}

/// A request to move native currency, handed to the host to perform.
/// `withdraw` deliberately does not observe whether the host's transfer
/// succeeds.
#[derive(Clone, Copy, PartialEq, Eq, Debug)]
pub struct TransferRequest {
    pub to: Address,
    pub amount: u128,
}

/// The ledger-state component: a single-owner guard, the greeting text with
/// its counters and premium flag, the owner-gated withdrawal decision, and
/// the portfolio queries.
pub struct YourContract {
    pub ownable: Ownable,
    pub greeting: String,
    pub premium: bool,
    pub total_counter: u128,
    pub user_greeting_counter: Vec<(Address, u128)>,
}

impl YourContract {
    /// Internal consistency: no caller holds two counter entries, and the
    /// global counter equals the sum of all per-caller counters.
    pub open spec fn wf(self) -> bool {
        &&& unique_keys(self.user_greeting_counter@)
        &&& self.total_counter == sum_amounts(self.user_greeting_counter@)
    }

    /// The counter recorded for `user`; zero for an unseen address.
    pub open spec fn user_counter_of(self, user: Seq<u8>) -> u128 {
        lookup_amount(self.user_greeting_counter@, user)
    }

    /// A blank component: no owner, empty greeting, nothing counted.
    pub fn new() -> (c: YourContract)
        ensures
            c.wf(),
            is_zero_address(c.ownable.owner@),
            c.greeting@ == Seq::<char>::empty(),
            c.premium == false,
            c.total_counter == 0,
            c.user_greeting_counter@ == Seq::<(Address, u128)>::empty(),
    {
        let c = YourContract {
            ownable: Ownable { owner: Address::zero() },
            greeting: String::new(),
            premium: false,
            total_counter: 0,
            user_greeting_counter: Vec::new(),
        };
        proof {
            assert(sum_amounts(c.user_greeting_counter@) == 0);
        }
        c
    }

    /// Bootstraps the component: grants `initial_owner` ownership, rejecting
    /// the zero address, and sets the fixed initial values of every other
    /// field. A failed call changes nothing.
    pub fn constructor(&mut self, initial_owner: Address) -> (r: Result<(), Error>)
        ensures
            r is Ok <==> !is_zero_address(initial_owner@),
            r is Err ==> r == Err::<(), Error>(Error::InvalidOwner(initial_owner)) && *final(self)
                == *old(self),
            r is Ok ==> ({
                &&& final(self).wf()
                &&& final(self).ownable.owner == initial_owner
                &&& final(self).greeting@ == "Building Unstoppable Apps!!!"@
                &&& final(self).premium == false
                &&& final(self).total_counter == 0
                &&& final(self).user_greeting_counter@ == Seq::<(Address, u128)>::empty()
            }),
    {
        let r = self.ownable.constructor(initial_owner);
        if let Err(e) = r {
            return Err(e);
        }
        self.greeting = String::from_str("Building Unstoppable Apps!!!");
        self.premium = false;
        self.total_counter = 0;
        self.user_greeting_counter = Vec::new();
        proof {
            assert(sum_amounts(self.user_greeting_counter@) == 0);
        }
        Ok(())
    }

    /// The current greeting text.
    pub fn greeting(&self) -> (r: String)
        ensures
            r@ == self.greeting@,
    {
        self.greeting.clone()
    }

    /// The premium flag of the most recent greeting mutation.
    pub fn premium(&self) -> (r: bool)
        ensures
            r == self.premium,
    {
        self.premium
    }

    /// How many greeting mutations have happened in all.
    pub fn total_counter(&self) -> (r: u128)
        ensures
            r == self.total_counter,
    {
        self.total_counter
    }

    /// How many greeting mutations `user` has made; zero for an unseen
    /// address.
    pub fn user_greeting_counter(&self, user: Address) -> (r: u128)
        ensures
            r == self.user_counter_of(user@),
    {
        lookup(&self.user_greeting_counter, &user)
    }

    /// What one greeting mutation by `caller` does to the counters: the
    /// global counter and the caller's counter each grow by exactly one,
    /// and every other address's counter stays as it was.
    pub open spec fn greeting_step(pre: YourContract, post: YourContract, caller: Seq<u8>) -> bool {
        &&& post.total_counter == pre.total_counter + 1
        &&& post.user_counter_of(caller) == pre.user_counter_of(caller) + 1
        &&& forall|a: Seq<u8>|
            a != caller ==> #[trigger] post.user_counter_of(a) == pre.user_counter_of(a)
    }

    /// Replaces the greeting with `new_greeting` verbatim (the empty text is
    /// allowed), increments the global counter and the caller's counter by
    /// exactly one, recomputes the premium flag as `value > 0`, and returns
    /// the change notification for the host to emit. Callable by anyone;
    /// never fails.
    pub fn set_greeting(&mut self, caller: Address, value: u128, new_greeting: String) -> (ev:
        GreetingChange)
        requires
            old(self).wf(),
            old(self).total_counter < u128::MAX,
        ensures
            final(self).wf(),
            final(self).greeting@ == new_greeting@,
            final(self).total_counter == old(self).total_counter + 1,
            final(self).user_counter_of(caller@) == old(self).user_counter_of(caller@) + 1,
            forall|a: Seq<u8>|
                a != caller@ ==> #[trigger] final(self).user_counter_of(a)
                    == old(self).user_counter_of(a),
            final(self).premium == (value > 0),
            final(self).ownable == old(self).ownable,
            YourContract::greeting_step(*old(self), *final(self), caller@),
            ev.greeting_setter == caller,
            ev.new_greeting@ == new_greeting@,
            ev.premium == (value > 0),
            ev.value == value,
    {
        self.greeting = new_greeting.clone();

        let ghost entries0 = self.user_greeting_counter@;
        match find_key(&self.user_greeting_counter, &caller) {
            Some(k) => {
                proof {
                    lemma_lookup_found(entries0, caller@, k as int);
                    lemma_lookup_le_sum(entries0, caller@);
                }
                let key = self.user_greeting_counter[k].0;
                let current = self.user_greeting_counter[k].1;
                self.user_greeting_counter[k] = (key, current + 1);
                proof {
                    let entries1 = self.user_greeting_counter@;
                    assert(entries1 =~= entries0.update(k as int, (key, (current + 1) as u128)));
                    assert(forall|i: int|
                        0 <= i < entries1.len() ==> entries1[i].0@ == entries0[i].0@);
                    lemma_lookup_found(entries1, caller@, k as int);
                    lemma_sum_update(entries0, k as int, (key, (current + 1) as u128));
                    assert forall|a: Seq<u8>| a != caller@ implies lookup_amount(entries1, a)
                        == lookup_amount(entries0, a) by {
                        lemma_lookup_update_other(entries0, k as int, (key, (current + 1) as u128), a);
                    }
                }
            },
            None => {
                proof {
                    lemma_lookup_absent(entries0, caller@);
                }
                self.user_greeting_counter.push((caller, 1));
                proof {
                    let entries1 = self.user_greeting_counter@;
                    assert(entries1 == entries0.push((caller, 1u128)));
                    assert(entries1[entries0.len() as int] == (caller, 1u128));
                    assert(forall|i: int| 0 <= i < entries0.len() ==> entries1[i] == entries0[i]);
                    lemma_lookup_found(entries1, caller@, entries0.len() as int);
                    lemma_sum_push(entries0, (caller, 1u128));
                    assert forall|a: Seq<u8>| a != caller@ implies lookup_amount(entries1, a)
                        == lookup_amount(entries0, a) by {
                        lemma_lookup_push_other(entries0, (caller, 1u128), a);
                    }
                }
            },
        }
        self.total_counter = self.total_counter + 1;
        self.premium = value > 0;
        GreetingChange { greeting_setter: caller, new_greeting, premium: self.premium, value }
    }

    /// The current owner; the zero address once ownership was renounced.
    pub fn owner(&self) -> (r: Address)
        ensures
            r == self.ownable.owner,
    {
        self.ownable.owner()
    }

    /// Moves ownership to `new_owner`. Only the owner may call; the zero
    /// address is rejected; on success the returned notification carries the
    /// old and the new owner. A failed call changes nothing, and no call
    /// touches anything but the owner.
    pub fn transfer_ownership(&mut self, caller: Address, new_owner: Address) -> (r: Result<
        OwnershipTransferred,
        Error,
    >)
        ensures
            r is Ok <==> old(self).ownable.is_owner(caller@) && !is_zero_address(new_owner@),
            !old(self).ownable.is_owner(caller@) ==> r == Err::<OwnershipTransferred, Error>(
                Error::UnauthorizedAccount(caller),
            ),
            old(self).ownable.is_owner(caller@) && is_zero_address(new_owner@) ==> r == Err::<
                OwnershipTransferred,
                Error,
            >(Error::InvalidOwner(new_owner)),
            r is Err ==> *final(self) == *old(self),
            r is Ok ==> ({
                &&& final(self).ownable.owner == new_owner
                &&& r->Ok_0.previous_owner == old(self).ownable.owner
                &&& r->Ok_0.new_owner == new_owner
            }),
            final(self).greeting == old(self).greeting,
            final(self).premium == old(self).premium,
            final(self).total_counter == old(self).total_counter,
            final(self).user_greeting_counter == old(self).user_greeting_counter,
            old(self).wf() ==> final(self).wf(),
    {
        self.ownable.transfer_ownership(caller, new_owner)
    }

    /// Gives ownership up for good: only the owner may call, and the zero
    /// address is recorded as owner afterwards, so every later owner-gated
    /// call from a non-zero caller fails. A failed call changes nothing, and
    /// no call touches anything but the owner.
    pub fn renounce_ownership(&mut self, caller: Address) -> (r: Result<(), Error>)
        ensures
            r is Ok <==> old(self).ownable.is_owner(caller@),
            r is Err ==> r == Err::<(), Error>(Error::UnauthorizedAccount(caller)) && *final(self)
                == *old(self),
            r is Ok ==> is_zero_address(final(self).ownable.owner@),
            final(self).greeting == old(self).greeting,
            final(self).premium == old(self).premium,
            final(self).total_counter == old(self).total_counter,
            final(self).user_greeting_counter == old(self).user_greeting_counter,
            old(self).wf() ==> final(self).wf(),
    {
        self.ownable.renounce_ownership(caller)
    }

    /// The owner-gated withdrawal decision: fails with `UnauthorizedAccount`
    /// for anyone but the owner; for the owner it asks the host to move the
    /// component's whole balance to the owner whenever that balance is
    /// positive. Whether the host's transfer then succeeds is deliberately
    /// not observed, and no state changes either way.
    pub fn withdraw(&self, env: &Env, caller: Address) -> (r: Result<
        Option<TransferRequest>,
        Error,
    >)
        ensures
            r is Ok <==> self.ownable.is_owner(caller@),
            r is Err ==> r == Err::<Option<TransferRequest>, Error>(
                Error::UnauthorizedAccount(caller),
            ),
            r is Ok ==> (match r->Ok_0 {
                Some(t) => env.contract_balance > 0 && t.to == self.ownable.owner && t.amount
                    == env.contract_balance,
                None => env.contract_balance == 0,
            }),
    {
        let guard = self.ownable.only_owner(caller);
        if let Err(e) = guard {
            return Err(e);
        }
        let balance = env.contract_balance;
        if balance > 0 {
            Ok(Some(TransferRequest { to: self.ownable.owner(), amount: balance }))
        } else {
            Ok(None)
        }
    }

    /// Accepts an incoming value transfer: a pure acceptance sink with no
    /// state mutation and no failure path.
    pub fn receive_ether(&self) {
    }
}

/// In a consistent component no single caller's counter exceeds the global
/// counter: the global counter is the sum of all per-caller counters, and
/// every counter is non-negative.
pub proof fn lemma_user_counter_le_total(c: YourContract, a: Seq<u8>)
    requires
        c.wf(),
    ensures
        c.user_counter_of(a) <= c.total_counter,
{
    lemma_lookup_le_sum(c.user_greeting_counter@, a);
}

/// How many of the recorded calls `a` made.
pub open spec fn calls_made_by(callers: Seq<Seq<u8>>, a: Seq<u8>) -> int
    decreases callers.len(),
{
    if callers.len() == 0 {
        0
    } else {
        calls_made_by(callers.drop_last(), a) + if callers.last() == a {
            1int
        } else {
            0int
        }
    }
}

/// After any sequence of greeting mutations — `states` the chain of
/// component states, `callers` the invoking address of each mutation, each
/// adjacent pair related as `set_greeting` ensures — the global counter has
/// grown by exactly the number of calls, and any address's counter by
/// exactly the number of calls that address made.
pub proof fn lemma_counters_count_calls(
    states: Seq<YourContract>,
    callers: Seq<Seq<u8>>,
    a: Seq<u8>,
)
    requires
        states.len() == callers.len() + 1,
        forall|k: int|
            0 <= k < callers.len() ==> #[trigger] YourContract::greeting_step(
                states[k],
                states[k + 1],
                callers[k],
            ),
    ensures
        states.last().total_counter == states[0].total_counter + callers.len(),
        states.last().user_counter_of(a) == states[0].user_counter_of(a) + calls_made_by(
            callers,
            a,
        ),
    decreases callers.len(),
{
    if callers.len() > 0 {
        let n = callers.len() as int;
        assert(forall|k: int|
            0 <= k < n - 1 ==> #[trigger] YourContract::greeting_step(
                states.drop_last()[k],
                states.drop_last()[k + 1],
                callers.drop_last()[k],
            ));
        lemma_counters_count_calls(states.drop_last(), callers.drop_last(), a);
        assert(YourContract::greeting_step(states[n - 1], states[n], callers[n - 1]));
        assert(states.drop_last().last() == states[n - 1]);
        assert(states.drop_last()[0] == states[0]);
    }
}

} // verus!
