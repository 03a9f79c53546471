use your_contract::address::Address;
use your_contract::contract::YourContract;
use your_contract::env::Env;
use your_contract::error::Error;

#[test]
fn test_your_contract() {
    let mut contract = YourContract::new();

    let owner_addr = Address::new([1u8; 20]);
    let _ = contract.constructor(owner_addr);

    assert_eq!(contract.owner(), owner_addr);
    assert_eq!(contract.greeting(), "Building Unstoppable Apps!!!");
    assert_eq!(contract.premium(), false);
    assert_eq!(contract.total_counter(), 0);

    let sender = Address::new([2u8; 20]);
    contract.set_greeting(sender, 0, "Hello World".to_string());
    assert_eq!(contract.greeting(), "Hello World");
    assert_eq!(contract.premium(), false);
    assert_eq!(contract.total_counter(), 1);

    assert_eq!(contract.user_greeting_counter(sender), 1);

    contract.set_greeting(sender, 100, "Premium Hello".to_string());
    assert_eq!(contract.greeting(), "Premium Hello");
    assert_eq!(contract.premium(), true);
    assert_eq!(contract.total_counter(), 2);
    assert_eq!(contract.user_greeting_counter(sender), 2);
}

#[test]
fn constructor_rejects_zero_owner() {
    let mut contract = YourContract::new();
    let zero = Address::zero();
    assert_eq!(contract.constructor(zero), Err(Error::InvalidOwner(zero)));
}

#[test]
fn transfer_ownership_guard_and_validity() {
    let mut contract = YourContract::new();
    let owner = Address::new([1u8; 20]);
    contract.constructor(owner).unwrap();

    let outsider = Address::new([9u8; 20]);
    let target = Address::new([3u8; 20]);

    // A non-owner caller fails with UnauthorizedAccount, owner unchanged.
    assert_eq!(
        contract.transfer_ownership(outsider, target),
        Err(Error::UnauthorizedAccount(outsider))
    );
    assert_eq!(contract.owner(), owner);

    // The owner handing over to the zero address fails with InvalidOwner.
    let zero = Address::zero();
    assert_eq!(
        contract.transfer_ownership(owner, zero),
        Err(Error::InvalidOwner(zero))
    );
    assert_eq!(contract.owner(), owner);

    // The owner handing over to a valid address succeeds and the
    // notification carries the old and new owner.
    let ev = contract.transfer_ownership(owner, target).unwrap();
    assert_eq!(contract.owner(), target);
    assert_eq!(ev.previous_owner, owner);
    assert_eq!(ev.new_owner, target);
}

#[test]
fn renounce_locks_all_gated_operations() {
    let mut contract = YourContract::new();
    let owner = Address::new([1u8; 20]);
    contract.constructor(owner).unwrap();

    contract.renounce_ownership(owner).unwrap();
    assert_eq!(contract.owner(), Address::zero());

    // Every later owner-gated call fails with UnauthorizedAccount, the old
    // owner included.
    let env = Env { contract_balance: 42, balances: Vec::new() };
    assert_eq!(
        contract.withdraw(&env, owner),
        Err(Error::UnauthorizedAccount(owner))
    );
    let target = Address::new([3u8; 20]);
    assert_eq!(
        contract.transfer_ownership(owner, target),
        Err(Error::UnauthorizedAccount(owner))
    );
    assert_eq!(
        contract.renounce_ownership(owner),
        Err(Error::UnauthorizedAccount(owner))
    );
}

#[test]
fn renounce_by_non_owner_fails() {
    let mut contract = YourContract::new();
    let owner = Address::new([1u8; 20]);
    contract.constructor(owner).unwrap();

    let outsider = Address::new([9u8; 20]);
    assert_eq!(
        contract.renounce_ownership(outsider),
        Err(Error::UnauthorizedAccount(outsider))
    );
    assert_eq!(contract.owner(), owner);
}

#[test]
fn counters_track_each_caller() {
    let mut contract = YourContract::new();
    let owner = Address::new([1u8; 20]);
    contract.constructor(owner).unwrap();

    let alice = Address::new([10u8; 20]);
    let bob = Address::new([11u8; 20]);

    contract.set_greeting(alice, 0, "a".to_string());
    contract.set_greeting(bob, 0, "b".to_string());
    contract.set_greeting(alice, 0, "c".to_string());
    contract.set_greeting(alice, 0, "d".to_string());

    assert_eq!(contract.total_counter(), 4);
    assert_eq!(contract.user_greeting_counter(alice), 3);
    assert_eq!(contract.user_greeting_counter(bob), 1);
    // An unseen address reads as zero, and the per-caller counters sum to
    // the global counter.
    let carol = Address::new([12u8; 20]);
    assert_eq!(contract.user_greeting_counter(carol), 0);
    assert_eq!(
        contract.user_greeting_counter(alice) + contract.user_greeting_counter(bob),
        contract.total_counter()
    );
}

#[test]
fn premium_follows_the_attached_value_of_each_call() {
    let mut contract = YourContract::new();
    let owner = Address::new([1u8; 20]);
    contract.constructor(owner).unwrap();

    let sender = Address::new([2u8; 20]);
    let ev1 = contract.set_greeting(sender, 1, "x".to_string());
    assert!(contract.premium());
    assert!(ev1.premium);

    // The next call with no attached value clears the flag again: it
    // depends on that call alone, not on history.
    let ev2 = contract.set_greeting(sender, 0, "y".to_string());
    assert!(!contract.premium());
    assert!(!ev2.premium);
    assert_eq!(ev2.value, 0);
    assert_eq!(ev2.greeting_setter, sender);
    assert_eq!(ev2.new_greeting, "y");
}

#[test]
fn set_greeting_allows_empty_text() {
    let mut contract = YourContract::new();
    let owner = Address::new([1u8; 20]);
    contract.constructor(owner).unwrap();

    let sender = Address::new([2u8; 20]);
    contract.set_greeting(sender, 0, String::new());
    assert_eq!(contract.greeting(), "");
    assert_eq!(contract.total_counter(), 1);
}

#[test]
fn withdraw_hands_the_whole_balance_to_the_owner() {
    let mut contract = YourContract::new();
    let owner = Address::new([1u8; 20]);
    contract.constructor(owner).unwrap();

    let env = Env { contract_balance: 1_000, balances: Vec::new() };
    let request = contract.withdraw(&env, owner).unwrap().unwrap();
    assert_eq!(request.to, owner);
    assert_eq!(request.amount, 1_000);

    // With nothing to move, the call still succeeds and asks for no
    // transfer.
    let empty_env = Env { contract_balance: 0, balances: Vec::new() };
    assert_eq!(contract.withdraw(&empty_env, owner), Ok(None));

    // A non-owner fails before any balance is looked at.
    let outsider = Address::new([9u8; 20]);
    assert_eq!(
        contract.withdraw(&env, outsider),
        Err(Error::UnauthorizedAccount(outsider))
    );
}

#[test]
fn receive_ether_accepts_value_silently() {
    let mut contract = YourContract::new();
    let owner = Address::new([1u8; 20]);
    contract.constructor(owner).unwrap();
    contract.receive_ether();
    assert_eq!(contract.total_counter(), 0);
    assert_eq!(contract.owner(), owner);
}
