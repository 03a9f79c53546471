use your_contract::address::Address;
use your_contract::contract::YourContract;
use your_contract::env::Env;
use your_contract::portfolio::WEI_PER_TOKEN;

fn fresh_contract() -> YourContract {
    let mut contract = YourContract::new();
    contract.constructor(Address::new([1u8; 20])).unwrap();
    contract
}

#[test]
fn mock_balance_is_deterministic_and_in_range() {
    let contract = fresh_contract();
    let token = Address::new([7u8; 20]);
    let account = Address::new([42u8; 20]);

    let first = contract.get_mock_token_balance(token, account);
    let second = contract.get_mock_token_balance(token, account);
    assert_eq!(first, second);
    assert!(first >= WEI_PER_TOKEN);
    assert!(first <= 10_000 * WEI_PER_TOKEN);
}

#[test]
fn mock_balance_exact_values() {
    let contract = fresh_contract();
    let zero = Address::zero();
    let ones = Address::new([1u8; 20]);

    // All-zero bytes leave the accumulator at zero: one whole token.
    assert_eq!(contract.get_mock_token_balance(zero, zero), WEI_PER_TOKEN);

    // Token bytes of 1 set accumulator bits 0..=3 (shifts 0..=3 occur three
    // times each, 4..=7 twice): 15, so 16 whole tokens.
    assert_eq!(contract.get_mock_token_balance(ones, zero), 16 * WEI_PER_TOKEN);

    // Account bytes of 1 set accumulator bits 4..=7 instead: 240, so 241
    // whole tokens; the two argument positions are not interchangeable.
    assert_eq!(contract.get_mock_token_balance(zero, ones), 241 * WEI_PER_TOKEN);
}

#[test]
fn eth_balances_keep_order_and_duplicates() {
    let contract = fresh_contract();
    let a = Address::new([10u8; 20]);
    let b = Address::new([11u8; 20]);
    let unseen = Address::new([12u8; 20]);
    let env = Env {
        contract_balance: 0,
        balances: vec![(a, 500), (b, 700)],
    };

    assert_eq!(contract.get_eth_balance(&env, a), 500);
    assert_eq!(contract.get_eth_balance(&env, unseen), 0);

    let list = contract.get_eth_balances(&env, &vec![b, a, b, unseen]);
    assert_eq!(list, vec![700, 500, 700, 0]);
}

#[test]
fn mock_balances_map_each_token() {
    let contract = fresh_contract();
    let account = Address::new([42u8; 20]);
    let t1 = Address::new([7u8; 20]);
    let t2 = Address::new([8u8; 20]);

    let balances = contract.get_mock_token_balances(&vec![t1, t2], account);
    assert_eq!(balances.len(), 2);
    assert_eq!(balances[0], contract.get_mock_token_balance(t1, account));
    assert_eq!(balances[1], contract.get_mock_token_balance(t2, account));
}

#[test]
fn portfolio_combines_eth_and_token_balances() {
    let contract = fresh_contract();
    let account = Address::new([42u8; 20]);
    let t1 = Address::new([7u8; 20]);
    let env = Env {
        contract_balance: 0,
        balances: vec![(account, 900)],
    };

    let (eth, tokens) = contract.get_portfolio(&env, account, &vec![t1]);
    assert_eq!(eth, 900);
    assert_eq!(tokens, contract.get_mock_token_balances(&vec![t1], account));
}

#[test]
fn multiple_portfolios_have_matching_shape_and_rows() {
    let contract = fresh_contract();
    let a = Address::new([10u8; 20]);
    let b = Address::new([11u8; 20]);
    let t1 = Address::new([7u8; 20]);
    let t2 = Address::new([8u8; 20]);
    let env = Env {
        contract_balance: 0,
        balances: vec![(a, 500), (b, 700)],
    };

    let accounts = vec![a, b];
    let tokens = vec![t1, t2];
    let (eth_list, matrix) = contract.get_multiple_portfolios(&env, &accounts, &tokens);

    assert_eq!(eth_list, vec![500, 700]);
    assert_eq!(matrix.len(), 2);
    assert_eq!(matrix[0].len(), 2);
    assert_eq!(matrix[1].len(), 2);
    assert_eq!(matrix[0], contract.get_mock_token_balances(&tokens, a));
    assert_eq!(matrix[1], contract.get_mock_token_balances(&tokens, b));
}
