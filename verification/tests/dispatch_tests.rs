use uniform_token_actions::dispatch::platform_action;
use uniform_token_actions::dispatch::transfer_with_platform_fee;
use uniform_token_actions::dispatch::transfer_with_user_fee;
use uniform_token_actions::dispatch::user_action;
use uniform_token_actions::dispatch::MintInfo;
use uniform_token_actions::dispatch::PlatformAction;
use uniform_token_actions::dispatch::UserAction;
use uniform_token_actions::registry::init_config;
use uniform_token_actions::registry::ActionConfig;
use uniform_token_actions::registry::Config;
use uniform_token_actions::registry::CustomError;
use uniform_token_actions::registry::Identity;

fn id(n: u64) -> Identity {
    Identity { w0: n, w1: 0, w2: 0, w3: 0 }
}

const AUTHORITY: u64 = 1;
const FEE_WALLET: u64 = 2;
const PLATFORM_WALLET: u64 = 3;
const MINT: u64 = 4;
const PAYER: u64 = 9;
const RECEIVER: u64 = 10;

fn action(name: &str, price: u64, fee_percent: u8, is_variable: bool, is_platform: bool) -> ActionConfig {
    ActionConfig {
        name: name.to_string(),
        price,
        fee_percent,
        is_variable,
        is_platform_action: is_platform,
    }
}

fn base_config() -> Config {
    init_config(
        id(AUTHORITY),
        id(FEE_WALLET),
        id(PLATFORM_WALLET),
        id(MINT),
        vec![
            action("boost", 1000, 10, false, true),
            action("tip", 0, 5, true, false),
            action("flat", 300, 0, false, false),
            action("all_fee", 50, 100, false, true),
        ],
        0,
    )
    .unwrap()
}

fn platform_accounts() -> PlatformAction {
    PlatformAction {
        from: id(PAYER),
        platform_wallet: id(PLATFORM_WALLET),
        fee_wallet: id(FEE_WALLET),
        mint: MintInfo { key: id(MINT), decimals: 6 },
        authority: id(PAYER),
    }
}

fn user_accounts() -> UserAction {
    UserAction {
        from: id(PAYER),
        receiver_wallet: id(RECEIVER),
        fee_wallet: id(FEE_WALLET),
        mint: MintInfo { key: id(MINT), decimals: 6 },
        authority: id(PAYER),
    }
}

#[test]
fn platform_dispatch_splits_fixed_price() {
    let config = base_config();
    let plan = platform_action(&config, &platform_accounts(), "boost".to_string(), 77).unwrap();
    // the caller-supplied amount (77) is ignored: the fixed price rules
    assert_eq!(plan.event.action, "boost".to_string());
    assert_eq!(plan.event.amount, 1000);
    assert_eq!(plan.event.fee_percent, 10);
    assert_eq!(plan.event.from, id(PAYER));
    assert_eq!(plan.event.to, id(PLATFORM_WALLET));
    assert_eq!(plan.net.amount, 900);
    assert_eq!(plan.net.from, id(PAYER));
    assert_eq!(plan.net.to, id(PLATFORM_WALLET));
    assert_eq!(plan.net.mint, id(MINT));
    assert_eq!(plan.net.decimals, 6);
    let fee = plan.fee.unwrap();
    assert_eq!(fee.amount, 100);
    assert_eq!(fee.to, id(FEE_WALLET));
    assert_eq!(fee.from, id(PAYER));
    assert_eq!(fee.decimals, 6);
}

#[test]
fn user_dispatch_uses_requested_amount_when_variable() {
    let config = base_config();
    let plan = user_action(&config, &user_accounts(), "tip".to_string(), 200).unwrap();
    assert_eq!(plan.event.amount, 200);
    assert_eq!(plan.event.to, id(RECEIVER));
    assert_eq!(plan.net.amount, 190);
    assert_eq!(plan.net.to, id(RECEIVER));
    let fee = plan.fee.unwrap();
    assert_eq!(fee.amount, 10);
    assert_eq!(fee.to, id(FEE_WALLET));
}

#[test]
fn user_dispatch_uses_fixed_price_when_not_variable() {
    let config = base_config();
    let plan = user_action(&config, &user_accounts(), "flat".to_string(), 999).unwrap();
    assert_eq!(plan.event.amount, 300);
    assert_eq!(plan.net.amount, 300);
}

#[test]
fn zero_fee_percent_issues_no_fee_transfer() {
    let config = base_config();
    let plan = user_action(&config, &user_accounts(), "flat".to_string(), 0).unwrap();
    assert!(plan.fee.is_none());
    assert_eq!(plan.net.amount, 300);
}

#[test]
fn hundred_fee_percent_sends_everything_to_fee_wallet() {
    let config = base_config();
    let plan = platform_action(&config, &platform_accounts(), "all_fee".to_string(), 0).unwrap();
    assert_eq!(plan.net.amount, 0);
    assert_eq!(plan.fee.unwrap().amount, 50);
}

#[test]
fn fee_is_floored() {
    // 99 at 10 percent: fee is floor(9.9) == 9, net is 90
    let r = transfer_with_user_fee(&user_accounts(), 99, 10).unwrap();
    assert_eq!(r.0.amount, 90);
    assert_eq!(r.1.unwrap().amount, 9);
}

#[test]
fn fee_plus_net_equals_amount() {
    let accounts = platform_accounts();
    for amount in [1u64, 7, 99, 100, 101, 12345, u64::MAX] {
        for percent in [0u64, 1, 33, 50, 99, 100] {
            let (net, fee) = transfer_with_platform_fee(&accounts, amount, percent).unwrap();
            let fee_amount = fee.map(|f| f.amount).unwrap_or(0);
            assert_eq!(net.amount as u128 + fee_amount as u128, amount as u128);
            assert_eq!(fee_amount as u128, amount as u128 * percent as u128 / 100);
        }
    }
}

#[test]
fn widened_multiplication_does_not_wrap() {
    // u64::MAX at 10 percent would wrap a 64-bit multiplication
    let (net, fee) = transfer_with_platform_fee(&platform_accounts(), u64::MAX, 10).unwrap();
    let expected_fee = (u64::MAX as u128) * 10 / 100;
    assert_eq!(fee.unwrap().amount as u128, expected_fee);
    assert_eq!(net.amount as u128, u64::MAX as u128 - expected_fee);
}

#[test]
fn zero_amount_is_rejected_before_any_transfer() {
    let r = transfer_with_platform_fee(&platform_accounts(), 0, 10);
    assert_eq!(r.err(), Some(CustomError::IncorrectAmount));
    let r2 = transfer_with_user_fee(&user_accounts(), 0, 10);
    assert_eq!(r2.err(), Some(CustomError::IncorrectAmount));
}

#[test]
fn variable_zero_request_is_rejected() {
    let config = base_config();
    let r = user_action(&config, &user_accounts(), "tip".to_string(), 0);
    assert_eq!(r.err(), Some(CustomError::IncorrectAmount));
}

#[test]
fn platform_policy_with_zero_price_is_rejected() {
    let config = init_config(
        id(AUTHORITY),
        id(FEE_WALLET),
        id(PLATFORM_WALLET),
        id(MINT),
        vec![action("free", 0, 10, false, true)],
        0,
    )
    .unwrap();
    let r = platform_action(&config, &platform_accounts(), "free".to_string(), 123);
    assert_eq!(r.err(), Some(CustomError::IncorrectAmount));
}

#[test]
fn wrong_mint_is_rejected() {
    let config = base_config();
    let mut accounts = platform_accounts();
    accounts.mint = MintInfo { key: id(777), decimals: 6 };
    let r = platform_action(&config, &accounts, "boost".to_string(), 0);
    assert_eq!(r.err(), Some(CustomError::WrongTokenMint));
    let mut uaccounts = user_accounts();
    uaccounts.mint = MintInfo { key: id(777), decimals: 6 };
    let r2 = user_action(&config, &uaccounts, "tip".to_string(), 5);
    assert_eq!(r2.err(), Some(CustomError::WrongTokenMint));
}

#[test]
fn unknown_action_is_rejected() {
    let config = base_config();
    let r = platform_action(&config, &platform_accounts(), "missing".to_string(), 0);
    assert_eq!(r.err(), Some(CustomError::InvalidAction));
    let r2 = user_action(&config, &user_accounts(), "missing".to_string(), 5);
    assert_eq!(r2.err(), Some(CustomError::InvalidAction));
}

#[test]
fn user_policy_via_platform_path_is_rejected() {
    let config = base_config();
    let r = platform_action(&config, &platform_accounts(), "tip".to_string(), 0);
    assert_eq!(r.err(), Some(CustomError::InvalidPlatformAction));
}

#[test]
fn platform_policy_via_user_path_is_rejected() {
    let config = base_config();
    let r = user_action(&config, &user_accounts(), "boost".to_string(), 5);
    assert_eq!(r.err(), Some(CustomError::InvalidUserAction));
}

#[test]
fn dispatch_reads_decimals_from_the_mint() {
    let config = base_config();
    let mut accounts = platform_accounts();
    accounts.mint = MintInfo { key: id(MINT), decimals: 9 };
    let plan = platform_action(&config, &accounts, "boost".to_string(), 0).unwrap();
    assert_eq!(plan.net.decimals, 9);
    assert_eq!(plan.fee.unwrap().decimals, 9);
}
