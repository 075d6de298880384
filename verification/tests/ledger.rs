use token_ledger::contract::{
    execute, execute_burn, execute_mint, execute_transfer, instantiate, query, query_balance,
    Event,
};
use token_ledger::error::ContractError;
use token_ledger::msg::{ExecuteMsg, InstantiateMsg, QueryMsg};
use token_ledger::state::Ledger;

const RECIPIENT: &str = "wasm1exntxrfdafgczcuwhuuqr5pftkln3w0d6cwnrv";
const MINTER: &str = "wasm1002p8x7ajerzwnvjgguqeymplh70y8shs6d0hy";

fn get_init_msg() -> InstantiateMsg {
    InstantiateMsg {
        name: String::from("THONG COIN"),
        symbol: String::from("CUCMO"),
        cap: 300,
        total_supply: 200,
    }
}

fn init() -> Ledger {
    let (ledger, _event) = instantiate(get_init_msg(), MINTER.to_string()).unwrap();
    ledger
}

fn balance(ledger: &Ledger, address: &str) -> u128 {
    query(
        ledger,
        &QueryMsg::Balance { address: address.to_string() },
        &Some(address.to_string()),
    )
    .unwrap()
}

#[test]
fn proper_initialization() {
    let (ledger, event) = instantiate(get_init_msg(), MINTER.to_string()).unwrap();
    assert_eq!(event, Event::Instantiated { minter: MINTER.to_string() });

    let value = query(
        &ledger,
        &QueryMsg::Balance { address: MINTER.to_string() },
        &Some(MINTER.to_string()),
    )
    .unwrap();
    assert_eq!(value, 200u128);
}

#[test]
fn transfer() {
    // initiate contract with minter address has 200 CUCMO
    let mut ledger = init();

    // verify current balance in minter
    assert_eq!(balance(&ledger, MINTER), 200u128);

    // verify transfer
    let transfer_msg = ExecuteMsg::Transfer { recipient: RECIPIENT.to_string(), amount: 150 };
    let _res = execute(
        &mut ledger,
        &MINTER.to_string(),
        &transfer_msg,
        &Some(RECIPIENT.to_string()),
    )
    .unwrap();

    assert_eq!(balance(&ledger, RECIPIENT), 150u128);
    assert_eq!(balance(&ledger, MINTER), 50u128);
}

#[test]
fn burn() {
    let mut ledger = init();

    // verify burn
    let burn_msg = ExecuteMsg::Burn { amount: 250 };
    assert!(execute(&mut ledger, &MINTER.to_string(), &burn_msg, &None).is_err());

    let burn_msg = ExecuteMsg::Burn { amount: 200 };
    assert!(execute(&mut ledger, &MINTER.to_string(), &burn_msg, &None).is_ok());

    assert_eq!(balance(&ledger, MINTER), 0u128);
}

#[test]
fn mint() {
    let mut ledger = init();

    let msg = ExecuteMsg::Mint { recipient: MINTER.to_string(), amount: 100 };
    execute(&mut ledger, &MINTER.to_string(), &msg, &Some(MINTER.to_string())).unwrap();
}

#[test]
fn initialization_writes_config_and_minter_balance() {
    let ledger = init();
    assert_eq!(ledger.config.name, "THONG COIN".to_string());
    assert_eq!(ledger.config.symbol, "CUCMO".to_string());
    assert_eq!(ledger.config.total_supply, 200u128);
    assert_eq!(ledger.config.cap, 300u128);
    assert_eq!(ledger.minter, MINTER.to_string());
    assert_eq!(balance(&ledger, MINTER), 200u128);
    assert_eq!(balance(&ledger, RECIPIENT), 0u128);
}

#[test]
fn initialization_rejects_supply_over_cap() {
    let msg = InstantiateMsg {
        name: String::from("THONG COIN"),
        symbol: String::from("CUCMO"),
        cap: 300,
        total_supply: 400,
    };
    let res = instantiate(msg, MINTER.to_string());
    assert!(matches!(res, Err(ContractError::SupplyExceedsCap)));
}

#[test]
fn instantiate_msg_validate_accepts() {
    assert!(get_init_msg().validate().is_ok());
}

#[test]
fn transfer_emits_event_and_conserves_supply() {
    let mut ledger = init();
    let res = execute_transfer(
        &mut ledger,
        &MINTER.to_string(),
        &Some(RECIPIENT.to_string()),
        150,
    )
    .unwrap();
    assert_eq!(
        res,
        Event::Transferred {
            from: MINTER.to_string(),
            to: RECIPIENT.to_string(),
            amount: 150,
        }
    );
    assert_eq!(ledger.config.total_supply, 200u128);
    assert_eq!(balance(&ledger, MINTER), 50u128);
    assert_eq!(balance(&ledger, RECIPIENT), 150u128);
}

#[test]
fn self_transfer_keeps_balance() {
    let mut ledger = init();
    let res = execute_transfer(
        &mut ledger,
        &MINTER.to_string(),
        &Some(MINTER.to_string()),
        150,
    );
    assert!(res.is_ok());
    assert_eq!(balance(&ledger, MINTER), 200u128);
    assert_eq!(ledger.config.total_supply, 200u128);
}

#[test]
fn transfer_rejects_zero_amount() {
    let mut ledger = init();
    let res = execute_transfer(
        &mut ledger,
        &MINTER.to_string(),
        &Some(RECIPIENT.to_string()),
        0,
    );
    assert_eq!(res, Err(ContractError::InvalidZeroAmount));
    assert_eq!(balance(&ledger, MINTER), 200u128);
}

#[test]
fn transfer_rejects_invalid_address() {
    let mut ledger = init();
    let res = execute_transfer(&mut ledger, &MINTER.to_string(), &None, 150);
    assert_eq!(res, Err(ContractError::InvalidAddress));
    assert_eq!(balance(&ledger, MINTER), 200u128);
}

#[test]
fn transfer_rejects_insufficient_funds() {
    let mut ledger = init();
    let res = execute_transfer(
        &mut ledger,
        &MINTER.to_string(),
        &Some(RECIPIENT.to_string()),
        250,
    );
    assert_eq!(res, Err(ContractError::InsufficientFunds));
    assert_eq!(balance(&ledger, MINTER), 200u128);
    assert_eq!(balance(&ledger, RECIPIENT), 0u128);
}

#[test]
fn transfer_from_untouched_account_fails() {
    let mut ledger = init();
    let res = execute_transfer(
        &mut ledger,
        &RECIPIENT.to_string(),
        &Some(MINTER.to_string()),
        1,
    );
    assert_eq!(res, Err(ContractError::InsufficientFunds));
}

#[test]
fn burn_scenario_rejects_then_burns_all() {
    let mut ledger = init();
    let res = execute_burn(&mut ledger, &MINTER.to_string(), 250);
    assert_eq!(res, Err(ContractError::InsufficientFunds));
    assert_eq!(ledger.config.total_supply, 200u128);

    let res = execute_burn(&mut ledger, &MINTER.to_string(), 200).unwrap();
    assert_eq!(res, Event::Burned { from: MINTER.to_string(), amount: 200 });
    assert_eq!(balance(&ledger, MINTER), 0u128);
    assert_eq!(ledger.config.total_supply, 0u128);
}

#[test]
fn burn_rejects_zero_amount() {
    let mut ledger = init();
    let res = execute_burn(&mut ledger, &MINTER.to_string(), 0);
    assert_eq!(res, Err(ContractError::InvalidZeroAmount));
    assert_eq!(ledger.config.total_supply, 200u128);
}

#[test]
fn mint_scenario_fills_cap_then_rejects() {
    let mut ledger = init();
    let res = execute_mint(
        &mut ledger,
        &MINTER.to_string(),
        &Some(RECIPIENT.to_string()),
        100,
    )
    .unwrap();
    assert_eq!(res, Event::Minted { to: RECIPIENT.to_string(), amount: 100 });
    assert_eq!(ledger.config.total_supply, 300u128);
    assert_eq!(balance(&ledger, RECIPIENT), 100u128);

    let res = execute_mint(
        &mut ledger,
        &MINTER.to_string(),
        &Some(RECIPIENT.to_string()),
        1,
    );
    assert_eq!(res, Err(ContractError::CannotExceedCap));
    assert_eq!(ledger.config.total_supply, 300u128);
}

#[test]
fn mint_rejects_zero_amount() {
    let mut ledger = init();
    let res = execute_mint(
        &mut ledger,
        &MINTER.to_string(),
        &Some(RECIPIENT.to_string()),
        0,
    );
    assert_eq!(res, Err(ContractError::InvalidZeroAmount));
    assert_eq!(ledger.config.total_supply, 200u128);
}

#[test]
fn mint_rejects_unauthorized_caller() {
    let mut ledger = init();
    let res = execute_mint(
        &mut ledger,
        &RECIPIENT.to_string(),
        &Some(RECIPIENT.to_string()),
        50,
    );
    assert_eq!(res, Err(ContractError::Unauthorized));
    assert_eq!(ledger.config.total_supply, 200u128);
    assert_eq!(balance(&ledger, RECIPIENT), 0u128);
}

#[test]
fn mint_rejects_invalid_address() {
    let mut ledger = init();
    let res = execute_mint(&mut ledger, &MINTER.to_string(), &None, 50);
    assert_eq!(res, Err(ContractError::InvalidAddress));
    assert_eq!(ledger.config.total_supply, 200u128);
}

#[test]
fn query_balance_rejects_invalid_address() {
    let ledger = init();
    let res = query_balance(&ledger, &None);
    assert_eq!(res, Err(ContractError::InvalidAddress));
}

#[test]
fn query_balance_of_untouched_account_is_zero() {
    let ledger = init();
    let res = query_balance(&ledger, &Some(RECIPIENT.to_string()));
    assert_eq!(res, Ok(0u128));
}
