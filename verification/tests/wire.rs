use cosmwasm_std::{to_binary, Uint128};
use cw20::Cw20ExecuteMsg;
use pot_ledger::addr::Addr;
use pot_ledger::error::ContractError;
use pot_ledger::types::Coin;
use pot_ledger::wire::{encoded_call, transfer_call, WasmExecute};

fn payload(recipient: &str, amount: u128) -> Vec<u8> {
    let transfer =
        Cw20ExecuteMsg::Transfer { recipient: String::from(recipient), amount: Uint128::new(amount) };
    to_binary(&transfer).unwrap().0
}

#[test]
fn a_transfer_is_a_call_of_the_token_contract() {
    let call =
        transfer_call(&Addr::unchecked("token"), &Addr::unchecked("recipient"), 110).unwrap();
    assert_eq!(call.contract_addr, "token");
    assert_eq!(call.msg, br#"{"transfer":{"recipient":"recipient","amount":"110"}}"#.to_vec());
    assert_eq!(call.msg, payload("recipient", 110));
    assert_eq!(call.funds, vec![]);
}

#[test]
fn the_encoded_transfer_goes_by_recipient_and_amount() {
    let token = Addr::unchecked("token");
    let other = Addr::unchecked("other token");
    let a = transfer_call(&token, &Addr::unchecked("a"), 1).unwrap();
    let b = transfer_call(&token, &Addr::unchecked("b"), 1).unwrap();
    let c = transfer_call(&token, &Addr::unchecked("a"), 2).unwrap();
    let d = transfer_call(&other, &Addr::unchecked("a"), 1).unwrap();
    assert_ne!(a.msg, b.msg);
    assert_ne!(a.msg, c.msg);
    assert_eq!(a.msg, d.msg);
    assert_eq!(d.contract_addr, "other token");
    assert_eq!(c.msg, payload("a", 2));
    assert_eq!(
        transfer_call(&token, &Addr::unchecked("a"), u128::MAX).unwrap().msg,
        payload("a", u128::MAX)
    );
}

#[test]
fn an_encoder_that_gave_no_call_has_failed() {
    assert_eq!(encoded_call(None), Err(ContractError::Serialization));
    let call = WasmExecute {
        contract_addr: String::from("token"),
        msg: vec![1, 2, 3],
        funds: vec![Coin::new(1, "coin")],
    };
    let same = WasmExecute {
        contract_addr: String::from("token"),
        msg: vec![1, 2, 3],
        funds: vec![Coin::new(1, "coin")],
    };
    assert_eq!(encoded_call(Some(call)), Ok(same));
}
