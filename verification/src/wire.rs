use crate::addr::Addr;
use crate::error::ContractError;
use crate::types::{coins_view, Coin, CoinView};
use cosmwasm_std::{CosmosMsg, Uint128, WasmMsg};
use cw20::{Cw20Contract, Cw20ExecuteMsg};
use vstd::prelude::*;

verus! {

/// A call of another contract, as the host takes it: the contract's address,
/// the encoded message for it, and the funds to send along.
#[derive(Debug, PartialEq, Eq)]
pub struct WasmExecute {
    pub contract_addr: String,
    pub msg: Vec<u8>,
    pub funds: Vec<Coin>,
}

/// What a `WasmExecute` holds.
pub struct WasmExecuteView {
    pub contract_addr: Seq<char>,
    pub msg: Seq<u8>,
    pub funds: Seq<CoinView>,
}

impl View for WasmExecute {
    type V = WasmExecuteView;

    open spec fn view(&self) -> WasmExecuteView {
        WasmExecuteView {
            contract_addr: self.contract_addr@,
            msg: self.msg@,
            funds: coins_view(self.funds@),
        }
    }
}

/// The bytes into which `Cw20Contract::call` of the crate cw20 encodes a
/// `Cw20ExecuteMsg::Transfer` of `amount` to `recipient`, or `None` where it
/// reports that it could not encode it.
pub uninterp spec fn cw20_transfer_payload(recipient: Seq<char>, amount: u128) -> Option<Seq<u8>>;

/// Calls `Cw20Contract::call` of the crate cw20, on the token contract at
/// `token` and with a `Cw20ExecuteMsg::Transfer` of `amount` to `recipient`,
/// and takes the message that comes back apart.
///
/// Not proved, but taken from the crate's source: the call encodes the
/// transfer and, where that succeeds, returns a `WasmMsg::Execute` that is
/// addressed to the token contract, carries the encoded transfer and sends
/// no funds along; where it fails, it returns an error, and no call comes
/// back from here. The encoded bytes depend on the recipient and the amount
/// alone.
#[verifier::external_body]
fn cw20_transfer(token: &str, recipient: &str, amount: u128) -> (call: Option<WasmExecute>)
    ensures
        match call {
            Some(exec) => {
                &&& cw20_transfer_payload(recipient@, amount) == Some(exec.msg@)
                &&& exec.contract_addr@ == token@
                &&& exec.funds@.len() == 0
            },
            None => cw20_transfer_payload(recipient@, amount) is None,
        },
{
    let transfer = Cw20ExecuteMsg::Transfer {
        recipient: recipient.to_string(),
        amount: Uint128::new(amount),
    };
    match Cw20Contract(cosmwasm_std::Addr::unchecked(token)).call(transfer) {
        Ok(CosmosMsg::Wasm(WasmMsg::Execute { contract_addr, msg, funds })) => {
            let coin = |c: cosmwasm_std::Coin| Coin { denom: c.denom, amount: c.amount.u128() };
            let funds = funds.into_iter().map(coin).collect();
            Some(WasmExecute { contract_addr, msg: msg.0, funds })
        },
        _ => None,
    }
}

/// The call that carries out a token transfer, given what the encoder made of
/// the transfer.
pub open spec fn spec_transfer_call(token: Seq<char>, payload: Option<Seq<u8>>) -> Result<
    WasmExecuteView,
    ContractError,
> {
    match payload {
        Some(msg) => Ok(WasmExecuteView { contract_addr: token, msg, funds: seq![] }),
        None => Err(ContractError::Serialization),
    }
}

/// Judges what came back from the encoder: a call comes back as it is, no
/// call is a failure to serialise.
pub fn encoded_call(call: Option<WasmExecute>) -> (result: Result<WasmExecute, ContractError>)
    ensures
        match call {
            Some(exec) => result == Ok::<WasmExecute, ContractError>(exec),
            None => result == Err::<WasmExecute, ContractError>(ContractError::Serialization),
        },
{
    match call {
        Some(exec) => Ok(exec),
        None => Err(ContractError::Serialization),
    }
}

/// Encodes the instruction to transfer `amount` units of the token kept by
/// the contract `token` to `recipient`, as a call of that contract.
pub fn transfer_call(token: &Addr, recipient: &Addr, amount: u128) -> (result: Result<
    WasmExecute,
    ContractError,
>)
    ensures
        match result {
            Ok(exec) => spec_transfer_call(token@, cw20_transfer_payload(recipient@, amount))
                == Ok::<WasmExecuteView, ContractError>(exec@),
            Err(e) => spec_transfer_call(token@, cw20_transfer_payload(recipient@, amount))
                == Err::<WasmExecuteView, ContractError>(e),
        },
{
    let result = encoded_call(cw20_transfer(token.as_str(), recipient.as_str(), amount));
    proof {
        if result is Ok {
            assert(result->Ok_0@.funds =~= seq![]);
        }
    }
    result
}

} // verus!
