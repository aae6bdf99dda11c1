use cosmwasm_std::testing::MOCK_CONTRACT_ADDR;
use cosmwasm_std::{to_binary, Binary, CosmosMsg, Uint128, WasmMsg};
use cw20::Cw20ExecuteMsg;
use pot_ledger::addr::Addr;
use pot_ledger::contract::{execute, instantiate, query};
use pot_ledger::msg::{
    Cw20ReceiveMsg, ExecuteMsg, InstantiateMsg, QueryMsg, QueryResponse, ReceiveMsg,
};
use pot_ledger::response::Instruction;
use pot_ledger::state::{Pot, ProjectState};
use pot_ledger::types::{Coin, MessageInfo};
use pot_ledger::wire::transfer_call;

fn mock_info(sender: &str, funds: &[Coin]) -> MessageInfo {
    MessageInfo { sender: Addr::unchecked(sender), funds: funds.to_vec() }
}

fn add_project_msg(project_id: u128, project_wallet: &str) -> ExecuteMsg {
    ExecuteMsg::AddProject {
        project_id,
        project_name: String::new(),
        project_wallet: String::from(project_wallet),
        creator_wallet: String::new(),
        project_website: String::new(),
        project_about: String::new(),
        project_email: String::new(),
        project_ecosystem: String::new(),
        project_category: String::new(),
    }
}

#[test]
fn add_project() {
    let msg = InstantiateMsg { admin: None, cw20_addr: Some(Addr::unchecked(MOCK_CONTRACT_ADDR)) };

    let info = mock_info("creator", &[]);
    let (mut ledger, _res) = instantiate(info.clone(), msg).unwrap();

    let msg = add_project_msg(100, "some");
    let res = execute(&mut ledger, info.clone(), msg).unwrap();
    assert_eq!(res.messages.len(), 0);

    let msg = add_project_msg(98, "some");
    let res = execute(&mut ledger, info.clone(), msg).unwrap();
    assert_eq!(res.messages.len(), 0);

    let msg = QueryMsg::GetProject { id: 98 };
    let res = query(&ledger, msg).unwrap();

    assert_eq!(
        res,
        QueryResponse::Project(ProjectState {
            project_id: 98,
            project_name: String::new(),
            project_wallet: String::from("some"),
            project_collected: 0,
            creator_wallet: String::new(),
            project_website: String::new(),
            project_about: String::new(),
            project_email: String::new(),
            project_ecosystem: String::new(),
            project_category: String::new(),
            backer_states: vec![],
        })
    )
}

#[test]
fn create_pot() {
    let msg = InstantiateMsg { admin: None, cw20_addr: Some(Addr::unchecked(MOCK_CONTRACT_ADDR)) };
    let info = mock_info("creator", &[]);

    let (mut ledger, _res) = instantiate(info.clone(), msg).unwrap();

    // should create pot
    let msg = ExecuteMsg::CreatePot { target_addr: Some(Addr::unchecked("Some")), threshold: 100 };
    let res = execute(&mut ledger, info, msg).unwrap();
    assert_eq!(res.messages.len(), 0);

    // query pot
    let msg = QueryMsg::GetPot { id: 1 };
    let res = query(&ledger, msg).unwrap();

    assert_eq!(
        res,
        QueryResponse::Pot(Pot {
            target_addr: Addr::unchecked("Some"),
            collected: Default::default(),
            threshold: 100
        })
    );
}

#[test]
fn test_receive_send() {
    let msg = InstantiateMsg { admin: None, cw20_addr: Some(Addr::unchecked("cw20")) };
    let mut info = mock_info("creator", &[]);

    let (mut ledger, _res) = instantiate(info.clone(), msg).unwrap();

    // should create pot
    let msg = ExecuteMsg::CreatePot { target_addr: Some(Addr::unchecked("Some")), threshold: 100 };
    let res = execute(&mut ledger, info.clone(), msg).unwrap();
    assert_eq!(res.messages.len(), 0);

    let msg = ExecuteMsg::Receive(Cw20ReceiveMsg {
        sender: String::from("cw20"),
        amount: 55,
        msg: Some(ReceiveMsg::Send { id: 1 }),
    });
    info.sender = Addr::unchecked("cw20");
    let _res = execute(&mut ledger, info.clone(), msg).unwrap();

    // query pot
    let msg = QueryMsg::GetPot { id: 1 };
    let res = query(&ledger, msg).unwrap();

    assert_eq!(
        res,
        QueryResponse::Pot(Pot {
            target_addr: Addr::unchecked("Some"),
            collected: 55,
            threshold: 100
        })
    );

    let msg = ExecuteMsg::Receive(Cw20ReceiveMsg {
        sender: String::from("cw20"),
        amount: 55,
        msg: Some(ReceiveMsg::Send { id: 1 }),
    });
    let res = execute(&mut ledger, info, msg).unwrap();
    assert_eq!(
        res.messages[0],
        Instruction::TokenTransfer {
            token: Addr::unchecked("cw20"),
            recipient: Addr::unchecked("Some"),
            amount: 110
        }
    );
    let msg: CosmosMsg = match &res.messages[0] {
        Instruction::TokenTransfer { token, recipient, amount } => {
            let call = transfer_call(token, recipient, *amount).unwrap();
            assert!(call.funds.is_empty());
            CosmosMsg::Wasm(WasmMsg::Execute {
                contract_addr: call.contract_addr,
                msg: Binary(call.msg),
                funds: vec![],
            })
        }
        other => panic!("a token transfer was due, not {:?}", other),
    };
    assert_eq!(
        msg,
        CosmosMsg::Wasm(WasmMsg::Execute {
            contract_addr: String::from("cw20"),
            msg: to_binary(&Cw20ExecuteMsg::Transfer {
                recipient: String::from("Some"),
                amount: Uint128::new(110)
            })
            .unwrap(),
            funds: vec![]
        })
    );

    // query pot
    let msg = QueryMsg::GetPot { id: 1 };
    let res = query(&ledger, msg).unwrap();

    assert_eq!(
        res,
        QueryResponse::Pot(Pot {
            target_addr: Addr::unchecked("Some"),
            collected: 110,
            threshold: 100
        })
    );
}
