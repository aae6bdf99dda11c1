use pot_ledger::addr::Addr;
use pot_ledger::contract::{execute_create_pot, query_pot, query_project, receive_send};
use pot_ledger::ledger::{save_pot, Ledger};
use pot_ledger::state::{backed_sum, BackerState, Config, Pot, ProjectState};
use pot_ledger::types::{clone_coins, Coin, MessageInfo};

fn config() -> Config {
    Config { owner: Addr::unchecked("owner"), cw20_addr: Addr::unchecked("token") }
}

fn pot(collected: u128) -> Pot {
    Pot { target_addr: Addr::unchecked("target"), threshold: 100, collected }
}

fn backer(name: &str, amount: u128) -> BackerState {
    BackerState { backer_wallet: String::from(name), amount: Coin::new(amount, "coin") }
}

fn project(id: u128, collected: u128, backers: Vec<BackerState>) -> ProjectState {
    ProjectState {
        project_id: id,
        project_name: String::from("name"),
        project_wallet: String::from("wallet"),
        project_collected: collected,
        creator_wallet: String::new(),
        project_website: String::new(),
        project_about: String::new(),
        project_email: String::new(),
        project_ecosystem: String::new(),
        project_category: String::new(),
        backer_states: backers,
    }
}

#[test]
fn an_opened_ledger_is_empty() {
    let ledger = Ledger::open(config(), 3);
    assert_eq!(ledger.config(), &config());
    assert_eq!(ledger.pot_seq(), 3);
    for id in 0..5 {
        assert_eq!(ledger.pot(id), None);
        assert_eq!(ledger.project(id), None);
    }
}

#[test]
fn a_pot_is_read_back_under_an_issued_id_only() {
    let mut ledger = Ledger::open(config(), 3);
    assert!(!ledger.load_pot(0, pot(1)));
    assert!(!ledger.load_pot(4, pot(1)));
    assert!(!ledger.load_pot(u128::MAX, pot(1)));
    assert_eq!(ledger, Ledger::open(config(), 3));

    assert!(ledger.load_pot(3, pot(30)));
    assert!(ledger.load_pot(1, pot(10)));
    assert_eq!(ledger.pot(3), Some(&pot(30)));
    assert_eq!(ledger.pot(1), Some(&pot(10)));
    assert_eq!(ledger.pot(2), None);
    assert_eq!(ledger.pot_seq(), 3);
}

#[test]
fn a_pot_is_read_back_once() {
    let mut ledger = Ledger::open(config(), 3);
    assert!(ledger.load_pot(2, pot(20)));
    let before = ledger.clone();
    assert!(!ledger.load_pot(2, pot(5)));
    assert_eq!(ledger, before);
    assert_eq!(query_pot(&ledger, 2).unwrap(), pot(20));
}

#[test]
fn a_ledger_that_was_read_back_goes_on_where_it_stood() {
    let mut ledger = Ledger::open(config(), 3);
    assert!(ledger.load_pot(2, pot(90)));
    let res = receive_send(&mut ledger, 2, 15, Addr::unchecked("token")).unwrap();
    assert_eq!(res.messages.len(), 1);
    assert_eq!(ledger.pot(2), Some(&pot(105)));

    let owner = MessageInfo { sender: Addr::unchecked("owner"), funds: vec![] };
    execute_create_pot(&mut ledger, owner, Some(Addr::unchecked("target")), 100).unwrap();
    assert_eq!(ledger.pot_seq(), 4);
    assert_eq!(ledger.pot(4), Some(&pot(0)));
}

#[test]
fn save_pot_gives_the_next_id() {
    let mut ledger = Ledger::open(config(), 0);
    assert_eq!(save_pot(&mut ledger, pot(0)), Ok(1));
    assert_eq!(save_pot(&mut ledger, pot(7)), Ok(2));
    assert_eq!(ledger.pot_seq(), 2);
    assert_eq!(ledger.pot(1), Some(&pot(0)));
    assert_eq!(ledger.pot(2), Some(&pot(7)));
    assert_eq!(ledger.pot(3), None);
}

#[test]
fn a_project_is_read_back_where_its_balance_adds_up() {
    let mut ledger = Ledger::open(config(), 0);
    assert!(ledger.load_project(project(5, 0, vec![])));
    assert!(ledger.load_project(project(6, 30, vec![backer("a", 10), backer("b", 20)])));
    assert!(!ledger.load_project(project(7, 31, vec![backer("a", 10), backer("b", 20)])));
    assert!(!ledger.load_project(project(8, 1, vec![])));
    assert!(!ledger.load_project(project(
        9,
        0,
        vec![backer("a", u128::MAX), backer("b", 1)]
    )));
    assert_eq!(
        query_project(&ledger, 6).unwrap(),
        project(6, 30, vec![backer("a", 10), backer("b", 20)])
    );
    assert_eq!(ledger.project(5), Some(&project(5, 0, vec![])));
    assert_eq!(ledger.project(7), None);
    assert_eq!(ledger.project(8), None);
    assert_eq!(ledger.project(9), None);
}

#[test]
fn a_project_is_read_back_once() {
    let mut ledger = Ledger::open(config(), 0);
    assert!(ledger.load_project(project(5, 10, vec![backer("a", 10)])));
    let before = ledger.clone();
    assert!(!ledger.load_project(project(5, 0, vec![])));
    assert_eq!(ledger, before);
}

#[test]
fn backed_sum_adds_the_amounts() {
    assert_eq!(backed_sum(&vec![]), Some(0));
    assert_eq!(backed_sum(&vec![backer("a", 10)]), Some(10));
    assert_eq!(backed_sum(&vec![backer("a", 10), backer("b", 20), backer("a", 12)]), Some(42));
    assert_eq!(backed_sum(&vec![backer("a", u128::MAX), backer("b", 0)]), Some(u128::MAX));
    assert_eq!(backed_sum(&vec![backer("a", u128::MAX), backer("b", 1)]), None);
    assert_eq!(
        backed_sum(&vec![backer("a", u128::MAX), backer("b", 1), backer("c", 0)]),
        None
    );
}

#[test]
fn copies_hold_the_same_as_what_they_copy() {
    let coins = vec![Coin::new(1, "a"), Coin::new(2, "b")];
    assert_eq!(clone_coins(&coins), coins);
    assert_eq!(clone_coins(&vec![]), vec![]);
    let info = MessageInfo { sender: Addr::unchecked("sender"), funds: coins };
    assert_eq!(info.clone(), info);
    let stored = project(6, 30, vec![backer("a", 10), backer("b", 20)]);
    assert_eq!(stored.clone(), stored);
    assert_eq!(pot(5).clone(), pot(5));
    assert_eq!(config().clone(), config());
    let addr = Addr::unchecked("address");
    assert_eq!(addr.clone(), addr);
    assert_eq!(addr.as_str(), "address");
    assert_eq!(addr.into_string(), "address");
    assert_ne!(Addr::unchecked("a"), Addr::unchecked("A"));
}
