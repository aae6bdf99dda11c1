use crate::addr::Addr;
use vstd::prelude::*;

verus! {

/// An amount of one native currency.
#[derive(Debug, PartialEq, Eq)]
pub struct Coin {
    pub denom: String,
    pub amount: u128,
}

/// What a `Coin` holds.
pub struct CoinView {
    pub denom: Seq<char>,
    pub amount: u128,
}

impl View for Coin {
    type V = CoinView;

    open spec fn view(&self) -> CoinView {
        CoinView { denom: self.denom@, amount: self.amount }
    }
}

impl Clone for Coin {
    fn clone(&self) -> (copy: Coin)
        ensures
            copy@ == self@,
    {
        Coin { denom: self.denom.clone(), amount: self.amount }
    }
}

impl Coin {
    /// `amount` units of the currency `denom`.
    pub fn new(amount: u128, denom: &str) -> (coin: Coin)
        ensures
            coin@ == (CoinView { denom: denom@, amount }),
    {
        Coin { denom: denom.to_owned(), amount }
    }
}

/// What a list of coins holds, coin by coin.
pub open spec fn coins_view(coins: Seq<Coin>) -> Seq<CoinView> {
    coins.map_values(|c: Coin| c@)
}

/// A copy of `coins`.
pub fn clone_coins(coins: &Vec<Coin>) -> (copy: Vec<Coin>)
    ensures
        coins_view(copy@) == coins_view(coins@),
{
    let mut copy: Vec<Coin> = Vec::new();
    let mut i: usize = 0;
    while i < coins.len()
        invariant
            i <= coins.len(),
            copy.len() == i,
            forall|j: int| 0 <= j < i ==> copy[j]@ == coins[j]@,
        decreases coins.len() - i,
    {
        copy.push(coins[i].clone());
        i += 1;
    }
    assert(coins_view(copy@) =~= coins_view(coins@));
    copy
}

/// Who sent a message, and the funds that came with it.
#[derive(Debug, PartialEq, Eq)]
pub struct MessageInfo {
    pub sender: Addr,
    pub funds: Vec<Coin>,
}

/// What a `MessageInfo` holds.
pub struct MessageInfoView {
    pub sender: Seq<char>,
    pub funds: Seq<CoinView>,
}

impl View for MessageInfo {
    type V = MessageInfoView;

    open spec fn view(&self) -> MessageInfoView {
        MessageInfoView { sender: self.sender@, funds: coins_view(self.funds@) }
    }
}

impl Clone for MessageInfo {
    fn clone(&self) -> (copy: MessageInfo)
        ensures
            copy@ == self@,
    {
        MessageInfo { sender: self.sender.clone(), funds: clone_coins(&self.funds) }
    }
}

} // verus!
