//! The messages a caller sends, and what the host reports with each call.

use vstd::prelude::*;
use vstd::string::*;

verus! {

/// Sets the marketplace up.
#[derive(Debug, PartialEq, Eq)]
pub struct InstantiateMsg {
    pub initial_price: u128,
    pub royalty_address: String,
}

impl Clone for InstantiateMsg {
    fn clone(&self) -> (copy: InstantiateMsg)
        ensures
            copy == *self,
    {
        InstantiateMsg {
            initial_price: self.initial_price,
            royalty_address: self.royalty_address.clone(),
        }
    }
}

/// The two commands of the marketplace.
#[derive(Clone, Copy, Debug, PartialEq, Eq)]
pub enum ExecuteMsg {
    /// Buy a plot at the given coordinates.
    Buy { coordinates: (i32, i32) },
    /// Claim funds from the treasury based on the user's points.
    Claim {  },
}

/// An amount of one currency.
#[derive(Debug, PartialEq, Eq)]
pub struct Coin {
    pub denom: String,
    pub amount: u128,
}

/// What a [`Coin`] holds, with the denomination as a sequence of characters.
pub struct CoinView {
    pub denom: Seq<char>,
    pub amount: u128,
}

impl View for Coin {
    type V = CoinView;

    open spec fn view(&self) -> CoinView {
        CoinView { denom: self.denom@, amount: self.amount }
    }
}

impl Clone for Coin {
    fn clone(&self) -> (copy: Coin)
        ensures
            copy == *self,
    {
        Coin { denom: self.denom.clone(), amount: self.amount }
    }
}

/// Who makes the call, and the funds attached to it.
#[derive(Debug, PartialEq, Eq)]
pub struct MessageInfo {
    pub sender: String,
    pub funds: Vec<Coin>,
}

/// What a [`MessageInfo`] holds, as mathematical values.
pub struct MessageInfoView {
    pub sender: Seq<char>,
    pub funds: Seq<CoinView>,
}

impl View for MessageInfo {
    type V = MessageInfoView;

    open spec fn view(&self) -> MessageInfoView {
        MessageInfoView { sender: self.sender@, funds: coins_view(self.funds@) }
    }
}

/// Where the call runs: the address at which the marketplace holds its funds.
#[derive(Debug, PartialEq, Eq)]
pub struct Env {
    pub contract_address: String,
}

/// The currency in which parcels are paid for.
pub open spec fn settlement_denom() -> Seq<char> {
    "sei"@
}

/// The currency in which parcels are paid for.
pub fn denom() -> (name: String)
    ensures
        name@ == settlement_denom(),
{
    String::from_str("sei")
}

/// The views of the coins in `funds`, in order.
pub open spec fn coins_view(funds: Seq<Coin>) -> Seq<CoinView> {
    funds.map_values(|coin: Coin| coin@)
}

/// The amount of the settlement currency among `funds`: that of the first
/// coin in that currency, zero if there is none.
pub open spec fn sent_amount(funds: Seq<CoinView>) -> u128
    decreases funds.len(),
{
    if funds.len() == 0 {
        0
    } else if funds[0].denom == settlement_denom() {
        funds[0].amount
    } else {
        sent_amount(funds.subrange(1, funds.len() as int))
    }
}

/// Builds `amount` of the currency `denom` as the only coin of a list.
pub fn coins(amount: u128, denom: &str) -> (funds: Vec<Coin>)
    ensures
        coins_view(funds@) == seq![CoinView { denom: denom@, amount }],
{
    let mut funds: Vec<Coin> = Vec::new();
    funds.push(Coin { denom: String::from_str(denom), amount });
    assert(coins_view(funds@) =~= seq![CoinView { denom: denom@, amount }]);
    funds
}

impl MessageInfo {
    /// The amount of the settlement currency attached to the call.
    pub fn sei_amount(&self) -> (amount: u128)
        ensures
            amount == sent_amount(self@.funds),
    {
        let sei = denom();
        let ghost all = coins_view(self.funds@);
        let mut i: usize = 0;
        assert(all.subrange(0, all.len() as int) =~= all);
        while i < self.funds.len()
            invariant
                i <= self.funds@.len(),
                all == coins_view(self.funds@),
                sei@ == settlement_denom(),
                sent_amount(all) == sent_amount(all.subrange(i as int, all.len() as int)),
            decreases self.funds@.len() - i,
        {
            let ghost rest = all.subrange(i as int, all.len() as int);
            assert(rest[0] == self.funds@[i as int]@);
            assert(rest.subrange(1, rest.len() as int) =~= all.subrange(i + 1, all.len() as int));
            if self.funds[i].denom == sei {
                return self.funds[i].amount;
            }
            i = i + 1;
        }
        assert(all.subrange(i as int, all.len() as int).len() == 0);
        0
    }
}

} // verus!
