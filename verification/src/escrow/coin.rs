//! Amounts of money and the settlement test.

use vstd::prelude::*;

verus! {

/// What a [`Coin`] stands for: a currency name and a natural amount.
pub struct CoinView {
    pub denom: Seq<char>,
    pub amount: nat,
}

/// An amount of one currency denomination.
#[derive(Debug, PartialEq, Eq)]
pub struct Coin {
    pub denom: String,
    pub amount: u128,
}

impl View for Coin {
    type V = CoinView;

    open spec fn view(&self) -> CoinView {
        CoinView { denom: self.denom@, amount: self.amount as nat }
    }
}

impl Clone for Coin {
    fn clone(&self) -> (copy: Self)
        ensures
            copy == *self,
    {
        Coin { denom: self.denom.clone(), amount: self.amount }
    }
}

impl Coin {
    pub fn new(amount: u128, denom: String) -> (coin: Coin)
        ensures
            coin.denom == denom,
            coin.amount == amount,
    {
        Coin { denom, amount }
    }

    /// Whether both coins name the same currency and the same amount.
    pub fn same(&self, other: &Coin) -> (equal: bool)
        ensures
            equal == (self@ == other@),
    {
        self.amount == other.amount && self.denom == other.denom
    }
}

/// The views of a list of coins, in order.
pub open spec fn coins_view(coins: Seq<Coin>) -> Seq<CoinView> {
    coins.map_values(|c: Coin| c@)
}

/// Tendered funds settle a price exactly when they are one coin of the
/// price's denomination and amount: nothing missing, nothing left over.
pub open spec fn settles(funds: Seq<CoinView>, price: CoinView) -> bool {
    funds.len() == 1 && funds[0] == price
}

/// Decides whether `funds` settle `price`.
pub fn pays_exactly(funds: &Vec<Coin>, price: &Coin) -> (ok: bool)
    ensures
        ok == settles(coins_view(funds@), price@),
{
    funds.len() == 1 && funds[0].same(price)
}

} // verus!
