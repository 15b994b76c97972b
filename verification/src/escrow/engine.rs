//! The order lifecycle: create, pay, cancel.
//!
//! Each operation is first defined on [`StateView`] as a pure transition
//! that yields the next store and the effects the host must carry out, or
//! the reason for refusing. The executable operations on [`State`] are
//! proved to follow those transitions.

use crate::escrow::coin::{coins_view, pays_exactly, settles, Coin, CoinView};
use crate::escrow::error::ContractError;
use crate::escrow::state::{Order, OrderState, OrderView, State, StateView};
use vstd::prelude::*;

verus! {

/// What an [`Asset`] stands for.
pub struct AssetView {
    pub denom: Seq<char>,
    pub nft_id: Seq<char>,
    pub name: Seq<char>,
    pub uri: Seq<char>,
    pub data: Seq<char>,
}

impl AssetView {
    /// Both the collection and the asset within it are named.
    pub open spec fn named(self) -> bool {
        self.denom.len() > 0 && self.nft_id.len() > 0
    }
}

/// The asset put up for sale: its collection, its identifier there, and the
/// descriptive fields the registry records when it mints the asset.
#[derive(Debug, PartialEq, Eq)]
pub struct Asset {
    pub denom: String,
    pub nft_id: String,
    pub name: String,
    pub uri: String,
    pub data: String,
}

impl View for Asset {
    type V = AssetView;

    open spec fn view(&self) -> AssetView {
        AssetView {
            denom: self.denom@,
            nft_id: self.nft_id@,
            name: self.name@,
            uri: self.uri@,
            data: self.data@,
        }
    }
}

impl Clone for Asset {
    fn clone(&self) -> (copy: Self)
        ensures
            copy == *self,
    {
        Asset {
            denom: self.denom.clone(),
            nft_id: self.nft_id.clone(),
            name: self.name.clone(),
            uri: self.uri.clone(),
            data: self.data.clone(),
        }
    }
}

/// What an [`Effect`] stands for.
pub enum EffectView {
    MintAsset { order_no: nat, asset: AssetView },
    TransferFunds { to: Seq<char>, amount: CoinView },
    TransferAsset { denom: Seq<char>, nft_id: Seq<char>, to: Seq<char> },
}

/// Something the host has to do, together with the store write, for a
/// transition to be complete.
#[derive(Debug, PartialEq, Eq)]
pub enum Effect {
    /// Mint the asset into the marketplace's custody, for the order named.
    MintAsset { order_no: u64, asset: Asset },
    /// Pay `amount` out of custody to `to`.
    TransferFunds { to: String, amount: Coin },
    /// Hand the asset out of custody to `to`.
    TransferAsset { denom: String, nft_id: String, to: String },
}

impl View for Effect {
    type V = EffectView;

    open spec fn view(&self) -> EffectView {
        match *self {
            Effect::MintAsset { order_no, asset } => EffectView::MintAsset {
                order_no: order_no as nat,
                asset: asset@,
            },
            Effect::TransferFunds { to, amount } => EffectView::TransferFunds {
                to: to@,
                amount: amount@,
            },
            Effect::TransferAsset { denom, nft_id, to } => EffectView::TransferAsset {
                denom: denom@,
                nft_id: nft_id@,
                to: to@,
            },
        }
    }
}

/// The views of a list of effects, in order.
pub open spec fn effects_view(effects: Seq<Effect>) -> Seq<EffectView> {
    effects.map_values(|e: Effect| e@)
}

/// What a transition yields: the next store and the effects, or a refusal.
pub type Transition = Result<(StateView, Seq<EffectView>), ContractError>;

impl StateView {
    /// Offers `asset` for `price` on behalf of `seller`. The new order gets
    /// the counter's number and goes to the end of the list; the asset is to
    /// be minted into custody.
    pub open spec fn create(self, asset: AssetView, price: CoinView, seller: Seq<char>) -> Transition {
        if !asset.named() || price.amount == 0 {
            Err(ContractError::MalformedInput {  })
        } else {
            let order = OrderView {
                no: self.sequence,
                denom: asset.denom,
                nft_id: asset.nft_id,
                price,
                seller,
                buyer: None,
                state: OrderState::PENDING,
            };
            Ok(
                (
                    StateView { orders: self.orders.push(order), sequence: self.sequence + 1 },
                    seq![EffectView::MintAsset { order_no: self.sequence, asset }],
                ),
            )
        }
    }

    /// Settles order `no` with `funds` tendered by `payer`. The seller is
    /// to be paid first, then the asset goes to the payer.
    pub open spec fn pay(self, no: u64, payer: Seq<char>, funds: Seq<CoinView>) -> Transition {
        match self.get(no as nat) {
            None => Err(ContractError::OrderNotFound { order_id: no }),
            Some(order) => if order.state != OrderState::PENDING {
                Err(ContractError::InvalidState { order_id: no })
            } else if !settles(funds, order.price) {
                Err(ContractError::InsufficientFunds { order_id: no })
            } else {
                Ok(
                    (
                        self.put(order.paid_by(payer)),
                        seq![
                            EffectView::TransferFunds { to: order.seller, amount: order.price },
                            EffectView::TransferAsset {
                                denom: order.denom,
                                nft_id: order.nft_id,
                                to: payer,
                            },
                        ],
                    ),
                )
            },
        }
    }

    /// Withdraws order `no` at the request of `caller`, who must be its
    /// seller. The asset is to be released to the seller.
    pub open spec fn cancel(self, no: u64, caller: Seq<char>) -> Transition {
        match self.get(no as nat) {
            None => Err(ContractError::OrderNotFound { order_id: no }),
            Some(order) => if caller != order.seller {
                Err(ContractError::Unauthorized {  })
            } else if order.state != OrderState::PENDING {
                Err(ContractError::InvalidState { order_id: no })
            } else {
                Ok(
                    (
                        self.put(order.revoked()),
                        seq![
                            EffectView::TransferAsset {
                                denom: order.denom,
                                nft_id: order.nft_id,
                                to: order.seller,
                            },
                        ],
                    ),
                )
            },
        }
    }
}

impl State {
    /// Creates a pending order for `asset` at `price`, owned by `seller`.
    ///
    /// Fails with `MalformedInput` when the asset's collection or
    /// identifier is empty or the price is zero. The counter must not be
    /// exhausted.
    pub fn create(&mut self, asset: Asset, price: Coin, seller: String) -> (result: Result<
        Vec<Effect>,
        ContractError,
    >)
        requires
            old(self).wf(),
            old(self).sequence < u64::MAX,
        ensures
            final(self).wf(),
            match result {
                Ok(effects) => old(self)@.create(asset@, price@, seller@) == Ok::<_, ContractError>(
                    (final(self)@, effects_view(effects@)),
                ),
                Err(e) => old(self)@.create(asset@, price@, seller@) == Err::<
                    (StateView, Seq<EffectView>),
                    _,
                >(e) && *final(self) == *old(self),
            },
    {
        if asset.denom.as_str().is_empty() || asset.nft_id.as_str().is_empty() || price.amount == 0 {
            return Err(ContractError::MalformedInput {  });
        }
        let no: u64 = self.next_id();
        let order = Order {
            no,
            denom: asset.denom.clone(),
            nft_id: asset.nft_id.clone(),
            price,
            seller,
            buyer: None,
            state: OrderState::PENDING,
        };
        proof {
            assert(!self@.contains(no as nat)) by {
                if self@.contains(no as nat) {
                    let k = self@.index_of(no as nat);
                    assert(old(self)@.orders[k].no < old(self)@.sequence);
                }
            }
            assert forall|i: int| 0 <= i < self@.orders.len() implies (#[trigger] self@.orders[i]).no
                < order@.no by {
                assert(old(self)@.orders[i].no < old(self)@.sequence);
            }
        }
        self.put(order);
        let mut effects: Vec<Effect> = Vec::new();
        effects.push(Effect::MintAsset { order_no: no, asset });
        assert(effects_view(effects@) =~= seq![
            EffectView::MintAsset { order_no: no as nat, asset: asset@ },
        ]);
        Ok(effects)
    }

    /// Settles the pending order `no`: `payer` becomes its buyer.
    ///
    /// Fails with `OrderNotFound` when no order has this number, else with
    /// `InvalidState` when the order is not pending, else with
    /// `InsufficientFunds` when `funds` are not exactly its price.
    pub fn pay(&mut self, no: u64, payer: String, funds: &Vec<Coin>) -> (result: Result<
        Vec<Effect>,
        ContractError,
    >)
        requires
            old(self).wf(),
        ensures
            final(self).wf(),
            match result {
                Ok(effects) => old(self)@.pay(no, payer@, coins_view(funds@)) == Ok::<
                    _,
                    ContractError,
                >((final(self)@, effects_view(effects@))),
                Err(e) => old(self)@.pay(no, payer@, coins_view(funds@)) == Err::<
                    (StateView, Seq<EffectView>),
                    _,
                >(e) && *final(self) == *old(self),
            },
    {
        let order = match self.get(no) {
            None => {
                return Err(ContractError::OrderNotFound { order_id: no });
            },
            Some(found) => found.clone(),
        };
        match order.state {
            OrderState::PENDING => {},
            _ => {
                return Err(ContractError::InvalidState { order_id: no });
            },
        }
        if !pays_exactly(funds, &order.price) {
            return Err(ContractError::InsufficientFunds { order_id: no });
        }
        let mut effects: Vec<Effect> = Vec::new();
        effects.push(
            Effect::TransferFunds { to: order.seller.clone(), amount: order.price.clone() },
        );
        effects.push(
            Effect::TransferAsset {
                denom: order.denom.clone(),
                nft_id: order.nft_id.clone(),
                to: payer.clone(),
            },
        );
        assert(effects_view(effects@) =~= seq![
            EffectView::TransferFunds { to: order@.seller, amount: order@.price },
            EffectView::TransferAsset { denom: order@.denom, nft_id: order@.nft_id, to: payer@ },
        ]);
        let paid = Order {
            no: order.no,
            denom: order.denom,
            nft_id: order.nft_id,
            price: order.price,
            seller: order.seller,
            buyer: Some(payer),
            state: OrderState::PAID,
        };
        assert(paid@ == order@.paid_by(payer@));
        self.put(paid);
        Ok(effects)
    }

    /// Withdraws the pending order `no` for its seller.
    ///
    /// Fails with `OrderNotFound` when no order has this number, else with
    /// `Unauthorized` when `caller` is not its seller, else with
    /// `InvalidState` when the order is not pending.
    pub fn cancel(&mut self, no: u64, caller: &String) -> (result: Result<
        Vec<Effect>,
        ContractError,
    >)
        requires
            old(self).wf(),
        ensures
            final(self).wf(),
            match result {
                Ok(effects) => old(self)@.cancel(no, caller@) == Ok::<_, ContractError>(
                    (final(self)@, effects_view(effects@)),
                ),
                Err(e) => old(self)@.cancel(no, caller@) == Err::<(StateView, Seq<EffectView>), _>(
                    e,
                ) && *final(self) == *old(self),
            },
    {
        let order = match self.get(no) {
            None => {
                return Err(ContractError::OrderNotFound { order_id: no });
            },
            Some(found) => found.clone(),
        };
        if *caller != order.seller {
            return Err(ContractError::Unauthorized {  });
        }
        match order.state {
            OrderState::PENDING => {},
            _ => {
                return Err(ContractError::InvalidState { order_id: no });
            },
        }
        let mut effects: Vec<Effect> = Vec::new();
        effects.push(
            Effect::TransferAsset {
                denom: order.denom.clone(),
                nft_id: order.nft_id.clone(),
                to: order.seller.clone(),
            },
        );
        assert(effects_view(effects@) =~= seq![
            EffectView::TransferAsset {
                denom: order@.denom,
                nft_id: order@.nft_id,
                to: order@.seller,
            },
        ]);
        let revoked = Order {
            no: order.no,
            denom: order.denom,
            nft_id: order.nft_id,
            price: order.price,
            seller: order.seller,
            buyer: order.buyer,
            state: OrderState::REVOKE,
        };
        assert(revoked@ == order@.revoked());
        self.put(revoked);
        Ok(effects)
    }
}

} // verus!
