//! What holds of the marketplace whatever is asked of it.
//!
//! The laws are stated over the transitions of [`StateView`]; the
//! executable operations are proved to follow those transitions, so the
//! laws hold of them too.

use crate::escrow::coin::{settles, CoinView};
use crate::escrow::engine::{AssetView, EffectView, Transition};
use crate::escrow::error::ContractError;
use crate::escrow::state::{OrderState, OrderView, StateView};
use vstd::prelude::*;

verus! {

/// One request to the engine, with everything it depends on.
pub enum Call {
    Create { asset: AssetView, price: CoinView, seller: Seq<char> },
    Pay { no: u64, payer: Seq<char>, funds: Seq<CoinView> },
    Cancel { no: u64, caller: Seq<char> },
}

/// The transition that `call` asks for.
pub open spec fn step(store: StateView, call: Call) -> Transition {
    match call {
        Call::Create { asset, price, seller } => store.create(asset, price, seller),
        Call::Pay { no, payer, funds } => store.pay(no, payer, funds),
        Call::Cancel { no, caller } => store.cancel(no, caller),
    }
}

/// The store after `call`: the next store if the call succeeds, the same
/// store if it is refused.
pub open spec fn after(store: StateView, call: Call) -> StateView {
    match step(store, call) {
        Ok((next, _)) => next,
        Err(_) => store,
    }
}

/// The store after `calls` have been made one after the other.
pub open spec fn run(store: StateView, calls: Seq<Call>) -> StateView
    decreases calls.len(),
{
    if calls.len() == 0 {
        store
    } else {
        after(run(store, calls.drop_last()), calls.last())
    }
}

/// The number given to the order that the `k`-th of `calls` creates, if
/// that call is a `Create` that succeeds.
pub open spec fn assigned(store: StateView, calls: Seq<Call>, k: int) -> Option<nat> {
    let before = run(store, calls.take(k));
    if calls[k] is Create && step(before, calls[k]) is Ok {
        Some(before.sequence)
    } else {
        None
    }
}

/// How one order may differ between an earlier and a later store: not at
/// all, or it was pending and is now paid with a buyer, or it was pending
/// and is now revoked. Nothing else about it changes.
pub open spec fn evolved(before: OrderView, later: OrderView) -> bool {
    ||| later == before
    ||| before.state == OrderState::PENDING && later.buyer is Some && later == before.paid_by(
        later.buyer->0,
    )
    ||| before.state == OrderState::PENDING && later == before.revoked()
}

/// How a later store relates to an earlier one: no order has gone, each of
/// the earlier orders has [`evolved`], and the counter has not gone back.
pub open spec fn extends(before: StateView, later: StateView) -> bool {
    &&& before.orders.len() <= later.orders.len()
    &&& before.sequence <= later.sequence
    &&& forall|i: int|
        0 <= i < before.orders.len() ==> evolved(before.orders[i], #[trigger] later.orders[i])
}

/// An order that the store holds is found under its number, at a place
/// within the list.
pub proof fn lemma_get(store: StateView, no: nat)
    requires
        store.get(no) is Some,
    ensures
        store.contains(no),
        0 <= store.index_of(no) < store.orders.len(),
        store.orders[store.index_of(no)].no == no,
        store.get(no) == Some(store.orders[store.index_of(no)]),
{
}

/// Every transition leads from a well-formed store to a well-formed store
/// that [`extends`] it.
pub proof fn law_step_extends(store: StateView, call: Call)
    requires
        store.wf(),
    ensures
        after(store, call).wf(),
        extends(store, after(store, call)),
{
    let next = after(store, call);
    match call {
        Call::Create { asset, price, seller } => {
            if step(store, call) is Ok {
                let order = next.orders[store.orders.len() as int];
                assert(order.no == store.sequence);
                assert forall|i: int| 0 <= i < next.orders.len() implies (#[trigger] next.orders[i]).wf()
                    && next.orders[i].no < next.sequence by {
                    if i < store.orders.len() {
                        assert(store.orders[i].wf());
                    }
                }
                assert forall|i: int, j: int| 0 <= i < j < next.orders.len() implies (
                #[trigger] next.orders[i]).no < (#[trigger] next.orders[j]).no by {
                    if j < store.orders.len() {
                        assert(store.orders[i].no < store.orders[j].no);
                    } else {
                        assert(store.orders[i].no < store.sequence);
                    }
                }
                assert forall|i: int| 0 <= i < store.orders.len() implies evolved(
                    store.orders[i],
                    #[trigger] next.orders[i],
                ) by {}
            } else {
                assert forall|i: int| 0 <= i < store.orders.len() implies evolved(
                    store.orders[i],
                    #[trigger] next.orders[i],
                ) by {}
            }
        },
        Call::Pay { no, payer, funds } => {
            if step(store, call) is Ok {
                lemma_get(store, no as nat);
                let k = store.index_of(no as nat);
                let order = store.orders[k];
                assert(order.wf());
                store.lemma_put_wf(order.paid_by(payer));
                assert(next.orders == store.orders.update(k, order.paid_by(payer)));
                assert forall|i: int| 0 <= i < store.orders.len() implies evolved(
                    store.orders[i],
                    #[trigger] next.orders[i],
                ) by {}
            } else {
                assert forall|i: int| 0 <= i < store.orders.len() implies evolved(
                    store.orders[i],
                    #[trigger] next.orders[i],
                ) by {}
            }
        },
        Call::Cancel { no, caller } => {
            if step(store, call) is Ok {
                lemma_get(store, no as nat);
                let k = store.index_of(no as nat);
                let order = store.orders[k];
                assert(order.wf());
                store.lemma_put_wf(order.revoked());
                assert(next.orders == store.orders.update(k, order.revoked()));
                assert forall|i: int| 0 <= i < store.orders.len() implies evolved(
                    store.orders[i],
                    #[trigger] next.orders[i],
                ) by {}
            } else {
                assert forall|i: int| 0 <= i < store.orders.len() implies evolved(
                    store.orders[i],
                    #[trigger] next.orders[i],
                ) by {}
            }
        },
    }
}

/// [`extends`] composes: what holds from a first store to a second and
/// from the second to a third holds from the first to the third. A paid or
/// revoked order therefore never changes again.
pub proof fn lemma_extends_transitive(a: StateView, b: StateView, c: StateView)
    requires
        extends(a, b),
        extends(b, c),
    ensures
        extends(a, c),
{
    assert forall|i: int| 0 <= i < a.orders.len() implies evolved(
        a.orders[i],
        #[trigger] c.orders[i],
    ) by {
        assert(evolved(a.orders[i], b.orders[i]));
        assert(evolved(b.orders[i], c.orders[i]));
    }
}

/// Whatever calls are made, and whether they succeed or not, the store
/// stays well formed, keeps every order under its number, and changes an
/// order only from pending to paid or from pending to revoked.
pub proof fn law_history_kept(store: StateView, calls: Seq<Call>)
    requires
        store.wf(),
    ensures
        run(store, calls).wf(),
        extends(store, run(store, calls)),
    decreases calls.len(),
{
    if calls.len() == 0 {
        assert forall|i: int| 0 <= i < store.orders.len() implies evolved(
            store.orders[i],
            #[trigger] store.orders[i],
        ) by {}
    } else {
        let before = run(store, calls.drop_last());
        law_history_kept(store, calls.drop_last());
        law_step_extends(before, calls.last());
        lemma_extends_transitive(store, before, run(store, calls));
    }
}

/// The counter after the first `j` calls is at least the counter after the
/// first `i`, for `i <= j`.
pub proof fn lemma_counter_rises(store: StateView, calls: Seq<Call>, i: int, j: int)
    requires
        store.wf(),
        0 <= i <= j <= calls.len(),
    ensures
        run(store, calls.take(i)).wf(),
        run(store, calls.take(i)).sequence <= run(store, calls.take(j)).sequence,
    decreases j - i,
{
    law_history_kept(store, calls.take(i));
    if i < j {
        lemma_counter_rises(store, calls, i, j - 1);
        let shorter = run(store, calls.take(j - 1));
        law_history_kept(store, calls.take(j - 1));
        assert(calls.take(j).drop_last() =~= calls.take(j - 1));
        assert(calls.take(j).last() == calls[j - 1]);
        law_step_extends(shorter, calls[j - 1]);
    }
}

/// Order numbers rise strictly: of two orders created in the course of any
/// sequence of calls, the later one has the greater number. So no number is
/// given twice.
pub proof fn law_numbers_rise(store: StateView, calls: Seq<Call>, i: int, j: int)
    requires
        store.wf(),
        0 <= i < j < calls.len(),
        assigned(store, calls, i) is Some,
        assigned(store, calls, j) is Some,
    ensures
        assigned(store, calls, i)->0 < assigned(store, calls, j)->0,
{
    let before = run(store, calls.take(i));
    assert(calls.take(i + 1).drop_last() =~= calls.take(i));
    assert(calls.take(i + 1).last() == calls[i]);
    assert(run(store, calls.take(i + 1)) == after(before, calls[i]));
    assert(run(store, calls.take(i + 1)).sequence == before.sequence + 1);
    lemma_counter_rises(store, calls, i + 1, j);
}

/// The number that a successful `Create` gives to its order is the
/// counter's: a number that no order in the store carries, greater than
/// all of theirs. The order is added at the end and the effect names it.
pub proof fn law_number_fresh(store: StateView, asset: AssetView, price: CoinView, seller: Seq<char>)
    requires
        store.wf(),
        store.create(asset, price, seller) is Ok,
    ensures
        !store.contains(store.sequence),
        forall|i: int|
            0 <= i < store.orders.len() ==> (#[trigger] store.orders[i]).no < store.sequence,
        ({
            let (next, effects) = store.create(asset, price, seller)->Ok_0;
            &&& next.orders.len() == store.orders.len() + 1
            &&& next.orders.last().no == store.sequence
            &&& next.sequence == store.sequence + 1
            &&& effects.len() == 1
            &&& effects[0] == (EffectView::MintAsset { order_no: store.sequence, asset })
        }),
{
    if store.contains(store.sequence) {
        let k = store.index_of(store.sequence);
        assert(store.orders[k].no < store.sequence);
    }
}

/// Paying an order that is paid or revoked fails with `InvalidState`,
/// whoever pays and whatever funds are tendered. A refusal carries no next
/// store and no effects.
pub proof fn law_pay_settled_order(
    store: StateView,
    no: u64,
    payer: Seq<char>,
    funds: Seq<CoinView>,
)
    requires
        store.get(no as nat) matches Some(order) && order.state != OrderState::PENDING,
    ensures
        store.pay(no, payer, funds) == Err::<(StateView, Seq<EffectView>), _>(
            ContractError::InvalidState { order_id: no },
        ),
        after(store, Call::Pay { no, payer, funds }) == store,
{
}

/// Cancelling an order as anyone but its seller fails with
/// `Unauthorized`, whatever state the order is in.
pub proof fn law_cancel_by_stranger(store: StateView, no: u64, caller: Seq<char>)
    requires
        store.get(no as nat) matches Some(order) && order.seller != caller,
    ensures
        store.cancel(no, caller) == Err::<(StateView, Seq<EffectView>), _>(
            ContractError::Unauthorized {  },
        ),
        after(store, Call::Cancel { no, caller }) == store,
{
}

/// Paying a pending order with funds that are not exactly its price fails
/// with `InsufficientFunds`: too little, too much, another denomination,
/// no coin or more than one.
pub proof fn law_pay_inexact_funds(
    store: StateView,
    no: u64,
    payer: Seq<char>,
    funds: Seq<CoinView>,
)
    requires
        store.get(no as nat) matches Some(order) && order.state == OrderState::PENDING && !(
        funds.len() == 1 && funds[0].denom == order.price.denom && funds[0].amount
            == order.price.amount),
    ensures
        store.pay(no, payer, funds) == Err::<(StateView, Seq<EffectView>), _>(
            ContractError::InsufficientFunds { order_id: no },
        ),
        after(store, Call::Pay { no, payer, funds }) == store,
{
}

/// After a successful `Create` the list of orders is the list before with
/// one order more at its end: pending, without a buyer, and holding what
/// was offered. On an empty store that order is the only one.
pub proof fn law_create_then_list(
    store: StateView,
    asset: AssetView,
    price: CoinView,
    seller: Seq<char>,
)
    requires
        store.create(asset, price, seller) is Ok,
    ensures
        ({
            let next = store.create(asset, price, seller)->Ok_0.0;
            let order = next.orders.last();
            &&& next.orders.drop_last() == store.orders
            &&& order.state == OrderState::PENDING
            &&& order.buyer is None
            &&& order.no == store.sequence
            &&& order.denom == asset.denom
            &&& order.nft_id == asset.nft_id
            &&& order.price == price
            &&& order.seller == seller
            &&& store.orders.len() == 0 ==> next.orders == seq![order]
        }),
{
    let next = store.create(asset, price, seller)->Ok_0.0;
    assert(next.orders.drop_last() =~= store.orders);
    if store.orders.len() == 0 {
        assert(next.orders =~= seq![next.orders.last()]);
    }
}

} // verus!
