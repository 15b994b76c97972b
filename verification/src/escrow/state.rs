//! Orders and the store that keeps them.

use crate::escrow::coin::{Coin, CoinView};
use vstd::prelude::*;

verus! {

/// Where an order stands. `PAID` and `REVOKE` are final.
#[allow(non_camel_case_types)]
#[derive(Clone, Copy, Debug, PartialEq, Eq, Structural)]
pub enum OrderState {
    PENDING,
    PAID,
    REVOKE,
}

/// What an [`Order`] stands for.
pub struct OrderView {
    pub no: nat,
    pub denom: Seq<char>,
    pub nft_id: Seq<char>,
    pub price: CoinView,
    pub seller: Seq<char>,
    pub buyer: Option<Seq<char>>,
    pub state: OrderState,
}

impl OrderView {
    /// A buyer is recorded exactly on paid orders.
    pub open spec fn wf(self) -> bool {
        self.buyer is Some <==> self.state == OrderState::PAID
    }

    /// This order after `payer` has settled it.
    pub open spec fn paid_by(self, payer: Seq<char>) -> OrderView {
        OrderView { buyer: Some(payer), state: OrderState::PAID, ..self }
    }

    /// This order after its seller has withdrawn it.
    pub open spec fn revoked(self) -> OrderView {
        OrderView { state: OrderState::REVOKE, ..self }
    }
}

/// One asset offered for one price.
#[derive(Debug, PartialEq, Eq)]
pub struct Order {
    /// Sequence number, assigned at creation and never changed.
    pub no: u64,
    /// Collection the asset belongs to.
    pub denom: String,
    /// The asset within its collection.
    pub nft_id: String,
    pub price: Coin,
    pub seller: String,
    /// The settling party; absent until the order is paid.
    pub buyer: Option<String>,
    pub state: OrderState,
}

impl View for Order {
    type V = OrderView;

    open spec fn view(&self) -> OrderView {
        OrderView {
            no: self.no as nat,
            denom: self.denom@,
            nft_id: self.nft_id@,
            price: self.price@,
            seller: self.seller@,
            buyer: match self.buyer {
                Some(b) => Some(b@),
                None => None,
            },
            state: self.state,
        }
    }
}

impl Clone for Order {
    fn clone(&self) -> (copy: Self)
        ensures
            copy == *self,
    {
        Order {
            no: self.no,
            denom: self.denom.clone(),
            nft_id: self.nft_id.clone(),
            price: self.price.clone(),
            seller: self.seller.clone(),
            buyer: match &self.buyer {
                Some(b) => Some(b.clone()),
                None => None,
            },
            state: self.state,
        }
    }
}

impl Order {
    pub open spec fn wf(&self) -> bool {
        self@.wf()
    }

    /// Decides [`Order::wf`].
    pub fn is_well_formed(&self) -> (ok: bool)
        ensures
            ok == self.wf(),
    {
        match self.state {
            OrderState::PAID => self.buyer.is_some(),
            _ => self.buyer.is_none(),
        }
    }
}

/// The views of a list of orders, in order.
pub open spec fn orders_view(orders: Seq<Order>) -> Seq<OrderView> {
    orders.map_values(|o: Order| o@)
}

/// What a [`State`] stands for: the orders in the order of their creation,
/// and the number that the next order will get.
pub struct StateView {
    pub orders: Seq<OrderView>,
    pub sequence: nat,
}

impl StateView {
    /// Every order is well formed, numbers rise strictly along the list
    /// (so no two orders share one) and all lie below the counter (so the
    /// next number is fresh).
    pub open spec fn wf(self) -> bool {
        &&& forall|i: int|
            0 <= i < self.orders.len() ==> (#[trigger] self.orders[i]).wf() && self.orders[i].no
                < self.sequence
        &&& forall|i: int, j: int|
            0 <= i < j < self.orders.len() ==> (#[trigger] self.orders[i]).no
                < (#[trigger] self.orders[j]).no
    }

    /// Whether some order carries the number `no`.
    pub open spec fn contains(self, no: nat) -> bool {
        exists|i: int| 0 <= i < self.orders.len() && (#[trigger] self.orders[i]).no == no
    }

    /// The place of the order numbered `no`, if there is one.
    pub open spec fn index_of(self, no: nat) -> int {
        choose|i: int| 0 <= i < self.orders.len() && (#[trigger] self.orders[i]).no == no
    }

    /// The order numbered `no`.
    pub open spec fn get(self, no: nat) -> Option<OrderView> {
        if self.contains(no) {
            Some(self.orders[self.index_of(no)])
        } else {
            None
        }
    }

    /// The store with `order` in the place of the order that had its number,
    /// or at the end if none had.
    pub open spec fn put(self, order: OrderView) -> StateView {
        if self.contains(order.no) {
            StateView { orders: self.orders.update(self.index_of(order.no), order), ..self }
        } else {
            StateView { orders: self.orders.push(order), ..self }
        }
    }

    /// Whether `order` may be written: it either replaces the order of its
    /// number or carries a number that was handed out and not yet used.
    pub open spec fn admits(self, order: OrderView) -> bool {
        &&& order.wf()
        &&& order.no < self.sequence
        &&& self.contains(order.no) || forall|i: int|
            0 <= i < self.orders.len() ==> (#[trigger] self.orders[i]).no < order.no
    }

    /// With rising numbers, an order's place is determined by its number.
    pub proof fn lemma_index_of(self, i: int)
        requires
            self.wf(),
            0 <= i < self.orders.len(),
        ensures
            self.contains(self.orders[i].no),
            self.index_of(self.orders[i].no) == i,
            self.get(self.orders[i].no) == Some(self.orders[i]),
    {
        let no = self.orders[i].no;
        let j = self.index_of(no);
        assert(0 <= j < self.orders.len() && self.orders[j].no == no);
        if j < i {
            assert(self.orders[j].no < self.orders[i].no);
        } else if i < j {
            assert(self.orders[i].no < self.orders[j].no);
        }
    }

    /// Writing an admitted order keeps the store well formed.
    pub proof fn lemma_put_wf(self, order: OrderView)
        requires
            self.wf(),
            self.admits(order),
        ensures
            self.put(order).wf(),
            self.put(order).sequence == self.sequence,
    {
        let next = self.put(order);
        if self.contains(order.no) {
            let k = self.index_of(order.no);
            assert(0 <= k < self.orders.len() && self.orders[k].no == order.no);
            assert forall|i: int| 0 <= i < next.orders.len() implies (#[trigger] next.orders[i]).wf()
                && next.orders[i].no < next.sequence by {
                assert(self.orders[i].wf());
            }
            assert forall|i: int, j: int| 0 <= i < j < next.orders.len() implies (
            #[trigger] next.orders[i]).no < (#[trigger] next.orders[j]).no by {
                assert(self.orders[i].no < self.orders[j].no);
            }
        } else {
            assert forall|i: int| 0 <= i < next.orders.len() implies (#[trigger] next.orders[i]).wf()
                && next.orders[i].no < next.sequence by {
                if i < self.orders.len() {
                    assert(self.orders[i].wf());
                }
            }
            assert forall|i: int, j: int| 0 <= i < j < next.orders.len() implies (
            #[trigger] next.orders[i]).no < (#[trigger] next.orders[j]).no by {
                if j < self.orders.len() {
                    assert(self.orders[i].no < self.orders[j].no);
                } else {
                    assert(self.orders[i].no < order.no);
                }
            }
        }
    }
}

/// The marketplace's store: every order ever created, oldest first, and
/// the counter from which order numbers are drawn.
#[derive(Debug, PartialEq, Eq)]
pub struct State {
    pub orders: Vec<Order>,
    pub sequence: u64,
}

impl View for State {
    type V = StateView;

    open spec fn view(&self) -> StateView {
        StateView { orders: orders_view(self.orders@), sequence: self.sequence as nat }
    }
}

impl Clone for State {
    fn clone(&self) -> (copy: Self)
        ensures
            copy@ == self@,
    {
        State { orders: self.list(), sequence: self.sequence }
    }
}

impl State {
    pub open spec fn wf(&self) -> bool {
        self@.wf()
    }

    /// Decides [`State::wf`], for a store that comes from outside.
    pub fn is_well_formed(&self) -> (ok: bool)
        ensures
            ok == self.wf(),
    {
        let n: usize = self.orders.len();
        let mut i: usize = 0;
        while i < n
            invariant
                n == self.orders.len(),
                i <= n,
                forall|k: int|
                    0 <= k < i ==> (#[trigger] self@.orders[k]).wf() && self@.orders[k].no
                        < self@.sequence,
                forall|a: int, b: int|
                    0 <= a < b < i ==> (#[trigger] self@.orders[a]).no < (
                    #[trigger] self@.orders[b]).no,
            decreases n - i,
        {
            let order = &self.orders[i];
            assert(order@ == self@.orders[i as int]);
            if !order.is_well_formed() || order.no >= self.sequence {
                return false;
            }
            if i > 0 {
                let before = &self.orders[i - 1];
                assert(before@ == self@.orders[i - 1]);
                if before.no >= order.no {
                    return false;
                }
                assert forall|a: int| 0 <= a < i implies (#[trigger] self@.orders[a]).no
                    < self@.orders[i as int].no by {
                    if a < i - 1 {
                        assert(self@.orders[a].no < self@.orders[i - 1].no);
                    }
                }
            }
            i = i + 1;
        }
        true
    }

    /// Finds the first order numbered `no`.
    pub fn position(&self, no: u64) -> (at: Option<usize>)
        ensures
            match at {
                Some(i) => i < self.orders.len() && self.orders[i as int].no == no,
                None => !self@.contains(no as nat),
            },
            self.wf() && at is Some ==> self@.index_of(no as nat) == at->0,
            at is Some <==> self@.contains(no as nat),
    {
        let n: usize = self.orders.len();
        let mut i: usize = 0;
        while i < n
            invariant
                n == self.orders.len(),
                i <= n,
                forall|k: int| 0 <= k < i ==> (#[trigger] self@.orders[k]).no != no,
            decreases n - i,
        {
            assert(self.orders[i as int]@ == self@.orders[i as int]);
            if self.orders[i].no == no {
                proof {
                    if self.wf() {
                        self@.lemma_index_of(i as int);
                    }
                }
                return Some(i);
            }
            i = i + 1;
        }
        None
    }

    /// Looks up the order numbered `no`.
    pub fn get(&self, no: u64) -> (found: Option<&Order>)
        requires
            self.wf(),
        ensures
            match found {
                Some(order) => self@.get(no as nat) == Some(order@),
                None => self@.get(no as nat) is None,
            },
    {
        match self.position(no) {
            Some(i) => {
                assert(self.orders[i as int]@ == self@.orders[i as int]);
                Some(&self.orders[i])
            },
            None => None,
        }
    }

    /// Writes `order`: over the order of the same number if there is one,
    /// else at the end.
    pub fn put(&mut self, order: Order)
        requires
            old(self).wf(),
            old(self)@.admits(order@),
        ensures
            final(self)@ == old(self)@.put(order@),
            final(self).wf(),
    {
        proof {
            self@.lemma_put_wf(order@);
        }
        match self.position(order.no) {
            Some(i) => {
                self.orders.set(i, order);
                assert(self@.orders =~= old(self)@.orders.update(i as int, order@));
            },
            None => {
                self.orders.push(order);
                assert(self@.orders =~= old(self)@.orders.push(order@));
            },
        }
    }

    /// All orders, oldest first.
    pub fn list(&self) -> (all: Vec<Order>)
        ensures
            all@ == self.orders@,
    {
        let n: usize = self.orders.len();
        let mut all: Vec<Order> = Vec::new();
        let mut i: usize = 0;
        while i < n
            invariant
                n == self.orders.len(),
                i <= n,
                all@ == self.orders@.subrange(0, i as int),
            decreases n - i,
        {
            all.push(self.orders[i].clone());
            assert(all@ =~= self.orders@.subrange(0, i + 1));
            i = i + 1;
        }
        assert(all@ =~= self.orders@);
        all
    }

    /// Hands out the next order number and advances the counter.
    pub fn next_id(&mut self) -> (id: u64)
        requires
            old(self).wf(),
            old(self).sequence < u64::MAX,
        ensures
            id == old(self).sequence,
            final(self).sequence == id + 1,
            final(self).orders == old(self).orders,
            final(self).wf(),
    {
        let id: u64 = self.sequence;
        self.sequence = id + 1;
        assert(self@.orders == old(self)@.orders);
        id
    }
}

} // verus!
