//! Entry points: one request in, the next store and the instructions out.
//!
//! The host loads the store, calls an entry point, and, if the call
//! succeeds, writes the store back and carries out the instructions as one
//! atomic unit. A call that fails has left the store untouched.

use crate::escrow::coin::{coins_view, Coin, CoinView};
use crate::escrow::emitter::{emit, instructions_view, translate_all, Instruction, InstructionView};
use crate::escrow::engine::{Asset, AssetView, Transition};
use crate::escrow::error::ContractError;
use crate::escrow::msg::{HandleMsg, HandleMsgView, InitMsg, OrderListResponse, QueryMsg};
use crate::escrow::state::{State, StateView};
use vstd::prelude::*;

verus! {

/// What the host tells about itself: the address under which the
/// marketplace holds funds and assets.
#[derive(Debug, PartialEq, Eq)]
pub struct Env {
    pub contract_address: String,
}

/// Who sent a request, and the funds attached to it.
#[derive(Debug, PartialEq, Eq)]
pub struct MessageInfo {
    pub sender: String,
    pub sent_funds: Vec<Coin>,
}

/// What the host is to carry out after a request has succeeded.
#[derive(Debug, PartialEq, Eq)]
pub struct HandleResponse {
    pub messages: Vec<Instruction>,
}

/// What a request yields: the next store and the instructions, or a refusal.
pub type Outcome = Result<(StateView, Seq<InstructionView>), ContractError>;

/// A transition with its effects translated for the marketplace at
/// `custody`.
pub open spec fn dispatched(transition: Transition, custody: Seq<char>) -> Outcome {
    match transition {
        Ok((next, effects)) => Ok((next, translate_all(effects, custody))),
        Err(e) => Err(e),
    }
}

/// What request `msg`, sent by `sender` with `funds`, yields on `store`.
pub open spec fn handled(
    store: StateView,
    custody: Seq<char>,
    sender: Seq<char>,
    funds: Seq<CoinView>,
    msg: HandleMsgView,
) -> Outcome {
    match msg {
        HandleMsgView::Create { asset, price } => dispatched(
            store.create(asset, price, sender),
            custody,
        ),
        HandleMsgView::Delegated { .. } => Ok((store, Seq::empty())),
        HandleMsgView::Pay { order_no } => dispatched(store.pay(order_no, sender, funds), custody),
        HandleMsgView::Cancel { order_no } => dispatched(store.cancel(order_no, sender), custody),
    }
}

/// Whether `result` and the store `after` are what `outcome` prescribes.
pub open spec fn delivers(
    outcome: Outcome,
    result: Result<HandleResponse, ContractError>,
    after: StateView,
) -> bool {
    match result {
        Ok(response) => outcome == Ok::<_, ContractError>(
            (after, instructions_view(response.messages@)),
        ),
        Err(e) => outcome == Err::<(StateView, Seq<InstructionView>), _>(e),
    }
}

/// The empty marketplace. Its first order will be number 1.
pub fn init(_env: &Env, _info: &MessageInfo, _msg: InitMsg) -> (state: State)
    ensures
        state@ == (StateView { orders: Seq::empty(), sequence: 1 }),
        state.wf(),
{
    let state = State { orders: Vec::new(), sequence: 1 };
    assert(state@.orders =~= Seq::empty());
    state
}

/// Carries out `msg` on behalf of `info.sender`.
///
/// On success the store is the next store and the response lists the
/// instructions in the order in which the host must carry them out. On
/// failure the store is unchanged. A `Create` needs a counter that is not
/// exhausted.
pub fn handle(state: &mut State, env: &Env, info: MessageInfo, msg: HandleMsg) -> (result: Result<
    HandleResponse,
    ContractError,
>)
    requires
        old(state).wf(),
        msg is Create ==> old(state).sequence < u64::MAX,
    ensures
        final(state).wf(),
        delivers(
            handled(
                old(state)@,
                env.contract_address@,
                info.sender@,
                coins_view(info.sent_funds@),
                msg@,
            ),
            result,
            final(state)@,
        ),
        result is Err ==> *final(state) == *old(state),
{
    match msg {
        HandleMsg::Create { denom, nft_id, name, uri, data, price } => place_order(
            state,
            env,
            info,
            denom,
            nft_id,
            name,
            uri,
            data,
            price,
        ),
        HandleMsg::Delegated { denom, nft_id, price } => delegated_order(
            state,
            env,
            info,
            denom,
            nft_id,
            price,
        ),
        HandleMsg::Pay { order_no } => pay_order(state, env, info, order_no),
        HandleMsg::Cancel { order_no } => cancel_order(state, env, info, order_no),
    }
}

/// Puts an asset up for sale: `info.sender` is the seller, and the host is
/// told to mint the asset into the marketplace's custody.
///
/// Fails with `MalformedInput` when `denom` or `nft_id` is empty or the
/// price is zero.
pub fn place_order(
    state: &mut State,
    env: &Env,
    info: MessageInfo,
    denom: String,
    nft_id: String,
    name: String,
    uri: String,
    data: String,
    price: Coin,
) -> (result: Result<HandleResponse, ContractError>)
    requires
        old(state).wf(),
        old(state).sequence < u64::MAX,
    ensures
        final(state).wf(),
        delivers(
            dispatched(
                old(state)@.create(
                    AssetView { denom: denom@, nft_id: nft_id@, name: name@, uri: uri@, data: data@ },
                    price@,
                    info.sender@,
                ),
                env.contract_address@,
            ),
            result,
            final(state)@,
        ),
        result is Err ==> *final(state) == *old(state),
{
    let asset = Asset { denom, nft_id, name, uri, data };
    match state.create(asset, price, info.sender) {
        Ok(effects) => Ok(HandleResponse { messages: emit(&effects, &env.contract_address) }),
        Err(e) => Err(e),
    }
}

/// Accepts the request and does nothing: no order is made and no
/// instruction is given.
pub fn delegated_order(
    state: &mut State,
    _env: &Env,
    _info: MessageInfo,
    _denom: String,
    _nft_id: String,
    _price: Coin,
) -> (result: Result<HandleResponse, ContractError>)
    ensures
        *final(state) == *old(state),
        result matches Ok(response) && instructions_view(response.messages@) == Seq::<
            InstructionView,
        >::empty(),
{
    let messages: Vec<Instruction> = Vec::new();
    assert(instructions_view(messages@) =~= Seq::empty());
    Ok(HandleResponse { messages })
}

/// Withdraws a pending order for its seller and tells the host to release
/// the asset to the seller.
///
/// Fails with `OrderNotFound` when no order has this number, else with
/// `Unauthorized` when `info.sender` is not its seller, else with
/// `InvalidState` when the order is not pending.
pub fn cancel_order(state: &mut State, env: &Env, info: MessageInfo, order_no: u64) -> (result:
    Result<HandleResponse, ContractError>)
    requires
        old(state).wf(),
    ensures
        final(state).wf(),
        delivers(
            dispatched(old(state)@.cancel(order_no, info.sender@), env.contract_address@),
            result,
            final(state)@,
        ),
        result is Err ==> *final(state) == *old(state),
{
    match state.cancel(order_no, &info.sender) {
        Ok(effects) => Ok(HandleResponse { messages: emit(&effects, &env.contract_address) }),
        Err(e) => Err(e),
    }
}

/// Settles a pending order with the funds attached: `info.sender` becomes
/// the buyer, and the host is told to pay the seller and then to hand the
/// asset to the buyer.
///
/// Fails with `OrderNotFound` when no order has this number, else with
/// `InvalidState` when the order is not pending, else with
/// `InsufficientFunds` when the funds attached are not exactly the price.
pub fn pay_order(state: &mut State, env: &Env, info: MessageInfo, order_no: u64) -> (result: Result<
    HandleResponse,
    ContractError,
>)
    requires
        old(state).wf(),
    ensures
        final(state).wf(),
        delivers(
            dispatched(
                old(state)@.pay(order_no, info.sender@, coins_view(info.sent_funds@)),
                env.contract_address@,
            ),
            result,
            final(state)@,
        ),
        result is Err ==> *final(state) == *old(state),
{
    match state.pay(order_no, info.sender, &info.sent_funds) {
        Ok(effects) => Ok(HandleResponse { messages: emit(&effects, &env.contract_address) }),
        Err(e) => Err(e),
    }
}

/// Answers a read-only request.
pub fn query(state: &State, _env: &Env, msg: QueryMsg) -> (response: OrderListResponse)
    ensures
        response.list@ == state.orders@,
{
    match msg {
        QueryMsg::GetOrderList {  } => query_order_list(state),
    }
}

/// Every order with its number, asset, price, seller, buyer if any, and
/// state, oldest first.
pub fn query_order_list(state: &State) -> (response: OrderListResponse)
    ensures
        response.list@ == state.orders@,
{
    OrderListResponse { list: state.list() }
}

} // verus!
