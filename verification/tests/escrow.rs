use contracts::escrow::coin::{pays_exactly, Coin};
use contracts::escrow::contract;
use contracts::escrow::contract::{
    cancel_order, delegated_order, handle, init, pay_order, query, query_order_list, Env,
    HandleResponse, MessageInfo,
};
use contracts::escrow::emitter::{emit, emit_one, Instruction};
use contracts::escrow::engine::{Asset, Effect};
use contracts::escrow::error::ContractError;
use contracts::escrow::msg::{
    create_wasm_custom_msg, HandleMsg, InitMsg, MsgMintNFT, MsgTransferNFT, QueryMsg,
};
use contracts::escrow::state::{Order, OrderState, State};

fn coins(amount: u128, denom: &str) -> Vec<Coin> {
    vec![Coin::new(amount, denom.to_string())]
}

fn mock_env() -> Env {
    Env { contract_address: "cosmos2contract".to_string() }
}

fn mock_info(sender: &str, funds: &[Coin]) -> MessageInfo {
    MessageInfo { sender: sender.to_string(), sent_funds: funds.to_vec() }
}

fn create_msg(nft_id: &str, amount: u128, denom: &str) -> HandleMsg {
    HandleMsg::Create {
        denom: "cert".to_string(),
        nft_id: nft_id.to_string(),
        name: "test".to_string(),
        uri: "test".to_string(),
        data: "test".to_string(),
        price: Coin::new(amount, denom.to_string()),
    }
}

fn market() -> State {
    init(&mock_env(), &mock_info("creator", &coins(2, "iris")), InitMsg {})
}

fn market_with_order(seller: &str) -> State {
    let mut state = market();
    handle(&mut state, &mock_env(), mock_info(seller, &[]), create_msg("nft-1", 100, "iris"))
        .unwrap();
    state
}

fn pending(no: u64, seller: &str) -> Order {
    Order {
        no,
        denom: "cert".to_string(),
        nft_id: "nft-1".to_string(),
        price: Coin::new(100, "iris".to_string()),
        seller: seller.to_string(),
        buyer: None,
        state: OrderState::PENDING,
    }
}

#[test]
fn proper_initialization() {
    let info = mock_info("creator", &coins(1000, "earth"));
    let state = init(&mock_env(), &info, InitMsg {});
    assert_eq!(0, state.orders.len());
    assert_eq!(1, state.sequence);
    assert!(state.is_well_formed());
    let res = query(&state, &mock_env(), QueryMsg::GetOrderList {});
    assert_eq!(0, res.list.len());
}

#[test]
fn place_order() {
    let info = mock_info("creator", &coins(2, "iris"));
    let mut state = init(&mock_env(), &info, InitMsg {});

    let info = mock_info("voter1", &coins(2, "iris"));
    let msg = HandleMsg::Create {
        denom: "cert".to_string(),
        nft_id: "id1".to_string(),
        name: "test".to_string(),
        uri: "test".to_string(),
        data: "test".to_string(),
        price: Coin::new(100u128, "iris".to_string()),
    };
    let _res = handle(&mut state, &mock_env(), info, msg).unwrap();

    let value = query(&state, &mock_env(), QueryMsg::GetOrderList {});
    assert_eq!(1, value.list.len());

    let msg = HandleMsg::Pay { order_no: 1 };
    let info = mock_info("voter2", &coins(100, "iris"));
    let _res = handle(&mut state, &mock_env(), info, msg).unwrap();

    let value = query(&state, &mock_env(), QueryMsg::GetOrderList {});
    assert_eq!(1, value.list.len());

    let order = value.list.get(0).unwrap();
    assert_eq!(OrderState::PAID, order.state);
}

#[test]
fn create_then_pay_settles_the_order() {
    let mut state = market();
    let res = handle(&mut state, &mock_env(), mock_info("S", &[]), create_msg("nft-1", 100, "iris"))
        .unwrap();
    assert_eq!(
        res.messages,
        vec![Instruction::MintAsset(MsgMintNFT {
            id: "nft-1".to_string(),
            denom_id: "cert".to_string(),
            name: "test".to_string(),
            uri: "test".to_string(),
            data: "test".to_string(),
            sender: "cosmos2contract".to_string(),
            recipient: "cosmos2contract".to_string(),
        })]
    );
    assert_eq!(state.orders, vec![pending(1, "S")]);
    assert_eq!(state.sequence, 2);

    let res = handle(
        &mut state,
        &mock_env(),
        mock_info("B", &coins(100, "iris")),
        HandleMsg::Pay { order_no: 1 },
    )
    .unwrap();
    assert_eq!(
        res.messages,
        vec![
            Instruction::TransferFunds {
                from_address: "cosmos2contract".to_string(),
                to_address: "S".to_string(),
                amount: coins(100, "iris"),
            },
            Instruction::TransferAsset(MsgTransferNFT {
                id: "nft-1".to_string(),
                denom_id: "cert".to_string(),
                name: "[do-not-modify]".to_string(),
                data: "[do-not-modify]".to_string(),
                uri: "[do-not-modify]".to_string(),
                sender: "cosmos2contract".to_string(),
                recipient: "B".to_string(),
            }),
        ]
    );
    let mut paid = pending(1, "S");
    paid.state = OrderState::PAID;
    paid.buyer = Some("B".to_string());
    assert_eq!(state.orders, vec![paid]);
    assert_eq!(state.sequence, 2);
    assert!(state.is_well_formed());
}

#[test]
fn cancel_after_payment_is_refused() {
    let mut state = market_with_order("S");
    handle(&mut state, &mock_env(), mock_info("B", &coins(100, "iris")), HandleMsg::Pay { order_no: 1 })
        .unwrap();
    let before = state.clone();
    let res = handle(&mut state, &mock_env(), mock_info("S", &[]), HandleMsg::Cancel { order_no: 1 });
    assert_eq!(res, Err(ContractError::InvalidState { order_id: 1 }));
    assert_eq!(state, before);
}

#[test]
fn cancel_while_pending_revokes_the_order() {
    let mut state = market_with_order("S");
    let res = handle(&mut state, &mock_env(), mock_info("S", &[]), HandleMsg::Cancel { order_no: 1 })
        .unwrap();
    assert_eq!(
        res.messages,
        vec![Instruction::TransferAsset(MsgTransferNFT {
            id: "nft-1".to_string(),
            denom_id: "cert".to_string(),
            name: "[do-not-modify]".to_string(),
            data: "[do-not-modify]".to_string(),
            uri: "[do-not-modify]".to_string(),
            sender: "cosmos2contract".to_string(),
            recipient: "S".to_string(),
        })]
    );
    let mut revoked = pending(1, "S");
    revoked.state = OrderState::REVOKE;
    assert_eq!(state.orders, vec![revoked]);

    let before = state.clone();
    let res = handle(
        &mut state,
        &mock_env(),
        mock_info("B", &coins(100, "iris")),
        HandleMsg::Pay { order_no: 1 },
    );
    assert_eq!(res, Err(ContractError::InvalidState { order_id: 1 }));
    assert_eq!(state, before);
}

#[test]
fn order_numbers_rise_and_are_never_reused() {
    let mut state = market();
    for k in 1..=5u64 {
        let nft = format!("nft-{}", k);
        handle(&mut state, &mock_env(), mock_info("S", &[]), create_msg(&nft, 10 * k as u128, "iris"))
            .unwrap();
        if k % 2 == 0 {
            handle(&mut state, &mock_env(), mock_info("S", &[]), HandleMsg::Cancel { order_no: k })
                .unwrap();
        }
        // a refused request hands out no number
        let refused =
            handle(&mut state, &mock_env(), mock_info("S", &[]), create_msg("", 1, "iris"));
        assert_eq!(refused, Err(ContractError::MalformedInput {}));
        assert_eq!(state.sequence, k + 1);
    }
    let numbers: Vec<u64> = state.orders.iter().map(|o| o.no).collect();
    assert_eq!(numbers, vec![1, 2, 3, 4, 5]);
    assert!(state.is_well_formed());
}

#[test]
fn pay_on_settled_order_fails_whatever_the_funds() {
    let mut paid = market_with_order("S");
    handle(&mut paid, &mock_env(), mock_info("B", &coins(100, "iris")), HandleMsg::Pay { order_no: 1 })
        .unwrap();
    let mut revoked = market_with_order("S");
    handle(&mut revoked, &mock_env(), mock_info("S", &[]), HandleMsg::Cancel { order_no: 1 })
        .unwrap();
    for state in [&mut paid, &mut revoked] {
        for funds in [coins(100, "iris"), coins(1, "iris"), coins(100, "atom"), vec![]] {
            let before = state.clone();
            let res = pay_order(state, &mock_env(), mock_info("C", &funds), 1);
            assert_eq!(res, Err(ContractError::InvalidState { order_id: 1 }));
            assert_eq!(*state, before);
        }
    }
}

#[test]
fn cancel_by_a_stranger_is_unauthorized_in_every_state() {
    let pending = market_with_order("S");
    let mut paid = market_with_order("S");
    handle(&mut paid, &mock_env(), mock_info("B", &coins(100, "iris")), HandleMsg::Pay { order_no: 1 })
        .unwrap();
    let mut revoked = market_with_order("S");
    handle(&mut revoked, &mock_env(), mock_info("S", &[]), HandleMsg::Cancel { order_no: 1 })
        .unwrap();
    for mut state in [pending, paid, revoked] {
        let before = state.clone();
        // the buyer is a stranger too
        for who in ["X", "B", ""] {
            let res = cancel_order(&mut state, &mock_env(), mock_info(who, &[]), 1);
            assert_eq!(res, Err(ContractError::Unauthorized {}));
            assert_eq!(state, before);
        }
    }
}

#[test]
fn pay_needs_exactly_the_price() {
    let rejected: Vec<Vec<Coin>> = vec![
        vec![],
        coins(99, "iris"),
        coins(101, "iris"),
        coins(0, "iris"),
        coins(100, "atom"),
        coins(100, "IRIS"),
        vec![Coin::new(100, "iris".to_string()), Coin::new(5, "atom".to_string())],
        vec![Coin::new(50, "iris".to_string()), Coin::new(50, "iris".to_string())],
        vec![Coin::new(5, "atom".to_string()), Coin::new(100, "iris".to_string())],
    ];
    for funds in rejected {
        let mut state = market_with_order("S");
        let before = state.clone();
        let res = pay_order(&mut state, &mock_env(), mock_info("B", &funds), 1);
        assert_eq!(res, Err(ContractError::InsufficientFunds { order_id: 1 }));
        assert_eq!(state, before);
    }
    let mut state = market_with_order("S");
    assert!(pay_order(&mut state, &mock_env(), mock_info("B", &coins(100, "iris")), 1).is_ok());
}

#[test]
fn pays_exactly_compares_denomination_and_amount() {
    let price = Coin::new(100, "iris".to_string());
    assert!(pays_exactly(&coins(100, "iris"), &price));
    assert!(!pays_exactly(&coins(100, "iri"), &price));
    assert!(!pays_exactly(&coins(100, "iriss"), &price));
    assert!(!pays_exactly(&coins(u128::MAX, "iris"), &price));
    assert!(!pays_exactly(&vec![], &price));
    assert!(price.same(&Coin::new(100, "iris".to_string())));
    assert!(!price.same(&Coin::new(100, "".to_string())));
}

#[test]
fn create_then_list_shows_one_pending_order() {
    let mut state = market();
    handle(&mut state, &mock_env(), mock_info("S", &[]), create_msg("nft-1", 100, "iris")).unwrap();
    let listed = query_order_list(&state);
    assert_eq!(listed.list.len(), 1);
    assert_eq!(listed.list[0].state, OrderState::PENDING);
    assert_eq!(listed.list[0].buyer, None);
    assert_eq!(listed.list, vec![pending(1, "S")]);
    // listing changes nothing
    assert_eq!(state.orders, listed.list);
}

#[test]
fn unknown_order_is_not_found() {
    let mut state = market_with_order("S");
    let before = state.clone();
    for no in [0u64, 2, 3, u64::MAX] {
        let res = pay_order(&mut state, &mock_env(), mock_info("B", &coins(100, "iris")), no);
        assert_eq!(res, Err(ContractError::OrderNotFound { order_id: no }));
        let res = cancel_order(&mut state, &mock_env(), mock_info("S", &[]), no);
        assert_eq!(res, Err(ContractError::OrderNotFound { order_id: no }));
    }
    assert_eq!(state, before);
    let mut empty = market();
    let res = pay_order(&mut empty, &mock_env(), mock_info("B", &coins(100, "iris")), 1);
    assert_eq!(res, Err(ContractError::OrderNotFound { order_id: 1 }));
}

#[test]
fn malformed_create_is_refused() {
    let cases: Vec<(&str, &str, u128)> =
        vec![("", "nft-1", 100), ("cert", "", 100), ("cert", "nft-1", 0), ("", "", 0)];
    for (denom, nft_id, amount) in cases {
        let mut state = market_with_order("S");
        let before = state.clone();
        let res = contract::place_order(
            &mut state,
            &mock_env(),
            mock_info("S", &[]),
            denom.to_string(),
            nft_id.to_string(),
            "n".to_string(),
            "u".to_string(),
            "d".to_string(),
            Coin::new(amount, "iris".to_string()),
        );
        assert_eq!(res, Err(ContractError::MalformedInput {}));
        assert_eq!(state, before);
    }
    // the smallest well-formed request
    let mut state = market();
    let res = contract::place_order(
        &mut state,
        &mock_env(),
        mock_info("", &[]),
        "c".to_string(),
        "i".to_string(),
        "".to_string(),
        "".to_string(),
        "".to_string(),
        Coin::new(1, "".to_string()),
    );
    assert!(res.is_ok());
    assert_eq!(state.orders.len(), 1);
}

#[test]
fn checks_come_in_their_order() {
    // cancel: a stranger is told so before the state is looked at
    let mut state = market_with_order("S");
    handle(&mut state, &mock_env(), mock_info("B", &coins(100, "iris")), HandleMsg::Pay { order_no: 1 })
        .unwrap();
    assert_eq!(
        cancel_order(&mut state, &mock_env(), mock_info("X", &[]), 1),
        Err(ContractError::Unauthorized {})
    );
    // pay: the state is looked at before the funds
    assert_eq!(
        pay_order(&mut state, &mock_env(), mock_info("X", &[]), 1),
        Err(ContractError::InvalidState { order_id: 1 })
    );
}

#[test]
fn seller_may_buy_and_buyer_is_recorded() {
    let mut state = market_with_order("S");
    pay_order(&mut state, &mock_env(), mock_info("S", &coins(100, "iris")), 1).unwrap();
    assert_eq!(state.orders[0].buyer, Some("S".to_string()));
    assert_eq!(state.orders[0].seller, "S");
}

#[test]
fn delegated_order_changes_nothing() {
    let mut state = market_with_order("S");
    let before = state.clone();
    let res = delegated_order(
        &mut state,
        &mock_env(),
        mock_info("S", &[]),
        "cert".to_string(),
        "nft-9".to_string(),
        Coin::new(5, "iris".to_string()),
    );
    assert_eq!(res, Ok(HandleResponse { messages: vec![] }));
    assert_eq!(state, before);
    let res = handle(
        &mut state,
        &mock_env(),
        mock_info("S", &[]),
        HandleMsg::Delegated {
            denom: "cert".to_string(),
            nft_id: "nft-9".to_string(),
            price: Coin::new(5, "iris".to_string()),
        },
    );
    assert_eq!(res, Ok(HandleResponse { messages: vec![] }));
    assert_eq!(state, before);
}

#[test]
fn store_get_put_list_next_id() {
    let mut state = market();
    assert_eq!(state.get(1), None);
    assert_eq!(state.position(1), None);
    let id = state.next_id();
    assert_eq!(id, 1);
    assert_eq!(state.sequence, 2);
    state.put(pending(id, "S"));
    let id2 = state.next_id();
    assert_eq!(id2, 2);
    state.put(pending(id2, "T"));
    assert_eq!(state.position(2), Some(1));
    assert_eq!(state.get(2), Some(&pending(2, "T")));
    assert_eq!(state.get(3), None);
    // overwrite by number keeps the place
    let mut changed = pending(1, "S");
    changed.state = OrderState::REVOKE;
    state.put(changed.clone());
    assert_eq!(state.list(), vec![changed, pending(2, "T")]);
    assert_eq!(state.sequence, 3);
    assert!(state.is_well_formed());
}

#[test]
fn well_formedness_is_decided() {
    let good = State { orders: vec![pending(1, "S"), pending(4, "S")], sequence: 5 };
    assert!(good.is_well_formed());
    let reused = State { orders: vec![pending(1, "S"), pending(1, "S")], sequence: 5 };
    assert!(!reused.is_well_formed());
    let falling = State { orders: vec![pending(2, "S"), pending(1, "S")], sequence: 5 };
    assert!(!falling.is_well_formed());
    let ahead = State { orders: vec![pending(5, "S")], sequence: 5 };
    assert!(!ahead.is_well_formed());
    let mut buyer_on_pending = pending(1, "S");
    buyer_on_pending.buyer = Some("B".to_string());
    assert!(!buyer_on_pending.is_well_formed());
    assert!(!State { orders: vec![buyer_on_pending], sequence: 2 }.is_well_formed());
    let mut paid_without_buyer = pending(1, "S");
    paid_without_buyer.state = OrderState::PAID;
    assert!(!paid_without_buyer.is_well_formed());
    let mut revoked = pending(1, "S");
    revoked.state = OrderState::REVOKE;
    assert!(revoked.is_well_formed());
    assert!(State { orders: vec![], sequence: 0 }.is_well_formed());
}

#[test]
fn engine_effects_name_the_order() {
    let mut state = market();
    let asset = Asset {
        denom: "cert".to_string(),
        nft_id: "nft-1".to_string(),
        name: "n".to_string(),
        uri: "u".to_string(),
        data: "d".to_string(),
    };
    let effects =
        state.create(asset.clone(), Coin::new(7, "iris".to_string()), "S".to_string()).unwrap();
    assert_eq!(effects, vec![Effect::MintAsset { order_no: 1, asset: asset.clone() }]);
    let effects = state.create(asset.clone(), Coin::new(7, "iris".to_string()), "S".to_string()).unwrap();
    assert_eq!(effects, vec![Effect::MintAsset { order_no: 2, asset }]);
    let effects = state.pay(2, "B".to_string(), &coins(7, "iris")).unwrap();
    assert_eq!(
        effects,
        vec![
            Effect::TransferFunds { to: "S".to_string(), amount: Coin::new(7, "iris".to_string()) },
            Effect::TransferAsset {
                denom: "cert".to_string(),
                nft_id: "nft-1".to_string(),
                to: "B".to_string()
            },
        ]
    );
    let effects = state.cancel(1, &"S".to_string()).unwrap();
    assert_eq!(
        effects,
        vec![Effect::TransferAsset {
            denom: "cert".to_string(),
            nft_id: "nft-1".to_string(),
            to: "S".to_string()
        }]
    );
    assert_eq!(state.orders[0].state, OrderState::REVOKE);
    assert_eq!(state.orders[1].state, OrderState::PAID);
}

#[test]
fn emitter_keeps_order_and_number_of_effects() {
    let effects = vec![
        Effect::TransferAsset { denom: "d".to_string(), nft_id: "i".to_string(), to: "a".to_string() },
        Effect::TransferFunds { to: "b".to_string(), amount: Coin::new(3, "x".to_string()) },
        Effect::TransferFunds { to: "c".to_string(), amount: Coin::new(4, "y".to_string()) },
    ];
    let custody = "me".to_string();
    let out = emit(&effects, &custody);
    assert_eq!(out.len(), 3);
    for (effect, instruction) in effects.iter().zip(out.iter()) {
        assert_eq!(&emit_one(effect, &custody), instruction);
    }
    assert_eq!(
        out[1],
        Instruction::TransferFunds {
            from_address: "me".to_string(),
            to_address: "b".to_string(),
            amount: coins(3, "x"),
        }
    );
    assert_eq!(emit(&vec![], &custody), vec![]);
}

#[test]
fn envelope_carries_route_and_base64() {
    let msg = create_wasm_custom_msg("/irismod.nft.MsgMintNFT".to_string(), &b"{}".to_vec());
    assert_eq!(msg.router, "/irismod.nft.MsgMintNFT");
    assert_eq!(msg.data, "e30=");
    let msg = create_wasm_custom_msg("r".to_string(), &b"hello".to_vec());
    assert_eq!(msg.data, "aGVsbG8=");
    let msg = create_wasm_custom_msg("r".to_string(), &vec![]);
    assert_eq!(msg.data, "");
    let msg = create_wasm_custom_msg("r".to_string(), &vec![0xfb, 0xff, 0xfe]);
    assert_eq!(msg.data, "+//+");

    let mint = MsgMintNFT {
        id: "i".to_string(),
        denom_id: "d".to_string(),
        name: "n".to_string(),
        uri: "u".to_string(),
        data: "x".to_string(),
        sender: "s".to_string(),
        recipient: "r".to_string(),
    };
    let wrapped = mint.wrap(&b"{\"id\":\"i\"}".to_vec());
    assert_eq!(wrapped.router, "/irismod.nft.MsgMintNFT");
    assert_eq!(wrapped.data, "eyJpZCI6ImkifQ==");
    let transfer = MsgTransferNFT {
        id: "i".to_string(),
        denom_id: "d".to_string(),
        name: "n".to_string(),
        data: "x".to_string(),
        uri: "u".to_string(),
        sender: "s".to_string(),
        recipient: "r".to_string(),
    };
    let wrapped = transfer.wrap(&b"ab".to_vec());
    assert_eq!(wrapped.router, "/irismod.nft.MsgTransferNFT");
    assert_eq!(wrapped.data, "YWI=");
}
