use contracts::counter;
use contracts::lifecycle;
use contracts::lifecycle::{
    can_modify, handle, init, query, ContractError, HandleMsg, InitMsg, QueryMsg, State,
};

fn addr(name: &str) -> Vec<u8> {
    name.as_bytes().to_vec()
}

#[test]
fn lifecycle_proper_initialization() {
    let state = init(addr("creator"), InitMsg {});
    let value = query(&state, QueryMsg::GetState {});
    assert_eq!(false, value.state.frozen);
    assert_eq!(value.state.owner, addr("creator"));
}

#[test]
fn freeze() {
    let state = init(addr("creator"), InitMsg {});
    let state = handle(state, &addr("creator"), HandleMsg::Freeze {}).unwrap().unwrap();
    let value = query(&state, QueryMsg::GetState {});
    assert_eq!(true, value.state.frozen);
}

#[test]
fn unfreeze() {
    let state = init(addr("creator"), InitMsg {});
    let state = handle(state, &addr("creator"), HandleMsg::Freeze {}).unwrap().unwrap();
    let state = handle(state, &addr("creator"), HandleMsg::Unfreeze {}).unwrap().unwrap();
    let value = query(&state, QueryMsg::GetState {});
    assert_eq!(false, value.state.frozen);
}

#[test]
fn destroy() {
    let state = init(addr("creator"), InitMsg {});
    let res = handle(state, &addr("creator"), HandleMsg::Destroy {}).unwrap();
    // nothing is left to store
    assert_eq!(res, None);
}

#[test]
fn only_the_owner_moves_the_switch() {
    for msg in [HandleMsg::Freeze {}, HandleMsg::Unfreeze {}, HandleMsg::Destroy {}] {
        for frozen in [false, true] {
            let state = State { frozen, owner: addr("creator") };
            assert_eq!(handle(state, &addr("anyone"), msg), Err(ContractError::Unauthorized {}));
        }
    }
    let state = State { frozen: false, owner: addr("creator") };
    assert_eq!(handle(state, &addr("creato"), HandleMsg::Freeze {}), Err(ContractError::Unauthorized {}));
    let state = State { frozen: false, owner: addr("creator") };
    assert_eq!(handle(state, &addr("creators"), HandleMsg::Freeze {}), Err(ContractError::Unauthorized {}));
}

#[test]
fn frozen_contract_refuses_freeze_and_unfrozen_refuses_unfreeze() {
    let frozen = State { frozen: true, owner: addr("creator") };
    assert!(!can_modify(&frozen, &addr("creator")));
    assert!(frozen.is_owner(&addr("creator")));
    assert_eq!(
        handle(frozen.clone(), &addr("creator"), HandleMsg::Freeze {}),
        Err(ContractError::Unauthorized {})
    );
    assert_eq!(lifecycle::destroy(&frozen, &addr("creator")), Ok(()));

    let mut open = State { frozen: false, owner: addr("creator") };
    assert!(can_modify(&open, &addr("creator")));
    assert_eq!(lifecycle::unfreeze(&mut open, &addr("creator")), Err(ContractError::InvalidOperate {}));
    assert_eq!(open, State { frozen: false, owner: addr("creator") });
}

fn counter_at(count: i32) -> (contracts::lifecycle::State, counter::State) {
    (init(addr("creator"), InitMsg {}), counter::init(counter::InitMsg { count }))
}

#[test]
fn counter_proper_initialization() {
    let (_switch, state) = counter_at(17);
    let value = counter::query(&state, counter::QueryMsg::GetCount {});
    assert_eq!(17, value.count);
}

#[test]
fn increment() {
    let (switch, state) = counter_at(17);
    // a stranger may not change the counter
    let res = counter::handle(switch.clone(), state, &addr("anyone"), counter::HandleMsg::Increment {});
    assert_eq!(res, Err(counter::ContractError::Unauthorized {}));

    let (_switch, state) =
        counter::handle(switch, state, &addr("creator"), counter::HandleMsg::Increment {})
            .unwrap()
            .unwrap();
    let value = counter::query(&state, counter::QueryMsg::GetCount {});
    assert_eq!(18, value.count);
}

#[test]
fn reset() {
    let (switch, state) = counter_at(17);
    let res =
        counter::handle(switch.clone(), state, &addr("anyone"), counter::HandleMsg::Reset { count: 5 });
    match res {
        Err(counter::ContractError::Unauthorized {}) => {}
        _ => panic!("Must return unauthorized error"),
    }

    let (_switch, state) =
        counter::handle(switch, state, &addr("creator"), counter::HandleMsg::Reset { count: 5 })
            .unwrap()
            .unwrap();
    let value = counter::query(&state, counter::QueryMsg::GetCount {});
    assert_eq!(5, value.count);
}

#[test]
fn counter_follows_its_switch() {
    let (switch, state) = counter_at(-3);
    let (switch, state) =
        counter::handle(switch, state, &addr("creator"), counter::HandleMsg::Freeze {})
            .unwrap()
            .unwrap();
    assert!(switch.frozen);
    // frozen: not even the owner may count
    assert_eq!(
        counter::handle(switch.clone(), state, &addr("creator"), counter::HandleMsg::Increment {}),
        Err(counter::ContractError::Unauthorized {})
    );
    // freezing twice is refused, and reported as unauthorized
    assert_eq!(
        counter::handle(switch.clone(), state, &addr("creator"), counter::HandleMsg::Freeze {}),
        Err(counter::ContractError::Unauthorized {})
    );
    let (switch, state) =
        counter::handle(switch, state, &addr("creator"), counter::HandleMsg::Unfreeze {})
            .unwrap()
            .unwrap();
    assert!(!switch.frozen);
    // nothing to unfreeze: reported as unauthorized too
    assert_eq!(
        counter::handle(switch.clone(), state, &addr("creator"), counter::HandleMsg::Unfreeze {}),
        Err(counter::ContractError::Unauthorized {})
    );
    let (switch, state) =
        counter::handle(switch, state, &addr("creator"), counter::HandleMsg::Increment {})
            .unwrap()
            .unwrap();
    assert_eq!(state.count, -2);
    assert_eq!(
        counter::handle(switch.clone(), state, &addr("anyone"), counter::HandleMsg::Destroy {}),
        Err(counter::ContractError::Unauthorized {})
    );
    assert_eq!(
        counter::handle(switch, state, &addr("creator"), counter::HandleMsg::Destroy {}),
        Ok(None)
    );
}
