//! A counter under a lifecycle switch: only the owner may change it, and
//! only while the contract is not frozen.

use crate::lifecycle;
use vstd::prelude::*;

verus! {

/// Why a request to the counter was turned down.
#[derive(Clone, Copy, Debug, PartialEq, Eq, Structural)]
pub enum ContractError {
    Unauthorized {},
}

/// Sets the counter up with its first value.
#[derive(Clone, Copy, Debug, PartialEq, Eq, Structural)]
pub struct InitMsg {
    pub count: i32,
}

/// A request that may change the counter or its switch.
#[derive(Clone, Copy, Debug, PartialEq, Eq, Structural)]
pub enum HandleMsg {
    Increment {},
    Reset { count: i32 },
    Freeze {},
    Unfreeze {},
    Destroy {},
}

/// A request to read the counter.
#[derive(Clone, Copy, Debug, PartialEq, Eq)]
pub enum QueryMsg {
    GetCount {},
}

/// The answer to [`QueryMsg::GetCount`].
#[derive(Clone, Copy, Debug, PartialEq, Eq, Structural)]
pub struct CountResponse {
    pub count: i32,
}

/// The counter.
#[derive(Clone, Copy, Debug, PartialEq, Eq, Structural)]
pub struct State {
    pub count: i32,
}

/// What a request leads to: the switch and the counter to store, or
/// nothing when everything stored is to be erased.
pub type Stored = Option<(lifecycle::StateView, State)>;

/// What `msg` from `addr` leads to. A refusal of the switch, whatever its
/// reason, is reported as `Unauthorized`.
pub open spec fn handled(
    switch: lifecycle::StateView,
    counter: State,
    addr: Seq<u8>,
    msg: HandleMsg,
) -> Result<Stored, ContractError> {
    match msg {
        HandleMsg::Increment {  } => if switch.can_modify(addr) {
            Ok(Some((switch, State { count: (counter.count + 1) as i32 })))
        } else {
            Err(ContractError::Unauthorized {  })
        },
        HandleMsg::Reset { count } => if switch.can_modify(addr) {
            Ok(Some((switch, State { count })))
        } else {
            Err(ContractError::Unauthorized {  })
        },
        HandleMsg::Freeze {  } => match switch.handle(addr, lifecycle::HandleMsg::Freeze {  }) {
            Ok(Some(next)) => Ok(Some((next, counter))),
            _ => Err(ContractError::Unauthorized {  }),
        },
        HandleMsg::Unfreeze {  } => match switch.handle(addr, lifecycle::HandleMsg::Unfreeze {  }) {
            Ok(Some(next)) => Ok(Some((next, counter))),
            _ => Err(ContractError::Unauthorized {  }),
        },
        HandleMsg::Destroy {  } => match switch.handle(addr, lifecycle::HandleMsg::Destroy {  }) {
            Ok(_) => Ok(None),
            Err(_) => Err(ContractError::Unauthorized {  }),
        },
    }
}

/// The counter of a new contract.
pub fn init(msg: InitMsg) -> (state: State)
    ensures
        state.count == msg.count,
{
    State { count: msg.count }
}

/// Carries out `msg` for `sender`.
///
/// Returns `Ok(Some((switch, counter)))` when the host is to store both,
/// `Ok(None)` when it is to erase everything, and `Unauthorized`
/// otherwise. An `Increment` needs a counter below its greatest value.
pub fn handle(switch: lifecycle::State, state: State, sender: &Vec<u8>, msg: HandleMsg) -> (result:
    Result<Option<(lifecycle::State, State)>, ContractError>)
    requires
        msg is Increment && switch@.can_modify(sender@) ==> state.count < i32::MAX,
    ensures
        match result {
            Ok(Some((next, counter))) => handled(switch@, state, sender@, msg) == Ok::<
                _,
                ContractError,
            >(Some((next@, counter))),
            Ok(None) => handled(switch@, state, sender@, msg) == Ok::<Stored, ContractError>(None),
            Err(e) => handled(switch@, state, sender@, msg) == Err::<Stored, _>(e),
        },
{
    let mut switch = switch;
    let mut state = state;
    match msg {
        HandleMsg::Increment {  } => match try_increment(&switch, &mut state, sender) {
            Ok(()) => Ok(Some((switch, state))),
            Err(e) => Err(e),
        },
        HandleMsg::Reset { count } => match try_reset(&switch, &mut state, count, sender) {
            Ok(()) => Ok(Some((switch, state))),
            Err(e) => Err(e),
        },
        HandleMsg::Freeze {  } => match try_freeze(&mut switch, sender) {
            Ok(()) => Ok(Some((switch, state))),
            Err(e) => Err(e),
        },
        HandleMsg::Unfreeze {  } => match try_unfreeze(&mut switch, sender) {
            Ok(()) => Ok(Some((switch, state))),
            Err(e) => Err(e),
        },
        HandleMsg::Destroy {  } => match try_destroy(&switch, sender) {
            Ok(()) => Ok(None),
            Err(e) => Err(e),
        },
    }
}

/// Adds one to the counter, if `addr` may change the contract.
pub fn try_increment(switch: &lifecycle::State, state: &mut State, addr: &Vec<u8>) -> (result:
    Result<(), ContractError>)
    requires
        switch@.can_modify(addr@) ==> old(state).count < i32::MAX,
    ensures
        result is Ok <==> switch@.can_modify(addr@),
        result is Ok ==> final(state).count == old(state).count + 1,
        result is Err ==> result == Err::<(), _>(ContractError::Unauthorized {  }) && *final(state)
            == *old(state),
{
    if !lifecycle::can_modify(switch, addr) {
        return Err(ContractError::Unauthorized {  });
    }
    state.count = state.count + 1;
    Ok(())
}

/// Sets the counter to `count`, if `addr` may change the contract.
pub fn try_reset(switch: &lifecycle::State, state: &mut State, count: i32, addr: &Vec<u8>) -> (result:
    Result<(), ContractError>)
    ensures
        result is Ok <==> switch@.can_modify(addr@),
        result is Ok ==> final(state).count == count,
        result is Err ==> result == Err::<(), _>(ContractError::Unauthorized {  }) && *final(state)
            == *old(state),
{
    if !lifecycle::can_modify(switch, addr) {
        return Err(ContractError::Unauthorized {  });
    }
    state.count = count;
    Ok(())
}

/// Freezes the contract; any refusal is reported as `Unauthorized`.
pub fn try_freeze(switch: &mut lifecycle::State, addr: &Vec<u8>) -> (result: Result<
    (),
    ContractError,
>)
    ensures
        match result {
            Ok(_) => old(switch)@.handle(addr@, lifecycle::HandleMsg::Freeze {  }) == Ok::<
                _,
                lifecycle::ContractError,
            >(Some(final(switch)@)),
            Err(e) => e == (ContractError::Unauthorized {  }) && old(switch)@.handle(
                addr@,
                lifecycle::HandleMsg::Freeze {  },
            ) is Err && *final(switch) == *old(switch),
        },
{
    match lifecycle::freeze(switch, addr) {
        Ok(()) => Ok(()),
        Err(_) => Err(ContractError::Unauthorized {  }),
    }
}

/// Unfreezes the contract; any refusal is reported as `Unauthorized`.
pub fn try_unfreeze(switch: &mut lifecycle::State, addr: &Vec<u8>) -> (result: Result<
    (),
    ContractError,
>)
    ensures
        match result {
            Ok(_) => old(switch)@.handle(addr@, lifecycle::HandleMsg::Unfreeze {  }) == Ok::<
                _,
                lifecycle::ContractError,
            >(Some(final(switch)@)),
            Err(e) => e == (ContractError::Unauthorized {  }) && old(switch)@.handle(
                addr@,
                lifecycle::HandleMsg::Unfreeze {  },
            ) is Err && *final(switch) == *old(switch),
        },
{
    match lifecycle::unfreeze(switch, addr) {
        Ok(()) => Ok(()),
        Err(_) => Err(ContractError::Unauthorized {  }),
    }
}

/// Decides whether `addr` may destroy the contract; a refusal is reported
/// as `Unauthorized`.
pub fn try_destroy(switch: &lifecycle::State, addr: &Vec<u8>) -> (result: Result<(), ContractError>)
    ensures
        result is Ok <==> switch@.is_owner(addr@),
        result is Err ==> result == Err::<(), _>(ContractError::Unauthorized {  }),
{
    match lifecycle::destroy(switch, addr) {
        Ok(()) => Ok(()),
        Err(_) => Err(ContractError::Unauthorized {  }),
    }
}

/// Answers a read-only request.
pub fn query(state: &State, msg: QueryMsg) -> (response: CountResponse)
    ensures
        response.count == state.count,
{
    match msg {
        QueryMsg::GetCount {  } => query_count(state),
    }
}

/// The counter as it stands.
pub fn query_count(state: &State) -> (response: CountResponse)
    ensures
        response.count == state.count,
{
    CountResponse { count: state.count }
}

} // verus!
