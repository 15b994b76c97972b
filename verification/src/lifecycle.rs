//! Freeze, unfreeze, destroy: a switch that an owner holds over a contract.
//!
//! A frozen contract refuses changes until its owner unfreezes it. The
//! owner may destroy the contract, whereupon the host erases all it
//! stored.

use vstd::prelude::*;

verus! {

/// Why a lifecycle request was turned down.
#[derive(Clone, Copy, Debug, PartialEq, Eq, Structural)]
pub enum ContractError {
    /// The caller is not the owner, or the contract is frozen.
    Unauthorized {},
    /// The contract is not frozen, so there is nothing to unfreeze.
    InvalidOperate {},
}

/// Sets the switch up. Carries nothing: the sender becomes the owner.
#[derive(Clone, Copy, Debug, PartialEq, Eq)]
pub struct InitMsg {}

/// A request to move the switch.
#[derive(Clone, Copy, Debug, PartialEq, Eq, Structural)]
pub enum HandleMsg {
    Freeze {},
    Unfreeze {},
    Destroy {},
}

/// A request to read the switch.
#[derive(Clone, Copy, Debug, PartialEq, Eq)]
pub enum QueryMsg {
    GetState {},
}

/// What a [`State`] stands for.
pub struct StateView {
    pub frozen: bool,
    pub owner: Seq<u8>,
}

impl StateView {
    pub open spec fn is_owner(self, addr: Seq<u8>) -> bool {
        self.owner == addr
    }

    /// The owner may change things, and only while the contract is not
    /// frozen.
    pub open spec fn can_modify(self, addr: Seq<u8>) -> bool {
        self.is_owner(addr) && !self.frozen
    }

    /// What `msg` from `addr` leads to: `Ok(Some(next))` when the switch is
    /// to be stored as `next`, `Ok(None)` when everything stored is to be
    /// erased, `Err` when the request is refused.
    pub open spec fn handle(self, addr: Seq<u8>, msg: HandleMsg) -> Result<
        Option<StateView>,
        ContractError,
    > {
        match msg {
            HandleMsg::Freeze {  } => if self.can_modify(addr) {
                Ok(Some(StateView { frozen: true, ..self }))
            } else {
                Err(ContractError::Unauthorized {  })
            },
            HandleMsg::Unfreeze {  } => if !self.is_owner(addr) {
                Err(ContractError::Unauthorized {  })
            } else if !self.frozen {
                Err(ContractError::InvalidOperate {  })
            } else {
                Ok(Some(StateView { frozen: false, ..self }))
            },
            HandleMsg::Destroy {  } => if self.is_owner(addr) {
                Ok(None)
            } else {
                Err(ContractError::Unauthorized {  })
            },
        }
    }
}

/// The switch: whether the contract is frozen, and who owns it.
#[derive(Debug, PartialEq, Eq)]
pub struct State {
    pub frozen: bool,
    /// The owner's address in the host's canonical form.
    pub owner: Vec<u8>,
}

impl View for State {
    type V = StateView;

    open spec fn view(&self) -> StateView {
        StateView { frozen: self.frozen, owner: self.owner@ }
    }
}

/// The answer to [`QueryMsg::GetState`].
#[derive(Debug, PartialEq, Eq)]
pub struct StateResponse {
    pub state: State,
}

/// Whether two addresses are the same bytes.
fn same_bytes(a: &Vec<u8>, b: &Vec<u8>) -> (same: bool)
    ensures
        same == (a@ == b@),
{
    if a.len() != b.len() {
        return false;
    }
    let n: usize = a.len();
    let mut i: usize = 0;
    while i < n
        invariant
            n == a.len(),
            n == b.len(),
            i <= n,
            forall|k: int| 0 <= k < i ==> a[k] == b[k],
        decreases n - i,
    {
        if a[i] != b[i] {
            return false;
        }
        i = i + 1;
    }
    assert(a@ =~= b@);
    true
}

/// A copy of an address.
fn copy_bytes(a: &Vec<u8>) -> (copy: Vec<u8>)
    ensures
        copy@ == a@,
{
    let n: usize = a.len();
    let mut copy: Vec<u8> = Vec::new();
    let mut i: usize = 0;
    while i < n
        invariant
            n == a.len(),
            i <= n,
            copy@ == a@.subrange(0, i as int),
        decreases n - i,
    {
        copy.push(a[i]);
        assert(copy@ =~= a@.subrange(0, i + 1));
        i = i + 1;
    }
    assert(copy@ =~= a@);
    copy
}

impl Clone for State {
    fn clone(&self) -> (copy: Self)
        ensures
            copy@ == self@,
    {
        State { frozen: self.frozen, owner: copy_bytes(&self.owner) }
    }
}

impl State {
    /// Whether `addr` is the owner.
    pub fn is_owner(&self, addr: &Vec<u8>) -> (yes: bool)
        ensures
            yes == self@.is_owner(addr@),
    {
        same_bytes(&self.owner, addr)
    }

    /// Whether `addr` may change the contract now.
    pub fn can_modify(&self, addr: &Vec<u8>) -> (yes: bool)
        ensures
            yes == self@.can_modify(addr@),
    {
        self.is_owner(addr) && !self.frozen
    }
}

/// The switch of a new contract: not frozen, owned by `owner`.
pub fn init(owner: Vec<u8>, _msg: InitMsg) -> (state: State)
    ensures
        state@ == (StateView { frozen: false, owner: owner@ }),
{
    State { frozen: false, owner }
}

/// Carries out `msg` for `sender`.
///
/// Returns `Ok(Some(next))` when the host is to store `next`, `Ok(None)`
/// when it is to erase everything the contract stored, and the refusal
/// otherwise.
pub fn handle(state: State, sender: &Vec<u8>, msg: HandleMsg) -> (result: Result<
    Option<State>,
    ContractError,
>)
    ensures
        match result {
            Ok(Some(next)) => state@.handle(sender@, msg) == Ok::<_, ContractError>(Some(next@)),
            Ok(None) => state@.handle(sender@, msg) == Ok::<Option<StateView>, ContractError>(None),
            Err(e) => state@.handle(sender@, msg) == Err::<Option<StateView>, _>(e),
        },
{
    let mut state = state;
    match msg {
        HandleMsg::Freeze {  } => match freeze(&mut state, sender) {
            Ok(()) => Ok(Some(state)),
            Err(e) => Err(e),
        },
        HandleMsg::Unfreeze {  } => match unfreeze(&mut state, sender) {
            Ok(()) => Ok(Some(state)),
            Err(e) => Err(e),
        },
        HandleMsg::Destroy {  } => match destroy(&state, sender) {
            Ok(()) => Ok(None),
            Err(e) => Err(e),
        },
    }
}

/// Freezes the contract. Only the owner may, and only while it is not
/// frozen; anyone else gets `Unauthorized`.
pub fn freeze(state: &mut State, addr: &Vec<u8>) -> (result: Result<(), ContractError>)
    ensures
        match result {
            Ok(_) => old(state)@.handle(addr@, HandleMsg::Freeze {  }) == Ok::<_, ContractError>(
                Some(final(state)@),
            ),
            Err(e) => old(state)@.handle(addr@, HandleMsg::Freeze {  }) == Err::<
                Option<StateView>,
                _,
            >(e) && *final(state) == *old(state),
        },
{
    if !state.can_modify(addr) {
        return Err(ContractError::Unauthorized {  });
    }
    state.frozen = true;
    Ok(())
}

/// Unfreezes the contract. Anyone but the owner gets `Unauthorized`; the
/// owner gets `InvalidOperate` when the contract is not frozen.
pub fn unfreeze(state: &mut State, addr: &Vec<u8>) -> (result: Result<(), ContractError>)
    ensures
        match result {
            Ok(_) => old(state)@.handle(addr@, HandleMsg::Unfreeze {  }) == Ok::<
                _,
                ContractError,
            >(Some(final(state)@)),
            Err(e) => old(state)@.handle(addr@, HandleMsg::Unfreeze {  }) == Err::<
                Option<StateView>,
                _,
            >(e) && *final(state) == *old(state),
        },
{
    if !state.is_owner(addr) {
        return Err(ContractError::Unauthorized {  });
    }
    if !state.frozen {
        return Err(ContractError::InvalidOperate {  });
    }
    state.frozen = false;
    Ok(())
}

/// Decides whether `addr` may destroy the contract: the owner may, frozen
/// or not. On `Ok` the host erases everything the contract stored.
pub fn destroy(state: &State, addr: &Vec<u8>) -> (result: Result<(), ContractError>)
    ensures
        match result {
            Ok(_) => state@.handle(addr@, HandleMsg::Destroy {  }) == Ok::<
                Option<StateView>,
                ContractError,
            >(None),
            Err(e) => state@.handle(addr@, HandleMsg::Destroy {  }) == Err::<Option<StateView>, _>(
                e,
            ),
        },
{
    if !state.is_owner(addr) {
        return Err(ContractError::Unauthorized {  });
    }
    Ok(())
}

/// Whether `addr` may change the contract now.
pub fn can_modify(state: &State, addr: &Vec<u8>) -> (yes: bool)
    ensures
        yes == state@.can_modify(addr@),
{
    state.can_modify(addr)
}

/// Answers a read-only request.
pub fn query(state: &State, msg: QueryMsg) -> (response: StateResponse)
    ensures
        response.state@ == state@,
{
    match msg {
        QueryMsg::GetState {  } => query_state(state),
    }
}

/// The switch as it stands.
pub fn query_state(state: &State) -> (response: StateResponse)
    ensures
        response.state@ == state@,
{
    StateResponse { state: state.clone() }
}

} // verus!
