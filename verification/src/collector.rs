//! A register of everyone who ever called: each caller is listed once, in
//! the order of their first call.

use vstd::prelude::*;

verus! {

/// Why a request was turned down. No request to the register is.
#[derive(Clone, Copy, Debug, PartialEq, Eq, Structural)]
pub enum ContractError {
    Unauthorized {},
}

/// Sets the register up. Carries nothing.
#[derive(Clone, Copy, Debug, PartialEq, Eq)]
pub struct InitMsg {}

/// Carries nothing: a migration keeps the register as it is.
#[derive(Clone, Copy, Debug, PartialEq, Eq)]
pub struct MigrateMsg {}

/// A request that may change the register.
#[derive(Clone, Copy, Debug, PartialEq, Eq)]
pub enum HandleMsg {
    /// Record the sender.
    Call {},
}

/// A request that only reads.
#[derive(Clone, Copy, Debug, PartialEq, Eq, Structural)]
pub enum QueryMsg {
    GetCallers {},
    GetVersion {},
}

/// The answer to [`QueryMsg::GetCallers`].
#[derive(Debug, PartialEq, Eq)]
pub struct QueryCallersResponse {
    pub callers: Vec<String>,
}

/// The answer to [`QueryMsg::GetVersion`].
#[derive(Clone, Copy, Debug, PartialEq, Eq, Structural)]
pub struct QueryVersionResponse {
    pub version: u32,
}

/// The answer to a [`QueryMsg`].
#[derive(Debug, PartialEq, Eq)]
pub enum QueryResponse {
    Callers(QueryCallersResponse),
    Version(QueryVersionResponse),
}

/// The names in a list, in order.
pub open spec fn names(callers: Seq<String>) -> Seq<Seq<char>> {
    callers.map_values(|s: String| s@)
}

/// The register after `sender` has called: unchanged if the sender is
/// listed, else with the sender at the end.
pub open spec fn recorded(callers: Seq<Seq<char>>, sender: Seq<char>) -> Seq<Seq<char>> {
    if callers.contains(sender) {
        callers
    } else {
        callers.push(sender)
    }
}

/// Recording a caller never lists anyone twice.
pub proof fn law_recorded_once(callers: Seq<Seq<char>>, sender: Seq<char>)
    requires
        callers.no_duplicates(),
    ensures
        recorded(callers, sender).no_duplicates(),
        recorded(callers, sender).contains(sender),
{
    let next = recorded(callers, sender);
    if callers.contains(sender) {
    } else {
        assert(next[callers.len() as int] == sender);
        assert forall|i: int, j: int|
            0 <= i < next.len() && 0 <= j < next.len() && i != j implies next[i] != next[j] by {
            if i < callers.len() && j < callers.len() {
                assert(callers[i] != callers[j]);
            } else if i < callers.len() {
                assert(callers.contains(callers[i]));
            } else {
                assert(callers.contains(callers[j]));
            }
        }
    }
}

/// The register.
#[derive(Debug, PartialEq, Eq)]
pub struct State {
    pub callers: Vec<String>,
}

impl View for State {
    type V = Seq<Seq<char>>;

    open spec fn view(&self) -> Seq<Seq<char>> {
        names(self.callers@)
    }
}

impl State {
    /// Whether `who` is listed.
    pub fn contains(&self, who: &String) -> (listed: bool)
        ensures
            listed == self@.contains(who@),
    {
        let n: usize = self.callers.len();
        let mut i: usize = 0;
        while i < n
            invariant
                n == self.callers.len(),
                i <= n,
                forall|k: int| 0 <= k < i ==> (#[trigger] self@[k]) != who@,
            decreases n - i,
        {
            assert(self@[i as int] == self.callers[i as int]@);
            if self.callers[i] == *who {
                return true;
            }
            i = i + 1;
        }
        false
    }
}

/// The empty register.
pub fn init(_msg: InitMsg) -> (state: State)
    ensures
        state@ == Seq::<Seq<char>>::empty(),
{
    let state = State { callers: Vec::new() };
    assert(state@ =~= Seq::empty());
    state
}

/// Carries out `msg` for `sender`.
pub fn handle(state: &mut State, sender: String, msg: HandleMsg) -> (result: Result<(), ContractError>)
    ensures
        result is Ok,
        final(state)@ == recorded(old(state)@, sender@),
{
    match msg {
        HandleMsg::Call {  } => try_call(state, sender),
    }
}

/// Records `sender`, unless already listed. Never fails.
pub fn try_call(state: &mut State, sender: String) -> (result: Result<(), ContractError>)
    ensures
        result is Ok,
        final(state)@ == recorded(old(state)@, sender@),
{
    if !state.contains(&sender) {
        state.callers.push(sender);
        assert(state@ =~= old(state)@.push(sender@));
    }
    Ok(())
}

/// Keeps the register as it is.
pub fn migrate(state: &mut State, _msg: MigrateMsg)
    ensures
        *final(state) == *old(state),
{
}

/// Answers a read-only request.
pub fn query(state: &State, msg: QueryMsg) -> (response: QueryResponse)
    ensures
        match response {
            QueryResponse::Callers(r) => msg == (QueryMsg::GetCallers {  }) && r.callers@
                == state.callers@,
            QueryResponse::Version(r) => msg == (QueryMsg::GetVersion {  }) && r.version == 1,
        },
{
    match msg {
        QueryMsg::GetCallers {  } => QueryResponse::Callers(query_count(state)),
        QueryMsg::GetVersion {  } => QueryResponse::Version(query_version()),
    }
}

/// Everyone listed, in the order of their first call.
pub fn query_count(state: &State) -> (response: QueryCallersResponse)
    ensures
        response.callers@ == state.callers@,
{
    let n: usize = state.callers.len();
    let mut callers: Vec<String> = Vec::new();
    let mut i: usize = 0;
    while i < n
        invariant
            n == state.callers.len(),
            i <= n,
            callers@ == state.callers@.subrange(0, i as int),
        decreases n - i,
    {
        callers.push(state.callers[i].clone());
        assert(callers@ =~= state.callers@.subrange(0, i + 1));
        i = i + 1;
    }
    assert(callers@ =~= state.callers@);
    QueryCallersResponse { callers }
}

/// The version of the register's layout.
pub fn query_version() -> (response: QueryVersionResponse)
    ensures
        response.version == 1,
{
    QueryVersionResponse { version: 1 }
}

} // verus!
