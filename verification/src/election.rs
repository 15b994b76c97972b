//! An election: votes are accepted while the chain's height lies within a
//! window, and anyone may ask for the tally.

use vstd::prelude::*;

verus! {

/// Why a request was turned down.
#[derive(Clone, Copy, Debug, PartialEq, Eq, Structural)]
pub enum ContractError {
    /// The vote came outside the window from `begin` to `end`.
    NotAllowance { begin: u64, end: u64 },
}

/// Sets the election up: its window and the names on the ballot.
#[derive(Debug, PartialEq, Eq)]
pub struct InstantiateMsg {
    pub start: u64,
    pub end: u64,
    pub candidates: Vec<String>,
}

/// A request that may change the election.
#[derive(Debug, PartialEq, Eq)]
pub enum ExecuteMsg {
    Vote { candidate: String },
}

/// A request that only reads.
#[derive(Clone, Copy, Debug, PartialEq, Eq)]
pub enum QueryMsg {
    GetVoteInfo {},
}

/// What a [`Vote`] stands for.
pub struct VoteView {
    pub candidate: Seq<char>,
    pub count: nat,
}

/// The votes that one candidate got.
#[derive(Debug, PartialEq, Eq)]
pub struct Vote {
    pub candidate: String,
    pub count: u32,
}

impl View for Vote {
    type V = VoteView;

    open spec fn view(&self) -> VoteView {
        VoteView { candidate: self.candidate@, count: self.count as nat }
    }
}

/// The views of a tally, in order.
pub open spec fn tally_view(tally: Seq<Vote>) -> Seq<VoteView> {
    tally.map_values(|v: Vote| v@)
}

/// The answer to [`QueryMsg::GetVoteInfo`].
#[derive(Debug, PartialEq, Eq)]
pub struct VoteResponse {
    pub start: u64,
    pub end: u64,
    pub votes: Vec<Vote>,
}

/// What a [`VoteInfo`] stands for.
pub struct VoteInfoView {
    pub voter: Seq<char>,
    pub candidate: Seq<char>,
}

/// One vote cast.
#[derive(Debug, PartialEq, Eq)]
pub struct VoteInfo {
    pub voter: String,
    pub candidate: String,
}

impl View for VoteInfo {
    type V = VoteInfoView;

    open spec fn view(&self) -> VoteInfoView {
        VoteInfoView { voter: self.voter@, candidate: self.candidate@ }
    }
}

/// The views of a list of votes, in order.
pub open spec fn votes_view(votes: Seq<VoteInfo>) -> Seq<VoteInfoView> {
    votes.map_values(|v: VoteInfo| v@)
}

/// The election: its window, its ballot, and the votes in the order cast.
#[derive(Debug, PartialEq, Eq)]
pub struct State {
    pub start: u64,
    pub end: u64,
    pub candidates: Vec<String>,
    pub votes: Vec<VoteInfo>,
}

/// How many of `votes` went to `candidate`.
pub open spec fn count_for(votes: Seq<VoteInfoView>, candidate: Seq<char>) -> nat {
    votes.filter(|v: VoteInfoView| v.candidate == candidate).len()
}

/// Whether `tally` has an entry for `candidate`.
pub open spec fn listed(tally: Seq<VoteView>, candidate: Seq<char>) -> bool {
    exists|i: int| 0 <= i < tally.len() && (#[trigger] tally[i]).candidate == candidate
}

/// Whether `tally` counts `votes`: no candidate is listed twice, each
/// listed candidate has the number of votes cast for them, which is not
/// zero, and every candidate voted for is listed.
pub open spec fn tallies(votes: Seq<VoteInfoView>, tally: Seq<VoteView>) -> bool {
    &&& forall|i: int, j: int|
        0 <= i < j < tally.len() ==> (#[trigger] tally[i]).candidate != (
        #[trigger] tally[j]).candidate
    &&& forall|i: int|
        0 <= i < tally.len() ==> (#[trigger] tally[i]).count == count_for(
            votes,
            tally[i].candidate,
        ) && tally[i].count > 0
    &&& forall|k: int| 0 <= k < votes.len() ==> listed(tally, (#[trigger] votes[k]).candidate)
}

/// One more vote raises the count of its candidate by one and no other.
pub proof fn lemma_count_push(votes: Seq<VoteInfoView>, vote: VoteInfoView, candidate: Seq<char>)
    ensures
        count_for(votes.push(vote), candidate) == count_for(votes, candidate) + if vote.candidate
            == candidate {
            1nat
        } else {
            0nat
        },
        count_for(votes, candidate) <= votes.len(),
    decreases votes.len(),
{
    reveal(Seq::filter);
    assert(votes.push(vote).drop_last() =~= votes);
    if votes.len() > 0 {
        lemma_count_push(votes.drop_last(), votes.last(), candidate);
        assert(votes.drop_last().push(votes.last()) =~= votes);
    }
}

/// A candidate for whom no vote was cast has a count of zero.
pub proof fn lemma_count_none(votes: Seq<VoteInfoView>, candidate: Seq<char>)
    requires
        forall|k: int| 0 <= k < votes.len() ==> (#[trigger] votes[k]).candidate != candidate,
    ensures
        count_for(votes, candidate) == 0,
    decreases votes.len(),
{
    reveal(Seq::filter);
    if votes.len() > 0 {
        let front = votes.drop_last();
        assert forall|k: int| 0 <= k < front.len() implies (#[trigger] front[k]).candidate
            != candidate by {
            assert(votes[k].candidate != candidate);
        }
        lemma_count_none(front, candidate);
        assert(votes.last() == votes[votes.len() - 1]);
    }
}

/// The election that `msg` sets up: no vote cast yet.
pub fn instantiate(msg: InstantiateMsg) -> (state: State)
    ensures
        state.start == msg.start,
        state.end == msg.end,
        state.candidates == msg.candidates,
        state.votes@.len() == 0,
{
    State { start: msg.start, end: msg.end, candidates: msg.candidates, votes: Vec::new() }
}

/// Carries out `msg` for `sender` at chain height `height`.
pub fn execute(state: &mut State, height: u64, sender: String, msg: ExecuteMsg) -> (result: Result<
    (),
    ContractError,
>)
    ensures
        final(state).start == old(state).start,
        final(state).end == old(state).end,
        final(state).candidates == old(state).candidates,
        match msg {
            ExecuteMsg::Vote { candidate } => if old(state).start <= height <= old(state).end {
                result is Ok && final(state).votes@ == old(state).votes@.push(
                    VoteInfo { voter: sender, candidate },
                )
            } else {
                result == Err::<(), _>(
                    ContractError::NotAllowance { begin: old(state).start, end: old(state).end },
                ) && final(state).votes == old(state).votes
            },
        },
{
    match msg {
        ExecuteMsg::Vote { candidate } => try_vote(state, height, sender, candidate),
    }
}

/// Records a vote of `voter` for `candidate`, cast at chain height
/// `height`.
///
/// Fails with `NotAllowance` when `height` lies before the window's start
/// or after its end. Any name may be voted for, on the ballot or not.
pub fn try_vote(state: &mut State, height: u64, voter: String, candidate: String) -> (result:
    Result<(), ContractError>)
    ensures
        final(state).start == old(state).start,
        final(state).end == old(state).end,
        final(state).candidates == old(state).candidates,
        if old(state).start <= height <= old(state).end {
            result is Ok && final(state).votes@ == old(state).votes@.push(
                VoteInfo { voter, candidate },
            )
        } else {
            result == Err::<(), _>(
                ContractError::NotAllowance { begin: old(state).start, end: old(state).end },
            ) && final(state).votes == old(state).votes
        },
{
    if height < state.start || height > state.end {
        return Err(ContractError::NotAllowance { begin: state.start, end: state.end });
    }
    state.votes.push(VoteInfo { voter, candidate });
    Ok(())
}

/// Answers a read-only request.
pub fn query(state: &State, msg: QueryMsg) -> (response: VoteResponse)
    requires
        state.votes.len() <= u32::MAX,
    ensures
        response.start == state.start,
        response.end == state.end,
        tallies(votes_view(state.votes@), tally_view(response.votes@)),
{
    match msg {
        QueryMsg::GetVoteInfo {  } => query_vote_info(state),
    }
}

/// Finds the entry for `candidate` in `tally`.
fn find_candidate(tally: &Vec<Vote>, candidate: &String) -> (at: Option<usize>)
    ensures
        match at {
            Some(i) => i < tally.len() && tally[i as int].candidate@ == candidate@,
            None => forall|i: int| 0 <= i < tally.len() ==> tally[i].candidate@ != candidate@,
        },
{
    let n: usize = tally.len();
    let mut i: usize = 0;
    while i < n
        invariant
            n == tally.len(),
            i <= n,
            forall|k: int| 0 <= k < i ==> tally[k].candidate@ != candidate@,
        decreases n - i,
    {
        if tally[i].candidate == *candidate {
            return Some(i);
        }
        i = i + 1;
    }
    None
}

/// The window and the tally: each candidate voted for, once, with the
/// number of votes cast for them. There must be no more votes than a count
/// can hold.
pub fn query_vote_info(state: &State) -> (response: VoteResponse)
    requires
        state.votes.len() <= u32::MAX,
    ensures
        response.start == state.start,
        response.end == state.end,
        tallies(votes_view(state.votes@), tally_view(response.votes@)),
{
    let ghost votes = votes_view(state.votes@);
    let n: usize = state.votes.len();
    let mut tally: Vec<Vote> = Vec::new();
    let mut k: usize = 0;
    assert(votes.take(0) =~= Seq::empty());
    while k < n
        invariant
            n == state.votes.len(),
            n <= u32::MAX,
            k <= n,
            votes == votes_view(state.votes@),
            tallies(votes.take(k as int), tally_view(tally@)),
        decreases n - k,
    {
        let ghost seen = votes.take(k as int);
        let ghost before = tally_view(tally@);
        let candidate = &state.votes[k].candidate;
        assert(votes[k as int].candidate == candidate@);
        assert(seen.push(votes[k as int]) =~= votes.take(k + 1));
        match find_candidate(&tally, candidate) {
            Some(i) => {
                assert(before[i as int] == tally[i as int]@);
                proof {
                    lemma_count_push(seen, votes[k as int], candidate@);
                }
                let count: u32 = tally[i].count;
                tally.set(i, Vote { candidate: candidate.clone(), count: count + 1 });
                let ghost now = tally_view(tally@);
                assert(now =~= before.update(
                    i as int,
                    VoteView { candidate: candidate@, count: (count + 1) as nat },
                ));
                assert forall|j: int| 0 <= j < now.len() implies (#[trigger] now[j]).count
                    == count_for(votes.take(k + 1), now[j].candidate) && now[j].count > 0 by {
                    lemma_count_push(seen, votes[k as int], now[j].candidate);
                    if j != i {
                        assert(before[j].candidate != before[i as int].candidate);
                    }
                }
                assert forall|m: int| 0 <= m < k + 1 implies listed(
                    now,
                    (#[trigger] votes.take(k + 1)[m]).candidate,
                ) by {
                    if m < k {
                        let j = choose|j: int|
                            0 <= j < before.len() && (#[trigger] before[j]).candidate
                                == seen[m].candidate;
                        assert(now[j].candidate == before[j].candidate);
                    } else {
                        assert(now[i as int].candidate == candidate@);
                    }
                }
                assert forall|a: int, b: int| 0 <= a < b < now.len() implies (#[trigger] now[a]).candidate
                    != (#[trigger] now[b]).candidate by {
                    assert(before[a].candidate != before[b].candidate);
                }
            },
            None => {
                proof {
                    assert forall|m: int| 0 <= m < seen.len() implies (#[trigger] seen[m]).candidate
                        != candidate@ by {
                        let j = choose|j: int|
                            0 <= j < before.len() && (#[trigger] before[j]).candidate
                                == seen[m].candidate;
                        assert(before[j] == tally[j]@);
                    }
                    lemma_count_none(seen, candidate@);
                    lemma_count_push(seen, votes[k as int], candidate@);
                }
                tally.push(Vote { candidate: candidate.clone(), count: 1 });
                let ghost now = tally_view(tally@);
                assert(now =~= before.push(VoteView { candidate: candidate@, count: 1 }));
                assert forall|j: int| 0 <= j < now.len() implies (#[trigger] now[j]).count
                    == count_for(votes.take(k + 1), now[j].candidate) && now[j].count > 0 by {
                    lemma_count_push(seen, votes[k as int], now[j].candidate);
                    if j < before.len() {
                        assert(now[j] == before[j]);
                    }
                }
                assert forall|m: int| 0 <= m < k + 1 implies listed(
                    now,
                    (#[trigger] votes.take(k + 1)[m]).candidate,
                ) by {
                    if m < k {
                        let j = choose|j: int|
                            0 <= j < before.len() && (#[trigger] before[j]).candidate
                                == seen[m].candidate;
                        assert(now[j].candidate == before[j].candidate);
                    } else {
                        assert(now[before.len() as int].candidate == candidate@);
                    }
                }
                assert forall|a: int, b: int| 0 <= a < b < now.len() implies (#[trigger] now[a]).candidate
                    != (#[trigger] now[b]).candidate by {
                    if b < before.len() {
                        assert(before[a].candidate != before[b].candidate);
                    } else {
                        assert(before[a] == now[a]);
                    }
                }
            },
        }
        k = k + 1;
    }
    assert(votes.take(n as int) =~= votes);
    VoteResponse { start: state.start, end: state.end, votes: tally }
}

} // verus!
