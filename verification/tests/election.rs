use contracts::election::{
    execute, instantiate, query, query_vote_info, try_vote, ContractError, ExecuteMsg,
    InstantiateMsg, QueryMsg, Vote, VoteInfo,
};

const MOCK_HEIGHT: u64 = 12_345;

#[test]
fn contract_proper_initialization() {
    let msg = InstantiateMsg { start: 10, end: 100, candidates: Vec::new() };
    let state = instantiate(msg);
    let value = query(&state, QueryMsg::GetVoteInfo {});
    assert_eq!(10, value.start);
    assert_eq!(100, value.end);
    assert_eq!(0, value.votes.len());
}

#[test]
fn vote() {
    let mut candidates: Vec<String> = Vec::new();
    candidates.push("candidates1".into());
    candidates.push("candidates2".into());
    let msg = InstantiateMsg { start: 10_000, end: 20_000, candidates: Vec::new() };
    let mut state = instantiate(msg);

    let msg = ExecuteMsg::Vote { candidate: "candidates1".into() };
    let _res = execute(&mut state, MOCK_HEIGHT, "voter1".to_string(), msg).unwrap();

    let value = query(&state, QueryMsg::GetVoteInfo {});
    assert_eq!(10_000, value.start);
    assert_eq!(20_000, value.end);
    assert_eq!("candidates1", value.votes[0].candidate);
    assert_eq!(1, value.votes[0].count);
}

#[test]
fn votes_outside_the_window_are_refused() {
    let mut state =
        instantiate(InstantiateMsg { start: 10, end: 20, candidates: vec!["a".to_string()] });
    for height in [0u64, 9, 21, u64::MAX] {
        let res = try_vote(&mut state, height, "v".to_string(), "a".to_string());
        assert_eq!(res, Err(ContractError::NotAllowance { begin: 10, end: 20 }));
        assert_eq!(state.votes.len(), 0);
    }
    for height in [10u64, 15, 20] {
        assert_eq!(try_vote(&mut state, height, "v".to_string(), "a".to_string()), Ok(()));
    }
    assert_eq!(state.votes.len(), 3);
    assert_eq!(state.votes[0], VoteInfo { voter: "v".to_string(), candidate: "a".to_string() });
    assert_eq!(state.candidates, vec!["a".to_string()]);
    assert_eq!((state.start, state.end), (10, 20));
}

#[test]
fn tally_counts_each_candidate_once() {
    let mut state = instantiate(InstantiateMsg { start: 0, end: 9, candidates: vec![] });
    for (voter, candidate) in
        [("v1", "b"), ("v2", "a"), ("v3", "b"), ("v4", "c"), ("v5", "b"), ("v6", "a")]
    {
        try_vote(&mut state, 5, voter.to_string(), candidate.to_string()).unwrap();
    }
    let mut votes = query_vote_info(&state).votes;
    votes.sort_by(|x, y| x.candidate.cmp(&y.candidate));
    assert_eq!(
        votes,
        vec![
            Vote { candidate: "a".to_string(), count: 2 },
            Vote { candidate: "b".to_string(), count: 3 },
            Vote { candidate: "c".to_string(), count: 1 },
        ]
    );
}
