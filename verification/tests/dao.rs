use netgene::dao::governance::{GovernanceEngine, GovernanceError, ProposalType, PASS_THRESHOLD};

#[test]
fn test_dao_proposal_and_voting() {
    let engine = GovernanceEngine::new(66.0f64.to_bits());
    let mut proposal = engine.submit_proposal(
        "Upgrade QAOA Layers to 5",
        "Enhance quantum routing accuracy",
        "gene-master-01",
        ProposalType::QuantumWeightUpdate { default_layers: 5 },
    ).unwrap();
    assert_eq!(proposal.status, "ACTIVE");
    engine.vote(&mut proposal, "voter-node-02", true, 100).unwrap();
    assert_eq!(proposal.status, "PASSED");
}

#[test]
fn test_dao_double_voting_prevention() {
    let engine = GovernanceEngine::new(66.0f64.to_bits());
    let mut proposal = engine.submit_proposal(
        "Test Double Voting",
        "Description",
        "proposer-01",
        ProposalType::NodePolicyUpdate { max_nodes: 50 },
    ).unwrap();
    assert!(engine.vote(&mut proposal, "proposer-01", true, 50).is_err());
}

#[test]
fn votes_accumulate_until_the_threshold() {
    let engine = GovernanceEngine::new(66.0f64.to_bits());
    assert_eq!(f64::from_bits(engine.quorum_percentage_bits()), 66.0);
    let mut p = engine.submit_proposal("t", "d", "p", ProposalType::KernelMutation { code_hash: "h".to_string() }).unwrap();
    assert_eq!((p.votes_yes, p.votes_no), (1, 0));
    engine.vote(&mut p, "a", true, 50).unwrap();
    engine.vote(&mut p, "b", false, 30).unwrap();
    assert_eq!((p.votes_yes, p.votes_no), (51, 30));
    assert_eq!(p.status, "ACTIVE");
    engine.vote(&mut p, "c", true, 49).unwrap();
    assert_eq!(p.votes_yes, PASS_THRESHOLD);
    assert_eq!(p.status, "PASSED");
    assert_eq!(p.voters, vec!["p", "a", "b", "c"]);
}

#[test]
fn refused_votes_leave_the_proposal_unchanged() {
    let engine = GovernanceEngine::new(0);
    let mut p = engine.submit_proposal("t", "d", "p", ProposalType::NodePolicyUpdate { max_nodes: 1 }).unwrap();
    assert_eq!(engine.vote(&mut p, "a", true, 0), Err(GovernanceError::ZeroWeight));
    assert_eq!(
        engine.vote(&mut p, "p", false, 5),
        Err(GovernanceError::AlreadyVoted { voter: "p".to_string() })
    );
    assert_eq!((p.votes_yes, p.votes_no, p.voters.len()), (1, 0, 1));
    engine.vote(&mut p, "big", true, 200).unwrap();
    assert_eq!(engine.vote(&mut p, "late", true, 1), Err(GovernanceError::NotActive));
    assert_eq!(p.voters.len(), 2);
    assert_eq!(
        GovernanceError::AlreadyVoted { voter: "x".to_string() }.message(),
        "Security Violation: Voter 'x' has already voted on this proposal"
    );
}
