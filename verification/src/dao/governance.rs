//! Proposals and weighted voting with double-voting prevention.

use vstd::prelude::*;
use crate::text::texts;
use crate::ids::{Stamp, Timestamp, fresh_stamp};
use crate::text::{push_str, str_eq, string_from_chars};

verus! {

/// What a proposal would change.
#[derive(Debug, Clone)]
pub enum ProposalType {
    KernelMutation { code_hash: String },
    QuantumWeightUpdate { default_layers: usize },
    NodePolicyUpdate { max_nodes: usize },
}

/// A governance proposal and its tally.
#[derive(Debug, Clone)]
pub struct DaoProposal {
    pub proposal_id: u128,
    pub title: String,
    pub description: String,
    pub proposer_gene_id: String,
    pub proposal_type: ProposalType,
    pub votes_yes: u64,
    pub votes_no: u64,
    /// Everyone who has voted, each once.
    pub voters: Vec<String>,
    pub status: String,
    pub created_at: Timestamp,
}

/// The votes needed for a proposal to pass.
pub const PASS_THRESHOLD: u64 = 100;

/// The engine that runs proposals. The quorum percentage is held as the
/// bits of its IEEE 754 double value.
pub struct GovernanceEngine {
    quorum_percentage_bits: u64,
}

/// Why a vote was refused.
#[derive(Debug, Clone, PartialEq, Eq)]
pub enum GovernanceError {
    /// "Security Warning: Proposal is no longer active"
    NotActive,
    /// "Security Warning: Voting weight must be greater than zero"
    ZeroWeight,
    /// "Security Violation: Voter '…' has already voted on this proposal"
    AlreadyVoted { voter: String },
}

/// The part of a proposal that voting changes.
pub struct Tally {
    pub votes_yes: int,
    pub votes_no: int,
    pub voters: Seq<Seq<char>>,
    pub status: Seq<char>,
}

/// How a vote was answered.
pub enum VoteAnswer {
    Counted,
    NotActive,
    ZeroWeight,
    AlreadyVoted,
}

impl DaoProposal {
    pub open spec fn tally(&self) -> Tally {
        Tally {
            votes_yes: self.votes_yes as int,
            votes_no: self.votes_no as int,
            voters: texts(self.voters@),
            status: self.status@,
        }
    }
}

/// The answer to a vote and the tally after it: refused when the proposal
/// is not active, the weight is zero or the voter already voted (checked in
/// that order); otherwise the voter is recorded, the weight added to the
/// chosen side, and the proposal passes once it has 100 yes votes.
pub open spec fn vote_step(t: Tally, voter: Seq<char>, approve: bool, weight: u64) -> (VoteAnswer, Tally) {
    if t.status != "ACTIVE"@ {
        (VoteAnswer::NotActive, t)
    } else if weight == 0 {
        (VoteAnswer::ZeroWeight, t)
    } else if t.voters.contains(voter) {
        (VoteAnswer::AlreadyVoted, t)
    } else {
        let yes = if approve {
            t.votes_yes + weight
        } else {
            t.votes_yes
        };
        let no = if approve {
            t.votes_no
        } else {
            t.votes_no + weight
        };
        (VoteAnswer::Counted, Tally {
            votes_yes: yes,
            votes_no: no,
            voters: t.voters.push(voter),
            status: if yes >= PASS_THRESHOLD {
                "PASSED"@
            } else {
                "ACTIVE"@
            },
        })
    }
}

/// A vote would be counted and would push a tally past `u64::MAX`.
pub open spec fn vote_overflows(t: Tally, voter: Seq<char>, approve: bool, weight: u64) -> bool {
    &&& t.status == "ACTIVE"@
    &&& weight != 0
    &&& !t.voters.contains(voter)
    &&& if approve {
        t.votes_yes + weight > u64::MAX
    } else {
        t.votes_no + weight > u64::MAX
    }
}

pub open spec fn answer_of(r: Result<(), GovernanceError>, voter: Seq<char>) -> VoteAnswer {
    match r {
        Ok(_) => VoteAnswer::Counted,
        Err(GovernanceError::NotActive) => VoteAnswer::NotActive,
        Err(GovernanceError::ZeroWeight) => VoteAnswer::ZeroWeight,
        Err(GovernanceError::AlreadyVoted { .. }) => VoteAnswer::AlreadyVoted,
    }
}

/// Every other field of `b` is that of `a`.
pub open spec fn same_proposal(a: DaoProposal, b: DaoProposal) -> bool {
    &&& b.proposal_id == a.proposal_id
    &&& b.title == a.title
    &&& b.description == a.description
    &&& b.proposer_gene_id == a.proposer_gene_id
    &&& b.proposal_type == a.proposal_type
    &&& b.created_at == a.created_at
}

/// `p` is a new proposal with this title, description, proposer and
/// type: active, with the proposer's own yes vote counted.
pub open spec fn submitted(p: DaoProposal, title: Seq<char>, description: Seq<char>, proposer: Seq<char>, proposal_type: ProposalType) -> bool {
    &&& p.title@ == title
    &&& p.description@ == description
    &&& p.proposer_gene_id@ == proposer
    &&& p.proposal_type == proposal_type
    &&& p.tally().votes_yes == 1
    &&& p.tally().votes_no == 0
    &&& p.tally().voters == seq![proposer]
    &&& p.tally().voters.no_duplicates()
    &&& p.tally().status == "ACTIVE"@
}

impl GovernanceEngine {
    pub closed spec fn quorum_bits(&self) -> u64 {
        self.quorum_percentage_bits
    }

    /// An engine whose quorum percentage is the double with these bits.
    pub fn new(quorum_percentage_bits: u64) -> (e: Self)
        ensures
            e.quorum_bits() == quorum_percentage_bits,
    {
        GovernanceEngine { quorum_percentage_bits }
    }

    /// The bits of the quorum percentage.
    pub fn quorum_percentage_bits(&self) -> (r: u64)
        ensures
            r == self.quorum_bits(),
    {
        self.quorum_percentage_bits
    }

    /// Submit a proposal: active, with the proposer's own yes vote counted,
    /// under a fresh random ID, created now; `None` where the random source
    /// or the clock fails.
    pub fn submit_proposal(
        &self,
        title: &str,
        description: &str,
        proposer: &str,
        proposal_type: ProposalType,
    ) -> (r: Option<DaoProposal>)
        ensures
            r matches Some(p) ==> submitted(p, title@, description@, proposer@, proposal_type),
    {
        match fresh_stamp() {
            Some(stamp) => Some(self.submit_proposal_at(title, description, proposer, proposal_type, stamp)),
            None => None,
        }
    }

    /// Submit a proposal under the ID of `stamp`, created at its instant.
    pub fn submit_proposal_at(
        &self,
        title: &str,
        description: &str,
        proposer: &str,
        proposal_type: ProposalType,
        stamp: Stamp,
    ) -> (p: DaoProposal)
        ensures
            submitted(p, title@, description@, proposer@, proposal_type),
            p.proposal_id == stamp.id,
            p.created_at == stamp.at,
    {
        let mut voters: Vec<String> = Vec::new();
        voters.push(proposer.to_string());
        let p = DaoProposal {
            proposal_id: stamp.id,
            title: title.to_string(),
            description: description.to_string(),
            proposer_gene_id: proposer.to_string(),
            proposal_type,
            votes_yes: 1,
            votes_no: 0,
            voters,
            status: "ACTIVE".to_string(),
            created_at: stamp.at,
        };
        assert(p.tally().voters =~= seq![proposer@]);
        assert(p.tally().voters.no_duplicates());
        p
    }

    /// Cast a weighted vote (see `vote_step`).
    pub fn vote(&self, proposal: &mut DaoProposal, voter: &str, approve: bool, weight: u64) -> (r:
        Result<(), GovernanceError>)
        requires
            !vote_overflows(old(proposal).tally(), voter@, approve, weight),
        ensures
            answer_of(r, voter@) == vote_step(old(proposal).tally(), voter@, approve, weight).0,
            final(proposal).tally() == vote_step(old(proposal).tally(), voter@, approve, weight).1,
            same_proposal(*old(proposal), *final(proposal)),
            r matches Err(GovernanceError::AlreadyVoted { voter: v }) ==> v@ == voter@,
            old(proposal).tally().voters.no_duplicates() ==> final(proposal).tally().voters.no_duplicates(),
    {
        proof {
            if old(proposal).tally().voters.no_duplicates() {
                lemma_voters_stay_distinct(old(proposal).tally(), voter@, approve, weight);
            }
        }
        if !str_eq(proposal.status.as_str(), "ACTIVE") {
            return Err(GovernanceError::NotActive);
        }
        if weight == 0 {
            return Err(GovernanceError::ZeroWeight);
        }
        if has_voted(&proposal.voters, voter) {
            return Err(GovernanceError::AlreadyVoted { voter: voter.to_string() });
        }
        proposal.voters.push(voter.to_string());
        if approve {
            proposal.votes_yes = proposal.votes_yes + weight;
        } else {
            proposal.votes_no = proposal.votes_no + weight;
        }
        if proposal.votes_yes >= PASS_THRESHOLD {
            proposal.status = "PASSED".to_string();
        }
        assert(proposal.tally().voters =~= old(proposal).tally().voters.push(voter@));
        Ok(())
    }
}

fn has_voted(voters: &Vec<String>, voter: &str) -> (r: bool)
    ensures
        r == texts(voters@).contains(voter@),
{
    let n = voters.len();
    let mut i: usize = 0;
    while i < n
        invariant
            n == voters@.len(),
            i <= n,
            forall|j: int| 0 <= j < i ==> #[trigger] voters@[j]@ != voter@,
        decreases n - i,
    {
        if str_eq(voters[i].as_str(), voter) {
            assert(texts(voters@)[i as int] == voter@);
            return true;
        }
        i = i + 1;
    }
    assert forall|j: int| 0 <= j < voters@.len() implies #[trigger] texts(voters@)[j]
        != voter@ by {
        assert(voters@[j]@ != voter@);
    }
    false
}

/// The text an error displays.
pub open spec fn governance_error_text(e: GovernanceError) -> Seq<char> {
    match e {
        GovernanceError::NotActive => "Security Warning: Proposal is no longer active"@,
        GovernanceError::ZeroWeight => "Security Warning: Voting weight must be greater than zero"@,
        GovernanceError::AlreadyVoted { voter } => "Security Violation: Voter '"@ + voter@
            + "' has already voted on this proposal"@,
    }
}

impl GovernanceError {
    pub fn message(&self) -> (r: String)
        ensures
            r@ == governance_error_text(*self),
    {
        match self {
            GovernanceError::NotActive => "Security Warning: Proposal is no longer active".to_string(),
            GovernanceError::ZeroWeight => "Security Warning: Voting weight must be greater than zero".to_string(),
            GovernanceError::AlreadyVoted { voter } => {
                let mut v: Vec<char> = Vec::new();
                push_str(&mut v, "Security Violation: Voter '");
                push_str(&mut v, voter.as_str());
                push_str(&mut v, "' has already voted on this proposal");
                assert(v@ =~= governance_error_text(*self));
                string_from_chars(v.as_slice())
            },
        }
    }
}

/// A voter is counted at most once: after a counted vote, the same voter's
/// next vote is refused and changes nothing.
pub proof fn lemma_no_double_voting(t: Tally, voter: Seq<char>, approve: bool, weight: u64, approve2: bool, weight2: u64)
    requires
        vote_step(t, voter, approve, weight).0 is Counted,
    ensures
        !(vote_step(vote_step(t, voter, approve, weight).1, voter, approve2, weight2).0 is Counted),
        vote_step(vote_step(t, voter, approve, weight).1, voter, approve2, weight2).1 == vote_step(
            t,
            voter,
            approve,
            weight,
        ).1,
{
    let t1 = vote_step(t, voter, approve, weight).1;
    assert(t1.voters[t1.voters.len() - 1] == voter);
}

/// A refused vote leaves the tally as it was.
pub proof fn lemma_refused_vote_changes_nothing(t: Tally, voter: Seq<char>, approve: bool, weight: u64)
    requires
        !(vote_step(t, voter, approve, weight).0 is Counted),
    ensures
        vote_step(t, voter, approve, weight).1 == t,
{
}

/// A counted vote adds its weight to exactly one side and records the voter
/// once more; the tallies never shrink.
pub proof fn lemma_counted_vote_adds_weight(t: Tally, voter: Seq<char>, approve: bool, weight: u64)
    requires
        vote_step(t, voter, approve, weight).0 is Counted,
    ensures
        vote_step(t, voter, approve, weight).1.votes_yes + vote_step(t, voter, approve, weight).1.votes_no
            == t.votes_yes + t.votes_no + weight,
        vote_step(t, voter, approve, weight).1.votes_yes >= t.votes_yes,
        vote_step(t, voter, approve, weight).1.votes_no >= t.votes_no,
        vote_step(t, voter, approve, weight).1.voters == t.voters.push(voter),
{
}

/// A passed proposal takes no more votes.
pub proof fn lemma_passed_is_final(t: Tally, voter: Seq<char>, approve: bool, weight: u64)
    requires
        t.status == "PASSED"@,
    ensures
        vote_step(t, voter, approve, weight).0 is NotActive,
        vote_step(t, voter, approve, weight).1 == t,
{
    reveal_strlit("PASSED");
    reveal_strlit("ACTIVE");
    assert("PASSED"@[0] != "ACTIVE"@[0]);
}

/// A counted vote that brings the yes side to 100 passes the proposal.
pub proof fn lemma_threshold_passes(t: Tally, voter: Seq<char>, approve: bool, weight: u64)
    requires
        vote_step(t, voter, approve, weight).0 is Counted,
        vote_step(t, voter, approve, weight).1.votes_yes >= PASS_THRESHOLD,
    ensures
        vote_step(t, voter, approve, weight).1.status == "PASSED"@,
{
}

/// Only yes votes pass a proposal. A vote never lowers either tally, a vote
/// against adds nothing to the yes side and a vote for adds nothing to the
/// no side; a proposal becomes passed only with at least 100 yes votes,
/// and a counted vote on an active proposal passes it exactly when the yes
/// side reaches 100, leaving it active otherwise.
pub proof fn lemma_only_yes_votes_pass(t: Tally, voter: Seq<char>, approve: bool, weight: u64)
    ensures
        vote_step(t, voter, approve, weight).1.votes_yes >= t.votes_yes,
        vote_step(t, voter, approve, weight).1.votes_no >= t.votes_no,
        !approve ==> vote_step(t, voter, approve, weight).1.votes_yes == t.votes_yes,
        approve ==> vote_step(t, voter, approve, weight).1.votes_no == t.votes_no,
        vote_step(t, voter, approve, weight).1.status == "PASSED"@ && t.status != "PASSED"@
            ==> vote_step(t, voter, approve, weight).1.votes_yes >= 100,
        t.status == "ACTIVE"@ && vote_step(t, voter, approve, weight).0 is Counted ==> {
            &&& vote_step(t, voter, approve, weight).1.status == "PASSED"@ <==> vote_step(
                t,
                voter,
                approve,
                weight,
            ).1.votes_yes >= 100
            &&& vote_step(t, voter, approve, weight).1.status == "ACTIVE"@ <==> vote_step(
                t,
                voter,
                approve,
                weight,
            ).1.votes_yes < 100
        },
{
    reveal_strlit("PASSED");
    reveal_strlit("ACTIVE");
    assert("PASSED"@[0] != "ACTIVE"@[0]);
    assert("PASSED"@ != "ACTIVE"@);
}

/// Voters never repeat: a counted vote keeps the list of voters free of
/// duplicates.
pub proof fn lemma_voters_stay_distinct(t: Tally, voter: Seq<char>, approve: bool, weight: u64)
    requires
        t.voters.no_duplicates(),
    ensures
        vote_step(t, voter, approve, weight).1.voters.no_duplicates(),
{
    let t1 = vote_step(t, voter, approve, weight).1;
    if vote_step(t, voter, approve, weight).0 is Counted {
        assert forall|i: int, j: int| 0 <= i < t1.voters.len() && 0 <= j < t1.voters.len() && i != j implies t1.voters[i] != t1.voters[j] by {
            if i == t.voters.len() as int {
                assert(t.voters.contains(t.voters[j]));
            } else if j == t.voters.len() as int {
                assert(t.voters.contains(t.voters[i]));
            }
        }
    }
}

} // verus!
