use vstd::prelude::*;

use cosmos_sdk_proto::cosmos::base::v1beta1::Coin as ProtoCoin;
use cosmos_sdk_proto::cosmos::gov::v1beta1::Proposal as ProtoProposal;

use crate::bank::{coin_view, malformed, Coin, StorageEntry};
use crate::error::{Domain, QueryError};
use crate::numeric::{parse_u128, unsigned_value};
use crate::proto::{decode_proposal, decoded_proposal};
use crate::staking::{seconds, seconds_of, text_opt};

verus! {

/// The final vote tally of a proposal, each count kept as its text.
#[derive(Clone, Debug, PartialEq, Eq)]
pub struct TallyResult {
    pub yes: String,
    pub no: String,
    pub abstain: String,
    pub no_with_veto: String,
}

/// A governance proposal of the remote chain.
#[derive(Clone, Debug, PartialEq, Eq)]
pub struct Proposal {
    pub proposal_id: u64,
    /// The type identifier of the proposal's content.
    pub proposal_type: Option<String>,
    pub total_deposit: Vec<Coin>,
    pub status: i32,
    pub submit_time: Option<u64>,
    pub deposit_end_time: Option<u64>,
    pub voting_start_time: Option<u64>,
    pub voting_end_time: Option<u64>,
    pub final_tally_result: Option<TallyResult>,
}

/// Proposals read out of a batch, in entry order.
#[derive(Clone, Debug, PartialEq, Eq)]
pub struct GovernmentProposals {
    pub proposals: Vec<Proposal>,
}

/// A coin whose amount is a plain integer written in decimal digits.
pub open spec fn plain_coin(c: ProtoCoin) -> Option<(Seq<char>, u128)> {
    match unsigned_value(c.amount@) {
        Some(a) => Some((c.denom@, a)),
        None => None,
    }
}

/// Converts a coin message whose amount is a plain integer.
pub fn protobuf_coin_to_std_coin(coin: &ProtoCoin) -> (r: Option<Coin>)
    ensures
        match r {
            Some(c) => plain_coin(*coin) == Some(coin_view(c)),
            None => plain_coin(*coin) is None,
        },
{
    match parse_u128(coin.amount.as_str()) {
        Some(amount) => Some(Coin { denom: coin.denom.clone(), amount }),
        None => None,
    }
}

/// Whether a decoded proposal message has a converted form.
pub open spec fn proposal_convertible(m: ProtoProposal) -> bool {
    forall|i: int| 0 <= i < m.total_deposit@.len() ==> (#[trigger] plain_coin(m.total_deposit@[i])) is Some
}

/// `p` is the converted form of the proposal message `m`.
pub open spec fn proposal_matches(p: Proposal, m: ProtoProposal) -> bool {
    &&& p.proposal_id == m.proposal_id
    &&& text_opt(p.proposal_type) == match m.content {
        Some(a) => Some(a.type_url@),
        None => None,
    }
    &&& p.total_deposit@.len() == m.total_deposit@.len()
    &&& forall|i: int| 0 <= i < m.total_deposit@.len()
        ==> plain_coin(m.total_deposit@[i]) == Some(coin_view(#[trigger] p.total_deposit@[i]))
    &&& p.status == m.status
    &&& p.submit_time == seconds_of(m.submit_time)
    &&& p.deposit_end_time == seconds_of(m.deposit_end_time)
    &&& p.voting_start_time == seconds_of(m.voting_start_time)
    &&& p.voting_end_time == seconds_of(m.voting_end_time)
    &&& match m.final_tally_result {
        Some(t) => match p.final_tally_result {
            Some(x) => x.yes@ == t.yes@ && x.no@ == t.no@ && x.abstain@ == t.abstain@
                && x.no_with_veto@ == t.no_with_veto@,
            None => false,
        },
        None => p.final_tally_result is None,
    }
}

/// The converted form of a decoded proposal message.
pub fn proposal_from_message(m: &ProtoProposal) -> (r: Option<Proposal>)
    ensures
        match r {
            Some(p) => proposal_convertible(*m) && proposal_matches(p, *m),
            None => !proposal_convertible(*m),
        },
{
    let mut deposit: Vec<Coin> = Vec::new();
    let mut i: usize = 0;
    while i < m.total_deposit.len()
        invariant
            i <= m.total_deposit@.len(),
            deposit@.len() == i,
            forall|j: int| 0 <= j < i
                ==> plain_coin(m.total_deposit@[j]) == Some(coin_view(#[trigger] deposit@[j])),
        decreases m.total_deposit@.len() - i,
    {
        match protobuf_coin_to_std_coin(&m.total_deposit[i]) {
            Some(c) => deposit.push(c),
            None => return None,
        }
        i += 1;
    }
    assert forall|j: int| 0 <= j < m.total_deposit@.len() implies (#[trigger] plain_coin(m.total_deposit@[j])) is Some by {
        assert(plain_coin(m.total_deposit@[j]) == Some(coin_view(deposit@[j])));
    }
    let proposal_type = match &m.content {
        Some(a) => Some(a.type_url.clone()),
        None => None,
    };
    let final_tally_result = match &m.final_tally_result {
        Some(t) => Some(TallyResult {
            yes: t.yes.clone(),
            no: t.no.clone(),
            abstain: t.abstain.clone(),
            no_with_veto: t.no_with_veto.clone(),
        }),
        None => None,
    };
    Some(Proposal {
        proposal_id: m.proposal_id,
        proposal_type,
        total_deposit: deposit,
        status: m.status,
        submit_time: seconds(&m.submit_time),
        deposit_end_time: seconds(&m.deposit_end_time),
        voting_start_time: seconds(&m.voting_start_time),
        voting_end_time: seconds(&m.voting_end_time),
        final_tally_result,
    })
}

/// Whether the entry holds a proposal message with a converted form.
pub open spec fn proposal_entry_ok(e: StorageEntry) -> bool {
    match decoded_proposal(e.value@) {
        Some(m) => proposal_convertible(m),
        None => false,
    }
}

/// `p` is the converted form of the proposal message that `e` holds.
pub open spec fn proposal_of_entry(p: Proposal, e: StorageEntry) -> bool {
    proposal_entry_ok(e) && proposal_matches(p, decoded_proposal(e.value@).unwrap())
}

fn proposal_entry(e: &StorageEntry) -> (r: Option<Proposal>)
    ensures
        match r {
            Some(p) => proposal_of_entry(p, *e),
            None => !proposal_entry_ok(*e),
        },
{
    match decode_proposal(e.value.as_slice()) {
        Some(m) => proposal_from_message(&m),
        None => None,
    }
}

pub open spec fn proposals_result(entries: Seq<StorageEntry>, r: Result<GovernmentProposals, QueryError>) -> bool {
    match r {
        Ok(g) => g.proposals@.len() == entries.len() && forall|i: int|
            0 <= i < entries.len() ==> proposal_of_entry(#[trigger] g.proposals@[i], entries[i]),
        Err(e) => exists|k: int|
            0 <= k < entries.len() && !proposal_entry_ok(#[trigger] entries[k])
                && (forall|j: int| 0 <= j < k ==> proposal_entry_ok(#[trigger] entries[j]))
                && e == malformed(Domain::Proposal, entries[k]),
    }
}

impl GovernmentProposals {
    /// Reads one proposal out of each entry, in entry order.
    pub fn reconstruct(entries: &[StorageEntry]) -> (r: Result<GovernmentProposals, QueryError>)
        ensures
            proposals_result(entries@, r),
    {
        let mut proposals: Vec<Proposal> = Vec::new();
        let mut i: usize = 0;
        while i < entries.len()
            invariant
                i <= entries@.len(),
                proposals@.len() == i,
                forall|j: int| 0 <= j < i ==> proposal_of_entry(#[trigger] proposals@[j], entries@[j]),
            decreases entries@.len() - i,
        {
            let e = &entries[i];
            match proposal_entry(e) {
                Some(p) => {
                    proposals.push(p);
                },
                None => {
                    let ghost k = i as int;
                    assert(!proposal_entry_ok(entries@[k]));
                    assert forall|j: int| 0 <= j < k implies proposal_entry_ok(#[trigger] entries@[j]) by {
                        assert(proposal_of_entry(proposals@[j], entries@[j]));
                    }
                    return Err(QueryError::MalformedValue { domain: Domain::Proposal, len: e.value.len() });
                },
            }
            i += 1;
        }
        Ok(GovernmentProposals { proposals })
    }
}

} // verus!
