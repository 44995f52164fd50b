use vstd::prelude::*;

use crate::bank::{
    balances_result, fee_pool_result, total_supply_result, Balances, FeePool, StorageEntry, TotalSupply,
};
use crate::error::QueryError;
use crate::gov::{proposals_result, GovernmentProposals};
use crate::staking::{delegations_result, validators_result, Delegations, StakingValidators};

verus! {

/// The kind of domain object that a batch of entries answers for.
#[derive(Clone, Copy, Debug, PartialEq, Eq, Structural)]
pub enum QueryKind {
    Balances,
    TotalSupply,
    FeePool,
    StakingValidators,
    GovernmentProposals,
    Delegations,
}

/// A reconstructed domain object, tagged with its kind.
#[derive(Clone, Debug, PartialEq, Eq)]
pub enum Reconstructed {
    Balances(Balances),
    TotalSupply(TotalSupply),
    FeePool(FeePool),
    StakingValidators(StakingValidators),
    GovernmentProposals(GovernmentProposals),
    Delegations(Delegations),
}

/// Routes `entries` to the reconstructor of `kind`.
pub fn reconstruct(kind: QueryKind, entries: &[StorageEntry]) -> (r: Result<Reconstructed, QueryError>)
    ensures
        match (kind, r) {
            (QueryKind::Balances, Ok(Reconstructed::Balances(x))) => balances_result(entries@, Ok(x)),
            (QueryKind::Balances, Err(e)) => balances_result(entries@, Err(e)),
            (QueryKind::TotalSupply, Ok(Reconstructed::TotalSupply(x))) => total_supply_result(entries@, Ok(x)),
            (QueryKind::TotalSupply, Err(e)) => total_supply_result(entries@, Err(e)),
            (QueryKind::FeePool, Ok(Reconstructed::FeePool(x))) => fee_pool_result(entries@, Ok(x)),
            (QueryKind::FeePool, Err(e)) => fee_pool_result(entries@, Err(e)),
            (QueryKind::StakingValidators, Ok(Reconstructed::StakingValidators(x))) => validators_result(entries@, Ok(x)),
            (QueryKind::StakingValidators, Err(e)) => validators_result(entries@, Err(e)),
            (QueryKind::GovernmentProposals, Ok(Reconstructed::GovernmentProposals(x))) => proposals_result(entries@, Ok(x)),
            (QueryKind::GovernmentProposals, Err(e)) => proposals_result(entries@, Err(e)),
            (QueryKind::Delegations, Ok(Reconstructed::Delegations(x))) => delegations_result(entries@, Ok(x)),
            (QueryKind::Delegations, Err(e)) => delegations_result(entries@, Err(e)),
            _ => false,
        },
{
    match kind {
        QueryKind::Balances => match Balances::reconstruct(entries) {
            Ok(x) => Ok(Reconstructed::Balances(x)),
            Err(e) => Err(e),
        },
        QueryKind::TotalSupply => match TotalSupply::reconstruct(entries) {
            Ok(x) => Ok(Reconstructed::TotalSupply(x)),
            Err(e) => Err(e),
        },
        QueryKind::FeePool => match FeePool::reconstruct(entries) {
            Ok(x) => Ok(Reconstructed::FeePool(x)),
            Err(e) => Err(e),
        },
        QueryKind::StakingValidators => match StakingValidators::reconstruct(entries) {
            Ok(x) => Ok(Reconstructed::StakingValidators(x)),
            Err(e) => Err(e),
        },
        QueryKind::GovernmentProposals => match GovernmentProposals::reconstruct(entries) {
            Ok(x) => Ok(Reconstructed::GovernmentProposals(x)),
            Err(e) => Err(e),
        },
        QueryKind::Delegations => match Delegations::reconstruct(entries) {
            Ok(x) => Ok(Reconstructed::Delegations(x)),
            Err(e) => Err(e),
        },
    }
}

} // verus!
