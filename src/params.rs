use vstd::prelude::*;

verus! {

/// Parameters of a query for the balance of one denomination of an account.
#[derive(Clone, Debug, PartialEq, Eq)]
pub struct GetBalanceQueryParams {
    pub addr: String,
    pub denom: String,
}

/// Parameters of a query for the delegations of a delegator.
#[derive(Clone, Debug, PartialEq, Eq)]
pub struct GetDelegatorDelegationsParams {
    pub delegator: String,
}

/// Parameters of a query for the transfers to a recipient.
#[derive(Clone, Debug, PartialEq, Eq)]
pub struct GetTransfersParams {
    pub recipient: String,
}

} // verus!
