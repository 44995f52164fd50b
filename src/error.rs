use vstd::prelude::*;

verus! {

/// The domain object whose value failed to decode.
#[derive(Clone, Copy, Debug, PartialEq, Eq, Structural)]
pub enum Domain {
    Balance,
    TotalSupply,
    FeePool,
    Validator,
    Proposal,
    Delegation,
    BondDenom,
}

/// Why a batch of entries is not a well-formed answer as a whole.
#[derive(Clone, Copy, Debug, PartialEq, Eq, Structural)]
pub enum FormatIssue {
    /// The bond denomination entry is missing or holds an empty string.
    EmptyDenom,
    /// A delegation entry has no validator entry paired with it.
    MissingValidator,
}

/// Every way in which reconstruction can fail.
#[derive(Clone, Copy, Debug, PartialEq, Eq, Structural)]
pub enum QueryError {
    /// The text is not a well-formed bech32 address.
    AddressFormat,
    /// An identifier is longer than a length prefix can describe.
    AddressTooLong { max: usize, actual: usize },
    /// A value does not decode under the schema of its domain.
    MalformedValue { domain: Domain, len: usize },
    /// A mandatory single-instance entry is absent from the batch.
    MissingEntry,
    /// A semantic precondition of the batch does not hold.
    InvalidResultFormat(FormatIssue),
}

impl FormatIssue {
    /// A short human-readable description.
    pub fn message(&self) -> (r: &'static str)
        ensures
            *self == FormatIssue::EmptyDenom ==> r@ == "denom is empty"@,
            *self == FormatIssue::MissingValidator ==> r@ == "validator is empty"@,
    {
        match self {
            FormatIssue::EmptyDenom => {
                proof { reveal_strlit("denom is empty"); }
                "denom is empty"
            },
            FormatIssue::MissingValidator => {
                proof { reveal_strlit("validator is empty"); }
                "validator is empty"
            },
        }
    }
}

} // verus!
