use vstd::prelude::*;

use cosmos_sdk_proto::cosmos::staking::v1beta1::{
    Commission, Delegation as ProtoDelegation, Validator as ProtoValidator,
};

use crate::bank::{malformed, Coin, StorageEntry};
use crate::error::{Domain, FormatIssue, QueryError};
use crate::numeric::{
    dec_from_whole, delegated_amount, delegated_tokens, parse_u128, unsigned_value, whole_dec, Dec,
};
use crate::proto::{decode_delegation, decode_validator, decoded_delegation, decoded_validator};
use crate::text::{json_string, parse_json_string};

verus! {

/// A validator of the remote chain, with its optional parts flattened.
#[derive(Clone, Debug, PartialEq, Eq)]
pub struct Validator {
    pub operator_address: String,
    pub jailed: bool,
    pub status: i32,
    pub tokens: String,
    pub delegator_shares: String,
    pub moniker: Option<String>,
    pub identity: Option<String>,
    pub website: Option<String>,
    pub security_contact: Option<String>,
    pub details: Option<String>,
    pub unbonding_height: u64,
    /// Seconds of the unbonding timestamp.
    pub unbonding_time: Option<u64>,
    pub rate: Option<Dec>,
    pub max_rate: Option<Dec>,
    pub max_change_rate: Option<Dec>,
    /// Seconds of the commission's last update.
    pub update_time: Option<u64>,
    pub min_self_delegation: Dec,
}

/// Validators read out of a batch, in entry order.
#[derive(Clone, Debug, PartialEq, Eq)]
pub struct StakingValidators {
    pub validators: Vec<Validator>,
}

pub open spec fn text_opt(o: Option<String>) -> Option<Seq<char>> {
    match o {
        Some(s) => Some(s@),
        None => None,
    }
}

/// The seconds of a timestamp; nanoseconds are dropped.
pub open spec fn seconds_of(t: Option<prost_types::Timestamp>) -> Option<u64> {
    match t {
        Some(ts) => Some(ts.seconds as u64),
        None => None,
    }
}

/// A rate transmitted as its value scaled by `10^18`.
pub open spec fn rate_dec(s: Seq<char>) -> Option<Dec> {
    match unsigned_value(s) {
        Some(a) => Some(Dec { atomics: a }),
        None => None,
    }
}

/// A whole-number minimum self-delegation; empty text stands for zero.
pub open spec fn min_self_delegation_dec(s: Seq<char>) -> Option<Dec> {
    if s.len() == 0 {
        Some(Dec { atomics: 0 })
    } else {
        match unsigned_value(s) {
            Some(v) => whole_dec(v),
            None => None,
        }
    }
}

pub open spec fn commission_convertible(c: Option<Commission>) -> bool {
    match c {
        Some(cm) => match cm.commission_rates {
            Some(r) => rate_dec(r.rate@) is Some && rate_dec(r.max_rate@) is Some
                && rate_dec(r.max_change_rate@) is Some,
            None => true,
        },
        None => true,
    }
}

/// Whether a decoded validator message has a flattened form.
pub open spec fn validator_convertible(m: ProtoValidator) -> bool {
    commission_convertible(m.commission) && min_self_delegation_dec(m.min_self_delegation@) is Some
}

/// `v` is the flattened form of the validator message `m`.
pub open spec fn validator_matches(v: Validator, m: ProtoValidator) -> bool {
    &&& v.operator_address@ == m.operator_address@
    &&& v.jailed == m.jailed
    &&& v.status == m.status
    &&& v.tokens@ == m.tokens@
    &&& v.delegator_shares@ == m.delegator_shares@
    &&& match m.description {
        Some(d) => text_opt(v.moniker) == Some(d.moniker@) && text_opt(v.identity) == Some(d.identity@)
            && text_opt(v.website) == Some(d.website@)
            && text_opt(v.security_contact) == Some(d.security_contact@)
            && text_opt(v.details) == Some(d.details@),
        None => v.moniker is None && v.identity is None && v.website is None
            && v.security_contact is None && v.details is None,
    }
    &&& v.unbonding_height == m.unbonding_height as u64
    &&& v.unbonding_time == seconds_of(m.unbonding_time)
    &&& match m.commission {
        Some(c) => v.update_time == seconds_of(c.update_time) && match c.commission_rates {
            Some(r) => v.rate == rate_dec(r.rate@) && v.max_rate == rate_dec(r.max_rate@)
                && v.max_change_rate == rate_dec(r.max_change_rate@),
            None => v.rate is None && v.max_rate is None && v.max_change_rate is None,
        },
        None => v.update_time is None && v.rate is None && v.max_rate is None
            && v.max_change_rate is None,
    }
    &&& Some(v.min_self_delegation) == min_self_delegation_dec(m.min_self_delegation@)
}

pub(crate) fn seconds(t: &Option<prost_types::Timestamp>) -> (r: Option<u64>)
    ensures
        r == seconds_of(*t),
{
    match t {
        Some(ts) => Some(ts.seconds as u64),
        None => None,
    }
}

fn rate(s: &String) -> (r: Option<Dec>)
    ensures
        r == rate_dec(s@),
{
    match parse_u128(s.as_str()) {
        Some(a) => Some(Dec { atomics: a }),
        None => None,
    }
}

/// The flattened form of a decoded validator message.
pub fn validator_from_message(m: &ProtoValidator) -> (r: Option<Validator>)
    ensures
        match r {
            Some(v) => validator_convertible(*m) && validator_matches(v, *m),
            None => !validator_convertible(*m),
        },
{
    let min_self_delegation = if m.min_self_delegation.as_str().is_empty() {
        Dec { atomics: 0 }
    } else {
        match parse_u128(m.min_self_delegation.as_str()) {
            Some(v) => match dec_from_whole(v) {
                Some(d) => d,
                None => return None,
            },
            None => return None,
        }
    };
    let (rate_v, max_rate, max_change_rate, update_time) = match &m.commission {
        Some(c) => {
            let update_time = seconds(&c.update_time);
            match &c.commission_rates {
                Some(rates) => {
                    let r1 = match rate(&rates.rate) {
                        Some(d) => d,
                        None => return None,
                    };
                    let r2 = match rate(&rates.max_rate) {
                        Some(d) => d,
                        None => return None,
                    };
                    let r3 = match rate(&rates.max_change_rate) {
                        Some(d) => d,
                        None => return None,
                    };
                    (Some(r1), Some(r2), Some(r3), update_time)
                },
                None => (None, None, None, update_time),
            }
        },
        None => (None, None, None, None),
    };
    let (moniker, identity, website, security_contact, details) = match &m.description {
        Some(d) => (
            Some(d.moniker.clone()),
            Some(d.identity.clone()),
            Some(d.website.clone()),
            Some(d.security_contact.clone()),
            Some(d.details.clone()),
        ),
        None => (None, None, None, None, None),
    };
    Some(Validator {
        operator_address: m.operator_address.clone(),
        jailed: m.jailed,
        status: m.status,
        tokens: m.tokens.clone(),
        delegator_shares: m.delegator_shares.clone(),
        moniker,
        identity,
        website,
        security_contact,
        details,
        unbonding_height: m.unbonding_height as u64,
        unbonding_time: seconds(&m.unbonding_time),
        rate: rate_v,
        max_rate,
        max_change_rate,
        update_time,
        min_self_delegation,
    })
}

/// Whether the entry holds a validator message with a flattened form.
pub open spec fn validator_entry_ok(e: StorageEntry) -> bool {
    match decoded_validator(e.value@) {
        Some(m) => validator_convertible(m),
        None => false,
    }
}

/// `v` is the flattened form of the validator message that `e` holds.
pub open spec fn validator_of_entry(v: Validator, e: StorageEntry) -> bool {
    validator_entry_ok(e) && validator_matches(v, decoded_validator(e.value@).unwrap())
}

fn validator_entry(e: &StorageEntry) -> (r: Option<Validator>)
    ensures
        match r {
            Some(v) => validator_of_entry(v, *e),
            None => !validator_entry_ok(*e),
        },
{
    match decode_validator(e.value.as_slice()) {
        Some(m) => validator_from_message(&m),
        None => None,
    }
}

pub open spec fn validators_result(entries: Seq<StorageEntry>, r: Result<StakingValidators, QueryError>) -> bool {
    match r {
        Ok(s) => s.validators@.len() == entries.len() && forall|i: int|
            0 <= i < entries.len() ==> validator_of_entry(#[trigger] s.validators@[i], entries[i]),
        Err(e) => exists|k: int|
            0 <= k < entries.len() && !validator_entry_ok(#[trigger] entries[k])
                && (forall|j: int| 0 <= j < k ==> validator_entry_ok(#[trigger] entries[j]))
                && e == malformed(Domain::Validator, entries[k]),
    }
}

impl StakingValidators {
    /// Reads one validator out of each entry, in entry order.
    pub fn reconstruct(entries: &[StorageEntry]) -> (r: Result<StakingValidators, QueryError>)
        ensures
            validators_result(entries@, r),
    {
        let mut validators: Vec<Validator> = Vec::new();
        let mut i: usize = 0;
        while i < entries.len()
            invariant
                i <= entries@.len(),
                validators@.len() == i,
                forall|j: int| 0 <= j < i ==> validator_of_entry(#[trigger] validators@[j], entries@[j]),
            decreases entries@.len() - i,
        {
            let e = &entries[i];
            match validator_entry(e) {
                Some(v) => {
                    validators.push(v);
                },
                None => {
                    let ghost k = i as int;
                    assert(!validator_entry_ok(entries@[k]));
                    assert forall|j: int| 0 <= j < k implies validator_entry_ok(#[trigger] entries@[j]) by {
                        assert(validator_of_entry(validators@[j], entries@[j]));
                    }
                    return Err(QueryError::MalformedValue { domain: Domain::Validator, len: e.value.len() });
                },
            }
            i += 1;
        }
        Ok(StakingValidators { validators })
    }
}

/// A delegation, valued in the bond denomination.
#[derive(Clone, Debug, PartialEq, Eq)]
pub struct Delegation {
    pub delegator: String,
    pub validator: String,
    pub amount: Coin,
}

/// Delegations read out of a batch, in encounter order.
#[derive(Clone, Debug, PartialEq, Eq)]
pub struct Delegations {
    pub delegations: Vec<Delegation>,
}

/// A delegation as (delegator, validator, amount in whole tokens).
pub open spec fn delegation_view(d: Delegation) -> (Seq<char>, Seq<char>, u128) {
    (d.delegator@, d.validator@, d.amount.amount)
}

/// The tokens that a delegation message stands for at the validator of the
/// validator message.
pub open spec fn pair_amount(dm: ProtoDelegation, vm: ProtoValidator) -> Option<u128> {
    match (unsigned_value(dm.shares@), unsigned_value(vm.tokens@), unsigned_value(vm.delegator_shares@)) {
        (Some(s), Some(t), Some(ds)) => delegated_amount(s, t, ds),
        _ => None,
    }
}

/// Values the delegation `dm` at the validator `vm`, in `denom`.
pub fn delegation_from_messages(dm: &ProtoDelegation, vm: &ProtoValidator, denom: &String) -> (r: Option<Delegation>)
    ensures
        match r {
            Some(d) => pair_amount(*dm, *vm) == Some(d.amount.amount) && d.delegator@ == dm.delegator_address@
                && d.validator@ == dm.validator_address@ && d.amount.denom@ == denom@,
            None => pair_amount(*dm, *vm) is None,
        },
{
    let shares = match parse_u128(dm.shares.as_str()) {
        Some(v) => v,
        None => return None,
    };
    let tokens = match parse_u128(vm.tokens.as_str()) {
        Some(v) => v,
        None => return None,
    };
    let delegator_shares = match parse_u128(vm.delegator_shares.as_str()) {
        Some(v) => v,
        None => return None,
    };
    match delegated_tokens(shares, tokens, delegator_shares) {
        Some(amount) => Some(Delegation {
            delegator: dm.delegator_address.clone(),
            validator: dm.validator_address.clone(),
            amount: Coin { denom: denom.clone(), amount },
        }),
        None => None,
    }
}

/// One step of the pairwise walk: the delegation entry `d` and the entry
/// after it, if any. An empty delegation value stands for a delegation that
/// does not exist and is passed over.
pub open spec fn pair_step(d: StorageEntry, v: Option<StorageEntry>) -> Result<
    Option<(Seq<char>, Seq<char>, u128)>,
    QueryError,
> {
    if d.value@.len() == 0 {
        Ok(None)
    } else {
        match decoded_delegation(d.value@) {
            None => Err(malformed(Domain::Delegation, d)),
            Some(dm) => match v {
                Some(ve) => if ve.value@.len() == 0 {
                    Err(QueryError::InvalidResultFormat(FormatIssue::MissingValidator))
                } else {
                    match decoded_validator(ve.value@) {
                        None => Err(malformed(Domain::Validator, ve)),
                        Some(vm) => match pair_amount(dm, vm) {
                            Some(a) => Ok(Some((dm.delegator_address@, dm.validator_address@, a))),
                            None => Err(malformed(Domain::Delegation, d)),
                        },
                    }
                },
                None => Err(QueryError::InvalidResultFormat(FormatIssue::MissingValidator)),
            },
        }
    }
}

/// The delegations of the entries `rest`, which alternate delegation and
/// validator entries, or the error of the first pair that fails.
pub open spec fn delegation_records(rest: Seq<StorageEntry>) -> Result<
    Seq<(Seq<char>, Seq<char>, u128)>,
    QueryError,
>
    decreases rest.len(),
{
    if rest.len() == 0 {
        Ok(Seq::empty())
    } else {
        let v = if rest.len() >= 2 { Some(rest[1]) } else { None };
        match pair_step(rest[0], v) {
            Err(e) => Err(e),
            Ok(o) => if rest.len() >= 2 {
                match delegation_records(rest.skip(2)) {
                    Err(e) => Err(e),
                    Ok(t) => Ok(match o {
                        Some(x) => seq![x] + t,
                        None => t,
                    }),
                }
            } else {
                Ok(match o {
                    Some(x) => seq![x],
                    None => Seq::empty(),
                })
            },
        }
    }
}

/// The bond denomination: the first entry of the batch holds it as a JSON
/// string.
pub open spec fn bond_denom(entries: Seq<StorageEntry>) -> Result<Seq<char>, QueryError> {
    if entries.len() == 0 || entries[0].value@.len() == 0 {
        Err(QueryError::InvalidResultFormat(FormatIssue::EmptyDenom))
    } else {
        match json_string(entries[0].value@) {
            None => Err(malformed(Domain::BondDenom, entries[0])),
            Some(d) => if d.len() == 0 {
                Err(QueryError::InvalidResultFormat(FormatIssue::EmptyDenom))
            } else {
                Ok(d)
            },
        }
    }
}

/// The outcome of reconstructing delegations: the bond denomination and the
/// delegations, or the first error.
pub open spec fn delegations_outcome(entries: Seq<StorageEntry>) -> Result<
    (Seq<char>, Seq<(Seq<char>, Seq<char>, u128)>),
    QueryError,
> {
    match bond_denom(entries) {
        Err(e) => Err(e),
        Ok(d) => match delegation_records(entries.skip(1)) {
            Err(e) => Err(e),
            Ok(t) => Ok((d, t)),
        },
    }
}

pub open spec fn delegations_result(entries: Seq<StorageEntry>, r: Result<Delegations, QueryError>) -> bool {
    match delegations_outcome(entries) {
        Ok((denom, recs)) => match r {
            Ok(ds) => ds.delegations@.len() == recs.len() && forall|i: int|
                0 <= i < recs.len() ==> delegation_view(#[trigger] ds.delegations@[i]) == recs[i]
                    && ds.delegations@[i].amount.denom@ == denom,
            Err(_) => false,
        },
        Err(e) => r == Err::<Delegations, QueryError>(e),
    }
}

pub open spec fn with_prefix(
    acc: Seq<(Seq<char>, Seq<char>, u128)>,
    r: Result<Seq<(Seq<char>, Seq<char>, u128)>, QueryError>,
) -> Result<Seq<(Seq<char>, Seq<char>, u128)>, QueryError> {
    match r {
        Ok(t) => Ok(acc + t),
        Err(e) => Err(e),
    }
}

pub open spec fn views_of(ds: Seq<Delegation>) -> Seq<(Seq<char>, Seq<char>, u128)> {
    ds.map_values(|d: Delegation| delegation_view(d))
}

fn pair_record(entries: &[StorageEntry], i: usize, denom: &String) -> (r: Result<Option<Delegation>, QueryError>)
    requires
        1 <= i < entries@.len(),
    ensures
        ({
            let v = if i + 1 < entries@.len() { Some(entries@[i + 1]) } else { None };
            match r {
                Ok(Some(d)) => pair_step(entries@[i as int], v) == Ok::<_, QueryError>(Some(delegation_view(d)))
                    && d.amount.denom@ == denom@,
                Ok(None) => pair_step(entries@[i as int], v) == Ok::<_, QueryError>(
                    None::<(Seq<char>, Seq<char>, u128)>,
                ),
                Err(e) => pair_step(entries@[i as int], v) == Err::<Option<(Seq<char>, Seq<char>, u128)>, _>(e),
            }
        }),
{
    let d = &entries[i];
    if d.value.len() == 0 {
        return Ok(None);
    }
    let dm = match decode_delegation(d.value.as_slice()) {
        Some(m) => m,
        None => return Err(QueryError::MalformedValue { domain: Domain::Delegation, len: d.value.len() }),
    };
    if i + 1 >= entries.len() || entries[i + 1].value.len() == 0 {
        return Err(QueryError::InvalidResultFormat(FormatIssue::MissingValidator));
    }
    let ve = &entries[i + 1];
    let vm = match decode_validator(ve.value.as_slice()) {
        Some(m) => m,
        None => return Err(QueryError::MalformedValue { domain: Domain::Validator, len: ve.value.len() }),
    };
    match delegation_from_messages(&dm, &vm, denom) {
        Some(x) => Ok(Some(x)),
        None => Err(QueryError::MalformedValue { domain: Domain::Delegation, len: d.value.len() }),
    }
}

fn bond_denom_of(entries: &[StorageEntry]) -> (r: Result<String, QueryError>)
    ensures
        match r {
            Ok(d) => bond_denom(entries@) == Ok::<_, QueryError>(d@),
            Err(e) => bond_denom(entries@) == Err::<Seq<char>, _>(e),
        },
{
    if entries.len() == 0 || entries[0].value.len() == 0 {
        return Err(QueryError::InvalidResultFormat(FormatIssue::EmptyDenom));
    }
    match parse_json_string(entries[0].value.as_slice()) {
        None => Err(QueryError::MalformedValue { domain: Domain::BondDenom, len: entries[0].value.len() }),
        Some(d) => if d.as_str().is_empty() {
            Err(QueryError::InvalidResultFormat(FormatIssue::EmptyDenom))
        } else {
            Ok(d)
        },
    }
}

impl Delegations {
    /// Reads the bond denomination out of the first entry and then walks the
    /// rest pairwise by position, valuing the delegation of each pair at the
    /// validator of that pair.
    pub fn reconstruct(entries: &[StorageEntry]) -> (r: Result<Delegations, QueryError>)
        ensures
            delegations_result(entries@, r),
    {
        let denom = bond_denom_of(entries)?;
        let n = entries.len();
        let mut out: Vec<Delegation> = Vec::new();
        let mut i: usize = 1;
        proof {
            match delegation_records(entries@.skip(1)) {
                Ok(t) => {
                    assert(Seq::<(Seq<char>, Seq<char>, u128)>::empty() + t =~= t);
                },
                Err(_) => {},
            }
            assert(views_of(out@) =~= Seq::<(Seq<char>, Seq<char>, u128)>::empty());
        }
        while i < n
            invariant
                1 <= i <= n == entries@.len(),
                bond_denom(entries@) == Ok::<_, QueryError>(denom@),
                delegation_records(entries@.skip(1)) == with_prefix(
                    views_of(out@),
                    delegation_records(entries@.skip(i as int)),
                ),
                forall|j: int| 0 <= j < out@.len() ==> (#[trigger] out@[j]).amount.denom@ == denom@,
            decreases n - i,
        {
            let ghost rest = entries@.skip(i as int);
            let ghost acc = views_of(out@);
            proof {
                assert(rest[0] == entries@[i as int]);
                if i + 1 < n {
                    assert(rest[1] == entries@[i + 1]);
                    assert(rest.skip(2) =~= entries@.skip(i + 2));
                }
            }
            match pair_record(entries, i, &denom) {
                Err(e) => {
                    return Err(e);
                },
                Ok(Some(d)) => {
                    out.push(d);
                    proof {
                        assert(views_of(out@) =~= acc.push(delegation_view(d)));
                        if i + 1 < n {
                            match delegation_records(entries@.skip(i + 2)) {
                                Ok(t) => {
                                    assert(acc + (seq![delegation_view(d)] + t) =~= acc.push(delegation_view(d)) + t);
                                },
                                Err(_) => {},
                            }
                        }
                    }
                },
                Ok(None) => {},
            }
            if n - i >= 2 {
                i = i + 2;
            } else {
                proof {
                    let accn = views_of(out@);
                    assert(entries@.skip(n as int) =~= Seq::<StorageEntry>::empty());
                    if i + 1 < n {
                    } else {
                        assert(accn + Seq::<(Seq<char>, Seq<char>, u128)>::empty() =~= accn);
                    }
                }
                i = n;
            }
        }
        proof {
            assert(entries@.skip(n as int) =~= Seq::<StorageEntry>::empty());
            assert(views_of(out@) + Seq::<(Seq<char>, Seq<char>, u128)>::empty() =~= views_of(out@));
        }
        let r = Delegations { delegations: out };
        proof {
            assert forall|k: int| 0 <= k < r.delegations@.len() implies delegation_view(#[trigger] r.delegations@[k]) == views_of(r.delegations@)[k] by {}
        }
        Ok(r)
    }
}

/// Without a non-empty bond denomination no delegation can be valued: a
/// batch whose first entry is missing, empty or holds an empty string fails
/// with `InvalidResultFormat`.
pub proof fn delegations_need_bond_denom(entries: Seq<StorageEntry>)
    requires
        entries.len() == 0 || entries[0].value@.len() == 0
            || json_string(entries[0].value@) == Some(Seq::<char>::empty()),
    ensures
        delegations_outcome(entries) == Err::<(Seq<char>, Seq<(Seq<char>, Seq<char>, u128)>), QueryError>(
            QueryError::InvalidResultFormat(FormatIssue::EmptyDenom),
        ),
{
}

proof fn records_last_unpaired(rest: Seq<StorageEntry>)
    requires
        rest.len() % 2 == 1,
        delegation_records(rest.take(rest.len() - 1)) is Ok,
        rest.last().value@.len() > 0,
        decoded_delegation(rest.last().value@) is Some,
    ensures
        delegation_records(rest) == Err::<Seq<(Seq<char>, Seq<char>, u128)>, QueryError>(
            QueryError::InvalidResultFormat(FormatIssue::MissingValidator),
        ),
    decreases rest.len(),
{
    if rest.len() >= 3 {
        let front = rest.take(rest.len() - 1);
        assert(front[0] == rest[0]);
        assert(front[1] == rest[1]);
        let tail = rest.skip(2);
        assert(front.skip(2) =~= tail.take(tail.len() - 1));
        assert(tail.last() == rest.last());
        records_last_unpaired(tail);
    }
}

/// A delegation entry with no validator entry after it fails the whole
/// batch with `InvalidResultFormat`, even where every pair before it and the
/// bond denomination are well formed.
pub proof fn unpaired_delegation_fails(entries: Seq<StorageEntry>)
    requires
        entries.len() >= 2,
        entries.len() % 2 == 0,
        bond_denom(entries) is Ok,
        delegation_records(entries.subrange(1, entries.len() - 1)) is Ok,
        entries.last().value@.len() > 0,
        decoded_delegation(entries.last().value@) is Some,
    ensures
        delegations_outcome(entries) == Err::<(Seq<char>, Seq<(Seq<char>, Seq<char>, u128)>), QueryError>(
            QueryError::InvalidResultFormat(FormatIssue::MissingValidator),
        ),
{
    let rest = entries.skip(1);
    assert(rest.take(rest.len() - 1) =~= entries.subrange(1, entries.len() - 1));
    assert(rest.last() == entries.last());
    records_last_unpaired(rest);
}

/// One delegation whose shares equal both the tokens and the delegator
/// shares of its validator stands for exactly that many tokens of the bond
/// denomination.
pub proof fn equal_shares_delegation(entries: Seq<StorageEntry>, t: u128)
    requires
        entries.len() == 3,
        bond_denom(entries) is Ok,
        entries[1].value@.len() > 0,
        entries[2].value@.len() > 0,
        decoded_delegation(entries[1].value@) is Some,
        decoded_validator(entries[2].value@) is Some,
        unsigned_value(decoded_delegation(entries[1].value@).unwrap().shares@) == Some(t),
        unsigned_value(decoded_validator(entries[2].value@).unwrap().tokens@) == Some(t),
        unsigned_value(decoded_validator(entries[2].value@).unwrap().delegator_shares@) == Some(t),
        0 < t,
        t * crate::numeric::DECIMAL_FRACTIONAL <= u128::MAX,
        t * t <= u128::MAX,
    ensures
        ({
            let dm = decoded_delegation(entries[1].value@).unwrap();
            delegations_outcome(entries) == Ok::<_, QueryError>(
                (bond_denom(entries).unwrap(), seq![(dm.delegator_address@, dm.validator_address@, t)]),
            )
        }),
{
    crate::numeric::equal_shares_give_all_tokens(t);
    let rest = entries.skip(1);
    assert(rest[0] == entries[1]);
    assert(rest[1] == entries[2]);
    assert(rest.skip(2) =~= Seq::<StorageEntry>::empty());
    let dm = decoded_delegation(entries[1].value@).unwrap();
    let vm = decoded_validator(entries[2].value@).unwrap();
    assert(pair_amount(dm, vm) == Some(t));
    assert(pair_step(rest[0], Some(rest[1])) == Ok::<_, QueryError>(
        Some((dm.delegator_address@, dm.validator_address@, t)),
    ));
    assert(delegation_records(rest.skip(2)) == Ok::<_, QueryError>(Seq::<(Seq<char>, Seq<char>, u128)>::empty()));
    assert(seq![(dm.delegator_address@, dm.validator_address@, t)] + Seq::<(Seq<char>, Seq<char>, u128)>::empty()
        =~= seq![(dm.delegator_address@, dm.validator_address@, t)]);
}

} // verus!
