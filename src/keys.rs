use vstd::prelude::*;

use crate::address::{length_prefixed, prefixed, MAX_ADDR_LEN};
use crate::error::QueryError;

verus! {

/// Store discriminator of account balances in the bank store.
pub const BALANCES_PREFIX: u8 = 0x02;
/// Store discriminator of the total supply of each denomination.
pub const SUPPLY_PREFIX: u8 = 0x00;
/// Store discriminator of delegations in the staking store.
pub const DELEGATION_KEY: u8 = 0x31;
/// Store discriminator of validators in the staking store.
pub const VALIDATORS_KEY: u8 = 0x21;
/// The single key of the fee pool in the distribution store.
pub const FEE_POOL_KEY: u8 = 0x00;
/// Store discriminator of governance proposals.
pub const PROPOSALS_KEY_PREFIX: u8 = 0x00;
/// Name of the staking module's store.
pub const STAKING_STORE_KEY: &'static str = "staking";
/// Name of the bond denomination parameter.
pub const KEY_BOND_DENOM: &'static str = "BondDenom";

/// `[disc] ++ length_prefixed(addr)`.
pub open spec fn prefixed_key(disc: u8, addr: Seq<u8>) -> Option<Seq<u8>> {
    match length_prefixed(addr) {
        Some(p) => Some(seq![disc] + p),
        None => None,
    }
}

/// Key of the balance of `denom` held by `addr`.
pub open spec fn balance_key(addr: Seq<u8>, denom: Seq<char>) -> Option<Seq<u8>> {
    match prefixed_key(BALANCES_PREFIX, addr) {
        Some(p) => Some(p + denom_bytes(denom)),
        None => None,
    }
}

/// Key of the delegation of `delegator` to `validator`.
pub open spec fn delegation_key(delegator: Seq<u8>, validator: Seq<u8>) -> Option<Seq<u8>> {
    match (prefixed_key(DELEGATION_KEY, delegator), length_prefixed(validator)) {
        (Some(p), Some(v)) => Some(p + v),
        _ => None,
    }
}

/// The bytes of a denomination as it stands in a key.
pub open spec fn denom_bytes(denom: Seq<char>) -> Seq<u8> {
    vstd::utf8::encode_utf8(denom)
}

/// The big-endian encoding of `n`.
pub open spec fn be_bytes(n: u64) -> Seq<u8> {
    seq![
        (n >> 56u64) as u8,
        (n >> 48u64) as u8,
        (n >> 40u64) as u8,
        (n >> 32u64) as u8,
        (n >> 24u64) as u8,
        (n >> 16u64) as u8,
        (n >> 8u64) as u8,
        n as u8,
    ]
}

/// The denomination bytes that trail a balance key: what follows the
/// discriminator and the length-prefixed address.
pub open spec fn balance_key_denom(key: Seq<u8>) -> Option<Seq<u8>> {
    if key.len() >= 2 && key[0] == BALANCES_PREFIX && 2 + key[1] <= key.len() {
        Some(key.subrange(2 + key[1], key.len() as int))
    } else {
        None
    }
}

/// The denomination bytes of a total-supply key.
pub open spec fn supply_key_denom(key: Seq<u8>) -> Option<Seq<u8>> {
    if key.len() >= 1 && key[0] == SUPPLY_PREFIX {
        Some(key.drop_first())
    } else {
        None
    }
}

/// Appends `s` to `v`.
fn append_bytes(v: &mut Vec<u8>, s: &[u8])
    ensures
        final(v)@ == old(v)@ + s@,
{
    let mut i: usize = 0;
    while i < s.len()
        invariant
            i <= s@.len(),
            v@ == old(v)@ + s@.subrange(0, i as int),
        decreases s@.len() - i,
    {
        v.push(s[i]);
        i += 1;
        assert(s@.subrange(0, i as int) == s@.subrange(0, i - 1).push(s@[i - 1]));
    }
    assert(s@.subrange(0, s@.len() as int) == s@);
}

fn key_with_prefix(disc: u8, addr: &[u8]) -> (r: Result<Vec<u8>, QueryError>)
    ensures
        match r {
            Ok(k) => prefixed_key(disc, addr@) == Some(k@),
            Err(e) => prefixed_key(disc, addr@) is None
                && e == (QueryError::AddressTooLong { max: MAX_ADDR_LEN, actual: addr@.len() as usize }),
        },
{
    let mut key: Vec<u8> = vec![disc];
    let mut p = prefixed(addr)?;
    key.append(&mut p);
    Ok(key)
}

/// The prefix under which all balances of `addr` are stored.
pub fn create_account_balances_prefix(addr: Vec<u8>) -> (r: Result<Vec<u8>, QueryError>)
    ensures
        match r {
            Ok(k) => prefixed_key(BALANCES_PREFIX, addr@) == Some(k@),
            Err(e) => prefixed_key(BALANCES_PREFIX, addr@) is None
                && e == (QueryError::AddressTooLong { max: MAX_ADDR_LEN, actual: addr@.len() as usize }),
        },
{
    key_with_prefix(BALANCES_PREFIX, addr.as_slice())
}

/// The key of the balance of `denom` held by `addr`.
pub fn create_account_denom_balance_key(addr: Vec<u8>, denom: &str) -> (r: Result<Vec<u8>, QueryError>)
    ensures
        match r {
            Ok(k) => balance_key(addr@, denom@) == Some(k@),
            Err(e) => balance_key(addr@, denom@) is None
                && e == (QueryError::AddressTooLong { max: MAX_ADDR_LEN, actual: addr@.len() as usize }),
        },
{
    let mut key = create_account_balances_prefix(addr)?;
    append_bytes(&mut key, denom.as_bytes());
    Ok(key)
}

/// The key of the total supply of `denom`.
pub fn create_total_denom_key(denom: &str) -> (r: Vec<u8>)
    ensures
        r@ == seq![SUPPLY_PREFIX] + denom_bytes(denom@),
{
    let mut key: Vec<u8> = vec![SUPPLY_PREFIX];
    append_bytes(&mut key, denom.as_bytes());
    key
}

/// The prefix under which all delegations of `delegator_address` are stored.
pub fn create_delegations_key(delegator_address: Vec<u8>) -> (r: Result<Vec<u8>, QueryError>)
    ensures
        match r {
            Ok(k) => prefixed_key(DELEGATION_KEY, delegator_address@) == Some(k@),
            Err(e) => prefixed_key(DELEGATION_KEY, delegator_address@) is None
                && e == (QueryError::AddressTooLong {
                    max: MAX_ADDR_LEN,
                    actual: delegator_address@.len() as usize,
                }),
        },
{
    key_with_prefix(DELEGATION_KEY, delegator_address.as_slice())
}

/// The key of the delegation of `delegator` to `validator`.
pub fn create_delegation_key(delegator: &Vec<u8>, validator: &Vec<u8>) -> (r: Result<Vec<u8>, QueryError>)
    ensures
        match r {
            Ok(k) => delegation_key(delegator@, validator@) == Some(k@),
            Err(e) => delegation_key(delegator@, validator@) is None
                && e == (QueryError::AddressTooLong {
                    max: MAX_ADDR_LEN,
                    actual: if delegator@.len() > MAX_ADDR_LEN {
                        delegator@.len() as usize
                    } else {
                        validator@.len() as usize
                    },
                }),
        },
{
    let mut key = key_with_prefix(DELEGATION_KEY, delegator.as_slice())?;
    let mut v = prefixed(validator.as_slice())?;
    key.append(&mut v);
    Ok(key)
}

/// The key of the validator whose operator address is `operator_address`.
pub fn create_validator_key(operator_address: &Vec<u8>) -> (r: Result<Vec<u8>, QueryError>)
    ensures
        match r {
            Ok(k) => prefixed_key(VALIDATORS_KEY, operator_address@) == Some(k@),
            Err(e) => prefixed_key(VALIDATORS_KEY, operator_address@) is None
                && e == (QueryError::AddressTooLong {
                    max: MAX_ADDR_LEN,
                    actual: operator_address@.len() as usize,
                }),
        },
{
    key_with_prefix(VALIDATORS_KEY, operator_address.as_slice())
}

/// The key of the fee pool.
pub fn create_fee_pool_key() -> (r: Vec<u8>)
    ensures
        r@ == seq![FEE_POOL_KEY],
{
    vec![FEE_POOL_KEY]
}

/// The key of the governance proposal `proposal_id`.
pub fn create_gov_proposal_key(proposal_id: u64) -> (r: Vec<u8>)
    ensures
        r@ == seq![PROPOSALS_KEY_PREFIX] + be_bytes(proposal_id),
{
    let mut key: Vec<u8> = vec![PROPOSALS_KEY_PREFIX];
    key.push((proposal_id >> 56u64) as u8);
    key.push((proposal_id >> 48u64) as u8);
    key.push((proposal_id >> 40u64) as u8);
    key.push((proposal_id >> 32u64) as u8);
    key.push((proposal_id >> 24u64) as u8);
    key.push((proposal_id >> 16u64) as u8);
    key.push((proposal_id >> 8u64) as u8);
    key.push(proposal_id as u8);
    assert(key@ == seq![PROPOSALS_KEY_PREFIX] + be_bytes(proposal_id));
    key
}

/// The key of parameter `key` of module `module` in the params store:
/// `module/key`.
pub fn create_params_store_key(module: &str, key: &str) -> (r: Vec<u8>)
    ensures
        r@ == denom_bytes(module@) + seq![0x2fu8] + denom_bytes(key@),
{
    let mut out: Vec<u8> = Vec::new();
    append_bytes(&mut out, module.as_bytes());
    out.push(0x2fu8);
    append_bytes(&mut out, key.as_bytes());
    out
}

/// A balance key keeps what it was built from: past the discriminator and
/// the length byte stand the address bytes and then the denomination bytes,
/// and reading the denomination back out of the key gives it unchanged.
pub proof fn balance_key_round_trip(addr: Seq<u8>, denom: Seq<char>)
    requires
        0 < addr.len() <= MAX_ADDR_LEN,
    ensures
        balance_key(addr, denom) is Some,
        balance_key(addr, denom).unwrap().subrange(2, balance_key(addr, denom).unwrap().len() as int)
            == addr + denom_bytes(denom),
        balance_key_denom(balance_key(addr, denom).unwrap()) == Some(denom_bytes(denom)),
{
    let k = balance_key(addr, denom).unwrap();
    assert(k == seq![BALANCES_PREFIX] + (seq![addr.len() as u8] + addr) + denom_bytes(denom));
    assert(k[1] == addr.len());
    assert(k.subrange(2, k.len() as int) =~= addr + denom_bytes(denom));
    assert(k.subrange(2 + k[1], k.len() as int) =~= denom_bytes(denom));
}

} // verus!
