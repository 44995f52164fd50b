use vstd::prelude::*;

use cosmos_sdk_proto::cosmos::base::v1beta1::{Coin as ProtoCoin, DecCoin};
use cosmos_sdk_proto::cosmos::distribution::v1beta1::FeePool as ProtoFeePool;
use vstd::slice::slice_subrange;
use vstd::utf8::{decode_utf8, valid_utf8};

use crate::error::{Domain, QueryError};
use crate::keys::{balance_key_denom, supply_key_denom, BALANCES_PREFIX, SUPPLY_PREFIX};
use crate::numeric::{parse_u128, unsigned_value, DECIMAL_FRACTIONAL};
use crate::proto::{decode_coin, decode_fee_pool, decoded_coin, decoded_fee_pool};
use crate::text::utf8_text;

verus! {

/// One raw key-value record read from the remote chain's state.
#[derive(Clone, Debug, PartialEq, Eq)]
pub struct StorageEntry {
    /// The store the entry came from; may be empty.
    pub namespace: String,
    pub key: Vec<u8>,
    pub value: Vec<u8>,
}

/// An amount of one denomination, in whole units.
#[derive(Clone, Debug, PartialEq, Eq)]
pub struct Coin {
    pub denom: String,
    pub amount: u128,
}

pub open spec fn coin_view(c: Coin) -> (Seq<char>, u128) {
    (c.denom@, c.amount)
}

/// The balances of one account.
#[derive(Clone, Debug, PartialEq, Eq)]
pub struct Balances {
    pub coins: Vec<Coin>,
}

/// The total supply of some denominations.
#[derive(Clone, Debug, PartialEq, Eq)]
pub struct TotalSupply {
    pub coins: Vec<Coin>,
}

/// The community pool of the distribution module.
#[derive(Clone, Debug, PartialEq, Eq)]
pub struct FeePool {
    pub coins: Vec<Coin>,
}

/// The characters that `b` encodes, if it is valid UTF-8.
pub open spec fn text_of(b: Seq<u8>) -> Option<Seq<char>> {
    if valid_utf8(b) {
        Some(decode_utf8(b))
    } else {
        None
    }
}

pub open spec fn malformed(domain: Domain, e: StorageEntry) -> QueryError {
    QueryError::MalformedValue { domain, len: e.value@.len() as usize }
}

/// The coin that a balance message read under `key` stands for: its amount,
/// and its denomination, taken from the key where the message holds none.
pub open spec fn balance_coin(m: ProtoCoin, key: Seq<u8>) -> Option<(Seq<char>, u128)> {
    match unsigned_value(m.amount@) {
        None => None,
        Some(a) => if m.denom@.len() > 0 {
            Some((m.denom@, a))
        } else {
            match balance_key_denom(key) {
                Some(d) => match text_of(d) {
                    Some(t) => Some((t, a)),
                    None => None,
                },
                None => None,
            }
        },
    }
}

pub open spec fn balance_entry(e: StorageEntry) -> Option<(Seq<char>, u128)> {
    match decoded_coin(e.value@) {
        Some(m) => balance_coin(m, e.key@),
        None => None,
    }
}

/// What reconstructing balances from `entries` gives: one coin per entry,
/// in order, or the error of the first entry that is not well formed.
pub open spec fn balances_result(entries: Seq<StorageEntry>, r: Result<Balances, QueryError>) -> bool {
    match r {
        Ok(b) => b.coins@.len() == entries.len() && forall|i: int|
            0 <= i < entries.len() ==> balance_entry(entries[i]) == Some(coin_view(#[trigger] b.coins@[i])),
        Err(e) => exists|k: int|
            0 <= k < entries.len() && balance_entry(#[trigger] entries[k]) is None
                && (forall|j: int| 0 <= j < k ==> balance_entry(#[trigger] entries[j]) is Some)
                && e == malformed(Domain::Balance, entries[k]),
    }
}

fn text_from(b: &[u8]) -> (r: Option<String>)
    ensures
        match r {
            Some(s) => text_of(b@) == Some(s@),
            None => text_of(b@) is None,
        },
{
    utf8_text(b)
}

/// The coin that a decoded balance message stands for under `key`.
pub fn coin_from_balance(m: &ProtoCoin, key: &[u8]) -> (r: Option<Coin>)
    ensures
        match r {
            Some(c) => balance_coin(*m, key@) == Some(coin_view(c)),
            None => balance_coin(*m, key@) is None,
        },
{
    let amount = match parse_u128(m.amount.as_str()) {
        Some(a) => a,
        None => return None,
    };
    if !m.denom.as_str().is_empty() {
        return Some(Coin { denom: m.denom.clone(), amount });
    }
    if key.len() < 2 || key[0] != BALANCES_PREFIX || key.len() - 2 < key[1] as usize {
        return None;
    }
    let denom_bytes = slice_subrange(key, 2 + key[1] as usize, key.len());
    match text_from(denom_bytes) {
        Some(denom) => Some(Coin { denom, amount }),
        None => None,
    }
}

fn balance_entry_coin(e: &StorageEntry) -> (r: Option<Coin>)
    ensures
        match r {
            Some(c) => balance_entry(*e) == Some(coin_view(c)),
            None => balance_entry(*e) is None,
        },
{
    match decode_coin(e.value.as_slice()) {
        Some(m) => coin_from_balance(&m, e.key.as_slice()),
        None => None,
    }
}

impl Balances {
    /// Reads one coin out of each balance entry, in entry order.
    pub fn reconstruct(entries: &[StorageEntry]) -> (r: Result<Balances, QueryError>)
        ensures
            balances_result(entries@, r),
    {
        let mut coins: Vec<Coin> = Vec::new();
        let mut i: usize = 0;
        while i < entries.len()
            invariant
                i <= entries@.len(),
                coins@.len() == i,
                forall|j: int| 0 <= j < i ==> balance_entry(entries@[j]) == Some(coin_view(#[trigger] coins@[j])),
            decreases entries@.len() - i,
        {
            match balance_entry_coin(&entries[i]) {
                Some(c) => coins.push(c),
                None => {
                    let ghost k = i as int;
                    assert(balance_entry(entries@[k]) is None);
                    assert forall|j: int| 0 <= j < k implies balance_entry(#[trigger] entries@[j]) is Some by {
                        assert(balance_entry(entries@[j]) == Some(coin_view(coins@[j])));
                    }
                    return Err(QueryError::MalformedValue { domain: Domain::Balance, len: entries[i].value.len() });
                },
            }
            i += 1;
        }
        Ok(Balances { coins })
    }
}

/// On balance entries that are all well formed, reconstruction succeeds with
/// exactly one coin per entry, in entry order, each holding the integer value
/// of the entry's amount text.
pub proof fn well_formed_balances_all_read(entries: Seq<StorageEntry>, r: Result<Balances, QueryError>)
    requires
        balances_result(entries, r),
        forall|i: int| 0 <= i < entries.len() ==> (#[trigger] balance_entry(entries[i])) is Some,
    ensures
        r is Ok,
        r->Ok_0.coins@.len() == entries.len(),
        forall|i: int| 0 <= i < entries.len() ==> {
            let m = decoded_coin(entries[i].value@).unwrap();
            &&& (#[trigger] r->Ok_0.coins@[i]).amount == unsigned_value(m.amount@).unwrap()
            &&& coin_view(r->Ok_0.coins@[i]) == balance_entry(entries[i]).unwrap()
        },
{
    if let Err(e) = r {
        let k = choose|k: int| 0 <= k < entries.len() && balance_entry(#[trigger] entries[k]) is None
            && (forall|j: int| 0 <= j < k ==> balance_entry(#[trigger] entries[j]) is Some)
            && e == malformed(Domain::Balance, entries[k]);
        assert(balance_entry(entries[k]) is Some);
    }
}

/// The coin of a total-supply entry: the denomination trails the key, and
/// the value is the amount written out in decimal digits.
pub open spec fn supply_entry(e: StorageEntry) -> Option<(Seq<char>, u128)> {
    match supply_key_denom(e.key@) {
        None => None,
        Some(d) => match (text_of(d), text_of(e.value@)) {
            (Some(t), Some(v)) => match unsigned_value(v) {
                Some(a) => Some((t, a)),
                None => None,
            },
            _ => None,
        },
    }
}

pub open spec fn total_supply_result(entries: Seq<StorageEntry>, r: Result<TotalSupply, QueryError>) -> bool {
    match r {
        Ok(s) => s.coins@.len() == entries.len() && forall|i: int|
            0 <= i < entries.len() ==> supply_entry(entries[i]) == Some(coin_view(#[trigger] s.coins@[i])),
        Err(e) => exists|k: int|
            0 <= k < entries.len() && supply_entry(#[trigger] entries[k]) is None
                && (forall|j: int| 0 <= j < k ==> supply_entry(#[trigger] entries[j]) is Some)
                && e == malformed(Domain::TotalSupply, entries[k]),
    }
}

/// The coin of one total-supply entry.
pub fn supply_coin(e: &StorageEntry) -> (r: Option<Coin>)
    ensures
        match r {
            Some(c) => supply_entry(*e) == Some(coin_view(c)),
            None => supply_entry(*e) is None,
        },
{
    let key = e.key.as_slice();
    if key.len() < 1 || key[0] != SUPPLY_PREFIX {
        return None;
    }
    let denom_bytes = slice_subrange(key, 1, key.len());
    assert(denom_bytes@ == e.key@.drop_first());
    let denom = match text_from(denom_bytes) {
        Some(d) => d,
        None => return None,
    };
    let digits = match text_from(e.value.as_slice()) {
        Some(v) => v,
        None => return None,
    };
    match parse_u128(digits.as_str()) {
        Some(amount) => Some(Coin { denom, amount }),
        None => None,
    }
}

impl TotalSupply {
    /// Reads one coin out of each total-supply entry, in entry order.
    pub fn reconstruct(entries: &[StorageEntry]) -> (r: Result<TotalSupply, QueryError>)
        ensures
            total_supply_result(entries@, r),
    {
        let mut coins: Vec<Coin> = Vec::new();
        let mut i: usize = 0;
        while i < entries.len()
            invariant
                i <= entries@.len(),
                coins@.len() == i,
                forall|j: int| 0 <= j < i ==> supply_entry(entries@[j]) == Some(coin_view(#[trigger] coins@[j])),
            decreases entries@.len() - i,
        {
            match supply_coin(&entries[i]) {
                Some(c) => coins.push(c),
                None => {
                    let ghost k = i as int;
                    assert(supply_entry(entries@[k]) is None);
                    assert forall|j: int| 0 <= j < k implies supply_entry(#[trigger] entries@[j]) is Some by {
                        assert(supply_entry(entries@[j]) == Some(coin_view(coins@[j])));
                    }
                    return Err(QueryError::MalformedValue { domain: Domain::TotalSupply, len: entries[i].value.len() });
                },
            }
            i += 1;
        }
        Ok(TotalSupply { coins })
    }
}

/// A community-pool coin: its fixed-point amount with the 18 fractional
/// digits cut off.
pub open spec fn fee_coin(c: DecCoin) -> Option<(Seq<char>, u128)> {
    match unsigned_value(c.amount@) {
        Some(a) => Some((c.denom@, (a / DECIMAL_FRACTIONAL) as u128)),
        None => None,
    }
}

/// The coins of a decoded fee pool, each truncated to whole units.
pub fn fee_pool_from_message(m: &ProtoFeePool) -> (r: Option<FeePool>)
    ensures
        match r {
            Some(p) => p.coins@.len() == m.community_pool@.len() && forall|i: int|
                0 <= i < m.community_pool@.len() ==> fee_coin(m.community_pool@[i]) == Some(coin_view(#[trigger] p.coins@[i])),
            None => exists|k: int| 0 <= k < m.community_pool@.len() && fee_coin(#[trigger] m.community_pool@[k]) is None,
        },
{
    let mut coins: Vec<Coin> = Vec::new();
    let mut i: usize = 0;
    while i < m.community_pool.len()
        invariant
            i <= m.community_pool@.len(),
            coins@.len() == i,
            forall|j: int| 0 <= j < i ==> fee_coin(m.community_pool@[j]) == Some(coin_view(#[trigger] coins@[j])),
        decreases m.community_pool@.len() - i,
    {
        let c = &m.community_pool[i];
        match parse_u128(c.amount.as_str()) {
            Some(a) => coins.push(Coin { denom: c.denom.clone(), amount: a / DECIMAL_FRACTIONAL }),
            None => {
                assert(fee_coin(m.community_pool@[i as int]) is None);
                return None;
            },
        }
        i += 1;
    }
    Some(FeePool { coins })
}

/// What reconstructing the fee pool from `entries` gives. The batch answers
/// the query for the single fee-pool key, so its first entry is the fee
/// pool; further entries are not read.
pub open spec fn fee_pool_result(entries: Seq<StorageEntry>, r: Result<FeePool, QueryError>) -> bool {
    if entries.len() == 0 {
        r == Err::<FeePool, QueryError>(QueryError::MissingEntry)
    } else {
        match decoded_fee_pool(entries[0].value@) {
            None => r == Err::<FeePool, QueryError>(malformed(Domain::FeePool, entries[0])),
            Some(m) => match r {
                Ok(p) => p.coins@.len() == m.community_pool@.len() && forall|i: int|
                    0 <= i < m.community_pool@.len() ==> fee_coin(m.community_pool@[i]) == Some(coin_view(#[trigger] p.coins@[i])),
                Err(e) => e == malformed(Domain::FeePool, entries[0])
                    && exists|k: int| 0 <= k < m.community_pool@.len() && fee_coin(#[trigger] m.community_pool@[k]) is None,
            },
        }
    }
}

impl FeePool {
    /// Reads the community pool out of the fee-pool entry.
    pub fn reconstruct(entries: &[StorageEntry]) -> (r: Result<FeePool, QueryError>)
        ensures
            fee_pool_result(entries@, r),
    {
        if entries.len() == 0 {
            return Err(QueryError::MissingEntry);
        }
        let e = &entries[0];
        let m = match decode_fee_pool(e.value.as_slice()) {
            Some(m) => m,
            None => return Err(QueryError::MalformedValue { domain: Domain::FeePool, len: e.value.len() }),
        };
        match fee_pool_from_message(&m) {
            Some(p) => Ok(p),
            None => Err(QueryError::MalformedValue { domain: Domain::FeePool, len: e.value.len() }),
        }
    }
}

} // verus!
