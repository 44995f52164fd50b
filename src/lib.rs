//! Reconstruction of typed results from raw key-value entries read out of the
//! state of a remote Cosmos chain.
//!
//! - `address`: bech32 addresses and length prefixes.
//! - `keys`: the store keys under which the remote chain keeps each object.
//! - `numeric`: decimal text, fixed-point decimals and delegation valuation.
//! - `proto`, `text`: decoding of protobuf messages, UTF-8 and JSON values.
//! - `bank`, `staking`, `gov`: one reconstructor per domain object.
//! - `envelope`: dispatch of a batch to the reconstructor of its kind.

pub mod error;
pub mod address;
pub mod keys;
pub mod proto;
pub mod numeric;
pub mod text;
pub mod bank;
pub mod staking;
pub mod gov;
pub mod envelope;
pub mod params;
