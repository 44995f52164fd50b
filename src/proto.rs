use vstd::prelude::*;

use cosmos_sdk_proto::cosmos::base::v1beta1::{Coin as ProtoCoin, DecCoin};
use cosmos_sdk_proto::cosmos::distribution::v1beta1::FeePool as ProtoFeePool;
use cosmos_sdk_proto::cosmos::gov::v1beta1::{Proposal as ProtoProposal, TallyResult as ProtoTally};
use cosmos_sdk_proto::cosmos::staking::v1beta1::{
    Commission, CommissionRates, Delegation as ProtoDelegation, Description,
    Validator as ProtoValidator,
};
use cosmos_sdk_proto::traits::Message;

verus! {

// The messages of the remote chain's schema, with their fields visible.
#[verifier::external_type_specification]
pub struct ExAny(prost_types::Any);

#[verifier::external_type_specification]
pub struct ExTimestamp(prost_types::Timestamp);

#[verifier::external_type_specification]
pub struct ExCoin(ProtoCoin);

#[verifier::external_type_specification]
pub struct ExDecCoin(DecCoin);

#[verifier::external_type_specification]
pub struct ExFeePool(ProtoFeePool);

#[verifier::external_type_specification]
pub struct ExDescription(Description);

#[verifier::external_type_specification]
pub struct ExCommissionRates(CommissionRates);

#[verifier::external_type_specification]
pub struct ExCommission(Commission);

#[verifier::external_type_specification]
pub struct ExValidator(ProtoValidator);

#[verifier::external_type_specification]
pub struct ExDelegation(ProtoDelegation);

#[verifier::external_type_specification]
pub struct ExTally(ProtoTally);

#[verifier::external_type_specification]
pub struct ExProposal(ProtoProposal);

/// The coin message that protobuf decoding reads out of `b`, if any.
pub uninterp spec fn decoded_coin(b: Seq<u8>) -> Option<ProtoCoin>;

/// Relies on prost's `Message::decode` for the coin message.
#[verifier::external_body]
pub(crate) fn decode_coin(b: &[u8]) -> (r: Option<ProtoCoin>)
    ensures
        r == decoded_coin(b@),
{
    ProtoCoin::decode(b).ok()
}

/// The fee-pool message that protobuf decoding reads out of `b`, if any.
pub uninterp spec fn decoded_fee_pool(b: Seq<u8>) -> Option<ProtoFeePool>;

/// Relies on prost's `Message::decode` for the fee-pool message.
#[verifier::external_body]
pub(crate) fn decode_fee_pool(b: &[u8]) -> (r: Option<ProtoFeePool>)
    ensures
        r == decoded_fee_pool(b@),
{
    ProtoFeePool::decode(b).ok()
}

/// The validator message that protobuf decoding reads out of `b`, if any.
pub uninterp spec fn decoded_validator(b: Seq<u8>) -> Option<ProtoValidator>;

/// Relies on prost's `Message::decode` for the validator message.
#[verifier::external_body]
pub(crate) fn decode_validator(b: &[u8]) -> (r: Option<ProtoValidator>)
    ensures
        r == decoded_validator(b@),
{
    ProtoValidator::decode(b).ok()
}

/// The delegation message that protobuf decoding reads out of `b`, if any.
pub uninterp spec fn decoded_delegation(b: Seq<u8>) -> Option<ProtoDelegation>;

/// Relies on prost's `Message::decode` for the delegation message.
#[verifier::external_body]
pub(crate) fn decode_delegation(b: &[u8]) -> (r: Option<ProtoDelegation>)
    ensures
        r == decoded_delegation(b@),
{
    ProtoDelegation::decode(b).ok()
}

/// The proposal message that protobuf decoding reads out of `b`, if any.
pub uninterp spec fn decoded_proposal(b: Seq<u8>) -> Option<ProtoProposal>;

/// Relies on prost's `Message::decode` for the governance proposal message.
#[verifier::external_body]
pub(crate) fn decode_proposal(b: &[u8]) -> (r: Option<ProtoProposal>)
    ensures
        r == decoded_proposal(b@),
{
    ProtoProposal::decode(b).ok()
}

} // verus!
