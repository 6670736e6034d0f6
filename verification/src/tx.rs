use vstd::prelude::*;

verus! {

/// One gwei in wei, the unit the fixed fee parameters are quoted in.
pub const GWEI: u128 = 1_000_000_000;

/// Fixed fee cap per gas unit for every transaction this tool issues.
pub const MAX_FEE_PER_GAS: u128 = 10 * GWEI;

/// Fixed priority fee per gas unit.
pub const MAX_PRIORITY_FEE_PER_GAS: u128 = GWEI;

/// Fixed fee cap per unit of payload gas on payload-carrying transactions.
pub const MAX_FEE_PER_BLOB_GAS: u128 = 10 * GWEI;

/// Fixed gas limit: every transaction is a plain transfer.
pub const GAS_LIMIT: u64 = 21_000;

/// A party to a transfer: the distinguished funding account, or one of the
/// ephemeral accounts picked out by its index in the pool.
#[derive(Clone, Copy, Debug, PartialEq, Eq, Structural)]
pub enum Party {
    Funder,
    Ephemeral(u8),
}

/// Everything the external signing and RPC collaborators need to turn one
/// intended transaction into a signed submission. Built fresh per attempt and
/// immutable once handed over.
#[derive(Clone, Copy, Debug)]
pub struct TxIntent {
    pub sender: Party,
    pub recipient: Party,
    pub nonce: u64,
    pub value: u128,
    pub max_fee_per_gas: u128,
    pub max_priority_fee_per_gas: u128,
    pub max_fee_per_blob_gas: Option<u128>,
    pub gas_limit: u64,
    pub chain_id: u64,
    pub carries_payload: bool,
}

/// The funding transfer for the account at index `to`: moves `value` from the
/// funder under the funder's sequence counter `nonce`, with no payload.
pub open spec fn spec_funding_intent(to: u8, nonce: u64, value: u128, chain_id: u64) -> TxIntent {
    TxIntent {
        sender: Party::Funder,
        recipient: Party::Ephemeral(to),
        nonce,
        value,
        max_fee_per_gas: MAX_FEE_PER_GAS,
        max_priority_fee_per_gas: MAX_PRIORITY_FEE_PER_GAS,
        max_fee_per_blob_gas: None,
        gas_limit: GAS_LIMIT,
        chain_id,
        carries_payload: false,
    }
}

pub fn funding_intent(to: u8, nonce: u64, value: u128, chain_id: u64) -> (t: TxIntent)
    ensures
        t == spec_funding_intent(to, nonce, value, chain_id),
{
    TxIntent {
        sender: Party::Funder,
        recipient: Party::Ephemeral(to),
        nonce,
        value,
        max_fee_per_gas: MAX_FEE_PER_GAS,
        max_priority_fee_per_gas: MAX_PRIORITY_FEE_PER_GAS,
        max_fee_per_blob_gas: None,
        gas_limit: GAS_LIMIT,
        chain_id,
        carries_payload: false,
    }
}

/// The spam transaction for the account at index `idx`: a zero-value
/// self-transfer under the account's freshly fetched sequence counter, whose
/// only purpose is to carry the fixed payload.
pub open spec fn spec_spam_intent(idx: u8, nonce: u64, chain_id: u64) -> TxIntent {
    TxIntent {
        sender: Party::Ephemeral(idx),
        recipient: Party::Ephemeral(idx),
        nonce,
        value: 0,
        max_fee_per_gas: MAX_FEE_PER_GAS,
        max_priority_fee_per_gas: MAX_PRIORITY_FEE_PER_GAS,
        max_fee_per_blob_gas: Some(MAX_FEE_PER_BLOB_GAS),
        gas_limit: GAS_LIMIT,
        chain_id,
        carries_payload: true,
    }
}

pub fn spam_intent(idx: u8, nonce: u64, chain_id: u64) -> (t: TxIntent)
    ensures
        t == spec_spam_intent(idx, nonce, chain_id),
{
    TxIntent {
        sender: Party::Ephemeral(idx),
        recipient: Party::Ephemeral(idx),
        nonce,
        value: 0,
        max_fee_per_gas: MAX_FEE_PER_GAS,
        max_priority_fee_per_gas: MAX_PRIORITY_FEE_PER_GAS,
        max_fee_per_blob_gas: Some(MAX_FEE_PER_BLOB_GAS),
        gas_limit: GAS_LIMIT,
        chain_id,
        carries_payload: true,
    }
}

/// The fixed payload content every spam transaction carries, as raw bytes for
/// the external payload-encoding collaborator.
pub fn payload_content() -> (v: Vec<u8>)
    ensures
        v@ == seq![115u8, 112u8, 97u8, 109u8],
{
    let mut v: Vec<u8> = Vec::new();
    v.push(115);
    v.push(112);
    v.push(97);
    v.push(109);
    proof {
        assert(v@ =~= seq![115u8, 112u8, 97u8, 109u8]);
    }
    v
}

} // verus!
