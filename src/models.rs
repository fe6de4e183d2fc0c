use vstd::prelude::*;
use crate::timestamp::UtcInstant;

verus! {

// Amounts and balances are carried as the bit pattern of the IEEE-754 double the
// provider sent, so that a stored value is the received value bit for bit.

/// A stored push-payment request and its acknowledgment.
#[derive(Clone, Debug)]
pub struct MpesaTransaction {
    pub id: u128,
    pub transaction_type: String,
    pub amount_bits: u64,
    pub phone_number: String,
    pub account_reference: String,
    pub transaction_desc: String,
    pub merchant_request_id: String,
    pub checkout_request_id: String,
    pub response_code: String,
    pub response_description: String,
    pub created_at: UtcInstant,
}

/// A stored payment-result notification.
#[derive(Clone, Debug)]
pub struct MpesaCallback {
    pub id: u128,
    pub merchant_request_id: String,
    pub checkout_request_id: String,
    pub result_code: String,
    pub result_desc: String,
    pub amount_bits: u64,
    pub mpesa_receipt_number: String,
    pub transaction_date: String,
    pub phone_number: String,
    pub created_at: UtcInstant,
}

/// A stored deposit notification.
#[derive(Clone, Debug)]
pub struct C2bCallback {
    pub id: u128,
    pub transaction_type: String,
    pub trans_id: String,
    pub trans_time: String,
    pub trans_amount_bits: u64,
    pub business_short_code: String,
    pub bill_ref_number: String,
    pub invoice_number: String,
    pub org_account_balance_bits: u64,
    pub third_party_trans_id: String,
    pub msisdn: String,
    pub first_name: String,
    pub middle_name: String,
    pub last_name: String,
    pub created_at: UtcInstant,
}

/// `id` has the version (4, random) and variant (RFC 4122) bits of a random UUID.
pub open spec fn is_random_uuid(id: u128) -> bool {
    &&& id & 0xF000_0000_0000_0000_0000u128 == 0x4000_0000_0000_0000_0000u128
    &&& id & 0xC000_0000_0000_0000u128 == 0x8000_0000_0000_0000u128
}

} // verus!
