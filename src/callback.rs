use vstd::prelude::*;
use crate::models::{MpesaCallback, C2bCallback, is_random_uuid};
use crate::timestamp::UtcInstant;

verus! {

/// The payment-result notification as the provider posts it.
#[derive(Clone, Debug)]
pub struct MpesaCallbackData {
    pub merchant_request_id: String,
    pub checkout_request_id: String,
    pub result_code: String,
    pub result_desc: String,
    /// Bit pattern of the IEEE-754 double `amount`.
    pub amount_bits: u64,
    pub mpesa_receipt_number: String,
    pub transaction_date: String,
    pub phone_number: String,
}

/// The deposit notification as the provider posts it.
#[derive(Clone, Debug)]
pub struct C2bCallbackData {
    pub transaction_type: String,
    pub trans_id: String,
    pub trans_time: String,
    /// Bit pattern of the IEEE-754 double `trans_amount`.
    pub trans_amount_bits: u64,
    pub business_short_code: String,
    pub bill_ref_number: String,
    pub invoice_number: String,
    /// Bit pattern of the IEEE-754 double `org_account_balance`.
    pub org_account_balance_bits: u64,
    pub third_party_trans_id: String,
    pub msisdn: String,
    pub first_name: String,
    pub middle_name: String,
    pub last_name: String,
}

/// Relies on uuid's `Uuid::new_v4` and `as_u128`: a random UUID, whose version and
/// variant bits are fixed.
#[verifier::external_body]
fn new_record_id() -> (r: u128)
    ensures
        is_random_uuid(r),
{
    uuid::Uuid::new_v4().as_u128()
}

impl MpesaCallback {
    /// Every notification field of the record equals the one of `data`.
    pub open spec fn holds_notification(self, data: MpesaCallbackData) -> bool {
        &&& self.merchant_request_id@ == data.merchant_request_id@
        &&& self.checkout_request_id@ == data.checkout_request_id@
        &&& self.result_code@ == data.result_code@
        &&& self.result_desc@ == data.result_desc@
        &&& self.amount_bits == data.amount_bits
        &&& self.mpesa_receipt_number@ == data.mpesa_receipt_number@
        &&& self.transaction_date@ == data.transaction_date@
        &&& self.phone_number@ == data.phone_number@
    }

    /// The record of `data` under identifier `id`, created at `created_at`.
    pub open spec fn record_of(data: MpesaCallbackData, id: u128, created_at: UtcInstant) -> MpesaCallback {
        MpesaCallback {
            id,
            merchant_request_id: data.merchant_request_id,
            checkout_request_id: data.checkout_request_id,
            result_code: data.result_code,
            result_desc: data.result_desc,
            amount_bits: data.amount_bits,
            mpesa_receipt_number: data.mpesa_receipt_number,
            transaction_date: data.transaction_date,
            phone_number: data.phone_number,
            created_at,
        }
    }

    /// The record of `data` under identifier `id`, created at `created_at`.
    pub fn from_notification(data: MpesaCallbackData, id: u128, created_at: UtcInstant) -> (r: MpesaCallback)
        ensures
            r == MpesaCallback::record_of(data, id, created_at),
            r.holds_notification(data),
            r.id == id,
            r.created_at == created_at,
    {
        MpesaCallback {
            id,
            merchant_request_id: data.merchant_request_id,
            checkout_request_id: data.checkout_request_id,
            result_code: data.result_code,
            result_desc: data.result_desc,
            amount_bits: data.amount_bits,
            mpesa_receipt_number: data.mpesa_receipt_number,
            transaction_date: data.transaction_date,
            phone_number: data.phone_number,
            created_at,
        }
    }
}

impl C2bCallback {
    /// Every notification field of the record equals the one of `data`.
    pub open spec fn holds_notification(self, data: C2bCallbackData) -> bool {
        &&& self.transaction_type@ == data.transaction_type@
        &&& self.trans_id@ == data.trans_id@
        &&& self.trans_time@ == data.trans_time@
        &&& self.trans_amount_bits == data.trans_amount_bits
        &&& self.business_short_code@ == data.business_short_code@
        &&& self.bill_ref_number@ == data.bill_ref_number@
        &&& self.invoice_number@ == data.invoice_number@
        &&& self.org_account_balance_bits == data.org_account_balance_bits
        &&& self.third_party_trans_id@ == data.third_party_trans_id@
        &&& self.msisdn@ == data.msisdn@
        &&& self.first_name@ == data.first_name@
        &&& self.middle_name@ == data.middle_name@
        &&& self.last_name@ == data.last_name@
    }

    /// The record of `data` under identifier `id`, created at `created_at`.
    pub fn from_notification(data: C2bCallbackData, id: u128, created_at: UtcInstant) -> (r: C2bCallback)
        ensures
            r.holds_notification(data),
            r.id == id,
            r.created_at == created_at,
    {
        C2bCallback {
            id,
            transaction_type: data.transaction_type,
            trans_id: data.trans_id,
            trans_time: data.trans_time,
            trans_amount_bits: data.trans_amount_bits,
            business_short_code: data.business_short_code,
            bill_ref_number: data.bill_ref_number,
            invoice_number: data.invoice_number,
            org_account_balance_bits: data.org_account_balance_bits,
            third_party_trans_id: data.third_party_trans_id,
            msisdn: data.msisdn,
            first_name: data.first_name,
            middle_name: data.middle_name,
            last_name: data.last_name,
            created_at,
        }
    }
}

/// Records are never merged: two deliveries of the same notification (same
/// checkout-request-id, or entirely equal) stored under different identifiers
/// are two distinct rows, each holding the delivered fields verbatim.
pub proof fn lemma_repeated_delivery_kept(
    first: MpesaCallbackData,
    second: MpesaCallbackData,
    first_id: u128,
    second_id: u128,
    first_at: UtcInstant,
    second_at: UtcInstant,
)
    requires
        first.checkout_request_id@ == second.checkout_request_id@,
        first_id != second_id,
    ensures
        MpesaCallback::record_of(first, first_id, first_at).holds_notification(first),
        MpesaCallback::record_of(second, second_id, second_at).holds_notification(second),
        MpesaCallback::record_of(first, first_id, first_at) != MpesaCallback::record_of(second, second_id, second_at),
        MpesaCallback::record_of(first, first_id, first_at).checkout_request_id@
            == MpesaCallback::record_of(second, second_id, second_at).checkout_request_id@,
{
}

/// The record to store for an accepted payment-result notification: its fields
/// verbatim, a fresh random identifier and the current UTC time. `None` only
/// when the clock reads a year outside 0..=9999.
pub fn payment_result_record(data: MpesaCallbackData) -> (r: Option<MpesaCallback>)
    ensures
        r matches Some(rec) ==> rec.holds_notification(data) && is_random_uuid(rec.id)
            && rec.created_at.wf(),
{
    match UtcInstant::now() {
        Some(now) => Some(MpesaCallback::from_notification(data, new_record_id(), now)),
        None => None,
    }
}

/// The record to store for an accepted deposit notification: its fields
/// verbatim, a fresh random identifier and the current UTC time. `None` only
/// when the clock reads a year outside 0..=9999.
pub fn deposit_record(data: C2bCallbackData) -> (r: Option<C2bCallback>)
    ensures
        r matches Some(rec) ==> rec.holds_notification(data) && is_random_uuid(rec.id)
            && rec.created_at.wf(),
{
    match UtcInstant::now() {
        Some(now) => Some(C2bCallback::from_notification(data, new_record_id(), now)),
        None => None,
    }
}

} // verus!
