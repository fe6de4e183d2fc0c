use mpesa_rs::callback::{deposit_record, payment_result_record, C2bCallbackData, MpesaCallbackData};
use mpesa_rs::models::C2bCallback;
use mpesa_rs::timestamp::UtcInstant;

fn payment() -> MpesaCallbackData {
    MpesaCallbackData {
        merchant_request_id: "29115-34620561-1".to_string(),
        checkout_request_id: "ws_CO_1234".to_string(),
        result_code: "0".to_string(),
        result_desc: "The service request is processed successfully.".to_string(),
        amount_bits: 100.0f64.to_bits(),
        mpesa_receipt_number: "NLJ7RT61SV".to_string(),
        transaction_date: "20191219102115".to_string(),
        phone_number: "254708374149".to_string(),
    }
}

fn deposit() -> C2bCallbackData {
    C2bCallbackData {
        transaction_type: "Pay Bill".to_string(),
        trans_id: "RKTQDM7W6S".to_string(),
        trans_time: "20191122063845".to_string(),
        trans_amount_bits: 10.5f64.to_bits(),
        business_short_code: "600638".to_string(),
        bill_ref_number: "A123".to_string(),
        invoice_number: "INV9".to_string(),
        org_account_balance_bits: 49197.0f64.to_bits(),
        third_party_trans_id: "TP1".to_string(),
        msisdn: "254708374149".to_string(),
        first_name: "John".to_string(),
        middle_name: "K".to_string(),
        last_name: "Doe".to_string(),
    }
}

fn is_random_uuid(id: u128) -> bool {
    (id >> 76) & 0xF == 4 && (id >> 62) & 0x3 == 2
}

#[test]
fn payment_result_record_keeps_fields() {
    let rec = payment_result_record(payment()).unwrap();
    assert_eq!(f64::from_bits(rec.amount_bits), 100.0);
    assert_eq!(rec.mpesa_receipt_number, "NLJ7RT61SV");
    assert_eq!(rec.merchant_request_id, "29115-34620561-1");
    assert_eq!(rec.checkout_request_id, "ws_CO_1234");
    assert_eq!(rec.result_code, "0");
    assert_eq!(rec.result_desc, "The service request is processed successfully.");
    assert_eq!(rec.transaction_date, "20191219102115");
    assert_eq!(rec.phone_number, "254708374149");
    assert!(is_random_uuid(rec.id));
    assert!(rec.created_at.year >= 2024);
}

#[test]
fn repeated_delivery_gives_two_records() {
    let a = payment_result_record(payment()).unwrap();
    let b = payment_result_record(payment()).unwrap();
    assert_eq!(a.checkout_request_id, b.checkout_request_id);
    assert_ne!(a.id, b.id);
}

#[test]
fn deposit_record_keeps_all_fields() {
    let rec: C2bCallback = deposit_record(deposit()).unwrap();
    assert_eq!(rec.transaction_type, "Pay Bill");
    assert_eq!(rec.trans_id, "RKTQDM7W6S");
    assert_eq!(rec.trans_time, "20191122063845");
    assert_eq!(f64::from_bits(rec.trans_amount_bits), 10.5);
    assert_eq!(rec.business_short_code, "600638");
    assert_eq!(rec.bill_ref_number, "A123");
    assert_eq!(rec.invoice_number, "INV9");
    assert_eq!(f64::from_bits(rec.org_account_balance_bits), 49197.0);
    assert_eq!(rec.third_party_trans_id, "TP1");
    assert_eq!(rec.msisdn, "254708374149");
    assert_eq!(rec.first_name, "John");
    assert_eq!(rec.middle_name, "K");
    assert_eq!(rec.last_name, "Doe");
    assert!(is_random_uuid(rec.id));
}

#[test]
fn record_creation_time_is_not_before_call() {
    let before = UtcInstant::now().unwrap();
    let rec = payment_result_record(payment()).unwrap();
    let key = |t: &UtcInstant| (t.year, t.month, t.day, t.hour, t.minute, t.second, t.nanosecond);
    assert!(key(&rec.created_at) >= key(&before));
}
