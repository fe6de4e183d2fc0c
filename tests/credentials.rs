use mpesa_rs::client::derive_password;
use mpesa_rs::timestamp::UtcInstant;

fn instant(y: i32, mo: u32, d: u32, h: u32, mi: u32, s: u32) -> UtcInstant {
    UtcInstant::from_parts(y, mo, d, h, mi, s, 0).unwrap()
}

#[test]
fn compact_timestamp_is_fixed_width() {
    assert_eq!(instant(2024, 1, 5, 7, 3, 9).compact(), "20240105070309");
    assert_eq!(instant(987, 12, 31, 23, 59, 59).compact(), "09871231235959");
}

#[test]
fn from_parts_rejects_out_of_range_fields() {
    assert!(UtcInstant::from_parts(2024, 13, 1, 0, 0, 0, 0).is_none());
    assert!(UtcInstant::from_parts(2024, 0, 1, 0, 0, 0, 0).is_none());
    assert!(UtcInstant::from_parts(2024, 1, 32, 0, 0, 0, 0).is_none());
    assert!(UtcInstant::from_parts(2024, 1, 1, 24, 0, 0, 0).is_none());
    assert!(UtcInstant::from_parts(10000, 1, 1, 0, 0, 0, 0).is_none());
    assert!(UtcInstant::from_parts(-1, 1, 1, 0, 0, 0, 0).is_none());
    assert!(UtcInstant::from_parts(2024, 1, 1, 0, 0, 0, 1_500_000_000).is_some());
}

#[test]
fn now_is_well_formed() {
    let t = UtcInstant::now().unwrap();
    assert!(t.year >= 2024);
    assert_eq!(t.compact().len(), 14);
}

#[test]
fn password_has_exact_value() {
    // base64 of "174379" + "key" + "20240101120000"
    let p = derive_password("174379", "key", &instant(2024, 1, 1, 12, 0, 0));
    assert_eq!(p, "MTc0Mzc5a2V5MjAyNDAxMDExMjAwMDA=");
}

#[test]
fn password_is_deterministic() {
    let t = instant(2024, 3, 4, 5, 6, 7);
    let a = derive_password("174379", "passkey", &t);
    let b = derive_password("174379", "passkey", &t);
    assert_eq!(a, b);
    let same_second = UtcInstant::from_parts(2024, 3, 4, 5, 6, 7, 999).unwrap();
    assert_eq!(a, derive_password("174379", "passkey", &same_second));
}

#[test]
fn password_differs_one_second_later() {
    let a = derive_password("174379", "passkey", &instant(2024, 3, 4, 5, 6, 7));
    let b = derive_password("174379", "passkey", &instant(2024, 3, 4, 5, 6, 8));
    assert_ne!(a, b);
}
