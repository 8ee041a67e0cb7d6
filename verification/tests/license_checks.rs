use aes_gcm::aead::Aead;
use aes_gcm::KeyInit;
use authgate::license::{classify_license, date_le, decrypt_and_parse_license_data, format_ymd,
    hex_decode, license_check_data, license_hash_input, license_save_outcome, parse_compact,
    parse_datetime_date, parse_ymd, prepare_license_check, prepare_license_save,
    validate_credential_target, zero_pad, LicenseCheckStep, LicenseData, LicenseDate,
    LicenseStatus};
use base64::Engine;

fn date(y: u32, m: u32, d: u32) -> LicenseDate {
    LicenseDate { y, m, d }
}

#[test]
fn date_parsing_and_calendar() {
    assert_eq!(parse_ymd("2024-02-29"), Some(date(2024, 2, 29)));
    assert_eq!(parse_ymd("2023-02-29"), None);
    assert_eq!(parse_ymd("2100-02-29"), None);
    assert_eq!(parse_ymd("2000-02-29"), Some(date(2000, 2, 29)));
    assert_eq!(parse_ymd("2024-13-01"), None);
    assert_eq!(parse_ymd("2024-04-31"), None);
    assert_eq!(parse_ymd("2024-1-02"), None);
    assert_eq!(parse_ymd("20240102"), None);
    assert_eq!(parse_compact("20240229"), Some(date(2024, 2, 29)));
    assert_eq!(parse_compact("2024-229"), None);
    assert_eq!(parse_datetime_date("2025-08-01 23:59:59"), Some(date(2025, 8, 1)));
    assert_eq!(parse_datetime_date("2025-08-01 24:00:00"), None);
    assert_eq!(parse_datetime_date("2025-08-01T00:00:00"), None);
    assert_eq!(parse_datetime_date("2025-08-01"), None);
}

#[test]
fn date_ordering() {
    assert!(date_le(&date(2024, 5, 1), &date(2024, 5, 1)));
    assert!(date_le(&date(2024, 5, 1), &date(2024, 5, 2)));
    assert!(date_le(&date(2024, 12, 31), &date(2025, 1, 1)));
    assert!(!date_le(&date(2025, 1, 1), &date(2024, 12, 31)));
}

#[test]
fn hash_input_layout() {
    assert_eq!(
        license_hash_input("SRV", "db", "2025-08-01", "app", "kw"),
        "SRV|db|2025-08-01|app|kw"
    );
}

#[test]
fn check_data_classifies_rows() {
    let missing = license_check_data(&None).unwrap_err();
    assert_eq!(missing.status, LicenseStatus::NotFound);
    let no_hash = license_check_data(&Some(LicenseData {
        hash_licencia_hex: None,
        fecha_caducidad_str: "2025-08-01 00:00:00".to_string(),
        credencial_encriptada: String::new(),
    }))
    .unwrap_err();
    assert_eq!(no_hash.status, LicenseStatus::InvalidHash);
    let bad_date = license_check_data(&Some(LicenseData {
        hash_licencia_hex: Some("123".to_string()),
        fecha_caducidad_str: "yesterday".to_string(),
        credencial_encriptada: String::new(),
    }))
    .unwrap_err();
    assert_eq!(bad_date.status, LicenseStatus::Corrupted);
    let (hash, expiry, date_text) = license_check_data(&Some(LicenseData {
        hash_licencia_hex: Some("123".to_string()),
        fecha_caducidad_str: "2025-08-01 10:20:30".to_string(),
        credencial_encriptada: String::new(),
    }))
    .unwrap();
    assert_eq!(hash, "123");
    assert_eq!(expiry, date(2025, 8, 1));
    assert_eq!(date_text, "2025-08-01");
}

#[test]
fn classification_outcomes() {
    let expiry = date(2025, 8, 1);
    let valid = classify_license("123", "123", &expiry, &date(2025, 8, 1));
    assert_eq!(valid.status, LicenseStatus::Valid);
    let expired = classify_license("123", "123", &expiry, &date(2025, 8, 2));
    assert_eq!(expired.status, LicenseStatus::Expired);
    let mismatch = classify_license("123", "124", &expiry, &date(2025, 8, 1));
    assert_eq!(mismatch.status, LicenseStatus::InvalidHash);
    assert!(license_save_outcome(&expiry, &date(2025, 7, 31)));
    assert!(!license_save_outcome(&expiry, &date(2025, 8, 2)));
}

#[test]
fn hex_decoding() {
    assert_eq!(hex_decode("00ff10Ab"), Some(vec![0x00, 0xff, 0x10, 0xab]));
    assert_eq!(hex_decode(""), Some(vec![]));
    assert!(hex_decode("abc").is_none());
    assert!(hex_decode("zz").is_none());
}

fn encrypt_credential(key: &[u8], nonce: &[u8], plaintext: &str) -> String {
    let cipher = aes_gcm::Aes256Gcm::new(aes_gcm::Key::<aes_gcm::Aes256Gcm>::from_slice(key));
    let ct = cipher
        .encrypt(aes_gcm::Nonce::from_slice(nonce), plaintext.as_bytes())
        .unwrap();
    let mut blob = nonce.to_vec();
    blob.extend_from_slice(&ct);
    base64::engine::general_purpose::STANDARD.encode(blob)
}

const KEY_HEX: &str = "000102030405060708090a0b0c0d0e0f101112131415161718191a1b1c1d1e1f";

#[test]
fn credential_round_trip() {
    let key: Vec<u8> = (0u8..32).collect();
    let nonce = [7u8; 12];
    let blob = encrypt_credential(&key, &nonce, "SRV\\INST|MyDb|20250801|riy");
    let (server, db, expiry, app) = decrypt_and_parse_license_data(&blob, KEY_HEX).unwrap();
    assert_eq!(server, "SRV\\INST");
    assert_eq!(db, "MyDb");
    assert_eq!(expiry, date(2025, 8, 1));
    assert_eq!(app, "riy");
}

#[test]
fn credential_rejections() {
    let key: Vec<u8> = (0u8..32).collect();
    let nonce = [7u8; 12];
    let good = encrypt_credential(&key, &nonce, "SRV|MyDb|20250801|riy");
    // wrong key: authentication fails
    let wrong_key_hex = "ff0102030405060708090a0b0c0d0e0f101112131415161718191a1b1c1d1e1f";
    assert!(decrypt_and_parse_license_data(&good, wrong_key_hex).is_err());
    // tampered blob
    let mut tampered = base64::engine::general_purpose::STANDARD.decode(&good).unwrap();
    let last = tampered.len() - 1;
    tampered[last] ^= 1;
    let tampered_b64 = base64::engine::general_purpose::STANDARD.encode(tampered);
    assert!(decrypt_and_parse_license_data(&tampered_b64, KEY_HEX).is_err());
    // key not hexadecimal / wrong width
    assert!(decrypt_and_parse_license_data(&good, "nothex").is_err());
    assert!(decrypt_and_parse_license_data(&good, "00ff").is_err());
    // blob not base64, or too short for nonce and tag
    assert!(decrypt_and_parse_license_data("%%%", KEY_HEX).is_err());
    let short = base64::engine::general_purpose::STANDARD.encode([0u8; 8]);
    assert!(decrypt_and_parse_license_data(&short, KEY_HEX).is_err());
    // wrong field count in the plaintext
    let two_fields = encrypt_credential(&key, &nonce, "a|b");
    assert!(decrypt_and_parse_license_data(&two_fields, KEY_HEX).is_err());
    // bad compact date
    let bad_date = encrypt_credential(&key, &nonce, "s|d|2025080|app");
    assert!(decrypt_and_parse_license_data(&bad_date, KEY_HEX).is_err());
}

#[test]
fn date_formatting_pads() {
    assert_eq!(format_ymd(&date(2025, 8, 1)), "2025-08-01");
    assert_eq!(format_ymd(&date(999, 12, 31)), "0999-12-31");
    assert_eq!(zero_pad(7, 2), "07");
    assert_eq!(zero_pad(123, 2), "123");
}

#[test]
fn license_check_sequencing() {
    let url = "mssql://sa:pw@SRV\\INST/MyDb";
    let row = Some(LicenseData {
        hash_licencia_hex: Some("424242".to_string()),
        fecha_caducidad_str: "2025-08-01 10:20:30".to_string(),
        credencial_encriptada: String::new(),
    });
    let step = prepare_license_check(url, "2025-07-01", &row, "riy", "kw").unwrap();
    match step {
        LicenseCheckStep::Ready { hash_input, stored_hash, expiry, today } => {
            assert_eq!(hash_input, "SRV|MyDb|2025-08-01|riy|kw");
            assert_eq!(stored_hash, "424242");
            assert_eq!(expiry, date(2025, 8, 1));
            assert_eq!(today, date(2025, 7, 1));
            // the caller computes the checksum; classification closes it
            assert_eq!(
                classify_license(&stored_hash, "424242", &expiry, &today).status,
                LicenseStatus::Valid
            );
        },
        LicenseCheckStep::Settled { .. } => panic!("a complete row reaches the checksum"),
    }
    // an absent row settles the check at once
    let step = prepare_license_check(url, "2025-07-01", &None, "riy", "kw").unwrap();
    match step {
        LicenseCheckStep::Settled { result } => assert_eq!(result.status, LicenseStatus::NotFound),
        LicenseCheckStep::Ready { .. } => panic!("no row, nothing to checksum"),
    }
    // a bad store date is an error, not a classification
    assert!(prepare_license_check(url, "not-a-date", &row, "riy", "kw").is_err());
    assert!(prepare_license_check("bad url", "2025-07-01", &row, "riy", "kw").is_err());
}

#[test]
fn license_save_sequencing() {
    let key: Vec<u8> = (0u8..32).collect();
    let nonce = [9u8; 12];
    let url = "mssql://sa:pw@SRV\\INST:1433/MyDb";
    let blob = encrypt_credential(&key, &nonce, "srv|mydb|20250801|riy");
    let d = prepare_license_save(&blob, KEY_HEX, "kw", url, "riy").unwrap();
    assert_eq!(d.server_name, "SRV\\INST");
    assert_eq!(d.db_name, "MyDb");
    assert_eq!(d.expiration_date_str, "2025-08-01");
    assert_eq!(d.hash_input, "SRV|MyDb|2025-08-01|riy|kw");
    assert_eq!(d.expiry, date(2025, 8, 1));
    // a credential for another server is refused
    let other = encrypt_credential(&key, &nonce, "elsewhere|mydb|20250801|riy");
    assert!(prepare_license_save(&other, KEY_HEX, "kw", url, "riy").is_err());
    // a credential for another application is refused
    let wrong_app = encrypt_credential(&key, &nonce, "srv|mydb|20250801|otra");
    assert!(prepare_license_save(&wrong_app, KEY_HEX, "kw", url, "riy").is_err());
}

#[test]
fn credential_target_checks() {
    assert!(validate_credential_target("SRV\\INST", "mydb", "riy", "srv\\OTHER", "MyDb", "riy")
        .is_ok());
    assert!(validate_credential_target("other", "mydb", "riy", "srv", "mydb", "riy").is_err());
    assert!(validate_credential_target("srv", "otherdb", "riy", "srv", "mydb", "riy").is_err());
    assert!(validate_credential_target("srv", "mydb", "otherapp", "srv", "mydb", "riy").is_err());
    assert!(validate_credential_target("srv", "mydb", "RIY", "srv", "mydb", "riy").is_err());
}
