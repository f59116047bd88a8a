use android_sms_gateway::encryption::Encryptor;

#[test]
fn test_decrypt_known_value() {
    let passphrase = "passphrase";
    let cleartext = "hello";
    let encrypted =
        "$aes-256-cbc/pbkdf2-sha1$i=75000$obSTW6ittQvTtdAxonQKIw==$g3QFAC9CtBcPxoKlouqsyQ==";
    let encryptor = Encryptor::with_iterations(passphrase, 75000);
    let decrypted = encryptor.decrypt(encrypted).unwrap();
    assert_eq!(cleartext, decrypted);
}

#[test]
fn test_encrypt_decrypt_roundtrip() {
    let passphrase = "correcthorsebatterystaple";
    let encryptor = Encryptor::with_iterations(passphrase, 1000);
    let cleartext = "The quick brown fox jumps over the lazy dog";
    let encrypted = encryptor.encrypt(cleartext);
    let decrypted = encryptor.decrypt(&encrypted).unwrap();
    assert_eq!(cleartext, decrypted);
}

#[test]
fn test_decrypt_with_different_iterations() {
    let passphrase = "correcthorsebatterystaple";
    let encryptor = Encryptor::with_iterations(passphrase, 50000);
    let cleartext = "hello world";
    let encrypted = encryptor.encrypt(cleartext);
    let decrypted = encryptor.decrypt(&encrypted).unwrap();
    assert_eq!(cleartext, decrypted);
}

#[test]
fn test_decrypt_empty_string() {
    let passphrase = "test";
    let encryptor = Encryptor::with_iterations(passphrase, 1000);
    let encrypted = encryptor.encrypt("");
    let decrypted = encryptor.decrypt(&encrypted).unwrap();
    assert_eq!("", decrypted);
}

#[test]
fn test_decrypt_wrong_passphrase() {
    let encrypted =
        "$aes-256-cbc/pbkdf2-sha1$i=1000$obSTW6ittQvTtdAxonQKIw==$g3QFAC9CtBcPxoKlouqsyQ==";
    let encryptor = Encryptor::with_iterations("wrong", 1000);
    assert!(encryptor.decrypt(encrypted).is_err());
}

#[test]
fn test_invalid_format() {
    let encryptor = Encryptor::with_iterations("test", 1000);
    assert!(encryptor.decrypt("invalid$format$string").is_err());
}

#[test]
fn test_unsupported_algorithm() {
    let encryptor = Encryptor::with_iterations("test", 1000);
    assert!(encryptor.decrypt("$unsupported$i=0$salt$data").is_err());
}

#[test]
fn test_missing_iteration_count() {
    let encryptor = Encryptor::with_iterations("test", 1000);
    assert!(encryptor
        .decrypt("$aes-256-cbc/pbkdf2-sha1$x=0$salt$data")
        .is_err());
}

#[test]
fn test_default_iterations() {
    let encryptor = Encryptor::new("test");
    let cleartext = "hello";
    let encrypted = encryptor.encrypt(cleartext);
    assert!(encrypted.contains("i=75000"));
    let decrypted = encryptor.decrypt(&encrypted).unwrap();
    assert_eq!(cleartext, decrypted);
}
