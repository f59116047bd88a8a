use android_sms_gateway::encryption::{parse_params, Encryptor};
use android_sms_gateway::Error;
use aes::Aes256;
use base64::Engine;
use cipher::{block_padding::Pkcs7, BlockEncryptMut, KeyIvInit};

fn validation_message(r: Result<String, Error>) -> String {
    match r {
        Err(Error::Validation(m)) => m,
        other => panic!("expected a validation error, got {:?}", other),
    }
}

#[test]
fn encrypt_with_salt_is_deterministic_and_formatted() {
    let enc = Encryptor::with_iterations("passphrase", 75000);
    let salt: [u8; 16] = [
        161, 180, 147, 91, 168, 173, 181, 11, 211, 181, 208, 49, 162, 116, 10, 35,
    ];
    let text = enc.encrypt_with_salt("hello", &salt);
    assert_eq!(
        text,
        "$aes-256-cbc/pbkdf2-sha1$i=75000$obSTW6ittQvTtdAxonQKIw==$g3QFAC9CtBcPxoKlouqsyQ=="
    );
    assert_eq!(enc.decrypt(&text).unwrap(), "hello");
}

#[test]
fn decrypt_uses_the_iteration_count_in_the_text() {
    let writer = Encryptor::with_iterations("pw", 2000);
    let reader = Encryptor::with_iterations("pw", 9000);
    let text = writer.encrypt("ünïcødé ✓");
    assert_eq!(reader.decrypt(&text).unwrap(), "ünïcødé ✓");
}

#[test]
fn decrypt_reports_each_failure() {
    let enc = Encryptor::with_iterations("test", 1000);
    assert_eq!(validation_message(enc.decrypt("a$b$c$d")), "Invalid encryption format");
    assert_eq!(validation_message(enc.decrypt("$x$i=1$a$b")), "Unsupported algorithm");
    assert_eq!(
        validation_message(enc.decrypt("$aes-256-cbc/pbkdf2-sha1$i=abc$a$b")),
        "Missing iteration count"
    );
    assert_eq!(
        validation_message(enc.decrypt("$aes-256-cbc/pbkdf2-sha1$i=4294967296$a$b")),
        "Missing iteration count"
    );
    assert_eq!(
        validation_message(enc.decrypt("$aes-256-cbc/pbkdf2-sha1$i=1000$!!$b")),
        "Invalid salt encoding"
    );
    assert_eq!(
        validation_message(enc.decrypt("$aes-256-cbc/pbkdf2-sha1$i=1000$AAAA$b")),
        "Invalid salt length"
    );
    assert_eq!(
        validation_message(enc.decrypt(
            "$aes-256-cbc/pbkdf2-sha1$i=1000$obSTW6ittQvTtdAxonQKIw==$!!"
        )),
        "Invalid data encoding"
    );
    assert_eq!(
        validation_message(enc.decrypt(
            "$aes-256-cbc/pbkdf2-sha1$i=1000$obSTW6ittQvTtdAxonQKIw==$AAAA"
        )),
        "Invalid encrypted data length"
    );
    assert_eq!(
        validation_message(enc.decrypt(
            "$aes-256-cbc/pbkdf2-sha1$i=1000$obSTW6ittQvTtdAxonQKIw==$g3QFAC9CtBcPxoKlouqsyQ=="
        )),
        "Decryption failed, invalid passphrase?"
    );
}

#[test]
fn decrypt_accepts_extra_parameters_and_parts() {
    let enc = Encryptor::with_iterations("passphrase", 1000);
    let text =
        "$aes-256-cbc/pbkdf2-sha1$x=1,i=75000$obSTW6ittQvTtdAxonQKIw==$g3QFAC9CtBcPxoKlouqsyQ==$extra";
    assert_eq!(enc.decrypt(text).unwrap(), "hello");
}

#[test]
fn parse_params_keeps_pairs_in_order() {
    let p = parse_params("i=1,bad,k=v=w,i=2,=x");
    let expected: Vec<(String, String)> = vec![
        ("i".into(), "1".into()),
        ("k".into(), "v=w".into()),
        ("i".into(), "2".into()),
        ("".into(), "x".into()),
    ];
    assert_eq!(p, expected);
    assert!(parse_params("").is_empty());
}

#[test]
fn later_iteration_parameter_wins() {
    let enc = Encryptor::with_iterations("passphrase", 1000);
    let text =
        "$aes-256-cbc/pbkdf2-sha1$i=5,i=75000$obSTW6ittQvTtdAxonQKIw==$g3QFAC9CtBcPxoKlouqsyQ==";
    assert_eq!(enc.decrypt(text).unwrap(), "hello");
}

#[test]
fn decrypt_rejects_plaintext_that_is_not_utf8() {
    let salt = [7u8; 16];
    let mut key = [0u8; 32];
    pbkdf2::pbkdf2_hmac::<sha1::Sha1>(b"pw", &salt, 1000, &mut key);
    let data = cbc::Encryptor::<Aes256>::new_from_slices(&key, &salt)
        .unwrap()
        .encrypt_padded_vec_mut::<Pkcs7>(&[0xff, 0xfe]);
    let b64 = base64::engine::general_purpose::STANDARD;
    let text = format!(
        "$aes-256-cbc/pbkdf2-sha1$i=1000${}${}",
        b64.encode(salt),
        b64.encode(data)
    );
    let enc = Encryptor::with_iterations("pw", 1000);
    assert_eq!(validation_message(enc.decrypt(&text)), "Decrypted data is not valid UTF-8");
}

#[test]
fn salt_text_and_ciphertext_lengths() {
    let e = Encryptor::with_iterations("pw", 1000);
    for text in ["", "a", "0123456789abcde", "0123456789abcdef", "héllo wörld, and some more"] {
        let out = e.encrypt(text);
        let parts: Vec<&str> = out.split('$').collect();
        assert_eq!(parts[3].len(), 24);
        let ct = base64::engine::general_purpose::STANDARD.decode(parts[4]).unwrap();
        assert_eq!(ct.len(), 16 * (text.len() / 16 + 1));
        assert_eq!(parts[4].len(), 4 * ((ct.len() + 2) / 3));
        assert_eq!(e.decrypt(&out).unwrap(), text);
    }
}
