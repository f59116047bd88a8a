//! Encryption and decryption of message content with AES-256-CBC and a key
//! derived from a passphrase with PBKDF2-SHA1.
//!
//! The encrypted form is
//! `$aes-256-cbc/pbkdf2-sha1$i=<iterations>$<base64 salt>$<base64 ciphertext>`,
//! where the salt doubles as the CBC initialization vector.

use vstd::prelude::*;
use vstd::string::*;
use vstd::utf8::{decode_utf8, encode_utf8, valid_utf8};
use aes::Aes256;
use cipher::{block_padding::Pkcs7, BlockDecryptMut, BlockEncryptMut, KeyIvInit};
use rand::RngCore;
use crate::encoding::{base64_bytes, base64_decode, base64_encode, base64_text, bytes_view, is_base64_char};
use crate::error::{fails_validation, Error};
use crate::text::{
    append, decimal, owned, parse_unsigned, push_decimal, same_text, split_on, split_once_on,
    split_once_text, split_text, texts, unsigned_value,
};

verus! {

/// The iteration count of a new encryptor.
pub const DEFAULT_ITERATIONS: u32 = 75_000;

/// The length in bytes of the salt (and initialization vector).
pub const SALT_SIZE: usize = 16;

/// The 32-byte key that PBKDF2-HMAC-SHA1 derives from `password` and `salt`
/// with `rounds` iterations.
pub uninterp spec fn pbkdf2_sha1_key(password: Seq<u8>, salt: Seq<u8>, rounds: u32) -> Seq<u8>;

/// AES-256-CBC encryption of `plain` with PKCS#7 padding.
pub uninterp spec fn aes256_cbc_encrypt(key: Seq<u8>, iv: Seq<u8>, plain: Seq<u8>) -> Seq<u8>;

/// AES-256-CBC decryption of `cipher` followed by removal of PKCS#7 padding;
/// `None` when the length is not a whole number of blocks or the padding is
/// malformed.
pub uninterp spec fn aes256_cbc_decrypt(key: Seq<u8>, iv: Seq<u8>, cipher: Seq<u8>) -> Option<
    Seq<u8>,
>;

/// Derives a 32-byte key with `pbkdf2::pbkdf2_hmac::<sha1::Sha1>`.
#[verifier::external_body]
fn derive_key(password: &[u8], salt: &[u8], rounds: u32) -> (r: Vec<u8>)
    ensures
        r@ == pbkdf2_sha1_key(password@, salt@, rounds),
        r@.len() == 32,
{
    let mut key = [0u8;32];
    pbkdf2::pbkdf2_hmac::<sha1::Sha1>(password, salt, rounds, &mut key);
    key.to_vec()
}

/// Encrypts with `cbc::Encryptor<Aes256>` and PKCS#7 padding
/// (`encrypt_padded_vec_mut`). PKCS#7 always adds one to sixteen bytes, so the
/// result is the whole 16-byte blocks of `plain` plus one; decrypting it with
/// the same key and IV gives `plain` back.
#[verifier::external_body]
fn cbc_encrypt(key: &[u8], iv: &[u8], plain: &[u8]) -> (r: Vec<u8>)
    requires
        key@.len() == 32,
        iv@.len() == 16,
    ensures
        r@ == aes256_cbc_encrypt(key@, iv@, plain@),
        r@.len() == padded_len(plain@.len()),
        aes256_cbc_decrypt(key@, iv@, r@) == Some(plain@),
{
    let c = cbc::Encryptor::<Aes256>::new_from_slices(key, iv).expect("32-byte key, 16-byte IV");
    c.encrypt_padded_vec_mut::<Pkcs7>(plain)
}

/// Decrypts with `cbc::Decryptor<Aes256>` and removes PKCS#7 padding
/// (`decrypt_padded_vec_mut`); `None` where that reports an error.
#[verifier::external_body]
fn cbc_decrypt(key: &[u8], iv: &[u8], cipher: &[u8]) -> (r: Option<Vec<u8>>)
    requires
        key@.len() == 32,
        iv@.len() == 16,
    ensures
        bytes_view(r) == aes256_cbc_decrypt(key@, iv@, cipher@),
{
    let c = cbc::Decryptor::<Aes256>::new_from_slices(key, iv).expect("32-byte key, 16-byte IV");
    match c.decrypt_padded_vec_mut::<Pkcs7>(cipher) {
        Ok(v) => Some(v),
        Err(_) => None,
    }
}

/// Sixteen bytes from the operating system's random number generator
/// (`rand::rngs::OsRng`).
#[verifier::external_body]
fn random_salt() -> (r: Vec<u8>)
    ensures
        r@.len() == 16,
{
    let mut salt = [0u8;16];
    rand::rngs::OsRng.fill_bytes(&mut salt);
    salt.to_vec()
}

/// `String::from_utf8`: the text the bytes encode, `None` when they are not
/// valid UTF-8.
#[verifier::external_body]
fn utf8_text(bytes: Vec<u8>) -> (r: Option<String>)
    ensures
        r is Some <==> valid_utf8(bytes@),
        r matches Some(s) ==> s@ == decode_utf8(bytes@),
{
    match String::from_utf8(bytes) {
        Ok(s) => Some(s),
        Err(_) => None,
    }
}

/// The length of `n` bytes after PKCS#7 padding to 16-byte blocks.
pub open spec fn padded_len(n: nat) -> nat {
    16 * (n / 16 + 1)
}

/// The AES-256-CBC ciphertext of `cleartext` under `passphrase`, with the
/// given iteration count and salt (which is also the IV).
pub open spec fn ciphertext(
    passphrase: Seq<char>,
    iterations: u32,
    salt: Seq<u8>,
    cleartext: Seq<char>,
) -> Seq<u8> {
    aes256_cbc_encrypt(
        pbkdf2_sha1_key(encode_utf8(passphrase), salt, iterations),
        salt,
        encode_utf8(cleartext),
    )
}

/// The name of the scheme in the encrypted form.
pub open spec fn scheme_name() -> Seq<char> {
    "aes-256-cbc/pbkdf2-sha1"@
}

/// The encrypted form: the scheme, the iteration count, the Base64 salt and
/// the Base64 ciphertext, each introduced by `$`.
pub open spec fn envelope(iterations: u32, salt_text: Seq<char>, data_text: Seq<char>) -> Seq<
    char,
> {
    "$aes-256-cbc/pbkdf2-sha1$i="@ + decimal(iterations as nat) + seq!['$'] + salt_text + seq![
        '$',
    ] + data_text
}

/// What `encrypt` writes for `cleartext` under `passphrase` with the given
/// iteration count and salt.
pub open spec fn encrypted_text(
    passphrase: Seq<char>,
    iterations: u32,
    salt: Seq<u8>,
    cleartext: Seq<char>,
) -> Seq<char> {
    envelope(
        iterations,
        base64_text(salt),
        base64_text(ciphertext(passphrase, iterations, salt, cleartext)),
    )
}

/// The `key=value` pairs of a comma-separated parameter list, in order;
/// items without `=` are skipped.
pub open spec fn params_of(pieces: Seq<Seq<char>>) -> Seq<(Seq<char>, Seq<char>)>
    decreases pieces.len(),
{
    if pieces.len() == 0 {
        Seq::empty()
    } else {
        params_of(pieces.drop_last()) + match split_once_on(pieces.last(), '=') {
            Some(p) => seq![p],
            None => Seq::empty(),
        }
    }
}

/// The value of the last pair with key `key`.
pub open spec fn param_lookup(ps: Seq<(Seq<char>, Seq<char>)>, key: Seq<char>) -> Option<Seq<char>>
    decreases ps.len(),
{
    if ps.len() == 0 {
        None
    } else if ps.last().0 == key {
        Some(ps.last().1)
    } else {
        param_lookup(ps.drop_last(), key)
    }
}

/// The views of a list of key-value pairs.
pub open spec fn pairs_view(v: Seq<(String, String)>) -> Seq<(Seq<char>, Seq<char>)> {
    v.map_values(|p: (String, String)| (p.0@, p.1@))
}

/// Reads a comma-separated list of `key=value` parameters, in order; items
/// without `=` are skipped. When a key occurs more than once, the last
/// occurrence is the one a lookup sees.
pub fn parse_params(params: &str) -> (r: Vec<(String, String)>)
    ensures
        pairs_view(r@) == params_of(split_on(params@, ',')),
{
    let pieces = split_text(params, ',');
    let mut r: Vec<(String, String)> = Vec::new();
    let mut i: usize = 0;
    assert(texts(pieces@).take(0) =~= Seq::<Seq<char>>::empty());
    while i < pieces.len()
        invariant
            i <= pieces@.len(),
            texts(pieces@) == split_on(params@, ','),
            pairs_view(r@) == params_of(texts(pieces@).take(i as int)),
        decreases pieces.len() - i,
    {
        assert(texts(pieces@).take(i + 1).drop_last() =~= texts(pieces@).take(i as int));
        assert(texts(pieces@).take(i + 1).last() == pieces@[i as int]@);
        match split_once_text(pieces[i].as_str(), '=') {
            Some(p) => {
                r.push(p);
                assert(pairs_view(r@) =~= params_of(texts(pieces@).take(i + 1)));
            },
            None => {
                assert(pairs_view(r@) =~= params_of(texts(pieces@).take(i + 1)));
            },
        }
        i = i + 1;
    }
    assert(texts(pieces@).take(pieces@.len() as int) =~= texts(pieces@));
    r
}

/// The value of the last pair whose key is `key`.
fn param_value<'a>(pairs: &'a Vec<(String, String)>, key: &str) -> (r: Option<&'a String>)
    ensures
        match param_lookup(pairs_view(pairs@), key@) {
            Some(v) => r matches Some(s) && s@ == v,
            None => r is None,
        },
{
    let mut i: usize = pairs.len();
    assert(pairs_view(pairs@).take(i as int) =~= pairs_view(pairs@));
    while i > 0
        invariant
            i <= pairs@.len(),
            param_lookup(pairs_view(pairs@), key@) == param_lookup(
                pairs_view(pairs@).take(i as int),
                key@,
            ),
        decreases i,
    {
        let ghost ps = pairs_view(pairs@).take(i as int);
        assert(ps.last() == (pairs@[i - 1].0@, pairs@[i - 1].1@));
        assert(ps.drop_last() =~= pairs_view(pairs@).take(i - 1));
        if same_text(pairs[i - 1].0.as_str(), key) {
            return Some(&pairs[i - 1].1);
        }
        i = i - 1;
    }
    assert(pairs_view(pairs@).take(0) =~= Seq::<(Seq<char>, Seq<char>)>::empty());
    None
}

/// The outcome of decrypting `encrypted` under `passphrase`: the cleartext,
/// or the message of the `Validation` error that reports why it failed.
pub open spec fn decryption(passphrase: Seq<char>, encrypted: Seq<char>) -> Result<
    Seq<char>,
    Seq<char>,
> {
    let parts = split_on(encrypted, '$');
    if parts.len() < 5 {
        Err("Invalid encryption format"@)
    } else if parts[1] != scheme_name() {
        Err("Unsupported algorithm"@)
    } else {
        match param_lookup(params_of(split_on(parts[2], ',')), "i"@) {
            None => Err("Missing iteration count"@),
            Some(it) => match unsigned_value(it) {
                None => Err("Missing iteration count"@),
                Some(iterations) => if iterations > u32::MAX {
                    Err("Missing iteration count"@)
                } else {
                    match base64_bytes(parts[3]) {
                        None => Err("Invalid salt encoding"@),
                        Some(salt) => if salt.len() != 16 {
                            Err("Invalid salt length"@)
                        } else {
                            match base64_bytes(parts[4]) {
                                None => Err("Invalid data encoding"@),
                                Some(data) => if data.len() % 16 != 0 {
                                    Err("Invalid encrypted data length"@)
                                } else {
                                    match aes256_cbc_decrypt(
                                        pbkdf2_sha1_key(
                                            encode_utf8(passphrase),
                                            salt,
                                            iterations as u32,
                                        ),
                                        salt,
                                        data,
                                    ) {
                                        None => Err("Decryption failed, invalid passphrase?"@),
                                        Some(plain) => if valid_utf8(plain) {
                                            Ok(decode_utf8(plain))
                                        } else {
                                            Err("Decrypted data is not valid UTF-8"@)
                                        },
                                    }
                                },
                            }
                        },
                    }
                },
            },
        }
    }
}

/// Encrypts and decrypts message content using AES-256-CBC with PBKDF2-SHA1
/// key derivation.
pub struct Encryptor {
    passphrase: String,
    iterations: u32,
}

impl Encryptor {
    /// The passphrase keys are derived from.
    pub closed spec fn spec_passphrase(&self) -> Seq<char> {
        self.passphrase@
    }

    /// The PBKDF2 iteration count used when encrypting.
    pub closed spec fn spec_iterations(&self) -> u32 {
        self.iterations
    }

    /// An encryptor with the default iteration count (75,000).
    pub fn new(passphrase: &str) -> (r: Self)
        ensures
            r.spec_passphrase() == passphrase@,
            r.spec_iterations() == DEFAULT_ITERATIONS,
    {
        Encryptor { passphrase: owned(passphrase), iterations: DEFAULT_ITERATIONS }
    }

    /// An encryptor with the given iteration count, which must be at least 1,000.
    pub fn with_iterations(passphrase: &str, iterations: u32) -> (r: Self)
        requires
            iterations >= 1000,
        ensures
            r.spec_passphrase() == passphrase@,
            r.spec_iterations() == iterations,
    {
        Encryptor { passphrase: owned(passphrase), iterations }
    }

    /// Encrypts `cleartext` with the given 16-byte salt, which also serves as
    /// the initialization vector. The salt's Base64 text has 24 characters,
    /// the ciphertext is the UTF-8 bytes of `cleartext` padded to whole
    /// 16-byte blocks, and decrypting the result with the same passphrase
    /// gives `cleartext` back.
    pub fn encrypt_with_salt(&self, cleartext: &str, salt: &[u8]) -> (r: String)
        requires
            salt@.len() == SALT_SIZE,
        ensures
            r@ == encrypted_text(self.spec_passphrase(), self.spec_iterations(), salt@, cleartext@),
            base64_text(salt@).len() == 24,
            ciphertext(self.spec_passphrase(), self.spec_iterations(), salt@, cleartext@).len()
                == padded_len(encode_utf8(cleartext@).len()),
            decryption(self.spec_passphrase(), r@) == Ok::<Seq<char>, Seq<char>>(cleartext@),
    {
        let key = derive_key(self.passphrase.as_str().as_bytes(), salt, self.iterations);
        let data = cbc_encrypt(key.as_slice(), salt, cleartext.as_bytes());
        let salt_text = base64_encode(salt);
        let data_text = base64_encode(data.as_slice());
        let mut r = String::from_str("$aes-256-cbc/pbkdf2-sha1$i=");
        push_decimal(&mut r, self.iterations as u64);
        crate::text::push_char(&mut r, '$');
        append(&mut r, salt_text.as_str());
        crate::text::push_char(&mut r, '$');
        append(&mut r, data_text.as_str());
        assert(r@ =~= envelope(self.iterations, salt_text@, data_text@));
        proof {
            lemma_envelope_decrypts(
                self.passphrase@,
                self.iterations,
                salt@,
                salt_text@,
                data@,
                data_text@,
                cleartext@,
            );
        }
        r
    }

    /// Encrypts `cleartext` with a fresh random 16-byte salt.
    pub fn encrypt(&self, cleartext: &str) -> (r: String)
        ensures
            exists|salt: Seq<u8>|
                {
                    &&& salt.len() == SALT_SIZE
                    &&& r@ == encrypted_text(
                        self.spec_passphrase(),
                        self.spec_iterations(),
                        salt,
                        cleartext@,
                    )
                    &&& base64_text(salt).len() == 24
                    &&& ciphertext(self.spec_passphrase(), self.spec_iterations(), salt, cleartext@).len()
                        == padded_len(encode_utf8(cleartext@).len())
                },
            decryption(self.spec_passphrase(), r@) == Ok::<Seq<char>, Seq<char>>(cleartext@),
    {
        let salt = random_salt();
        self.encrypt_with_salt(cleartext, salt.as_slice())
    }

    /// Decrypts text in the encrypted form. The iteration count comes from the
    /// text; every failure is a `Validation` error that names its reason.
    pub fn decrypt(&self, encrypted: &str) -> (r: Result<String, Error>)
        ensures
            match decryption(self.spec_passphrase(), encrypted@) {
                Ok(t) => r matches Ok(s) && s@ == t,
                Err(m) => fails_validation(r, m),
            },
    {
        let parts = split_text(encrypted, '$');
        if parts.len() < 5 {
            return Err(Error::Validation(String::from_str("Invalid encryption format")));
        }
        assert(texts(parts@)[1] == parts@[1]@);
        if !same_text(parts[1].as_str(), "aes-256-cbc/pbkdf2-sha1") {
            return Err(Error::Validation(String::from_str("Unsupported algorithm")));
        }
        assert(texts(parts@)[2] == parts@[2]@);
        assert(texts(parts@)[3] == parts@[3]@);
        assert(texts(parts@)[4] == parts@[4]@);
        let params = parse_params(parts[2].as_str());
        let iterations: u32 = match param_value(&params, "i") {
            Some(v) => match parse_unsigned(v.as_str(), 4294967295) {
                Some(n) => n as u32,
                None => {
                    return Err(Error::Validation(String::from_str("Missing iteration count")));
                },
            },
            None => {
                return Err(Error::Validation(String::from_str("Missing iteration count")));
            },
        };
        let salt = match base64_decode(parts[3].as_str()) {
            Some(s) => s,
            None => {
                return Err(Error::Validation(String::from_str("Invalid salt encoding")));
            },
        };
        if salt.len() != SALT_SIZE {
            return Err(Error::Validation(String::from_str("Invalid salt length")));
        }
        let data = match base64_decode(parts[4].as_str()) {
            Some(d) => d,
            None => {
                return Err(Error::Validation(String::from_str("Invalid data encoding")));
            },
        };
        if data.len() % 16 != 0 {
            return Err(Error::Validation(String::from_str("Invalid encrypted data length")));
        }
        let key = derive_key(self.passphrase.as_str().as_bytes(), salt.as_slice(), iterations);
        let plain = match cbc_decrypt(key.as_slice(), salt.as_slice(), data.as_slice()) {
            Some(p) => p,
            None => {
                return Err(
                    Error::Validation(String::from_str("Decryption failed, invalid passphrase?")),
                );
            },
        };
        match utf8_text(plain) {
            Some(s) => Ok(s),
            None => Err(Error::Validation(String::from_str("Decrypted data is not valid UTF-8"))),
        }
    }
}

/// An envelope built from the Base64 texts of a salt and of the ciphertext of
/// `cleartext` decrypts to `cleartext`, provided the texts decode back and
/// the ciphertext decrypts back, as the encoder and cipher promise.
proof fn lemma_envelope_decrypts(
    passphrase: Seq<char>,
    iterations: u32,
    salt: Seq<u8>,
    salt_text: Seq<char>,
    data: Seq<u8>,
    data_text: Seq<char>,
    cleartext: Seq<char>,
)
    requires
        salt.len() == 16,
        salt_text == base64_text(salt),
        forall|i: int| 0 <= i < salt_text.len() ==> is_base64_char(#[trigger] salt_text[i]),
        base64_bytes(salt_text) == Some(salt),
        data == aes256_cbc_encrypt(
            pbkdf2_sha1_key(encode_utf8(passphrase), salt, iterations),
            salt,
            encode_utf8(cleartext),
        ),
        data_text == base64_text(data),
        forall|i: int| 0 <= i < data_text.len() ==> is_base64_char(#[trigger] data_text[i]),
        base64_bytes(data_text) == Some(data),
        data.len() % 16 == 0,
        aes256_cbc_decrypt(
            pbkdf2_sha1_key(encode_utf8(passphrase), salt, iterations),
            salt,
            data,
        ) == Some(encode_utf8(cleartext)),
    ensures
        decryption(passphrase, envelope(iterations, salt_text, data_text)) == Ok::<
            Seq<char>,
            Seq<char>,
        >(cleartext),
{
    reveal_strlit("$aes-256-cbc/pbkdf2-sha1$i=");
    reveal_strlit("aes-256-cbc/pbkdf2-sha1");
    reveal_strlit("i");
    let n = decimal(iterations as nat);
    crate::text::lemma_decimal_reads_back(iterations as nat);
    let head = "$aes-256-cbc/pbkdf2-sha1$i="@;
    let scheme = "aes-256-cbc/pbkdf2-sha1"@;
    let item = seq!['i', '='] + n;
    assert(head + n =~= Seq::<char>::empty() + seq!['$'] + scheme + seq!['$'] + item);
    // no piece holds a separator
    assert(!Seq::<char>::empty().contains('$'));
    assert(!scheme.contains('$')) by {
        if scheme.contains('$') {
            let i = choose|i: int| 0 <= i < scheme.len() && scheme[i] == '$';
            assert(scheme[i] != '$');
        }
    }
    assert(!item.contains('$')) by {
        if item.contains('$') {
            let i = choose|i: int| 0 <= i < item.len() && item[i] == '$';
            if i >= 2 {
                assert(crate::text::is_digit(n[i - 2]));
            }
        }
    }
    assert(!salt_text.contains('$')) by {
        if salt_text.contains('$') {
            let i = choose|i: int| 0 <= i < salt_text.len() && salt_text[i] == '$';
            assert(is_base64_char(salt_text[i]));
        }
    }
    assert(!data_text.contains('$')) by {
        if data_text.contains('$') {
            let i = choose|i: int| 0 <= i < data_text.len() && data_text[i] == '$';
            assert(is_base64_char(data_text[i]));
        }
    }
    let e = envelope(iterations, salt_text, data_text);
    let p0 = Seq::<char>::empty();
    let p1 = p0 + seq!['$'] + scheme;
    let p2 = p1 + seq!['$'] + item;
    let p3 = p2 + seq!['$'] + salt_text;
    let p4 = p3 + seq!['$'] + data_text;
    assert(p4 =~= e);
    crate::text::lemma_split_on_without_sep(p0, '$');
    crate::text::lemma_split_on_append(p0, scheme, '$');
    crate::text::lemma_split_on_append(p1, item, '$');
    crate::text::lemma_split_on_append(p2, salt_text, '$');
    crate::text::lemma_split_on_append(p3, data_text, '$');
    let parts = split_on(e, '$');
    assert(parts =~= seq![p0, scheme, item, salt_text, data_text]);
    // the parameter list is the single pair ("i", n)
    assert(!item.contains(',')) by {
        if item.contains(',') {
            let i = choose|i: int| 0 <= i < item.len() && item[i] == ',';
            if i >= 2 {
                assert(crate::text::is_digit(n[i - 2]));
            }
        }
    }
    crate::text::lemma_split_on_without_sep(item, ',');
    crate::text::lemma_first_index(item, '=');
    assert(item[1] == '=');
    assert(item[0] != '=');
    assert(crate::text::first_index(item, '=') == Some(1int));
    assert(item.take(1) =~= "i"@);
    assert(item.skip(2) =~= n);
    assert(split_once_on(item, '=') == Some(("i"@, n)));
    assert(params_of(seq![item]) =~= seq![("i"@, n)]) by {
        assert(seq![item].drop_last() =~= Seq::<Seq<char>>::empty());
        assert(seq![item].last() == item);
        assert(params_of(Seq::<Seq<char>>::empty()) == Seq::<(Seq<char>, Seq<char>)>::empty());
    }
    assert(param_lookup(seq![("i"@, n)], "i"@) == Some(n));
    vstd::utf8::encode_utf8_valid_utf8(cleartext);
    vstd::utf8::encode_utf8_decode_utf8(cleartext);
}

} // verus!
