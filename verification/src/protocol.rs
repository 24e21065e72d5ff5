//! The wire protocol of an API call.
//!
//! A call carries its metadata in the payload of a JWT header, and its body AES-128-CBC
//! encrypted with a fixed key and, once the user has one, the user's key as IV. The response
//! is encrypted the same way and signed by a JWT whose claims hold the MD5 of the ciphertext
//! and the user's key in hex.

use vstd::prelude::*;

use aes::cipher::block_padding::Pkcs7;
use aes::cipher::{BlockDecryptMut, BlockEncryptMut, KeyIvInit};
use base64::Engine;
use vstd::utf8::{decode_utf8, valid_utf8};

verus! {

/// The byte `.` that separates the parts of a JWT.
pub const DOT: u8 = 46;

// ---------------------------------------------------------------------------------------
// Hex
// ---------------------------------------------------------------------------------------

/// The value of an ASCII hex digit of either case.
pub open spec fn hex_digit_value(b: u8) -> Option<int> {
    if 48 <= b <= 57 {
        Some(b - 48)
    } else if 97 <= b <= 102 {
        Some(b - 87)
    } else if 65 <= b <= 70 {
        Some(b - 55)
    } else {
        None
    }
}

/// The input without a leading `0x` or `0X`.
pub open spec fn without_hex_prefix(s: Seq<u8>) -> Seq<u8> {
    if s.len() >= 2 && s[0] == 48 && (s[1] == 120 || s[1] == 88) {
        s.skip(2)
    } else {
        s
    }
}

/// The bytes that a string of hex digit pairs stands for, each pair high digit first.
pub open spec fn hex_pairs_value(s: Seq<u8>) -> Seq<u8> {
    Seq::new(
        s.len() / 2,
        |k: int| (hex_digit_value(s[2 * k]).unwrap() * 16 + hex_digit_value(s[2 * k + 1]).unwrap()) as u8,
    )
}

/// What `const_hex::decode` gives: the length is checked to be even before a `0x` prefix
/// is taken off; then every remaining byte must be a hex digit.
pub open spec fn hex_decoded(s: Seq<u8>) -> Option<Seq<u8>> {
    if s.len() % 2 != 0 {
        None
    } else {
        let body = without_hex_prefix(s);
        if forall|i: int| 0 <= i < body.len() ==> (#[trigger] hex_digit_value(body[i])) is Some {
            Some(hex_pairs_value(body))
        } else {
            None
        }
    }
}

/// The lowercase hex digit for a value below 16.
pub open spec fn hex_char(d: int) -> char {
    if d < 10 {
        (d + 48) as char
    } else {
        (d + 87) as char
    }
}

/// The value of the `i`-th hex digit of the bytes `b`: high nibble first.
pub open spec fn hex_digit_at(b: Seq<u8>, i: int) -> int {
    if i % 2 == 0 {
        (b[i / 2] / 16) as int
    } else {
        (b[i / 2] % 16) as int
    }
}

/// Lowercase hex, two digits per byte, high digit first.
pub open spec fn hex_encoded(b: Seq<u8>) -> Seq<char> {
    Seq::new(2 * b.len(), |i: int| hex_char(hex_digit_at(b, i)))
}

/// The bytes of a string of ASCII characters.
pub open spec fn ascii_bytes(s: Seq<char>) -> Seq<u8> {
    Seq::new(s.len(), |i: int| s[i] as u8)
}

/// `const_hex::decode`: the bytes a hex string stands for. It takes an optional `0x`
/// prefix and digits of either case, and fails on an odd length or on any other byte.
#[verifier::external_body]
pub(crate) fn hex_decode(input: &[u8]) -> (r: Option<Vec<u8>>)
    ensures
        r matches Some(v) ==> hex_decoded(input@) == Some(v@),
        r is None ==> hex_decoded(input@) is None,
{
    const_hex::decode(input).ok()
}

/// `const_hex::encode`: lowercase hex, two digits per byte.
#[verifier::external_body]
pub(crate) fn hex_encode(data: &[u8]) -> (r: String)
    ensures
        r@ == hex_encoded(data@),
{
    const_hex::encode(data)
}

proof fn lemma_hex_char_byte(d: int)
    requires
        0 <= d < 16,
    ensures
        hex_char(d) as u8 == (if d < 10 { d + 48 } else { d + 87 }),
        hex_digit_value(hex_char(d) as u8) == Some(d),
{
}

/// Hex encoding is undone by hex decoding: the key the server hands out in hex is the key
/// it reads back from the client.
pub proof fn law_hex_roundtrip(b: Seq<u8>)
    ensures
        hex_decoded(ascii_bytes(hex_encoded(b))) == Some(b),
{
    let s = ascii_bytes(hex_encoded(b));
    assert forall|i: int| 0 <= i < s.len() implies #[trigger] hex_digit_value(s[i]) == Some(hex_digit_at(b, i)) by {
        lemma_hex_char_byte(hex_digit_at(b, i));
    }
    assert(s.len() % 2 == 0);
    if s.len() >= 2 {
        assert(hex_digit_value(s[1]) == Some(hex_digit_at(b, 1)));
    }
    assert(without_hex_prefix(s) == s);
    assert forall|i: int| 0 <= i < s.len() implies (#[trigger] hex_digit_value(s[i])) is Some by {
        assert(hex_digit_value(s[i]) is Some);
    }
    assert forall|k: int| 0 <= k < b.len() implies #[trigger] hex_pairs_value(s)[k] == b[k] by {
        assert(hex_digit_value(s[2 * k]) == Some(hex_digit_at(b, 2 * k)));
        assert(hex_digit_value(s[2 * k + 1]) == Some(hex_digit_at(b, 2 * k + 1)));
    }
    assert(hex_pairs_value(s) =~= b);
}

// ---------------------------------------------------------------------------------------
// The JWT header of a call
// ---------------------------------------------------------------------------------------

pub open spec fn no_dot(s: Seq<u8>) -> bool {
    forall|k: int| 0 <= k < s.len() ==> s[k] != DOT
}

/// `i` and `j` are the positions of the first two dots of `s`.
pub open spec fn first_two_dots(s: Seq<u8>, i: int, j: int) -> bool {
    &&& 0 <= i < j < s.len()
    &&& s[i] == DOT
    &&& s[j] == DOT
    &&& no_dot(s.subrange(0, i))
    &&& no_dot(s.subrange(i + 1, j))
}

/// The second of the parts that `splitn(3, '.')` cuts a JWT into: the payload. There is one
/// exactly where the token holds at least two dots.
pub fn jwt_payload(token: &[u8]) -> (r: Option<Vec<u8>>)
    ensures
        r matches Some(p) ==> exists|i: int, j: int| first_two_dots(token@, i, j) && p@ == token@.subrange(i + 1, j),
        r is None <==> !exists|i: int, j: int| 0 <= i < j < token@.len() && token@[i] == DOT && token@[j] == DOT,
{
    let n = token.len();
    let mut i: usize = 0;
    while i < n && token[i] != DOT
        invariant
            i <= n,
            n == token@.len(),
            no_dot(token@.subrange(0, i as int)),
        decreases n - i,
    {
        assert(token@.subrange(0, i + 1) =~= token@.subrange(0, i as int).push(token@[i as int]));
        i = i + 1;
    }
    if i == n {
        assert(token@.subrange(0, n as int) =~= token@);
        return None;
    }
    let mut j: usize = i + 1;
    let mut payload: Vec<u8> = Vec::new();
    while j < n && token[j] != DOT
        invariant
            i < j <= n,
            n == token@.len(),
            token@[i as int] == DOT,
            no_dot(token@.subrange(0, i as int)),
            no_dot(token@.subrange(i + 1, j as int)),
            payload@ == token@.subrange(i + 1, j as int),
        decreases n - j,
    {
        payload.push(token[j]);
        assert(token@.subrange(i + 1, j + 1) =~= token@.subrange(i + 1, j as int).push(token@[j as int]));
        j = j + 1;
    }
    if j == n {
        assert forall|a: int, b: int| 0 <= a < b < token@.len() && token@[a] == DOT implies token@[b] != DOT by {
            if a < i {
                assert(token@.subrange(0, i as int)[a] == token@[a]);
            }
            if b > i {
                assert(token@.subrange(i + 1, j as int)[b - i - 1] == token@[b]);
            }
        }
        return None;
    }
    assert(first_two_dots(token@, i as int, j as int));
    Some(payload)
}

// ---------------------------------------------------------------------------------------
// Encodings and ciphers
// ---------------------------------------------------------------------------------------

/// What `BASE64_STANDARD_NO_PAD.decode` gives: the bytes of standard, unpadded base64 text,
/// or `None` where the text is not such base64.
pub uninterp spec fn base64_no_pad_decoded(text: Seq<u8>) -> Option<Seq<u8>>;

/// What AES-128-CBC decryption with PKCS#7 unpadding gives, under a key and an IV.
pub uninterp spec fn aes_cbc_decrypted(key: Seq<u8>, iv: Seq<u8>, data: Seq<u8>) -> Option<Seq<u8>>;

/// What AES-128-CBC encryption with PKCS#7 padding gives, under a key and an IV.
pub uninterp spec fn aes_cbc_encrypted(key: Seq<u8>, iv: Seq<u8>, data: Seq<u8>) -> Seq<u8>;

/// The MD5 digest of some bytes.
pub uninterp spec fn md5_digest(data: Seq<u8>) -> Seq<u8>;

/// What `serde_urlencoded::from_str` reads from a form-encoded body: its key/value pairs,
/// percent-decoded, in order.
pub uninterp spec fn urlencoded_pairs(text: Seq<char>) -> Option<Seq<(Seq<char>, Seq<char>)>>;

/// `BASE64_STANDARD_NO_PAD.decode` of the base64 crate. What it decodes is named, not stated.
#[verifier::external_body]
pub(crate) fn base64_no_pad_decode(text: &[u8]) -> (r: Option<Vec<u8>>)
    ensures
        r matches Some(v) ==> base64_no_pad_decoded(text@) == Some(v@),
        r is None ==> base64_no_pad_decoded(text@) is None,
{
    base64::prelude::BASE64_STANDARD_NO_PAD.decode(text).ok()
}

/// `cbc::Decryptor::<aes::Aes128>::new(key, iv).decrypt_padded_vec_mut::<Pkcs7>(data)`.
/// The key and the IV are 16 bytes: `new` takes them as arrays of that length.
/// The plaintext is named, not stated.
#[verifier::external_body]
pub(crate) fn aes_cbc_decrypt(key: &[u8], iv: &[u8], data: &[u8]) -> (r: Option<Vec<u8>>)
    requires
        key@.len() == 16,
        iv@.len() == 16,
    ensures
        r matches Some(v) ==> aes_cbc_decrypted(key@, iv@, data@) == Some(v@),
        r is None ==> aes_cbc_decrypted(key@, iv@, data@) is None,
{
    cbc::Decryptor::<aes::Aes128>::new(key.into(), iv.into()).decrypt_padded_vec_mut::<Pkcs7>(data).ok()
}

/// `cbc::Encryptor::<aes::Aes128>::new(key, iv).encrypt_padded_vec_mut::<Pkcs7>(data)`.
/// The ciphertext is named; what is stated of it is that decryption under the same key and
/// IV gives the plaintext back, which is what CBC with PKCS#7 padding is.
#[verifier::external_body]
pub(crate) fn aes_cbc_encrypt(key: &[u8], iv: &[u8], data: &[u8]) -> (r: Vec<u8>)
    requires
        key@.len() == 16,
        iv@.len() == 16,
    ensures
        r@ == aes_cbc_encrypted(key@, iv@, data@),
        aes_cbc_decrypted(key@, iv@, r@) == Some(data@),
{
    cbc::Encryptor::<aes::Aes128>::new(key.into(), iv.into()).encrypt_padded_vec_mut::<Pkcs7>(data)
}

/// `md5::compute`: the 16 bytes of the digest. The digest itself is named, not stated.
#[verifier::external_body]
pub(crate) fn md5_compute(data: &[u8]) -> (r: Vec<u8>)
    ensures
        r@ == md5_digest(data@),
        r@.len() == 16,
{
    md5::compute(data).0.to_vec()
}

/// `std::str::from_utf8`: the text that the bytes encode, where they are valid UTF-8.
#[verifier::external_body]
pub(crate) fn utf8_text(bytes: &[u8]) -> (r: Option<String>)
    ensures
        r is Some <==> valid_utf8(bytes@),
        r matches Some(s) ==> s@ == decode_utf8(bytes@),
{
    match std::str::from_utf8(bytes) {
        Ok(s) => Some(s.to_string()),
        Err(_) => None,
    }
}

/// `serde_urlencoded::from_str`, read as a list of key/value pairs in order.
#[verifier::external_body]
pub(crate) fn parse_urlencoded(text: &str) -> (r: Option<Vec<(String, String)>>)
    ensures
        r matches Some(v) ==> urlencoded_pairs(text@) == Some(pairs_view(v@)),
        r is None ==> urlencoded_pairs(text@) is None,
{
    serde_urlencoded::from_str::<Vec<(String, String)>>(text).ok()
}

/// Key/value pairs of strings, by their characters.
pub open spec fn pairs_view(v: Seq<(String, String)>) -> Seq<(Seq<char>, Seq<char>)> {
    v.map_values(|p: (String, String)| (p.0@, p.1@))
}

// ---------------------------------------------------------------------------------------
// Keys
// ---------------------------------------------------------------------------------------

/// The AES key of every call, base64 `0x9AHqGo1sHGl/nIvD+MhA==`.
pub open spec fn aes_key_bytes() -> Seq<u8> {
    seq![211u8, 31, 64, 30, 161, 168, 214, 193, 198, 151, 249, 200, 188, 63, 140, 132]
}

/// The IV of calls made before the user has a key, base64 `Ng84GF0J4+ahev99Wk/qMg==`.
pub open spec fn default_iv_bytes() -> Seq<u8> {
    seq![54u8, 15, 56, 24, 93, 9, 227, 230, 161, 122, 255, 125, 90, 79, 234, 50]
}

pub fn aes_key() -> (r: Vec<u8>)
    ensures
        r@ == aes_key_bytes(),
{
    let r = vec![211u8, 31, 64, 30, 161, 168, 214, 193, 198, 151, 249, 200, 188, 63, 140, 132];
    assert(r@ =~= aes_key_bytes());
    r
}

pub fn default_iv() -> (r: Vec<u8>)
    ensures
        r@ == default_iv_bytes(),
{
    let r = vec![54u8, 15, 56, 24, 93, 9, 227, 230, 161, 122, 255, 125, 90, 79, 234, 50];
    assert(r@ =~= default_iv_bytes());
    r
}

/// The user key that hex text stands for: the text must decode to exactly 16 bytes.
pub open spec fn user_key_from_hex(text: Seq<u8>) -> Option<Seq<u8>> {
    match hex_decoded(text) {
        Some(k) => if k.len() == 16 { Some(k) } else { None },
        None => None,
    }
}

/// The user key carried, in hex, by a call's metadata.
pub fn user_key_of(uk: &str) -> (r: Option<Vec<u8>>)
    ensures
        r matches Some(k) ==> user_key_from_hex(vstd::utf8::encode_utf8(uk@)) == Some(k@),
        r is None ==> user_key_from_hex(vstd::utf8::encode_utf8(uk@)) is None,
{
    match hex_decode(uk.as_bytes()) {
        Some(k) => if k.len() == 16 {
            Some(k)
        } else {
            None
        },
        None => None,
    }
}

/// The IV that a call's body is encrypted with: the user's key once there is one, else the
/// fixed IV. `None` where the metadata holds a key that is not 16 bytes of hex.
pub open spec fn request_iv_spec(uk: Option<Seq<char>>) -> Option<Seq<u8>> {
    match uk {
        Some(text) => user_key_from_hex(vstd::utf8::encode_utf8(text)),
        None => Some(default_iv_bytes()),
    }
}

pub fn request_iv(uk: &Option<String>) -> (r: Option<Vec<u8>>)
    ensures
        r matches Some(v) ==> request_iv_spec(option_view(*uk)) == Some(v@),
        r is None ==> request_iv_spec(option_view(*uk)) is None,
{
    match uk {
        Some(text) => user_key_of(text.as_str()),
        None => Some(default_iv()),
    }
}

pub open spec fn option_view(s: Option<String>) -> Option<Seq<char>> {
    match s {
        Some(t) => Some(t@),
        None => None,
    }
}

/// A key the server issued, sent to the client in hex, is the IV the server reads the
/// client's next call with.
pub proof fn law_issued_key_is_next_iv(k: Seq<u8>)
    requires
        k.len() == 16,
    ensures
        request_iv_spec(Some(hex_encoded(k))) == Some(k),
{
    let s = hex_encoded(k);
    assert(vstd::utf8::is_ascii_chars(s)) by {
        assert forall|i: int| 0 <= i < s.len() implies '\0' <= #[trigger] s[i] <= '\u{7f}' by {
            lemma_hex_char_byte(hex_digit_at(k, i));
        }
    }
    vstd::utf8::is_ascii_chars_encode_utf8(s);
    assert(vstd::utf8::encode_utf8(s) =~= ascii_bytes(s));
    law_hex_roundtrip(k);
}

// ---------------------------------------------------------------------------------------
// Request and response bodies
// ---------------------------------------------------------------------------------------

/// The metadata bytes of a call: the base64 payload of its JWT header, decoded.
pub open spec fn call_meta_spec(token: Seq<u8>) -> Option<Seq<u8>> {
    if exists|i: int, j: int| first_two_dots(token, i, j) {
        let (i, j) = choose|i: int, j: int| first_two_dots(token, i, j);
        base64_no_pad_decoded(token.subrange(i + 1, j))
    } else {
        None
    }
}

proof fn lemma_first_two_dots_unique(s: Seq<u8>, i: int, j: int, a: int, b: int)
    requires
        first_two_dots(s, i, j),
        first_two_dots(s, a, b),
    ensures
        i == a && j == b,
{
    if i < a {
        assert(s.subrange(0, a)[i] == s[i]);
    } else if a < i {
        assert(s.subrange(0, i)[a] == s[a]);
    }
    if j < b {
        assert(s.subrange(i + 1, b)[j - i - 1] == s[j]);
    } else if b < j {
        assert(s.subrange(i + 1, j)[b - i - 1] == s[b]);
    }
}

/// The JSON bytes of a call's metadata, from its JWT header. `None` where the header has
/// no payload part or the payload is not unpadded base64.
pub fn call_meta_bytes(token: &[u8]) -> (r: Option<Vec<u8>>)
    ensures
        r matches Some(v) ==> call_meta_spec(token@) == Some(v@),
        r is None ==> call_meta_spec(token@) is None,
{
    match jwt_payload(token) {
        Some(p) => {
            let ghost (i, j) = choose|i: int, j: int| first_two_dots(token@, i, j) && p@ == token@.subrange(i + 1, j);
            proof {
                let (a, b) = choose|i: int, j: int| first_two_dots(token@, i, j);
                lemma_first_two_dots_unique(token@, i, j, a, b);
            }
            base64_no_pad_decode(p.as_slice())
        },
        None => {
            proof {
                if exists|i: int, j: int| first_two_dots(token@, i, j) {
                    let (i, j) = choose|i: int, j: int| first_two_dots(token@, i, j);
                    assert(token@[i] == DOT && token@[j] == DOT);
                }
            }
            None
        },
    }
}

/// The key/value pairs of a call's body: decrypted under the fixed key and the IV, read
/// as UTF-8 and then as a form.
pub open spec fn request_pairs_spec(body: Seq<u8>, iv: Seq<u8>) -> Option<Seq<(Seq<char>, Seq<char>)>> {
    match aes_cbc_decrypted(aes_key_bytes(), iv, body) {
        Some(plain) => if valid_utf8(plain) {
            urlencoded_pairs(decode_utf8(plain))
        } else {
            None
        },
        None => None,
    }
}

/// The key/value pairs of a call's encrypted body. `None` where it does not decrypt, is not
/// UTF-8, or is not a form.
pub fn request_pairs(body: &[u8], iv: &[u8]) -> (r: Option<Vec<(String, String)>>)
    requires
        iv@.len() == 16,
    ensures
        r matches Some(v) ==> request_pairs_spec(body@, iv@) == Some(pairs_view(v@)),
        r is None ==> request_pairs_spec(body@, iv@) is None,
{
    let key = aes_key();
    match aes_cbc_decrypt(key.as_slice(), iv, body) {
        Some(plain) => match utf8_text(plain.as_slice()) {
            Some(text) => parse_urlencoded(text.as_str()),
            None => None,
        },
        None => None,
    }
}

/// A response body, encrypted under the fixed key and the signing user's key as IV (the
/// fixed IV where no session signs it), and the MD5 of the ciphertext. The ciphertext
/// decrypts back to the response under that key and IV.
pub fn encrypt(data: &[u8], user_key: Option<&[u8]>) -> (r: (Vec<u8>, Vec<u8>))
    requires
        user_key matches Some(k) ==> k@.len() == 16,
    ensures
        r.0@ == aes_cbc_encrypted(aes_key_bytes(), response_iv(user_key), data@),
        r.1@ == md5_digest(r.0@),
        aes_cbc_decrypted(aes_key_bytes(), response_iv(user_key), r.0@) == Some(data@),
{
    let key = aes_key();
    let fixed_iv = default_iv();
    let iv: &[u8] = match user_key {
        Some(k) => k,
        None => fixed_iv.as_slice(),
    };
    let encrypted = aes_cbc_encrypt(key.as_slice(), iv, data);
    let hash = md5_compute(encrypted.as_slice());
    (encrypted, hash)
}

/// The IV a response is encrypted with.
pub open spec fn response_iv(user_key: Option<&[u8]>) -> Seq<u8> {
    match user_key {
        Some(k) => k@,
        None => default_iv_bytes(),
    }
}

/// The custom claims of the JWT that signs a response, in key order: `cs`, the hex MD5
/// of the ciphertext, then `uk`, the hex user key, where a session signs the response.
pub fn response_claims(hash: &[u8], user_key: Option<&[u8]>) -> (r: Vec<(String, String)>)
    ensures
        r@.len() == (if user_key is Some { 2int } else { 1int }),
        r@[0].0@ == "cs"@,
        r@[0].1@ == hex_encoded(hash@),
        user_key matches Some(k) ==> r@[1].0@ == "uk"@ && r@[1].1@ == hex_encoded(k@),
{
    let mut claims: Vec<(String, String)> = Vec::new();
    claims.push(("cs".to_owned(), hex_encode(hash)));
    match user_key {
        Some(k) => {
            claims.push(("uk".to_owned(), hex_encode(k)));
        },
        None => {},
    }
    claims
}

// ---------------------------------------------------------------------------------------
// Parameters and sessions
// ---------------------------------------------------------------------------------------

/// The body parameters that every call carries and that say nothing of the call itself.
pub open spec fn hidden_params() -> Seq<Seq<char>> {
    seq![
        "countryname"@, "user_key"@, "ver"@, "client_masterversion"@, "deviceid"@,
        "advertising_id"@, "npsn"@, "nexonsn"@, "devicename"@, "appver"@, "adid"@, "ostype"@,
        "osname"@, "version2"@, "nptoken"@, "os"@, "version3"@, "rulever"@, "platform"@,
        "language"@, "version4"@, "loginPlatform"@, "is_skip_tutorial"@, "userCountry"@,
        "npaCode"@,
    ]
}

fn hidden_param_list() -> (r: Vec<&'static str>)
    ensures
        r@.len() == hidden_params().len(),
        forall|i: int| 0 <= i < r@.len() ==> (#[trigger] r@[i])@ == hidden_params()[i],
{
    let r = vec![
        "countryname", "user_key", "ver", "client_masterversion", "deviceid", "advertising_id",
        "npsn", "nexonsn", "devicename", "appver", "adid", "ostype", "osname", "version2",
        "nptoken", "os", "version3", "rulever", "platform", "language", "version4",
        "loginPlatform", "is_skip_tutorial", "userCountry", "npaCode",
    ];
    assert forall|i: int| 0 <= i < r@.len() implies (#[trigger] r@[i])@ == hidden_params()[i] by {
        if i == 0 { assert(r@[0]@ == "countryname"@); }
    }
    r
}

/// Whether a body parameter is one of the hidden ones.
pub fn is_hidden_param(key: &str) -> (r: bool)
    ensures
        r == hidden_params().contains(key@),
{
    let names = hidden_param_list();
    let mut i: usize = 0;
    while i < names.len()
        invariant
            i <= names@.len(),
            names@.len() == hidden_params().len(),
            forall|k: int| 0 <= k < names@.len() ==> (#[trigger] names@[k])@ == hidden_params()[k],
            forall|k: int| 0 <= k < i ==> hidden_params()[k] != key@,
        decreases names@.len() - i,
    {
        if crate::master::str_eq(names[i], key) {
            assert(hidden_params()[i as int] == key@);
            return true;
        }
        i = i + 1;
    }
    false
}

/// The parameters of a call body worth showing: those whose key is not hidden, in order.
pub open spec fn visible_params_spec(body: Seq<(Seq<char>, Seq<char>)>) -> Seq<(Seq<char>, Seq<char>)> {
    body.filter(|p: (Seq<char>, Seq<char>)| !hidden_params().contains(p.0))
}

pub fn visible_params(body: &Vec<(String, String)>) -> (r: Vec<(String, String)>)
    ensures
        pairs_view(r@) == visible_params_spec(pairs_view(body@)),
{
    let mut r: Vec<(String, String)> = Vec::new();
    let mut i: usize = 0;
    while i < body.len()
        invariant
            i <= body@.len(),
            pairs_view(r@) == visible_params_spec(pairs_view(body@).subrange(0, i as int)),
        decreases body@.len() - i,
    {
        let ghost prefix = pairs_view(body@).subrange(0, i as int);
        assert(pairs_view(body@).subrange(0, i + 1) =~= prefix.push(pairs_view(body@)[i as int]));
        reveal(Seq::filter);
        assert(prefix.push(pairs_view(body@)[i as int]).drop_last() =~= prefix);
        let (key, value) = (&body[i].0, &body[i].1);
        if !is_hidden_param(key.as_str()) {
            r.push((key.clone(), value.clone()));
            assert(pairs_view(r@) =~= visible_params_spec(prefix).push(pairs_view(body@)[i as int]));
        }
        i = i + 1;
    }
    assert(pairs_view(body@).subrange(0, body@.len() as int) =~= pairs_view(body@));
    r
}

/// No parameter that is shown is a hidden one, and every parameter that is not hidden is shown.
pub proof fn law_visible_params(body: Seq<(Seq<char>, Seq<char>)>)
    ensures
        forall|k: int| 0 <= k < visible_params_spec(body).len() ==>
            !hidden_params().contains(#[trigger] visible_params_spec(body)[k].0),
        forall|k: int| 0 <= k < body.len() && !hidden_params().contains(#[trigger] body[k].0) ==>
            visible_params_spec(body).contains(body[k]),
{
    let f = |p: (Seq<char>, Seq<char>)| !hidden_params().contains(p.0);
    assert forall|k: int| 0 <= k < visible_params_spec(body).len() implies
        !hidden_params().contains(#[trigger] visible_params_spec(body)[k].0) by {
        body.lemma_filter_pred(f, k);
    }
    assert forall|k: int| 0 <= k < body.len() && !hidden_params().contains(#[trigger] body[k].0) implies
        visible_params_spec(body).contains(body[k]) by {
        body.lemma_filter_contains(f, k);
    }
}

/// A live session, as far as choosing one for a call goes: its user and its current key.
#[derive(Debug, Clone)]
pub struct SessionKey {
    pub user_id: i64,
    pub user_key: Option<Vec<u8>>,
}

/// Which session a call with a user key runs in.
#[derive(Debug, Clone, PartialEq, Eq)]
pub enum SessionChoice {
    /// The session at this index holds the key.
    Found(usize),
    /// No session holds the key: a new one is made for this user.
    Create(i64),
}

pub open spec fn holds_key(s: SessionKey, key: Seq<u8>) -> bool {
    s.user_key matches Some(k) && k@ == key
}

/// A session holds the key, or the query names a user to make one for: where neither is so,
/// the call cannot run.
pub open spec fn session_available(sessions: Seq<SessionKey>, key: Seq<u8>, params_user_id: Option<i64>) -> bool {
    params_user_id is Some || exists|i: int| 0 <= i < sessions.len() && #[trigger] holds_key(sessions[i], key)
}

/// The session of a call that carries a user key: one whose key it is; else a new session
/// for the user the query names.
pub fn choose_session(sessions: &Vec<SessionKey>, key: &Vec<u8>, params_user_id: Option<i64>) -> (r: SessionChoice)
    requires
        session_available(sessions@, key@, params_user_id),
    ensures
        r matches SessionChoice::Found(i) ==> i < sessions@.len() && holds_key(sessions@[i as int], key@),
        r matches SessionChoice::Create(u) ==> params_user_id == Some(u)
            && forall|i: int| 0 <= i < sessions@.len() ==> !holds_key(#[trigger] sessions@[i], key@),
{
    let mut i: usize = 0;
    while i < sessions.len()
        invariant
            i <= sessions@.len(),
            forall|j: int| 0 <= j < i ==> !holds_key(#[trigger] sessions@[j], key@),
        decreases sessions@.len() - i,
    {
        match &sessions[i].user_key {
            Some(k) => {
                if bytes_eq(k, key) {
                    return SessionChoice::Found(i);
                }
            },
            None => {},
        }
        i = i + 1;
    }
    match params_user_id {
        Some(u) => SessionChoice::Create(u),
        None => {
            proof {
                let j = choose|j: int| 0 <= j < sessions@.len() && #[trigger] holds_key(sessions@[j], key@);
                assert(!holds_key(sessions@[j], key@));
            }
            SessionChoice::Create(0)
        },
    }
}

/// Whether two byte strings are equal.
pub fn bytes_eq(a: &Vec<u8>, b: &Vec<u8>) -> (r: bool)
    ensures
        r == (a@ == b@),
{
    if a.len() != b.len() {
        return false;
    }
    let mut i: usize = 0;
    while i < a.len()
        invariant
            i <= a@.len(),
            a@.len() == b@.len(),
            forall|j: int| 0 <= j < i ==> a@[j] == b@[j],
        decreases a@.len() - i,
    {
        if a[i] != b[i] {
            return false;
        }
        i = i + 1;
    }
    assert(a@ =~= b@);
    true
}

} // verus!
