//! Password encryption: the RSA public key of the login page, in PEM form,
//! and the Base64 of the PKCS#1 v1.5 ciphertext that the login form sends.

use vstd::prelude::*;
use base64::Engine;
use rsa::pkcs8::DecodePublicKey;
use rsa::traits::PublicKeyParts;
use vstd::utf8::{decode_utf8, encode_utf8, valid_utf8};
use crate::errors::GhpcError;
use crate::scan::{find_leftmost, leftmost, Pattern};
use crate::text::{join, chars_of, push_all, push_str, string_of};

verus! {

/// The key that is used when the login page's script cannot be fetched.
pub open spec fn default_public_key() -> Seq<char> {
    "MFwwDQYJKoZIhvcNAQEBBQADSwAwSAJBALaXEnbjI6fjy+t9W9AiO/KS0q+b/OZFS+7ykinLbiriUx9P8BcuuHnVbXNiZp5jW70eVGBtX4DhGUPzJa1YT/8CAwEAAQ=="@
}

/// The key that is used when the login page's script cannot be fetched.
pub fn default_public_key_text() -> (s: &'static str)
    ensures
        s@ == default_public_key(),
{
    "MFwwDQYJKoZIhvcNAQEBBQADSwAwSAJBALaXEnbjI6fjy+t9W9AiO/KS0q+b/OZFS+7ykinLbiriUx9P8BcuuHnVbXNiZp5jW70eVGBtX4DhGUPzJa1YT/8CAwEAAQ=="
}

/// Where the login page's script lives; it holds the current public key.
pub open spec fn login_js_location() -> Seq<char> {
    "https://hpc.cugb.edu.cn/sso/themes/sso/js/login-744fe89e6ff1efcab5fff7e1668641b0.js"@
}

/// Where the login page's script lives; it holds the current public key.
pub fn login_js_url() -> (s: &'static str)
    ensures
        s@ == login_js_location(),
{
    "https://hpc.cugb.edu.cn/sso/themes/sso/js/login-744fe89e6ff1efcab5fff7e1668641b0.js"
}

/// The public key that the login script declares as `var key = '...'`.
pub fn extract_public_key(script: &str) -> (k: Option<String>)
    ensures
        match k {
            Some(s) => leftmost(Pattern::PublicKey, script@) == Some(s@),
            None => leftmost(Pattern::PublicKey, script@) is None,
        },
{
    match find_leftmost(Pattern::PublicKey, &chars_of(script)) {
        Some(v) => Some(string_of(&v)),
        None => None,
    }
}

/// The public key of the login script, or the reason it has none.
pub fn public_key_from_script(script: &str) -> (r: Result<String, String>)
    ensures
        match r {
            Ok(k) => leftmost(Pattern::PublicKey, script@) == Some(k@),
            Err(e) => leftmost(Pattern::PublicKey, script@) is None
                && e@ == "Failed to extract public key from login.js"@,
        },
{
    match extract_public_key(script) {
        Some(k) => Ok(k),
        None => Err("Failed to extract public key from login.js".to_owned()),
    }
}

/// The warning shown when the key could not be fetched, unless in `--json` mode.
pub fn fallback_warning(reason: &str, json: bool) -> (w: Option<String>)
    ensures
        json ==> w is None,
        !json ==> (w matches Some(t) && t@ == "Warning: Failed to fetch public key: "@ + reason@
            + ". Using fallback public key"@),
{
    if json {
        return None;
    }
    let mut v: Vec<char> = Vec::new();
    push_str(&mut v, "Warning: Failed to fetch public key: ");
    push_str(&mut v, reason);
    push_str(&mut v, ". Using fallback public key");
    Some(string_of(&v))
}

/// The key to encrypt with: the fetched one, or the built-in one when the
/// fetch failed.
pub fn choose_public_key(fetched: Option<String>) -> (k: String)
    ensures
        k@ == match fetched {
            Some(f) => f@,
            None => default_public_key(),
        },
{
    match fetched {
        Some(f) => f,
        None => default_public_key_text().to_owned(),
    }
}

/// Bytes cut into pieces of 64, the last one possibly shorter.
pub open spec fn chunks64(b: Seq<u8>) -> Seq<Seq<u8>>
    decreases b.len(),
{
    if b.len() == 0 {
        seq![]
    } else if b.len() <= 64 {
        seq![b]
    } else {
        seq![b.take(64)] + chunks64(b.skip(64))
    }
}

/// Every 64-byte piece of the key's UTF-8 encoding is itself valid UTF-8
/// (true of every ASCII key, such as a Base64 one).
pub open spec fn pem_convertible(key: Seq<char>) -> bool {
    let pieces = chunks64(encode_utf8(key));
    forall|i: int| 0 <= i < pieces.len() ==> valid_utf8(#[trigger] pieces[i])
}

/// A Base64 key wrapped as a PEM public key, 64 bytes to a line.
pub open spec fn pem_text(key: Seq<char>) -> Seq<char> {
    "-----BEGIN PUBLIC KEY-----\n"@ + join(
        chunks64(encode_utf8(key)).map_values(|c: Seq<u8>| decode_utf8(c)),
        "\n"@,
    ) + "\n-----END PUBLIC KEY-----"@
}

/// Pieces of bytes put back together.
pub open spec fn flatten(pieces: Seq<Seq<u8>>) -> Seq<u8>
    decreases pieces.len(),
{
    if pieces.len() == 0 {
        seq![]
    } else {
        pieces[0] + flatten(pieces.drop_first())
    }
}

proof fn lemma_chunks_rebuild(b: Seq<u8>)
    ensures
        flatten(chunks64(b)) == b,
        forall|i: int| 0 <= i < chunks64(b).len() ==> #[trigger] chunks64(b)[i].len() <= 64,
    decreases b.len(),
{
    if b.len() == 0 {
        assert(b =~= Seq::<u8>::empty());
        assert(flatten(chunks64(b)) == Seq::<u8>::empty());
    } else if b.len() <= 64 {
        assert(chunks64(b)[0] == b);
        assert(chunks64(b).drop_first() =~= Seq::<Seq<u8>>::empty());
        assert(flatten(Seq::<Seq<u8>>::empty()) == Seq::<u8>::empty());
        assert(flatten(chunks64(b)) == chunks64(b)[0] + flatten(chunks64(b).drop_first()));
        assert(b + Seq::<u8>::empty() =~= b);
    } else {
        lemma_chunks_rebuild(b.skip(64));
        let c = chunks64(b);
        assert(c.drop_first() =~= chunks64(b.skip(64)));
        assert(c[0] == b.take(64));
        assert(flatten(c) == c[0] + flatten(c.drop_first()));
        assert(b.take(64) + b.skip(64) =~= b);
        assert forall|i: int| 0 <= i < c.len() implies #[trigger] c[i].len() <= 64 by {
            if i > 0 {
                assert(c[i] == chunks64(b.skip(64))[i - 1]);
            }
        }
    }
}

/// Law: the lines of a PEM body are the key's UTF-8 bytes cut into pieces of
/// at most 64 bytes, in order: encoded back and put together they give the
/// key again.
pub proof fn lemma_pem_lines_rebuild_key(key: Seq<char>)
    requires
        pem_convertible(key),
    ensures
        ({
            let lines = chunks64(encode_utf8(key)).map_values(|c: Seq<u8>| decode_utf8(c));
            &&& flatten(lines.map_values(|l: Seq<char>| encode_utf8(l))) == encode_utf8(key)
            &&& forall|i: int| 0 <= i < lines.len() ==> #[trigger] encode_utf8(lines[i]).len() <= 64
        }),
{
    let b = encode_utf8(key);
    let pieces = chunks64(b);
    let lines = pieces.map_values(|c: Seq<u8>| decode_utf8(c));
    lemma_chunks_rebuild(b);
    assert forall|i: int| 0 <= i < pieces.len() implies encode_utf8(decode_utf8(#[trigger] pieces[i]))
        == pieces[i] by {
        vstd::utf8::decode_utf8_encode_utf8(pieces[i]);
    }
    assert(lines.map_values(|l: Seq<char>| encode_utf8(l)) =~= pieces);
}

/// `std::str::from_utf8`: the text that bytes encode, if they are valid UTF-8.
#[verifier::external_body]
fn utf8_text<'a>(bytes: &'a [u8]) -> (r: Option<&'a str>)
    ensures
        r is Some <==> valid_utf8(bytes@),
        r matches Some(s) ==> s@ == decode_utf8(bytes@),
{
    match std::str::from_utf8(bytes) {
        Ok(s) => Some(s),
        Err(_) => None,
    }
}

proof fn lemma_chunks_step(b: Seq<u8>, i: int)
    requires
        0 <= i,
        i % 64 == 0,
        i < b.len(),
    ensures
        chunks64(b.skip(i)) == seq![b.subrange(i, if i + 64 < b.len() { i + 64 } else { b.len() as int })]
            + chunks64(b.skip(if i + 64 < b.len() { i + 64 } else { b.len() as int })),
{
    let rest = b.skip(i);
    let end = if i + 64 < b.len() { i + 64 } else { b.len() as int };
    if rest.len() <= 64 {
        assert(rest =~= b.subrange(i, end));
        assert(b.skip(end) =~= Seq::<u8>::empty());
        assert(chunks64(b.skip(end)) =~= Seq::<Seq<u8>>::empty());
        assert(seq![rest] + Seq::<Seq<u8>>::empty() =~= seq![rest]);
    } else {
        assert(rest.take(64) =~= b.subrange(i, end));
        assert(rest.skip(64) =~= b.skip(end));
    }
}

/// Whether [`base64_to_pem`] can wrap the key.
pub fn pem_convertible_key(key: &str) -> (ok: bool)
    ensures
        ok == pem_convertible(key@),
{
    let bytes = key.as_bytes();
    let ghost all = chunks64(bytes@);
    let mut i: usize = 0;
    let mut k: usize = 0;
    assert(bytes@.skip(0) =~= bytes@);
    while i < bytes.len()
        invariant
            bytes@ == encode_utf8(key@),
            all == chunks64(bytes@),
            i <= bytes.len(),
            i == 64 * k || i == bytes.len(),
            chunks64(bytes@.skip(i as int)) == all.skip(k as int),
            k <= all.len(),
            forall|j: int| 0 <= j < k ==> valid_utf8(#[trigger] all[j]),
        decreases bytes.len() - i,
    {
        let end = if bytes.len() - i > 64 { i + 64 } else { bytes.len() };
        proof {
            lemma_chunks_step(bytes@, i as int);
            assert(chunks64(bytes@.skip(i as int)).len() >= 1);
            assert(all.skip(k as int).len() == all.len() - k);
            assert(k < all.len());
            assert(all.skip(k as int)[0] == all[k as int]);
        }
        let piece = &bytes[i..end];
        if utf8_text(piece).is_none() {
            return false;
        }
        proof {
            assert(all.skip(k as int).skip(1) =~= all.skip(k + 1));
        }
        i = end;
        k = k + 1;
    }
    proof {
        assert(bytes@.skip(i as int) =~= Seq::<u8>::empty());
        assert(all.skip(k as int).len() == 0);
    }
    true
}

/// Wraps a Base64 public key as PEM.
pub fn base64_to_pem(base64_key: &str) -> (pem: String)
    requires
        pem_convertible(base64_key@),
    ensures
        pem@ == pem_text(base64_key@),
{
    let bytes = base64_key.as_bytes();
    let ghost all = chunks64(bytes@);
    let ghost lines = all.map_values(|c: Seq<u8>| decode_utf8(c));
    let nl = chars_of("\n");
    let mut body: Vec<char> = Vec::new();
    let mut i: usize = 0;
    let mut k: usize = 0;
    assert(bytes@.skip(0) =~= bytes@);
    while i < bytes.len()
        invariant
            bytes@ == encode_utf8(base64_key@),
            all == chunks64(bytes@),
            lines == all.map_values(|c: Seq<u8>| decode_utf8(c)),
            pem_convertible(base64_key@),
            nl@ == "\n"@,
            i <= bytes.len(),
            i == 64 * k || i == bytes.len(),
            chunks64(bytes@.skip(i as int)) == all.skip(k as int),
            k <= all.len(),
            body@ == join(lines.take(k as int), "\n"@),
        decreases bytes.len() - i,
    {
        let end = if bytes.len() - i > 64 { i + 64 } else { bytes.len() };
        proof {
            lemma_chunks_step(bytes@, i as int);
            assert(chunks64(bytes@.skip(i as int)).len() >= 1);
            assert(all.skip(k as int).len() == all.len() - k);
            assert(k < all.len());
            assert(all.skip(k as int)[0] == all[k as int]);
        }
        let piece = &bytes[i..end];
        let line = match utf8_text(piece) {
            Some(t) => t,
            None => {
                assert(valid_utf8(all[k as int]));
                ""
            },
        };
        if k > 0 {
            push_all(&mut body, &nl);
        }
        push_str(&mut body, line);
        proof {
            assert(all.skip(k as int).skip(1) =~= all.skip(k + 1));
            assert(lines.take(k + 1).drop_last() =~= lines.take(k as int));
            assert(lines.take(k + 1).last() == lines[k as int]);
            if k == 0 {
                assert(lines.take(0) =~= Seq::<Seq<char>>::empty());
                assert(body@ =~= lines.take(1)[0]);
            }
        }
        i = end;
        k = k + 1;
    }
    proof {
        assert(bytes@.skip(i as int) =~= Seq::<u8>::empty());
        assert(all.skip(k as int).len() == 0);
        assert(lines.take(k as int) =~= lines);
    }
    let mut out = chars_of("-----BEGIN PUBLIC KEY-----\n");
    push_all(&mut out, &body);
    push_str(&mut out, "\n-----END PUBLIC KEY-----");
    string_of(&out)
}


/// `rsa::RsaPublicKey`, carried opaquely.
#[verifier::external_type_specification]
#[verifier::external_body]
pub struct ExRsaPublicKey(rsa::RsaPublicKey);

/// An RSA public key, with its modulus and public exponent as big-endian bytes
/// and the length of its modulus in bytes.
pub struct RsaKey {
    key: rsa::RsaPublicKey,
    modulus: Vec<u8>,
    exponent: Vec<u8>,
    size: usize,
}

impl RsaKey {
    /// The modulus `n`, big-endian, without leading zero bytes.
    pub closed spec fn modulus_bytes(&self) -> Seq<u8> {
        self.modulus@
    }

    /// The public exponent `e`, big-endian, without leading zero bytes.
    pub closed spec fn exponent_bytes(&self) -> Seq<u8> {
        self.exponent@
    }

    /// The length of the modulus in bytes, which is the length of a ciphertext.
    pub closed spec fn modulus_len(&self) -> nat {
        self.size as nat
    }
}

/// What `RsaPublicKey::from_public_key_pem` makes of a PEM text: the modulus
/// and public exponent of the key it reads (big-endian bytes, as
/// `BigUint::to_bytes_be` gives them) and its `size()` in bytes, or `None`
/// when it refuses the text.
pub uninterp spec fn pem_public_key(pem: Seq<char>) -> Option<(Seq<u8>, Seq<u8>, nat)>;

/// `rsa::RsaPublicKey::from_public_key_pem` (SubjectPublicKeyInfo PEM), with the
/// key's `n()` and `e()` as big-endian bytes and its `size()`. The result is
/// named by [`pem_public_key`]. The crate accepts moduli of at most 4096 bits
/// (`RsaPublicKey::MAX_SIZE`), so a key has at most 512 bytes. On refusal the
/// error's text is returned.
#[verifier::external_body]
fn parse_public_key_pem(pem: &str) -> (r: Result<RsaKey, String>)
    ensures
        match r {
            Ok(k) => pem_public_key(pem@) == Some((k.modulus_bytes(), k.exponent_bytes(), k.modulus_len()))
                && k.modulus_len() <= 512,
            Err(_) => pem_public_key(pem@) is None,
        },
{
    match rsa::RsaPublicKey::from_public_key_pem(pem) {
        Ok(key) => Ok(RsaKey {
            modulus: key.n().to_bytes_be(),
            exponent: key.e().to_bytes_be(),
            size: key.size(),
            key,
        }),
        Err(e) => Err(e.to_string()),
    }
}

/// The raw RSA public-key operation of `rsa` on a padded block `em`: the
/// block read as a big-endian number, raised to the exponent `e` modulo `n`,
/// written back big-endian and left-padded with zeros to the modulus length.
pub uninterp spec fn rsa_public_op(n: Seq<u8>, e: Seq<u8>, em: Seq<u8>) -> Seq<u8>;

/// The PKCS#1 v1.5 encryption block `0x00 0x02 PS 0x00 M`.
pub open spec fn pkcs1v15_block(ps: Seq<u8>, msg: Seq<u8>) -> Seq<u8> {
    seq![0u8, 2u8] + ps + seq![0u8] + msg
}

/// A padding string for a message of `len` bytes under a modulus of `k`
/// bytes: `k - len - 3` bytes, none of them zero.
pub open spec fn pkcs1v15_padding(ps: Seq<u8>, k: nat, len: nat) -> bool {
    &&& ps.len() + len + 3 == k
    &&& forall|i: int| 0 <= i < ps.len() ==> #[trigger] ps[i] != 0u8
}

/// `c` is a PKCS#1 v1.5 ciphertext of `msg` under the key `(n, e)` whose
/// modulus has `k` bytes: the public-key operation applied to the message
/// padded with some valid padding string.
pub open spec fn pkcs1v15_ciphertext(c: Seq<u8>, n: Seq<u8>, e: Seq<u8>, k: nat, msg: Seq<u8>) -> bool {
    exists|ps: Seq<u8>|
        #![trigger pkcs1v15_block(ps, msg)]
        pkcs1v15_padding(ps, k, msg.len()) && c == rsa_public_op(n, e, pkcs1v15_block(ps, msg))
}

/// `RsaPublicKey::encrypt` with `Pkcs1v15Encrypt` and the operating system's
/// random source. The key passed the crate's checks when it was read, so the
/// only refusal is of a message longer than the modulus less 11 bytes
/// ("message too long"). Otherwise the result is the public-key operation on
/// the message padded as PKCS#1 v1.5 prescribes, as long as the modulus. The
/// padding string is random, so which one was drawn is not stated; nor is
/// anything about the random source itself, which panics if the operating
/// system cannot supply bytes.
#[verifier::external_body]
fn rsa_pkcs1v15_encrypt(key: &RsaKey, msg: &[u8]) -> (r: Result<Vec<u8>, String>)
    requires
        msg@.len() + 11 <= usize::MAX,
    ensures
        r is Ok <==> msg@.len() + 11 <= key.modulus_len(),
        r matches Ok(c) ==> c@.len() == key.modulus_len() && exists|ps: Seq<u8>|
            #![trigger pkcs1v15_block(ps, msg@)]
            pkcs1v15_padding(ps, key.modulus_len(), msg@.len()) && c@ == rsa_public_op(
                key.modulus_bytes(),
                key.exponent_bytes(),
                pkcs1v15_block(ps, msg@),
            ),
        r matches Err(e) ==> e@ == "message too long"@,
{
    match key.key.encrypt(&mut rsa::rand_core::OsRng, rsa::Pkcs1v15Encrypt, msg) {
        Ok(c) => Ok(c),
        Err(e) => Err(e.to_string()),
    }
}

/// What `base64::engine::general_purpose::STANDARD.encode` makes of bytes
/// (standard alphabet, with `=` padding).
pub uninterp spec fn base64_standard(bytes: Seq<u8>) -> Seq<char>;

/// `base64::engine::general_purpose::STANDARD.encode`: the padded Base64 of the
/// bytes, four characters for every started group of three bytes.
#[verifier::external_body]
fn base64_encode(bytes: &[u8]) -> (s: String)
    requires
        bytes@.len() <= usize::MAX / 4,
    ensures
        s@ == base64_standard(bytes@),
        s@.len() == (bytes@.len() + 2) / 3 * 4,
{
    base64::engine::general_purpose::STANDARD.encode(bytes)
}

/// The error for a key whose 64-byte PEM lines would not be valid UTF-8.
pub open spec fn unwrappable_key_text() -> Seq<char> {
    "Invalid public key: its PEM lines are not valid UTF-8"@
}

/// What encrypting a password under a Base64 key gives. A key that cannot be
/// wrapped as PEM, or that the key parser refuses, is a public-key error.
/// Under a key with modulus `n`, exponent `e` and `k` bytes, the password's
/// UTF-8 bytes are encrypted exactly when they are at most `k - 11`; the
/// result is then the Base64 of a PKCS#1 v1.5 ciphertext of those bytes, and
/// otherwise the cipher's "message too long".
pub open spec fn encryption_outcome(password: Seq<char>, key: Seq<char>, r: Result<Seq<char>, GhpcError>) -> bool {
    if !pem_convertible(key) {
        r matches Err(GhpcError::PublicKey(t)) && t@ == unwrappable_key_text()
    } else {
        match pem_public_key(pem_text(key)) {
            None => r matches Err(GhpcError::PublicKey(_)),
            Some((n, e, k)) => {
                let m = encode_utf8(password);
                &&& (r is Ok <==> m.len() + 11 <= k)
                &&& r matches Ok(s) ==> exists|c: Seq<u8>|
                    #![trigger base64_standard(c)]
                    s == base64_standard(c) && c.len() == k && pkcs1v15_ciphertext(c, n, e, k, m)
                &&& r matches Err(err) ==> err matches GhpcError::Encryption(t) && t@
                    == "message too long"@
            },
        }
    }
}

/// Encrypts the password under a Base64 RSA public key and returns the
/// Base64 of the ciphertext.
pub fn encrypt_password_with_public_key(password: &str, public_key_base64: &str) -> (r: Result<
    String,
    GhpcError,
>)
    ensures
        encryption_outcome(
            password@,
            public_key_base64@,
            match r {
                Ok(s) => Ok(s@),
                Err(e) => Err(e),
            },
        ),
{
    if !pem_convertible_key(public_key_base64) {
        return Err(
            GhpcError::PublicKey("Invalid public key: its PEM lines are not valid UTF-8".to_owned()),
        );
    }
    let pem = base64_to_pem(public_key_base64);
    let key = match parse_public_key_pem(pem.as_str()) {
        Ok(k) => k,
        Err(reason) => return Err(GhpcError::PublicKey(reason)),
    };
    let msg = password.as_bytes();
    if msg.len() > usize::MAX - 11 {
        // No slice is this long; the test only keeps `msg.len() + 11` below
        // from overflowing. Such a message exceeds every modulus the parser
        // accepts.
        return Err(GhpcError::Encryption("message too long".to_owned()));
    }
    match rsa_pkcs1v15_encrypt(&key, msg) {
        Ok(c) => {
            let s = base64_encode(c.as_slice());
            Ok(s)
        },
        Err(reason) => Err(GhpcError::Encryption(reason)),
    }
}

/// Encrypts the password under the fetched public key, or under the built-in
/// one when fetching failed, and says what warning to show for the fallback.
pub fn encrypt_password(password: &str, fetched: Result<String, String>, json: bool) -> (r: (
    Option<String>,
    Result<String, GhpcError>,
))
    ensures
        fetched is Ok ==> r.0 is None,
        fetched matches Err(reason) ==> (json ==> r.0 is None) && (!json ==> (r.0 matches Some(t)
            && t@ == "Warning: Failed to fetch public key: "@ + reason@
            + ". Using fallback public key"@)),
        encryption_outcome(
            password@,
            match fetched {
                Ok(k) => k@,
                Err(_) => default_public_key(),
            },
            match r.1 {
                Ok(s) => Ok(s@),
                Err(e) => Err(e),
            },
        ),
{
    let (warning, key) = match fetched {
        Ok(k) => (None, Some(k)),
        Err(reason) => (fallback_warning(reason.as_str(), json), None),
    };
    let key = choose_public_key(key);
    (warning, encrypt_password_with_public_key(password, key.as_str()))
}

} // verus!
