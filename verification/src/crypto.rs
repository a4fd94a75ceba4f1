//! Account keys and the sealed-box message format: a message for a recipient
//! is `nonce (12 bytes) ‖ ephemeral X25519 public key (32 bytes) ‖ AES-256-GCM
//! ciphertext`, keyed by HKDF-SHA256 over the X25519 shared secret.

use vstd::prelude::*;
use aes_gcm::aead::{Aead, KeyInit};
use rand::RngCore;

verus! {

/// Length of the nonce at the start of a sealed message.
pub const NONCE_LEN: usize = 12;
/// Length of the ephemeral public key after the nonce.
pub const EPHEMERAL_PUBKEY_LEN: usize = 32;
/// Bytes a sealed message has before its ciphertext.
pub const CIPHERTEXT_OVERHEAD: usize = 44;

/// The X25519 public key of a 32-byte secret (as computed by `x25519_dalek`).
pub uninterp spec fn x25519_public_key(secret: Seq<u8>) -> Seq<u8>;

/// The X25519 shared secret of a 32-byte secret and a 32-byte public key.
pub uninterp spec fn x25519_shared_secret(secret: Seq<u8>, public: Seq<u8>) -> Seq<u8>;

/// 32 bytes of HKDF-SHA256 output (no salt) for key material and info.
pub uninterp spec fn hkdf_sha256_okm(ikm: Seq<u8>, info: Seq<u8>) -> Seq<u8>;

/// AES-256-GCM encryption (no associated data), tag appended.
pub uninterp spec fn aes256_gcm_seal(key: Seq<u8>, nonce: Seq<u8>, plaintext: Seq<u8>) -> Seq<u8>;

/// AES-256-GCM decryption (no associated data); `None` when the tag does not verify.
pub uninterp spec fn aes256_gcm_open(key: Seq<u8>, nonce: Seq<u8>, ciphertext: Seq<u8>) -> Option<
    Seq<u8>,
>;

/// Random bytes from the operating system (`rand::rngs::OsRng::fill_bytes`).
/// They depend on chance, so only their number is stated. `OsRng` panics when
/// the operating system cannot supply randomness.
#[verifier::external_body]
fn random_bytes(len: usize) -> (r: Vec<u8>)
    ensures
        r@.len() == len,
{
    let mut bytes = vec![0u8; len];
    rand::rngs::OsRng.fill_bytes(&mut bytes);
    bytes
}

/// The public key of a secret: `PublicKey::from(&StaticSecret::from(secret))`.
/// The result is named, not restated; it has 32 bytes.
#[verifier::external_body]
fn x25519_public(secret: &Vec<u8>) -> (r: Vec<u8>)
    requires
        secret@.len() == 32,
    ensures
        r@ == x25519_public_key(secret@),
        r@.len() == 32,
{
    let bytes: [u8; 32] = secret.as_slice().try_into().unwrap();
    let secret = x25519_dalek::StaticSecret::from(bytes);
    x25519_dalek::PublicKey::from(&secret).as_bytes().to_vec()
}

/// The shared secret of a secret and a public key:
/// `StaticSecret::diffie_hellman` (the same clamped scalar multiplication that
/// `EphemeralSecret::diffie_hellman` performs). Named, 32 bytes. When the
/// public key is that of another 32-byte secret, both sides agree: the result
/// is what that secret computes with this secret's public key (the
/// Diffie-Hellman property the crate's documentation demonstrates; both
/// sides compute the clamped product of the two scalars with the base point).
#[verifier::external_body]
fn x25519_agree(secret: &Vec<u8>, public: &Vec<u8>) -> (r: Vec<u8>)
    requires
        secret@.len() == 32,
        public@.len() == 32,
    ensures
        r@ == x25519_shared_secret(secret@, public@),
        r@.len() == 32,
        forall|other: Seq<u8>|
            other.len() == 32 && public@ == #[trigger] x25519_public_key(other) ==> r@
                == x25519_shared_secret(other, x25519_public_key(secret@)),
{
    let s: [u8; 32] = secret.as_slice().try_into().unwrap();
    let p: [u8; 32] = public.as_slice().try_into().unwrap();
    let secret = x25519_dalek::StaticSecret::from(s);
    secret.diffie_hellman(&x25519_dalek::PublicKey::from(p)).as_bytes().to_vec()
}

/// `Hkdf::<Sha256>::new(None, ikm).expand(info, &mut [0u8; 32])`. Expanding to
/// 32 bytes never fails (the limit is 255 hash lengths). Named, 32 bytes.
#[verifier::external_body]
fn hkdf_sha256_32(ikm: &Vec<u8>, info: &Vec<u8>) -> (r: Vec<u8>)
    ensures
        r@ == hkdf_sha256_okm(ikm@, info@),
        r@.len() == 32,
{
    let hk = hkdf::Hkdf::<sha2::Sha256>::new(None, ikm.as_slice());
    let mut key = [0u8; 32];
    hk.expand(info.as_slice(), &mut key).unwrap();
    key.to_vec()
}

/// `Aes256Gcm::encrypt` with a 32-byte key and 12-byte nonce. It fails only
/// for plaintexts over 2^36 bytes, which `requires` leaves out; the result is
/// the plaintext's length plus the 16-byte tag.
#[verifier::external_body]
fn aes256_gcm_encrypt(key: &Vec<u8>, nonce: &Vec<u8>, plaintext: &Vec<u8>) -> (r: Vec<u8>)
    requires
        key@.len() == 32,
        nonce@.len() == 12,
        plaintext@.len() <= 0x10_0000_0000,
    ensures
        r@ == aes256_gcm_seal(key@, nonce@, plaintext@),
        r@.len() == plaintext@.len() + 16,
{
    let cipher = aes_gcm::Aes256Gcm::new_from_slice(key.as_slice()).unwrap();
    let nonce = aes_gcm::Nonce::from_slice(nonce.as_slice());
    cipher.encrypt(nonce, plaintext.as_slice()).unwrap()
}

/// `Aes256Gcm::decrypt` with a 32-byte key and 12-byte nonce: `None` when it
/// fails (tag mismatch or a malformed ciphertext). Decrypting what
/// `Aes256Gcm::encrypt` produced with the same key and nonce gives back the
/// plaintext (the round trip the crate's documentation shows).
#[verifier::external_body]
fn aes256_gcm_decrypt(key: &Vec<u8>, nonce: &Vec<u8>, ciphertext: &Vec<u8>) -> (r: Option<Vec<u8>>)
    requires
        key@.len() == 32,
        nonce@.len() == 12,
    ensures
        match r {
            Some(p) => aes256_gcm_open(key@, nonce@, ciphertext@) == Some(p@),
            None => aes256_gcm_open(key@, nonce@, ciphertext@) is None,
        },
        forall|plaintext: Seq<u8>|
            plaintext.len() <= 0x10_0000_0000 && ciphertext@ == #[trigger] aes256_gcm_seal(
                key@,
                nonce@,
                plaintext,
            ) ==> r is Some && r.unwrap()@ == plaintext,
{
    let cipher = aes_gcm::Aes256Gcm::new_from_slice(key.as_slice()).unwrap();
    let nonce = aes_gcm::Nonce::from_slice(nonce.as_slice());
    cipher.decrypt(nonce, ciphertext.as_slice()).ok()
}

/// The HKDF info string, `paw-ffi-aes-256-gcm-key`.
pub open spec fn hkdf_info_bytes() -> Seq<u8> {
    seq![
        112u8, 97, 119, 45, 102, 102, 105, 45, 97, 101, 115, 45, 50, 53, 54, 45, 103, 99, 109, 45,
        107, 101, 121,
    ]
}

fn hkdf_info() -> (v: Vec<u8>)
    ensures
        v@ == hkdf_info_bytes(),
{
    let v: Vec<u8> = vec![
        112u8, 97, 119, 45, 102, 102, 105, 45, 97, 101, 115, 45, 50, 53, 54, 45, 103, 99, 109, 45,
        107, 101, 121,
    ];
    assert(v@ =~= hkdf_info_bytes());
    v
}

/// The AES key for a shared secret.
pub open spec fn message_key(shared: Seq<u8>) -> Seq<u8> {
    hkdf_sha256_okm(shared, hkdf_info_bytes())
}

fn derive_aes_key(shared_secret: &Vec<u8>) -> (key: Vec<u8>)
    ensures
        key@ == message_key(shared_secret@),
        key@.len() == 32,
{
    let info = hkdf_info();
    hkdf_sha256_32(shared_secret, &info)
}

/// The identity and signed-prekey pairs of an account.
#[derive(Clone, Debug)]
pub struct AccountKeys {
    pub identity_key: Vec<u8>,
    pub identity_secret: Vec<u8>,
    pub signed_prekey: Vec<u8>,
    pub signed_prekey_secret: Vec<u8>,
}

/// Fresh keys: two random 32-byte secrets with their public keys.
pub fn create_account() -> (k: AccountKeys)
    ensures
        k.identity_secret@.len() == 32,
        k.signed_prekey_secret@.len() == 32,
        k.identity_key@ == x25519_public_key(k.identity_secret@),
        k.signed_prekey@ == x25519_public_key(k.signed_prekey_secret@),
        k.identity_key@.len() == 32,
        k.signed_prekey@.len() == 32,
{
    let identity_secret = random_bytes(32);
    let identity_key = x25519_public(&identity_secret);
    let signed_prekey_secret = random_bytes(32);
    let signed_prekey = x25519_public(&signed_prekey_secret);
    AccountKeys { identity_key, identity_secret, signed_prekey, signed_prekey_secret }
}

/// The sealed message for a recipient's prekey, with the given ephemeral
/// secret and nonce.
pub open spec fn sealed(their_prekey: Seq<u8>, plaintext: Seq<u8>, ephemeral: Seq<u8>, nonce: Seq<u8>) -> Seq<
    u8,
> {
    nonce + x25519_public_key(ephemeral) + aes256_gcm_seal(
        message_key(x25519_shared_secret(ephemeral, their_prekey)),
        nonce,
        plaintext,
    )
}

/// Seals a message with a given ephemeral secret and nonce.
pub fn encrypt_with(their_signed_prekey: &Vec<u8>, plaintext: &Vec<u8>, ephemeral_secret: &Vec<u8>, nonce: &Vec<u8>) -> (out: Vec<u8>)
    requires
        their_signed_prekey@.len() == 32,
        ephemeral_secret@.len() == 32,
        nonce@.len() == 12,
        plaintext@.len() <= 0x10_0000_0000,
    ensures
        out@ == sealed(their_signed_prekey@, plaintext@, ephemeral_secret@, nonce@),
        out@.len() == plaintext@.len() + 60,
        x25519_public_key(ephemeral_secret@).len() == 32,
{
    let ephemeral_public = x25519_public(ephemeral_secret);
    let shared = x25519_agree(ephemeral_secret, their_signed_prekey);
    let key = derive_aes_key(&shared);
    let encrypted = aes256_gcm_encrypt(&key, nonce, plaintext);
    let mut out: Vec<u8> = Vec::new();
    append_bytes(&mut out, nonce);
    append_bytes(&mut out, &ephemeral_public);
    append_bytes(&mut out, &encrypted);
    out
}

fn append_bytes(out: &mut Vec<u8>, bytes: &Vec<u8>)
    ensures
        final(out)@ == old(out)@ + bytes@,
{
    let mut i: usize = 0;
    while i < bytes.len()
        invariant
            i <= bytes@.len(),
            out@ == old(out)@ + bytes@.take(i as int),
        decreases bytes@.len() - i,
    {
        out.push(bytes[i]);
        proof {
            assert(bytes@.take(i + 1) == bytes@.take(i as int).push(bytes@[i as int]));
            assert(out@ =~= old(out)@ + bytes@.take(i + 1));
        }
        i = i + 1;
    }
    assert(bytes@.take(i as int) == bytes@);
}

/// Seals a message for a recipient's signed prekey with a fresh ephemeral
/// secret and nonce.
pub fn encrypt(their_signed_prekey: Vec<u8>, plaintext: Vec<u8>) -> (out: Vec<u8>)
    requires
        their_signed_prekey@.len() == 32,
        plaintext@.len() <= 0x10_0000_0000,
    ensures
        exists|ephemeral: Seq<u8>, nonce: Seq<u8>|
            ephemeral.len() == 32 && nonce.len() == 12 && x25519_public_key(ephemeral).len() == 32
                && out@ == #[trigger] sealed(their_signed_prekey@, plaintext@, ephemeral, nonce),
        forall|my_secret: Seq<u8>|
            their_signed_prekey@ == #[trigger] x25519_public_key(my_secret) ==> sealed_for(
                my_secret,
                out@,
                plaintext@,
            ),
{
    let ephemeral = random_bytes(32);
    let nonce = random_bytes(12);
    let out = encrypt_with(&their_signed_prekey, &plaintext, &ephemeral, &nonce);
    proof {
        assert forall|my_secret: Seq<u8>|
            their_signed_prekey@ == #[trigger] x25519_public_key(my_secret) implies sealed_for(
                my_secret,
                out@,
                plaintext@,
            ) by {
            assert(sealed_with(my_secret, out@, plaintext@, ephemeral@, nonce@));
        }
    }
    out
}

/// A message is sealed for a recipient's secret with this ephemeral secret
/// and nonce.
pub open spec fn sealed_with(
    my_secret: Seq<u8>,
    ciphertext: Seq<u8>,
    plaintext: Seq<u8>,
    ephemeral: Seq<u8>,
    nonce: Seq<u8>,
) -> bool {
    &&& ephemeral.len() == 32
    &&& nonce.len() == 12
    &&& x25519_public_key(ephemeral).len() == 32
    &&& ciphertext == sealed(x25519_public_key(my_secret), plaintext, ephemeral, nonce)
}

/// A message was sealed for the signed prekey of a secret, with some
/// ephemeral secret and nonce.
pub open spec fn sealed_for(my_secret: Seq<u8>, ciphertext: Seq<u8>, plaintext: Seq<u8>) -> bool {
    exists|ephemeral: Seq<u8>, nonce: Seq<u8>|
        #[trigger] sealed_with(my_secret, ciphertext, plaintext, ephemeral, nonce)
}

/// What opening a sealed message gives: its nonce, the sender's ephemeral
/// key and the ciphertext are split off, and the ciphertext is decrypted
/// with the key agreed between the recipient's secret and the ephemeral key.
pub open spec fn opened(my_secret: Seq<u8>, ciphertext: Seq<u8>) -> Option<Seq<u8>> {
    let nonce = ciphertext.subrange(0, 12);
    let ephemeral = ciphertext.subrange(12, 44);
    let body = ciphertext.subrange(44, ciphertext.len() as int);
    aes256_gcm_open(message_key(x25519_shared_secret(my_secret, ephemeral)), nonce, body)
}

fn slice_bytes(bytes: &Vec<u8>, start: usize, end: usize) -> (r: Vec<u8>)
    requires
        start <= end <= bytes@.len(),
    ensures
        r@ == bytes@.subrange(start as int, end as int),
{
    let mut r: Vec<u8> = Vec::new();
    let mut i: usize = start;
    while i < end
        invariant
            start <= i <= end <= bytes@.len(),
            r@ == bytes@.subrange(start as int, i as int),
        decreases end - i,
    {
        r.push(bytes[i]);
        proof {
            assert(r@ =~= bytes@.subrange(start as int, i + 1));
        }
        i = i + 1;
    }
    r
}

fn open_message(my_secret: &Vec<u8>, ciphertext: &Vec<u8>) -> (r: Option<Vec<u8>>)
    requires
        my_secret@.len() == 32,
        ciphertext@.len() >= 44,
    ensures
        match r {
            Some(p) => opened(my_secret@, ciphertext@) == Some(p@),
            None => opened(my_secret@, ciphertext@) is None,
        },
        forall|plaintext: Seq<u8>|
            plaintext.len() <= 0x10_0000_0000 && #[trigger] sealed_for(
                my_secret@,
                ciphertext@,
                plaintext,
            ) ==> (r matches Some(p) && p@ == plaintext),
{
    let nonce = slice_bytes(ciphertext, 0, 12);
    let ephemeral = slice_bytes(ciphertext, 12, 44);
    let body = slice_bytes(ciphertext, 44, ciphertext.len());
    let shared = x25519_agree(my_secret, &ephemeral);
    let key = derive_aes_key(&shared);
    let r = aes256_gcm_decrypt(&key, &nonce, &body);
    proof {
        assert forall|plaintext: Seq<u8>|
            plaintext.len() <= 0x10_0000_0000 && #[trigger] sealed_for(
                my_secret@,
                ciphertext@,
                plaintext,
            ) implies (r matches Some(p) && p@ == plaintext) by {
            let (eph, n) = choose|eph: Seq<u8>, n: Seq<u8>| sealed_with(my_secret@, ciphertext@, plaintext, eph, n);
            let their = x25519_public_key(my_secret@);
            let k = message_key(x25519_shared_secret(eph, their));
            let pk = x25519_public_key(eph);
            let c = aes256_gcm_seal(k, n, plaintext);
            assert(ciphertext@ == n + pk + c);
            assert(nonce@ =~= n);
            assert(ephemeral@ =~= pk);
            assert(body@ =~= c);
            assert(shared@ == x25519_shared_secret(eph, their));
        }
    }
    r
}

/// Opens a sealed message that opens with this secret.
pub fn decrypt(my_signed_prekey_secret: Vec<u8>, ciphertext: Vec<u8>) -> (out: Vec<u8>)
    requires
        my_signed_prekey_secret@.len() == 32,
        ciphertext@.len() >= 44,
        opened(my_signed_prekey_secret@, ciphertext@) is Some,
    ensures
        opened(my_signed_prekey_secret@, ciphertext@) == Some(out@),
        forall|plaintext: Seq<u8>|
            plaintext.len() <= 0x10_0000_0000 && #[trigger] sealed_for(
                my_signed_prekey_secret@,
                ciphertext@,
                plaintext,
            ) ==> out@ == plaintext,
{
    match open_message(&my_signed_prekey_secret, &ciphertext) {
        Some(p) => p,
        None => Vec::new(),
    }
}

/// Opens a sealed message; `None` when the secret is not 32 bytes, the
/// message is shorter than its 44-byte header, or decryption fails.
pub fn try_decrypt(my_signed_prekey_secret: &Vec<u8>, ciphertext: &Vec<u8>) -> (r: Option<Vec<u8>>)
    ensures
        (my_signed_prekey_secret@.len() != 32 || ciphertext@.len() < 44) ==> r is None,
        (my_signed_prekey_secret@.len() == 32 && ciphertext@.len() >= 44) ==> match r {
            Some(p) => opened(my_signed_prekey_secret@, ciphertext@) == Some(p@),
            None => opened(my_signed_prekey_secret@, ciphertext@) is None,
        },
        forall|plaintext: Seq<u8>|
            my_signed_prekey_secret@.len() == 32 && plaintext.len() <= 0x10_0000_0000
                && #[trigger] sealed_for(my_signed_prekey_secret@, ciphertext@, plaintext) ==> (r matches Some(
                p,
            ) && p@ == plaintext),
{
    if my_signed_prekey_secret.len() != 32 || ciphertext.len() < 44 {
        return None;
    }
    match open_message(my_signed_prekey_secret, ciphertext) {
        Some(_) => {
            let secret = slice_bytes(my_signed_prekey_secret, 0, 32);
            let message = slice_bytes(ciphertext, 0, ciphertext.len());
            assert(secret@ =~= my_signed_prekey_secret@);
            assert(message@ =~= ciphertext@);
            Some(decrypt(secret, message))
        },
        None => None,
    }
}

} // verus!
