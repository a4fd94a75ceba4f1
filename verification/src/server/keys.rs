//! End-to-end encryption keys on the server: uploaded bundles are decoded from
//! base64, and a fetched bundle says when the owner should upload more
//! one-time prekeys.

use vstd::prelude::*;
use crate::server::codec::{base64_standard_decode, base64_standard_encode, decode_base64, encode_base64};

verus! {

/// Below this many unused one-time prekeys a client is asked for more.
pub const PREKEY_REPLENISH_THRESHOLD: i64 = 5;

#[derive(Clone, Debug, PartialEq, Eq)]
pub struct OneTimeKeyEntry {
    pub key_id: i64,
    pub key: String,
}

#[derive(Clone, Debug, PartialEq, Eq)]
pub struct UploadKeysRequest {
    pub identity_key: String,
    pub signed_prekey: String,
    pub signed_prekey_sig: String,
    pub one_time_prekeys: Vec<OneTimeKeyEntry>,
}

#[derive(Clone, Debug, PartialEq, Eq)]
pub struct OneTimeKeyResponse {
    pub key_id: i64,
    pub key: String,
}

#[derive(Clone, Debug, PartialEq, Eq)]
pub struct KeyBundle {
    pub user_id: u128,
    pub identity_key: String,
    pub signed_prekey: String,
    pub signed_prekey_sig: String,
    pub one_time_prekey: Option<OneTimeKeyResponse>,
    pub replenish_prekeys: bool,
}

/// Why a key operation failed.
#[derive(Clone, Debug, PartialEq, Eq)]
pub enum KeysError {
    InvalidBase64,
    BundleNotFound,
    Internal(String),
}

/// An uploaded bundle, decoded.
#[derive(Clone, Debug, PartialEq, Eq)]
pub struct DecodedUpload {
    pub identity_key: Vec<u8>,
    pub signed_prekey: Vec<u8>,
    pub signed_prekey_sig: Vec<u8>,
    pub one_time_prekeys: Vec<(i64, Vec<u8>)>,
}

/// Whether every one-time prekey of an upload is valid base64.
pub open spec fn prekeys_decode(es: Seq<OneTimeKeyEntry>) -> bool {
    forall|i: int| 0 <= i < es.len() ==> (#[trigger] base64_standard_decode(es[i].key@)) is Some
}

/// Decodes an upload: the three keys, then every one-time prekey in order; any
/// text that is not base64 fails the whole upload.
pub fn decode_upload(req: &UploadKeysRequest) -> (r: Result<DecodedUpload, KeysError>)
    ensures
        match r {
            Ok(d) => {
                &&& base64_standard_decode(req.identity_key@) == Some(d.identity_key@)
                &&& base64_standard_decode(req.signed_prekey@) == Some(d.signed_prekey@)
                &&& base64_standard_decode(req.signed_prekey_sig@) == Some(d.signed_prekey_sig@)
                &&& d.one_time_prekeys@.len() == req.one_time_prekeys@.len()
                &&& forall|i: int| 0 <= i < d.one_time_prekeys@.len() ==> (#[trigger] d.one_time_prekeys@[i]).0
                    == req.one_time_prekeys@[i].key_id && base64_standard_decode(
                    req.one_time_prekeys@[i].key@,
                ) == Some(d.one_time_prekeys@[i].1@)
            },
            Err(e) => e == KeysError::InvalidBase64 && !(base64_standard_decode(req.identity_key@) is Some
                && base64_standard_decode(req.signed_prekey@) is Some && base64_standard_decode(
                req.signed_prekey_sig@,
            ) is Some && prekeys_decode(req.one_time_prekeys@)),
        },
{
    let identity_key = match decode_base64(req.identity_key.as_str()) {
        Some(k) => k,
        None => return Err(KeysError::InvalidBase64),
    };
    let signed_prekey = match decode_base64(req.signed_prekey.as_str()) {
        Some(k) => k,
        None => return Err(KeysError::InvalidBase64),
    };
    let signed_prekey_sig = match decode_base64(req.signed_prekey_sig.as_str()) {
        Some(k) => k,
        None => return Err(KeysError::InvalidBase64),
    };
    let mut prekeys: Vec<(i64, Vec<u8>)> = Vec::new();
    let mut i: usize = 0;
    while i < req.one_time_prekeys.len()
        invariant
            i <= req.one_time_prekeys@.len(),
            prekeys@.len() == i,
            forall|k: int| 0 <= k < i ==> (#[trigger] prekeys@[k]).0 == req.one_time_prekeys@[k].key_id
                && base64_standard_decode(req.one_time_prekeys@[k].key@) == Some(prekeys@[k].1@),
        decreases req.one_time_prekeys@.len() - i,
    {
        let entry = &req.one_time_prekeys[i];
        match decode_base64(entry.key.as_str()) {
            Some(k) => prekeys.push((entry.key_id, k)),
            None => {
                assert(!prekeys_decode(req.one_time_prekeys@));
                return Err(KeysError::InvalidBase64);
            },
        }
        i = i + 1;
    }
    Ok(DecodedUpload { identity_key, signed_prekey, signed_prekey_sig, one_time_prekeys: prekeys })
}

/// The bundle handed out for a user: the stored keys as base64, the one-time
/// prekey taken for this request (if any), and whether fewer than five unused
/// prekeys remain.
pub fn build_key_bundle(
    user_id: u128,
    identity_key: &Vec<u8>,
    signed_prekey: &Vec<u8>,
    signed_prekey_sig: &Vec<u8>,
    one_time_prekey: Option<(i64, Vec<u8>)>,
    remaining: i64,
) -> (b: KeyBundle)
    ensures
        b.user_id == user_id,
        b.identity_key@ == base64_standard_encode(identity_key@),
        b.signed_prekey@ == base64_standard_encode(signed_prekey@),
        b.signed_prekey_sig@ == base64_standard_encode(signed_prekey_sig@),
        match one_time_prekey {
            Some((id, key)) => b.one_time_prekey matches Some(k) && k.key_id == id && k.key@
                == base64_standard_encode(key@),
            None => b.one_time_prekey is None,
        },
        b.replenish_prekeys == (remaining < PREKEY_REPLENISH_THRESHOLD),
{
    let otk = match one_time_prekey {
        Some((key_id, key)) => Some(OneTimeKeyResponse { key_id, key: encode_base64(&key) }),
        None => None,
    };
    KeyBundle {
        user_id,
        identity_key: encode_base64(identity_key),
        signed_prekey: encode_base64(signed_prekey),
        signed_prekey_sig: encode_base64(signed_prekey_sig),
        one_time_prekey: otk,
        replenish_prekeys: remaining < PREKEY_REPLENISH_THRESHOLD,
    }
}

} // verus!
