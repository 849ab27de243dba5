//! What a card answered as a key or a signature, accepted or not.

use openpgp_card::ocard::crypto::PublicKeyMaterial;
use openpgp_card::ocard::data::{Fingerprint, KeyGenerationTime};
use openpgp_card::ocard::KeyType;
use vstd::prelude::*;

use crate::card;
use crate::error::YubiError;
use crate::laws::words;
use crate::provision;
use crate::provision::{KeySlotFingerprint, PublicKeyBytes};
use crate::reply;
use crate::reply::KeyMaterial;
use crate::sign;

verus! {

/// What a card answered as a signature is accepted exactly if it has 64 bytes,
/// and then as it is.
pub proof fn signatures_are_accepted_by_length(signature: Vec<u8>, r: Result<[u8; 64], YubiError>)
    requires
        call_ensures(sign::accept_signature, (signature,), r),
    ensures
        r is Ok <==> signature@.len() == 64,
        r is Ok ==> r->Ok_0@ == signature@,
        r is Err ==> words::told_of_signature(signature@.len(), r->Err_0@),
{
    words::lemma_decimals_read_back();
}

/// A key in the Signature slot is accepted exactly if it is an Ed25519 signing
/// key, and then as its point.
pub proof fn held_keys_are_accepted_if_ed25519(key: KeyMaterial, r: Result<[u8; 32], YubiError>)
    requires
        call_ensures(sign::accept_held_key, (key,), r),
    ensures
        r is Ok ==> words::ed25519_point(key@, r->Ok_0@),
        r is Err ==> forall|point: Seq<u8>| !words::ed25519_point(key@, point),
        r is Err ==> words::told_of_held_key(key@, r->Err_0@),
{
    words::lemma_decimals_read_back();
}

/// A key that was just generated is accepted exactly if it is an Ed25519 signing
/// key, and then as its point.
pub proof fn generated_keys_are_accepted_if_ed25519(
    key: KeyMaterial,
    r: Result<PublicKeyBytes, YubiError>,
)
    requires
        call_ensures(provision::accept_generated_key, (key,), r),
    ensures
        r is Ok ==> words::ed25519_point(key@, r->Ok_0@),
        r is Err ==> forall|point: Seq<u8>| !words::ed25519_point(key@, point),
        r is Err ==> words::told_of_generated_key(key@, r->Err_0@),
{
    words::lemma_decimals_read_back();
}

/// An algorithm counts as Ed25519 exactly if the scheme is EdDSA and the curve
/// is Ed25519.
pub proof fn ed25519_is_scheme_and_curve(algorithm: reply::KeyAlgorithm, yes: bool)
    requires
        call_ensures(reply::KeyAlgorithm::is_ed25519, (&algorithm,), yes),
    ensures
        yes <==> (algorithm matches reply::KeyAlgorithm::Ecc { kind, curve } && kind
            == reply::EccKind::EdDsa && curve is Ed25519),
{
}

/// A public key gives back the bytes that it was made of.
pub proof fn public_keys_keep_their_bytes(bytes: [u8; 32], key: PublicKeyBytes, back: [u8; 32])
    requires
        call_ensures(PublicKeyBytes::new, (bytes,), key),
        call_ensures(<[u8; 32] as From<PublicKeyBytes>>::from, (key,), back),
    ensures
        key@ == bytes@,
        back@ == bytes@,
{
}

/// The fingerprint holds the first bytes of the key, in their order: all 20 if
/// the key has that many, and zeros behind those that it has.
pub open spec fn begins_like_key(fingerprint: Seq<u8>, key: reply::KeyMaterialView) -> bool {
    let raw = match key {
        reply::KeyMaterialView::Rsa { modulus } => modulus,
        reply::KeyMaterialView::Ecc { point, .. } => point,
    };
    &&& fingerprint.len() == 20
    &&& raw.len() >= 20 ==> fingerprint.is_prefix_of(raw)
    &&& raw.len() < 20 ==> {
        &&& raw.is_prefix_of(fingerprint)
        &&& forall|i: int| raw.len() <= i < 20 ==> #[trigger] fingerprint[i] == 0
    }
}

/// A key's fingerprint is how the key begins, whatever the time and the slot.
pub proof fn fingerprints_begin_like_the_key(
    key: KeyMaterial,
    bytes: [u8; 20],
    material: PublicKeyMaterial,
    time: KeyGenerationTime,
    key_type: KeyType,
    r: Result<Fingerprint, openpgp_card::Error>,
    by_rule: Result<Fingerprint, openpgp_card::Error>,
)
    requires
        call_ensures(provision::fingerprint_of_key, (&key,), bytes),
        call_ensures(provision::key_slot_fingerprint, (&material, time, key_type), r),
        call_ensures(
            <KeySlotFingerprint as card::FingerprintRule>::fingerprint,
            (&material, time, key_type),
            by_rule,
        ),
    ensures
        begins_like_key(bytes@, key@),
        r is Ok,
        begins_like_key(
            provision::fingerprint_bytes(r->Ok_0),
            reply::key_material_of(material),
        ),
        by_rule is Ok,
        begins_like_key(
            provision::fingerprint_bytes(by_rule->Ok_0),
            reply::key_material_of(material),
        ),
{
}

} // verus!
