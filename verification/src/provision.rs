//! Setting up a card: an Ed25519 key generated in the Signature slot, and a
//! touch for every use of it.
//!
//! A card generates keys of the algorithm that its slot is set to, which on a
//! new card is RSA. So the algorithm is set first; and because a card that
//! cannot change it ignores the request, what was generated is checked too.
//!
//! The operations need the Admin PIN verified on the card. Having an
//! [`AdminCard`](crate::card::AdminCard) does not show that it was: the card
//! itself refuses, and that refusal becomes
//! [`AdminAuthRequired`](crate::error::YubiError::AdminAuthRequired).

use openpgp_card::ocard::crypto::PublicKeyMaterial;
use openpgp_card::ocard::data::{Fingerprint, KeyGenerationTime};
use openpgp_card::ocard::KeyType;
use vstd::prelude::*;
use vstd::string::*;

use crate::card;
use crate::card::{
    AdminCard, AdminSession, FingerprintRule, KeySlot, SlotAlgorithm, TouchPolicy,
};
use crate::error;
use crate::error::YubiError;
use crate::reply;
use crate::reply::{CardFailure, FailureKind, KeyMaterial};
use crate::text;

verus! {

#[verifier::external_type_specification]
#[verifier::external_body]
pub struct ExFingerprint(openpgp_card::ocard::data::Fingerprint);

#[verifier::external_type_specification]
#[verifier::external_body]
pub struct ExKeyGenerationTime(openpgp_card::ocard::data::KeyGenerationTime);

#[verifier::external_type_specification]
#[verifier::external_body]
pub struct ExKeyType(openpgp_card::ocard::KeyType);

/// An Ed25519 public key: the 32 bytes of its point.
#[derive(Debug, Clone, Copy, PartialEq, Eq)]
pub struct PublicKeyBytes([u8; 32]);

impl View for PublicKeyBytes {
    type V = Seq<u8>;

    closed spec fn view(&self) -> Seq<u8> {
        self.0@
    }
}

impl PublicKeyBytes {
    /// The key with this point.
    pub fn new(bytes: [u8; 32]) -> (key: PublicKeyBytes)
        ensures
            key@ == bytes@,
    {
        PublicKeyBytes(bytes)
    }
}

impl AsRef<[u8]> for PublicKeyBytes {
    fn as_ref(&self) -> (bytes: &[u8])
        ensures
            bytes@ == self@,
    {
        &self.0
    }
}

impl vstd::std_specs::convert::FromSpecImpl<PublicKeyBytes> for [u8; 32] {
    open spec fn obeys_from_spec() -> bool {
        true
    }

    closed spec fn from_spec(key: PublicKeyBytes) -> [u8; 32] {
        key.0
    }
}

impl From<PublicKeyBytes> for [u8; 32] {
    fn from(key: PublicKeyBytes) -> (bytes: [u8; 32])
        ensures
            bytes@ == key@,
    {
        key.0
    }
}

/// The outcome of a key generation that the card reported as done: the point
/// of the new key, if it is an Ed25519 signing key.
pub open spec fn generated_key(key: reply::KeyMaterialView) -> Result<
    Seq<u8>,
    error::YubiErrorView,
> {
    match key {
        reply::KeyMaterialView::Rsa { .. } => Err(
            error::YubiErrorView::Other(
                "card generated an RSA key in the Signature slot instead of Ed25519/EdDSA -- this card's Signature slot algorithm attribute may not be changeable to Curve25519"@,
            ),
        ),
        reply::KeyMaterialView::Ecc { point, algorithm, description } => {
            if !algorithm.is_ed25519() {
                Err(
                    error::YubiErrorView::Other(
                        "card generated a "@ + description
                            + " key in the Signature slot instead of Ed25519/EdDSA -- this card's Signature slot algorithm attribute may not be changeable to Curve25519"@,
                    ),
                )
            } else if point.len() != 32 {
                Err(
                    error::YubiErrorView::Other(
                        "card returned a "@ + text::decimal(point.len())
                            + "-byte public key point for the Signature slot, expected exactly 32 (Ed25519)"@,
                    ),
                )
            } else {
                Ok(point)
            }
        },
    }
}

/// Accepts a newly generated key if it is an Ed25519 signing key.
pub fn accept_generated_key(key: KeyMaterial) -> (r: Result<PublicKeyBytes, YubiError>)
    ensures
        error::outcome(r) == generated_key(key@),
{
    match key {
        KeyMaterial::Rsa { .. } => Err(
            YubiError::Other(
                String::from_str(
                    "card generated an RSA key in the Signature slot instead of Ed25519/EdDSA -- this card's Signature slot algorithm attribute may not be changeable to Curve25519",
                ),
            ),
        ),
        KeyMaterial::Ecc { point, algorithm, description } => {
            if !algorithm.is_ed25519() {
                return Err(
                    YubiError::Other(
                        String::from_str("card generated a ").concat(description.as_str()).concat(
                            " key in the Signature slot instead of Ed25519/EdDSA -- this card's Signature slot algorithm attribute may not be changeable to Curve25519",
                        ),
                    ),
                );
            }
            match key_point(&point) {
                Some(bytes) => Ok(PublicKeyBytes::new(bytes)),
                None => {
                    let mut message = String::from_str("card returned a ");
                    text::push_decimal(&mut message, point.len());
                    message.append(
                        "-byte public key point for the Signature slot, expected exactly 32 (Ed25519)",
                    );
                    Err(YubiError::Other(message))
                },
            }
        },
    }
}

/// The 32 bytes of a point, if it has 32.
pub(crate) fn key_point(point: &Vec<u8>) -> (r: Option<[u8; 32]>)
    ensures
        match r {
            Some(bytes) => bytes@ == point@,
            None => point@.len() != 32,
        },
{
    if point.len() != 32 {
        return None;
    }
    let mut bytes: [u8; 32] = [0u8; 32];
    let mut i: usize = 0;
    while i < 32
        invariant
            i <= 32,
            point@.len() == 32,
            forall|j: int| 0 <= j < i ==> bytes@[j] == point@[j],
        decreases 32 - i,
    {
        bytes[i] = point[i];
        i += 1;
    }
    assert(bytes@ =~= point@);
    Some(bytes)
}

/// The error for a failed operation that needs the Admin PIN: that the PIN was
/// not verified is told apart.
pub open spec fn admin_error(failure: reply::CardFailureView) -> error::YubiErrorView {
    if failure.kind is SecurityStatusNotSatisfied {
        error::YubiErrorView::AdminAuthRequired
    } else {
        error::general_error(failure)
    }
}

/// The error for a failed operation that needs the Admin PIN.
pub fn map_admin_op_failure(failure: CardFailure) -> (err: YubiError)
    ensures
        err@ == admin_error(failure@),
{
    match failure.kind {
        FailureKind::SecurityStatusNotSatisfied => YubiError::AdminAuthRequired,
        _ => YubiError::from_failure(failure),
    }
}

/// The error for a failed operation that needs the Admin PIN.
pub fn map_admin_op_error(err: openpgp_card::Error) -> (mapped: YubiError)
    ensures
        mapped@ == admin_error(reply::failure_of(err)),
{
    map_admin_op_failure(CardFailure::of(&err))
}

/// What a key generation asks of the card, and what comes of it: the
/// algorithm is set; if that worked, a key is generated; if that worked, the
/// key is judged. `asked` is all that was asked.
pub open spec fn generation_run(
    asked: Seq<card::AdminExchange>,
    outcome: Result<Seq<u8>, error::YubiErrorView>,
) -> bool {
    &&& asked.len() >= 1
    &&& asked[0] matches card::AdminExchange::SetAlgorithm { slot, algorithm, reply: set }
    &&& slot is Signing
    &&& algorithm is Curve25519
    &&& match set {
        Err(cause) => {
            &&& asked.len() == 1
            &&& outcome == Err::<Seq<u8>, _>(admin_error(reply::failure_of(cause)))
        },
        Ok(()) => {
            &&& asked.len() == 2
            &&& asked[1] matches card::AdminExchange::GenerateKey { slot, reply: generated }
            &&& slot is Signing
            &&& match generated {
                Err(cause) => outcome == Err::<Seq<u8>, _>(
                    admin_error(reply::failure_of(cause)),
                ),
                Ok(material) => outcome == generated_key(reply::key_material_of(material)),
            }
        },
    }
}

/// Generates an Ed25519 key in the Signature slot and returns its public part.
/// The private part stays on the card. A key that the slot held is lost.
pub fn generate_signature_key<A: AdminCard>(admin: &mut AdminSession<A>) -> (r: Result<
    PublicKeyBytes,
    YubiError,
>)
    ensures
        card::continues_admin::<A>(old(admin).exchanges(), final(admin).exchanges()),
        generation_run(
            card::since(old(admin).exchanges(), final(admin).exchanges()),
            error::outcome(r),
        ),
{
    match admin.set_algorithm(KeySlot::Signing, SlotAlgorithm::Curve25519) {
        Err(cause) => return Err(map_admin_op_error(cause)),
        Ok(()) => {},
    }
    match admin.generate_key(KeySlot::Signing) {
        Err(cause) => Err(map_admin_op_error(cause)),
        Ok(material) => accept_generated_key(KeyMaterial::of(&material)),
    }
}

/// Makes the card ask for a touch before every signature, for good.
pub fn set_signature_touch_policy_fixed<A: AdminCard>(admin: &mut AdminSession<A>) -> (r: Result<
    (),
    YubiError,
>)
    ensures
        card::continues_admin::<A>(old(admin).exchanges(), final(admin).exchanges()),
        final(admin).exchanges().len() == old(admin).exchanges().len() + 1,
        final(admin).exchanges().last() matches card::AdminExchange::SetTouchPolicy {
            slot,
            policy,
            reply: set,
        } && slot is Signing && policy is Fixed && match set {
            Ok(()) => r is Ok,
            Err(cause) => r matches Err(err) && err@ == admin_error(reply::failure_of(cause)),
        },
{
    match admin.set_touch_policy(KeySlot::Signing, TouchPolicy::Fixed) {
        Ok(()) => Ok(()),
        Err(cause) => Err(map_admin_op_error(cause)),
    }
}

/// The 20 bytes stored beside a key: the first of its own, and zeros where it
/// has fewer.
pub open spec fn slot_fingerprint(raw: Seq<u8>) -> Seq<u8> {
    Seq::new(
        20,
        |i: int|
            if i < raw.len() {
                raw[i]
            } else {
                0u8
            },
    )
}

/// The bytes of an `openpgp-card` fingerprint.
pub uninterp spec fn fingerprint_bytes(fingerprint: Fingerprint) -> Seq<u8>;

/// `Fingerprint::from`, which keeps the 20 bytes as they are.
#[verifier::external_body]
fn fingerprint_from(bytes: [u8; 20]) -> (fingerprint: Fingerprint)
    ensures
        fingerprint_bytes(fingerprint) == bytes@,
{
    Fingerprint::from(bytes)
}

/// The fingerprint that the card stores beside a new key, in the form in which
/// `openpgp-card` asks for it. It only tells keys apart on the card; it is not
/// the fingerprint of an OpenPGP certificate.
pub fn key_slot_fingerprint(
    pub_key: &PublicKeyMaterial,
    _generated_at: KeyGenerationTime,
    _key_type: KeyType,
) -> (r: Result<Fingerprint, openpgp_card::Error>)
    ensures
        r matches Ok(fingerprint) && fingerprint_bytes(fingerprint) == slot_fingerprint(
            reply::key_material_of(*pub_key).raw(),
        ),
{
    Ok(fingerprint_from(fingerprint_of_key(&KeyMaterial::of(pub_key))))
}

/// [`key_slot_fingerprint`] as what a card is handed when it generates a key.
pub struct KeySlotFingerprint;

impl FingerprintRule for KeySlotFingerprint {
    fn fingerprint(
        pub_key: &PublicKeyMaterial,
        generated_at: KeyGenerationTime,
        key_type: KeyType,
    ) -> (r: Result<Fingerprint, openpgp_card::Error>)
        ensures
            r matches Ok(fingerprint) && fingerprint_bytes(fingerprint) == slot_fingerprint(
                reply::key_material_of(*pub_key).raw(),
            ),
    {
        key_slot_fingerprint(pub_key, generated_at, key_type)
    }
}

/// The 20 bytes stored beside `key`.
pub fn fingerprint_of_key(key: &KeyMaterial) -> (bytes: [u8; 20])
    ensures
        bytes@ == slot_fingerprint(key@.raw()),
{
    let raw: &Vec<u8> = match key {
        KeyMaterial::Rsa { modulus } => modulus,
        KeyMaterial::Ecc { point, .. } => point,
    };
    let mut bytes: [u8; 20] = [0u8; 20];
    let mut i: usize = 0;
    while i < 20
        invariant
            i <= 20,
            forall|j: int| 0 <= j < i ==> bytes@[j] == slot_fingerprint(raw@)[j],
        decreases 20 - i,
    {
        bytes[i] = if i < raw.len() {
            raw[i]
        } else {
            0
        };
        i += 1;
    }
    assert(bytes@ =~= slot_fingerprint(raw@));
    bytes
}

/// A key is the 32 bytes of its point and nothing else.
pub proof fn key_is_its_bytes(key: PublicKeyBytes, other: PublicKeyBytes)
    ensures
        key@.len() == 32,
        key@ == other@ <==> key == other,
{
    if key@ == other@ {
        assert(key.0 =~= other.0);
    }
}

/// A key is generated only after the slot was set to Ed25519, and only if the
/// card agreed to that; nothing else is asked of the card.
pub proof fn algorithm_is_set_before_generation(
    asked: Seq<card::AdminExchange>,
    outcome: Result<Seq<u8>, error::YubiErrorView>,
    i: int,
)
    requires
        generation_run(asked, outcome),
        0 <= i < asked.len(),
    ensures
        asked[0] is SetAlgorithm,
        i > 0 ==> {
            &&& i == 1
            &&& asked[i] is GenerateKey
            &&& asked[0]->SetAlgorithm_reply is Ok
        },
{
}

/// Only an Ed25519 signing key is accepted: not an RSA key, and not a point on
/// another curve or for another scheme, though it be 32 bytes long.
pub proof fn only_ed25519_is_accepted(key: reply::KeyMaterialView)
    ensures
        generated_key(key) is Ok <==> {
            &&& key matches reply::KeyMaterialView::Ecc { point, algorithm, .. }
            &&& algorithm.is_ed25519()
            &&& point.len() == 32
        },
        generated_key(key) matches Ok(point) ==> point == key.raw(),
{
}

/// A key generation succeeds exactly if the card did both steps and the key
/// is an Ed25519 signing key; the result is that key.
pub proof fn generation_succeeds_with_the_new_key(
    asked: Seq<card::AdminExchange>,
    outcome: Result<Seq<u8>, error::YubiErrorView>,
)
    requires
        generation_run(asked, outcome),
    ensures
        outcome is Ok <==> {
            &&& asked.len() == 2
            &&& asked[1]->GenerateKey_reply matches Ok(material)
            &&& generated_key(reply::key_material_of(material)) is Ok
        },
        outcome matches Ok(point) ==> point == reply::key_material_of(
            asked[1]->GenerateKey_reply->Ok_0,
        ).raw(),
{
}

/// A missing Admin PIN, and nothing else, is reported as such.
pub proof fn missing_admin_pin_is_told(failure: reply::CardFailureView)
    ensures
        admin_error(failure) is AdminAuthRequired <==> failure.kind is SecurityStatusNotSatisfied,
{
}

/// Keys of at least 20 bytes get different fingerprints exactly if they differ
/// in their first 20 bytes.
pub proof fn fingerprints_tell_keys_apart(raw: Seq<u8>, other: Seq<u8>)
    requires
        raw.len() >= 20,
        other.len() >= 20,
    ensures
        slot_fingerprint(raw) == slot_fingerprint(other) <==> raw.take(20) == other.take(20),
{
    assert(slot_fingerprint(raw) =~= raw.take(20));
    assert(slot_fingerprint(other) =~= other.take(20));
}

} // verus!
