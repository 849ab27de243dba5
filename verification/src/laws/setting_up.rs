//! Setting up a card follows the card.

use openpgp_card::ocard::crypto::PublicKeyMaterial;
use vstd::prelude::*;

use crate::card;
use crate::card::{AdminCard, AdminSession, KeySlot, SlotAlgorithm, TouchPolicy};
use crate::error;
use crate::error::YubiError;
use crate::laws::words;
use crate::provision;
use crate::provision::{KeySlotFingerprint, PublicKeyBytes};
use crate::reply;

verus! {

/// A key generation sets the Signature slot to Ed25519 and then, unless the
/// card refused that, generates a key in that very slot. The result is the
/// point of the new key if it is an Ed25519 signing key, and an error
/// otherwise.
pub proof fn generation_follows_the_card<A: AdminCard>(
    admin: &mut AdminSession<A>,
    r: Result<PublicKeyBytes, YubiError>,
)
    requires
        call_ensures(provision::generate_signature_key::<A>, (admin,), r),
    ensures
        exists|c: &mut A, set: Result<(), openpgp_card::Error>| #[trigger]
            call_ensures(
                A::set_algorithm,
                (c, KeySlot::Signing, SlotAlgorithm::Curve25519),
                set,
            ) && match set {
                Err(cause) => r is Err && told_to_admin(reply::failure_of(cause), r->Err_0@),
                Ok(()) => exists|
                    d: &mut A,
                    generated: Result<PublicKeyMaterial, openpgp_card::Error>,
                | #[trigger]
                    call_ensures(
                        A::generate_key::<KeySlotFingerprint>,
                        (d, KeySlot::Signing),
                        generated,
                    ) && match generated {
                        Err(cause) => r is Err && told_to_admin(
                            reply::failure_of(cause),
                            r->Err_0@,
                        ),
                        Ok(material) => {
                            let key = reply::key_material_of(material);
                            match r {
                                Ok(public_key) => words::ed25519_point(key, public_key@),
                                Err(err) => words::told_of_generated_key(key, err@) && forall|point: Seq<u8>|
                                    !words::ed25519_point(key, point),
                            }
                        },
                    },
            },
{
    words::lemma_decimals_read_back();
    let before = admin.exchanges();
    let after = final(admin).exchanges();
    let asked = card::since(before, after);
    assert(card::continues_admin::<A>(before, after));
    assert(asked[0] == after[before.len() as int]);
    if asked.len() > 1 {
        assert(asked[1] == after[before.len() as int + 1]);
    }
}

/// A failure is told plainly ([`words::told_plainly`]), but that the Admin PIN was
/// not verified is told apart.
pub open spec fn told_to_admin(failure: reply::CardFailureView, err: error::YubiErrorView) -> bool {
    if failure.kind is SecurityStatusNotSatisfied {
        err is AdminAuthRequired
    } else {
        words::told_plainly(failure, err)
    }
}

/// What a key generation puts to the card, in what order, and nothing else.
pub proof fn generation_asks_for_two_things<A: AdminCard>(
    admin: &mut AdminSession<A>,
    r: Result<PublicKeyBytes, YubiError>,
)
    requires
        call_ensures(provision::generate_signature_key::<A>, (admin,), r),
    ensures
        ({
            let n = old(admin).exchanges().len() as int;
            let after = final(admin).exchanges();
            &&& old(admin).exchanges().is_prefix_of(after)
            &&& n < after.len() <= n + 2
            &&& after[n] matches card::AdminExchange::SetAlgorithm { slot, algorithm, reply: set }
            &&& slot == KeySlot::Signing
            &&& algorithm == SlotAlgorithm::Curve25519
            &&& set is Ok <==> after.len() == n + 2
            &&& after.len() == n + 2 ==> (after[n + 1] matches card::AdminExchange::GenerateKey {
                slot: generated,
                ..
            } && generated == slot)
        }),
{
    let n = admin.exchanges().len() as int;
    let after = final(admin).exchanges();
    let asked = card::since(admin.exchanges(), after);
    assert(asked[0] == after[n]);
    if asked.len() > 1 {
        assert(asked[1] == after[n + 1]);
    }
}

/// The touch setting is put to the card once, as `Fixed`, for the Signature
/// slot, and what the card says to it is what comes out.
pub proof fn touch_follows_the_card<A: AdminCard>(
    admin: &mut AdminSession<A>,
    r: Result<(), YubiError>,
)
    requires
        call_ensures(provision::set_signature_touch_policy_fixed::<A>, (admin,), r),
    ensures
        final(admin).exchanges().drop_last() == old(admin).exchanges(),
        exists|c: &mut A, set: Result<(), openpgp_card::Error>| #[trigger]
            call_ensures(
                A::set_touch_policy,
                (c, KeySlot::Signing, TouchPolicy::Fixed),
                set,
            ) && match set {
                Ok(()) => r is Ok,
                Err(cause) => r is Err && told_to_admin(reply::failure_of(cause), r->Err_0@),
            },
{
    assert(card::continues_admin::<A>(admin.exchanges(), final(admin).exchanges()));
    assert(final(admin).exchanges().drop_last() =~= admin.exchanges());
}

} // verus!
