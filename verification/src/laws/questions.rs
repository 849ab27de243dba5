//! One question of this crate is one call, and it is noted.

use card_backend::SmartcardError;
use openpgp_card::ocard::crypto::PublicKeyMaterial;
use openpgp_card::ocard::data::ApplicationIdentifier;
use vstd::prelude::*;

use crate::card;
use crate::card::{
    AdminCard, AdminSession, Candidates, CardFeed, CardReaders, CardSource, KeySlot, OpenCard,
    OpenedCard, Readers, Session, SigningAlgo, SlotAlgorithm, TouchPolicy, TransactionCard,
};
use crate::error::YubiError;
use crate::laws::finding;
use crate::laws::words;
use crate::provision::KeySlotFingerprint;
use crate::reply;

verus! {

/// The card is asked for its identity once, its answer is the
/// result, and both are noted.
pub proof fn identity_is_asked_once<T: TransactionCard>(
    tx: &mut Session<T>,
    reply: Result<ApplicationIdentifier, openpgp_card::Error>,
)
    requires
        call_ensures(Session::<T>::application_identifier, (tx,), reply),
    ensures
        final(tx).exchanges() == old(tx).exchanges().push(card::Exchange::Identity { reply }),
        exists|asked: &mut T| #[trigger]
            call_ensures(T::application_identifier, (asked,), reply) && *asked == old(
                tx,
            ).held() && *final(asked) == final(tx).held(),
{
}

/// The card is presented this User PIN once, its answer is the
/// result, and both are noted.
pub proof fn user_pin_is_presented_once<T: TransactionCard>(
    tx: &mut Session<T>,
    pin: &str,
    reply: Result<(), openpgp_card::Error>,
)
    requires
        call_ensures(Session::<T>::verify_user_pin, (tx, pin), reply),
    ensures
        final(tx).exchanges() == old(tx).exchanges().push(card::Exchange::VerifyUserPin { pin: pin@, reply }),
        exists|asked: &mut T| #[trigger]
            call_ensures(T::verify_user_pin, (asked, pin), reply) && *asked == old(
                tx,
            ).held() && *final(asked) == final(tx).held(),
{
}

/// The card is presented this Admin PIN once, its answer is the
/// result, and both are noted.
pub proof fn admin_pin_is_presented_once<T: TransactionCard>(
    tx: &mut Session<T>,
    pin: &str,
    reply: Result<(), openpgp_card::Error>,
)
    requires
        call_ensures(Session::<T>::verify_admin_pin, (tx, pin), reply),
    ensures
        final(tx).exchanges() == old(tx).exchanges().push(card::Exchange::VerifyAdminPin { pin: pin@, reply }),
        exists|asked: &mut T| #[trigger]
            call_ensures(T::verify_admin_pin, (asked, pin), reply) && *asked == old(
                tx,
            ).held() && *final(asked) == final(tx).held(),
{
}

/// The card is presented this PIN for signing once, its answer is the
/// result, and both are noted.
pub proof fn signing_pin_is_presented_once<T: TransactionCard>(
    tx: &mut Session<T>,
    pin: &T::Pin,
    reply: Result<(), openpgp_card::Error>,
)
    requires
        call_ensures(Session::<T>::verify_user_signing_pin, (tx, pin), reply),
    ensures
        final(tx).exchanges() == old(tx).exchanges().push(card::Exchange::VerifyUserSigningPin { pin: *pin, reply }),
        exists|asked: &mut T| #[trigger]
            call_ensures(T::verify_user_signing_pin, (asked, pin), reply) && *asked == old(
                tx,
            ).held() && *final(asked) == final(tx).held(),
{
}

/// The card is asked for the key in this slot once, its answer is the
/// result, and both are noted.
pub proof fn public_key_is_asked_once<T: TransactionCard>(
    tx: &mut Session<T>,
    slot: KeySlot,
    reply: Result<PublicKeyMaterial, openpgp_card::Error>,
)
    requires
        call_ensures(Session::<T>::public_key_material, (tx, slot), reply),
    ensures
        final(tx).exchanges() == old(tx).exchanges().push(card::Exchange::PublicKey { slot, reply }),
        exists|asked: &mut T| #[trigger]
            call_ensures(T::public_key_material, (asked, slot), reply) && *asked == old(
                tx,
            ).held() && *final(asked) == final(tx).held(),
{
}

/// The card is asked to sign exactly this data once, what it answers is the
/// result, and both are noted.
pub proof fn signature_is_asked_once<T: TransactionCard>(
    tx: &mut Session<T>,
    algo: SigningAlgo,
    data: &[u8],
    reply: Result<Vec<u8>, openpgp_card::Error>,
)
    requires
        call_ensures(Session::<T>::signature_for_hash, (tx, algo, data), reply),
    ensures
        final(tx).exchanges().drop_last() == old(tx).exchanges(),
        final(tx).exchanges().last() matches card::Exchange::Sign {
            algo: noted_algo,
            data: noted_data,
            reply: noted_reply,
        } && noted_algo == algo && noted_data == data@ && match reply {
            Ok(bytes) => noted_reply is Ok && noted_reply->Ok_0 == bytes@,
            Err(cause) => noted_reply is Err && noted_reply->Err_0 == cause,
        },
        exists|asked: &mut T| #[trigger]
            call_ensures(T::signature_for_hash, (asked, algo, data), reply) && *asked == old(
                tx,
            ).held() && *final(asked) == final(tx).held(),
{
    assert(final(tx).exchanges().drop_last() =~= tx.exchanges());
}

/// The algorithm of this slot is set to this one once, the card's answer is
/// the result, and both are noted.
pub proof fn algorithm_is_set_once<A: AdminCard>(
    admin: &mut AdminSession<A>,
    slot: KeySlot,
    algorithm: SlotAlgorithm,
    reply: Result<(), openpgp_card::Error>,
)
    requires
        call_ensures(AdminSession::<A>::set_algorithm, (admin, slot, algorithm), reply),
    ensures
        final(admin).exchanges() == old(admin).exchanges().push(card::AdminExchange::SetAlgorithm { slot, algorithm, reply }),
        exists|asked: &mut A| #[trigger]
            call_ensures(A::set_algorithm, (asked, slot, algorithm), reply) && *asked == old(admin).held()
                && *final(asked) == final(admin).held(),
{
}

/// A key is generated in this slot once, the card's answer is
/// the result, and both are noted.
pub proof fn key_is_generated_once<A: AdminCard>(
    admin: &mut AdminSession<A>,
    slot: KeySlot,
    reply: Result<PublicKeyMaterial, openpgp_card::Error>,
)
    requires
        call_ensures(AdminSession::<A>::generate_key, (admin, slot), reply),
    ensures
        final(admin).exchanges() == old(admin).exchanges().push(card::AdminExchange::GenerateKey { slot, reply }),
        exists|asked: &mut A| #[trigger]
            call_ensures(A::generate_key::<KeySlotFingerprint>, (asked, slot), reply) && *asked == old(admin).held()
                && *final(asked) == final(admin).held(),
{
}

/// The touch policy of this slot is set to this one once, the card's answer is
/// the result, and both are noted.
pub proof fn touch_policy_is_set_once<A: AdminCard>(
    admin: &mut AdminSession<A>,
    slot: KeySlot,
    policy: TouchPolicy,
    reply: Result<(), openpgp_card::Error>,
)
    requires
        call_ensures(AdminSession::<A>::set_touch_policy, (admin, slot, policy), reply),
    ensures
        final(admin).exchanges() == old(admin).exchanges().push(card::AdminExchange::SetTouchPolicy { slot, policy, reply }),
        exists|asked: &mut A| #[trigger]
            call_ensures(A::set_touch_policy, (asked, slot, policy), reply) && *asked == old(admin).held()
                && *final(asked) == final(admin).held(),
{
}

/// The card is asked for a transaction once. One that it gives is what the
/// session holds, and nothing was asked in it yet; a refusal is told plainly.
pub proof fn transaction_is_asked_once<'a, C: OpenCard + 'a>(
    card: &'a mut OpenedCard<C>,
    r: Result<Session<C::Transaction<'a>>, YubiError>,
)
    requires
        call_ensures(OpenedCard::<C>::begin, (card,), r),
    ensures
        final(card).exchanges().drop_last() == old(card).exchanges(),
        exists|asked: &'a mut C, reply: Result<C::Transaction<'a>, openpgp_card::Error>| #[trigger]
            call_ensures(C::transaction, (asked,), reply) && *asked == old(card).held()
                && *final(asked) == final(card).held() && match reply {
                Ok(transaction) => r is Ok && r->Ok_0.held() == transaction
                    && r->Ok_0.exchanges().len() == 0 && final(card).exchanges().last() == (
                card::Exchange::<C::Pin>::Begin { refusal: None }),
                Err(cause) => r is Err && words::told_plainly(reply::failure_of(cause), r->Err_0@)
                    && final(card).exchanges().last() == (card::Exchange::<C::Pin>::Begin {
                    refusal: Some(cause),
                }),
            },
{
    assert(final(card).exchanges().drop_last() =~= card.exchanges());
}

/// The feed is asked for one candidate. If it gives a connection, that is opened,
/// and a card that opens is the result, of which nothing was asked yet.
pub proof fn one_candidate_is_taken<F: CardFeed>(
    cards: &mut Candidates<F>,
    r: card::NextCard<F::Card>,
)
    requires
        call_ensures(Candidates::<F>::open_next, (cards,), r),
    ensures
        final(cards).attempts().drop_last() == old(cards).attempts(),
        final(cards).exchanges().drop_last() == old(cards).exchanges(),
        ({
            let attempt = final(cards).attempts().last();
            &&& attempt.feed == old(cards).held()
            &&& attempt.left == final(cards).held()
            &&& exists|asked: &mut F| #[trigger]
                call_ensures(F::next_source, (asked,), finding::given_by_feed::<F>(attempt.tried)) && *asked
                    == old(cards).held() && *final(asked) == final(cards).held()
            &&& final(cards).exchanges().last() matches card::Exchange::Candidate { outcome }
            &&& match attempt.tried {
                card::Tried::End => r is End && outcome is End,
                card::Tried::Unreachable { cause } => r is Skipped && outcome == (
                card::CandidateOutcome::Unreachable { cause }),
                card::Tried::Refused { source, cause } => r is Skipped && outcome == (
                card::CandidateOutcome::Refused { cause }) && call_ensures(
                    <F::Source as CardSource>::open,
                    (source,),
                    Err::<F::Card, openpgp_card::Error>(cause),
                ),
                card::Tried::Opened { source, card } => (r matches card::NextCard::Usable(opened)
                    && opened.held() == card && opened.exchanges().len() == 0) && outcome is Opened
                    && call_ensures(
                    <F::Source as CardSource>::open,
                    (source,),
                    Ok::<F::Card, openpgp_card::Error>(card),
                ),
            }
        }),
{
    assert(final(cards).attempts().drop_last() =~= cards.attempts());
    assert(final(cards).exchanges().drop_last() =~= cards.exchanges());
    let attempt = final(cards).attempts().last();
    assert(finding::given_by_feed::<F>(attempt.tried) == attempt.tried.taken());
}

/// The readers are enumerated once. What that gives is what the candidates come
/// from, of which none was taken yet; why it failed is the result otherwise.
pub proof fn readers_are_enumerated_once<R: CardReaders>(
    readers: &mut Readers<R>,
    r: Result<Candidates<R::Feed>, SmartcardError>,
)
    requires
        call_ensures(Readers::<R>::enumerate, (readers,), r),
    ensures
        final(readers).attempts() == old(readers).attempts(),
        final(readers).exchanges().drop_last() == old(readers).exchanges(),
        exists|asked: &mut R, reply: Result<R::Feed, SmartcardError>| #[trigger]
            call_ensures(R::enumerate, (asked,), reply) && *asked == old(readers).held()
                && *final(asked) == final(readers).held() && match reply {
                Ok(feed) => r is Ok && r->Ok_0.held() == feed && r->Ok_0.exchanges().len() == 0
                    && r->Ok_0.attempts().len() == 0 && final(readers).exchanges().last() == (
                card::Exchange::<card::PinOf<R::Card>>::Enumerate { failure: None }),
                Err(cause) => r is Err && r->Err_0 == cause && final(readers).exchanges().last()
                    == (card::Exchange::<card::PinOf<R::Card>>::Enumerate { failure: Some(cause) }),
            },
{
    assert(final(readers).exchanges().drop_last() =~= readers.exchanges());
}

/// What records begin with is what they were given, and an empty record; a card
/// that is handed out is the card that was held.
pub proof fn records_begin_empty<T: TransactionCard, A: AdminCard, C: OpenCard, R: CardReaders>(
    transaction: T,
    session: Session<T>,
    admin_card: A,
    admin: AdminSession<A>,
    card: C,
    opened: OpenedCard<C>,
    taken_out: C,
    feed: R::Feed,
    candidates: Candidates<R::Feed>,
    machine: R,
    readers: Readers<R>,
)
    requires
        call_ensures(Session::<T>::new, (transaction,), session),
        call_ensures(AdminSession::<A>::new, (admin_card,), admin),
        call_ensures(OpenedCard::<C>::new, (card,), opened),
        call_ensures(OpenedCard::<C>::into_card, (opened,), taken_out),
        call_ensures(Candidates::<R::Feed>::new, (feed,), candidates),
        call_ensures(Readers::<R>::new, (machine,), readers),
    ensures
        session.held() == transaction && session.exchanges().len() == 0,
        admin.held() == admin_card && admin.exchanges().len() == 0,
        opened.held() == card && opened.exchanges().len() == 0,
        taken_out == card,
        candidates.held() == feed && candidates.exchanges().len() == 0,
        candidates.attempts().len() == 0,
        readers.held() == machine && readers.exchanges().len() == 0,
        readers.attempts().len() == 0,
{
}

} // verus!
