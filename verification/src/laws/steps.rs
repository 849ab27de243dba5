//! Whole calls, from the readers to the result, step by step.

use card_backend::SmartcardError;
use openpgp_card::ocard::crypto::PublicKeyMaterial;
use openpgp_card::ocard::data::ApplicationIdentifier;
use vstd::prelude::*;

use crate::card;
use crate::card::{
    Candidates, CardFeed, CardReaders, CardSource, KeySlot, OpenCard, OpenedCard, Readers,
    SigningAlgo, TransactionCard,
};
use crate::discovery;
use crate::error;
use crate::error::YubiError;
use crate::laws::identity;
use crate::laws::words;
use crate::pin;
use crate::reply;
use crate::sign;
use crate::sign::YubiKeySigner;

verus! {

/// How a look for a card goes on from its step `i`: readers that were
/// enumerated are searched; a candidate that is not usable is followed by the
/// next one, until one is opened or none is left. (A search that would need
/// more than a counter holds is given up.)
pub open spec fn looks_on<P>(noted: Seq<card::Exchange<P>>, i: int, first: int) -> bool {
    match noted[i] {
        card::Exchange::Enumerate { failure } => i == 0 && (failure is Some <==> i + 1
            == noted.len()) && (failure is None ==> noted[i + 1] is Candidate),
        card::Exchange::Candidate { outcome } => match outcome {
            card::CandidateOutcome::End => i + 1 == noted.len(),
            card::CandidateOutcome::Opened => i + 1 < noted.len() && noted[i + 1] is Begin,
            _ => if i + 1 < noted.len() {
                noted[i + 1] is Candidate
            } else {
                i + 1 - first == u64::MAX
            },
        },
        _ => true,
    }
}

/// How a look for a card that ends at step `i` is told.
pub open spec fn looked_in_vain<P>(
    noted: Seq<card::Exchange<P>>,
    i: int,
    err: error::YubiErrorView,
) -> bool {
    match noted[i] {
        card::Exchange::Enumerate { failure: Some(cause) } => words::told_of_readers(
            reply::reader_failure_of(cause),
            err,
        ),
        card::Exchange::Candidate { .. } => words::told_as_no_card(err),
        _ => true,
    }
}

/// How a signature goes on from its step `i`, and what comes of it if that was
/// the last: a card that was found is asked for a transaction; in it, it is
/// presented the PIN; and if it takes it, it is asked to sign the message.
pub open spec fn signature_goes_on<P>(
    noted: Seq<card::Exchange<P>>,
    i: int,
    user_pin: P,
    message: Seq<u8>,
    r: Result<[u8; 64], YubiError>,
) -> bool {
    match noted[i] {
        card::Exchange::Begin { refusal: Some(cause) } => i + 1 == noted.len() && r is Err
            && words::told_plainly(reply::failure_of(cause), r->Err_0@),
        card::Exchange::Begin { refusal: None } => i + 1 < noted.len()
            && noted[i + 1] is VerifyUserSigningPin,
        card::Exchange::VerifyUserSigningPin { pin, reply: Err(cause) } => pin == user_pin && i + 1
            == noted.len() && r is Err && words::told_of_pin(
            pin::PinKind::User,
            reply::failure_of(cause),
            r->Err_0@,
        ),
        card::Exchange::VerifyUserSigningPin { pin, reply: Ok(()) } => pin == user_pin && i + 1
            < noted.len() && noted[i + 1] is Sign,
        card::Exchange::Sign { algo, data, reply } => algo == SigningAlgo::Ecc && data == message
            && i + 1 == noted.len() && match reply {
            Ok(bytes) => if bytes.len() == 64 {
                r is Ok && r->Ok_0@ == bytes
            } else {
                r is Err && words::told_of_signature(bytes.len(), r->Err_0@)
            },
            Err(cause) => r is Err && if reply::failure_of(cause).kind is Smartcard {
                r->Err_0@ is TouchTimeout
            } else {
                words::told_plainly(reply::failure_of(cause), r->Err_0@)
            },
        },
        card::Exchange::Enumerate { .. } => i + 1 == noted.len() ==> r is Err && looked_in_vain(
            noted,
            i,
            r->Err_0@,
        ),
        card::Exchange::Candidate { .. } => i + 1 == noted.len() ==> r is Err && looked_in_vain(
            noted,
            i,
            r->Err_0@,
        ),
        _ => false,
    }
}

/// How the making of a signer goes on from its step `i`, and what comes of it
/// if that was the last: a card that was found is asked for a transaction; in
/// it, it is asked for its identity, and then for the key in its Signature slot.
pub open spec fn binding_goes_on<P>(
    noted: Seq<card::Exchange<P>>,
    i: int,
    user_pin: P,
    r: Result<YubiKeySigner<P>, YubiError>,
) -> bool {
    match noted[i] {
        card::Exchange::Begin { refusal: Some(cause) } => i + 1 == noted.len() && r is Err
            && words::told_plainly(reply::failure_of(cause), r->Err_0@),
        card::Exchange::Begin { refusal: None } => i + 1 < noted.len() && noted[i + 1] is Identity,
        card::Exchange::Identity { reply: Err(cause) } => i + 1 == noted.len() && r is Err
            && words::told_plainly(reply::failure_of(cause), r->Err_0@),
        card::Exchange::Identity { reply: Ok(aid) } => i + 1 < noted.len()
            && noted[i + 1] is PublicKey && (r is Ok ==> words::names_card(
            r->Ok_0@.card_serial,
            reply::identity_of(aid).0,
            reply::identity_of(aid).1,
        )),
        card::Exchange::PublicKey { slot, reply: Err(cause) } => slot == KeySlot::Signing && i + 1
            == noted.len() && r is Err && words::told_plainly(reply::failure_of(cause), r->Err_0@),
        card::Exchange::PublicKey { slot, reply: Ok(material) } => slot == KeySlot::Signing && i + 1
            == noted.len() && match r {
            Ok(signer) => words::ed25519_point(reply::key_material_of(material), signer@.public_key)
                && signer@.user_pin == user_pin,
            Err(err) => words::told_of_held_key(reply::key_material_of(material), err@) && forall|point: Seq<u8>|
                !words::ed25519_point(reply::key_material_of(material), point),
        },
        card::Exchange::Enumerate { .. } => i + 1 == noted.len() ==> r is Err && looked_in_vain(
            noted,
            i,
            r->Err_0@,
        ),
        card::Exchange::Candidate { .. } => i + 1 == noted.len() ==> r is Err && looked_in_vain(
            noted,
            i,
            r->Err_0@,
        ),
        _ => false,
    }
}

proof fn lemma_search_steps<P>(noted: Seq<card::Exchange<P>>, first: int, end: int, i: int)
    requires
        0 <= first <= i < end <= noted.len(),
        ({
            let taken = noted.subrange(first, end);
            ||| discovery::search_found(taken) && end < noted.len() && noted[end] is Begin
            ||| discovery::search_failed(taken) && end == noted.len()
        }),
    ensures
        noted[i] is Candidate,
        looks_on(noted, i, first),
{
    let taken = noted.subrange(first, end);
    assert(noted[i] == taken[i - first]);
    if i < end - 1 {
        assert(taken.drop_last()[i - first] == taken[i - first]);
        assert(noted[i + 1] == taken[i + 1 - first]);
        if i + 1 < end - 1 {
            assert(taken.drop_last()[i + 1 - first] == taken[i + 1 - first]);
        } else {
            assert(taken.last() == taken[i + 1 - first]);
        }
    } else {
        assert(taken.last() == noted[i]);
    }
}

/// A signature, from the enumeration of the readers to its end: every step that
/// succeeds is followed by the next, whatever the message, and 64 bytes that a
/// card signs with are the result. The signer stays as it is.
pub proof fn signature_step_by_step<P, R: CardReaders>(
    signer: &mut YubiKeySigner<P>,
    readers: &mut Readers<R>,
    message: &[u8],
    r: Result<[u8; 64], YubiError>,
    i: int,
) where R::Card: OpenCard<Pin = P>
    requires
        call_ensures(YubiKeySigner::<P>::sign::<R>, (signer, readers, message), r),
        0 <= i < card::since(readers.exchanges(), final(readers).exchanges()).len(),
    ensures
        *final(signer) == *old(signer),
        old(readers).exchanges().is_prefix_of(final(readers).exchanges()),
        ({
            let noted = card::since(old(readers).exchanges(), final(readers).exchanges());
            &&& noted[0] is Enumerate
            &&& looks_on(noted, i, 1)
            &&& signature_goes_on(noted, i, old(signer)@.user_pin, message@, r)
        }),
{
    let noted = card::since(readers.exchanges(), final(readers).exchanges());
    let user_pin = signer@.user_pin;
    let outcome = error::outcome(r);
    assert(sign::signing_call(noted, user_pin, message@, outcome));
    if outcome is Err && discovery::lookup_failed(noted, outcome->Err_0) {
        if i > 0 {
            assert(noted.subrange(1, noted.len() as int) =~= noted.skip(1));
            lemma_search_steps(noted, 1, noted.len() as int, i);
        } else if noted.len() > 1 {
            assert(noted.subrange(1, noted.len() as int) =~= noted.skip(1));
            lemma_search_steps(noted, 1, noted.len() as int, 1);
        }
    } else {
        let at = choose|at: int|
            {
                &&& 0 <= at <= noted.len()
                &&& discovery::lookup_found(#[trigger] noted.take(at))
                &&& sign::signing_attempt(noted.skip(at), user_pin, message@, outcome)
            };
        let found = noted.take(at);
        let asked = noted.skip(at);
        assert(found[0] == noted[0]);
        assert(asked[0] == noted[at]);
        assert(noted.subrange(1, at) =~= found.skip(1));
        lemma_search_steps(noted, 1, at, 1);
        if 0 < i < at {
            lemma_search_steps(noted, 1, at, i);
        } else if i >= at {
            lemma_signature_steps(noted, at, user_pin, message@, r, i);
        }
    }
}

proof fn lemma_signature_steps<P>(
    noted: Seq<card::Exchange<P>>,
    at: int,
    user_pin: P,
    message: Seq<u8>,
    r: Result<[u8; 64], YubiError>,
    i: int,
)
    requires
        0 <= at <= i < noted.len(),
        sign::signing_attempt(noted.skip(at), user_pin, message, error::outcome(r)),
    ensures
        signature_goes_on(noted, i, user_pin, message, r),
        !(noted[i] is Enumerate) && !(noted[i] is Candidate),
{
    words::lemma_decimals_read_back();
    let asked = noted.skip(at);
    assert(noted[i] == asked[i - at]);
    if asked.len() > 1 {
        assert(asked[1] == asked.skip(1)[0]);
        assert(noted[at + 1] == asked[1]);
    }
    if asked.len() > 2 {
        assert(asked[2] == asked.skip(1)[1]);
        assert(noted[at + 2] == asked[2]);
    }
}

/// A signature on an open card: every step that succeeds is followed by the
/// next.
pub proof fn signature_on_open_card_step_by_step<C: OpenCard>(
    card: &mut OpenedCard<C>,
    user_pin: &C::Pin,
    message: &[u8],
    r: Result<[u8; 64], YubiError>,
    i: int,
)
    requires
        call_ensures(YubiKeySigner::<C::Pin>::sign_with_open_card::<C>, (card, user_pin, message), r),
        0 <= i < card::since(card.exchanges(), final(card).exchanges()).len(),
    ensures
        old(card).exchanges().is_prefix_of(final(card).exchanges()),
        ({
            let noted = card::since(old(card).exchanges(), final(card).exchanges());
            &&& noted[0] is Begin
            &&& signature_goes_on(noted, i, *user_pin, message@, r)
        }),
{
    let noted = card::since(card.exchanges(), final(card).exchanges());
    assert(noted.skip(0) =~= noted);
    lemma_signature_steps(noted, 0, *user_pin, message@, r, i);
}

/// A signature on candidates: every step that succeeds is followed by the next.
pub proof fn signature_on_candidates_step_by_step<P, F: CardFeed>(
    cards: &mut Candidates<F>,
    user_pin: &P,
    message: &[u8],
    r: Result<[u8; 64], YubiError>,
    i: int,
) where F::Card: OpenCard<Pin = P>
    requires
        call_ensures(YubiKeySigner::<P>::discover_and_sign::<F>, (cards, user_pin, message), r),
        0 <= i < card::since(cards.exchanges(), final(cards).exchanges()).len(),
    ensures
        old(cards).exchanges().is_prefix_of(final(cards).exchanges()),
        ({
            let noted = card::since(old(cards).exchanges(), final(cards).exchanges());
            &&& noted[0] is Candidate
            &&& looks_on(noted, i, 0)
            &&& signature_goes_on(noted, i, *user_pin, message@, r)
        }),
{
    let noted = card::since(cards.exchanges(), final(cards).exchanges());
    let outcome = error::outcome(r);
    assert(sign::signing_search(noted, *user_pin, message@, outcome));
    if discovery::search_failed(noted) && outcome == Err::<Seq<u8>, _>(discovery::no_card_error()) {
        assert(noted.subrange(0, noted.len() as int) =~= noted);
        lemma_search_steps(noted, 0, noted.len() as int, 0);
        lemma_search_steps(noted, 0, noted.len() as int, i);
    } else {
        let at = choose|at: int|
            {
                &&& 0 <= at <= noted.len()
                &&& discovery::search_found(#[trigger] noted.take(at))
                &&& sign::signing_attempt(noted.skip(at), *user_pin, message@, outcome)
            };
        let asked = noted.skip(at);
        assert(asked[0] == noted[at]);
        assert(noted.subrange(0, at) =~= noted.take(at));
        lemma_search_steps(noted, 0, at, 0);
        if i < at {
            lemma_search_steps(noted, 0, at, i);
        } else {
            lemma_signature_steps(noted, at, *user_pin, message@, r, i);
        }
    }
}

proof fn lemma_binding_steps<P>(
    noted: Seq<card::Exchange<P>>,
    at: int,
    user_pin: P,
    r: Result<YubiKeySigner<P>, YubiError>,
    i: int,
)
    requires
        0 <= at <= i < noted.len(),
        sign::binding_attempt(noted.skip(at), user_pin, error::outcome(r)),
    ensures
        binding_goes_on(noted, i, user_pin, r),
        !(noted[i] is Enumerate) && !(noted[i] is Candidate),
{
    words::lemma_decimals_read_back();
    let asked = noted.skip(at);
    assert(noted[i] == asked[i - at]);
    if asked.len() > 1 {
        assert(asked[1] == asked.skip(1)[0]);
        assert(noted[at + 1] == asked[1]);
        match asked[1] {
            card::Exchange::Identity { reply: Ok(aid) } => {
                identity::lemma_ident_names_card(reply::identity_of(aid).0, reply::identity_of(aid).1);
            },
            _ => {},
        }
    }
    if asked.len() > 2 {
        assert(asked[2] == asked.skip(1)[1]);
        assert(noted[at + 2] == asked[2]);
    }
}

/// The making of a signer, from the enumeration of the readers to its end:
/// every step that succeeds is followed by the next, and the signer holds what
/// the card told.
pub proof fn binding_step_by_step<P, R: CardReaders>(
    readers: &mut Readers<R>,
    user_pin: P,
    r: Result<YubiKeySigner<P>, YubiError>,
    i: int,
) where R::Card: OpenCard<Pin = P>
    requires
        call_ensures(YubiKeySigner::<P>::new::<R>, (readers, user_pin), r),
        0 <= i < card::since(readers.exchanges(), final(readers).exchanges()).len(),
    ensures
        old(readers).exchanges().is_prefix_of(final(readers).exchanges()),
        ({
            let noted = card::since(old(readers).exchanges(), final(readers).exchanges());
            &&& noted[0] is Enumerate
            &&& looks_on(noted, i, 1)
            &&& binding_goes_on(noted, i, user_pin, r)
        }),
{
    let noted = card::since(readers.exchanges(), final(readers).exchanges());
    let outcome = error::outcome(r);
    assert(sign::binding_call(noted, user_pin, outcome));
    if outcome is Err && discovery::lookup_failed(noted, outcome->Err_0) {
        if noted.len() > 1 {
            assert(noted.subrange(1, noted.len() as int) =~= noted.skip(1));
            lemma_search_steps(noted, 1, noted.len() as int, if i > 0 {
                i
            } else {
                1
            });
        }
    } else {
        let at = choose|at: int|
            {
                &&& 0 <= at <= noted.len()
                &&& discovery::lookup_found(#[trigger] noted.take(at))
                &&& sign::binding_attempt(noted.skip(at), user_pin, outcome)
            };
        let found = noted.take(at);
        let asked = noted.skip(at);
        assert(found[0] == noted[0]);
        assert(asked[0] == noted[at]);
        assert(noted.subrange(1, at) =~= found.skip(1));
        lemma_search_steps(noted, 1, at, 1);
        if 0 < i < at {
            lemma_search_steps(noted, 1, at, i);
        } else if i >= at {
            lemma_binding_steps(noted, at, user_pin, r, i);
        }
    }
}

/// The making of a signer on an open card: every step that succeeds is followed
/// by the next.
pub proof fn binding_on_open_card_step_by_step<C: OpenCard>(
    card: &mut OpenedCard<C>,
    user_pin: C::Pin,
    r: Result<YubiKeySigner<C::Pin>, YubiError>,
    i: int,
)
    requires
        call_ensures(YubiKeySigner::<C::Pin>::from_open_card::<C>, (card, user_pin), r),
        0 <= i < card::since(card.exchanges(), final(card).exchanges()).len(),
    ensures
        old(card).exchanges().is_prefix_of(final(card).exchanges()),
        ({
            let noted = card::since(old(card).exchanges(), final(card).exchanges());
            &&& noted[0] is Begin
            &&& binding_goes_on(noted, i, user_pin, r)
        }),
{
    let noted = card::since(card.exchanges(), final(card).exchanges());
    assert(noted.skip(0) =~= noted);
    lemma_binding_steps(noted, 0, user_pin, r, i);
}

/// The making of a signer on candidates: every step that succeeds is followed
/// by the next.
pub proof fn binding_on_candidates_step_by_step<P, F: CardFeed>(
    cards: &mut Candidates<F>,
    user_pin: P,
    r: Result<YubiKeySigner<P>, YubiError>,
    i: int,
) where F::Card: OpenCard<Pin = P>
    requires
        call_ensures(YubiKeySigner::<P>::discover_and_construct::<F>, (cards, user_pin), r),
        0 <= i < card::since(cards.exchanges(), final(cards).exchanges()).len(),
    ensures
        old(cards).exchanges().is_prefix_of(final(cards).exchanges()),
        ({
            let noted = card::since(old(cards).exchanges(), final(cards).exchanges());
            &&& noted[0] is Candidate
            &&& looks_on(noted, i, 0)
            &&& binding_goes_on(noted, i, user_pin, r)
        }),
{
    let noted = card::since(cards.exchanges(), final(cards).exchanges());
    let outcome = error::outcome(r);
    assert(sign::binding_search(noted, user_pin, outcome));
    if discovery::search_failed(noted) && outcome == Err::<sign::SignerView<P>, _>(
        discovery::no_card_error(),
    ) {
        assert(noted.subrange(0, noted.len() as int) =~= noted);
        lemma_search_steps(noted, 0, noted.len() as int, 0);
        lemma_search_steps(noted, 0, noted.len() as int, i);
    } else {
        let at = choose|at: int|
            {
                &&& 0 <= at <= noted.len()
                &&& discovery::search_found(#[trigger] noted.take(at))
                &&& sign::binding_attempt(noted.skip(at), user_pin, outcome)
            };
        let asked = noted.skip(at);
        assert(asked[0] == noted[at]);
        assert(noted.subrange(0, at) =~= noted.take(at));
        lemma_search_steps(noted, 0, at, 0);
        if i < at {
            lemma_search_steps(noted, 0, at, i);
        } else {
            lemma_binding_steps(noted, at, user_pin, r, i);
        }
    }
}

/// Where the readers can be enumerated and hold a card that opens, gives a
/// transaction, takes the signer's PIN and signs the message with `signature`,
/// a call gives that signature, whatever the message.
pub proof fn every_message_is_signed_by_a_found_card<'a, P, R: CardReaders>(
    signer: &mut YubiKeySigner<P>,
    readers: &mut Readers<R>,
    message: &[u8],
    r: Result<[u8; 64], YubiError>,
    signature: Seq<u8>,
) where R::Card: OpenCard<Pin = P> + 'a
    requires
        call_ensures(YubiKeySigner::<P>::sign::<R>, (signer, readers, message), r),
        readers_hold_a_card::<R>(),
        gives_transactions::<'a, R::Card>(),
        takes_pin::<<R::Card as OpenCard>::Transaction<'a>>(signer@.user_pin),
        signs::<<R::Card as OpenCard>::Transaction<'a>>(message@, signature),
        signature.len() == 64,
    ensures
        r is Ok,
        r->Ok_0@ == signature,
{
    let before = readers.exchanges();
    let after = final(readers).exchanges();
    let n = before.len() as int;
    let noted = card::since(before, after);
    assert(card::continues_readers::<R>(before, after));
    assert(noted.len() > 0);
    signature_step_by_step(signer, readers, message, r, 0);
    assert(noted[0] == after[n]);
    signature_step_by_step(signer, readers, message, r, 1);
    assert(noted[1] == after[n + 1]);
    assert(card::taken_from::<R::Feed>(after[n + 1]));
    lemma_taken_is_opened::<R::Feed>(after[n + 1]);
    signature_step_by_step(signer, readers, message, r, 2);
    assert(noted[2] == after[n + 2]);
    assert(card::began_on_opened::<R::Feed>(after[n + 2]));
    signature_step_by_step(signer, readers, message, r, 3);
    assert(noted[3] == after[n + 3]);
    signature_step_by_step(signer, readers, message, r, 4);
    assert(noted[4] == after[n + 4]);
}

/// The readers can be enumerated, and whatever they give opens.
pub open spec fn readers_hold_a_card<R: CardReaders>() -> bool {
    &&& forall|machine: &mut R, reply: Result<R::Feed, SmartcardError>| #[trigger]
        call_ensures(R::enumerate, (machine,), reply) ==> reply is Ok
    &&& feeds_a_card::<R::Feed>()
}

/// Whatever a feed gives is a connection that opens.
pub open spec fn feeds_a_card<F: CardFeed>() -> bool {
    &&& forall|feed: &mut F, next: Option<Result<F::Source, SmartcardError>>| #[trigger]
        call_ensures(F::next_source, (feed,), next) ==> next is Some && next->Some_0 is Ok
    &&& forall|source: F::Source, reply: Result<F::Card, openpgp_card::Error>| #[trigger]
        call_ensures(<F::Source as CardSource>::open, (source,), reply) ==> reply is Ok
}

/// Cards give transactions.
pub open spec fn gives_transactions<'a, C: OpenCard + 'a>() -> bool {
    forall|card: &'a mut C, reply: Result<C::Transaction<'a>, openpgp_card::Error>| #[trigger]
        call_ensures(C::transaction, (card,), reply) ==> reply is Ok
}

/// Cards take this PIN for signing.
pub open spec fn takes_pin<T: TransactionCard>(user_pin: T::Pin) -> bool {
    forall|card: &mut T, presented: &T::Pin, reply: Result<(), openpgp_card::Error>| #[trigger]
        call_ensures(T::verify_user_signing_pin, (card, presented), reply) && *presented == user_pin
            ==> reply is Ok
}

/// Cards sign this message, put to them as it is, with this signature.
pub open spec fn signs<T: TransactionCard>(message: Seq<u8>, signature: Seq<u8>) -> bool {
    forall|card: &mut T, data: &[u8], reply: Result<Vec<u8>, openpgp_card::Error>| #[trigger]
        call_ensures(T::signature_for_hash, (card, SigningAlgo::Ecc, data), reply) && data@
            == message ==> reply is Ok && reply->Ok_0@ == signature
}

/// Cards tell this identity and this key.
pub open spec fn tells<T: TransactionCard>(manufacturer: u16, serial: u32, point: Seq<u8>) -> bool {
    &&& forall|card: &mut T, reply: Result<ApplicationIdentifier, openpgp_card::Error>| #[trigger]
        call_ensures(T::application_identifier, (card,), reply) ==> reply is Ok
            && reply::identity_of(reply->Ok_0) == (manufacturer, serial)
    &&& forall|card: &mut T, reply: Result<PublicKeyMaterial, openpgp_card::Error>| #[trigger]
        call_ensures(T::public_key_material, (card, KeySlot::Signing), reply) ==> reply is Ok
            && words::ed25519_point(reply::key_material_of(reply->Ok_0), point)
}

proof fn lemma_taken_is_opened<F: CardFeed>(entry: card::Exchange<card::PinOf<F::Card>>)
    requires
        card::taken_from::<F>(entry),
        feeds_a_card::<F>(),
    ensures
        entry == (card::Exchange::<card::PinOf<F::Card>>::Candidate {
            outcome: card::CandidateOutcome::Opened,
        }),
{
    let attempt = choose|attempt: card::Attempt<F>| #[trigger]
        card::made_by_feed(attempt) && entry == (card::Exchange::<
            card::PinOf<F::Card>,
        >::Candidate { outcome: attempt.tried.outcome() });
    assert(card::made_by_feed(attempt));
}

/// Where the readers hold a card that tells its identity and an Ed25519 key, a
/// signer can be made, and it holds that identity and that key.
pub proof fn signer_is_made_of_a_found_card<'a, P, R: CardReaders>(
    readers: &mut Readers<R>,
    user_pin: P,
    r: Result<YubiKeySigner<P>, YubiError>,
    manufacturer: u16,
    serial: u32,
    point: Seq<u8>,
) where R::Card: OpenCard<Pin = P> + 'a
    requires
        call_ensures(YubiKeySigner::<P>::new::<R>, (readers, user_pin), r),
        readers_hold_a_card::<R>(),
        gives_transactions::<'a, R::Card>(),
        tells::<<R::Card as OpenCard>::Transaction<'a>>(manufacturer, serial, point),
    ensures
        r is Ok,
        r->Ok_0@.public_key == point,
        r->Ok_0@.user_pin == user_pin,
        words::names_card(r->Ok_0@.card_serial, manufacturer, serial),
{
    let before = readers.exchanges();
    let after = final(readers).exchanges();
    let n = before.len() as int;
    let noted = card::since(before, after);
    assert(card::continues_readers::<R>(before, after));
    assert(noted.len() > 0);
    binding_step_by_step(readers, user_pin, r, 0);
    assert(noted[0] == after[n]);
    binding_step_by_step(readers, user_pin, r, 1);
    assert(noted[1] == after[n + 1]);
    assert(card::taken_from::<R::Feed>(after[n + 1]));
    lemma_taken_is_opened::<R::Feed>(after[n + 1]);
    binding_step_by_step(readers, user_pin, r, 2);
    assert(noted[2] == after[n + 2]);
    assert(card::began_on_opened::<R::Feed>(after[n + 2]));
    binding_step_by_step(readers, user_pin, r, 3);
    assert(noted[3] == after[n + 3]);
    binding_step_by_step(readers, user_pin, r, 4);
    assert(noted[4] == after[n + 4]);
}

/// A card was asked for the transaction of this entry.
pub open spec fn transaction_asked_of<'a, C: OpenCard + 'a>(
    card: C,
    entry: card::Exchange<C::Pin>,
) -> bool {
    entry matches card::Exchange::Begin { refusal } && exists|
        asked: &'a mut C,
        reply: Result<C::Transaction<'a>, openpgp_card::Error>,
    | #[trigger]
        call_ensures(C::transaction, (asked,), reply) && *asked == card && match reply {
            Ok(_) => refusal is None,
            Err(cause) => refusal == Some(cause),
        }
}

/// A transaction that is noted was asked of the first card that opened.
pub open spec fn asked_of_first_opened<F: CardFeed>(
    tried: Seq<card::Attempt<F>>,
    noted: Seq<card::Exchange<card::PinOf<F::Card>>>,
    i: int,
) -> bool {
    noted[i] is Begin ==> exists|k: int|
        {
            &&& 0 <= k < tried.len()
            &&& (#[trigger] tried[k]).tried is Opened
            &&& transaction_asked_of(tried[k].tried->card, noted[i])
            &&& forall|j: int| 0 <= j < k ==> !((#[trigger] tried[j]).tried is Opened)
        }
}

proof fn lemma_selected_is_first<F: CardFeed>(tried: Seq<card::Attempt<F>>) -> (k: int)
    requires
        discovery::selected(tried) is Some,
    ensures
        0 <= k < tried.len(),
        tried[k].tried is Opened,
        discovery::selected(tried) == Some(tried[k].tried->card),
        forall|j: int| 0 <= j < k ==> !((#[trigger] tried[j]).tried is Opened),
    decreases tried.len(),
{
    if tried[0].tried is Opened {
        0
    } else {
        let k = lemma_selected_is_first(tried.skip(1));
        assert(tried.skip(1)[k] == tried[k + 1]);
        assert forall|j: int| 0 <= j < k + 1 implies !((#[trigger] tried[j]).tried is Opened) by {
            if j > 0 {
                assert(tried.skip(1)[j - 1] == tried[j]);
            }
        }
        k + 1
    }
}

proof fn lemma_asked_of_first_opened<F: CardFeed>(
    tried: Seq<card::Attempt<F>>,
    noted: Seq<card::Exchange<card::PinOf<F::Card>>>,
    i: int,
)
    requires
        discovery::begun_on_selected::<F>(tried, noted),
        0 <= i < noted.len(),
    ensures
        asked_of_first_opened::<F>(tried, noted, i),
{
    if noted[i] is Begin {
        let k = lemma_selected_is_first(tried);
        let card = tried[k].tried->card;
        assert(card::began_on(card, noted[i]));
        assert(transaction_asked_of(card, noted[i]));
    }
}

/// A signature asks the first card that opened for its transaction, and no
/// other.
pub proof fn signature_is_asked_of_the_first_card<P, R: CardReaders>(
    signer: &mut YubiKeySigner<P>,
    readers: &mut Readers<R>,
    message: &[u8],
    r: Result<[u8; 64], YubiError>,
    i: int,
) where R::Card: OpenCard<Pin = P>
    requires
        call_ensures(YubiKeySigner::<P>::sign::<R>, (signer, readers, message), r),
        0 <= i < card::since(readers.exchanges(), final(readers).exchanges()).len(),
    ensures
        asked_of_first_opened::<R::Feed>(
            card::since(old(readers).attempts(), final(readers).attempts()),
            card::since(old(readers).exchanges(), final(readers).exchanges()),
            i,
        ),
{
    lemma_asked_of_first_opened::<R::Feed>(
        card::since(readers.attempts(), final(readers).attempts()),
        card::since(readers.exchanges(), final(readers).exchanges()),
        i,
    );
}

/// The making of a signer asks the first card that opened for its transaction,
/// and no other.
pub proof fn signer_is_made_of_the_first_card<P, R: CardReaders>(
    readers: &mut Readers<R>,
    user_pin: P,
    r: Result<YubiKeySigner<P>, YubiError>,
    i: int,
) where R::Card: OpenCard<Pin = P>
    requires
        call_ensures(YubiKeySigner::<P>::new::<R>, (readers, user_pin), r),
        0 <= i < card::since(readers.exchanges(), final(readers).exchanges()).len(),
    ensures
        asked_of_first_opened::<R::Feed>(
            card::since(old(readers).attempts(), final(readers).attempts()),
            card::since(old(readers).exchanges(), final(readers).exchanges()),
            i,
        ),
{
    lemma_asked_of_first_opened::<R::Feed>(
        card::since(readers.attempts(), final(readers).attempts()),
        card::since(readers.exchanges(), final(readers).exchanges()),
        i,
    );
}

/// The same of candidates, for a signature and for a new signer.
pub proof fn candidates_are_asked_of_the_first_card<P, F: CardFeed>(
    cards: &mut Candidates<F>,
    user_pin: &P,
    message: &[u8],
    r: Result<[u8; 64], YubiError>,
    others: &mut Candidates<F>,
    own_pin: P,
    signer: Result<YubiKeySigner<P>, YubiError>,
    i: int,
) where F::Card: OpenCard<Pin = P>
    requires
        call_ensures(YubiKeySigner::<P>::discover_and_sign::<F>, (cards, user_pin, message), r),
        call_ensures(YubiKeySigner::<P>::discover_and_construct::<F>, (others, own_pin), signer),
        0 <= i < card::since(cards.exchanges(), final(cards).exchanges()).len(),
        0 <= i < card::since(others.exchanges(), final(others).exchanges()).len(),
    ensures
        asked_of_first_opened::<F>(
            card::since(old(cards).attempts(), final(cards).attempts()),
            card::since(old(cards).exchanges(), final(cards).exchanges()),
            i,
        ),
        asked_of_first_opened::<F>(
            card::since(old(others).attempts(), final(others).attempts()),
            card::since(old(others).exchanges(), final(others).exchanges()),
            i,
        ),
{
    lemma_asked_of_first_opened::<F>(
        card::since(cards.attempts(), final(cards).attempts()),
        card::since(cards.exchanges(), final(cards).exchanges()),
        i,
    );
    lemma_asked_of_first_opened::<F>(
        card::since(others.attempts(), final(others).attempts()),
        card::since(others.exchanges(), final(others).exchanges()),
        i,
    );
}

} // verus!
