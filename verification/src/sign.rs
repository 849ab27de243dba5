//! Signing with the key in a card's Signature slot.
//!
//! A [`YubiKeySigner`] holds no connection to a card, only what was read when
//! it was made: the card's identity and its public key, and the User PIN to
//! present. Each signature looks for a card anew, presents the PIN anew, and
//! waits for a touch. So a signer can live as long as its process does while
//! the card comes and goes. Whether the card found is the one that the signer
//! was made with is for the caller to compare.
//!
//! The message goes to the card as it is: Ed25519 signs messages, not hashes.
//!
//! While a card waits for a touch it does not answer. So a touch that never
//! comes shows as a failed transmission and not as a status of the card, and
//! no failed transmission of a signature request can be told apart from it:
//! each of them is reported as
//! [`TouchTimeout`](crate::error::YubiError::TouchTimeout).

use vstd::prelude::*;
use vstd::string::*;

use crate::card;
use crate::card::{
    Candidates, CardFeed, CardReaders, KeySlot, OpenCard, OpenedCard, Readers, Session,
    SigningAlgo, TransactionCard,
};
use crate::discovery;
use crate::error;
use crate::error::YubiError;
use crate::pin;
use crate::pin::PinKind;
use crate::provision;
use crate::reply;
use crate::reply::{CardFailure, FailureKind, KeyMaterial};
use crate::text;

verus! {

/// The key in a Signature slot: its point, if it is an Ed25519 signing key.
pub open spec fn held_key(key: reply::KeyMaterialView) -> Result<Seq<u8>, error::YubiErrorView> {
    match key {
        reply::KeyMaterialView::Rsa { .. } => Err(
            error::YubiErrorView::Other(
                "Signature slot holds an RSA key, not Ed25519/EdDSA -- has `provision::generate_signature_key` been run against this card?"@,
            ),
        ),
        reply::KeyMaterialView::Ecc { point, algorithm, description } => {
            if !algorithm.is_ed25519() {
                Err(
                    error::YubiErrorView::Other(
                        "Signature slot holds a "@ + description
                            + " key, not Ed25519/EdDSA -- has `provision::generate_signature_key` been run against this card?"@,
                    ),
                )
            } else if point.len() != 32 {
                Err(
                    error::YubiErrorView::Other(
                        "Signature slot's public key point is "@ + text::decimal(point.len())
                            + " bytes, expected exactly 32 (Ed25519)"@,
                    ),
                )
            } else {
                Ok(point)
            }
        },
    }
}

/// Accepts the key in a Signature slot if it is an Ed25519 signing key.
pub fn accept_held_key(key: KeyMaterial) -> (r: Result<[u8; 32], YubiError>)
    ensures
        error::outcome(r) == held_key(key@),
{
    match key {
        KeyMaterial::Rsa { .. } => Err(
            YubiError::Other(
                String::from_str(
                    "Signature slot holds an RSA key, not Ed25519/EdDSA -- has `provision::generate_signature_key` been run against this card?",
                ),
            ),
        ),
        KeyMaterial::Ecc { point, algorithm, description } => {
            if !algorithm.is_ed25519() {
                return Err(
                    YubiError::Other(
                        String::from_str("Signature slot holds a ").concat(
                            description.as_str(),
                        ).concat(
                            " key, not Ed25519/EdDSA -- has `provision::generate_signature_key` been run against this card?",
                        ),
                    ),
                );
            }
            match provision::key_point(&point) {
                Some(bytes) => Ok(bytes),
                None => {
                    let mut message = String::from_str("Signature slot's public key point is ");
                    text::push_decimal(&mut message, point.len());
                    message.append(" bytes, expected exactly 32 (Ed25519)");
                    Err(YubiError::Other(message))
                },
            }
        },
    }
}

/// The outcome of reading the key in the Signature slot.
pub open spec fn held_key_outcome(
    answer: Result<openpgp_card::ocard::crypto::PublicKeyMaterial, openpgp_card::Error>,
) -> Result<Seq<u8>, error::YubiErrorView> {
    match answer {
        Ok(material) => held_key(reply::key_material_of(material)),
        Err(cause) => Err(error::general_error(reply::failure_of(cause))),
    }
}

/// Reads the public key in the Signature slot. No PIN is needed for that.
pub fn read_signature_public_key<T: TransactionCard>(tx: &mut Session<T>) -> (r: Result<
    [u8; 32],
    YubiError,
>)
    ensures
        card::continues::<T>(old(tx).exchanges(), final(tx).exchanges()),
        final(tx).exchanges().len() == old(tx).exchanges().len() + 1,
        final(tx).exchanges().last() matches card::Exchange::PublicKey { slot, reply: answer }
            && slot is Signing && error::outcome(r) == held_key_outcome(answer),
{
    match tx.public_key_material(KeySlot::Signing) {
        Ok(material) => accept_held_key(KeyMaterial::of(&material)),
        Err(cause) => Err(YubiError::from(cause)),
    }
}

/// The error for a User PIN that was not taken: that the PIN is blocked is
/// told with what helps a User PIN.
pub open spec fn signing_pin_error(failure: reply::CardFailureView) -> error::YubiErrorView {
    if failure.kind is AuthenticationMethodBlocked {
        pin::PinKind::User.blocked()
    } else {
        error::general_error(failure)
    }
}

/// The error for a User PIN that was not taken.
pub fn map_signing_pin_failure(failure: CardFailure) -> (err: YubiError)
    ensures
        err@ == signing_pin_error(failure@),
{
    match failure.kind {
        FailureKind::AuthenticationMethodBlocked => PinKind::User.blocked_error(),
        _ => YubiError::from_failure(failure),
    }
}

/// The error for a User PIN that was not taken.
pub fn map_signing_pin_error(err: openpgp_card::Error) -> (mapped: YubiError)
    ensures
        mapped@ == signing_pin_error(reply::failure_of(err)),
{
    map_signing_pin_failure(CardFailure::of(&err))
}

/// The error for a signature request that failed: a failed transmission is
/// taken for a touch that never came.
pub open spec fn sign_error(failure: reply::CardFailureView) -> error::YubiErrorView {
    if failure.kind is Smartcard {
        error::YubiErrorView::TouchTimeout
    } else {
        error::general_error(failure)
    }
}

/// The error for a signature request that failed.
pub fn map_sign_failure(failure: CardFailure) -> (err: YubiError)
    ensures
        err@ == sign_error(failure@),
{
    match failure.kind {
        FailureKind::Smartcard => YubiError::TouchTimeout,
        _ => YubiError::from_failure(failure),
    }
}

/// The error for a signature request that failed.
pub fn map_sign_error(err: openpgp_card::Error) -> (mapped: YubiError)
    ensures
        mapped@ == sign_error(reply::failure_of(err)),
{
    map_sign_failure(CardFailure::of(&err))
}

/// What a card answered as a signature: an Ed25519 signature has 64 bytes.
pub open spec fn received_signature(bytes: Seq<u8>) -> Result<Seq<u8>, error::YubiErrorView> {
    if bytes.len() == 64 {
        Ok(bytes)
    } else {
        Err(
            error::YubiErrorView::Other(
                "card returned a "@ + text::decimal(bytes.len())
                    + "-byte signature, expected exactly 64 (Ed25519)"@,
            ),
        )
    }
}

/// Accepts what a card answered as a signature if it has the right length.
pub fn accept_signature(signature: Vec<u8>) -> (r: Result<[u8; 64], YubiError>)
    ensures
        error::outcome(r) == received_signature(signature@),
{
    if signature.len() != 64 {
        let mut message = String::from_str("card returned a ");
        text::push_decimal(&mut message, signature.len());
        message.append("-byte signature, expected exactly 64 (Ed25519)");
        return Err(YubiError::Other(message));
    }
    let mut bytes: [u8; 64] = [0u8; 64];
    let mut i: usize = 0;
    while i < 64
        invariant
            i <= 64,
            signature@.len() == 64,
            forall|j: int| 0 <= j < i ==> bytes@[j] == signature@[j],
        decreases 64 - i,
    {
        bytes[i] = signature[i];
        i += 1;
    }
    assert(bytes@ =~= signature@);
    Ok(bytes)
}

/// What a signature asks of a card in a transaction, and what comes of it: the
/// PIN is presented; if it is taken, the message is put to the card, as it is.
/// `asked` is all that was asked.
pub open spec fn signing_run<P>(
    asked: Seq<card::Exchange<P>>,
    user_pin: P,
    message: Seq<u8>,
    outcome: Result<Seq<u8>, error::YubiErrorView>,
) -> bool {
    &&& asked.len() >= 1
    &&& asked[0] matches card::Exchange::VerifyUserSigningPin { pin: presented, reply: verified }
    &&& presented == user_pin
    &&& match verified {
        Err(cause) => {
            &&& asked.len() == 1
            &&& outcome == Err::<Seq<u8>, _>(signing_pin_error(reply::failure_of(cause)))
        },
        Ok(()) => {
            &&& asked.len() == 2
            &&& asked[1] matches card::Exchange::Sign { algo, data, reply: signed }
            &&& algo is Ecc
            &&& data == message
            &&& match signed {
                Err(cause) => outcome == Err::<Seq<u8>, _>(sign_error(reply::failure_of(cause))),
                Ok(bytes) => outcome == received_signature(bytes),
            }
        },
    }
}

/// A signature on a card that is open: a transaction is started, and if it is,
/// the run takes place in it.
pub open spec fn signing_attempt<P>(
    noted: Seq<card::Exchange<P>>,
    user_pin: P,
    message: Seq<u8>,
    outcome: Result<Seq<u8>, error::YubiErrorView>,
) -> bool {
    &&& noted.len() >= 1
    &&& noted[0] matches card::Exchange::Begin { refusal }
    &&& match refusal {
        Some(cause) => {
            &&& noted.len() == 1
            &&& outcome == Err::<Seq<u8>, _>(error::general_error(reply::failure_of(cause)))
        },
        None => signing_run(noted.skip(1), user_pin, message, outcome),
    }
}

/// What a new signer asks of a card in a transaction, and what comes of it:
/// the card's identity and the key in its Signature slot.
pub open spec fn binding_run<P>(
    asked: Seq<card::Exchange<P>>,
    user_pin: P,
    outcome: Result<SignerView<P>, error::YubiErrorView>,
) -> bool {
    &&& asked.len() >= 1
    &&& asked[0] matches card::Exchange::Identity { reply: identity }
    &&& match discovery::serial_outcome(identity) {
        Err(err) => asked.len() == 1 && outcome == Err::<SignerView<P>, _>(err),
        Ok(card_serial) => {
            &&& asked.len() == 2
            &&& asked[1] matches card::Exchange::PublicKey { slot, reply: key }
            &&& slot is Signing
            &&& match held_key_outcome(key) {
                Err(err) => outcome == Err::<SignerView<P>, _>(err),
                Ok(public_key) => outcome == Ok::<_, error::YubiErrorView>(
                    SignerView { card_serial, public_key, user_pin },
                ),
            }
        },
    }
}

/// A new signer on a card that is open.
pub open spec fn binding_attempt<P>(
    noted: Seq<card::Exchange<P>>,
    user_pin: P,
    outcome: Result<SignerView<P>, error::YubiErrorView>,
) -> bool {
    &&& noted.len() >= 1
    &&& noted[0] matches card::Exchange::Begin { refusal }
    &&& match refusal {
        Some(cause) => {
            &&& noted.len() == 1
            &&& outcome == Err::<SignerView<P>, _>(error::general_error(reply::failure_of(cause)))
        },
        None => binding_run(noted.skip(1), user_pin, outcome),
    }
}

/// A signature on the first usable card of candidates: they are searched, and
/// if a card is found, the attempt takes place on it.
pub open spec fn signing_search<P>(
    noted: Seq<card::Exchange<P>>,
    user_pin: P,
    message: Seq<u8>,
    outcome: Result<Seq<u8>, error::YubiErrorView>,
) -> bool {
    ||| discovery::search_failed(noted) && outcome == Err::<Seq<u8>, _>(
        discovery::no_card_error(),
    )
    ||| exists|at: int|
        {
            &&& 0 <= at <= noted.len()
            &&& discovery::search_found(#[trigger] noted.take(at))
            &&& signing_attempt(noted.skip(at), user_pin, message, outcome)
        }
}

/// A signature on the first usable card in the readers: they are enumerated
/// and searched, and if a card is found, the attempt takes place on it.
pub open spec fn signing_call<P>(
    noted: Seq<card::Exchange<P>>,
    user_pin: P,
    message: Seq<u8>,
    outcome: Result<Seq<u8>, error::YubiErrorView>,
) -> bool {
    ||| outcome is Err && discovery::lookup_failed(noted, outcome->Err_0)
    ||| exists|at: int|
        {
            &&& 0 <= at <= noted.len()
            &&& discovery::lookup_found(#[trigger] noted.take(at))
            &&& signing_attempt(noted.skip(at), user_pin, message, outcome)
        }
}

/// A new signer on the first usable card of candidates.
pub open spec fn binding_search<P>(
    noted: Seq<card::Exchange<P>>,
    user_pin: P,
    outcome: Result<SignerView<P>, error::YubiErrorView>,
) -> bool {
    ||| discovery::search_failed(noted) && outcome == Err::<SignerView<P>, _>(
        discovery::no_card_error(),
    )
    ||| exists|at: int|
        {
            &&& 0 <= at <= noted.len()
            &&& discovery::search_found(#[trigger] noted.take(at))
            &&& binding_attempt(noted.skip(at), user_pin, outcome)
        }
}

/// A new signer on the first usable card in the readers.
pub open spec fn binding_call<P>(
    noted: Seq<card::Exchange<P>>,
    user_pin: P,
    outcome: Result<SignerView<P>, error::YubiErrorView>,
) -> bool {
    ||| outcome is Err && discovery::lookup_failed(noted, outcome->Err_0)
    ||| exists|at: int|
        {
            &&& 0 <= at <= noted.len()
            &&& discovery::lookup_found(#[trigger] noted.take(at))
            &&& binding_attempt(noted.skip(at), user_pin, outcome)
        }
}

/// Signs with the key in a card's Signature slot. `P` is what holds the PIN;
/// for its `Debug` output to be safe to print, that of `P` must be.
#[derive(Debug)]
pub struct YubiKeySigner<P> {
    card_serial: String,
    public_key: [u8; 32],
    user_pin: P,
}

/// A `YubiKeySigner` by its views.
pub struct SignerView<P> {
    pub card_serial: Seq<char>,
    pub public_key: Seq<u8>,
    pub user_pin: P,
}

impl<P> View for YubiKeySigner<P> {
    type V = SignerView<P>;

    closed spec fn view(&self) -> SignerView<P> {
        SignerView {
            card_serial: self.card_serial@,
            public_key: self.public_key@,
            user_pin: self.user_pin,
        }
    }
}

impl<P> YubiKeySigner<P> {
    /// A signer for the first usable card in the readers. The PIN is kept and
    /// presented with each signature; a wrong one shows only then.
    pub fn new<R: CardReaders>(readers: &mut Readers<R>, user_pin: P) -> (r: Result<
        YubiKeySigner<P>,
        YubiError,
    >) where R::Card: OpenCard<Pin = P>
        ensures
            card::continues_readers::<R>(old(readers).exchanges(), final(readers).exchanges()),
            discovery::begun_on_selected::<R::Feed>(
                card::since(old(readers).attempts(), final(readers).attempts()),
                card::since(old(readers).exchanges(), final(readers).exchanges()),
            ),
            binding_call(
                card::since(old(readers).exchanges(), final(readers).exchanges()),
                user_pin,
                error::outcome(r),
            ),
    {
        let ghost before = readers.exchanges();
        let ghost start = readers.attempts();
        let mut card = match discovery::discover_real_card(readers) {
            Ok(card) => card,
            Err(err) => {
                proof {
                    lemma_lookup_begins_nothing(card::since(before, readers.exchanges()), err@);
                }
                return Err(err);
            },
        };
        let ghost opened = card.held();
        let ghost found = card::since(before, readers.exchanges());
        let r = Self::from_open_card(&mut card, user_pin);
        let ghost asked = card.exchanges();
        readers.note(card.finish());
        proof {
            let noted = card::since(before, readers.exchanges());
            assert(noted.take(found.len() as int) =~= found);
            assert(noted.skip(found.len() as int) =~= asked);
            assert(noted =~= found + asked);
            lemma_lookup_begins_nothing(found, discovery::no_card_error());
            lemma_binding_begins_once(asked, user_pin, error::outcome(r));
            lemma_begun_on_selected::<R::Feed>(card::since(start, readers.attempts()), found, asked, opened);
        }
        r
    }

    /// A signer for the card in a transaction.
    pub fn bind<T: TransactionCard<Pin = P>>(tx: &mut Session<T>, user_pin: P) -> (r: Result<
        YubiKeySigner<P>,
        YubiError,
    >)
        ensures
            card::continues::<T>(old(tx).exchanges(), final(tx).exchanges()),
            binding_run(
                card::since(old(tx).exchanges(), final(tx).exchanges()),
                user_pin,
                error::outcome(r),
            ),
    {
        let card_serial = match discovery::read_serial(tx) {
            Ok(card_serial) => card_serial,
            Err(err) => return Err(err),
        };
        let public_key = match read_signature_public_key(tx) {
            Ok(public_key) => public_key,
            Err(err) => return Err(err),
        };
        Ok(YubiKeySigner { card_serial, public_key, user_pin })
    }

    /// A signer for an open card.
    pub fn from_open_card<C: OpenCard<Pin = P>>(card: &mut OpenedCard<C>, user_pin: P) -> (r:
        Result<YubiKeySigner<P>, YubiError>)
        ensures
            card::continues_open::<C>(old(card).exchanges(), final(card).exchanges()),
            card::began_on(
                old(card).held(),
                card::since(old(card).exchanges(), final(card).exchanges())[0],
            ),
            binding_attempt(
                card::since(old(card).exchanges(), final(card).exchanges()),
                user_pin,
                error::outcome(r),
            ),
    {
        let mut tx = match card.begin() {
            Ok(tx) => tx,
            Err(err) => return Err(err),
        };
        let r = Self::bind(&mut tx, user_pin);
        let journal = tx.finish();
        card.note(journal);
        r
    }

    /// A signer for the first usable card among `cards`.
    pub fn discover_and_construct<F: CardFeed>(cards: &mut Candidates<F>, user_pin: P) -> (r:
        Result<YubiKeySigner<P>, YubiError>) where F::Card: OpenCard<Pin = P>
        ensures
            card::continues_candidates::<F>(old(cards).exchanges(), final(cards).exchanges()),
            discovery::begun_on_selected::<F>(
                card::since(old(cards).attempts(), final(cards).attempts()),
                card::since(old(cards).exchanges(), final(cards).exchanges()),
            ),
            binding_search(
                card::since(old(cards).exchanges(), final(cards).exchanges()),
                user_pin,
                error::outcome(r),
            ),
    {
        let ghost before = cards.exchanges();
        let ghost start = cards.attempts();
        let mut card = match discovery::discover_card_from(cards) {
            Ok(card) => card,
            Err(err) => {
                proof {
                    lemma_search_begins_nothing(card::since(before, cards.exchanges()));
                }
                return Err(err);
            },
        };
        let ghost opened = card.held();
        let ghost found = card::since(before, cards.exchanges());
        let r = Self::from_open_card(&mut card, user_pin);
        let ghost asked = card.exchanges();
        cards.note(card.finish());
        proof {
            let noted = card::since(before, cards.exchanges());
            assert(noted.take(found.len() as int) =~= found);
            assert(noted.skip(found.len() as int) =~= asked);
            assert(noted =~= found + asked);
            lemma_search_begins_nothing(found);
            lemma_binding_begins_once(asked, user_pin, error::outcome(r));
            lemma_begun_on_selected::<F>(card::since(start, cards.attempts()), found, asked, opened);
        }
        r
    }

    /// The public key in the card's Signature slot when the signer was made.
    pub fn public_key(&self) -> (key: [u8; 32])
        ensures
            key@ == self@.public_key,
    {
        self.public_key
    }

    /// Which card the signer was made for, as `MMMM:SSSSSSSS`.
    pub fn card_serial(&self) -> (serial: &str)
        ensures
            serial@ == self@.card_serial,
    {
        self.card_serial.as_str()
    }

    /// Signs `message` with the first usable card in the readers. They are
    /// enumerated anew, the PIN is presented anew and the card waits for a
    /// touch, every time.
    pub fn sign<R: CardReaders>(&mut self, readers: &mut Readers<R>, message: &[u8]) -> (r: Result<
        [u8; 64],
        YubiError,
    >) where R::Card: OpenCard<Pin = P>
        ensures
            *final(self) == *old(self),
            card::continues_readers::<R>(old(readers).exchanges(), final(readers).exchanges()),
            discovery::begun_on_selected::<R::Feed>(
                card::since(old(readers).attempts(), final(readers).attempts()),
                card::since(old(readers).exchanges(), final(readers).exchanges()),
            ),
            signing_call(
                card::since(old(readers).exchanges(), final(readers).exchanges()),
                old(self)@.user_pin,
                message@,
                error::outcome(r),
            ),
    {
        let ghost before = readers.exchanges();
        let ghost start = readers.attempts();
        let mut card = match discovery::discover_real_card(readers) {
            Ok(card) => card,
            Err(err) => {
                proof {
                    lemma_lookup_begins_nothing(card::since(before, readers.exchanges()), err@);
                }
                return Err(err);
            },
        };
        let ghost opened = card.held();
        let ghost found = card::since(before, readers.exchanges());
        let r = Self::sign_with_open_card(&mut card, &self.user_pin, message);
        let ghost asked = card.exchanges();
        readers.note(card.finish());
        proof {
            let noted = card::since(before, readers.exchanges());
            assert(noted.take(found.len() as int) =~= found);
            assert(noted.skip(found.len() as int) =~= asked);
            assert(noted =~= found + asked);
            lemma_lookup_begins_nothing(found, discovery::no_card_error());
            lemma_signing_begins_once(asked, self.user_pin, message@, error::outcome(r));
            lemma_begun_on_selected::<R::Feed>(card::since(start, readers.attempts()), found, asked, opened);
        }
        r
    }

    /// Signs `message` with the card in a transaction.
    pub fn sign_in_transaction<T: TransactionCard<Pin = P>>(
        tx: &mut Session<T>,
        user_pin: &P,
        message: &[u8],
    ) -> (r: Result<[u8; 64], YubiError>)
        ensures
            card::continues::<T>(old(tx).exchanges(), final(tx).exchanges()),
            signing_run(
                card::since(old(tx).exchanges(), final(tx).exchanges()),
                *user_pin,
                message@,
                error::outcome(r),
            ),
    {
        match tx.verify_user_signing_pin(user_pin) {
            Err(cause) => return Err(map_signing_pin_error(cause)),
            Ok(()) => {},
        }
        match tx.signature_for_hash(SigningAlgo::Ecc, message) {
            Err(cause) => Err(map_sign_error(cause)),
            Ok(signature) => accept_signature(signature),
        }
    }

    /// Signs `message` with an open card.
    pub fn sign_with_open_card<C: OpenCard<Pin = P>>(
        card: &mut OpenedCard<C>,
        user_pin: &P,
        message: &[u8],
    ) -> (r: Result<[u8; 64], YubiError>)
        ensures
            card::continues_open::<C>(old(card).exchanges(), final(card).exchanges()),
            card::began_on(
                old(card).held(),
                card::since(old(card).exchanges(), final(card).exchanges())[0],
            ),
            signing_attempt(
                card::since(old(card).exchanges(), final(card).exchanges()),
                *user_pin,
                message@,
                error::outcome(r),
            ),
    {
        let mut tx = match card.begin() {
            Ok(tx) => tx,
            Err(err) => return Err(err),
        };
        let r = Self::sign_in_transaction(&mut tx, user_pin, message);
        let journal = tx.finish();
        card.note(journal);
        r
    }

    /// Signs `message` with the first usable card among `cards`.
    pub fn discover_and_sign<F: CardFeed>(
        cards: &mut Candidates<F>,
        user_pin: &P,
        message: &[u8],
    ) -> (r: Result<[u8; 64], YubiError>) where F::Card: OpenCard<Pin = P>
        ensures
            card::continues_candidates::<F>(old(cards).exchanges(), final(cards).exchanges()),
            discovery::begun_on_selected::<F>(
                card::since(old(cards).attempts(), final(cards).attempts()),
                card::since(old(cards).exchanges(), final(cards).exchanges()),
            ),
            signing_search(
                card::since(old(cards).exchanges(), final(cards).exchanges()),
                *user_pin,
                message@,
                error::outcome(r),
            ),
    {
        let ghost before = cards.exchanges();
        let ghost start = cards.attempts();
        let mut card = match discovery::discover_card_from(cards) {
            Ok(card) => card,
            Err(err) => {
                proof {
                    lemma_search_begins_nothing(card::since(before, cards.exchanges()));
                }
                return Err(err);
            },
        };
        let ghost opened = card.held();
        let ghost found = card::since(before, cards.exchanges());
        let r = Self::sign_with_open_card(&mut card, user_pin, message);
        let ghost asked = card.exchanges();
        cards.note(card.finish());
        proof {
            let noted = card::since(before, cards.exchanges());
            assert(noted.take(found.len() as int) =~= found);
            assert(noted.skip(found.len() as int) =~= asked);
            assert(noted =~= found + asked);
            lemma_search_begins_nothing(found);
            lemma_signing_begins_once(asked, *user_pin, message@, error::outcome(r));
            lemma_begun_on_selected::<F>(card::since(start, cards.attempts()), found, asked, opened);
        }
        r
    }
}

/// A card is asked for a signature only after it took the PIN, in the same
/// transaction, and only for a signature of the message.
pub proof fn no_signature_without_pin<P>(
    asked: Seq<card::Exchange<P>>,
    user_pin: P,
    message: Seq<u8>,
    outcome: Result<Seq<u8>, error::YubiErrorView>,
    i: int,
)
    requires
        signing_run(asked, user_pin, message, outcome),
        0 <= i < asked.len(),
        asked[i] is Sign,
    ensures
        i == 1,
        asked[0] matches card::Exchange::VerifyUserSigningPin { pin: presented, reply: verified }
            && presented == user_pin && verified is Ok,
        asked[i]->Sign_data == message,
{
}

/// A signature presents the PIN once at most: a rejected PIN is not tried
/// again, and nothing is asked of the card after it.
pub proof fn pin_is_presented_once<P>(
    noted: Seq<card::Exchange<P>>,
    user_pin: P,
    message: Seq<u8>,
    outcome: Result<Seq<u8>, error::YubiErrorView>,
    i: int,
)
    requires
        signing_attempt(noted, user_pin, message, outcome),
        0 <= i < noted.len(),
    ensures
        noted.len() <= 3,
        noted[i] is VerifyUserSigningPin ==> i == 1,
        !(noted[i] is VerifyUserPin) && !(noted[i] is VerifyAdminPin),
        noted.len() >= 2 && noted[1]->VerifyUserSigningPin_reply is Err ==> noted.len() == 2,
{
    if noted.len() > 1 {
        assert(noted[1] == noted.skip(1)[0]);
    }
    if noted.len() > 2 {
        assert(noted[2] == noted.skip(1)[1]);
    }
}

proof fn lemma_search_begins_nothing<P>(taken: Seq<card::Exchange<P>>)
    requires
        discovery::search_found(taken) || discovery::search_failed(taken),
    ensures
        forall|i: int| 0 <= i < taken.len() ==> !((#[trigger] taken[i]) is Begin),
{
    assert forall|i: int| 0 <= i < taken.len() implies !((#[trigger] taken[i]) is Begin) by {
        lemma_search_asks_no_card(taken, i);
    }
}

proof fn lemma_lookup_begins_nothing<P>(
    noted: Seq<card::Exchange<P>>,
    err: error::YubiErrorView,
)
    requires
        discovery::lookup_found(noted) || discovery::lookup_failed(noted, err),
    ensures
        forall|i: int| 0 <= i < noted.len() ==> !((#[trigger] noted[i]) is Begin),
{
    assert forall|i: int| 0 <= i < noted.len() implies !((#[trigger] noted[i]) is Begin) by {
        lemma_lookup_asks_no_card(noted, err, i);
    }
}

proof fn lemma_signing_begins_once<P>(
    noted: Seq<card::Exchange<P>>,
    user_pin: P,
    message: Seq<u8>,
    outcome: Result<Seq<u8>, error::YubiErrorView>,
)
    requires
        signing_attempt(noted, user_pin, message, outcome),
    ensures
        forall|i: int| 0 < i < noted.len() ==> !((#[trigger] noted[i]) is Begin),
{
    assert forall|i: int| 0 < i < noted.len() implies !((#[trigger] noted[i]) is Begin) by {
        assert(noted[i] == noted.skip(1)[i - 1]);
    }
}

proof fn lemma_binding_begins_once<P>(
    noted: Seq<card::Exchange<P>>,
    user_pin: P,
    outcome: Result<SignerView<P>, error::YubiErrorView>,
)
    requires
        binding_attempt(noted, user_pin, outcome),
    ensures
        forall|i: int| 0 < i < noted.len() ==> !((#[trigger] noted[i]) is Begin),
{
    assert forall|i: int| 0 < i < noted.len() implies !((#[trigger] noted[i]) is Begin) by {
        assert(noted[i] == noted.skip(1)[i - 1]);
    }
}

/// After a search without transactions, the one transaction is on the card that
/// the search selected.
proof fn lemma_begun_on_selected<F: CardFeed>(
    attempts: Seq<card::Attempt<F>>,
    found: Seq<card::Exchange<card::PinOf<F::Card>>>,
    asked: Seq<card::Exchange<card::PinOf<F::Card>>>,
    opened: F::Card,
)
    requires
        discovery::selected(attempts) == Some(opened),
        forall|i: int| 0 <= i < found.len() ==> !((#[trigger] found[i]) is Begin),
        forall|i: int| 0 < i < asked.len() ==> !((#[trigger] asked[i]) is Begin),
        asked.len() > 0 ==> card::began_on(opened, asked[0]),
    ensures
        discovery::begun_on_selected::<F>(attempts, found + asked),
{
    let noted = found + asked;
    assert forall|i: int| 0 <= i < noted.len() && #[trigger] noted[i] is Begin implies (
    discovery::selected(attempts) matches Some(card) && card::began_on(card, noted[i])) by {
        if i < found.len() {
            assert(noted[i] == found[i]);
        } else {
            assert(noted[i] == asked[i - found.len()]);
        }
    }
}

proof fn lemma_search_asks_no_card<P>(taken: Seq<card::Exchange<P>>, i: int)
    requires
        discovery::search_found(taken) || discovery::search_failed(taken),
        0 <= i < taken.len(),
    ensures
        taken[i] is Candidate,
{
    if i < taken.len() - 1 {
        assert(taken.drop_last()[i] == taken[i]);
    }
}

proof fn lemma_lookup_asks_no_card<P>(
    noted: Seq<card::Exchange<P>>,
    err: error::YubiErrorView,
    i: int,
)
    requires
        discovery::lookup_found(noted) || discovery::lookup_failed(noted, err),
        0 <= i < noted.len(),
    ensures
        noted[i] is Enumerate || noted[i] is Candidate,
{
    if i > 0 {
        assert(noted[i] == noted.skip(1)[i - 1]);
        lemma_search_asks_no_card(noted.skip(1), i - 1);
    }
}

/// A signature comes only from a card that was found, took the PIN and then
/// signed the message; it is what the card answered, and 64 bytes long. The
/// readers were enumerated and the PIN was presented for this very signature.
pub proof fn signature_is_the_cards<P>(
    noted: Seq<card::Exchange<P>>,
    user_pin: P,
    message: Seq<u8>,
    signature: Seq<u8>,
)
    requires
        signing_call(noted, user_pin, message, Ok(signature)),
    ensures
        noted.len() > 3,
        discovery::lookup_found(noted.take(noted.len() - 3)),
        noted[noted.len() - 3] is Begin,
        noted[noted.len() - 2] matches card::Exchange::VerifyUserSigningPin {
            pin: presented,
            reply: verified,
        } && presented == user_pin && verified is Ok,
        noted.last() == (card::Exchange::<P>::Sign {
            algo: card::SigningAlgo::Ecc,
            data: message,
            reply: Ok(signature),
        }),
        signature.len() == 64,
{
    let at = choose|at: int|
        {
            &&& 0 <= at <= noted.len()
            &&& discovery::lookup_found(#[trigger] noted.take(at))
            &&& signing_attempt(noted.skip(at), user_pin, message, Ok(signature))
        };
    let asked = noted.skip(at);
    assert(asked[1] == asked.skip(1)[0]);
    assert(asked[2] == asked.skip(1)[1]);
    assert(noted[at] == asked[0] && noted[at + 1] == asked[1] && noted[at + 2] == asked[2]);
}

/// A signature presents one PIN, once at most, and asks for one signature at
/// most: nothing is tried again, on no card.
pub proof fn nothing_is_tried_again<P>(
    noted: Seq<card::Exchange<P>>,
    user_pin: P,
    message: Seq<u8>,
    outcome: Result<Seq<u8>, error::YubiErrorView>,
    i: int,
    j: int,
)
    requires
        signing_call(noted, user_pin, message, outcome),
        0 <= i < noted.len(),
        0 <= j < noted.len(),
    ensures
        !(noted[i] is VerifyUserPin) && !(noted[i] is VerifyAdminPin),
        noted[i] is Begin && noted[j] is Begin ==> i == j,
        noted[i] is VerifyUserSigningPin && noted[j] is VerifyUserSigningPin ==> i == j,
        noted[i] is Sign && noted[j] is Sign ==> i == j,
{
    if outcome is Err && discovery::lookup_failed(noted, outcome->Err_0) {
        lemma_lookup_asks_no_card(noted, outcome->Err_0, i);
        lemma_lookup_asks_no_card(noted, outcome->Err_0, j);
    } else {
        let at = choose|at: int|
            {
                &&& 0 <= at <= noted.len()
                &&& discovery::lookup_found(#[trigger] noted.take(at))
                &&& signing_attempt(noted.skip(at), user_pin, message, outcome)
            };
        let found = noted.take(at);
        let asked = noted.skip(at);
        if i < at {
            assert(noted[i] == found[i]);
            lemma_lookup_asks_no_card(found, discovery::no_card_error(), i);
        } else {
            assert(noted[i] == asked[i - at]);
            pin_is_presented_once(asked, user_pin, message, outcome, i - at);
            if i > at {
                assert(asked[i - at] == asked.skip(1)[i - at - 1]);
            }
        }
        if j < at {
            assert(noted[j] == found[j]);
            lemma_lookup_asks_no_card(found, discovery::no_card_error(), j);
        } else {
            assert(noted[j] == asked[j - at]);
            pin_is_presented_once(asked, user_pin, message, outcome, j - at);
            if j > at {
                assert(asked[j - at] == asked.skip(1)[j - at - 1]);
            }
        }
    }
}

/// A missing touch is reported exactly if it was a signature request that
/// could not be transmitted; no such failure at another step is taken for it.
pub proof fn touch_timeout_comes_from_signing<P>(
    noted: Seq<card::Exchange<P>>,
    user_pin: P,
    message: Seq<u8>,
    outcome: Result<Seq<u8>, error::YubiErrorView>,
)
    requires
        signing_attempt(noted, user_pin, message, outcome),
    ensures
        (outcome matches Err(err) && err is TouchTimeout) <==> {
            &&& noted.len() == 3
            &&& noted[2]->Sign_reply matches Err(cause)
            &&& reply::failure_of(cause).kind is Smartcard
        },
{
    if noted.len() > 2 {
        assert(noted[2] == noted.skip(1)[1]);
    }
}

/// That there is no card is reported only if none was found, and then no card
/// was asked anything.
pub proof fn card_not_found_comes_from_discovery<P>(
    noted: Seq<card::Exchange<P>>,
    user_pin: P,
    message: Seq<u8>,
    err: error::YubiErrorView,
    i: int,
)
    requires
        signing_call(noted, user_pin, message, Err(err)),
        err is CardNotFound,
        0 <= i < noted.len(),
    ensures
        discovery::lookup_failed(noted, err),
        noted[i] is Enumerate || noted[i] is Candidate,
{
    lemma_lookup_asks_no_card(noted, err, i);
}

/// Making a signer presents no PIN, on no card, and asks for no signature.
pub proof fn binding_presents_no_pin<P>(
    noted: Seq<card::Exchange<P>>,
    user_pin: P,
    outcome: Result<SignerView<P>, error::YubiErrorView>,
    i: int,
)
    requires
        binding_call(noted, user_pin, outcome) || binding_search(noted, user_pin, outcome)
            || binding_attempt(noted, user_pin, outcome),
        0 <= i < noted.len(),
    ensures
        !(noted[i] is VerifyUserPin),
        !(noted[i] is VerifyAdminPin),
        !(noted[i] is VerifyUserSigningPin),
        !(noted[i] is Sign),
{
    if binding_attempt(noted, user_pin, outcome) {
        lemma_attempt_presents_no_pin(noted, user_pin, outcome, i);
    } else if discovery::search_failed(noted) {
        lemma_search_asks_no_card(noted, i);
    } else if outcome is Err && discovery::lookup_failed(noted, outcome->Err_0) {
        lemma_lookup_asks_no_card(noted, outcome->Err_0, i);
    } else {
        let at = choose|at: int|
            {
                &&& 0 <= at <= noted.len()
                &&& discovery::lookup_found(#[trigger] noted.take(at)) || discovery::search_found(
                    noted.take(at),
                )
                &&& binding_attempt(noted.skip(at), user_pin, outcome)
            };
        let found = noted.take(at);
        if i >= at {
            assert(noted[i] == noted.skip(at)[i - at]);
            lemma_attempt_presents_no_pin(noted.skip(at), user_pin, outcome, i - at);
        } else if discovery::lookup_found(found) {
            assert(noted[i] == found[i]);
            lemma_lookup_asks_no_card(found, discovery::no_card_error(), i);
        } else {
            assert(noted[i] == found[i]);
            lemma_search_asks_no_card(found, i);
        }
    }
}

proof fn lemma_attempt_presents_no_pin<P>(
    noted: Seq<card::Exchange<P>>,
    user_pin: P,
    outcome: Result<SignerView<P>, error::YubiErrorView>,
    i: int,
)
    requires
        binding_attempt(noted, user_pin, outcome),
        0 <= i < noted.len(),
    ensures
        noted[i] is Begin || noted[i] is Identity || noted[i] is PublicKey,
{
    if i > 0 {
        assert(noted[i] == noted.skip(1)[i - 1]);
    }
}

/// What a new signer is made of, and whether it can be made, depends on what
/// the card answers alone: another PIN gives the same key and the same card, or
/// the same error.
pub proof fn binding_ignores_the_pin<P>(
    noted: Seq<card::Exchange<P>>,
    user_pin: P,
    outcome: Result<SignerView<P>, error::YubiErrorView>,
    other_pin: P,
)
    requires
        binding_call(noted, user_pin, outcome),
    ensures
        binding_call(
            noted,
            other_pin,
            match outcome {
                Ok(signer) => Ok(SignerView { user_pin: other_pin, ..signer }),
                Err(err) => Err(err),
            },
        ),
{
    if !(outcome is Err && discovery::lookup_failed(noted, outcome->Err_0)) {
        let at = choose|at: int|
            {
                &&& 0 <= at <= noted.len()
                &&& discovery::lookup_found(#[trigger] noted.take(at))
                &&& binding_attempt(noted.skip(at), user_pin, outcome)
            };
        assert(discovery::lookup_found(noted.take(at)));
    }
}

/// A key that was accepted when it was generated is accepted when it is read,
/// as the same key, and no other key is.
pub proof fn generated_keys_can_be_held(key: reply::KeyMaterialView)
    ensures
        held_key(key) is Ok <==> provision::generated_key(key) is Ok,
        held_key(key) is Ok ==> held_key(key) == provision::generated_key(key),
{
}

/// The errors with which a signature can fail. Among those that cannot come
/// are a wrong card, since no cards are compared, and a missing Admin PIN.
pub proof fn errors_of_a_signature<P>(
    noted: Seq<card::Exchange<P>>,
    user_pin: P,
    message: Seq<u8>,
    err: error::YubiErrorView,
)
    requires
        signing_call(noted, user_pin, message, Err(err)),
    ensures
        err is CardNotFound || err is TouchTimeout || err is PinIncorrect || err is PinBlocked
            || err is Other,
{
}

} // verus!
