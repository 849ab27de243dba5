//! The card as this crate uses it, and a record of what is asked of it.
//!
//! A card answers through a reader, so what it replies is known only when it
//! has replied. The traits of this module are the operations of
//! `openpgp_card::Card` in its states (open, in a transaction, with admin
//! rights). Nothing is assumed of an implementation: whatever is proved here
//! holds for every reply.
//!
//! The rest of the crate reaches the operations only through the types of this
//! module: [`Readers`], [`Candidates`], [`OpenedCard`], [`Session`] and
//! [`AdminSession`]. Each hides what it holds and keeps, for the proofs, the
//! list of all that was asked through it and answered; the rest of the crate
//! asks nothing that is not on the list. (A caller can take a card out with
//! [`OpenedCard::into_card`]; what is asked of it then is not on the list.)
//! Contracts say what an operation added to the list ([`since`]), and that each
//! answer on it is one that was given to that question ([`continues`] and its
//! variants). The list of what was asked in a narrower place goes to the wider
//! one when the narrower one is left.

use card_backend::SmartcardError;
use openpgp_card::ocard::crypto::PublicKeyMaterial;
use openpgp_card::ocard::data::{ApplicationIdentifier, Fingerprint, KeyGenerationTime};
use openpgp_card::ocard::KeyType;
use vstd::prelude::*;

use crate::error;
use crate::error::YubiError;
use crate::provision::KeySlotFingerprint;
use crate::reply;

verus! {

/// A key slot of the card.
#[derive(Debug, Clone, Copy, PartialEq, Eq)]
pub enum KeySlot {
    Signing,
    Decryption,
    Authentication,
    Attestation,
}

/// The algorithms that a slot can be set up for.
#[derive(Debug, Clone, Copy, PartialEq, Eq)]
pub enum SlotAlgorithm {
    Rsa1k,
    Rsa2k,
    Rsa3k,
    Rsa4k,
    Nist256,
    Nist384,
    Nist521,
    /// Ed25519 in a signing slot, X25519 in the decryption slot.
    Curve25519,
}

/// When a slot wants a touch before it uses its key.
#[derive(Debug, Clone, Copy, PartialEq, Eq)]
pub enum TouchPolicy {
    Off,
    On,
    /// Always, and no later setting can relax it.
    Fixed,
    Cached,
    CachedFixed,
    Unknown(u8),
}

/// The hashes that an RSA signature can name.
#[derive(Debug, Clone, Copy, PartialEq, Eq)]
pub enum HashAlgo {
    Sha1,
    Sha256,
    Sha384,
    Sha512,
}

/// How the data of a signature request is put to the card.
#[derive(Debug, Clone, Copy, PartialEq, Eq)]
pub enum SigningAlgo {
    /// Wrapped together with the hash's identifier.
    Rsa(HashAlgo),
    /// As it is.
    Ecc,
}

/// A card in a transaction: `openpgp_card::Card<Transaction>`.
pub trait TransactionCard {
    /// What holds the operator's PIN. It is stored and presented, never read.
    type Pin;

    /// `Card::application_identifier`.
    fn application_identifier(&mut self) -> Result<ApplicationIdentifier, openpgp_card::Error>;

    /// `Card::verify_user_pin`.
    fn verify_user_pin(&mut self, pin: &str) -> Result<(), openpgp_card::Error>;

    /// `Card::verify_admin_pin`.
    fn verify_admin_pin(&mut self, pin: &str) -> Result<(), openpgp_card::Error>;

    /// `Card::verify_user_signing_pin`.
    fn verify_user_signing_pin(&mut self, pin: &Self::Pin) -> Result<(), openpgp_card::Error>;

    /// `Card::public_key_material`.
    fn public_key_material(&mut self, slot: KeySlot) -> Result<
        PublicKeyMaterial,
        openpgp_card::Error,
    >;

    /// `ocard::Transaction::signature_for_hash`.
    fn signature_for_hash(&mut self, algo: SigningAlgo, data: &[u8]) -> Result<
        Vec<u8>,
        openpgp_card::Error,
    >;
}

/// How the fingerprint is made that a card stores beside a new key.
pub trait FingerprintRule {
    /// The fingerprint of a key, in the form in which `Card::generate_key` asks
    /// for it.
    fn fingerprint(
        pub_key: &PublicKeyMaterial,
        generated_at: KeyGenerationTime,
        key_type: KeyType,
    ) -> Result<Fingerprint, openpgp_card::Error>;
}

/// A card with admin rights: `openpgp_card::Card<Admin>`. The rights may be
/// missing all the same; then the card refuses the operation.
pub trait AdminCard {
    /// `Card::set_algorithm`.
    fn set_algorithm(&mut self, slot: KeySlot, algorithm: SlotAlgorithm) -> Result<
        (),
        openpgp_card::Error,
    >;

    /// `Card::generate_key`, with `F::fingerprint` as the function that makes
    /// the fingerprint which the card stores beside the key.
    fn generate_key<F: FingerprintRule>(&mut self, slot: KeySlot) -> Result<
        PublicKeyMaterial,
        openpgp_card::Error,
    >;

    /// `Card::set_touch_policy`.
    fn set_touch_policy(&mut self, slot: KeySlot, policy: TouchPolicy) -> Result<
        (),
        openpgp_card::Error,
    >;
}

/// An open card: `openpgp_card::Card<Open>`.
pub trait OpenCard: Sized {
    /// What holds the operator's PIN.
    type Pin;

    /// The card while a transaction runs.
    type Transaction<'a>: TransactionCard<Pin = Self::Pin> where Self: 'a;

    /// `Card::transaction`.
    fn transaction(&mut self) -> Result<Self::Transaction<'_>, openpgp_card::Error>;
}

/// A connection to a card in a reader, of which it is not yet known whether it
/// is an OpenPGP card.
pub trait CardSource: Sized {
    /// The card behind the connection.
    type Card: OpenCard;

    /// `Card::<Open>::new`.
    fn open(self) -> Result<Self::Card, openpgp_card::Error>;
}

/// The connections to what the readers hold, one after the other.
pub trait CardFeed: Sized {
    /// The cards behind the connections.
    type Card: OpenCard;

    /// A connection.
    type Source: CardSource<Card = Self::Card>;

    /// The next connection, or why it could not be made; nothing if there is
    /// none left.
    fn next_source(&mut self) -> Option<Result<Self::Source, SmartcardError>>;
}

/// The readers of a machine.
pub trait CardReaders: Sized {
    /// The cards in the readers.
    type Card: OpenCard;

    /// The connections to them.
    type Feed: CardFeed<Card = Self::Card>;

    /// `PcscBackend::card_backends`.
    fn enumerate(&mut self) -> Result<Self::Feed, SmartcardError>;
}

/// What became of a candidate.
#[allow(inconsistent_fields)]
pub enum CandidateOutcome {
    /// There was none left.
    End,
    /// The connection to it could not be made.
    Unreachable { cause: SmartcardError },
    /// It could not be opened.
    Refused { cause: openpgp_card::Error },
    /// It was opened.
    Opened,
}

/// What became of a candidate, with the connection and the card themselves.
#[allow(inconsistent_fields)]
pub enum Tried<S, C> {
    End,
    Unreachable { cause: SmartcardError },
    Refused { source: S, cause: openpgp_card::Error },
    Opened { source: S, card: C },
}

impl<S, C> Tried<S, C> {
    /// What became of the candidate.
    pub open spec fn outcome(self) -> CandidateOutcome {
        match self {
            Tried::End => CandidateOutcome::End,
            Tried::Unreachable { cause } => CandidateOutcome::Unreachable { cause },
            Tried::Refused { cause, .. } => CandidateOutcome::Refused { cause },
            Tried::Opened { .. } => CandidateOutcome::Opened,
        }
    }

    /// What the feed gave.
    pub open spec fn taken(self) -> Option<Result<S, SmartcardError>> {
        match self {
            Tried::End => None,
            Tried::Unreachable { cause } => Some(Err(cause)),
            Tried::Refused { source, .. } => Some(Ok(source)),
            Tried::Opened { source, .. } => Some(Ok(source)),
        }
    }
}

/// The taking of one candidate: the feed before it, what became of the
/// candidate, and the feed after it.
pub struct Attempt<F: CardFeed> {
    pub feed: F,
    pub tried: Tried<F::Source, F::Card>,
    pub left: F,
}

/// One question to the readers or to a card, and the answer to it.
#[allow(inconsistent_fields)]
pub enum Exchange<P> {
    /// The readers were enumerated, or could not be.
    Enumerate { failure: Option<SmartcardError> },
    /// A candidate was taken and, if it could be reached, opened.
    Candidate { outcome: CandidateOutcome },
    /// A transaction was started, or refused.
    Begin { refusal: Option<openpgp_card::Error> },
    Identity { reply: Result<ApplicationIdentifier, openpgp_card::Error> },
    VerifyUserPin { pin: Seq<char>, reply: Result<(), openpgp_card::Error> },
    VerifyAdminPin { pin: Seq<char>, reply: Result<(), openpgp_card::Error> },
    VerifyUserSigningPin { pin: P, reply: Result<(), openpgp_card::Error> },
    PublicKey { slot: KeySlot, reply: Result<PublicKeyMaterial, openpgp_card::Error> },
    Sign {
        algo: SigningAlgo,
        data: Seq<u8>,
        reply: Result<Seq<u8>, openpgp_card::Error>,
    },
}

/// One question to a card with admin rights, and the answer to it.
#[allow(inconsistent_fields)]
pub enum AdminExchange {
    SetAlgorithm {
        slot: KeySlot,
        algorithm: SlotAlgorithm,
        reply: Result<(), openpgp_card::Error>,
    },
    /// A key was to be generated, with [`KeySlotFingerprint`] for its
    /// fingerprint.
    GenerateKey { slot: KeySlot, reply: Result<PublicKeyMaterial, openpgp_card::Error> },
    SetTouchPolicy {
        slot: KeySlot,
        policy: TouchPolicy,
        reply: Result<(), openpgp_card::Error>,
    },
}

/// A card gave the answer of this exchange when it was asked its question.
pub open spec fn answered_by<T: TransactionCard>(exchange: Exchange<T::Pin>) -> bool {
    match exchange {
        Exchange::Enumerate { .. } => false,
        Exchange::Candidate { .. } => false,
        Exchange::Begin { .. } => false,
        Exchange::Identity { reply } => exists|card: &mut T| #[trigger]
            call_ensures(T::application_identifier, (card,), reply),
        Exchange::VerifyUserPin { pin, reply } => exists|card: &mut T, text: &str| #[trigger]
            call_ensures(T::verify_user_pin, (card, text), reply) && text@ == pin,
        Exchange::VerifyAdminPin { pin, reply } => exists|card: &mut T, text: &str| #[trigger]
            call_ensures(T::verify_admin_pin, (card, text), reply) && text@ == pin,
        Exchange::VerifyUserSigningPin { pin, reply } => exists|
            card: &mut T,
            presented: &T::Pin,
        | #[trigger]
            call_ensures(T::verify_user_signing_pin, (card, presented), reply) && *presented
                == pin,
        Exchange::PublicKey { slot, reply } => exists|card: &mut T| #[trigger]
            call_ensures(T::public_key_material, (card, slot), reply),
        Exchange::Sign { algo, data, reply } => exists|
            card: &mut T,
            bytes: &[u8],
            signed: Result<Vec<u8>, openpgp_card::Error>,
        | #[trigger]
            call_ensures(T::signature_for_hash, (card, algo, bytes), signed) && bytes@ == data
                && signature_bytes(signed) == reply,
    }
}

/// A card with admin rights gave the answer of this exchange when it was asked
/// its question.
pub open spec fn answered_by_admin<A: AdminCard>(exchange: AdminExchange) -> bool {
    match exchange {
        AdminExchange::SetAlgorithm { slot, algorithm, reply } => exists|card: &mut A| #[trigger]
            call_ensures(A::set_algorithm, (card, slot, algorithm), reply),
        AdminExchange::GenerateKey { slot, reply } => exists|card: &mut A| #[trigger]
            call_ensures(A::generate_key::<KeySlotFingerprint>, (card, slot), reply),
        AdminExchange::SetTouchPolicy { slot, policy, reply } => exists|card: &mut A| #[trigger]
            call_ensures(A::set_touch_policy, (card, slot, policy), reply),
    }
}

/// `card` was asked for a transaction, and gave one or refused it, as the entry
/// says.
pub open spec fn began_on<'a, C: OpenCard>(card: C, entry: Exchange<C::Pin>) -> bool {
    entry matches Exchange::Begin { refusal } && match refusal {
        Some(cause) => exists|asked: &'a mut C| #[trigger]
            call_ensures(
                C::transaction,
                (asked,),
                Err::<C::Transaction<'a>, openpgp_card::Error>(cause),
            ) && *asked == card,
        None => exists|asked: &'a mut C, transaction: C::Transaction<'a>| #[trigger]
            call_ensures(
                C::transaction,
                (asked,),
                Ok::<C::Transaction<'a>, openpgp_card::Error>(transaction),
            ) && *asked == card,
    }
}

/// The feed gave what the attempt says when it was asked, and opening that gave
/// what the attempt says.
pub open spec fn made_by_feed<F: CardFeed>(attempt: Attempt<F>) -> bool {
    &&& exists|asked: &mut F| #[trigger]
        call_ensures(F::next_source, (asked,), attempt.tried.taken()) && *asked == attempt.feed
    &&& match attempt.tried {
        Tried::Refused { source, cause } => call_ensures(
            <F::Source as CardSource>::open,
            (source,),
            Err::<F::Card, openpgp_card::Error>(cause),
        ),
        Tried::Opened { source, card } => call_ensures(
            <F::Source as CardSource>::open,
            (source,),
            Ok::<F::Card, openpgp_card::Error>(card),
        ),
        _ => true,
    }
}

/// `card` is behind a connection that the feed gave, and was opened.
pub open spec fn opened_from<F: CardFeed>(card: F::Card) -> bool {
    exists|attempt: Attempt<F>| #[trigger]
        made_by_feed(attempt) && attempt.tried is Opened && attempt.tried->card == card
}

/// The feed was asked for a candidate, and what became of it is what the entry
/// says.
pub open spec fn taken_from<F: CardFeed>(entry: Exchange<PinOf<F::Card>>) -> bool {
    exists|attempt: Attempt<F>| #[trigger]
        made_by_feed(attempt) && entry == (Exchange::<PinOf<F::Card>>::Candidate {
            outcome: attempt.tried.outcome(),
        })
}

/// `attempts` are candidates that were taken one after the other, beginning
/// with the feed `from` and leaving the feed `to`.
pub open spec fn taken_in_turn<F: CardFeed>(from: F, attempts: Seq<Attempt<F>>, to: F) -> bool {
    &&& attempts.len() == 0 ==> from == to
    &&& attempts.len() > 0 ==> attempts[0].feed == from && attempts.last().left == to
    &&& forall|i: int, j: int|
        0 <= i < attempts.len() && 0 <= j < attempts.len() && j == i + 1 ==> (
        #[trigger] attempts[i]).left == (#[trigger] attempts[j]).feed
    &&& forall|i: int| 0 <= i < attempts.len() ==> made_by_feed(#[trigger] attempts[i])
}

/// The entries tell of these attempts.
pub open spec fn entries_of<F: CardFeed>(
    attempts: Seq<Attempt<F>>,
    entries: Seq<Exchange<PinOf<F::Card>>>,
) -> bool {
    &&& entries.len() == attempts.len()
    &&& forall|i: int|
        0 <= i < entries.len() ==> #[trigger] entries[i] == (Exchange::<
            PinOf<F::Card>,
        >::Candidate { outcome: attempts[i].tried.outcome() })
}

/// The readers were enumerated, or could not be, as the entry says.
pub open spec fn enumerated_by<R: CardReaders>(entry: Exchange<PinOf<R::Card>>) -> bool {
    entry matches Exchange::Enumerate { failure } && match failure {
        Some(cause) => exists|readers: &mut R| #[trigger]
            call_ensures(R::enumerate, (readers,), Err::<R::Feed, SmartcardError>(cause)),
        None => exists|readers: &mut R, feed: R::Feed| #[trigger]
            call_ensures(R::enumerate, (readers,), Ok::<R::Feed, SmartcardError>(feed)),
    }
}

/// What stands in `after` behind `before`.
pub open spec fn since<E>(before: Seq<E>, after: Seq<E>) -> Seq<E> {
    after.skip(before.len() as int)
}

/// `after` is `before` with more behind it, and a card gave each answer in what
/// was added.
pub open spec fn continues<T: TransactionCard>(
    before: Seq<Exchange<T::Pin>>,
    after: Seq<Exchange<T::Pin>>,
) -> bool {
    &&& before.is_prefix_of(after)
    &&& forall|i: int| before.len() <= i < after.len() ==> answered_by::<T>(#[trigger] after[i])
}

/// [`continues`] for a card with admin rights.
pub open spec fn continues_admin<A: AdminCard>(
    before: Seq<AdminExchange>,
    after: Seq<AdminExchange>,
) -> bool {
    &&& before.is_prefix_of(after)
    &&& forall|i: int|
        before.len() <= i < after.len() ==> answered_by_admin::<A>(#[trigger] after[i])
}

/// [`continues`] for an open card: transactions were started on it, and it was
/// asked in them.
pub open spec fn continues_open<'a, C: OpenCard + 'a>(
    before: Seq<Exchange<C::Pin>>,
    after: Seq<Exchange<C::Pin>>,
) -> bool {
    &&& before.is_prefix_of(after)
    &&& forall|i: int|
        before.len() <= i < after.len() ==> {
            ||| exists|card: C| began_on(card, #[trigger] after[i])
            ||| answered_by::<C::Transaction<'a>>(after[i])
        }
}

/// [`continues`] for candidates: some were taken, transactions were started on
/// one that was opened, and it was asked in them.
pub open spec fn continues_candidates<'a, F: CardFeed>(
    before: Seq<Exchange<PinOf<F::Card>>>,
    after: Seq<Exchange<PinOf<F::Card>>>,
) -> bool where F::Card: 'a {
    &&& before.is_prefix_of(after)
    &&& forall|i: int|
        before.len() <= i < after.len() ==> {
            ||| taken_from::<F>(#[trigger] after[i])
            ||| began_on_opened::<F>(after[i])
            ||| answered_by::<<F::Card as OpenCard>::Transaction<'a>>(after[i])
        }
}

/// A card that was opened was asked for a transaction, as the entry says.
pub open spec fn began_on_opened<F: CardFeed>(entry: Exchange<PinOf<F::Card>>) -> bool {
    exists|card: F::Card| #[trigger] opened_from::<F>(card) && began_on(card, entry)
}

/// [`continues`] for readers: they were enumerated, and the candidates that
/// this gave were taken and asked.
pub open spec fn continues_readers<'a, R: CardReaders>(
    before: Seq<Exchange<PinOf<R::Card>>>,
    after: Seq<Exchange<PinOf<R::Card>>>,
) -> bool where R::Card: 'a {
    &&& before.is_prefix_of(after)
    &&& forall|i: int|
        before.len() <= i < after.len() ==> {
            ||| enumerated_by::<R>(#[trigger] after[i])
            ||| taken_from::<R::Feed>(after[i])
            ||| began_on_opened::<R::Feed>(after[i])
            ||| answered_by::<<R::Card as OpenCard>::Transaction<'a>>(after[i])
        }
}

/// What holds the PIN of a card.
pub type PinOf<C> = <C as OpenCard>::Pin;

/// A record of questions to cards and of their answers. It exists for the
/// proofs alone and holds nothing when the program runs. Only the operations
/// of this module write to it.
pub struct Journal<P> {
    record: Ghost<Seq<Exchange<P>>>,
}

impl<P> View for Journal<P> {
    type V = Seq<Exchange<P>>;

    closed spec fn view(&self) -> Seq<Exchange<P>> {
        self.record@
    }
}

impl<P> Journal<P> {
    /// An empty journal.
    fn new() -> (journal: Journal<P>)
        ensures
            journal@ == Seq::<Exchange<P>>::empty(),
    {
        Journal { record: Ghost(Seq::empty()) }
    }

    /// Adds the entries of `later` behind the entries here.
    fn append(&mut self, later: Journal<P>)
        ensures
            final(self)@ == old(self)@ + later@,
    {
        proof {
            self.record@ = self.record@ + later.record@;
        }
    }
}

/// A card in a transaction, with the record of what was asked of it.
pub struct Session<T: TransactionCard> {
    card: T,
    journal: Journal<T::Pin>,
}

impl<T: TransactionCard> Session<T> {
    /// The card, as it is now.
    pub closed spec fn held(&self) -> T {
        self.card
    }

    /// All that was asked and answered, oldest first.
    pub closed spec fn exchanges(&self) -> Seq<Exchange<T::Pin>> {
        self.journal@
    }

    /// A session on `card`, of which nothing was asked yet.
    pub fn new(card: T) -> (session: Session<T>)
        ensures
            session.held() == card,
            session.exchanges() == Seq::<Exchange<T::Pin>>::empty(),
    {
        Session { card, journal: Journal::new() }
    }

    /// Ends the session and hands out its record.
    pub(crate) fn finish(self) -> (journal: Journal<T::Pin>)
        ensures
            journal@ == self.exchanges(),
    {
        self.journal
    }

    /// The card's application identifier.
    pub fn application_identifier(&mut self) -> (reply: Result<
        ApplicationIdentifier,
        openpgp_card::Error,
    >)
        ensures
            final(self).exchanges() == old(self).exchanges().push(Exchange::Identity { reply }),
            exists|asked: &mut T| #[trigger]
                call_ensures(T::application_identifier, (asked,), reply)
                    && *asked == old(self).held() && *final(asked) == final(self).held(),
            answered_by::<T>(final(self).exchanges().last()),
    {
        let reply = self.card.application_identifier();
        proof {
            self.journal.record@ = self.journal.record@.push(Exchange::Identity { reply });
        }
        reply
    }

    /// Presents the User PIN.
    pub fn verify_user_pin(&mut self, pin: &str) -> (reply: Result<(), openpgp_card::Error>)
        ensures
            final(self).exchanges() == old(self).exchanges().push(
                Exchange::VerifyUserPin { pin: pin@, reply },
            ),
            exists|asked: &mut T| #[trigger]
                call_ensures(T::verify_user_pin, (asked, pin), reply)
                    && *asked == old(self).held() && *final(asked) == final(self).held(),
            answered_by::<T>(final(self).exchanges().last()),
    {
        let reply = self.card.verify_user_pin(pin);
        proof {
            self.journal.record@ = self.journal.record@.push(
                Exchange::VerifyUserPin { pin: pin@, reply },
            );
        }
        reply
    }

    /// Presents the Admin PIN.
    pub fn verify_admin_pin(&mut self, pin: &str) -> (reply: Result<(), openpgp_card::Error>)
        ensures
            final(self).exchanges() == old(self).exchanges().push(
                Exchange::VerifyAdminPin { pin: pin@, reply },
            ),
            exists|asked: &mut T| #[trigger]
                call_ensures(T::verify_admin_pin, (asked, pin), reply)
                    && *asked == old(self).held() && *final(asked) == final(self).held(),
            answered_by::<T>(final(self).exchanges().last()),
    {
        let reply = self.card.verify_admin_pin(pin);
        proof {
            self.journal.record@ = self.journal.record@.push(
                Exchange::VerifyAdminPin { pin: pin@, reply },
            );
        }
        reply
    }

    /// Presents the User PIN for signing.
    pub fn verify_user_signing_pin(&mut self, pin: &T::Pin) -> (reply: Result<
        (),
        openpgp_card::Error,
    >)
        ensures
            final(self).exchanges() == old(self).exchanges().push(
                Exchange::VerifyUserSigningPin { pin: *pin, reply },
            ),
            exists|asked: &mut T| #[trigger]
                call_ensures(T::verify_user_signing_pin, (asked, pin), reply)
                    && *asked == old(self).held() && *final(asked) == final(self).held(),
            answered_by::<T>(final(self).exchanges().last()),
    {
        let reply = self.card.verify_user_signing_pin(pin);
        proof {
            self.journal.record@ = self.journal.record@.push(
                Exchange::VerifyUserSigningPin { pin: *pin, reply },
            );
        }
        reply
    }

    /// Reads the public key of a slot.
    pub fn public_key_material(&mut self, slot: KeySlot) -> (reply: Result<
        PublicKeyMaterial,
        openpgp_card::Error,
    >)
        ensures
            final(self).exchanges() == old(self).exchanges().push(
                Exchange::PublicKey { slot, reply },
            ),
            exists|asked: &mut T| #[trigger]
                call_ensures(T::public_key_material, (asked, slot), reply)
                    && *asked == old(self).held() && *final(asked) == final(self).held(),
            answered_by::<T>(final(self).exchanges().last()),
    {
        let reply = self.card.public_key_material(slot);
        proof {
            self.journal.record@ = self.journal.record@.push(Exchange::PublicKey { slot, reply });
        }
        reply
    }

    /// Asks for a signature.
    pub fn signature_for_hash(&mut self, algo: SigningAlgo, data: &[u8]) -> (reply: Result<
        Vec<u8>,
        openpgp_card::Error,
    >)
        ensures
            final(self).exchanges() == old(self).exchanges().push(
                Exchange::Sign { algo, data: data@, reply: signature_bytes(reply) },
            ),
            exists|asked: &mut T| #[trigger]
                call_ensures(T::signature_for_hash, (asked, algo, data), reply)
                    && *asked == old(self).held() && *final(asked) == final(self).held(),
            answered_by::<T>(final(self).exchanges().last()),
    {
        let reply = self.card.signature_for_hash(algo, data);
        proof {
            self.journal.record@ = self.journal.record@.push(
                Exchange::Sign { algo, data: data@, reply: signature_bytes(reply) },
            );
        }
        reply
    }
}

/// A signature reply, by the bytes that came.
pub open spec fn signature_bytes(reply: Result<Vec<u8>, openpgp_card::Error>) -> Result<
    Seq<u8>,
    openpgp_card::Error,
> {
    match reply {
        Ok(bytes) => Ok(bytes@),
        Err(err) => Err(err),
    }
}

/// A card with admin rights, with the record of what was asked of it.
pub struct AdminSession<A: AdminCard> {
    card: A,
    record: Ghost<Seq<AdminExchange>>,
}

impl<A: AdminCard> AdminSession<A> {
    /// The card, as it is now.
    pub closed spec fn held(&self) -> A {
        self.card
    }

    /// All that was asked and answered, oldest first.
    pub closed spec fn exchanges(&self) -> Seq<AdminExchange> {
        self.record@
    }

    /// A session on `card`, of which nothing was asked yet.
    pub fn new(card: A) -> (session: AdminSession<A>)
        ensures
            session.held() == card,
            session.exchanges() == Seq::<AdminExchange>::empty(),
    {
        AdminSession { card, record: Ghost(Seq::empty()) }
    }

    /// Sets the algorithm of a slot.
    pub fn set_algorithm(&mut self, slot: KeySlot, algorithm: SlotAlgorithm) -> (reply: Result<
        (),
        openpgp_card::Error,
    >)
        ensures
            final(self).exchanges() == old(self).exchanges().push(
                AdminExchange::SetAlgorithm { slot, algorithm, reply },
            ),
            exists|asked: &mut A| #[trigger]
                call_ensures(A::set_algorithm, (asked, slot, algorithm), reply)
                    && *asked == old(self).held() && *final(asked) == final(self).held(),
            answered_by_admin::<A>(final(self).exchanges().last()),
    {
        let reply = self.card.set_algorithm(slot, algorithm);
        proof {
            self.record@ = self.record@.push(
                AdminExchange::SetAlgorithm { slot, algorithm, reply },
            );
        }
        reply
    }

    /// Generates a key in a slot, with [`KeySlotFingerprint`] for its fingerprint.
    pub fn generate_key(&mut self, slot: KeySlot) -> (reply: Result<
        PublicKeyMaterial,
        openpgp_card::Error,
    >)
        ensures
            final(self).exchanges() == old(self).exchanges().push(
                AdminExchange::GenerateKey { slot, reply },
            ),
            exists|asked: &mut A| #[trigger]
                call_ensures(A::generate_key::<KeySlotFingerprint>, (asked, slot), reply)
                    && *asked == old(self).held() && *final(asked) == final(self).held(),
            answered_by_admin::<A>(final(self).exchanges().last()),
    {
        let reply = self.card.generate_key::<KeySlotFingerprint>(slot);
        proof {
            self.record@ = self.record@.push(AdminExchange::GenerateKey { slot, reply });
        }
        reply
    }

    /// Sets the touch policy of a slot.
    pub fn set_touch_policy(&mut self, slot: KeySlot, policy: TouchPolicy) -> (reply: Result<
        (),
        openpgp_card::Error,
    >)
        ensures
            final(self).exchanges() == old(self).exchanges().push(
                AdminExchange::SetTouchPolicy { slot, policy, reply },
            ),
            exists|asked: &mut A| #[trigger]
                call_ensures(A::set_touch_policy, (asked, slot, policy), reply)
                    && *asked == old(self).held() && *final(asked) == final(self).held(),
            answered_by_admin::<A>(final(self).exchanges().last()),
    {
        let reply = self.card.set_touch_policy(slot, policy);
        proof {
            self.record@ = self.record@.push(AdminExchange::SetTouchPolicy { slot, policy, reply });
        }
        reply
    }
}

/// An open card, with the record of what was asked of it.
pub struct OpenedCard<C: OpenCard> {
    card: C,
    journal: Journal<C::Pin>,
}

impl<C: OpenCard> OpenedCard<C> {
    /// The card, as it is now.
    pub closed spec fn held(&self) -> C {
        self.card
    }

    /// All that was asked and answered, oldest first.
    pub closed spec fn exchanges(&self) -> Seq<Exchange<C::Pin>> {
        self.journal@
    }

    /// An open card, of which nothing was asked yet.
    pub fn new(card: C) -> (opened: OpenedCard<C>)
        ensures
            opened.held() == card,
            opened.exchanges() == Seq::<Exchange<C::Pin>>::empty(),
    {
        OpenedCard { card, journal: Journal::new() }
    }

    /// Starts a transaction.
    pub fn begin(&mut self) -> (r: Result<Session<C::Transaction<'_>>, YubiError>)
        ensures
            exists|asked: &mut C, reply: Result<C::Transaction<'_>, openpgp_card::Error>|
                {
                    &&& #[trigger] call_ensures(C::transaction, (asked,), reply)
                    &&& *asked == old(self).held()
                    &&& *final(asked) == final(self).held()
                    &&& match reply {
                        Ok(transaction) => {
                            &&& final(self).exchanges() == old(self).exchanges().push(
                                Exchange::Begin { refusal: None },
                            )
                            &&& r matches Ok(session)
                            &&& session.held() == transaction
                        },
                        Err(cause) => {
                            &&& final(self).exchanges() == old(self).exchanges().push(
                                Exchange::Begin { refusal: Some(cause) },
                            )
                            &&& r is Err
                        },
                    }
                },
            began_on(old(self).held(), final(self).exchanges().last()),
            final(self).exchanges().last() matches Exchange::Begin { refusal } && match refusal {
                Some(cause) => r matches Err(err) && err@ == error::general_error(
                    reply::failure_of(cause),
                ),
                None => r matches Ok(session) && session.exchanges() == Seq::<
                    Exchange<C::Pin>,
                >::empty(),
            },
    {
        match self.card.transaction() {
            Ok(transaction) => {
                proof {
                    self.journal.record@ = self.journal.record@.push(
                        Exchange::Begin { refusal: None },
                    );
                }
                Ok(Session::new(transaction))
            },
            Err(cause) => {
                proof {
                    self.journal.record@ = self.journal.record@.push(
                        Exchange::Begin { refusal: Some(cause) },
                    );
                }
                Err(YubiError::from(cause))
            },
        }
    }

    /// Hands out the card itself, for operations that this crate has no part in.
    pub fn into_card(self) -> (card: C)
        ensures
            card == self.held(),
    {
        self.card
    }

    /// Adds the record of a session on this card.
    pub(crate) fn note(&mut self, later: Journal<C::Pin>)
        ensures
            final(self).held() == old(self).held(),
            final(self).exchanges() == old(self).exchanges() + later@,
    {
        self.journal.append(later);
    }

    /// Leaves the card and hands out its record.
    pub(crate) fn finish(self) -> (journal: Journal<C::Pin>)
        ensures
            journal@ == self.exchanges(),
    {
        self.journal
    }
}

/// What taking a candidate gave.
pub enum NextCard<C: OpenCard> {
    /// A card.
    Usable(OpenedCard<C>),
    /// No card, but there may be more candidates.
    Skipped,
    /// There are no more candidates.
    End,
}

/// What the readers hold, with the record of what became of it.
pub struct Candidates<F: CardFeed> {
    feed: F,
    journal: Journal<PinOf<F::Card>>,
    attempts: Ghost<Seq<Attempt<F>>>,
}

impl<F: CardFeed> Candidates<F> {
    /// The feed, as it is now.
    pub closed spec fn held(&self) -> F {
        self.feed
    }

    /// All that was asked and answered, oldest first.
    pub closed spec fn exchanges(&self) -> Seq<Exchange<PinOf<F::Card>>> {
        self.journal@
    }

    /// The candidates that were taken, with their cards, oldest first.
    pub closed spec fn attempts(&self) -> Seq<Attempt<F>> {
        self.attempts@
    }

    /// Candidates of which none was taken yet.
    pub fn new(feed: F) -> (candidates: Candidates<F>)
        ensures
            candidates.held() == feed,
            candidates.exchanges() == Seq::<Exchange<PinOf<F::Card>>>::empty(),
            candidates.attempts() == Seq::<Attempt<F>>::empty(),
    {
        Candidates { feed, journal: Journal::new(), attempts: Ghost(Seq::empty()) }
    }

    /// Takes the next candidate and opens it.
    pub fn open_next(&mut self) -> (r: NextCard<F::Card>)
        ensures
            final(self).attempts() == old(self).attempts().push(final(self).attempts().last()),
            final(self).exchanges() == old(self).exchanges().push(
                Exchange::Candidate { outcome: final(self).attempts().last().tried.outcome() },
            ),
            exists|asked: &mut F| #[trigger]
                call_ensures(
                    F::next_source,
                    (asked,),
                    final(self).attempts().last().tried.taken(),
                ) && *asked == old(self).held() && *final(asked) == final(self).held(),
            final(self).attempts().last().feed == old(self).held(),
            final(self).attempts().last().left == final(self).held(),
            made_by_feed(final(self).attempts().last()),
            taken_from::<F>(final(self).exchanges().last()),
            match final(self).attempts().last().tried {
                Tried::End => r is End,
                Tried::Unreachable { .. } => r is Skipped,
                Tried::Refused { .. } => r is Skipped,
                Tried::Opened { card, .. } => {
                    &&& r matches NextCard::Usable(opened)
                    &&& opened.held() == card
                    &&& opened.exchanges() == Seq::<Exchange<PinOf<F::Card>>>::empty()
                    &&& opened_from::<F>(card)
                },
            },
    {
        let ghost feed = self.feed;
        let taken = self.feed.next_source();
        let ghost answer = taken;
        match taken {
            None => {
                proof {
                    let tried = Tried::<F::Source, F::Card>::End;
                    let attempt = Attempt { feed, tried, left: self.feed };
                    assert(made_by_feed(attempt));
                    self.attempts@ = self.attempts@.push(attempt);
                    self.journal.record@ = self.journal.record@.push(
                        Exchange::Candidate { outcome: tried.outcome() },
                    );
                }
                NextCard::End
            },
            Some(Err(cause)) => {
                proof {
                    let tried = Tried::<F::Source, F::Card>::Unreachable { cause };
                    assert(tried.taken() == answer);
                    let attempt = Attempt { feed, tried, left: self.feed };
                    assert(made_by_feed(attempt));
                    self.attempts@ = self.attempts@.push(attempt);
                    self.journal.record@ = self.journal.record@.push(
                        Exchange::Candidate { outcome: tried.outcome() },
                    );
                }
                NextCard::Skipped
            },
            Some(Ok(source)) => match source.open() {
                Ok(card) => {
                    proof {
                        let tried = Tried::<F::Source, F::Card>::Opened { source, card };
                        assert(tried.taken() == answer);
                        let attempt = Attempt { feed, tried, left: self.feed };
                        assert(made_by_feed(attempt));
                        self.attempts@ = self.attempts@.push(attempt);
                        self.journal.record@ = self.journal.record@.push(
                            Exchange::Candidate { outcome: tried.outcome() },
                        );
                    }
                    NextCard::Usable(OpenedCard::new(card))
                },
                Err(cause) => {
                    proof {
                        let tried = Tried::<F::Source, F::Card>::Refused { source, cause };
                        assert(tried.taken() == answer);
                        let attempt = Attempt { feed, tried, left: self.feed };
                        assert(made_by_feed(attempt));
                        self.attempts@ = self.attempts@.push(attempt);
                        self.journal.record@ = self.journal.record@.push(
                            Exchange::Candidate { outcome: tried.outcome() },
                        );
                    }
                    NextCard::Skipped
                },
            },
        }
    }

    /// Adds the record of a card that was found here.
    pub(crate) fn note(&mut self, later: Journal<PinOf<F::Card>>)
        ensures
            final(self).held() == old(self).held(),
            final(self).attempts() == old(self).attempts(),
            final(self).exchanges() == old(self).exchanges() + later@,
    {
        self.journal.append(later);
    }
}

/// A candidate was opened.
pub open spec fn found_entry<P>(entry: Exchange<P>) -> bool {
    entry matches Exchange::Candidate { outcome } && outcome is Opened
}

/// A candidate was not usable: it could not be reached, or not be opened.
pub open spec fn skipped_entry<P>(entry: Exchange<P>) -> bool {
    entry matches Exchange::Candidate { outcome } && (outcome is Unreachable || outcome is Refused)
}

/// There was no candidate left.
pub open spec fn end_entry<P>(entry: Exchange<P>) -> bool {
    entry matches Exchange::Candidate { outcome } && outcome is End
}

/// The readers of a machine, with the record of what was asked of them.
pub struct Readers<R: CardReaders> {
    readers: R,
    journal: Journal<PinOf<R::Card>>,
    attempts: Ghost<Seq<Attempt<R::Feed>>>,
}

impl<R: CardReaders> Readers<R> {
    /// The readers, as they are now.
    pub closed spec fn held(&self) -> R {
        self.readers
    }

    /// All that was asked and answered, oldest first.
    pub closed spec fn exchanges(&self) -> Seq<Exchange<PinOf<R::Card>>> {
        self.journal@
    }

    /// The candidates that were taken, with their cards, oldest first.
    pub closed spec fn attempts(&self) -> Seq<Attempt<R::Feed>> {
        self.attempts@
    }

    /// Readers of which nothing was asked yet.
    pub fn new(readers: R) -> (r: Readers<R>)
        ensures
            r.held() == readers,
            r.exchanges() == Seq::<Exchange<PinOf<R::Card>>>::empty(),
            r.attempts() == Seq::<Attempt<R::Feed>>::empty(),
    {
        Readers { readers, journal: Journal::new(), attempts: Ghost(Seq::empty()) }
    }

    /// Enumerates the readers.
    pub fn enumerate(&mut self) -> (r: Result<Candidates<R::Feed>, SmartcardError>)
        ensures
            exists|asked: &mut R, reply: Result<R::Feed, SmartcardError>|
                {
                    &&& #[trigger] call_ensures(R::enumerate, (asked,), reply)
                    &&& *asked == old(self).held()
                    &&& *final(asked) == final(self).held()
                    &&& match reply {
                        Ok(feed) => r matches Ok(candidates) && candidates.held() == feed,
                        Err(cause) => r == Err::<Candidates<R::Feed>, SmartcardError>(cause),
                    }
                },
            final(self).exchanges() == old(self).exchanges().push(
                final(self).exchanges().last(),
            ),
            final(self).attempts() == old(self).attempts(),
            enumerated_by::<R>(final(self).exchanges().last()),
            final(self).exchanges().last() matches Exchange::Enumerate { failure } && match r {
                Ok(candidates) => {
                    &&& failure is None
                    &&& candidates.exchanges() == Seq::<Exchange<PinOf<R::Card>>>::empty()
                    &&& candidates.attempts() == Seq::<Attempt<R::Feed>>::empty()
                },
                Err(cause) => failure == Some(cause),
            },
    {
        match self.readers.enumerate() {
            Ok(feed) => {
                proof {
                    self.journal.record@ = self.journal.record@.push(
                        Exchange::Enumerate { failure: None },
                    );
                }
                Ok(Candidates::new(feed))
            },
            Err(cause) => {
                proof {
                    self.journal.record@ = self.journal.record@.push(
                        Exchange::Enumerate { failure: Some(cause) },
                    );
                    let entry = Exchange::<PinOf<R::Card>>::Enumerate { failure: Some(cause) };
                    assert(entry->failure->Some_0 == cause);
                    assert(enumerated_by::<R>(entry));
                }
                Err(cause)
            },
        }
    }

    /// Leaves the candidates that were found here and adds their record.
    pub(crate) fn note_search(&mut self, cards: Candidates<R::Feed>)
        ensures
            final(self).held() == old(self).held(),
            final(self).attempts() == old(self).attempts() + cards.attempts(),
            final(self).exchanges() == old(self).exchanges() + cards.exchanges(),
    {
        proof {
            self.attempts@ = self.attempts@ + cards.attempts@;
        }
        self.journal.append(cards.journal);
    }

    /// Adds the record of a card that was found here.
    pub(crate) fn note(&mut self, later: Journal<PinOf<R::Card>>)
        ensures
            final(self).held() == old(self).held(),
            final(self).attempts() == old(self).attempts(),
            final(self).exchanges() == old(self).exchanges() + later@,
    {
        self.journal.append(later);
    }
}

} // verus!
