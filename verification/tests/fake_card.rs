//! The library against a fake card, with `openpgp-card` in between.

use aivyx_yubi::card::{
    AdminCard, AdminSession, Candidates, CardFeed, CardReaders, CardSource, FingerprintRule,
    HashAlgo, KeySlot, OpenCard, OpenedCard, Readers, Session, SigningAlgo, SlotAlgorithm,
    TouchPolicy, TransactionCard,
};
use aivyx_yubi::discovery::{discover_card_from, discover_real_card, read_serial};
use aivyx_yubi::pin;
use aivyx_yubi::pin::{is_pin_factory_default, require_pin_changed};
use aivyx_yubi::provision::{
    generate_signature_key, key_slot_fingerprint, set_signature_touch_policy_fixed, PublicKeyBytes,
};
use aivyx_yubi::sign::{
    map_sign_error, map_signing_pin_error, read_signature_public_key, YubiKeySigner,
};
use aivyx_yubi::testing::{FakeCard, TransportFailure};
use aivyx_yubi::YubiError;
use card_backend::{CardBackend, CardCaps, CardTransaction, PinType, SmartcardError};
use openpgp_card::ocard::algorithm::AlgoSimple;
use openpgp_card::ocard::crypto::{HashAlgo as CardHash, PublicKeyMaterial, SigningAlgo as Algo};
use openpgp_card::ocard::data::{
    ApplicationIdentifier, Fingerprint, KeyGenerationTime, TouchPolicy as Policy,
};
use openpgp_card::ocard::{KeyType, StatusBytes};
use openpgp_card::{state, Card, Error};
use secrecy::SecretString;
use std::cell::Cell;
use std::rc::Rc;

// A fake card as a backend of `openpgp-card`.

struct Backend(FakeCard);

struct BackendTransaction<'a>(&'a mut FakeCard);

fn smartcard_error(failure: TransportFailure) -> SmartcardError {
    match failure {
        TransportFailure::CardNotFound(text) => SmartcardError::CardNotFound(text),
        TransportFailure::Error(text) => SmartcardError::Error(text),
    }
}

impl From<Backend> for Box<dyn CardBackend + Send + Sync> {
    fn from(backend: Backend) -> Self {
        Box::new(backend)
    }
}

impl CardBackend for Backend {
    fn limit_card_caps(&self, card_caps: CardCaps) -> CardCaps {
        card_caps
    }

    fn transaction(
        &mut self,
        _reselect_application: Option<&[u8]>,
    ) -> Result<Box<dyn CardTransaction + Send + Sync + '_>, SmartcardError> {
        self.0.transaction().map_err(smartcard_error)?;
        Ok(Box::new(BackendTransaction(&mut self.0)))
    }
}

impl CardTransaction for BackendTransaction<'_> {
    fn transmit(&mut self, cmd: &[u8], _buf_size: usize) -> Result<Vec<u8>, SmartcardError> {
        self.0.transmit(cmd).map_err(smartcard_error)
    }

    fn feature_pinpad_verify(&self) -> bool {
        false
    }

    fn feature_pinpad_modify(&self) -> bool {
        false
    }

    fn pinpad_verify(
        &mut self,
        _pin: PinType,
        _card_caps: &Option<CardCaps>,
    ) -> Result<Vec<u8>, SmartcardError> {
        Err(SmartcardError::Error("fake card has no pinpad".to_string()))
    }

    fn pinpad_modify(
        &mut self,
        _pin: PinType,
        _card_caps: &Option<CardCaps>,
    ) -> Result<Vec<u8>, SmartcardError> {
        Err(SmartcardError::Error("fake card has no pinpad".to_string()))
    }

    fn was_reset(&self) -> bool {
        false
    }
}

// The cards of `openpgp-card` as the library uses them.

fn key_type(slot: KeySlot) -> KeyType {
    match slot {
        KeySlot::Signing => KeyType::Signing,
        KeySlot::Decryption => KeyType::Decryption,
        KeySlot::Authentication => KeyType::Authentication,
        KeySlot::Attestation => KeyType::Attestation,
    }
}

struct Opened(Card<state::Open>);

struct InTransaction<'a>(Card<state::Transaction<'a>>);

struct WithAdmin<'a, 'b>(Card<state::Admin<'a, 'b>>);

impl CardSource for Backend {
    type Card = Opened;

    fn open(self) -> Result<Opened, Error> {
        Ok(Opened(Card::new(self)?))
    }
}

/// Connections that were made beforehand.
struct Feed<S>(std::vec::IntoIter<Result<S, SmartcardError>>);

impl<S: CardSource> CardFeed for Feed<S> {
    type Card = S::Card;
    type Source = S;

    fn next_source(&mut self) -> Option<Result<S, SmartcardError>> {
        self.0.next()
    }
}

fn candidates<S: CardSource>(cards: Vec<Result<S, SmartcardError>>) -> Candidates<Feed<S>> {
    Candidates::new(Feed(cards.into_iter()))
}

/// What enumerating gives, the first time, the second time and so on.
struct Shelf<S>(std::vec::IntoIter<Result<Vec<Result<S, SmartcardError>>, SmartcardError>>);

impl<S: CardSource> CardReaders for Shelf<S> {
    type Card = S::Card;
    type Feed = Feed<S>;

    fn enumerate(&mut self) -> Result<Feed<S>, SmartcardError> {
        let cards = self.0.next().expect("no further enumeration is expected")?;
        Ok(Feed(cards.into_iter()))
    }
}

fn readers<S: CardSource>(
    enumerations: Vec<Result<Vec<Result<S, SmartcardError>>, SmartcardError>>,
) -> Readers<Shelf<S>> {
    Readers::new(Shelf(enumerations.into_iter()))
}

impl OpenCard for Opened {
    type Pin = SecretString;
    type Transaction<'a> = InTransaction<'a>;

    fn transaction(&mut self) -> Result<InTransaction<'_>, Error> {
        Ok(InTransaction(self.0.transaction()?))
    }
}

impl TransactionCard for InTransaction<'_> {
    type Pin = SecretString;

    fn application_identifier(&mut self) -> Result<ApplicationIdentifier, Error> {
        self.0.application_identifier()
    }

    fn verify_user_pin(&mut self, pin: &str) -> Result<(), Error> {
        self.0.verify_user_pin(SecretString::from(pin))
    }

    fn verify_admin_pin(&mut self, pin: &str) -> Result<(), Error> {
        self.0.verify_admin_pin(SecretString::from(pin))
    }

    fn verify_user_signing_pin(&mut self, pin: &SecretString) -> Result<(), Error> {
        self.0.verify_user_signing_pin(pin.clone())
    }

    fn public_key_material(&mut self, slot: KeySlot) -> Result<PublicKeyMaterial, Error> {
        self.0.public_key_material(key_type(slot))
    }

    fn signature_for_hash(&mut self, algo: SigningAlgo, data: &[u8]) -> Result<Vec<u8>, Error> {
        self.0.card().signature_for_hash(signing_algo(algo), data)
    }
}

fn signing_algo(algo: SigningAlgo) -> Algo {
    match algo {
        SigningAlgo::Ecc => Algo::ECC,
        SigningAlgo::Rsa(HashAlgo::Sha1) => Algo::RSA(CardHash::SHA1),
        SigningAlgo::Rsa(HashAlgo::Sha256) => Algo::RSA(CardHash::SHA256),
        SigningAlgo::Rsa(HashAlgo::Sha384) => Algo::RSA(CardHash::SHA384),
        SigningAlgo::Rsa(HashAlgo::Sha512) => Algo::RSA(CardHash::SHA512),
    }
}

impl AdminCard for WithAdmin<'_, '_> {
    fn set_algorithm(&mut self, slot: KeySlot, algorithm: SlotAlgorithm) -> Result<(), Error> {
        let algorithm = match algorithm {
            SlotAlgorithm::Rsa1k => AlgoSimple::RSA1k,
            SlotAlgorithm::Rsa2k => AlgoSimple::RSA2k,
            SlotAlgorithm::Rsa3k => AlgoSimple::RSA3k,
            SlotAlgorithm::Rsa4k => AlgoSimple::RSA4k,
            SlotAlgorithm::Nist256 => AlgoSimple::NIST256,
            SlotAlgorithm::Nist384 => AlgoSimple::NIST384,
            SlotAlgorithm::Nist521 => AlgoSimple::NIST521,
            SlotAlgorithm::Curve25519 => AlgoSimple::Curve25519,
        };
        self.0.set_algorithm(key_type(slot), algorithm)
    }

    fn generate_key<F: FingerprintRule>(
        &mut self,
        slot: KeySlot,
    ) -> Result<PublicKeyMaterial, Error> {
        let (key, _generated_at) = self.0.generate_key(F::fingerprint, key_type(slot))?;
        Ok(key)
    }

    fn set_touch_policy(&mut self, slot: KeySlot, policy: TouchPolicy) -> Result<(), Error> {
        let policy = match policy {
            TouchPolicy::Off => Policy::Off,
            TouchPolicy::On => Policy::On,
            TouchPolicy::Fixed => Policy::Fixed,
            TouchPolicy::Cached => Policy::Cached,
            TouchPolicy::CachedFixed => Policy::CachedFixed,
            TouchPolicy::Unknown(code) => Policy::Unknown(code),
        };
        self.0.set_touch_policy(key_type(slot), policy)
    }
}

fn open(fake: FakeCard) -> Card<state::Open> {
    Card::new(Backend(fake)).expect("Card::new should SELECT + read ART")
}

fn session<'a>(card: &'a mut Card<state::Open>) -> Session<InTransaction<'a>> {
    Session::new(InTransaction(card.transaction().expect("transaction should start")))
}

fn user_pin() -> SecretString {
    SecretString::from(pin::FACTORY_DEFAULT_USER_PIN)
}

fn admin_pin() -> SecretString {
    SecretString::from(pin::FACTORY_DEFAULT_ADMIN_PIN)
}

/// An open card with a key in its Signature slot.
fn provisioned_card_from(fake: FakeCard) -> OpenedCard<Opened> {
    OpenedCard::new(provisioned(fake))
}

fn provisioned(fake: FakeCard) -> Opened {
    let mut card = open(fake);
    {
        let mut tx = card.transaction().expect("transaction should start");
        let admin = tx
            .as_admin_card(admin_pin())
            .expect("admin PIN should verify against the fake's factory-default PW3");
        generate_signature_key(&mut AdminSession::new(WithAdmin(admin)))
            .expect("key generation should succeed against the fake");
    }
    Opened(card)
}

fn provisioned_card() -> OpenedCard<Opened> {
    provisioned_card_from(FakeCard::new())
}

fn fake_fingerprint(
    _pub_key: &PublicKeyMaterial,
    _ts: KeyGenerationTime,
    _key_type: KeyType,
) -> Result<Fingerprint, Error> {
    Fingerprint::try_from(&[0xEE_u8; 20][..])
}

// Discovery.

#[test]
fn discovers_the_first_present_fake_card() {
    let backends: Vec<Result<Backend, SmartcardError>> = vec![Ok(Backend(FakeCard::new()))];

    assert!(discover_card_from(&mut candidates(backends)).is_ok());
}

#[test]
fn empty_reader_list_reports_card_not_found() {
    let backends: Vec<Result<Backend, SmartcardError>> = vec![];

    let err = discover_card_from(&mut candidates(backends)).err().expect("empty reader list should fail");
    assert!(matches!(err, YubiError::CardNotFound(_)));
}

#[test]
fn absent_card_is_skipped_and_reports_card_not_found() {
    let backends: Vec<Result<Backend, SmartcardError>> = vec![Ok(Backend(FakeCard::absent()))];

    let err = discover_card_from(&mut candidates(backends)).err().expect("absent card should not be selected");
    assert!(matches!(err, YubiError::CardNotFound(_)));
}

#[test]
fn falls_through_an_absent_card_to_a_present_one() {
    let backends: Vec<Result<Backend, SmartcardError>> =
        vec![Ok(Backend(FakeCard::absent())), Ok(Backend(FakeCard::new()))];

    assert!(discover_card_from(&mut candidates(backends)).is_ok());
}

#[test]
fn reads_the_fake_cards_serial_as_a_manufacturer_colon_serial_string() {
    let mut card = open(FakeCard::new());
    let mut tx = session(&mut card);

    let serial = read_serial(&mut tx).unwrap();
    assert_eq!(serial, "0006:00112233");
}

#[test]
fn falls_through_broken_cards_and_failed_connections() {
    let backends: Vec<Result<Backend, SmartcardError>> = vec![
        Err(SmartcardError::Error("no connection".to_string())),
        Ok(Backend(FakeCard::broken())),
        Ok(Backend(FakeCard::new().with_changed_user_pin(b"111111"))),
        Ok(Backend(FakeCard::new())),
    ];

    let mut found =
        discover_card_from(&mut candidates(backends)).ok().expect("the third card is usable");
    // The third card, not the fourth: its User PIN is not the shipped one.
    let signed = YubiKeySigner::sign_with_open_card(&mut found, &user_pin(), b"message");
    assert!(matches!(signed, Err(YubiError::PinIncorrect)));
}

#[test]
fn unusable_cards_in_front_do_not_change_the_card_that_is_found() {
    let rest = || -> Vec<Result<Backend, SmartcardError>> {
        vec![
            Ok(Backend(FakeCard::new().with_changed_user_pin(b"222222"))),
            Ok(Backend(FakeCard::new().with_changed_user_pin(b"333333"))),
        ]
    };
    let mut longer: Vec<Result<Backend, SmartcardError>> = vec![
        Ok(Backend(FakeCard::absent())),
        Err(SmartcardError::Error("no connection".to_string())),
        Ok(Backend(FakeCard::broken())),
    ];
    longer.extend(rest());

    for cards in [rest(), longer] {
        let found = discover_card_from(&mut candidates(cards)).ok().expect("a card is usable");
        let mut card = found.into_card().0;
        let mut tx = card.transaction().unwrap();
        assert!(tx.verify_user_pin(SecretString::from("222222")).is_ok());
    }
}

/// A connection that counts how often a card was opened.
struct Counted(Backend, Rc<Cell<usize>>);

impl CardSource for Counted {
    type Card = Opened;

    fn open(self) -> Result<Opened, Error> {
        self.1.set(self.1.get() + 1);
        self.0.open()
    }
}

#[test]
fn candidates_behind_the_first_usable_one_stay_unopened_and_untaken() {
    let opened = Rc::new(Cell::new(0));
    let card = |fake: FakeCard| Ok(Counted(Backend(fake), opened.clone()));
    let backends: Vec<Result<Counted, SmartcardError>> = vec![
        card(FakeCard::absent()),
        card(FakeCard::new()),
        card(FakeCard::new()),
        card(FakeCard::new()),
    ];
    let mut cards = candidates(backends);

    assert!(discover_card_from(&mut cards).is_ok());
    assert_eq!(opened.get(), 2);
    assert!(discover_card_from(&mut cards).is_ok());
    assert!(discover_card_from(&mut cards).is_ok());
    assert_eq!(opened.get(), 4);
    assert!(discover_card_from(&mut cards).is_err());
}

#[test]
fn only_broken_cards_report_card_not_found_with_the_whole_text() {
    let backends: Vec<Result<Backend, SmartcardError>> =
        vec![Ok(Backend(FakeCard::broken())), Ok(Backend(FakeCard::absent()))];

    let err = discover_card_from(&mut candidates(backends)).err().expect("no usable card");
    assert_eq!(
        err.message(),
        "no OpenPGP-capable card found on any connected PC/SC reader — insert a YubiKey and retry"
    );
}

#[test]
fn a_failed_enumeration_is_reported_with_its_cause() {
    let mut readers = readers::<Backend>(vec![Err(SmartcardError::ContextError(
        "no service".to_string(),
    ))]);
    let err = discover_real_card(&mut readers).err().expect("nothing was enumerated");
    assert_eq!(
        err.message(),
        "could not establish a PC/SC context (no service) — is pcscd running?"
    );
    assert!(matches!(err, YubiError::CardNotFound(_)));
}

#[test]
fn an_enumeration_that_worked_leads_to_the_card() {
    let mut readers = readers(vec![Ok(vec![
        Ok(Backend(FakeCard::absent())),
        Ok(Backend(FakeCard::new())),
    ])]);
    let found = discover_real_card(&mut readers).ok().expect("the second card is usable");
    let mut card = found.into_card().0;
    assert_eq!(card.transaction().unwrap().application_identifier().unwrap().serial(), 0x0011_2233);
}

// PINs.

#[test]
fn factory_default_pins_are_detected() {
    let mut card = open(FakeCard::new());
    let mut tx = session(&mut card);

    assert!(is_pin_factory_default(&mut tx).unwrap());
}

#[test]
fn require_pin_changed_blocks_on_factory_default() {
    let mut card = open(FakeCard::new());
    let mut tx = session(&mut card);

    let err = require_pin_changed(&mut tx).unwrap_err();
    assert!(matches!(err, YubiError::PinStillFactoryDefault));
}

#[test]
fn changed_user_pin_alone_is_still_reported_as_default_via_admin_pin() {
    let mut card = open(FakeCard::new().with_changed_user_pin(b"000000"));
    let mut tx = session(&mut card);

    assert!(is_pin_factory_default(&mut tx).unwrap());
}

#[test]
fn changed_admin_pin_alone_is_still_reported_as_default_via_user_pin() {
    let mut card = open(FakeCard::new().with_changed_admin_pin(b"00000000"));
    let mut tx = session(&mut card);

    assert!(is_pin_factory_default(&mut tx).unwrap());
}

#[test]
fn both_pins_changed_are_reported_as_not_default() {
    let fake =
        FakeCard::new().with_changed_user_pin(b"000000").with_changed_admin_pin(b"00000000");
    let mut card = open(fake);
    let mut tx = session(&mut card);

    assert!(!is_pin_factory_default(&mut tx).unwrap());
    assert!(require_pin_changed(&mut tx).is_ok());
}

#[test]
fn blocked_user_pin_surfaces_as_pin_blocked_not_a_default_verdict() {
    let mut card = open(FakeCard::new().with_changed_user_pin(b"000000"));
    let mut tx = session(&mut card);

    for _ in 0..3 {
        is_pin_factory_default(&mut tx).unwrap();
    }

    let err = is_pin_factory_default(&mut tx).unwrap_err();
    assert!(matches!(err, YubiError::PinBlocked { .. }));
}

#[test]
fn blocked_pins_are_reported_under_their_names() {
    let mut card = open(FakeCard::new().with_changed_user_pin(b"000000"));
    let mut tx = session(&mut card);
    for _ in 0..3 {
        is_pin_factory_default(&mut tx).unwrap();
    }
    match is_pin_factory_default(&mut tx).unwrap_err() {
        YubiError::PinBlocked { pin_kind, .. } => assert_eq!(pin_kind, "User"),
        other => panic!("unexpected {other:?}"),
    }

    let mut card = open(FakeCard::new().with_changed_admin_pin(b"00000000"));
    let mut tx = session(&mut card);
    for _ in 0..3 {
        is_pin_factory_default(&mut tx).unwrap();
    }
    match require_pin_changed(&mut tx).unwrap_err() {
        YubiError::PinBlocked { pin_kind, recovery_hint } => {
            assert_eq!(pin_kind, "Admin");
            assert!(recovery_hint.contains("cannot be recovered"));
        }
        other => panic!("unexpected {other:?}"),
    }
}

// Setting up a card.

#[test]
fn generates_an_ed25519_key_on_the_signature_slot() {
    let mut card = open(FakeCard::new());
    let mut tx = card.transaction().unwrap();
    let admin = tx.as_admin_card(admin_pin()).unwrap();

    let pub_key = generate_signature_key(&mut AdminSession::new(WithAdmin(admin)))
        .expect("key generation should succeed against the fake");

    assert_eq!(<[u8; 32]>::from(pub_key), FakeCard::fake_public_key());
    assert_eq!(pub_key, PublicKeyBytes::new(FakeCard::fake_public_key()));
}

#[test]
fn generating_a_key_without_admin_auth_is_rejected() {
    let mut card = open(FakeCard::new());
    let mut tx = card.transaction().unwrap();
    let admin = tx.as_admin_card(None::<SecretString>).unwrap();

    let err = generate_signature_key(&mut AdminSession::new(WithAdmin(admin)))
        .expect_err("key generation without a verified admin PIN should be rejected");

    assert!(matches!(err, YubiError::AdminAuthRequired));
}

#[test]
fn sets_the_signature_touch_policy_to_fixed() {
    let mut card = open(FakeCard::new());
    let mut tx = card.transaction().unwrap();
    let admin = tx.as_admin_card(admin_pin()).unwrap();

    set_signature_touch_policy_fixed(&mut AdminSession::new(WithAdmin(admin)))
        .expect("touch policy should be settable against the fake");

    let flag = tx
        .user_interaction_flag(KeyType::Signing)
        .expect("re-reading the UIF after invalidating the ART cache should succeed")
        .expect("the fake always reports a UIF for the Signing slot");
    assert_eq!(flag.touch_policy(), Policy::Fixed);
}

#[test]
fn setting_touch_policy_without_admin_auth_is_rejected() {
    let mut card = open(FakeCard::new());
    let mut tx = card.transaction().unwrap();
    let admin = tx.as_admin_card(None::<SecretString>).unwrap();

    let err = set_signature_touch_policy_fixed(&mut AdminSession::new(WithAdmin(admin)))
        .expect_err("setting touch policy without a verified admin PIN should be rejected");

    assert!(matches!(err, YubiError::AdminAuthRequired));
}

#[test]
fn the_stored_fingerprint_is_the_beginning_of_the_key() {
    let mut card = provisioned(FakeCard::new()).0;
    let mut tx = card.transaction().unwrap();
    let key = tx.public_key_material(KeyType::Signing).unwrap();

    let fingerprint =
        key_slot_fingerprint(&key, KeyGenerationTime::from(7), KeyType::Signing).unwrap();
    assert_eq!(fingerprint.as_bytes(), [0xAB; 20]);
}

// Signing.

#[test]
fn successful_sign_returns_the_fakes_fabricated_signature() {
    let mut card = provisioned_card();

    let signature = YubiKeySigner::sign_with_open_card(&mut card, &user_pin(), b"hello, aivyx")
    .expect("signing should succeed against the fake");

    assert_eq!(signature, FakeCard::fake_signature());
    assert_eq!(signature.len(), 64);
}

#[test]
fn public_key_and_card_serial_reflect_the_fakes_identity() {
    let mut card = provisioned_card();

    let signer = YubiKeySigner::from_open_card(&mut card, user_pin())
        .expect("construction should succeed against the fake");

    assert_eq!(signer.public_key(), FakeCard::fake_public_key());
    assert_eq!(signer.card_serial(), "0006:00112233");
}

#[test]
fn card_absent_is_mapped_to_card_not_found_during_construction() {
    let backends: Vec<Result<Backend, SmartcardError>> = vec![Ok(Backend(FakeCard::absent()))];

    let err = YubiKeySigner::discover_and_construct(&mut candidates(backends), user_pin())
        .expect_err("construction against an absent card should fail");

    assert!(matches!(err, YubiError::CardNotFound(_)));
}

#[test]
fn card_absent_is_mapped_to_card_not_found_during_sign() {
    let backends: Vec<Result<Backend, SmartcardError>> = vec![Ok(Backend(FakeCard::absent()))];

    let err = YubiKeySigner::discover_and_sign(&mut candidates(backends), &user_pin(), b"message")
    .expect_err("signing against an absent card should fail");

    assert!(matches!(err, YubiError::CardNotFound(_)));
}

#[test]
fn wrong_pin_during_signing_is_mapped_to_pin_incorrect() {
    let mut card = provisioned_card_from(FakeCard::new().with_changed_user_pin(b"000000"));
    let wrong_pin = SecretString::from("999999");

    let err = YubiKeySigner::sign_with_open_card(&mut card, &wrong_pin, b"message")
        .expect_err("signing with the wrong PIN should fail");

    assert!(matches!(err, YubiError::PinIncorrect));
}

#[test]
fn touch_timeout_during_signing_is_mapped_to_touch_timeout() {
    let mut card = provisioned_card_from(FakeCard::new().with_touch_timeout());

    let err = YubiKeySigner::sign_with_open_card(&mut card, &user_pin(), b"message")
        .expect_err("a simulated touch timeout should fail signing");

    assert!(matches!(err, YubiError::TouchTimeout));
}

#[test]
fn blocked_user_pin_during_signing_is_labeled_as_the_user_pin_not_the_generic_fallback() {
    let err = map_signing_pin_error(Error::CardStatus(StatusBytes::AuthenticationMethodBlocked));

    match err {
        YubiError::PinBlocked { pin_kind, recovery_hint } => {
            assert_eq!(pin_kind, "User");
            assert!(recovery_hint.contains("Admin PIN"));
            assert!(!recovery_hint.contains("cannot be recovered"));
        }
        other => {
            panic!("expected YubiError::PinBlocked{{pin_kind: \"User\", ..}}, got {other:?}")
        }
    }
}

#[test]
fn smartcard_transport_error_during_signing_is_mapped_to_touch_timeout() {
    let err = map_sign_error(Error::Smartcard(SmartcardError::Error(
        "Transmit failed: Timeout".to_string(),
    )));

    assert!(matches!(err, YubiError::TouchTimeout));
}

#[test]
fn a_signer_signs_again_and_again_and_stays_as_it_is() {
    let shelf = || Ok(vec![Ok(Prepared(provisioned(FakeCard::new())))]);
    let mut readers = readers(vec![
        shelf(),
        shelf(),
        shelf(),
        shelf(),
        Err(SmartcardError::NoReaderFoundError),
    ]);
    let mut signer = YubiKeySigner::new(&mut readers, user_pin()).unwrap();

    for _ in 0..3 {
        let signature = signer.sign(&mut readers, b"message").unwrap();
        assert_eq!(signature, FakeCard::fake_signature());
        assert_eq!(signer.public_key(), FakeCard::fake_public_key());
        assert_eq!(signer.card_serial(), "0006:00112233");
    }

    // The card is gone; the signer is not.
    let err = signer.sign(&mut readers, b"message").unwrap_err();
    assert_eq!(err.message(), "no PC/SC reader found — is a YubiKey plugged in?");
    assert_eq!(signer.card_serial(), "0006:00112233");
}

#[test]
fn making_a_signer_costs_no_try_whatever_the_pin() {
    let mut card = provisioned_card();
    let right = YubiKeySigner::from_open_card(&mut card, user_pin()).unwrap();
    for _ in 0..5 {
        let wrong =
            YubiKeySigner::from_open_card(&mut card, SecretString::from("999999")).unwrap();
        assert_eq!(wrong.public_key(), right.public_key());
        assert_eq!(wrong.card_serial(), right.card_serial());
    }
    assert!(YubiKeySigner::sign_with_open_card(&mut card, &user_pin(), b"").is_ok());
}

#[test]
fn a_signature_with_a_wrong_pin_costs_one_try() {
    let mut fake = provisioned(FakeCard::new().with_changed_user_pin(b"000000")).0;
    {
        let mut tx = session(&mut fake);
        let signed =
            YubiKeySigner::sign_in_transaction(&mut tx, &SecretString::from("999999"), b"message");
        assert!(matches!(signed, Err(YubiError::PinIncorrect)));
    }
    let mut tx = fake.transaction().unwrap();
    match tx.verify_user_signing_pin(SecretString::from("999999")).unwrap_err() {
        Error::CardStatus(StatusBytes::PasswordNotChecked(left)) => assert_eq!(left, 1),
        other => panic!("unexpected {other:?}"),
    }
}

#[test]
fn each_check_costs_a_changed_user_pin_one_try_and_the_admin_pin_none() {
    for n in 0..3 {
        let mut fake = open(FakeCard::new().with_changed_user_pin(b"000000"));
        {
            let mut tx = session(&mut fake);
            for _ in 0..n {
                assert!(is_pin_factory_default(&mut tx).unwrap());
            }
        }
        let mut tx = fake.transaction().unwrap();
        match tx.verify_user_pin(SecretString::from("999999")).unwrap_err() {
            Error::CardStatus(StatusBytes::PasswordNotChecked(left)) => assert_eq!(left, 2 - n),
            other => panic!("unexpected {other:?}"),
        }
        match tx.verify_admin_pin(SecretString::from("99999999")).unwrap_err() {
            Error::CardStatus(StatusBytes::PasswordNotChecked(left)) => assert_eq!(left, 2),
            other => panic!("unexpected {other:?}"),
        }
    }
}

/// A card that is open already, as something to open.
struct Prepared(Opened);

impl CardSource for Prepared {
    type Card = Opened;

    fn open(self) -> Result<Opened, Error> {
        Ok(self.0)
    }
}

#[test]
fn a_signer_needs_a_key_in_the_signature_slot() {
    let mut card = open(FakeCard::new());
    let mut tx = session(&mut card);

    let err = read_signature_public_key(&mut tx).unwrap_err();
    assert!(matches!(err, YubiError::Other(_)));
}

#[test]
fn debug_output_of_a_signer_does_not_show_the_pin() {
    let signer = YubiKeySigner::from_open_card(&mut provisioned_card(), user_pin()).unwrap();

    let shown = format!("{signer:?}");
    assert!(shown.contains("0006:00112233"));
    assert!(!shown.contains(pin::FACTORY_DEFAULT_USER_PIN));
}

// The fake card itself.

#[test]
fn smoke_full_lifecycle() {
    let fake = FakeCard::new();
    assert!(fake.is_default_pins());

    let mut card = Card::new(Backend(fake)).expect("Card::new should SELECT + read ART");
    let mut tx = card.transaction().expect("transaction should start");

    let aid = tx
        .application_identifier()
        .expect("application_identifier should read from the cached ART");
    assert_eq!(aid.manufacturer(), 0x0006);
    assert_eq!(aid.serial(), 0x0011_2233);

    let mut admin = tx
        .as_admin_card(admin_pin())
        .expect("admin PIN should verify against the fake's factory-default PW3");

    let (pub_key, _ts) = admin
        .generate_key(fake_fingerprint, KeyType::Signing)
        .expect("key generation should succeed against the fake");

    match pub_key {
        PublicKeyMaterial::E(ecc) => {
            assert_eq!(ecc.data(), FakeCard::fake_public_key());
        }
        PublicKeyMaterial::R(_) => panic!("expected an ECC (Ed25519) public key"),
    }

    admin
        .set_touch_policy(KeyType::Signing, Policy::On)
        .expect("touch policy should be settable against the fake");

    tx.verify_user_signing_pin(user_pin())
        .expect("user PIN should verify against the fake's factory-default PW1");

    let signature = tx
        .card()
        .signature_for_hash(
            Algo::ECC,
            b"some message digest",
        )
        .expect("signing should succeed against the fake");

    assert_eq!(signature, FakeCard::fake_signature());
}

#[test]
fn absent_card_fails_at_transaction() {
    let mut fake = Backend(FakeCard::absent());
    let err = CardBackend::transaction(&mut fake, None)
        .err()
        .expect("transaction on an absent card should fail");
    assert!(matches!(err, SmartcardError::CardNotFound(_)));
}

#[test]
fn wrong_pin_is_rejected_and_reported_as_password_not_checked() {
    let mut card = open(FakeCard::new().with_changed_user_pin(b"000000"));
    let mut tx = card.transaction().unwrap();

    let wrong_pin = SecretString::from("999999");
    let err = tx.verify_user_signing_pin(wrong_pin).expect_err("wrong PIN should be rejected");

    match err {
        Error::CardStatus(status) => {
            assert!(matches!(status, StatusBytes::PasswordNotChecked(_)));
        }
        other => panic!("expected a CardStatus error, got {other:?}"),
    }
}

#[test]
fn signing_without_verified_pin_is_rejected_as_security_status_not_satisfied() {
    let mut card = open(FakeCard::new());
    let mut tx = card.transaction().unwrap();

    let err = tx
        .card()
        .signature_for_hash(
            Algo::ECC,
            b"some message digest",
        )
        .expect_err("signing without a verified PIN should be rejected");

    match err {
        Error::CardStatus(status) => {
            assert!(matches!(status, StatusBytes::SecurityStatusNotSatisfied));
        }
        other => panic!("expected a CardStatus error, got {other:?}"),
    }
}

#[test]
fn generating_a_key_without_verified_admin_pin_is_rejected_as_security_status_not_satisfied() {
    let mut card = open(FakeCard::new());
    let mut tx = card.transaction().unwrap();

    let err = tx
        .card()
        .generate_key(fake_fingerprint, KeyType::Signing)
        .expect_err("key generation without a verified admin PIN should be rejected");

    match err {
        Error::CardStatus(status) => {
            assert!(matches!(status, StatusBytes::SecurityStatusNotSatisfied));
        }
        other => panic!("expected a CardStatus error, got {other:?}"),
    }
}

#[test]
fn touch_timeout_surfaces_as_a_smartcard_error() {
    let mut card = open(FakeCard::new().with_touch_timeout());
    let mut tx = card.transaction().unwrap();

    tx.verify_user_signing_pin(user_pin()).unwrap();

    let err = tx
        .card()
        .signature_for_hash(Algo::ECC, b"digest")
        .expect_err("touch timeout should surface as an error");

    assert!(matches!(err, Error::Smartcard(_)));
}

#[test]
fn wrong_pins_count_down_to_blocked() {
    let mut card = open(FakeCard::new().with_changed_user_pin(b"000000"));
    let mut tx = card.transaction().unwrap();

    for left in [2, 1, 0] {
        match tx.verify_user_signing_pin(SecretString::from("999999")).unwrap_err() {
            Error::CardStatus(StatusBytes::PasswordNotChecked(n)) => assert_eq!(n, left),
            other => panic!("unexpected {other:?}"),
        }
    }
    assert!(matches!(
        tx.verify_user_signing_pin(SecretString::from("999999")),
        Err(Error::CardStatus(StatusBytes::AuthenticationMethodBlocked))
    ));
}

#[test]
fn a_blocked_pin_during_signing_is_the_users() {
    let mut card = provisioned_card_from(FakeCard::new().with_changed_user_pin(b"000000"));
    let wrong_pin = SecretString::from("999999");
    for _ in 0..3 {
        let signed = YubiKeySigner::sign_with_open_card(&mut card, &wrong_pin, b"message");
        assert!(matches!(signed, Err(YubiError::PinIncorrect)));
    }
    match YubiKeySigner::sign_with_open_card(&mut card, &wrong_pin, b"message") {
        Err(YubiError::PinBlocked { pin_kind, .. }) => assert_eq!(pin_kind, "User"),
        other => panic!("unexpected {other:?}"),
    }
}
