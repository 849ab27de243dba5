//! The decisions of the library on given values.

use aivyx_yubi::discovery::{map_enumeration_error, map_enumeration_failure};
use aivyx_yubi::pin::{judge_probe, verify_matches_default, PinKind};
use aivyx_yubi::provision::{
    accept_generated_key, fingerprint_of_key, key_slot_fingerprint, map_admin_op_error,
    map_admin_op_failure, PublicKeyBytes,
};
use aivyx_yubi::reply::{
    CardFailure, CurveName, EccKind, FailureKind, KeyAlgorithm, KeyMaterial, ReaderFailure,
};
use aivyx_yubi::sign::{
    accept_held_key, accept_signature, map_sign_error, map_sign_failure, map_signing_pin_error,
    map_signing_pin_failure,
};
use aivyx_yubi::testing::{FakeCard, TransportFailure};
use aivyx_yubi::tlv::{tlv, tlv_len};
use aivyx_yubi::YubiError;
use card_backend::SmartcardError;
use openpgp_card::ocard::algorithm::{AlgorithmAttributes, Curve, EccAttributes};
use openpgp_card::ocard::crypto::{EccPub, EccType, PublicKeyMaterial, RSAPub};
use openpgp_card::ocard::data::KeyGenerationTime;
use openpgp_card::ocard::{KeyType, StatusBytes};
use openpgp_card::Error;

fn failure(kind: FailureKind, text: &str) -> CardFailure {
    CardFailure { kind, text: text.to_string() }
}

fn ecc_key(kind: EccType, curve: Curve, point: Vec<u8>) -> PublicKeyMaterial {
    let algo = AlgorithmAttributes::Ecc(EccAttributes::new(kind, curve, None));
    PublicKeyMaterial::E(EccPub::new(point, algo))
}

fn point(bytes: usize) -> KeyMaterial {
    KeyMaterial::Ecc {
        point: (0..bytes).map(|i| i as u8).collect(),
        algorithm: KeyAlgorithm::Ecc { kind: EccKind::EdDsa, curve: CurveName::Ed25519 },
        description: "a description".to_string(),
    }
}

fn text_of<T>(r: Result<T, YubiError>) -> String {
    match r {
        Ok(_) => panic!("expected an error"),
        Err(err) => {
            assert!(matches!(err, YubiError::Other(_)));
            err.message()
        }
    }
}

// Errors and their sentences.

#[test]
fn every_error_has_its_sentence() {
    assert_eq!(YubiError::CardNotFound("gone".to_string()).message(), "gone");
    assert_eq!(
        YubiError::PinStillFactoryDefault.message(),
        "card PIN is still the factory default (123456/12345678) — change it via the standard \
         OpenPGP-card PIN-change command before proceeding"
    );
    assert_eq!(
        YubiError::WrongCard {
            expected: "0006:00000001".to_string(),
            found: "0006:00000002".to_string()
        }
        .message(),
        "wrong YubiKey inserted: expected card serial 0006:00000001, found 0006:00000002"
    );
    assert_eq!(
        YubiError::TouchTimeout.message(),
        "timed out waiting for a physical touch confirmation on the card"
    );
    assert_eq!(YubiError::PinIncorrect.message(), "PIN incorrect");
    assert_eq!(
        PinKind::User.blocked_error().message(),
        "User PIN is blocked (too many incorrect attempts) — unblock it via the Admin PIN/Reset \
         Code before proceeding"
    );
    assert_eq!(
        YubiError::AdminAuthRequired.message(),
        "the Admin PIN must be verified on the card before this operation"
    );
    assert_eq!(YubiError::Other("anything".to_string()).message(), "anything");
}

#[test]
fn a_card_error_becomes_an_error_of_this_crate() {
    let rejected = YubiError::from(Error::CardStatus(StatusBytes::PasswordNotChecked(2)));
    assert!(matches!(rejected, YubiError::PinIncorrect));

    let blocked = YubiError::from(Error::CardStatus(StatusBytes::AuthenticationMethodBlocked));
    assert!(matches!(blocked, YubiError::PinBlocked { .. }));
    assert_eq!(
        blocked.message(),
        "PIN is blocked (too many incorrect attempts) — unblock it via the admin PIN/Reset Code \
         before proceeding"
    );

    let refused = YubiError::from(Error::CardStatus(StatusBytes::SecurityStatusNotSatisfied));
    assert_eq!(refused.message(), "OpenPGP card error status: Security status not satisfied");
    let transport = YubiError::from(Error::Smartcard(SmartcardError::NoReaderFoundError));
    assert_eq!(transport.message(), "Error interacting with smartcard: No reader found.");
    let missing = YubiError::from(Error::NotFound("a thing".to_string()));
    assert_eq!(missing.message(), "Data not found: a thing");
    let other = YubiError::from(Error::CardStatus(StatusBytes::MemoryFailure));
    assert_eq!(other.message(), "OpenPGP card error status: Memory failure");
}

#[test]
fn card_errors_are_read_into_plain_values() {
    let rejected = CardFailure::of(&Error::CardStatus(StatusBytes::PasswordNotChecked(2)));
    assert_eq!(rejected.kind, FailureKind::PasswordNotChecked { retries: 2 });
    assert_eq!(
        rejected.text,
        "OpenPGP card error status: Password not checked, 2 allowed retries"
    );
    let status = CardFailure::of(&Error::CardStatus(StatusBytes::MemoryFailure));
    assert_eq!(status.kind, FailureKind::OtherStatus);
    let transport = CardFailure::of(&Error::Smartcard(SmartcardError::NoReaderFoundError));
    assert_eq!(transport.kind, FailureKind::Smartcard);
    let other = CardFailure::of(&Error::ResponseLength(3));
    assert_eq!(other.kind, FailureKind::Other);
    assert_eq!(other.text, "Unexpected response length: 3");
}

// Enumerating readers.

#[test]
fn a_failed_enumeration_names_the_likely_cause() {
    let context = map_enumeration_error(SmartcardError::ContextError("why".to_string()));
    assert_eq!(context.message(), "could not establish a PC/SC context (why) — is pcscd running?");
    assert!(matches!(context, YubiError::CardNotFound(_)));

    let readers = map_enumeration_error(SmartcardError::ReaderError("why".to_string()));
    assert_eq!(readers.message(), "could not list PC/SC readers (why) — is pcscd running?");
    assert!(matches!(readers, YubiError::CardNotFound(_)));

    let none = map_enumeration_error(SmartcardError::NoReaderFoundError);
    assert_eq!(none.message(), "no PC/SC reader found — is a YubiKey plugged in?");
    assert!(matches!(none, YubiError::CardNotFound(_)));

    let other = map_enumeration_error(SmartcardError::CardNotFound("0006:1".to_string()));
    assert_eq!(other.message(), "The requested card '0006:1' was not found.");
    assert!(matches!(other, YubiError::Other(_)));
}

#[test]
fn reader_failures_map_like_the_errors_they_stand_for() {
    let err = map_enumeration_failure(ReaderFailure::Readers("busy".to_string()));
    assert_eq!(err.message(), "could not list PC/SC readers (busy) — is pcscd running?");
    let err = map_enumeration_failure(ReaderFailure::Other("odd".to_string()));
    assert!(matches!(err, YubiError::Other(text) if text == "odd"));
}

// PINs.

#[test]
fn a_probe_tells_default_changed_or_nothing() {
    assert!(matches!(judge_probe(PinKind::User, Ok(())), Ok(true)));
    let wrong = failure(FailureKind::PasswordNotChecked { retries: 1 }, "");
    assert!(matches!(judge_probe(PinKind::Admin, Err(wrong)), Ok(false)));

    let blocked = failure(FailureKind::AuthenticationMethodBlocked, "");
    match judge_probe(PinKind::Admin, Err(blocked)) {
        Err(YubiError::PinBlocked { pin_kind, recovery_hint }) => {
            assert_eq!(pin_kind, "Admin");
            assert_eq!(
                recovery_hint,
                "it cannot be recovered; factory-reset the card's OpenPGP application to go on"
            );
        }
        other => panic!("unexpected {other:?}"),
    }

    let transport = failure(FailureKind::Smartcard, "no answer");
    assert_eq!(text_of(judge_probe(PinKind::User, Err(transport))), "no answer");
}

#[test]
fn a_probe_reads_the_cards_own_errors() {
    assert!(matches!(verify_matches_default(PinKind::User, Ok(())), Ok(true)));
    let wrong = Error::CardStatus(StatusBytes::PasswordNotChecked(0));
    assert!(matches!(verify_matches_default(PinKind::User, Err(wrong)), Ok(false)));
    let odd = Error::CardStatus(StatusBytes::MemoryFailure);
    assert_eq!(
        text_of(verify_matches_default(PinKind::User, Err(odd))),
        "OpenPGP card error status: Memory failure"
    );
}

// Keys.

#[test]
fn a_key_keeps_its_bytes() {
    let bytes: [u8; 32] = [7; 32];
    let key = PublicKeyBytes::new(bytes);
    assert_eq!(key.as_ref(), &bytes[..]);
    assert_eq!(<[u8; 32]>::from(key), bytes);
    assert_ne!(key, PublicKeyBytes::new([8; 32]));
}

#[test]
fn an_ed25519_key_is_accepted() {
    let expected: Vec<u8> = (0..32).collect();
    assert_eq!(accept_generated_key(point(32)).unwrap().as_ref(), expected.as_slice());
    assert_eq!(accept_held_key(point(32)).unwrap().as_slice(), expected.as_slice());

    let real = ecc_key(EccType::EdDSA, Curve::Ed25519, expected.clone());
    assert_eq!(
        accept_generated_key(KeyMaterial::of(&real)).unwrap().as_ref(),
        expected.as_slice()
    );
    assert_eq!(accept_held_key(KeyMaterial::of(&real)).unwrap().as_slice(), expected.as_slice());
}

#[test]
fn a_point_of_the_wrong_length_is_rejected() {
    assert_eq!(
        text_of(accept_generated_key(point(33))),
        "card returned a 33-byte public key point for the Signature slot, expected exactly 32 \
         (Ed25519)"
    );
    assert_eq!(
        text_of(accept_generated_key(point(0))),
        "card returned a 0-byte public key point for the Signature slot, expected exactly 32 \
         (Ed25519)"
    );
    assert_eq!(
        text_of(accept_held_key(point(105))),
        "Signature slot's public key point is 105 bytes, expected exactly 32 (Ed25519)"
    );
}

#[test]
fn an_rsa_key_is_rejected() {
    let rsa = PublicKeyMaterial::R(RSAPub::new(vec![1; 32], vec![3]));
    assert_eq!(
        text_of(accept_generated_key(KeyMaterial::of(&rsa))),
        "card generated an RSA key in the Signature slot instead of Ed25519/EdDSA -- this card's \
         Signature slot algorithm attribute may not be changeable to Curve25519"
    );
    assert_eq!(
        text_of(accept_held_key(KeyMaterial::of(&rsa))),
        "Signature slot holds an RSA key, not Ed25519/EdDSA -- has \
         `provision::generate_signature_key` been run against this card?"
    );
}

#[test]
fn a_key_agreement_point_of_the_same_length_is_rejected() {
    let others = vec![
        (EccType::ECDH, Curve::Curve25519),
        (EccType::ECDH, Curve::Ed25519),
        (EccType::EdDSA, Curve::Curve25519),
        (EccType::ECDSA, Curve::NistP256r1),
    ];
    for (kind, curve) in others {
        let key = ecc_key(kind, curve.clone(), vec![9; 32]);
        let algo = AlgorithmAttributes::Ecc(EccAttributes::new(kind, curve, None));
        assert_eq!(
            text_of(accept_generated_key(KeyMaterial::of(&key))),
            format!(
                "card generated a {algo:?} key in the Signature slot instead of Ed25519/EdDSA -- \
                 this card's Signature slot algorithm attribute may not be changeable to \
                 Curve25519"
            )
        );
        assert_eq!(
            text_of(accept_held_key(KeyMaterial::of(&key))),
            format!(
                "Signature slot holds a {algo:?} key, not Ed25519/EdDSA -- has \
                 `provision::generate_signature_key` been run against this card?"
            )
        );
    }
}

#[test]
fn a_point_with_attributes_of_another_kind_is_rejected() {
    for algorithm in [KeyAlgorithm::Rsa, KeyAlgorithm::Unknown] {
        let key = KeyMaterial::Ecc {
            point: vec![9; 32],
            algorithm,
            description: "strange".to_string(),
        };
        assert!(text_of(accept_held_key(key)).starts_with("Signature slot holds a strange key"));
    }
}

#[test]
fn a_fingerprint_is_the_first_twenty_bytes_or_padded() {
    let expected: Vec<u8> = (0..20).collect();
    assert_eq!(fingerprint_of_key(&point(32)).as_slice(), expected.as_slice());

    let short = KeyMaterial::Rsa { modulus: vec![5, 6, 7] };
    let mut padded = [0u8; 20];
    padded[..3].copy_from_slice(&[5, 6, 7]);
    assert_eq!(fingerprint_of_key(&short), padded);

    let rsa = PublicKeyMaterial::R(RSAPub::new(vec![5, 6, 7], vec![3]));
    let stored =
        key_slot_fingerprint(&rsa, KeyGenerationTime::from(0), KeyType::Signing).unwrap();
    assert_eq!(stored.as_bytes(), padded);
}

#[test]
fn fingerprints_of_keys_that_begin_differently_differ() {
    let one = KeyMaterial::Rsa { modulus: vec![1; 32] };
    let mut bytes = vec![1; 32];
    bytes[19] = 2;
    let other = KeyMaterial::Rsa { modulus: bytes };
    assert_ne!(fingerprint_of_key(&one), fingerprint_of_key(&other));

    let mut bytes = vec![1; 32];
    bytes[20] = 2;
    let same_beginning = KeyMaterial::Rsa { modulus: bytes };
    assert_eq!(fingerprint_of_key(&one), fingerprint_of_key(&same_beginning));
}

// Failed operations.

#[test]
fn a_missing_admin_pin_is_told_apart() {
    let refused = failure(FailureKind::SecurityStatusNotSatisfied, "refused");
    assert!(matches!(map_admin_op_failure(refused), YubiError::AdminAuthRequired));
    let refused = Error::CardStatus(StatusBytes::SecurityStatusNotSatisfied);
    assert!(matches!(map_admin_op_error(refused), YubiError::AdminAuthRequired));
    let transport = failure(FailureKind::Smartcard, "no answer");
    assert_eq!(map_admin_op_failure(transport).message(), "no answer");
    let transport = Error::Smartcard(SmartcardError::Error("broken cable".to_string()));
    assert!(matches!(map_admin_op_error(transport), YubiError::Other(_)));
}

#[test]
fn a_failed_signing_pin_is_the_users() {
    let blocked = failure(FailureKind::AuthenticationMethodBlocked, "");
    match map_signing_pin_failure(blocked) {
        YubiError::PinBlocked { pin_kind, .. } => assert_eq!(pin_kind, "User"),
        other => panic!("unexpected {other:?}"),
    }
    let wrong = failure(FailureKind::PasswordNotChecked { retries: 2 }, "");
    assert!(matches!(map_signing_pin_failure(wrong), YubiError::PinIncorrect));
    let transport = Error::Smartcard(SmartcardError::NoReaderFoundError);
    assert!(matches!(map_signing_pin_error(transport), YubiError::Other(_)));
}

#[test]
fn only_a_failed_transmission_counts_as_a_missing_touch() {
    let transport = failure(FailureKind::Smartcard, "no answer");
    assert!(matches!(map_sign_failure(transport), YubiError::TouchTimeout));
    let refused = Error::CardStatus(StatusBytes::SecurityStatusNotSatisfied);
    assert_eq!(
        map_sign_error(refused).message(),
        "OpenPGP card error status: Security status not satisfied"
    );
}

#[test]
fn a_signature_has_sixty_four_bytes() {
    let bytes: Vec<u8> = (0..64).collect();
    assert_eq!(accept_signature(bytes.clone()).unwrap().as_slice(), bytes.as_slice());
    assert_eq!(
        text_of(accept_signature(vec![0; 63])),
        "card returned a 63-byte signature, expected exactly 64 (Ed25519)"
    );
    assert_eq!(
        text_of(accept_signature(vec![0; 1234])),
        "card returned a 1234-byte signature, expected exactly 64 (Ed25519)"
    );
}

// Data objects.

#[test]
fn length_fields_have_one_to_three_bytes() {
    assert_eq!(tlv_len(0), [0x00]);
    assert_eq!(tlv_len(127), [0x7f]);
    assert_eq!(tlv_len(128), [0x81, 0x80]);
    assert_eq!(tlv_len(255), [0x81, 0xff]);
    assert_eq!(tlv_len(256), [0x82, 0x01, 0x00]);
    assert_eq!(tlv_len(0xffff), [0x82, 0xff, 0xff]);
    assert_eq!(tlv_len(0x10000), [0x00]);
}

#[test]
fn a_data_object_is_tag_length_value() {
    assert_eq!(tlv(&[0x5f, 0x52], &[1, 2, 3]), [0x5f, 0x52, 0x03, 1, 2, 3]);
    let long = tlv(&[0xc5], &[7; 200]);
    assert_eq!(long[..3], [0xc5, 0x81, 200]);
    assert_eq!(long.len(), 203);
}

// The fake card, command by command.

#[test]
fn a_shipped_card_answers_select_and_application_data() {
    let mut card = FakeCard::default();
    assert!(card.transaction().is_ok());
    assert_eq!(card.transmit(&[0x00, 0xA4, 0x04, 0x00]).unwrap(), [0x90, 0x00]);

    let data = card.transmit(&[0x00, 0xCA, 0x00, 0x6e, 0x00]).unwrap();
    assert_eq!(
        data[..18],
        [
            0x4f, 0x10, 0xd2, 0x76, 0x00, 0x01, 0x24, 0x01, 0x03, 0x04, 0x00, 0x06, 0x00, 0x11,
            0x22, 0x33, 0x00, 0x00
        ]
    );
    assert_eq!(data[data.len() - 2..], [0x90, 0x00]);
    assert_eq!(card.transmit(&[0x00, 0xCA, 0x00, 0x65, 0x00]).unwrap(), [0x6A, 0x88]);
}

#[test]
fn a_command_that_is_too_short_gets_no_answer() {
    let mut card = FakeCard::new();
    match card.transmit(&[0x00, 0xa4, 0x0f]) {
        Err(TransportFailure::Error(text)) => {
            assert_eq!(text, "malformed APDU, too short: [00, a4, 0f]");
        }
        other => panic!("unexpected {other:?}"),
    }
    match card.transmit(&[]) {
        Err(TransportFailure::Error(text)) => assert_eq!(text, "malformed APDU, too short: []"),
        other => panic!("unexpected {other:?}"),
    }
}

#[test]
fn an_absent_card_starts_no_transaction() {
    match FakeCard::absent().transaction() {
        Err(TransportFailure::CardNotFound(text)) => assert_eq!(text, "fake card is absent"),
        other => panic!("unexpected {other:?}"),
    }
}

#[test]
fn a_broken_card_has_no_application_data() {
    let mut card = FakeCard::broken();
    assert!(card.transaction().is_ok());
    assert_eq!(card.transmit(&[0x00, 0xCA, 0x00, 0x6e, 0x00]).unwrap(), [0x6A, 0x88]);
}

fn verify(card: &mut FakeCard, p2: u8, pin: &[u8]) -> Vec<u8> {
    let mut cmd = vec![0x00, 0x20, 0x00, p2, pin.len() as u8];
    cmd.extend_from_slice(pin);
    card.transmit(&cmd).unwrap()
}

#[test]
fn tries_count_down_and_the_right_pin_brings_them_back() {
    let mut card = FakeCard::new().with_changed_admin_pin(b"87654321");
    assert!(!card.is_default_pins());
    assert_eq!(verify(&mut card, 0x83, b"12345678"), [0x63, 0xC2]);
    assert_eq!(card.transmit(&[0x00, 0x20, 0x00, 0x83]).unwrap(), [0x63, 0xC2]);
    assert_eq!(card.transmit(&[0x00, 0x20, 0x00, 0x81]).unwrap(), [0x63, 0xC3]);
    assert_eq!(verify(&mut card, 0x83, b"87654321"), [0x90, 0x00]);
    for sw2 in [0xC2, 0xC1, 0xC0] {
        assert_eq!(verify(&mut card, 0x83, b"12345678"), [0x63, sw2]);
    }
    assert_eq!(verify(&mut card, 0x83, b"12345678"), [0x69, 0x83]);
    assert_eq!(verify(&mut card, 0x83, b"12345678"), [0x69, 0x83]);
    assert_eq!(verify(&mut card, 0x83, b"87654321"), [0x90, 0x00]);
    assert_eq!(card.transmit(&[0x00, 0x20, 0x00, 0x83]).unwrap(), [0x63, 0xC3]);
}

#[test]
fn a_pin_shorter_than_announced_counts_as_empty() {
    let mut card = FakeCard::new();
    let cmd = [0x00, 0x20, 0x00, 0x81, 0x07, 0x31, 0x32, 0x33, 0x34, 0x35, 0x36];
    assert_eq!(card.transmit(&cmd).unwrap(), [0x63, 0xC2]);
    assert_eq!(verify(&mut card, 0x84, b"123456"), [0x6A, 0x86]);
}

#[test]
fn signing_and_set_up_need_their_pins() {
    let sign = [0x00, 0x2A, 0x9e, 0x9a, 0x01, 0xff, 0x00];
    let generate = [0x00, 0x47, 0x80, 0x00, 0x02, 0xb6, 0x00, 0x00];
    let read = [0x00, 0x47, 0x81, 0x00, 0x02, 0xb6, 0x00, 0x00];
    let touch = [0x00, 0xDA, 0x00, 0xd6, 0x02, 0x02, 0x20];
    let mut card = FakeCard::new();

    assert_eq!(card.transmit(&sign).unwrap(), [0x69, 0x82]);
    assert_eq!(card.transmit(&generate).unwrap(), [0x69, 0x82]);
    assert_eq!(card.transmit(&touch).unwrap(), [0x69, 0x82]);
    assert_eq!(card.transmit(&read).unwrap(), [0x6A, 0x88]);
    assert!(!card.signing_key_generated());

    // Verified for other uses is not verified for signing.
    assert_eq!(verify(&mut card, 0x82, b"123456"), [0x90, 0x00]);
    assert_eq!(card.transmit(&sign).unwrap(), [0x69, 0x82]);

    assert_eq!(verify(&mut card, 0x81, b"123456"), [0x90, 0x00]);
    let signed = card.transmit(&sign).unwrap();
    assert_eq!(signed[..64], FakeCard::fake_signature());
    assert_eq!(signed[64..], [0x90, 0x00]);

    assert_eq!(verify(&mut card, 0x83, b"12345678"), [0x90, 0x00]);
    let generated = card.transmit(&generate).unwrap();
    assert_eq!(generated[..5], [0x7f, 0x49, 0x22, 0x86, 0x20]);
    assert_eq!(generated[5..37], FakeCard::fake_public_key());
    assert!(card.signing_key_generated());
    assert_eq!(card.transmit(&read).unwrap(), generated);
    assert_eq!(card.transmit(&touch).unwrap(), [0x90, 0x00]);

    // A new transaction forgets both PINs, and keeps the rest.
    assert!(card.transaction().is_ok());
    assert_eq!(card.transmit(&sign).unwrap(), [0x69, 0x82]);
    assert_eq!(card.transmit(&generate).unwrap(), [0x69, 0x82]);
    assert_eq!(card.transmit(&read).unwrap(), generated);
    let data = card.transmit(&[0x00, 0xCA, 0x00, 0x6e, 0x00]).unwrap();
    assert!(data.windows(4).any(|w| w == [0xd6, 0x02, 0x02, 0x20]));
}

#[test]
fn a_wrong_pin_takes_back_a_verification() {
    let sign = [0x00, 0x2A, 0x9e, 0x9a, 0x01, 0xff, 0x00];
    let mut card = FakeCard::new();
    assert_eq!(verify(&mut card, 0x81, b"123456"), [0x90, 0x00]);
    assert_eq!(verify(&mut card, 0x81, b"654321"), [0x63, 0xC2]);
    assert_eq!(card.transmit(&sign).unwrap(), [0x69, 0x82]);
}

#[test]
fn an_untouched_card_lets_the_reader_time_out() {
    let sign = [0x00, 0x2A, 0x9e, 0x9a, 0x01, 0xff, 0x00];
    let mut card = FakeCard::new().with_touch_timeout();
    assert_eq!(verify(&mut card, 0x81, b"123456"), [0x90, 0x00]);
    match card.transmit(&sign) {
        Err(TransportFailure::Error(text)) => {
            assert_eq!(text, "reader timed out waiting for touch confirmation");
        }
        other => panic!("unexpected {other:?}"),
    }
}

#[test]
fn other_instructions_are_not_supported() {
    let mut card = FakeCard::new();
    assert_eq!(card.transmit(&[0x00, 0x84, 0x00, 0x00]).unwrap(), [0x6D, 0x00]);
    assert_eq!(card.transmit(&[0x00, 0x2A, 0x80, 0x86]).unwrap(), [0x6D, 0x00]);
}
