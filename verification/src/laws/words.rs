//! The words that the laws are written in, and what is proved of them.

use vstd::prelude::*;

use crate::error;
use crate::pin;
use crate::provision;
use crate::reply;
use crate::text;

verus! {

/// `err` tells a failure with which nothing special is connected: a wrong PIN
/// and a blocked one are told as such, anything else in the card library's own
/// words. Which PIN it is, is not known.
pub open spec fn told_plainly(failure: reply::CardFailureView, err: error::YubiErrorView) -> bool {
    match failure.kind {
        reply::FailureKind::PasswordNotChecked { .. } => err is PinIncorrect,
        reply::FailureKind::AuthenticationMethodBlocked => {
            &&& err is PinBlocked
            &&& err->pin_kind == ""@
            &&& err->recovery_hint == "unblock it via the admin PIN/Reset Code before proceeding"@
        },
        _ => err == error::YubiErrorView::Other(failure.text),
    }
}

/// [`told_plainly`], where it is known which PIN it is.
pub open spec fn told_of_pin(
    kind: pin::PinKind,
    failure: reply::CardFailureView,
    err: error::YubiErrorView,
) -> bool {
    if failure.kind is AuthenticationMethodBlocked {
        told_as_blocked(kind, err)
    } else {
        told_plainly(failure, err)
    }
}

/// `err` tells that this PIN is blocked, under its name and with what helps: a
/// User PIN can be unblocked, an Admin PIN cannot.
pub open spec fn told_as_blocked(kind: pin::PinKind, err: error::YubiErrorView) -> bool {
    &&& err is PinBlocked
    &&& err->pin_kind == match kind {
        pin::PinKind::User => "User"@,
        pin::PinKind::Admin => "Admin"@,
    }
    &&& err->recovery_hint == match kind {
        pin::PinKind::User => "unblock it via the Admin PIN/Reset Code before proceeding"@,
        pin::PinKind::Admin => {
            "it cannot be recovered; factory-reset the card's OpenPGP application to go on"@
        },
    }
}

/// The public key is an Ed25519 signing key with this point.
pub open spec fn ed25519_point(key: reply::KeyMaterialView, point: Seq<u8>) -> bool {
    &&& key matches reply::KeyMaterialView::Ecc { point: reported, algorithm, .. }
    &&& algorithm == (reply::KeyAlgorithmView::Ecc {
        kind: reply::EccKind::EdDsa,
        curve: reply::CurveNameView::Ed25519,
    })
    &&& reported == point
    &&& point.len() == 32
}

/// The number that a digit stands for; sixteen for anything else.
pub open spec fn digit_value(c: char) -> nat {
    if '0' <= c <= '9' {
        (c as int - '0' as int) as nat
    } else if 'A' <= c <= 'F' {
        (c as int - 'A' as int + 10) as nat
    } else {
        16
    }
}

/// The number that these digits stand for in a base.
pub open spec fn number_in_base(base: nat, digits: Seq<char>) -> nat
    decreases digits.len(),
{
    if digits.len() == 0 {
        0
    } else {
        number_in_base(base, digits.drop_last()) * base + digit_value(digits.last())
    }
}

/// A sentence with `part` in it.
pub open spec fn sentence(front: Seq<char>, part: Seq<char>, back: Seq<char>) -> Seq<char> {
    front + part + back
}

/// The digits are `n` in decimal, without leading zeros.
pub open spec fn in_decimal(digits: Seq<char>, n: nat) -> bool {
    &&& digits.len() > 0
    &&& digits.len() > 1 ==> digits[0] != '0'
    &&& forall|i: int| 0 <= i < digits.len() ==> digit_value(#[trigger] digits[i]) < 10
    &&& number_in_base(10, digits) == n
}

/// The text is this sentence with `n` in it, in decimal.
pub open spec fn tells_count(text: Seq<char>, front: Seq<char>, n: nat, back: Seq<char>) -> bool {
    exists|digits: Seq<char>| #[trigger]
        in_decimal(digits, n) && text == sentence(front, digits, back)
}

proof fn lemma_decimal_reads_back(n: nat)
    ensures
        in_decimal(text::decimal(n), n),
        n > 0 ==> text::decimal(n)[0] != '0',
    decreases n,
{
    let digits = text::decimal(n);
    assert(digit_value(text::upper_digit(n % 10)) == n % 10);
    assert(number_in_base(10, Seq::<char>::empty()) == 0);
    if n < 10 {
        assert(digits.drop_last() =~= Seq::empty());
    } else {
        lemma_decimal_reads_back(n / 10);
        assert(digits.drop_last() =~= text::decimal(n / 10));
        assert(digits.last() == text::upper_digit(n % 10));
        assert(forall|i: int|
            0 <= i < digits.len() - 1 ==> #[trigger] digits[i] == text::decimal(n / 10)[i]);
    }
}

pub(crate) proof fn lemma_decimals_read_back()
    ensures
        forall|n: nat| in_decimal(#[trigger] text::decimal(n), n),
{
    assert forall|n: nat| in_decimal(#[trigger] text::decimal(n), n) by {
        lemma_decimal_reads_back(n);
    }
}

/// The key is for EdDSA over Ed25519, though its point may have any length.
pub open spec fn claims_ed25519(key: reply::KeyMaterialView) -> bool {
    key matches reply::KeyMaterialView::Ecc { algorithm, .. } && algorithm == (
    reply::KeyAlgorithmView::Ecc {
        kind: reply::EccKind::EdDsa,
        curve: reply::CurveNameView::Ed25519,
    })
}

/// `err` tells why this key, in the Signature slot, is not one to sign with: it
/// is of another algorithm, or its point has not 32 bytes.
pub open spec fn told_of_held_key(key: reply::KeyMaterialView, err: error::YubiErrorView) -> bool {
    err is Other && match key {
        reply::KeyMaterialView::Rsa { .. } => err->Other_0
            == "Signature slot holds an RSA key, not Ed25519/EdDSA -- has `provision::generate_signature_key` been run against this card?"@,
        reply::KeyMaterialView::Ecc { point, description, .. } => if claims_ed25519(key) {
            tells_count(
                err->Other_0,
                "Signature slot's public key point is "@,
                point.len(),
                " bytes, expected exactly 32 (Ed25519)"@,
            )
        } else {
            err->Other_0 == sentence(
                "Signature slot holds a "@,
                description,
                " key, not Ed25519/EdDSA -- has `provision::generate_signature_key` been run against this card?"@,
            )
        },
    }
}

/// `err` tells why this key, that was just generated, is not one to sign with.
pub open spec fn told_of_generated_key(
    key: reply::KeyMaterialView,
    err: error::YubiErrorView,
) -> bool {
    err is Other && match key {
        reply::KeyMaterialView::Rsa { .. } => err->Other_0
            == "card generated an RSA key in the Signature slot instead of Ed25519/EdDSA -- this card's Signature slot algorithm attribute may not be changeable to Curve25519"@,
        reply::KeyMaterialView::Ecc { point, description, .. } => if claims_ed25519(key) {
            tells_count(
                err->Other_0,
                "card returned a "@,
                point.len(),
                "-byte public key point for the Signature slot, expected exactly 32 (Ed25519)"@,
            )
        } else {
            err->Other_0 == sentence(
                "card generated a "@,
                description,
                " key in the Signature slot instead of Ed25519/EdDSA -- this card's Signature slot algorithm attribute may not be changeable to Curve25519"@,
            )
        },
    }
}

/// `err` tells that what a card answered as a signature has `n` bytes.
pub open spec fn told_of_signature(n: nat, err: error::YubiErrorView) -> bool {
    err is Other && tells_count(
        err->Other_0,
        "card returned a "@,
        n,
        "-byte signature, expected exactly 64 (Ed25519)"@,
    )
}

/// How a failed enumeration of the readers is told: as there being no card, with
/// the likely cause, but in the transport's own words where it has no meaning
/// for an enumeration.
pub open spec fn told_of_readers(
    failure: reply::ReaderFailureView,
    err: error::YubiErrorView,
) -> bool {
    match failure {
        reply::ReaderFailureView::Context(msg) => err == error::YubiErrorView::CardNotFound(
            sentence(
                "could not establish a PC/SC context ("@,
                msg,
                ") — is pcscd running?"@,
            ),
        ),
        reply::ReaderFailureView::Readers(msg) => err == error::YubiErrorView::CardNotFound(
            sentence("could not list PC/SC readers ("@, msg, ") — is pcscd running?"@),
        ),
        reply::ReaderFailureView::NoReader => err == error::YubiErrorView::CardNotFound(
            "no PC/SC reader found — is a YubiKey plugged in?"@,
        ),
        reply::ReaderFailureView::Other(text) => err == error::YubiErrorView::Other(text),
    }
}

/// `err` tells that no card in the readers was usable.
pub open spec fn told_as_no_card(err: error::YubiErrorView) -> bool {
    err == error::YubiErrorView::CardNotFound(
        "no OpenPGP-capable card found on any connected PC/SC reader — insert a YubiKey and retry"@,
    )
}

/// The text is `MMMM:SSSSSSSS` for this maker and this number: four and eight
/// capital hexadecimal digits, with a colon between them.
pub open spec fn names_card(text: Seq<char>, manufacturer: u16, serial: u32) -> bool {
    &&& text.len() == 13
    &&& text[4] == ':'
    &&& forall|i: int| 0 <= i < 13 && i != 4 ==> digit_value(#[trigger] text[i]) < 16
    &&& number_in_base(16, text.take(4)) == manufacturer
    &&& number_in_base(16, text.skip(5)) == serial
}

} // verus!
