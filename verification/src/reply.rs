//! What the card libraries hand back, read into plain values.
//!
//! The error and key types of `openpgp-card` and `card-backend` are opaque to
//! the proofs. Each of them gets one reading here: a function that turns the
//! opaque value into a type of this crate, and a name for what it reads.
//! All decisions are taken on the plain values.

use card_backend::SmartcardError;
use openpgp_card::ocard::algorithm::{AlgorithmAttributes, Curve};
use openpgp_card::ocard::crypto::{EccType, PublicKeyMaterial};
use openpgp_card::ocard::data::ApplicationIdentifier;
use openpgp_card::ocard::StatusBytes;
use vstd::prelude::*;

use crate::text;

verus! {

#[verifier::external_type_specification]
#[verifier::external_body]
pub struct ExCardError(openpgp_card::Error);

#[verifier::external_type_specification]
#[verifier::external_body]
pub struct ExSmartcardError(card_backend::SmartcardError);

#[verifier::external_type_specification]
#[verifier::external_body]
pub struct ExPublicKeyMaterial(openpgp_card::ocard::crypto::PublicKeyMaterial);

#[verifier::external_type_specification]
#[verifier::external_body]
pub struct ExApplicationIdentifier(openpgp_card::ocard::data::ApplicationIdentifier);

/// What went wrong in a card operation, as far as this crate tells causes
/// apart.
#[derive(Debug, Clone, Copy, PartialEq, Eq)]
pub enum FailureKind {
    /// The card rejected a PIN (status `63 Cx`); `retries` tries are left.
    PasswordNotChecked { retries: u8 },
    /// The PIN is blocked (status `69 83`).
    AuthenticationMethodBlocked,
    /// The operation needs a PIN that was not verified (status `69 82`).
    SecurityStatusNotSatisfied,
    /// Any other status word of the card.
    OtherStatus,
    /// The reader or the connection failed; the card did not answer.
    Smartcard,
    /// Any other failure inside the card library.
    Other,
}

/// A failed card operation: its cause, and the card library's own account.
#[derive(Debug)]
pub struct CardFailure {
    pub kind: FailureKind,
    pub text: String,
}

/// A `CardFailure` by its views.
pub struct CardFailureView {
    pub kind: FailureKind,
    pub text: Seq<char>,
}

impl View for CardFailure {
    type V = CardFailureView;

    open spec fn view(&self) -> CardFailureView {
        CardFailureView { kind: self.kind, text: self.text@ }
    }
}

/// The cause and the text of an `openpgp-card` error.
pub uninterp spec fn failure_of(err: openpgp_card::Error) -> CardFailureView;

/// Reads an `openpgp_card::Error`: its variant (and, for `CardStatus`, the
/// status that it holds) gives the cause, its `Display` text the account. The
/// contract claims only that both depend on nothing but the error.
#[verifier::external_body]
fn read_failure(err: &openpgp_card::Error) -> (failure: CardFailure)
    ensures
        failure@ == failure_of(*err),
{
    let kind = match err {
        openpgp_card::Error::CardStatus(StatusBytes::PasswordNotChecked(n)) => {
            FailureKind::PasswordNotChecked { retries: *n }
        },
        openpgp_card::Error::CardStatus(StatusBytes::AuthenticationMethodBlocked) => FailureKind::AuthenticationMethodBlocked,
        openpgp_card::Error::CardStatus(StatusBytes::SecurityStatusNotSatisfied) => FailureKind::SecurityStatusNotSatisfied,
        openpgp_card::Error::CardStatus(_) => FailureKind::OtherStatus,
        openpgp_card::Error::Smartcard(_) => FailureKind::Smartcard,
        _ => FailureKind::Other,
    };
    CardFailure { kind, text: err.to_string() }
}

/// A card's reply, with a failure by its plain account.
pub open spec fn plain_reply<T>(reply: Result<T, openpgp_card::Error>) -> Result<
    T,
    CardFailureView,
> {
    match reply {
        Ok(value) => Ok(value),
        Err(err) => Err(failure_of(err)),
    }
}

impl CardFailure {
    /// The plain account of `err`.
    pub fn of(err: &openpgp_card::Error) -> (failure: CardFailure)
        ensures
            failure@ == failure_of(*err),
    {
        read_failure(err)
    }
}

/// Why the readers could not be enumerated.
#[derive(Debug)]
pub enum ReaderFailure {
    /// No PC/SC context could be had.
    Context(String),
    /// The readers could not be listed.
    Readers(String),
    /// There is no reader.
    NoReader,
    /// Anything else, with the transport's own account.
    Other(String),
}

/// A `ReaderFailure` by its views.
pub enum ReaderFailureView {
    Context(Seq<char>),
    Readers(Seq<char>),
    NoReader,
    Other(Seq<char>),
}

impl View for ReaderFailure {
    type V = ReaderFailureView;

    open spec fn view(&self) -> ReaderFailureView {
        match self {
            ReaderFailure::Context(msg) => ReaderFailureView::Context(msg@),
            ReaderFailure::Readers(msg) => ReaderFailureView::Readers(msg@),
            ReaderFailure::NoReader => ReaderFailureView::NoReader,
            ReaderFailure::Other(text) => ReaderFailureView::Other(text@),
        }
    }
}

/// The variant of a `card-backend` error, with its message.
pub uninterp spec fn reader_failure_of(err: SmartcardError) -> ReaderFailureView;

/// Reads a `card_backend::SmartcardError`: the message that the two
/// enumeration variants carry, or the `Display` text of any variant without a
/// meaning of its own here. The contract claims only that the reading depends
/// on nothing but the error.
#[verifier::external_body]
fn read_reader_failure(err: SmartcardError) -> (failure: ReaderFailure)
    ensures
        failure@ == reader_failure_of(err),
{
    match err {
        SmartcardError::ContextError(msg) => ReaderFailure::Context(msg),
        SmartcardError::ReaderError(msg) => ReaderFailure::Readers(msg),
        SmartcardError::NoReaderFoundError => ReaderFailure::NoReader,
        other => ReaderFailure::Other(other.to_string()),
    }
}

impl ReaderFailure {
    /// The plain account of `err`.
    pub fn of(err: SmartcardError) -> (failure: ReaderFailure)
        ensures
            failure@ == reader_failure_of(err),
    {
        read_reader_failure(err)
    }
}

/// The elliptic-curve schemes that an OpenPGP card knows.
#[derive(Debug, Clone, Copy, PartialEq, Eq)]
pub enum EccKind {
    Ecdh,
    Ecdsa,
    EdDsa,
}

/// The curve of a key; any curve but Ed25519 by its object identifier.
#[derive(Debug)]
pub enum CurveName {
    Ed25519,
    Other { oid: Vec<u8> },
}

/// The algorithm attributes of an elliptic-curve public key.
#[derive(Debug)]
pub enum KeyAlgorithm {
    Ecc { kind: EccKind, curve: CurveName },
    Rsa,
    Unknown,
}

/// A public key as the card reports it.
#[derive(Debug)]
pub enum KeyMaterial {
    /// An RSA key, by its modulus.
    Rsa { modulus: Vec<u8> },
    /// A point, the algorithm of its slot, and that algorithm in words.
    Ecc { point: Vec<u8>, algorithm: KeyAlgorithm, description: String },
}

/// A `CurveName` by its views.
pub enum CurveNameView {
    Ed25519,
    Other { oid: Seq<u8> },
}

/// A `KeyAlgorithm` by its views.
pub enum KeyAlgorithmView {
    Ecc { kind: EccKind, curve: CurveNameView },
    Rsa,
    Unknown,
}

/// A `KeyMaterial` by its views.
pub enum KeyMaterialView {
    Rsa { modulus: Seq<u8> },
    Ecc { point: Seq<u8>, algorithm: KeyAlgorithmView, description: Seq<char> },
}

impl View for CurveName {
    type V = CurveNameView;

    open spec fn view(&self) -> CurveNameView {
        match self {
            CurveName::Ed25519 => CurveNameView::Ed25519,
            CurveName::Other { oid } => CurveNameView::Other { oid: oid@ },
        }
    }
}

impl View for KeyAlgorithm {
    type V = KeyAlgorithmView;

    open spec fn view(&self) -> KeyAlgorithmView {
        match self {
            KeyAlgorithm::Ecc { kind, curve } => KeyAlgorithmView::Ecc {
                kind: *kind,
                curve: curve@,
            },
            KeyAlgorithm::Rsa => KeyAlgorithmView::Rsa,
            KeyAlgorithm::Unknown => KeyAlgorithmView::Unknown,
        }
    }
}

impl View for KeyMaterial {
    type V = KeyMaterialView;

    open spec fn view(&self) -> KeyMaterialView {
        match self {
            KeyMaterial::Rsa { modulus } => KeyMaterialView::Rsa { modulus: modulus@ },
            KeyMaterial::Ecc { point, algorithm, description } => KeyMaterialView::Ecc {
                point: point@,
                algorithm: algorithm@,
                description: description@,
            },
        }
    }
}

impl KeyAlgorithmView {
    /// EdDSA over Ed25519: both the scheme and the curve must say so, since a
    /// key-agreement point on the same field is as long as a signing one.
    pub open spec fn is_ed25519(self) -> bool {
        self == KeyAlgorithmView::Ecc { kind: EccKind::EdDsa, curve: CurveNameView::Ed25519 }
    }
}

impl KeyAlgorithm {
    /// Is this EdDSA over Ed25519?
    pub fn is_ed25519(&self) -> (yes: bool)
        ensures
            yes == self@.is_ed25519(),
    {
        match self {
            KeyAlgorithm::Ecc { kind: EccKind::EdDsa, curve: CurveName::Ed25519 } => true,
            _ => false,
        }
    }
}

impl KeyMaterialView {
    /// The bytes that stand for the key: the point, or the modulus.
    pub open spec fn raw(self) -> Seq<u8> {
        match self {
            KeyMaterialView::Rsa { modulus } => modulus,
            KeyMaterialView::Ecc { point, .. } => point,
        }
    }
}

/// The content of an `openpgp-card` public key.
pub uninterp spec fn key_material_of(material: PublicKeyMaterial) -> KeyMaterialView;

/// Reads an `openpgp_card::ocard::crypto::PublicKeyMaterial`: an RSA key's
/// `n()`, or an elliptic-curve key's `data()` with the scheme, the curve and
/// the `Debug` text of its `algo()`. The contract claims only that the reading
/// depends on nothing but the key.
#[verifier::external_body]
fn read_key_material(material: &PublicKeyMaterial) -> (key: KeyMaterial)
    ensures
        key@ == key_material_of(*material),
{
    match material {
        PublicKeyMaterial::R(rsa) => KeyMaterial::Rsa { modulus: rsa.n().to_vec() },
        PublicKeyMaterial::E(ecc) => {
            let algorithm = match ecc.algo() {
                AlgorithmAttributes::Ecc(a) => KeyAlgorithm::Ecc {
                    kind: match a.ecc_type() { EccType::ECDH => EccKind::Ecdh, EccType::ECDSA => EccKind::Ecdsa, EccType::EdDSA => EccKind::EdDsa },
                    curve: match a.curve() { Curve::Ed25519 => CurveName::Ed25519, other => CurveName::Other { oid: other.oid().to_vec() } },
                },
                AlgorithmAttributes::Rsa(_) => KeyAlgorithm::Rsa,
                AlgorithmAttributes::Unknown(_) => KeyAlgorithm::Unknown,
            };
            KeyMaterial::Ecc { point: ecc.data().to_vec(), algorithm, description: format!("{:?}", ecc.algo()) }
        },
    }
}

impl KeyMaterial {
    /// The plain content of `material`.
    pub fn of(material: &PublicKeyMaterial) -> (key: KeyMaterial)
        ensures
            key@ == key_material_of(*material),
    {
        read_key_material(material)
    }
}

/// Who made a card, its number, and both in one text.
#[derive(Debug)]
pub struct CardIdentity {
    pub manufacturer: u16,
    pub serial: u32,
    pub ident: String,
}

/// The text `MMMM:SSSSSSSS`: manufacturer and serial in capital hexadecimal.
pub open spec fn ident_text(manufacturer: u16, serial: u32) -> Seq<char> {
    text::upper_hex(manufacturer as nat, 4) + ":"@ + text::upper_hex(serial as nat, 8)
}

/// Manufacturer and serial of an `openpgp-card` application identifier.
pub uninterp spec fn identity_of(aid: ApplicationIdentifier) -> (u16, u32);

/// Reads an `openpgp_card` `ApplicationIdentifier` through `manufacturer()`,
/// `serial()` and `ident()`. The contract claims what `ident` documents: the
/// manufacturer id (four digits), a colon and the serial (eight digits), in
/// hexadecimal with capital letters.
#[verifier::external_body]
fn read_identity(aid: &ApplicationIdentifier) -> (id: CardIdentity)
    ensures
        (id.manufacturer, id.serial) == identity_of(*aid),
        id.ident@ == ident_text(id.manufacturer, id.serial),
{
    CardIdentity { manufacturer: aid.manufacturer(), serial: aid.serial(), ident: aid.ident() }
}

impl CardIdentity {
    /// The plain content of `aid`.
    pub fn of(aid: &ApplicationIdentifier) -> (id: CardIdentity)
        ensures
            (id.manufacturer, id.serial) == identity_of(*aid),
            id.ident@ == ident_text(id.manufacturer, id.serial),
    {
        read_identity(aid)
    }
}

/// The text form tells cards apart: two cards have the same one only if they
/// have the same maker and the same number.
pub proof fn ident_text_tells_cards_apart(
    manufacturer: u16,
    serial: u32,
    other_manufacturer: u16,
    other_serial: u32,
)
    requires
        ident_text(manufacturer, serial) == ident_text(other_manufacturer, other_serial),
    ensures
        manufacturer == other_manufacturer,
        serial == other_serial,
{
    let text = ident_text(manufacturer, serial);
    reveal_with_fuel(text::hex_span, 9);
    text::lemma_upper_hex_injective(manufacturer as nat, other_manufacturer as nat, 4);
    text::lemma_upper_hex_injective(other_manufacturer as nat, manufacturer as nat, 4);
    text::lemma_upper_hex_injective(serial as nat, other_serial as nat, 8);
    text::lemma_upper_hex_injective(other_serial as nat, serial as nat, 8);
    reveal_strlit(":");
    assert(text.take(4) =~= text::upper_hex(manufacturer as nat, 4));
    assert(text.take(4) =~= text::upper_hex(other_manufacturer as nat, 4));
    assert(text.skip(5) =~= text::upper_hex(serial as nat, 8));
    assert(text.skip(5) =~= text::upper_hex(other_serial as nat, 8));
}

} // verus!
