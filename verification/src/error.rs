//! The error type that every public operation of this crate returns.

use vstd::prelude::*;
use vstd::string::*;

use crate::reply;

verus! {

/// Why an operation failed.
#[derive(Debug)]
pub enum YubiError {
    /// No usable card, no reader, or no PC/SC service; the text names the
    /// likely cause.
    CardNotFound(String),
    /// The User or the Admin PIN is still the one that cards ship with.
    PinStillFactoryDefault,
    /// Another card than the expected one is inserted. For callers that bind
    /// an identity to one card; nothing in this crate returns it.
    WrongCard { expected: String, found: String },
    /// Nobody touched the card in time.
    TouchTimeout,
    /// The card rejected the PIN; more tries are left.
    PinIncorrect,
    /// The card takes no further tries of this PIN. `pin_kind` is empty where it
    /// is not known which PIN it is.
    PinBlocked { pin_kind: &'static str, recovery_hint: &'static str },
    /// The operation needs the Admin PIN, which was not verified.
    AdminAuthRequired,
    /// Anything else, in words.
    Other(String),
}

/// A `YubiError` by its views.
pub enum YubiErrorView {
    CardNotFound(Seq<char>),
    PinStillFactoryDefault,
    WrongCard { expected: Seq<char>, found: Seq<char> },
    TouchTimeout,
    PinIncorrect,
    PinBlocked { pin_kind: Seq<char>, recovery_hint: Seq<char> },
    AdminAuthRequired,
    Other(Seq<char>),
}

impl View for YubiError {
    type V = YubiErrorView;

    open spec fn view(&self) -> YubiErrorView {
        match self {
            YubiError::CardNotFound(cause) => YubiErrorView::CardNotFound(cause@),
            YubiError::PinStillFactoryDefault => YubiErrorView::PinStillFactoryDefault,
            YubiError::WrongCard { expected, found } => YubiErrorView::WrongCard {
                expected: expected@,
                found: found@,
            },
            YubiError::TouchTimeout => YubiErrorView::TouchTimeout,
            YubiError::PinIncorrect => YubiErrorView::PinIncorrect,
            YubiError::PinBlocked { pin_kind, recovery_hint } => YubiErrorView::PinBlocked {
                pin_kind: pin_kind@,
                recovery_hint: recovery_hint@,
            },
            YubiError::AdminAuthRequired => YubiErrorView::AdminAuthRequired,
            YubiError::Other(text) => YubiErrorView::Other(text@),
        }
    }
}

impl YubiErrorView {
    /// The sentence that tells a person what happened.
    pub open spec fn message(self) -> Seq<char> {
        match self {
            YubiErrorView::CardNotFound(cause) => cause,
            YubiErrorView::PinStillFactoryDefault => {
                "card PIN is still the factory default (123456/12345678) — change it via the standard OpenPGP-card PIN-change command before proceeding"@
            },
            YubiErrorView::WrongCard { expected, found } => {
                "wrong YubiKey inserted: expected card serial "@ + expected + ", found "@ + found
            },
            YubiErrorView::TouchTimeout => {
                "timed out waiting for a physical touch confirmation on the card"@
            },
            YubiErrorView::PinIncorrect => "PIN incorrect"@,
            YubiErrorView::PinBlocked { pin_kind, recovery_hint } => {
                let blocked = "PIN is blocked (too many incorrect attempts) — "@ + recovery_hint;
                if pin_kind.len() == 0 {
                    blocked
                } else {
                    pin_kind + " "@ + blocked
                }
            },
            YubiErrorView::AdminAuthRequired => {
                "the Admin PIN must be verified on the card before this operation"@
            },
            YubiErrorView::Other(text) => text,
        }
    }
}

/// A result by its views.
pub open spec fn outcome<T: View>(r: Result<T, YubiError>) -> Result<T::V, YubiErrorView> {
    match r {
        Ok(value) => Ok(value@),
        Err(err) => Err(err@),
    }
}

/// The error for a failed card operation of which only the failure is known:
/// a rejected and a blocked PIN have errors of their own, and every other
/// failure keeps the card library's account of it.
pub open spec fn general_error(failure: reply::CardFailureView) -> YubiErrorView {
    match failure.kind {
        reply::FailureKind::PasswordNotChecked { .. } => YubiErrorView::PinIncorrect,
        reply::FailureKind::AuthenticationMethodBlocked => YubiErrorView::PinBlocked {
            pin_kind: ""@,
            recovery_hint: "unblock it via the admin PIN/Reset Code before proceeding"@,
        },
        _ => YubiErrorView::Other(failure.text),
    }
}

impl YubiError {
    /// The sentence that tells a person what happened.
    pub fn message(&self) -> (text: String)
        ensures
            text@ == self@.message(),
    {
        match self {
            YubiError::CardNotFound(cause) => cause.clone(),
            YubiError::PinStillFactoryDefault => String::from_str(
                "card PIN is still the factory default (123456/12345678) — change it via the standard OpenPGP-card PIN-change command before proceeding",
            ),
            YubiError::WrongCard { expected, found } => String::from_str(
                "wrong YubiKey inserted: expected card serial ",
            ).concat(expected.as_str()).concat(", found ").concat(found.as_str()),
            YubiError::TouchTimeout => String::from_str(
                "timed out waiting for a physical touch confirmation on the card",
            ),
            YubiError::PinIncorrect => String::from_str("PIN incorrect"),
            YubiError::PinBlocked { pin_kind, recovery_hint } => {
                let blocked = String::from_str(
                    "PIN is blocked (too many incorrect attempts) — ",
                ).concat(recovery_hint);
                if pin_kind.unicode_len() == 0 {
                    blocked
                } else {
                    String::from_str(pin_kind).concat(" ").concat(blocked.as_str())
                }
            },
            YubiError::AdminAuthRequired => String::from_str(
                "the Admin PIN must be verified on the card before this operation",
            ),
            YubiError::Other(text) => text.clone(),
        }
    }

    /// The error for a failed card operation of which only the failure is
    /// known.
    pub fn from_failure(failure: reply::CardFailure) -> (err: YubiError)
        ensures
            err@ == general_error(failure@),
    {
        match failure.kind {
            reply::FailureKind::PasswordNotChecked { .. } => YubiError::PinIncorrect,
            reply::FailureKind::AuthenticationMethodBlocked => YubiError::PinBlocked {
                pin_kind: "",
                recovery_hint: "unblock it via the admin PIN/Reset Code before proceeding",
            },
            _ => YubiError::Other(failure.text),
        }
    }
}

// The value that `from` gives holds a `String`, so it is stated by its view, on
// the function itself.
impl vstd::std_specs::convert::FromSpecImpl<openpgp_card::Error> for YubiError {
    open spec fn obeys_from_spec() -> bool {
        false
    }

    open spec fn from_spec(err: openpgp_card::Error) -> YubiError {
        arbitrary()
    }
}

impl From<openpgp_card::Error> for YubiError {
    fn from(err: openpgp_card::Error) -> (y: YubiError)
        ensures
            y@ == general_error(reply::failure_of(err)),
    {
        YubiError::from_failure(reply::CardFailure::of(&err))
    }
}

/// Without knowing what was being done, a failure is a rejected PIN, a blocked
/// PIN or a text. In particular a failed transmission is not taken for a
/// missing touch, nor a refused one for a missing Admin PIN.
pub proof fn general_error_is_unspecific(failure: reply::CardFailureView)
    ensures
        match general_error(failure) {
            YubiErrorView::PinIncorrect => failure.kind is PasswordNotChecked,
            YubiErrorView::PinBlocked { pin_kind, .. } => {
                &&& failure.kind is AuthenticationMethodBlocked
                &&& pin_kind.len() == 0
            },
            YubiErrorView::Other(text) => text == failure.text,
            _ => false,
        },
{
    reveal_strlit("");
}

} // verus!
