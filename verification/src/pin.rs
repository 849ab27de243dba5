//! Does the card still have the PINs that it was shipped with?
//!
//! A card cannot be asked that. The one way to find out is to present the
//! well-known PINs and see whether the card takes them. A PIN that was changed
//! loses one of its tries by that, so each check presents each PIN once at
//! most, and callers should check once per attempt to set up a card.

use vstd::prelude::*;

use crate::card;
use crate::card::{Session, TransactionCard};
use crate::error;
use crate::error::YubiError;
use crate::reply;
use crate::reply::{CardFailure, FailureKind};

verus! {

/// The User PIN that cards are shipped with.
pub const FACTORY_DEFAULT_USER_PIN: &'static str = "123456";

/// The Admin PIN that cards are shipped with.
pub const FACTORY_DEFAULT_ADMIN_PIN: &'static str = "12345678";

/// The two PINs of a card.
#[derive(Debug, Clone, Copy, PartialEq, Eq)]
pub enum PinKind {
    /// PW1, for signing.
    User,
    /// PW3, for setting up the card.
    Admin,
}

impl PinKind {
    /// What the PIN is called.
    pub open spec fn label(self) -> Seq<char> {
        match self {
            PinKind::User => "User"@,
            PinKind::Admin => "Admin"@,
        }
    }

    /// What helps when the PIN is blocked.
    pub open spec fn recovery_hint(self) -> Seq<char> {
        match self {
            PinKind::User => "unblock it via the Admin PIN/Reset Code before proceeding"@,
            PinKind::Admin => {
                "it cannot be recovered; factory-reset the card's OpenPGP application to go on"@
            },
        }
    }

    /// The error for this PIN being blocked.
    pub open spec fn blocked(self) -> error::YubiErrorView {
        error::YubiErrorView::PinBlocked {
            pin_kind: self.label(),
            recovery_hint: self.recovery_hint(),
        }
    }

    /// The error for this PIN being blocked.
    pub fn blocked_error(self) -> (err: YubiError)
        ensures
            err@ == self.blocked(),
    {
        match self {
            PinKind::User => YubiError::PinBlocked {
                pin_kind: "User",
                recovery_hint: "unblock it via the Admin PIN/Reset Code before proceeding",
            },
            PinKind::Admin => YubiError::PinBlocked {
                pin_kind: "Admin",
                recovery_hint: "it cannot be recovered; factory-reset the card's OpenPGP application to go on",
            },
        }
    }
}

/// What the answer to a well-known PIN tells: taken, so it is the PIN;
/// rejected as wrong, so it is not; anything else tells nothing and is an
/// error.
pub open spec fn probe_verdict(
    kind: PinKind,
    reply: Result<(), reply::CardFailureView>,
) -> Result<bool, error::YubiErrorView> {
    match reply {
        Ok(()) => Ok(true),
        Err(failure) => match failure.kind {
            reply::FailureKind::PasswordNotChecked { .. } => Ok(false),
            reply::FailureKind::AuthenticationMethodBlocked => Err(kind.blocked()),
            _ => Err(error::general_error(failure)),
        },
    }
}

/// A reply without a value, by its view.
pub open spec fn unit_reply(reply: Result<(), CardFailure>) -> Result<
    (),
    reply::CardFailureView,
> {
    match reply {
        Ok(()) => Ok(()),
        Err(failure) => Err(failure@),
    }
}

/// What the answer to the well-known PIN of this kind tells.
pub fn judge_probe(kind: PinKind, reply: Result<(), CardFailure>) -> (r: Result<bool, YubiError>)
    ensures
        error::outcome(r) == probe_verdict(kind, unit_reply(reply)),
{
    match reply {
        Ok(()) => Ok(true),
        Err(failure) => match failure.kind {
            FailureKind::PasswordNotChecked { .. } => Ok(false),
            FailureKind::AuthenticationMethodBlocked => Err(kind.blocked_error()),
            _ => Err(YubiError::from_failure(failure)),
        },
    }
}

/// What the answer to the well-known PIN of this kind tells.
pub fn verify_matches_default(kind: PinKind, result: Result<(), openpgp_card::Error>) -> (r: Result<
    bool,
    YubiError,
>)
    ensures
        error::outcome(r) == probe_verdict(kind, reply::plain_reply(result)),
{
    match result {
        Ok(()) => judge_probe(kind, Ok(())),
        Err(err) => judge_probe(kind, Err(CardFailure::of(&err))),
    }
}

/// `asked` is one check of the PINs: the User PIN is presented; if the answer
/// to it tells something, the Admin PIN is presented too. Nothing else.
pub open spec fn default_check<P>(asked: Seq<card::Exchange<P>>) -> bool {
    &&& asked.len() >= 1
    &&& asked[0] matches card::Exchange::VerifyUserPin { pin, reply: answer }
    &&& pin == "123456"@
    &&& match probe_verdict(PinKind::User, reply::plain_reply(answer)) {
        Err(_) => asked.len() == 1,
        Ok(_) => {
            &&& asked.len() == 2
            &&& asked[1] matches card::Exchange::VerifyAdminPin { pin, .. }
            &&& pin == "12345678"@
        },
    }
}

/// What one check of the PINs tells: is one of them still the well-known one?
pub open spec fn default_check_verdict<P>(asked: Seq<card::Exchange<P>>) -> Result<
    bool,
    error::YubiErrorView,
> {
    let user = probe_verdict(PinKind::User, reply::plain_reply(asked[0]->VerifyUserPin_reply));
    let admin = probe_verdict(PinKind::Admin, reply::plain_reply(asked[1]->VerifyAdminPin_reply));
    match user {
        Err(err) => Err(err),
        Ok(user_is_default) => match admin {
            Err(err) => Err(err),
            Ok(admin_is_default) => Ok(user_is_default || admin_is_default),
        },
    }
}

/// Is the User PIN or the Admin PIN still the one that cards are shipped with?
/// Either one counts: the first guards signing, the second the set-up.
pub fn is_pin_factory_default<T: TransactionCard>(tx: &mut Session<T>) -> (r: Result<
    bool,
    YubiError,
>)
    ensures
        card::continues::<T>(old(tx).exchanges(), final(tx).exchanges()),
        default_check(card::since(old(tx).exchanges(), final(tx).exchanges())),
        error::outcome(r) == default_check_verdict(
            card::since(old(tx).exchanges(), final(tx).exchanges()),
        ),
{
    let user_is_default = match verify_matches_default(
        PinKind::User,
        tx.verify_user_pin(FACTORY_DEFAULT_USER_PIN),
    ) {
        Ok(verdict) => verdict,
        Err(err) => return Err(err),
    };
    let admin_is_default = match verify_matches_default(
        PinKind::Admin,
        tx.verify_admin_pin(FACTORY_DEFAULT_ADMIN_PIN),
    ) {
        Ok(verdict) => verdict,
        Err(err) => return Err(err),
    };
    Ok(user_is_default || admin_is_default)
}

/// Refuses a card of which a PIN is still the one that cards are shipped with.
pub fn require_pin_changed<T: TransactionCard>(tx: &mut Session<T>) -> (r: Result<(), YubiError>)
    ensures
        card::continues::<T>(old(tx).exchanges(), final(tx).exchanges()),
        default_check(card::since(old(tx).exchanges(), final(tx).exchanges())),
        match default_check_verdict(card::since(old(tx).exchanges(), final(tx).exchanges())) {
            Err(cause) => r matches Err(err) && err@ == cause,
            Ok(true) => r matches Err(err) && err@ is PinStillFactoryDefault,
            Ok(false) => r is Ok,
        },
{
    match is_pin_factory_default(tx) {
        Err(err) => Err(err),
        Ok(true) => Err(YubiError::PinStillFactoryDefault),
        Ok(false) => Ok(()),
    }
}

/// A check presents each of the two PINs once at most, and asks nothing else
/// of the card: it costs no PIN more than one try.
pub proof fn check_presents_each_pin_once<P>(asked: Seq<card::Exchange<P>>)
    requires
        default_check(asked),
    ensures
        asked.len() <= 2,
        forall|i: int|
            0 <= i < asked.len() ==> {
                ||| i == 0 && (#[trigger] asked[i]) is VerifyUserPin
                ||| i == 1 && asked[i] is VerifyAdminPin
            },
{
}

/// A check finds the PINs changed exactly if the card rejected both of the
/// well-known ones as wrong.
pub proof fn changed_means_both_rejected<P>(asked: Seq<card::Exchange<P>>)
    requires
        default_check(asked),
    ensures
        default_check_verdict(asked) == Ok::<bool, error::YubiErrorView>(false) <==> {
            &&& asked.len() == 2
            &&& rejected_as_wrong(asked[0]->VerifyUserPin_reply)
            &&& rejected_as_wrong(asked[1]->VerifyAdminPin_reply)
        },
{
}

/// A check finds a well-known PIN exactly if the card took one of the two and
/// took the other or rejected it as wrong.
pub proof fn default_means_one_taken<P>(asked: Seq<card::Exchange<P>>)
    requires
        default_check(asked),
    ensures
        default_check_verdict(asked) == Ok::<bool, error::YubiErrorView>(true) <==> {
            let user = asked[0]->VerifyUserPin_reply;
            let admin = asked[1]->VerifyAdminPin_reply;
            &&& asked.len() == 2
            &&& user is Ok || admin is Ok
            &&& user is Ok || rejected_as_wrong(user)
            &&& admin is Ok || rejected_as_wrong(admin)
        },
{
}

/// The card rejected the PIN that was presented, and said that it is wrong.
pub open spec fn rejected_as_wrong(answer: Result<(), openpgp_card::Error>) -> bool {
    answer matches Err(cause) && reply::failure_of(cause).kind is PasswordNotChecked
}

/// A blocked PIN is reported as such, under its own name, and never taken for
/// a changed or an unchanged one.
pub proof fn blocked_is_no_verdict<P>(asked: Seq<card::Exchange<P>>)
    requires
        default_check(asked),
        asked[0]->VerifyUserPin_reply matches Err(cause) && reply::failure_of(
            cause,
        ).kind is AuthenticationMethodBlocked,
    ensures
        asked.len() == 1,
        default_check_verdict(asked) == Err::<bool, error::YubiErrorView>(PinKind::User.blocked()),
{
}

} // verus!
