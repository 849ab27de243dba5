//! What is made of a failure, and what a person is told.

use card_backend::SmartcardError;
use vstd::prelude::*;

use crate::discovery;
use crate::error;
use crate::error::YubiError;
use crate::laws::setting_up;
use crate::laws::shipped_pins;
use crate::laws::words;
use crate::pin;
use crate::provision;
use crate::reply;
use crate::reply::{CardFailure, ReaderFailure};
use crate::sign;

verus! {

/// A failure of which nothing else is known is told plainly, whichever way it
/// comes.
pub proof fn failures_are_told_plainly(
    failure: CardFailure,
    err: YubiError,
    cause: openpgp_card::Error,
    from_cause: YubiError,
)
    requires
        call_ensures(YubiError::from_failure, (failure,), err),
        call_ensures(<YubiError as From<openpgp_card::Error>>::from, (cause,), from_cause),
    ensures
        words::told_plainly(failure@, err@),
        words::told_plainly(reply::failure_of(cause), from_cause@),
{
}

/// A signing PIN that was not taken is told as the User PIN.
pub proof fn signing_pin_failures_are_told(
    failure: CardFailure,
    err: YubiError,
    cause: openpgp_card::Error,
    from_cause: YubiError,
)
    requires
        call_ensures(sign::map_signing_pin_failure, (failure,), err),
        call_ensures(sign::map_signing_pin_error, (cause,), from_cause),
    ensures
        words::told_of_pin(pin::PinKind::User, failure@, err@),
        words::told_of_pin(pin::PinKind::User, reply::failure_of(cause), from_cause@),
{
}

/// A signature request that failed is told plainly, but a failed transmission
/// is a touch that never came.
pub proof fn signature_failures_are_told(
    failure: CardFailure,
    err: YubiError,
    cause: openpgp_card::Error,
    from_cause: YubiError,
)
    requires
        call_ensures(sign::map_sign_failure, (failure,), err),
        call_ensures(sign::map_sign_error, (cause,), from_cause),
    ensures
        failure@.kind is Smartcard <==> err@ is TouchTimeout,
        !(failure@.kind is Smartcard) ==> words::told_plainly(failure@, err@),
        reply::failure_of(cause).kind is Smartcard <==> from_cause@ is TouchTimeout,
        !(reply::failure_of(cause).kind is Smartcard) ==> words::told_plainly(
            reply::failure_of(cause),
            from_cause@,
        ),
{
}

/// A failed operation that needs the Admin PIN is told plainly, but that the
/// PIN was not verified is told apart.
pub proof fn admin_failures_are_told(
    failure: CardFailure,
    err: YubiError,
    cause: openpgp_card::Error,
    from_cause: YubiError,
)
    requires
        call_ensures(provision::map_admin_op_failure, (failure,), err),
        call_ensures(provision::map_admin_op_error, (cause,), from_cause),
    ensures
        setting_up::told_to_admin(failure@, err@),
        setting_up::told_to_admin(reply::failure_of(cause), from_cause@),
{
}

/// A failed enumeration is told by what the readers said.
pub proof fn reader_failures_are_told(
    failure: ReaderFailure,
    err: YubiError,
    cause: SmartcardError,
    from_cause: YubiError,
)
    requires
        call_ensures(discovery::map_enumeration_failure, (failure,), err),
        call_ensures(discovery::map_enumeration_error, (cause,), from_cause),
    ensures
        words::told_of_readers(failure@, err@),
        words::told_of_readers(reply::reader_failure_of(cause), from_cause@),
{
}

/// The answer to a well-known PIN is judged alone by whether the card took the
/// PIN or said that it is wrong; anything else is an error.
pub proof fn probes_are_judged_by_the_answer(
    kind: pin::PinKind,
    answer: Result<(), CardFailure>,
    r: Result<bool, YubiError>,
    reply: Result<(), openpgp_card::Error>,
    from_reply: Result<bool, YubiError>,
)
    requires
        call_ensures(pin::judge_probe, (kind, answer), r),
        call_ensures(pin::verify_matches_default, (kind, reply), from_reply),
    ensures
        match answer {
            Ok(()) => r == Ok::<bool, YubiError>(true),
            Err(failure) => if failure@.kind is PasswordNotChecked {
                r == Ok::<bool, YubiError>(false)
            } else {
                r is Err && words::told_of_pin(kind, failure@, r->Err_0@)
            },
        },
        if shipped_pins::probe_fails(reply) {
            from_reply is Err && shipped_pins::probe_error(kind, reply->Err_0, from_reply->Err_0@)
        } else {
            from_reply == Ok::<bool, YubiError>(reply is Ok)
        },
{
}

/// A blocked PIN is told under its name, and the two PINs with different help.
pub proof fn blocked_pins_are_named(kind: pin::PinKind, err: YubiError)
    requires
        call_ensures(pin::PinKind::blocked_error, (kind,), err),
    ensures
        words::told_as_blocked(kind, err@),
{
}

/// What an error says to a person: a text that it was given, it says as it is;
/// and two errors of one kind are told in sentences that differ only in what
/// they were given.
pub proof fn messages_say_what_they_were_given(
    err: YubiError,
    text: String,
    other: YubiError,
    other_text: String,
)
    requires
        call_ensures(YubiError::message, (&err,), text),
        call_ensures(YubiError::message, (&other,), other_text),
    ensures
        err@ matches error::YubiErrorView::CardNotFound(cause) ==> text@ == cause,
        err@ matches error::YubiErrorView::Other(words) ==> text@ == words,
        match (err@, other@) {
            (
                error::YubiErrorView::WrongCard { expected, found },
                error::YubiErrorView::WrongCard { expected: other_expected, found: other_found },
            ) => exists|front: Seq<char>, middle: Seq<char>|
                text@ == #[trigger] words::sentence(front, expected, middle) + found && other_text@
                    == words::sentence(front, other_expected, middle) + other_found,
            (
                error::YubiErrorView::PinBlocked { pin_kind, recovery_hint },
                error::YubiErrorView::PinBlocked {
                    pin_kind: other_kind,
                    recovery_hint: other_hint,
                },
            ) => exists|middle: Seq<char>|
                text@ == #[trigger] words::sentence(named(pin_kind), middle, recovery_hint) && other_text@
                    == words::sentence(named(other_kind), middle, other_hint),
            _ => true,
        },
{
    match (err@, other@) {
        (
            error::YubiErrorView::WrongCard { expected, found },
            error::YubiErrorView::WrongCard { expected: other_expected, found: other_found },
        ) => {
            let front = "wrong YubiKey inserted: expected card serial "@;
            let middle = ", found "@;
            assert(text@ == words::sentence(front, expected, middle) + found);
        },
        (
            error::YubiErrorView::PinBlocked { pin_kind, recovery_hint },
            error::YubiErrorView::PinBlocked { pin_kind: other_kind, recovery_hint: other_hint },
        ) => {
            let middle = "PIN is blocked (too many incorrect attempts) — "@;
            reveal_strlit(" ");
            assert(text@ =~= words::sentence(named(pin_kind), middle, recovery_hint));
            assert(other_text@ =~= words::sentence(named(other_kind), middle, other_hint));
        },
        _ => {},
    }
}

/// The name of a PIN with a blank behind it; nothing, if it has no name.
pub open spec fn named(pin_kind: Seq<char>) -> Seq<char> {
    if pin_kind.len() == 0 {
        pin_kind
    } else {
        pin_kind.push(' ')
    }
}

} // verus!
