//! A check for shipped PINs follows the card, and what it costs.

use vstd::prelude::*;

use crate::card;
use crate::card::{Session, TransactionCard};
use crate::error;
use crate::error::YubiError;
use crate::laws::fake_card;
use crate::laws::words;
use crate::pin;
use crate::reply;
use crate::testing;

verus! {

/// A check presents `123456` as the User PIN and, unless the answer to that is
/// an error, `12345678` as the Admin PIN, once each and nothing else. It finds a
/// shipped PIN exactly if the card took one of them.
pub proof fn check_follows_the_card<T: TransactionCard>(
    tx: &mut Session<T>,
    r: Result<bool, YubiError>,
)
    requires
        call_ensures(pin::is_pin_factory_default::<T>, (tx,), r),
    ensures
        exists|c: &mut T, user_pin: &str, user: Result<(), openpgp_card::Error>| #[trigger]
            call_ensures(T::verify_user_pin, (c, user_pin), user) && user_pin@ == "123456"@ && if (
            probe_fails(user)) {
                &&& r is Err
                &&& probe_error(pin::PinKind::User, user->Err_0, r->Err_0@)
                &&& final(tx).exchanges() == old(tx).exchanges() + seq![
                    card::Exchange::VerifyUserPin { pin: "123456"@, reply: user },
                ]
            } else {
                exists|d: &mut T, admin_pin: &str, admin: Result<(), openpgp_card::Error>|
                    #[trigger]
                    call_ensures(T::verify_admin_pin, (d, admin_pin), admin) && admin_pin@
                        == "12345678"@ && final(tx).exchanges() == old(tx).exchanges() + seq![
                        card::Exchange::VerifyUserPin { pin: "123456"@, reply: user },
                        card::Exchange::VerifyAdminPin { pin: "12345678"@, reply: admin },
                    ] && if probe_fails(admin) {
                        r is Err && probe_error(pin::PinKind::Admin, admin->Err_0, r->Err_0@)
                    } else {
                        r is Ok && r->Ok_0 == (user is Ok || admin is Ok)
                    }
            },
{
    let before = tx.exchanges();
    let after = final(tx).exchanges();
    let asked = card::since(before, after);
    assert(card::continues::<T>(before, after));
    assert(asked[0] == after[before.len() as int]);
    if asked.len() > 1 {
        assert(asked[1] == after[before.len() as int + 1]);
        assert(after =~= before + seq![asked[0], asked[1]]);
    } else {
        assert(after =~= before + seq![asked[0]]);
    }
}

/// The answer to a PIN tells neither that it is right nor that it is wrong.
pub open spec fn probe_fails(answer: Result<(), openpgp_card::Error>) -> bool {
    answer is Err && !(reply::failure_of(answer->Err_0).kind is PasswordNotChecked)
}

/// The error for such an answer.
pub open spec fn probe_error(
    kind: pin::PinKind,
    cause: openpgp_card::Error,
    err: error::YubiErrorView,
) -> bool {
    words::told_of_pin(kind, reply::failure_of(cause), err)
}

/// A card is refused exactly if a check finds a shipped PIN on it, or finds out
/// nothing.
pub proof fn refusal_follows_the_card<T: TransactionCard>(
    tx: &mut Session<T>,
    r: Result<(), YubiError>,
)
    requires
        call_ensures(pin::require_pin_changed::<T>, (tx,), r),
    ensures
        exists|c: &mut T, user_pin: &str, user: Result<(), openpgp_card::Error>| #[trigger]
            call_ensures(T::verify_user_pin, (c, user_pin), user) && user_pin@ == "123456"@ && if (
            probe_fails(user)) {
                &&& r is Err
                &&& probe_error(pin::PinKind::User, user->Err_0, r->Err_0@)
                &&& final(tx).exchanges() == old(tx).exchanges() + seq![
                    card::Exchange::VerifyUserPin { pin: "123456"@, reply: user },
                ]
            } else {
                exists|d: &mut T, admin_pin: &str, admin: Result<(), openpgp_card::Error>|
                    #[trigger]
                    call_ensures(T::verify_admin_pin, (d, admin_pin), admin) && admin_pin@
                        == "12345678"@ && final(tx).exchanges() == old(tx).exchanges() + seq![
                        card::Exchange::VerifyUserPin { pin: "123456"@, reply: user },
                        card::Exchange::VerifyAdminPin { pin: "12345678"@, reply: admin },
                    ] && if probe_fails(admin) {
                        r is Err && probe_error(pin::PinKind::Admin, admin->Err_0, r->Err_0@)
                    } else if user is Ok || admin is Ok {
                        r is Err && r->Err_0@ is PinStillFactoryDefault
                    } else {
                        r is Ok
                    }
            },
{
    let before = tx.exchanges();
    let after = final(tx).exchanges();
    let asked = card::since(before, after);
    assert(card::continues::<T>(before, after));
    assert(asked[0] == after[before.len() as int]);
    if asked.len() > 1 {
        assert(asked[1] == after[before.len() as int + 1]);
        assert(after =~= before + seq![asked[0], asked[1]]);
    } else {
        assert(after =~= before + seq![asked[0]]);
    }
}

/// The command that presents a PIN to a card: VERIFY, which PIN it is, its
/// length, and the PIN.
pub open spec fn presents(p2: u8, pin: Seq<char>) -> Seq<u8> {
    seq![0x00u8, 0x20, 0x00, p2, pin.len() as u8] + fake_card::ascii(pin)
}

/// The card after it was presented the PINs of these exchanges.
pub open spec fn presented_to<P>(
    card: testing::FakeCardView,
    asked: Seq<card::Exchange<P>>,
) -> testing::FakeCardView
    decreases asked.len(),
{
    if asked.len() == 0 {
        card
    } else {
        let before = presented_to(card, asked.drop_last());
        match asked.last() {
            card::Exchange::VerifyUserPin { pin, .. } => before.after(presents(0x82, pin)),
            card::Exchange::VerifyAdminPin { pin, .. } => before.after(presents(0x83, pin)),
            _ => before,
        }
    }
}

/// The answers in these exchanges say what the card says to the PINs in them,
/// one after the other.
pub open spec fn answered_in_turn<P>(
    card: testing::FakeCardView,
    asked: Seq<card::Exchange<P>>,
) -> bool
    decreases asked.len(),
{
    asked.len() > 0 ==> {
        let before = presented_to(card, asked.drop_last());
        &&& answered_in_turn(card, asked.drop_last())
        &&& match asked.last() {
            card::Exchange::VerifyUserPin { pin, reply } => testing::reply_tells(
                reply,
                before.answer(presents(0x82, pin)),
            ),
            card::Exchange::VerifyAdminPin { pin, reply } => testing::reply_tells(
                reply,
                before.answer(presents(0x83, pin)),
            ),
            _ => true,
        }
    }
}

/// The card has both PINs that cards are shipped with, and all tries of them.
pub open spec fn has_shipped_pins(card: testing::FakeCardView) -> bool {
    &&& card.pw1 == (testing::PinSlotView { current: fake_card::ascii("123456"@), retries_left: 3 })
    &&& card.pw3 == (testing::PinSlotView { current: fake_card::ascii("12345678"@), retries_left: 3 })
}

/// A check on a card that has both shipped PINs finds them, and costs neither of
/// them a try.
pub proof fn check_costs_a_shipped_card_nothing<T: TransactionCard>(
    tx: &mut Session<T>,
    r: Result<bool, YubiError>,
    card: testing::FakeCardView,
)
    requires
        call_ensures(pin::is_pin_factory_default::<T>, (tx,), r),
        has_shipped_pins(card),
        answered_in_turn(card, card::since(tx.exchanges(), final(tx).exchanges())),
    ensures
        r == Ok::<bool, YubiError>(true),
        has_shipped_pins(
            presented_to(card, card::since(old(tx).exchanges(), final(tx).exchanges())),
        ),
{
    let asked = card::since(tx.exchanges(), final(tx).exchanges());
    lemma_check_of_shipped_pins(card, asked);
}

proof fn lemma_check_of_shipped_pins<P>(card: testing::FakeCardView, asked: Seq<card::Exchange<P>>)
    requires
        pin::default_check(asked),
        has_shipped_pins(card),
        answered_in_turn(card, asked),
    ensures
        pin::default_check_verdict(asked) == Ok::<bool, error::YubiErrorView>(true),
        has_shipped_pins(presented_to(card, asked)),
{
    reveal_with_fuel(presented_to, 3);
    reveal_with_fuel(answered_in_turn, 3);
    reveal_strlit("123456");
    reveal_strlit("12345678");
    let user = presents(0x82, "123456"@);
    let admin = presents(0x83, "12345678"@);
    assert(testing::FakeCardView::presented_pin(user) =~= fake_card::ascii("123456"@));
    assert(testing::FakeCardView::presented_pin(admin) =~= fake_card::ascii("12345678"@));
    let first = asked.take(1);
    assert(first.drop_last() =~= Seq::empty());
    assert(first.last() == asked[0]);
    if asked.len() == 1 {
        assert(asked =~= first);
    } else {
        assert(asked.drop_last() =~= first);
        assert(asked.last() == asked[1]);
    }
    assert(presented_to(card, first) == card.after(user));
    assert(has_shipped_pins(card.after(user)));
}

/// However many checks were made on such a card before, it still has all tries,
/// and the next check finds the shipped PINs.
pub proof fn checks_cost_a_shipped_card_nothing<P>(
    card: testing::FakeCardView,
    checks: Seq<Seq<card::Exchange<P>>>,
    n: int,
)
    requires
        0 <= n <= checks.len(),
        has_shipped_pins(card),
        forall|i: int| 0 <= i < checks.len() ==> pin::default_check(#[trigger] checks[i]),
        forall|i: int|
            0 <= i < checks.len() ==> answered_in_turn(
                checked_by(card, checks.take(i)),
                #[trigger] checks[i],
            ),
    ensures
        has_shipped_pins(checked_by(card, checks.take(n))),
        n < checks.len() ==> pin::default_check_verdict(checks[n]) == Ok::<
            bool,
            error::YubiErrorView,
        >(true),
    decreases n,
{
    if n > 0 {
        checks_cost_a_shipped_card_nothing(card, checks, n - 1);
        assert(checks.take(n).drop_last() =~= checks.take(n - 1));
        assert(checks.take(n).last() == checks[n - 1]);
        lemma_check_of_shipped_pins(checked_by(card, checks.take(n - 1)), checks[n - 1]);
    } else {
        assert(checks.take(0) =~= Seq::empty());
    }
    if n < checks.len() {
        lemma_check_of_shipped_pins(checked_by(card, checks.take(n)), checks[n]);
    }
}

/// The card after these checks.
pub open spec fn checked_by<P>(
    card: testing::FakeCardView,
    checks: Seq<Seq<card::Exchange<P>>>,
) -> testing::FakeCardView
    decreases checks.len(),
{
    if checks.len() == 0 {
        card
    } else {
        presented_to(checked_by(card, checks.drop_last()), checks.last())
    }
}

} // verus!
