//! Finding a card, and telling which one it is.

use card_backend::SmartcardError;
use vstd::prelude::*;
use vstd::string::*;

use crate::card;
use crate::card::{
    Candidates, CardFeed, CardReaders, CardSource, NextCard, OpenCard, OpenedCard, Readers, Session,
    TransactionCard,
};
use crate::error;
use crate::error::YubiError;
use crate::reply;
use crate::reply::{CardIdentity, ReaderFailure};

verus! {

/// None of these candidates was usable.
pub open spec fn all_skipped<P>(taken: Seq<card::Exchange<P>>) -> bool {
    forall|i: int| 0 <= i < taken.len() ==> card::skipped_entry(#[trigger] taken[i])
}

/// `taken` is a search that found a card: candidates that were not usable and,
/// last of all that were taken, one that was opened.
pub open spec fn search_found<P>(taken: Seq<card::Exchange<P>>) -> bool {
    &&& taken.len() >= 1
    &&& card::found_entry(taken.last())
    &&& all_skipped(taken.drop_last())
}

/// `taken` is a search that found no card: none of the candidates was usable,
/// and there was none left, or more than a number can count.
pub open spec fn search_failed<P>(taken: Seq<card::Exchange<P>>) -> bool {
    ||| taken.len() >= 1 && card::end_entry(taken.last()) && all_skipped(taken.drop_last())
    ||| taken.len() == u64::MAX && all_skipped(taken)
}

/// The error for there being no usable card.
pub open spec fn no_card_error() -> error::YubiErrorView {
    error::YubiErrorView::CardNotFound(
        "no OpenPGP-capable card found on any connected PC/SC reader — insert a YubiKey and retry"@,
    )
}

/// An attempt that gave no card, though there may be more candidates.
pub open spec fn unusable<F: CardFeed>(attempt: card::Attempt<F>) -> bool {
    attempt.tried is Unreachable || attempt.tried is Refused
}

/// The card behind the first candidate that was opened.
pub open spec fn selected<F: CardFeed>(attempts: Seq<card::Attempt<F>>) -> Option<F::Card>
    decreases attempts.len(),
{
    if attempts.len() == 0 {
        None
    } else {
        match attempts[0].tried {
            card::Tried::Opened { card, .. } => Some(card),
            _ => selected(attempts.skip(1)),
        }
    }
}

/// What a search gives: the selected card, or the error for there being none.
pub open spec fn search_result<F: CardFeed>(attempts: Seq<card::Attempt<F>>) -> Result<
    F::Card,
    error::YubiErrorView,
> {
    match selected(attempts) {
        Some(card) => Ok(card),
        None => Err(no_card_error()),
    }
}

/// A found card by what it holds, or an error by its view.
pub open spec fn found_card<C: OpenCard>(r: Result<OpenedCard<C>, YubiError>) -> Result<
    C,
    error::YubiErrorView,
> {
    match r {
        Ok(opened) => Ok(opened.held()),
        Err(err) => Err(err@),
    }
}

/// Takes the candidates in order and opens them, until one is opened, and
/// returns that card. What is wrong with those before it does not matter; those
/// behind it are not taken.
pub fn discover_card_from<F: CardFeed>(cards: &mut Candidates<F>) -> (r: Result<
    OpenedCard<F::Card>,
    YubiError,
>)
    ensures
        card::continues_candidates::<F>(old(cards).exchanges(), final(cards).exchanges()),
        old(cards).attempts().is_prefix_of(final(cards).attempts()),
        card::taken_in_turn(
            old(cards).held(),
            card::since(old(cards).attempts(), final(cards).attempts()),
            final(cards).held(),
        ),
        card::entries_of(
            card::since(old(cards).attempts(), final(cards).attempts()),
            card::since(old(cards).exchanges(), final(cards).exchanges()),
        ),
        found_card(r) == search_result(card::since(old(cards).attempts(), final(cards).attempts())),
        match r {
            Ok(opened) => {
                &&& search_found(card::since(old(cards).exchanges(), final(cards).exchanges()))
                &&& card::opened_from::<F>(opened.held())
                &&& opened.exchanges() == Seq::<card::Exchange<card::PinOf<F::Card>>>::empty()
                &&& exists|asked: &mut F, source: F::Source|
                    {
                        &&& #[trigger] call_ensures(
                            F::next_source,
                            (asked,),
                            Some(Ok::<F::Source, SmartcardError>(source)),
                        )
                        &&& call_ensures(
                            <F::Source as CardSource>::open,
                            (source,),
                            Ok::<F::Card, openpgp_card::Error>(opened.held()),
                        )
                        &&& *final(asked) == final(cards).held()
                    }
            },
            Err(_) => search_failed(card::since(old(cards).exchanges(), final(cards).exchanges())),
        },
{
    let ghost before = cards.exchanges();
    let ghost start = cards.attempts();
    let mut left: u64 = u64::MAX;
    while left > 0
        invariant_except_break
            card::since(before, cards.exchanges()).len() == u64::MAX - left,
            all_skipped(card::since(before, cards.exchanges())),
            forall|i: int|
                0 <= i < card::since(start, cards.attempts()).len() ==> unusable(
                    #[trigger] card::since(start, cards.attempts())[i],
                ),
        invariant
            before == old(cards).exchanges(),
            start == old(cards).attempts(),
            card::continues_candidates::<F>(before, cards.exchanges()),
            start.is_prefix_of(cards.attempts()),
            card::taken_in_turn(
                old(cards).held(),
                card::since(start, cards.attempts()),
                cards.held(),
            ),
            card::entries_of(
                card::since(start, cards.attempts()),
                card::since(before, cards.exchanges()),
            ),
            selected(card::since(start, cards.attempts())) is None,
        ensures
            search_failed(card::since(before, cards.exchanges())),
        decreases left,
    {
        let ghost taken = card::since(before, cards.exchanges());
        let ghost tried = card::since(start, cards.attempts());
        let next = cards.open_next();
        let ghost longer = card::since(before, cards.exchanges());
        let ghost now = card::since(start, cards.attempts());
        proof {
            assert(longer.drop_last() =~= taken);
            assert(forall|i: int|
                0 <= i < taken.len() ==> #[trigger] longer[i] == taken[i] && card::skipped_entry(
                    taken[i],
                ));
            let last = now.last();
            assert(now =~= tried + seq![last]);
            unusable_candidates_do_not_matter(tried, seq![last]);
            assert(seq![last].skip(1) =~= Seq::empty());
            assert(selected(Seq::<card::Attempt<F>>::empty()) is None);
        }
        match next {
            NextCard::Usable(opened) => return Ok(opened),
            NextCard::Skipped => {},
            NextCard::End => break,
        }
        left = left - 1;
    }
    Err(
        YubiError::CardNotFound(
            String::from_str(
                "no OpenPGP-capable card found on any connected PC/SC reader — insert a YubiKey and retry",
            ),
        ),
    )
}

/// Candidates without a usable card, taken before the others, do not change
/// what a search gives: the same card is selected, or the error is the same.
pub proof fn unusable_candidates_do_not_matter<F: CardFeed>(
    front: Seq<card::Attempt<F>>,
    rest: Seq<card::Attempt<F>>,
)
    requires
        forall|i: int| 0 <= i < front.len() ==> unusable(#[trigger] front[i]),
    ensures
        selected(front + rest) == selected(rest),
        search_result(front + rest) == search_result(rest),
    decreases front.len(),
{
    if front.len() == 0 {
        assert(front + rest =~= rest);
    } else {
        assert((front + rest)[0] == front[0]);
        assert((front + rest).skip(1) =~= front.skip(1) + rest);
        assert(forall|i: int|
            0 <= i < front.len() - 1 ==> #[trigger] front.skip(1)[i] == front[i + 1]);
        unusable_candidates_do_not_matter(front.skip(1), rest);
    }
}

/// The error for a failed enumeration of the readers, with its likely cause.
pub open spec fn enumeration_error(failure: reply::ReaderFailureView) -> error::YubiErrorView {
    match failure {
        reply::ReaderFailureView::Context(msg) => error::YubiErrorView::CardNotFound(
            "could not establish a PC/SC context ("@ + msg + ") — is pcscd running?"@,
        ),
        reply::ReaderFailureView::Readers(msg) => error::YubiErrorView::CardNotFound(
            "could not list PC/SC readers ("@ + msg + ") — is pcscd running?"@,
        ),
        reply::ReaderFailureView::NoReader => error::YubiErrorView::CardNotFound(
            "no PC/SC reader found — is a YubiKey plugged in?"@,
        ),
        reply::ReaderFailureView::Other(text) => error::YubiErrorView::Other(text),
    }
}

/// The error for a failed enumeration of the readers.
pub fn map_enumeration_failure(failure: ReaderFailure) -> (err: YubiError)
    ensures
        err@ == enumeration_error(failure@),
{
    match failure {
        ReaderFailure::Context(msg) => YubiError::CardNotFound(
            String::from_str("could not establish a PC/SC context (").concat(msg.as_str()).concat(
                ") — is pcscd running?",
            ),
        ),
        ReaderFailure::Readers(msg) => YubiError::CardNotFound(
            String::from_str("could not list PC/SC readers (").concat(msg.as_str()).concat(
                ") — is pcscd running?",
            ),
        ),
        ReaderFailure::NoReader => YubiError::CardNotFound(
            String::from_str("no PC/SC reader found — is a YubiKey plugged in?"),
        ),
        ReaderFailure::Other(text) => YubiError::Other(text),
    }
}

/// The error for a failed enumeration of the readers.
pub fn map_enumeration_error(err: SmartcardError) -> (mapped: YubiError)
    ensures
        mapped@ == enumeration_error(reply::reader_failure_of(err)),
{
    map_enumeration_failure(ReaderFailure::of(err))
}

/// `noted` is a look into the readers that found a card.
pub open spec fn lookup_found<P>(noted: Seq<card::Exchange<P>>) -> bool {
    &&& noted.len() >= 1
    &&& noted[0] matches card::Exchange::Enumerate { failure }
    &&& failure is None
    &&& search_found(noted.skip(1))
}

/// `noted` is a look into the readers that found no card, for the reason that
/// `err` gives: the readers could not be enumerated, or no card in them was
/// usable.
pub open spec fn lookup_failed<P>(
    noted: Seq<card::Exchange<P>>,
    err: error::YubiErrorView,
) -> bool {
    &&& noted.len() >= 1
    &&& noted[0] matches card::Exchange::Enumerate { failure }
    &&& match failure {
        Some(cause) => {
            &&& noted.len() == 1
            &&& err == enumeration_error(reply::reader_failure_of(cause))
        },
        None => search_failed(noted.skip(1)) && err == no_card_error(),
    }
}

/// Every transaction in `noted` was asked of the card that the attempts
/// selected.
pub open spec fn begun_on_selected<F: CardFeed>(
    attempts: Seq<card::Attempt<F>>,
    noted: Seq<card::Exchange<card::PinOf<F::Card>>>,
) -> bool {
    forall|i: int|
        0 <= i < noted.len() && #[trigger] noted[i] is Begin ==> (selected(attempts) matches Some(
            card,
        ) && card::began_on(card, noted[i]))
}

/// Enumerates the readers and returns the first usable card in them.
pub fn discover_real_card<R: CardReaders>(readers: &mut Readers<R>) -> (r: Result<
    OpenedCard<R::Card>,
    YubiError,
>)
    ensures
        card::continues_readers::<R>(old(readers).exchanges(), final(readers).exchanges()),
        old(readers).attempts().is_prefix_of(final(readers).attempts()),
        ({
            let noted = card::since(old(readers).exchanges(), final(readers).exchanges());
            let tried = card::since(old(readers).attempts(), final(readers).attempts());
            &&& noted[0] matches card::Exchange::Enumerate { failure }
            &&& match failure {
                Some(_) => tried.len() == 0 && r is Err,
                None => {
                    &&& exists|asked: &mut R, feed: R::Feed, left: R::Feed|
                        {
                            &&& #[trigger] call_ensures(
                                R::enumerate,
                                (asked,),
                                Ok::<R::Feed, SmartcardError>(feed),
                            )
                            &&& *asked == old(readers).held()
                            &&& *final(asked) == final(readers).held()
                            &&& #[trigger] card::taken_in_turn(feed, tried, left)
                        }
                    &&& card::entries_of(tried, noted.skip(1))
                    &&& found_card(r) == search_result(tried)
                },
            }
        }),
        match r {
            Ok(opened) => {
                &&& lookup_found(card::since(old(readers).exchanges(), final(readers).exchanges()))
                &&& card::opened_from::<R::Feed>(opened.held())
                &&& opened.exchanges() == Seq::<card::Exchange<card::PinOf<R::Card>>>::empty()
            },
            Err(err) => lookup_failed(
                card::since(old(readers).exchanges(), final(readers).exchanges()),
                err@,
            ),
        },
{
    let ghost before = readers.exchanges();
    let ghost start = readers.attempts();
    let mut cards = match readers.enumerate() {
        Ok(cards) => cards,
        Err(cause) => return Err(map_enumeration_error(cause)),
    };
    let r = discover_card_from(&mut cards);
    let ghost searched = cards.exchanges();
    let ghost tried = cards.attempts();
    assert(card::since(Seq::empty(), searched) =~= searched);
    assert(card::since(Seq::empty(), tried) =~= tried);
    readers.note_search(cards);
    assert(card::since(before, readers.exchanges()).skip(1) =~= searched);
    assert(card::since(start, readers.attempts()) =~= tried);
    r
}

/// The outcome of reading which card this is: the card's answer by its text
/// form, or the card's failure.
pub open spec fn serial_outcome(
    answer: Result<openpgp_card::ocard::data::ApplicationIdentifier, openpgp_card::Error>,
) -> Result<Seq<char>, error::YubiErrorView> {
    match answer {
        Ok(aid) => Ok(reply::ident_text(reply::identity_of(aid).0, reply::identity_of(aid).1)),
        Err(cause) => Err(error::general_error(reply::failure_of(cause))),
    }
}

/// Which card this is, as `MMMM:SSSSSSSS`: its maker and its number.
pub fn read_serial<T: TransactionCard>(tx: &mut Session<T>) -> (r: Result<String, YubiError>)
    ensures
        card::continues::<T>(old(tx).exchanges(), final(tx).exchanges()),
        final(tx).exchanges().len() == old(tx).exchanges().len() + 1,
        final(tx).exchanges().last() matches card::Exchange::Identity { reply: answer }
            && error::outcome(r) == serial_outcome(answer),
{
    match tx.application_identifier() {
        Ok(aid) => Ok(CardIdentity::of(&aid).ident),
        Err(cause) => Err(YubiError::from(cause)),
    }
}

/// Candidates that were not usable do not change what a search finds when they
/// are taken before the others.
pub proof fn skipped_candidates_do_not_matter<P>(
    front: Seq<card::Exchange<P>>,
    rest: Seq<card::Exchange<P>>,
)
    requires
        all_skipped(front),
    ensures
        search_found(rest) ==> search_found(front + rest),
        rest.len() >= 1 && card::end_entry(rest.last()) && search_failed(rest) ==> search_failed(
            front + rest,
        ),
{
    let whole = front + rest;
    if rest.len() >= 1 {
        assert(whole.drop_last() =~= front + rest.drop_last());
        assert(whole.last() == rest.last());
        if all_skipped(rest.drop_last()) {
            assert forall|i: int| 0 <= i < whole.len() - 1 implies card::skipped_entry(
                #[trigger] whole.drop_last()[i],
            ) by {
                if i < front.len() {
                    assert(card::skipped_entry(front[i]));
                } else {
                    assert(card::skipped_entry(rest.drop_last()[i - front.len()]));
                }
            }
        }
    }
}

/// A search either finds a card or fails, never both, and it opens one card at
/// most: the last candidate that it takes.
pub proof fn search_opens_one_card_at_most<P>(taken: Seq<card::Exchange<P>>, i: int)
    requires
        search_found(taken) || search_failed(taken),
        0 <= i < taken.len(),
        card::found_entry(taken[i]),
    ensures
        i == taken.len() - 1,
        search_found(taken),
        !search_failed(taken),
{
    if i < taken.len() - 1 {
        assert(card::skipped_entry(taken.drop_last()[i]) == card::skipped_entry(taken[i]));
    }
}

/// Every failure to find a card is told as that, except for a failure of the
/// transport that has no meaning for an enumeration.
pub proof fn not_finding_a_card_is_told<P>(
    noted: Seq<card::Exchange<P>>,
    err: error::YubiErrorView,
)
    requires
        lookup_failed(noted, err),
    ensures
        err is CardNotFound || (noted[0]->failure matches Some(cause) && reply::reader_failure_of(
            cause,
        ) is Other),
{
}

} // verus!
