//! Finding a card: the first that opens.

use card_backend::SmartcardError;
use vstd::prelude::*;

use crate::card;
use crate::card::{Candidates, CardFeed, CardReaders, CardSource, OpenedCard, Readers};
use crate::discovery;
use crate::error::YubiError;
use crate::laws::words;
use crate::reply;

verus! {

/// What a feed must have given for this to have become of a candidate.
pub open spec fn given_by_feed<F: CardFeed>(tried: card::Tried<F::Source, F::Card>) -> Option<
    Result<F::Source, SmartcardError>,
> {
    match tried {
        card::Tried::End => None,
        card::Tried::Unreachable { cause } => Some(Err(cause)),
        card::Tried::Refused { source, .. } => Some(Ok(source)),
        card::Tried::Opened { source, .. } => Some(Ok(source)),
    }
}

/// `tried` are candidates that a search took, the first from the feed `from` and
/// each other one from the feed that the one before it left. None but the last
/// was usable; what is wrong with a candidate never ends a search.
pub open spec fn searched_in_turn<F: CardFeed>(from: F, tried: Seq<card::Attempt<F>>) -> bool {
    &&& tried.len() > 0
    &&& tried[0].feed == from
    &&& forall|i: int|
        0 <= i < tried.len() - 1 ==> (#[trigger] tried[i]).tried is Unreachable
            || tried[i].tried is Refused
    &&& forall|i: int, j: int|
        0 <= i < j < tried.len() && j == i + 1 ==> (#[trigger] tried[i]).left == (
        #[trigger] tried[j]).feed
    &&& forall|i: int|
        0 <= i < tried.len() ==> exists|asked: &mut F| #[trigger]
            call_ensures(
                F::next_source,
                (asked,),
                given_by_feed::<F>((#[trigger] tried[i]).tried),
            ) && *asked == tried[i].feed
    &&& forall|i: int|
        0 <= i < tried.len() ==> match (#[trigger] tried[i]).tried {
            card::Tried::Refused { source, cause } => call_ensures(
                <F::Source as CardSource>::open,
                (source,),
                Err::<F::Card, openpgp_card::Error>(cause),
            ),
            card::Tried::Opened { source, card } => call_ensures(
                <F::Source as CardSource>::open,
                (source,),
                Ok::<F::Card, openpgp_card::Error>(card),
            ),
            _ => true,
        }
}

/// What a search gives: the card that opened last; or, when there was no
/// candidate left, the error that there is no card. (A search is given up where
/// it would need more candidates than a counter holds.)
pub open spec fn ends_a_search<F: CardFeed>(
    tried: Seq<card::Attempt<F>>,
    r: Result<OpenedCard<F::Card>, YubiError>,
) -> bool {
    match r {
        Ok(opened) => tried.last().tried matches card::Tried::Opened { card, .. } && card
            == opened.held(),
        Err(err) => words::told_as_no_card(err@) && (tried.last().tried is End || (tried.len() == u64::MAX
            && !(tried.last().tried is Opened))),
    }
}

proof fn lemma_searched_in_turn<F: CardFeed>(
    from: F,
    tried: Seq<card::Attempt<F>>,
    to: F,
    taken: Seq<card::Exchange<card::PinOf<F::Card>>>,
    r: Result<OpenedCard<F::Card>, YubiError>,
)
    requires
        card::taken_in_turn(from, tried, to),
        card::entries_of(tried, taken),
        r is Ok ==> discovery::search_found(taken),
        r is Err ==> discovery::search_failed(taken),
        discovery::found_card(r) == discovery::search_result(tried),
    ensures
        searched_in_turn(from, tried),
        ends_a_search(tried, r),
        tried.last().left == to,
{
    assert forall|i: int| 0 <= i < tried.len() - 1 implies (#[trigger] tried[i]).tried is Unreachable
        || tried[i].tried is Refused by {
        assert(taken[i] == (card::Exchange::<card::PinOf<F::Card>>::Candidate {
            outcome: tried[i].tried.outcome(),
        }));
        assert(taken.drop_last()[i] == taken[i]);
        if discovery::all_skipped(taken) {
            assert(card::skipped_entry(taken[i]));
        } else {
            assert(card::skipped_entry(taken.drop_last()[i]));
        }
    }
    assert forall|i: int| 0 <= i < tried.len() implies exists|asked: &mut F| #[trigger]
        call_ensures(F::next_source, (asked,), given_by_feed::<F>((#[trigger] tried[i]).tried))
            && *asked == tried[i].feed by {
        assert(card::made_by_feed(tried[i]));
        assert(given_by_feed::<F>(tried[i].tried) == tried[i].tried.taken());
    }
    assert(taken.last() == (card::Exchange::<card::PinOf<F::Card>>::Candidate {
        outcome: tried.last().tried.outcome(),
    }));
    if r is Ok {
        lemma_selected_is_last(tried);
    }
}

proof fn lemma_selected_is_last<F: CardFeed>(tried: Seq<card::Attempt<F>>)
    requires
        tried.len() > 0,
        forall|i: int|
            0 <= i < tried.len() - 1 ==> (#[trigger] tried[i]).tried is Unreachable
                || tried[i].tried is Refused,
        discovery::selected(tried) is Some,
    ensures
        tried.last().tried is Opened,
        discovery::selected(tried) == Some(tried.last().tried->card),
    decreases tried.len(),
{
    if tried.len() > 1 {
        let rest = tried.skip(1);
        assert(forall|i: int| 0 <= i < rest.len() ==> #[trigger] rest[i] == tried[i + 1]);
        assert(rest.last() == tried.last());
        lemma_selected_is_last(rest);
    } else {
        assert(tried.skip(1) =~= Seq::empty());
        assert(discovery::selected(Seq::<card::Attempt<F>>::empty()) is None);
    }
}

/// A search takes candidates from the feed in turn and ends with the first that
/// opens, which is the card that it gives, or when there is none left.
pub proof fn search_finds_the_first_usable_card<F: CardFeed>(
    cards: &mut Candidates<F>,
    r: Result<OpenedCard<F::Card>, YubiError>,
)
    requires
        call_ensures(discovery::discover_card_from::<F>, (cards,), r),
    ensures
        old(cards).attempts().is_prefix_of(final(cards).attempts()),
        ({
            let tried = card::since(old(cards).attempts(), final(cards).attempts());
            &&& searched_in_turn(old(cards).held(), tried)
            &&& ends_a_search(tried, r)
            &&& tried.last().left == final(cards).held()
        }),
{
    lemma_searched_in_turn(
        cards.held(),
        card::since(cards.attempts(), final(cards).attempts()),
        final(cards).held(),
        card::since(cards.exchanges(), final(cards).exchanges()),
        r,
    );
}

/// A look into the readers enumerates them once. If that fails, no candidate
/// is taken, and the failure is told; if not, what the enumeration gave is
/// searched.
pub proof fn lookup_follows_the_readers<R: CardReaders>(
    readers: &mut Readers<R>,
    r: Result<OpenedCard<R::Card>, YubiError>,
)
    requires
        call_ensures(discovery::discover_real_card::<R>, (readers,), r),
    ensures
        old(readers).attempts().is_prefix_of(final(readers).attempts()),
        exists|asked: &mut R, reply: Result<R::Feed, SmartcardError>| #[trigger]
            call_ensures(R::enumerate, (asked,), reply) && {
                let tried = card::since(old(readers).attempts(), final(readers).attempts());
                match reply {
                    Err(cause) => {
                        &&& tried.len() == 0
                        &&& r is Err
                        &&& words::told_of_readers(reply::reader_failure_of(cause), r->Err_0@)
                    },
                    Ok(feed) => {
                        &&& *asked == old(readers).held()
                        &&& *final(asked) == final(readers).held()
                        &&& searched_in_turn(feed, tried)
                        &&& ends_a_search(tried, r)
                    },
                }
            },
{
    let before = readers.exchanges();
    let after = final(readers).exchanges();
    let noted = card::since(before, after);
    let tried = card::since(readers.attempts(), final(readers).attempts());
    assert(card::continues_readers::<R>(before, after));
    assert(noted[0] == after[before.len() as int]);
    match noted[0]->failure {
        Some(cause) => {
            assert(card::enumerated_by::<R>(after[before.len() as int]));
        },
        None => {
            let (asked, feed, left) = choose|asked: &mut R, feed: R::Feed, left: R::Feed|
                {
                    &&& #[trigger] call_ensures(
                        R::enumerate,
                        (asked,),
                        Ok::<R::Feed, SmartcardError>(feed),
                    )
                    &&& *asked == readers.held()
                    &&& *final(asked) == final(readers).held()
                    &&& #[trigger] card::taken_in_turn(feed, tried, left)
                };
            lemma_searched_in_turn(feed, tried, left, noted.skip(1), r);
        },
    }
}

} // verus!
