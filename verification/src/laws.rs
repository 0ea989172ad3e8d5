//! What holds of the pipeline across several steps.

use crate::controller::{arrivals, AppView};
use crate::record::CardView;
use vstd::prelude::*;

verus! {

/// A run of polls leaves everything but the feed alone, and appends to the
/// feed exactly the cards found, in the order found, if a queue is installed.
pub proof fn law_drain_appends_arrivals(v: AppView, outcomes: Seq<Option<CardView>>)
    ensures
        v.drained(outcomes) == (AppView {
            feed: if v.listening {
                v.feed + arrivals(outcomes)
            } else {
                v.feed
            },
            ..v
        }),
    decreases outcomes.len(),
{
    if outcomes.len() == 0 {
        assert(v.feed + arrivals(outcomes) =~= v.feed);
    } else {
        let earlier = outcomes.drop_last();
        law_drain_appends_arrivals(v, earlier);
        match outcomes.last() {
            Some(card) => {
                assert((v.feed + arrivals(earlier)).push(card) =~= v.feed + arrivals(earlier).push(
                    card,
                ));
            },
            None => {},
        }
    }
}

/// What fewer polls found is a prefix of what more polls found.
pub proof fn law_arrivals_grow(outcomes: Seq<Option<CardView>>, k: int)
    requires
        0 <= k <= outcomes.len(),
    ensures
        arrivals(outcomes.take(k)).is_prefix_of(arrivals(outcomes)),
    decreases outcomes.len(),
{
    if k == outcomes.len() {
        assert(outcomes.take(k) =~= outcomes);
    } else {
        let earlier = outcomes.drop_last();
        law_arrivals_grow(earlier, k);
        assert(earlier.take(k) =~= outcomes.take(k));
        assert(arrivals(earlier).is_prefix_of(arrivals(outcomes)));
    }
}

/// The feed only grows at its end: after the first `k` polls of a run it is a
/// prefix of the feed after the whole run.
pub proof fn law_feed_grows_at_end(v: AppView, outcomes: Seq<Option<CardView>>, k: int)
    requires
        0 <= k <= outcomes.len(),
    ensures
        v.drained(outcomes.take(k)).feed.is_prefix_of(v.drained(outcomes).feed),
{
    law_drain_appends_arrivals(v, outcomes);
    law_drain_appends_arrivals(v, outcomes.take(k));
    law_arrivals_grow(outcomes, k);
}

/// Within one generation the feed is a prefix of what the worker produced,
/// card for card. The worker's queue accepts a prefix `sent` of `produced`;
/// the queue hands over what it accepted in order and once, so what the polls
/// found is a prefix of `sent`; and the controller neither reorders, repeats
/// nor drops what the polls found.
pub proof fn law_feed_is_prefix_of_production(
    v: AppView,
    outcomes: Seq<Option<CardView>>,
    sent: Seq<CardView>,
    produced: Seq<CardView>,
)
    requires
        v.config.has_key(),
        sent.is_prefix_of(produced),
        arrivals(outcomes).is_prefix_of(sent),
    ensures
        v.restarted().drained(outcomes).feed == arrivals(outcomes),
        v.restarted().drained(outcomes).feed.is_prefix_of(produced),
        forall|i: int|
            0 <= i < v.restarted().drained(outcomes).feed.len() ==> v.restarted().drained(
                outcomes,
            ).feed[i] == produced[i],
{
    law_restart_forgets(v, outcomes);
}

/// A new generation starts from an empty feed, and whatever is polled
/// afterwards, the feed holds cards of the new generation only.
pub proof fn law_restart_forgets(v: AppView, outcomes: Seq<Option<CardView>>)
    requires
        v.config.has_key(),
    ensures
        v.restarted().feed == Seq::<CardView>::empty(),
        v.restarted().state() == crate::controller::AppState::Fetching,
        v.restarted().drained(outcomes).feed == arrivals(outcomes),
{
    law_drain_appends_arrivals(v.restarted(), outcomes);
    assert(Seq::<CardView>::empty() + arrivals(outcomes) =~= arrivals(outcomes));
}

/// Polls that find nothing change nothing, however many there are.
pub proof fn law_idle_polls_change_nothing(v: AppView, outcomes: Seq<Option<CardView>>)
    requires
        forall|i: int| 0 <= i < outcomes.len() ==> outcomes[i] is None,
    ensures
        v.polled(None) == v,
        v.drained(outcomes) == v,
    decreases outcomes.len(),
{
    if outcomes.len() > 0 {
        law_idle_polls_change_nothing(v, outcomes.drop_last());
    }
}

/// With no queue installed, a card that turns up is discarded.
pub proof fn law_without_queue_nothing_arrives(v: AppView, pending: Option<CardView>)
    requires
        !v.listening,
    ensures
        v.polled(pending) == v,
{
}

/// The theme toggle changes the theme only, undoes itself, and may be
/// exchanged with a poll, a restart, a refresh or a key submission.
pub proof fn law_theme_toggle_commutes(v: AppView, pending: Option<CardView>, key: Seq<char>)
    ensures
        v.toggled().feed == v.feed,
        v.toggled().listening == v.listening,
        v.toggled().configured == v.configured,
        v.toggled().config.api_key == v.config.api_key,
        v.toggled().config.dark_mode == !v.config.dark_mode,
        v.toggled().toggled() == v,
        v.toggled().polled(pending) == v.polled(pending).toggled(),
        v.toggled().restarted() == v.restarted().toggled(),
        v.toggled().refreshed() == v.refreshed().toggled(),
        v.toggled().keyed(key) == v.keyed(key).toggled(),
{
}

/// Every transition keeps a well-formed controller well-formed, and the
/// initial controller is well-formed.
pub proof fn law_transitions_keep_wf(v: AppView, pending: Option<CardView>, key: Seq<char>)
    requires
        v.wf(),
    ensures
        AppView::initial(v.config).wf(),
        v.toggled().wf(),
        v.polled(pending).wf(),
        v.restarted().wf(),
        v.refreshed().wf(),
        v.keyed(key).wf(),
{
}

} // verus!
