//! The producing side of a fetch generation: turns what the news service
//! returned into cards and publishes them, in order, on the generation's queue.

use crate::channel::offer;
use crate::record::{shown_desc, text_of, views, CardView, NewsCardData};
use std::sync::mpsc::Sender;
use vstd::prelude::*;

verus! {

/// One article as the news service returned it.
#[derive(Debug)]
pub struct FetchedArticle {
    pub title: String,
    pub desc: Option<String>,
    pub url: String,
}

impl FetchedArticle {
    /// The card that this article becomes.
    pub open spec fn card(&self) -> CardView {
        CardView { title: self.title@, desc: shown_desc(text_of(self.desc)), url: self.url@ }
    }

    pub fn to_card(&self) -> (card: NewsCardData)
        ensures
            card@ == self.card(),
    {
        let desc = match &self.desc {
            Some(d) => Some(d.clone()),
            None => None,
        };
        NewsCardData::new(self.title.clone(), desc, self.url.clone())
    }
}

/// The cards of a run of articles, in the service's order.
pub open spec fn cards_of(articles: Seq<FetchedArticle>) -> Seq<CardView> {
    Seq::new(articles.len(), |i: int| articles[i].card())
}

/// Turns every article into its card, keeping the order.
pub fn to_cards(articles: &Vec<FetchedArticle>) -> (cards: Vec<NewsCardData>)
    ensures
        views(cards@) == cards_of(articles@),
{
    let mut cards: Vec<NewsCardData> = Vec::new();
    let mut i: usize = 0;
    while i < articles.len()
        invariant
            i <= articles.len(),
            cards.len() == i,
            forall|j: int| 0 <= j < i ==> (#[trigger] cards[j])@ == articles[j].card(),
        decreases articles.len() - i,
    {
        cards.push(articles[i].to_card());
        i += 1;
    }
    proof {
        assert(views(cards@) =~= cards_of(articles@));
    }
    cards
}

/// How a worker's generation ended; the caller logs it.
#[derive(Debug)]
pub enum WorkerReport {
    /// Every card was accepted by the queue.
    Delivered { count: usize },
    /// The consumer was gone: `delivered` cards were accepted before the first
    /// refusal, and the remaining `dropped` were discarded.
    ChannelRetired { delivered: usize, dropped: usize },
    /// The news service failed; nothing was sent.
    FetchFailed { message: String },
}

impl WorkerReport {
    /// How many cards the queue accepted.
    pub open spec fn accepted(self) -> nat {
        match self {
            WorkerReport::Delivered { count } => count as nat,
            WorkerReport::ChannelRetired { delivered, .. } => delivered as nat,
            WorkerReport::FetchFailed { .. } => 0,
        }
    }
}

/// The report for `total` cards of which the first `delivered` were accepted.
pub open spec fn report_of(total: usize, delivered: usize) -> WorkerReport {
    if delivered >= total {
        WorkerReport::Delivered { count: total }
    } else {
        WorkerReport::ChannelRetired { delivered, dropped: (total - delivered) as usize }
    }
}

/// Decides what a worker reports once its sends are over.
pub fn settle(total: usize, delivered: usize) -> (report: WorkerReport)
    ensures
        report == report_of(total, delivered),
{
    if delivered >= total {
        WorkerReport::Delivered { count: total }
    } else {
        WorkerReport::ChannelRetired { delivered, dropped: total - delivered }
    }
}

/// The producing end of one fetch generation, with the credential to fetch by.
/// It remembers, for proofs only, which cards its queue accepted and how
/// many it was offered.
pub struct FetchJob {
    api_key: String,
    tx: Sender<NewsCardData>,
    sent: Ghost<Seq<CardView>>,
    offers: Ghost<nat>,
}

/// How many sends it takes to publish `total` cards of which the first
/// `delivered` are accepted: one more than were accepted if one was refused.
pub open spec fn attempts(total: nat, delivered: nat) -> nat {
    if delivered < total {
        delivered + 1
    } else {
        delivered
    }
}

impl FetchJob {
    /// The credential this generation fetches with.
    pub closed spec fn key(&self) -> Seq<char> {
        self.api_key@
    }

    /// The cards that the queue has accepted from this job, in order.
    pub closed spec fn sent(&self) -> Seq<CardView> {
        self.sent@
    }

    /// How many cards this job has offered to its queue, accepted or not.
    pub closed spec fn offers(&self) -> nat {
        self.offers@
    }

    pub(crate) fn start(api_key: String, tx: Sender<NewsCardData>) -> (job: Self)
        ensures
            job.key() == api_key@,
            job.sent() == Seq::<CardView>::empty(),
            job.offers() == 0,
    {
        FetchJob { api_key, tx, sent: Ghost(Seq::empty()), offers: Ghost(0) }
    }

    pub fn api_key(&self) -> (key: &str)
        ensures
            key@ == self.key(),
    {
        self.api_key.as_str()
    }

    /// Offers the cards to the queue in order and stops at the first refusal:
    /// what the queue accepted is exactly the first `delivered` cards, and
    /// nothing is offered after a refusal.
    pub fn publish(&mut self, cards: &Vec<NewsCardData>) -> (delivered: usize)
        ensures
            delivered <= cards.len(),
            final(self).sent() == old(self).sent() + views(cards@).take(delivered as int),
            final(self).offers() == old(self).offers() + attempts(
                cards.len() as nat,
                delivered as nat,
            ),
            final(self).key() == old(self).key(),
    {
        let ghost before = self.sent@;
        let ghost offered = self.offers@;
        let mut delivered: usize = 0;
        let mut open = true;
        while open && delivered < cards.len()
            invariant
                delivered <= cards.len(),
                self.sent@ == before + views(cards@).take(delivered as int),
                self.offers@ == offered + delivered + (if open {
                    0nat
                } else {
                    1nat
                }),
                !open ==> delivered < cards.len(),
                self.api_key == old(self).api_key,
            decreases cards.len() - delivered + (if open { 1int } else { 0int }),
        {
            let card = cards[delivered].clone();
            let ghost shown = card@;
            self.offers = Ghost((self.offers@ + 1) as nat);
            if offer(&self.tx, card) {
                self.sent = Ghost(self.sent@.push(shown));
                proof {
                    assert(views(cards@).take(delivered + 1) =~= views(cards@).take(
                        delivered as int,
                    ).push(shown));
                    assert(before + views(cards@).take(delivered + 1) =~= (before + views(
                        cards@,
                    ).take(delivered as int)).push(shown));
                }
                delivered += 1;
            } else {
                open = false;
            }
        }
        delivered
    }

    /// Ends the generation with what the news service returned. A failure
    /// sends nothing; a success publishes every card in the service's order
    /// until the queue refuses one, so that what the queue accepted is a
    /// prefix of what the service returned.
    pub fn complete(
        &mut self,
        fetched: Result<Vec<FetchedArticle>, String>,
    ) -> (report: WorkerReport)
        ensures
            final(self).key() == old(self).key(),
            match fetched {
                Err(message) => {
                    &&& report == (WorkerReport::FetchFailed { message })
                    &&& final(self).sent() == old(self).sent()
                    &&& final(self).offers() == old(self).offers()
                },
                Ok(articles) => {
                    &&& report.accepted() <= articles.len()
                    &&& report == report_of(articles.len(), report.accepted() as usize)
                    &&& final(self).sent() == old(self).sent() + cards_of(articles@).take(
                        report.accepted() as int,
                    )
                    &&& final(self).offers() == old(self).offers() + attempts(
                        articles.len() as nat,
                        report.accepted(),
                    )
                },
            },
    {
        match fetched {
            Err(message) => WorkerReport::FetchFailed { message },
            Ok(articles) => {
                let cards = to_cards(&articles);
                assert(cards.len() == articles.len()) by {
                    assert(views(cards@).len() == cards_of(articles@).len());
                }
                let delivered = self.publish(&cards);
                settle(cards.len(), delivered)
            },
        }
    }
}

} // verus!
