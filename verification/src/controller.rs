//! The controller: owns the configuration, the feed of cards on display and
//! the receiving end of the live fetch generation's queue.

use crate::channel::{open_queue, poll};
use crate::config::{ConfigView, HeadlinesConfig};
use crate::record::{views, CardView, NewsCardData};
use crate::worker::FetchJob;
use std::sync::mpsc::Receiver;
use vstd::prelude::*;

verus! {

/// Where the controller stands.
#[derive(Clone, Copy, Debug, PartialEq, Eq, Structural)]
pub enum AppState {
    /// No credential yet: no feed, no queue.
    Unconfigured,
    /// A generation's queue is installed and may still yield cards.
    Fetching,
    /// A generation known to be complete. The worker gives no such signal, so
    /// no transition enters this state: a run stays in `Fetching`.
    Ready,
}

/// What a frame shows.
#[derive(Clone, Copy, Debug, PartialEq, Eq, Structural)]
pub enum Screen {
    /// The prompt for a credential.
    Configuration,
    /// The feed of cards.
    Feed,
}

/// The controller as plain values.
pub struct AppView {
    /// The cards on display, oldest first.
    pub feed: Seq<CardView>,
    pub config: ConfigView,
    /// Whether a credential has been accepted.
    pub configured: bool,
    /// Whether a queue is installed.
    pub listening: bool,
}

impl AppView {
    pub open spec fn state(self) -> AppState {
        if self.configured {
            AppState::Fetching
        } else {
            AppState::Unconfigured
        }
    }

    pub open spec fn screen(self) -> Screen {
        if self.configured {
            Screen::Feed
        } else {
            Screen::Configuration
        }
    }

    /// What every reachable controller satisfies: configured means a queue and
    /// a credential; unconfigured means neither a queue nor any card.
    pub open spec fn wf(self) -> bool {
        if self.configured {
            self.listening && self.config.has_key()
        } else {
            !self.listening && self.feed.len() == 0
        }
    }

    /// The controller at startup, before any frame.
    pub open spec fn initial(config: ConfigView) -> AppView {
        AppView {
            feed: Seq::empty(),
            config,
            configured: config.has_key(),
            listening: config.has_key(),
        }
    }

    /// After the theme toggle.
    pub open spec fn toggled(self) -> AppView {
        AppView { config: self.config.toggled(), ..self }
    }

    /// After one poll that found `pending`. A card found while no queue is
    /// installed is discarded.
    pub open spec fn polled(self, pending: Option<CardView>) -> AppView {
        match pending {
            Some(card) => if self.listening {
                AppView { feed: self.feed.push(card), ..self }
            } else {
                self
            },
            None => self,
        }
    }

    /// After a fetch is (re)triggered: with a credential the feed is emptied
    /// and a fresh queue installed; without one nothing happens.
    pub open spec fn restarted(self) -> AppView {
        if self.config.has_key() {
            AppView { feed: Seq::empty(), config: self.config, configured: true, listening: true }
        } else {
            self
        }
    }

    /// After the refresh action, which is offered only once configured.
    pub open spec fn refreshed(self) -> AppView {
        if self.configured {
            self.restarted()
        } else {
            self
        }
    }

    /// After the user submits `key`; an empty one is ignored.
    pub open spec fn keyed(self, key: Seq<char>) -> AppView {
        if key.len() > 0 {
            AppView {
                config: ConfigView { dark_mode: self.config.dark_mode, api_key: key },
                ..self
            }.restarted()
        } else {
            self
        }
    }

    /// After one poll per entry of `outcomes`, first entry first.
    pub open spec fn drained(self, outcomes: Seq<Option<CardView>>) -> AppView
        decreases outcomes.len(),
    {
        if outcomes.len() == 0 {
            self
        } else {
            self.drained(outcomes.drop_last()).polled(outcomes.last())
        }
    }
}

/// The cards among `outcomes`, in order: what the polls found.
pub open spec fn arrivals(outcomes: Seq<Option<CardView>>) -> Seq<CardView>
    decreases outcomes.len(),
{
    if outcomes.len() == 0 {
        Seq::empty()
    } else {
        match outcomes.last() {
            Some(card) => arrivals(outcomes.drop_last()).push(card),
            None => arrivals(outcomes.drop_last()),
        }
    }
}

/// What a poll found, as a view.
pub open spec fn found(pending: Option<NewsCardData>) -> Option<CardView> {
    match pending {
        Some(card) => Some(card@),
        None => None,
    }
}

/// The card by which `after` is longer than `before`, if it is.
pub open spec fn last_arrival(before: AppView, after: AppView) -> Option<CardView> {
    if after.feed.len() > before.feed.len() {
        Some(after.feed.last())
    } else {
        None
    }
}

/// What a (re)start hands out: a job with nothing sent yet and the credential
/// to fetch by, exactly when a generation `begins`.
pub open spec fn hands_out(job: Option<FetchJob>, begins: bool, key: Seq<char>) -> bool {
    match job {
        Some(j) => {
            &&& begins
            &&& j.key() == key
            &&& j.sent() == Seq::<CardView>::empty()
            &&& j.offers() == 0
        },
        None => !begins,
    }
}

/// What an accepted credential asks of the caller: save `to_save`, then run
/// `job`. A failed save is logged and does not hold the job back.
pub struct KeyAccepted {
    pub to_save: HeadlinesConfig,
    pub job: FetchJob,
}

/// What a key submission hands out: nothing for an empty key; for another,
/// the configuration that now holds it and the first generation's job.
pub open spec fn answers(accepted: Option<KeyAccepted>, key: Seq<char>, dark_mode: bool) -> bool {
    match accepted {
        Some(a) => {
            &&& key.len() > 0
            &&& a.to_save@ == (ConfigView { dark_mode, api_key: key })
            &&& hands_out(Some(a.job), true, key)
        },
        None => key.len() == 0,
    }
}

/// The controller. `articles` is the feed on display; `news_rx` is the
/// receiving end of the live generation's queue, replaced (and so retired)
/// whenever a fetch is triggered again.
pub struct Headlines {
    articles: Vec<NewsCardData>,
    pub config: HeadlinesConfig,
    pub api_key_init: bool,
    pub news_rx: Option<Receiver<NewsCardData>>,
}

impl View for Headlines {
    type V = AppView;

    closed spec fn view(&self) -> AppView {
        AppView {
            feed: views(self.articles@),
            config: self.config@,
            configured: self.api_key_init,
            listening: self.news_rx is Some,
        }
    }
}

impl Headlines {
    /// The receiving end of the live generation's queue, if one is installed.
    pub closed spec fn queue(&self) -> Option<Receiver<NewsCardData>> {
        self.news_rx
    }

    /// Starts from a loaded (or default) configuration. With a credential the
    /// first generation begins at once and its job is handed out.
    pub fn new(config: HeadlinesConfig) -> (started: (Self, Option<FetchJob>))
        ensures
            started.0@ == AppView::initial(config@),
            started.0@.wf(),
            hands_out(started.1, config@.has_key(), config@.api_key),
    {
        let mut app = Headlines {
            articles: Vec::new(),
            config,
            api_key_init: false,
            news_rx: None,
        };
        assert(views(app.articles@) =~= Seq::<CardView>::empty());
        let job = app.fetch_news();
        (app, job)
    }

    /// (Re)triggers a fetch. With a credential: empties the feed, retires the
    /// old queue by installing a fresh one, and hands out the new generation's
    /// job. Without one: does nothing.
    pub fn fetch_news(&mut self) -> (job: Option<FetchJob>)
        ensures
            final(self)@ == old(self)@.restarted(),
            hands_out(job, old(self)@.config.has_key(), old(self)@.config.api_key),
            !old(self)@.config.has_key() ==> final(self).queue() == old(self).queue(),
    {
        if !self.config.has_key() {
            return None;
        }
        let (tx, rx) = open_queue();
        self.articles.clear();
        self.news_rx = Some(rx);
        self.api_key_init = true;
        assert(views(self.articles@) =~= Seq::<CardView>::empty());
        Some(FetchJob::start(self.config.api_key.clone(), tx))
    }

    /// The refresh action: a new generation, if the controller is configured.
    pub fn refresh(&mut self) -> (job: Option<FetchJob>)
        ensures
            final(self)@ == old(self)@.refreshed(),
            hands_out(
                job,
                old(self)@.configured && old(self)@.config.has_key(),
                old(self)@.config.api_key,
            ),
    {
        if self.api_key_init {
            self.fetch_news()
        } else {
            None
        }
    }

    /// The user submits a credential. A non-empty one is stored in the
    /// configuration and the first generation begins; an empty one changes
    /// nothing.
    pub fn submit_key(&mut self, key: String) -> (accepted: Option<KeyAccepted>)
        ensures
            final(self)@ == old(self)@.keyed(key@),
            answers(accepted, key@, old(self)@.config.dark_mode),
            key@.len() == 0 ==> final(self).queue() == old(self).queue(),
    {
        if key.as_str().is_empty() {
            return None;
        }
        self.config.api_key = key;
        let to_save = self.config.clone();
        match self.fetch_news() {
            Some(job) => Some(KeyAccepted { to_save, job }),
            None => None,
        }
    }

    /// The theme toggle: only the theme changes.
    pub fn toggle_theme(&mut self)
        ensures
            final(self)@ == old(self)@.toggled(),
            final(self).queue() == old(self).queue(),
    {
        self.config.toggle_theme();
    }

    /// Takes in what one poll of the queue found: a card is appended to the
    /// feed if a queue is installed and discarded otherwise.
    pub fn absorb(&mut self, pending: Option<NewsCardData>)
        ensures
            final(self)@ == old(self)@.polled(found(pending)),
            final(self).queue() == old(self).queue(),
    {
        if self.news_rx.is_some() {
            if let Some(card) = pending {
                self.articles.push(card);
                assert(views(self.articles@) =~= views(old(self).articles@).push(card@));
            }
        }
    }

    /// The per-frame hook: one poll of the queue that never waits. Either
    /// nothing changes, or exactly one card is appended to the feed.
    pub fn pre_load_articles(&mut self)
        ensures
            final(self)@ == old(self)@.polled(last_arrival(old(self)@, final(self)@)),
            final(self).queue() == old(self).queue(),
    {
        let pending = match &self.news_rx {
            Some(rx) => poll(rx),
            None => None,
        };
        self.absorb(pending);
    }

    /// One frame: while unconfigured nothing is polled and the prompt is
    /// shown; afterwards the queue is polled once and the feed is shown.
    pub fn update(&mut self) -> (screen: Screen)
        ensures
            screen == old(self)@.screen(),
            final(self)@ == if old(self)@.configured {
                old(self)@.polled(last_arrival(old(self)@, final(self)@))
            } else {
                old(self)@
            },
            final(self).queue() == old(self).queue(),
    {
        if self.api_key_init {
            self.pre_load_articles();
            Screen::Feed
        } else {
            Screen::Configuration
        }
    }

    /// The cards on display, for the render layer.
    pub fn articles(&self) -> (cards: &Vec<NewsCardData>)
        ensures
            views(cards@) == self@.feed,
    {
        &self.articles
    }

    /// Whether the dark theme is chosen, for the render layer.
    pub fn dark_mode(&self) -> (dark: bool)
        ensures
            dark == self@.config.dark_mode,
    {
        self.config.dark_mode
    }

    pub fn state(&self) -> (state: AppState)
        ensures
            state == self@.state(),
    {
        if self.api_key_init {
            AppState::Fetching
        } else {
            AppState::Unconfigured
        }
    }
}

} // verus!
