//! One headline card and its mathematical view.

use vstd::prelude::*;

verus! {

/// What a headline card shows, as plain text.
pub struct CardView {
    pub title: Seq<char>,
    pub desc: Seq<char>,
    pub url: Seq<char>,
}

/// The text shown when the service gave no description.
pub open spec fn placeholder() -> Seq<char> {
    "..."@
}

/// The description a card shows for what the service supplied.
pub open spec fn shown_desc(desc: Option<Seq<char>>) -> Seq<char> {
    match desc {
        Some(d) => d,
        None => placeholder(),
    }
}

/// An optional text as an optional sequence of characters.
pub open spec fn text_of(text: Option<String>) -> Option<Seq<char>> {
    match text {
        Some(t) => Some(t@),
        None => None,
    }
}

/// One headline: fixed once it is built.
#[derive(Debug)]
pub struct NewsCardData {
    title: String,
    desc: String,
    url: String,
}

impl View for NewsCardData {
    type V = CardView;

    closed spec fn view(&self) -> CardView {
        CardView { title: self.title@, desc: self.desc@, url: self.url@ }
    }
}

/// The views of a run of cards, in the same order.
pub open spec fn views(cards: Seq<NewsCardData>) -> Seq<CardView> {
    Seq::new(cards.len(), |i: int| cards[i]@)
}

impl Clone for NewsCardData {
    fn clone(&self) -> (copy: Self)
        ensures
            copy@ == self@,
    {
        NewsCardData {
            title: self.title.clone(),
            desc: self.desc.clone(),
            url: self.url.clone(),
        }
    }
}

impl NewsCardData {
    /// Builds a card; a missing description becomes the placeholder.
    pub fn new(title: String, desc: Option<String>, url: String) -> (card: Self)
        ensures
            card@ == (CardView {
                title: title@,
                desc: shown_desc(text_of(desc)),
                url: url@,
            }),
    {
        let desc = match desc {
            Some(d) => d,
            None => "...".to_owned(),
        };
        NewsCardData { title, desc, url }
    }

    pub fn title(&self) -> (text: &str)
        ensures
            text@ == self@.title,
    {
        self.title.as_str()
    }

    pub fn desc(&self) -> (text: &str)
        ensures
            text@ == self@.desc,
    {
        self.desc.as_str()
    }

    pub fn url(&self) -> (text: &str)
        ensures
            text@ == self@.url,
    {
        self.url.as_str()
    }

    /// Whether two cards show the same three texts.
    pub fn same_as(&self, other: &NewsCardData) -> (same: bool)
        ensures
            same == (self@ == other@),
    {
        self.title == other.title && self.desc == other.desc && self.url == other.url
    }
}

} // verus!
