use headlines::theme::{link_colour, title_colour, Rgb};
use headlines::worker::{settle, to_cards};
use headlines::{
    AppState, FetchedArticle, Headlines, HeadlinesConfig, NewsCardData, Screen, WorkerReport,
};

fn article(title: &str, desc: Option<&str>, url: &str) -> FetchedArticle {
    FetchedArticle {
        title: title.to_string(),
        desc: desc.map(|d| d.to_string()),
        url: url.to_string(),
    }
}

fn abc() -> Vec<FetchedArticle> {
    vec![
        article("A", Some("first"), "https://a.example"),
        article("B", None, "https://b.example"),
        article("C", Some("third"), "https://c.example"),
    ]
}

fn titles(app: &Headlines) -> Vec<String> {
    app.articles().iter().map(|c| c.title().to_string()).collect()
}

fn configured(key: &str) -> (Headlines, headlines::FetchJob) {
    let (app, job) = Headlines::new(HeadlinesConfig::new(false, key.to_string()));
    (app, job.expect("a credential starts the first generation"))
}

#[test]
fn default_config_is_light_and_keyless() {
    let config = HeadlinesConfig::default();
    assert!(!config.dark_mode);
    assert_eq!(config.api_key, "");
    assert!(!config.has_key());
}

#[test]
fn empty_config_starts_unconfigured() {
    let (app, job) = Headlines::new(HeadlinesConfig::default());
    assert!(job.is_none());
    assert_eq!(app.state(), AppState::Unconfigured);
    assert!(!app.api_key_init);
    assert!(app.news_rx.is_none());
    assert!(app.articles().is_empty());
}

#[test]
fn persisted_key_starts_fetching() {
    let (app, job) = configured("k1");
    assert_eq!(app.state(), AppState::Fetching);
    assert!(app.api_key_init);
    assert!(app.news_rx.is_some());
    assert!(app.articles().is_empty());
    assert_eq!(job.api_key(), "k1");
}

#[test]
fn submitting_a_key_starts_one_worker() {
    let (mut app, job) = Headlines::new(HeadlinesConfig::default());
    assert!(job.is_none());
    assert_eq!(app.state(), AppState::Unconfigured);
    let accepted = app.submit_key("abc123".to_string()).expect("one worker is started");
    assert_eq!(accepted.job.api_key(), "abc123");
    assert_eq!(accepted.to_save.api_key, "abc123");
    assert!(!accepted.to_save.dark_mode);
    assert_eq!(app.config.api_key, "abc123");
    assert_eq!(app.state(), AppState::Fetching);
    assert!(app.articles().is_empty());
    assert!(app.news_rx.is_some());
}

#[test]
fn submitting_an_empty_key_changes_nothing() {
    let (mut app, _) = Headlines::new(HeadlinesConfig::new(true, String::new()));
    assert!(app.submit_key(String::new()).is_none());
    assert_eq!(app.state(), AppState::Unconfigured);
    assert!(app.news_rx.is_none());
    assert!(app.config.dark_mode);
    assert_eq!(app.config.api_key, "");
}

#[test]
fn three_records_arrive_in_order_over_three_drains() {
    let (mut app, mut job) = configured("k");
    let report = job.complete(Ok(abc()));
    assert!(matches!(report, WorkerReport::Delivered { count: 3 }));
    assert!(app.articles().is_empty());
    app.pre_load_articles();
    assert_eq!(titles(&app), vec!["A"]);
    app.pre_load_articles();
    assert_eq!(titles(&app), vec!["A", "B"]);
    app.pre_load_articles();
    assert_eq!(titles(&app), vec!["A", "B", "C"]);
    let cards = app.articles();
    assert_eq!(cards[0].desc(), "first");
    assert_eq!(cards[1].desc(), "...");
    assert_eq!(cards[2].url(), "https://c.example");
    assert_eq!(app.state(), AppState::Fetching);
}

#[test]
fn draining_past_the_last_record_is_a_no_op() {
    let (mut app, mut job) = configured("k");
    job.complete(Ok(abc()));
    for _ in 0..10 {
        app.pre_load_articles();
    }
    assert_eq!(titles(&app), vec!["A", "B", "C"]);
    assert_eq!(app.state(), AppState::Fetching);
    assert!(app.news_rx.is_some());
}

#[test]
fn draining_an_empty_queue_changes_nothing() {
    let (mut app, job) = configured("k");
    app.pre_load_articles();
    app.pre_load_articles();
    assert!(app.articles().is_empty());
    assert_eq!(app.state(), AppState::Fetching);
    assert_eq!(job.api_key(), "k");
}

#[test]
fn draining_while_unconfigured_changes_nothing() {
    let (mut app, _) = Headlines::new(HeadlinesConfig::default());
    app.pre_load_articles();
    assert!(app.articles().is_empty());
    assert_eq!(app.state(), AppState::Unconfigured);
}

#[test]
fn a_failed_fetch_leaves_the_feed_empty() {
    let (mut app, mut job) = configured("k");
    let report = job.complete(Err("rate limited".to_string()));
    match report {
        WorkerReport::FetchFailed { message } => assert_eq!(message, "rate limited"),
        other => panic!("unexpected report {:?}", other),
    }
    for _ in 0..5 {
        app.pre_load_articles();
        assert!(app.articles().is_empty());
    }
    assert_eq!(app.state(), AppState::Fetching);
}

#[test]
fn refresh_retires_the_generation_in_flight() {
    let (mut app, mut first) = configured("k");
    let cards = to_cards(&abc());
    assert_eq!(first.publish(&cards[..1].to_vec()), 1);
    app.pre_load_articles();
    assert_eq!(titles(&app), vec!["A"]);

    let mut second = app.refresh().expect("a second generation starts");
    assert!(app.articles().is_empty());
    assert_eq!(second.api_key(), "k");

    assert_eq!(first.publish(&cards[1..].to_vec()), 0);
    app.pre_load_articles();
    assert!(app.articles().is_empty());

    let report = second.complete(Ok(vec![article("D", None, "https://d.example")]));
    assert!(matches!(report, WorkerReport::Delivered { count: 1 }));
    app.pre_load_articles();
    assert_eq!(titles(&app), vec!["D"]);
}

#[test]
fn a_retired_worker_reports_what_it_dropped() {
    let (mut app, mut first) = configured("k");
    let _second = app.refresh().expect("a second generation starts");
    let report = first.complete(Ok(abc()));
    match report {
        WorkerReport::ChannelRetired { delivered, dropped } => {
            assert_eq!(delivered, 0);
            assert_eq!(dropped, 3);
        }
        other => panic!("unexpected report {:?}", other),
    }
    app.pre_load_articles();
    assert!(app.articles().is_empty());
}

#[test]
fn refresh_drops_cards_still_queued() {
    let (mut app, mut job) = configured("k");
    job.complete(Ok(abc()));
    app.pre_load_articles();
    assert_eq!(titles(&app), vec!["A"]);
    let _next = app.refresh().expect("a new generation starts");
    for _ in 0..4 {
        app.pre_load_articles();
    }
    assert!(app.articles().is_empty());
}

#[test]
fn refresh_while_unconfigured_does_nothing() {
    let (mut app, _) = Headlines::new(HeadlinesConfig::default());
    assert!(app.refresh().is_none());
    assert!(app.fetch_news().is_none());
    assert_eq!(app.state(), AppState::Unconfigured);
    assert!(app.news_rx.is_none());
}

#[test]
fn an_empty_result_is_delivered_in_full() {
    let (mut app, mut job) = configured("k");
    let report = job.complete(Ok(Vec::new()));
    assert!(matches!(report, WorkerReport::Delivered { count: 0 }));
    app.pre_load_articles();
    assert!(app.articles().is_empty());
}

#[test]
fn toggling_the_theme_touches_nothing_else() {
    let (mut app, mut job) = configured("k");
    job.complete(Ok(abc()));
    app.pre_load_articles();
    app.toggle_theme();
    assert!(app.config.dark_mode);
    assert_eq!(app.config.api_key, "k");
    assert_eq!(titles(&app), vec!["A"]);
    assert_eq!(app.state(), AppState::Fetching);
    app.pre_load_articles();
    assert_eq!(titles(&app), vec!["A", "B"]);
    app.toggle_theme();
    assert!(!app.config.dark_mode);
    assert_eq!(titles(&app), vec!["A", "B"]);
}

#[test]
fn toggling_commutes_with_a_drain() {
    let (mut one, mut job_one) = configured("k");
    let (mut two, mut job_two) = configured("k");
    job_one.complete(Ok(abc()));
    job_two.complete(Ok(abc()));
    one.toggle_theme();
    one.pre_load_articles();
    two.pre_load_articles();
    two.toggle_theme();
    assert_eq!(one.config.dark_mode, two.config.dark_mode);
    assert_eq!(titles(&one), titles(&two));
    assert_eq!(one.state(), two.state());
}

#[test]
fn config_toggle_flips_only_the_theme() {
    let mut config = HeadlinesConfig::new(false, "k".to_string());
    config.toggle_theme();
    assert!(config.dark_mode);
    assert_eq!(config.api_key, "k");
    let copy = config.clone();
    assert!(copy.dark_mode);
    assert_eq!(copy.api_key, "k");
}

#[test]
fn absorb_appends_only_with_a_queue() {
    let card = NewsCardData::new("T".to_string(), None, "u".to_string());
    let (mut idle, _) = Headlines::new(HeadlinesConfig::default());
    idle.absorb(Some(card.clone()));
    assert!(idle.articles().is_empty());

    let (mut app, _job) = configured("k");
    app.absorb(None);
    assert!(app.articles().is_empty());
    app.absorb(Some(card.clone()));
    assert_eq!(app.articles().len(), 1);
    assert!(app.articles()[0].same_as(&card));
}

#[test]
fn a_missing_description_becomes_the_placeholder() {
    let bare = NewsCardData::new("T".to_string(), None, "u".to_string());
    assert_eq!(bare.title(), "T");
    assert_eq!(bare.desc(), "...");
    assert_eq!(bare.url(), "u");
    let full = NewsCardData::new("T".to_string(), Some("d".to_string()), "u".to_string());
    assert_eq!(full.desc(), "d");
    assert!(!full.same_as(&bare));
    assert!(full.same_as(&full.clone()));
    let empty = NewsCardData::new("T".to_string(), Some(String::new()), "u".to_string());
    assert_eq!(empty.desc(), "");
}

#[test]
fn articles_become_cards_in_order() {
    let cards = to_cards(&abc());
    assert_eq!(cards.len(), 3);
    assert_eq!(cards[0].title(), "A");
    assert_eq!(cards[1].title(), "B");
    assert_eq!(cards[1].desc(), "...");
    assert_eq!(cards[2].title(), "C");
    assert!(abc()[1].to_card().same_as(&cards[1]));
    assert!(to_cards(&Vec::new()).is_empty());
}

#[test]
fn settle_tells_delivery_from_retirement() {
    assert!(matches!(settle(3, 3), WorkerReport::Delivered { count: 3 }));
    assert!(matches!(settle(0, 0), WorkerReport::Delivered { count: 0 }));
    assert!(matches!(
        settle(3, 1),
        WorkerReport::ChannelRetired { delivered: 1, dropped: 2 }
    ));
    assert!(matches!(
        settle(2, 0),
        WorkerReport::ChannelRetired { delivered: 0, dropped: 2 }
    ));
}

#[test]
fn publishing_in_two_batches_keeps_the_order() {
    let (mut app, mut job) = configured("k");
    let cards = to_cards(&abc());
    assert_eq!(job.publish(&cards[..2].to_vec()), 2);
    assert_eq!(job.publish(&cards[2..].to_vec()), 1);
    for _ in 0..3 {
        app.pre_load_articles();
    }
    assert_eq!(titles(&app), vec!["A", "B", "C"]);
}

#[test]
fn colours_follow_the_theme() {
    assert_eq!(title_colour(true), Rgb { red: 255, green: 255, blue: 255 });
    assert_eq!(title_colour(false), Rgb { red: 3, green: 3, blue: 3 });
    assert_eq!(link_colour(true), Rgb { red: 0, green: 255, blue: 255 });
    assert_eq!(link_colour(false), Rgb { red: 255, green: 0, blue: 0 });
}

#[test]
fn dark_mode_getter_follows_the_toggle() {
    let (mut app, _) = Headlines::new(HeadlinesConfig::default());
    assert!(!app.dark_mode());
    app.toggle_theme();
    assert!(app.dark_mode());
    assert_eq!(app.state(), AppState::Unconfigured);
}

#[test]
fn a_submitted_key_keeps_the_theme_in_what_is_saved() {
    let (mut app, _) = Headlines::new(HeadlinesConfig::new(true, String::new()));
    let accepted = app.submit_key("k9".to_string()).expect("the key is accepted");
    assert!(accepted.to_save.dark_mode);
    assert_eq!(accepted.to_save.api_key, "k9");
    assert!(app.config.dark_mode);
}

#[test]
fn a_new_key_replaces_the_feed_and_the_generation() {
    let (mut app, mut old_job) = configured("k1");
    old_job.complete(Ok(abc()));
    app.pre_load_articles();
    assert_eq!(titles(&app), vec!["A"]);
    let mut accepted = app.submit_key("k2".to_string()).expect("the key is accepted");
    assert!(app.articles().is_empty());
    assert_eq!(app.config.api_key, "k2");
    accepted.job.complete(Ok(vec![article("D", None, "https://d.example")]));
    app.pre_load_articles();
    app.pre_load_articles();
    assert_eq!(titles(&app), vec!["D"]);
}

#[test]
fn a_frame_polls_only_once_configured() {
    let (mut idle, _) = Headlines::new(HeadlinesConfig::default());
    assert_eq!(idle.update(), Screen::Configuration);
    assert!(idle.articles().is_empty());

    let (mut app, mut job) = configured("k");
    job.complete(Ok(abc()));
    assert_eq!(app.update(), Screen::Feed);
    assert_eq!(titles(&app), vec!["A"]);
    assert_eq!(app.update(), Screen::Feed);
    assert_eq!(titles(&app), vec!["A", "B"]);
}
