use techpulse::aggregate::{aggregate, confirm, report_on, tally, Headline, Probe, TREND_WINDOW};
use techpulse::article::{Article, ArticleId, Source};
use techpulse::error::DomainError;
use techpulse::ingest::{next_step, IngestStep};
use techpulse::repo::{InMemoryArticleRepo, InMemoryTrendRepo};
use techpulse::trend::{Trend, TrendReport};
use techpulse::repository::{ArticleRepo, TrendRepo};
use techpulse::usecase::{calculate_trends, get_feed, ingest};
use techpulse::http::FeedQuery;

fn article(native_id: &str, title: &str, timestamp: i64) -> Article {
    Article::new(Source::HackerNews, native_id, title.into(), "".into(), timestamp).unwrap()
}

fn keywords(words: &[&str]) -> Vec<String> {
    words.iter().map(|w| w.to_string()).collect()
}

fn trend<'a>(report: &'a TrendReport, keyword: &str) -> &'a Trend {
    report.trends.iter().find(|t| t.keyword == keyword).unwrap()
}

fn related(trend: &Trend) -> Vec<String> {
    trend.related_articles.iter().map(|id| id.to_string()).collect()
}

#[test]
fn test_calculate_trends() {
    let mut article_repo = InMemoryArticleRepo::new();
    let mut trend_repo = InMemoryTrendRepo::new();

    // Case insensitive matching test: "rust" in implementation should match "Rust" in title
    let a1 = Article::new(Source::HackerNews, "1", "Rust is great".into(), "".into(), 100).unwrap();
    // "AI" should match "AI"
    let a2 = Article::new(Source::HackerNews, "2", "AI is future".into(), "".into(), 100).unwrap();
    // "rust" lowercase in title should match "Rust" keyword
    let a3 = Article::new(Source::HackerNews, "3", "learning rust 1.0".into(), "".into(), 100).unwrap();

    article_repo.save(&a1).unwrap();
    article_repo.save(&a2).unwrap();
    article_repo.save(&a3).unwrap();

    let keywords = vec!["Rust".to_string(), "AI".to_string()];
    let report = calculate_trends(&article_repo, &mut trend_repo, &keywords, 1234567890)
        .unwrap()
        .unwrap();

    // Verify timestamp passed through
    assert_eq!(trend_repo.find_latest_report().unwrap().unwrap().timestamp, 1234567890);

    assert_eq!(report.trends.len(), 2);

    let rust_trend = report.trends.iter().find(|t| t.keyword == "Rust").unwrap();
    assert_eq!(rust_trend.volume, 2);
    assert_eq!(rust_trend.related_articles.len(), 2);
}

#[test]
fn test_empty_articles() {
    let article_repo = InMemoryArticleRepo::new();
    let mut trend_repo = InMemoryTrendRepo::new();

    let keywords = vec!["Rust".to_string()];
    let report = calculate_trends(&article_repo, &mut trend_repo, &keywords, 100).unwrap().unwrap();

    assert!(report.trends.is_empty());
}

#[test]
fn test_repo_error_propagation() {
    let article_repo = Down;
    let mut trend_repo = InMemoryTrendRepo::new();

    let keywords = vec!["Rust".to_string()];
    let result = calculate_trends(&article_repo, &mut trend_repo, &keywords, 100);

    assert!(result.is_err());
    match result.unwrap_err() {
        DomainError::Repository(msg) => assert_eq!(msg, "DB Down"),
        _ => panic!("Wrong error type"),
    }
}

#[test]
fn test_get_feed() {
    let mut repo = InMemoryArticleRepo::new();
    let article = Article::new(Source::HackerNews, "1", "T1".into(), "".into(), 100).unwrap();
    repo.save(&article).unwrap();

    let result = repo.find_latest(10).unwrap();

    assert_eq!(result.len(), 1);
    assert_eq!(result[0].title, "T1");
}

#[test]
fn test_ingest_articles() {
    let mut repo = InMemoryArticleRepo::new();
    let articles = vec![
        Article::new(
            Source::HackerNews,
            "1",
            "Title 1".to_string(),
            "http://url1".to_string(),
            100,
        )
        .unwrap(),
        Article::new(
            Source::HackerNews,
            "2",
            "Title 2".to_string(),
            "http://url2".to_string(),
            200,
        )
        .unwrap(),
    ];

    let result = ingest(Ok(articles), &mut repo);

    assert!(result.is_ok());
    assert_eq!(result.unwrap(), 2);
    assert_eq!(repo.find_latest(10).unwrap().len(), 2);
}

#[test]
fn the_three_titles_give_two_trends() {
    let articles = vec![
        article("1", "Rust is great", 100),
        article("2", "AI is future", 100),
        article("3", "learning rust 1.0", 100),
    ];
    let report = aggregate(&articles, &keywords(&["Rust", "AI"]), 42).unwrap();
    assert_eq!(report.timestamp, 42);
    assert!(report.metadata.is_empty());
    assert_eq!(report.trends.len(), 2);

    let rust = trend(&report, "Rust");
    assert_eq!(rust.volume, 2);
    assert_eq!(rust.score, 20);
    assert_eq!(rust.velocity, 0);
    assert_eq!(related(rust), vec!["hn-1", "hn-3"]);

    let ai = trend(&report, "AI");
    assert_eq!(ai.volume, 1);
    assert_eq!(ai.score, 10);
    assert_eq!(related(ai), vec!["hn-2"]);
}

#[test]
fn no_articles_no_trends_and_the_report_is_saved() {
    let article_repo = InMemoryArticleRepo::new();
    let mut trend_repo = InMemoryTrendRepo::new();
    for words in [vec![], vec!["Rust"], vec!["", "AI", "AI"]] {
        let report = calculate_trends(&article_repo, &mut trend_repo, &keywords(&words), 7)
            .unwrap()
            .unwrap();
        assert!(report.trends.is_empty());
        assert_eq!(report.timestamp, 7);
    }
    let saved = trend_repo.find_latest_report().unwrap().unwrap();
    assert_eq!(saved.timestamp, 7);
    assert!(saved.trends.is_empty());
    assert!(aggregate(&Vec::new(), &keywords(&["Rust"]), 1).unwrap().trends.is_empty());
}

#[test]
fn keywords_without_a_match_are_left_out() {
    let articles = vec![article("1", "Rust is great", 100)];
    let report = aggregate(&articles, &keywords(&["Go", "Rust", "Zig"]), 1).unwrap();
    assert_eq!(report.trends.len(), 1);
    assert_eq!(report.trends[0].keyword, "Rust");
    let none = aggregate(&articles, &keywords(&["Go", "Zig"]), 1).unwrap();
    assert!(none.trends.is_empty());
    let no_keywords = aggregate(&articles, &keywords(&[]), 1).unwrap();
    assert!(no_keywords.trends.is_empty());
}

#[test]
fn a_keyword_matches_inside_longer_words_whatever_the_case() {
    let articles = vec![
        article("1", "You have maiL", 1),
        article("2", "TRAINING day", 2),
        article("3", "nothing here", 3),
        article("4", "ÉCOLE normale", 4),
    ];
    let report = aggregate(&articles, &keywords(&["AI", "école"]), 1).unwrap();
    assert_eq!(related(trend(&report, "AI")), vec!["hn-1", "hn-2"]);
    assert_eq!(related(trend(&report, "école")), vec!["hn-4"]);
}

#[test]
fn the_keyword_is_kept_as_it_was_given() {
    let articles = vec![article("1", "rust", 1)];
    let report = aggregate(&articles, &keywords(&["RuSt"]), 1).unwrap();
    assert_eq!(report.trends.len(), 1);
    assert_eq!(report.trends[0].keyword, "RuSt");
}

#[test]
fn keywords_that_differ_in_case_are_tallied_apart() {
    let articles = vec![article("1", "Rust", 1), article("2", "trust", 2)];
    let report = aggregate(&articles, &keywords(&["rust", "Rust"]), 1).unwrap();
    assert_eq!(report.trends.len(), 2);
    assert_eq!(related(trend(&report, "rust")), vec!["hn-1", "hn-2"]);
    assert_eq!(related(trend(&report, "Rust")), vec!["hn-1", "hn-2"]);
}

#[test]
fn a_keyword_given_twice_counts_twice() {
    let articles = vec![article("1", "Rust", 1), article("2", "Go", 2), article("3", "rusty", 3)];
    let report = aggregate(&articles, &keywords(&["Rust", "Go", "Rust"]), 1).unwrap();
    assert_eq!(report.trends.len(), 2);
    let rust = trend(&report, "Rust");
    assert_eq!(rust.volume, 4);
    assert_eq!(rust.score, 40);
    assert_eq!(related(rust), vec!["hn-1", "hn-1", "hn-3", "hn-3"]);
    assert_eq!(trend(&report, "Go").volume, 1);
}

#[test]
fn the_empty_keyword_matches_every_title() {
    let articles = vec![article("1", "", 1), article("2", "x", 2)];
    let report = aggregate(&articles, &keywords(&[""]), 1).unwrap();
    assert_eq!(report.trends.len(), 1);
    assert_eq!(report.trends[0].volume, 2);
}

#[test]
fn tally_works_on_what_it_is_given() {
    // The probe text is searched as it stands: no case is folded here.
    let headlines = vec![
        Headline { id: ArticleId::from_persisted("a".into()), title: "Rust rocks".chars().collect() },
        Headline { id: ArticleId::from_persisted("b".into()), title: "rust rocks".chars().collect() },
    ];
    let probes = vec![Probe { keyword: "K".into(), folded: "rust".chars().collect() }];
    let trends = tally(&headlines, &probes).unwrap();
    assert_eq!(trends.len(), 1);
    assert_eq!(trends[0].keyword, "K");
    assert_eq!(trends[0].volume, 1);
    assert_eq!(trends[0].score, 10);
    assert_eq!(trends[0].velocity, 0);
    assert_eq!(related(&trends[0]), vec!["b"]);
    assert!(tally(&Vec::new(), &probes).unwrap().is_empty());
    assert!(tally(&headlines, &Vec::new()).unwrap().is_empty());
}

#[test]
fn a_report_is_returned_only_if_it_was_saved() {
    let report = aggregate(&vec![article("1", "Rust", 1)], &keywords(&["Rust"]), 9).unwrap();
    match confirm(report.clone(), Ok(())) {
        Ok(returned) => {
            assert_eq!(returned.timestamp, 9);
            assert_eq!(returned.trends.len(), 1);
        }
        Err(e) => panic!("unexpected failure: {:?}", e),
    }
    match confirm(report, Err(DomainError::Repository("disk full".into()))) {
        Err(DomainError::Repository(message)) => assert_eq!(message, "disk full"),
        other => panic!("expected the failure of the store, got {:?}", other),
    }
}

#[test]
fn a_report_on_what_was_read() {
    let window = Ok(vec![article("1", "Cloud nine", 1), article("2", "cloudy", 2)]);
    let report = report_on(window, &keywords(&["Cloud"]), 5).unwrap().unwrap();
    assert_eq!(report.timestamp, 5);
    assert_eq!(report.trends.len(), 1);
    assert_eq!(report.trends[0].volume, 2);
    match report_on(Err(DomainError::NotFound("gone".into())), &keywords(&["Cloud"]), 5) {
        Err(DomainError::NotFound(message)) => assert_eq!(message, "gone"),
        other => panic!("expected the failure of the store, got {:?}", other),
    }
}

#[test]
fn trends_look_at_the_newest_hundred_only() {
    let mut article_repo = InMemoryArticleRepo::new();
    let mut trend_repo = InMemoryTrendRepo::new();
    assert_eq!(TREND_WINDOW, 100);
    // The 30 oldest articles mention Rust, the 100 newest do not.
    for i in 0..130 {
        let title = if i < 30 { "Rust" } else { "Go" };
        article_repo.save(&article(&i.to_string(), title, i)).unwrap();
    }
    let report =
        calculate_trends(&article_repo, &mut trend_repo, &keywords(&["Rust", "Go"]), 1).unwrap().unwrap();
    assert_eq!(report.trends.len(), 1);
    let go = trend(&report, "Go");
    assert_eq!(go.volume, 100);
    assert_eq!(go.score, 1000);
    // Newest first.
    assert_eq!(go.related_articles[0].to_string(), "hn-129");
    assert_eq!(go.related_articles[99].to_string(), "hn-30");
}

#[test]
fn every_report_is_kept() {
    let mut article_repo = InMemoryArticleRepo::new();
    let mut trend_repo = InMemoryTrendRepo::new();
    article_repo.save(&article("1", "Rust", 1)).unwrap();
    calculate_trends(&article_repo, &mut trend_repo, &keywords(&["Rust"]), 2000).unwrap().unwrap();
    calculate_trends(&article_repo, &mut trend_repo, &keywords(&["Go"]), 1000).unwrap().unwrap();
    let latest = trend_repo.find_latest_report().unwrap().unwrap();
    assert_eq!(latest.timestamp, 2000);
    assert_eq!(latest.trends.len(), 1);
}

#[test]
fn ingestion_saves_in_order_and_counts_what_was_fetched() {
    let mut repo = InMemoryArticleRepo::new();
    let fetched = vec![article("1", "first", 10), article("2", "other", 20), article("1", "second", 30)];
    assert_eq!(ingest(Ok(fetched), &mut repo).unwrap(), 3);
    // The later article of the same identifier replaced the earlier one.
    let latest = repo.find_latest(10).unwrap();
    assert_eq!(latest.len(), 2);
    assert_eq!(latest[0].title, "second");
    assert_eq!(latest[1].title, "other");
    assert_eq!(ingest(Ok(Vec::new()), &mut repo).unwrap(), 0);
    assert_eq!(repo.find_latest(10).unwrap().len(), 2);
}

#[test]
fn ingestion_steps_stop_at_the_first_failure() {
    assert!(matches!(next_step(3, 0, Ok(())), IngestStep::Save(0)));
    assert!(matches!(next_step(3, 2, Ok(())), IngestStep::Save(2)));
    assert!(matches!(next_step(3, 3, Ok(())), IngestStep::Done(Ok(3))));
    assert!(matches!(next_step(0, 0, Ok(())), IngestStep::Done(Ok(0))));
    match next_step(3, 1, Err(DomainError::Repository("down".into()))) {
        IngestStep::Done(Err(DomainError::Repository(message))) => assert_eq!(message, "down"),
        other => panic!("expected the failure, got {:?}", other),
    }
}

#[test]
fn the_feed_is_bounded() {
    let mut repo = InMemoryArticleRepo::new();
    for i in 0..120 {
        repo.save(&article(&i.to_string(), &format!("t{}", i), i)).unwrap();
    }
    assert_eq!(get_feed(&repo, &FeedQuery { limit: 5 }).unwrap().articles.len(), 5);
    assert_eq!(get_feed(&repo, &FeedQuery { limit: 0 }).unwrap().articles.len(), 1);
    assert_eq!(get_feed(&repo, &FeedQuery { limit: 1000 }).unwrap().articles.len(), 100);
    assert_eq!(get_feed(&repo, &FeedQuery::default()).unwrap().articles.len(), 20);
    let shown = get_feed(&repo, &FeedQuery { limit: 2 }).unwrap();
    assert_eq!(shown.articles[0].id, "hn-119");
    assert_eq!(shown.articles[0].title, "t119");
    assert_eq!(shown.articles[0].source, "hn");
    assert_eq!(shown.articles[0].timestamp, 119);
    assert_eq!(shown.articles[1].id, "hn-118");
}

#[test]
fn a_failed_fetch_saves_nothing() {
    let mut repo = InMemoryArticleRepo::new();
    repo.save(&article("1", "kept", 1)).unwrap();
    match ingest(Err(DomainError::Repository("HN API error".into())), &mut repo) {
        Err(DomainError::Repository(message)) => assert_eq!(message, "HN API error"),
        other => panic!("expected the failure of the fetch, got {:?}", other),
    }
    assert_eq!(repo.find_latest(10).unwrap().len(), 1);
}

/// A store of articles that is down: every request fails.
struct Down;

impl ArticleRepo for Down {
    fn stored(&self) -> vstd::map::Map<vstd::seq::Seq<char>, techpulse::article::ArticleView> {
        unreachable!()
    }

    fn always_answers(&self) -> bool {
        false
    }

    fn save(&mut self, _article: &Article) -> Result<(), DomainError> {
        Err(DomainError::Repository("DB Down".into()))
    }

    fn find_by_id(&self, _id: &ArticleId) -> Result<Option<Article>, DomainError> {
        Err(DomainError::Repository("DB Down".into()))
    }

    fn find_latest(&self, _limit: usize) -> Result<Vec<Article>, DomainError> {
        Err(DomainError::Repository("DB Down".into()))
    }
}

#[test]
fn a_store_that_is_down_fails_the_use_cases() {
    let mut reports = InMemoryTrendRepo::new();
    match calculate_trends(&Down, &mut reports, &keywords(&["Rust"]), 100) {
        Err(DomainError::Repository(msg)) => assert_eq!(msg, "DB Down"),
        other => panic!("expected the failure of the store, got {:?}", other),
    }
    // No report was saved.
    assert!(reports.find_latest_report().unwrap().is_none());

    match get_feed(&Down, &FeedQuery { limit: 3 }) {
        Err(DomainError::Repository(msg)) => assert_eq!(msg, "DB Down"),
        other => panic!("expected the failure of the store, got {:?}", other),
    }

    let fetched = vec![article("1", "a", 1), article("2", "b", 2)];
    match ingest(Ok(fetched), &mut Down) {
        Err(DomainError::Repository(msg)) => assert_eq!(msg, "DB Down"),
        other => panic!("expected the failure of the store, got {:?}", other),
    }
    assert_eq!(ingest(Ok(Vec::new()), &mut Down).unwrap(), 0);
}

/// A store of articles whose saves fail from the `fails_at`-th on.
struct FailsAt {
    inner: InMemoryArticleRepo,
    saves: usize,
    fails_at: usize,
}

impl ArticleRepo for FailsAt {
    fn stored(&self) -> vstd::map::Map<vstd::seq::Seq<char>, techpulse::article::ArticleView> {
        unreachable!()
    }

    fn always_answers(&self) -> bool {
        false
    }

    fn save(&mut self, article: &Article) -> Result<(), DomainError> {
        self.saves += 1;
        if self.saves >= self.fails_at {
            return Err(DomainError::Repository(format!("save {} failed", self.saves)));
        }
        self.inner.save(article)
    }

    fn find_by_id(&self, id: &ArticleId) -> Result<Option<Article>, DomainError> {
        self.inner.find_by_id(id)
    }

    fn find_latest(&self, limit: usize) -> Result<Vec<Article>, DomainError> {
        self.inner.find_latest(limit)
    }
}

/// A store of reports that is full: nothing can be saved.
struct Full;

impl TrendRepo for Full {
    fn saved(&self) -> vstd::seq::Seq<techpulse::trend::TrendReportView> {
        unreachable!()
    }

    fn always_answers(&self) -> bool {
        false
    }

    fn save_report(&mut self, _report: &TrendReport) -> Result<(), DomainError> {
        Err(DomainError::Repository("disk full".into()))
    }

    fn find_latest_report(&self) -> Result<Option<TrendReport>, DomainError> {
        Ok(None)
    }
}

#[test]
fn a_failed_save_ends_ingestion_and_keeps_what_was_saved() {
    let mut repo = FailsAt { inner: InMemoryArticleRepo::new(), saves: 0, fails_at: 3 };
    let fetched =
        vec![article("1", "a", 1), article("2", "b", 2), article("3", "c", 3), article("4", "d", 4)];
    match ingest(Ok(fetched), &mut repo) {
        Err(DomainError::Repository(msg)) => assert_eq!(msg, "save 3 failed"),
        other => panic!("expected the failure of the store, got {:?}", other),
    }
    // The third save failed and the fourth was not tried; the first two stay.
    assert_eq!(repo.saves, 3);
    let kept: Vec<String> =
        repo.inner.find_latest(10).unwrap().iter().map(|a| a.title.clone()).collect();
    assert_eq!(kept, vec!["b", "a"]);
}

#[test]
fn a_report_that_cannot_be_saved_is_not_returned() {
    let mut articles = InMemoryArticleRepo::new();
    articles.save(&article("1", "Rust", 1)).unwrap();
    match calculate_trends(&articles, &mut Full, &keywords(&["Rust"]), 100) {
        Err(DomainError::Repository(msg)) => assert_eq!(msg, "disk full"),
        other => panic!("expected the failure of the store, got {:?}", other),
    }
}
