use techpulse::article::{Article, ArticleId, Source};
use techpulse::error::DomainError;
use techpulse::persist::{
    article_from_columns, article_to_row, assemble_article, report_from_columns, report_to_row,
    row_of_article, ArticleColumns, ColumnFault, ReportColumns, ReportRow,
};
use techpulse::trend::Trend;
use std::collections::HashSet;

fn columns() -> ArticleColumns {
    ArticleColumns {
        id: Ok("hn-1".into()),
        title: Ok("Test Title".into()),
        url: Some("http://example.com".into()),
        source: Ok("hn".into()),
        score_bits: Some(12.5f64.to_bits()),
        author: Some("alice".into()),
        timestamp: Ok(100),
        tags: Some("[\"rust\",\"ai\"]".into()),
        comment_count: Some(7),
        is_hot_on_source: Some(true),
    }
}

fn repository_message(result: Result<Article, DomainError>) -> String {
    match result {
        Err(DomainError::Repository(message)) => message,
        other => panic!("expected a repository error, got {:?}", other),
    }
}

#[test]
fn a_full_row_is_read() {
    let article = article_from_columns(columns()).unwrap();
    assert_eq!(article.id.to_string(), "hn-1");
    assert_eq!(article.title, "Test Title");
    assert_eq!(article.url, "http://example.com");
    assert_eq!(article.source, Source::HackerNews);
    assert_eq!(f64::from_bits(article.score_bits), 12.5);
    assert_eq!(article.author, "alice");
    assert_eq!(article.timestamp, 100);
    let expected: HashSet<String> = ["rust".to_string(), "ai".to_string()].into_iter().collect();
    assert_eq!(article.tags, expected);
    assert_eq!(article.comment_count, 7);
    assert!(article.is_hot_on_source);
}

#[test]
fn absent_columns_fall_back_on_defaults() {
    let mut c = columns();
    c.url = None;
    c.score_bits = None;
    c.author = None;
    c.tags = None;
    c.comment_count = None;
    c.is_hot_on_source = None;
    let article = article_from_columns(c).unwrap();
    assert_eq!(article.url, "");
    assert_eq!(article.score_bits, 0);
    assert_eq!(article.author, "");
    assert!(article.tags.is_empty());
    assert_eq!(article.comment_count, 0);
    assert!(!article.is_hot_on_source);
}

#[test]
fn tags_that_are_not_json_read_as_none() {
    for text in ["", "not json", "{\"a\":1}", "[1,2]", "[\"open\""] {
        let mut c = columns();
        c.tags = Some(text.into());
        assert!(article_from_columns(c).unwrap().tags.is_empty());
    }
    let mut c = columns();
    c.tags = Some("[]".into());
    assert!(article_from_columns(c).unwrap().tags.is_empty());
    let mut c = columns();
    c.tags = Some("[\"a\",\"a\",\"b\"]".into());
    assert_eq!(article_from_columns(c).unwrap().tags.len(), 2);
}

#[test]
fn the_first_column_that_is_missing_decides() {
    let mut c = columns();
    c.source = Err("no such column".into());
    c.id = Err("x".into());
    c.title = Err("y".into());
    c.timestamp = Err("z".into());
    assert_eq!(repository_message(article_from_columns(c)), "Missing source: no such column");

    let mut c = columns();
    c.id = Err("x".into());
    c.title = Err("y".into());
    c.timestamp = Err("z".into());
    assert_eq!(repository_message(article_from_columns(c)), "Missing id: x");

    let mut c = columns();
    c.title = Err("y".into());
    c.timestamp = Err("z".into());
    assert_eq!(repository_message(article_from_columns(c)), "Missing title: y");

    let mut c = columns();
    c.timestamp = Err("z".into());
    assert_eq!(repository_message(article_from_columns(c)), "Missing timestamp: z");
}

#[test]
fn stored_sources_are_read_back() {
    let cases = vec![
        ("hn", Source::HackerNews),
        ("gh", Source::GitHub),
        ("ph", Source::ProductHunt),
        ("arxiv", Source::ArXiv),
        ("rd-rust", Source::Reddit("rust".into())),
        ("myblog", Source::Custom("myblog".into())),
    ];
    for (code, source) in cases {
        let mut c = columns();
        c.source = Ok(code.into());
        assert_eq!(article_from_columns(c).unwrap().source, source);
    }
}

#[test]
fn a_comment_count_keeps_its_low_32_bits() {
    let cases = [
        (0i64, 0u32),
        (7, 7),
        (4294967295, u32::MAX),
        (4294967296, 0),
        (4294967303, 7),
        (-1, u32::MAX),
    ];
    for (stored, read) in cases {
        let mut c = columns();
        c.comment_count = Some(stored);
        assert_eq!(article_from_columns(c).unwrap().comment_count, read);
    }
}

#[test]
fn the_identifier_is_taken_as_stored() {
    let mut c = columns();
    c.id = Ok("whatever-was-stored".into());
    assert_eq!(article_from_columns(c).unwrap().id.to_string(), "whatever-was-stored");
}

#[test]
fn assembling_takes_the_tags_it_is_given() {
    let tags: HashSet<String> = ["x".to_string()].into_iter().collect();
    let article = assemble_article(columns(), tags.clone()).unwrap();
    assert_eq!(article.tags, tags);
    let mut c = columns();
    c.title = Err("gone".into());
    assert_eq!(repository_message(assemble_article(c, tags)), "Missing title: gone");
}

#[test]
fn an_article_becomes_a_row() {
    let mut article = Article::new(
        Source::Reddit("rust".into()),
        "abc",
        "Title".into(),
        "http://u".into(),
        77,
    )
    .unwrap();
    article.author = "bob".into();
    article.comment_count = u32::MAX;
    article.is_hot_on_source = true;
    article.score_bits = 99.0f64.to_bits();
    article.tags.insert("one".into());

    let row = article_to_row(&article).unwrap();
    assert_eq!(row.id, "rd-rust-abc");
    assert_eq!(row.title, "Title");
    assert_eq!(row.url, "http://u");
    assert_eq!(row.source, "rd-rust");
    assert_eq!(f64::from_bits(row.score_bits), 99.0);
    assert_eq!(row.author, "bob");
    assert_eq!(row.timestamp, 77);
    assert_eq!(row.tags, "[\"one\"]");
    assert_eq!(row.comment_count, 4294967295);
    assert!(row.is_hot_on_source);

    let with_given_tags = row_of_article(&article, "[]".into());
    assert_eq!(with_given_tags.tags, "[]");
    assert_eq!(with_given_tags.id, "rd-rust-abc");
}

#[test]
fn test_save_all_sources() {
    let sources = vec![
        Source::HackerNews,
        Source::GitHub,
        Source::ProductHunt,
        Source::ArXiv,
        Source::Reddit("rust".into()),
        Source::Custom("myblog".into()),
    ];
    for (i, source) in sources.into_iter().enumerate() {
        let mut article = Article::new(
            source.clone(),
            &i.to_string(),
            format!("Title {}", i),
            "http://x".into(),
            100,
        )
        .unwrap();
        article.tags.insert("a b".into());
        article.tags.insert("\"quoted\"".into());
        let row = article_to_row(&article).unwrap();
        let read = article_from_columns(ArticleColumns {
            id: Ok(row.id),
            title: Ok(row.title),
            url: Some(row.url),
            source: Ok(row.source),
            score_bits: Some(row.score_bits),
            author: Some(row.author),
            timestamp: Ok(row.timestamp),
            tags: Some(row.tags),
            comment_count: Some(row.comment_count),
            is_hot_on_source: Some(row.is_hot_on_source),
        })
        .unwrap();
        assert_eq!(read.source, source, "Failed to match source {:?}", source);
        assert_eq!(read.id, article.id);
        assert_eq!(read.title, article.title);
        assert_eq!(read.tags, article.tags);
        assert_eq!(read.author, "unknown");
        assert_eq!(read.timestamp, 100);
    }
}

#[test]
fn a_stored_report_is_read() {
    let mut metadata = std::collections::HashMap::new();
    metadata.insert("k".to_string(), "v".to_string());
    let report = report_from_columns(ReportColumns {
        timestamp: Ok(1000),
        trends: Ok(vec![Trend {
            keyword: "Runes".into(),
            score: 100,
            volume: 10,
            velocity: 0,
            related_articles: vec![ArticleId::from_persisted("hn-123".into())],
        }]),
        metadata: Some(metadata),
    })
    .unwrap();
    assert_eq!(report.timestamp, 1000);
    assert_eq!(report.trends.len(), 1);
    assert_eq!(report.trends[0].keyword, "Runes");
    assert_eq!(report.metadata.get("k").map(|v| v.as_str()), Some("v"));

    let bare = report_from_columns(ReportColumns {
        timestamp: Ok(-5),
        trends: Ok(Vec::new()),
        metadata: None,
    })
    .unwrap();
    assert_eq!(bare.timestamp, -5);
    assert!(bare.trends.is_empty());
    assert!(bare.metadata.is_empty());
}

#[test]
fn a_report_that_cannot_be_read_says_why() {
    let message = |columns: ReportColumns| match report_from_columns(columns) {
        Err(DomainError::Repository(message)) => message,
        other => panic!("expected a repository error, got {:?}", other),
    };
    assert_eq!(
        message(ReportColumns {
            timestamp: Err("no column".into()),
            trends: Err(ColumnFault::Missing("x".into())),
            metadata: None,
        }),
        "Missing timestamp: no column"
    );
    assert_eq!(
        message(ReportColumns {
            timestamp: Ok(1),
            trends: Err(ColumnFault::Missing("gone".into())),
            metadata: None,
        }),
        "Missing data: gone"
    );
    assert_eq!(
        message(ReportColumns {
            timestamp: Ok(1),
            trends: Err(ColumnFault::Malformed("expected value at line 1 column 1".into())),
            metadata: None,
        }),
        "Deserialization error: expected value at line 1 column 1"
    );
}

#[test]
fn a_report_becomes_a_row() {
    let row = report_to_row(2000, Ok("[]".into()), Ok("{}".into())).unwrap();
    assert_eq!(row.timestamp, 2000);
    assert_eq!(row.data, "[]");
    assert_eq!(row.metadata, "{}");
    let message = |r: Result<ReportRow, DomainError>| match r {
        Err(DomainError::Repository(message)) => message,
        other => panic!("expected a repository error, got {:?}", other),
    };
    assert_eq!(
        message(report_to_row(1, Err("bad trends".into()), Err("bad map".into()))),
        "Serialization error: bad trends"
    );
    assert_eq!(
        message(report_to_row(1, Ok("[]".into()), Err("bad map".into()))),
        "Serialization error: bad map"
    );
}

#[test]
fn test_sqlite_article_roundtrip() {
    let article = Article::new(
        Source::HackerNews,
        "1",
        "Test Title".into(),
        "http://example.com".into(),
        100,
    )
    .unwrap();

    let row = article_to_row(&article).unwrap();
    let found = article_from_columns(ArticleColumns {
        id: Ok(row.id),
        title: Ok(row.title),
        url: Some(row.url),
        source: Ok(row.source),
        score_bits: Some(row.score_bits),
        author: Some(row.author),
        timestamp: Ok(row.timestamp),
        tags: Some(row.tags),
        comment_count: Some(row.comment_count),
        is_hot_on_source: Some(row.is_hot_on_source),
    })
    .unwrap();

    assert_eq!(found.title, "Test Title");
    assert_eq!(found.source, Source::HackerNews);
    assert_eq!(found.url, "http://example.com");
    assert_eq!(found.id, article.id);
}
