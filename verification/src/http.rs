//! What the service answers over HTTP: the shapes of its answers, the
//! bounds on what callers may ask for, and how failures are shown.

use crate::article::{Article, ArticleView};
use crate::error::{DomainError, ErrorView};
use crate::trend::{TrendReport, TrendView};
use vstd::prelude::*;

verus! {

/// How many articles a feed holds when the caller names no number.
pub fn default_limit() -> (limit: usize)
    ensures
        limit == 20,
{
    20
}

/// The number of articles that a caller who asks for `asked` gets at most:
/// at least 1 and no more than 100.
pub open spec fn bounded_limit(asked: usize) -> usize {
    if asked < 1 {
        1
    } else if asked > 100 {
        100
    } else {
        asked
    }
}

/// What the caller of the feed asks for.
#[derive(Debug)]
pub struct FeedQuery {
    pub limit: usize,
}

impl Default for FeedQuery {
    fn default() -> (query: FeedQuery)
        ensures
            query.limit == 20,
    {
        FeedQuery { limit: default_limit() }
    }
}

impl FeedQuery {
    /// The number of articles to read for this query.
    pub fn effective_limit(&self) -> (limit: usize)
        ensures
            limit == bounded_limit(self.limit),
            1 <= limit <= 100,
    {
        if self.limit < 1 {
            1
        } else if self.limit > 100 {
            100
        } else {
            self.limit
        }
    }
}

/// An article as the feed shows it.
#[derive(Debug)]
pub struct ArticleDto {
    pub id: String,
    pub title: String,
    pub url: String,
    pub source: String,
    pub timestamp: i64,
}

/// An `ArticleDto` with its texts as sequences of characters.
pub struct ArticleDtoView {
    pub id: Seq<char>,
    pub title: Seq<char>,
    pub url: Seq<char>,
    pub source: Seq<char>,
    pub timestamp: i64,
}

impl View for ArticleDto {
    type V = ArticleDtoView;

    open spec fn view(&self) -> ArticleDtoView {
        ArticleDtoView {
            id: self.id@,
            title: self.title@,
            url: self.url@,
            source: self.source@,
            timestamp: self.timestamp,
        }
    }
}

/// What the feed shows of an article: its source by its short code.
pub open spec fn shown(article: ArticleView) -> ArticleDtoView {
    ArticleDtoView {
        id: article.id,
        title: article.title,
        url: article.url,
        source: article.source.short_code(),
        timestamp: article.timestamp,
    }
}

impl From<Article> for ArticleDto {
    fn from(article: Article) -> (dto: ArticleDto)
        ensures
            dto@ == shown(article@),
    {
        ArticleDto {
            id: article.id.to_string(),
            source: article.source.to_string(),
            title: article.title,
            url: article.url,
            timestamp: article.timestamp,
        }
    }
}

impl vstd::std_specs::convert::FromSpecImpl<Article> for ArticleDto {
    open spec fn obeys_from_spec() -> bool {
        false
    }

    open spec fn from_spec(article: Article) -> ArticleDto {
        arbitrary()
    }
}

/// The feed.
#[derive(Debug)]
pub struct FeedResponse {
    pub articles: Vec<ArticleDto>,
}

impl FeedResponse {
    /// The feed of `articles`, in their order.
    pub fn of(articles: Vec<Article>) -> (feed: FeedResponse)
        ensures
            feed.articles@.map_values(|dto: ArticleDto| dto@) == articles@.map_values(
                |a: Article| shown(a@),
            ),
    {
        let mut shown_articles: Vec<ArticleDto> = Vec::new();
        for article in it: articles
            invariant
                it.seq() == articles@,
                shown_articles.len() == it.index(),
                forall|j: int|
                    0 <= j < it.index() ==> (#[trigger] shown_articles[j])@ == shown(articles[j]@),
        {
            shown_articles.push(ArticleDto::from(article));
        }
        let feed = FeedResponse { articles: shown_articles };
        assert(feed.articles@.map_values(|dto: ArticleDto| dto@) =~= articles@.map_values(
            |a: Article| shown(a@),
        ));
        feed
    }
}

/// The HTTP status that stands for a failure: 404 for what was not found,
/// 400 for bad input, 409 for a conflict, 500 for everything else.
pub open spec fn status_of(e: ErrorView) -> u16 {
    match e {
        ErrorView::NotFound(_) => 404,
        ErrorView::Validation(_) => 400,
        ErrorView::AlreadyExists(_) => 409,
        ErrorView::Repository(_) => 500,
    }
}

/// What a caller is told of a failure. It depends on the status alone: the
/// message of the failure stays inside.
pub open spec fn public_message(status: u16) -> Seq<char> {
    if status == 404 {
        "Not found"@
    } else if status == 400 {
        "Bad request"@
    } else if status == 409 {
        "Conflict"@
    } else {
        "Internal server error"@
    }
}

/// A failure on its way to the caller.
#[derive(Debug)]
pub struct ApiError(pub DomainError);

impl ApiError {
    /// The HTTP status to answer with.
    pub fn status(&self) -> (status: u16)
        ensures
            status == status_of(self.0@),
    {
        match &self.0 {
            DomainError::NotFound(_) => 404,
            DomainError::Validation(_) => 400,
            DomainError::AlreadyExists(_) => 409,
            DomainError::Repository(_) => 500,
        }
    }

    /// What to tell the caller.
    pub fn message(&self) -> (message: &'static str)
        ensures
            message@ == public_message(status_of(self.0@)),
    {
        let status = self.status();
        if status == 404 {
            "Not found"
        } else if status == 400 {
            "Bad request"
        } else if status == 409 {
            "Conflict"
        } else {
            "Internal server error"
        }
    }
}

impl From<DomainError> for ApiError {
    fn from(e: DomainError) -> (failure: ApiError) {
        ApiError(e)
    }
}

impl vstd::std_specs::convert::FromSpecImpl<DomainError> for ApiError {
    open spec fn obeys_from_spec() -> bool {
        true
    }

    open spec fn from_spec(e: DomainError) -> ApiError {
        ApiError(e)
    }
}

/// The keywords to look for when the caller names none.
pub fn default_keywords() -> (keywords: Vec<String>)
    ensures
        keywords@.map_values(|k: String| k@) == seq!["Rust"@, "AI"@, "Cloud"@, "Crypto"@],
{
    let mut keywords: Vec<String> = Vec::new();
    keywords.push(String::from_str("Rust"));
    keywords.push(String::from_str("AI"));
    keywords.push(String::from_str("Cloud"));
    keywords.push(String::from_str("Crypto"));
    keywords
}

/// What the caller of the trend computation asks for.
#[derive(Debug)]
pub struct TrendsRequest {
    pub keywords: Vec<String>,
}

impl Default for TrendsRequest {
    fn default() -> (request: TrendsRequest)
        ensures
            request.keywords@.map_values(|k: String| k@) == seq![
                "Rust"@,
                "AI"@,
                "Cloud"@,
                "Crypto"@,
            ],
    {
        TrendsRequest { keywords: default_keywords() }
    }
}

impl TrendsRequest {
    /// The request to serve: the one that came, or the default where none came.
    pub fn or_default(body: Option<TrendsRequest>) -> (request: TrendsRequest)
        ensures
            match body {
                Some(given) => request == given,
                None => request.keywords@.map_values(|k: String| k@) == seq![
                    "Rust"@,
                    "AI"@,
                    "Cloud"@,
                    "Crypto"@,
                ],
            },
    {
        match body {
            Some(given) => given,
            None => TrendsRequest::default(),
        }
    }
}

/// A trend as the answer shows it.
#[derive(Debug)]
pub struct TrendDto {
    pub keyword: String,
    pub score: u64,
    pub volume: u32,
}

/// A `TrendDto` with its keyword as a sequence of characters.
pub struct TrendDtoView {
    pub keyword: Seq<char>,
    pub score: u64,
    pub volume: u32,
}

impl View for TrendDto {
    type V = TrendDtoView;

    open spec fn view(&self) -> TrendDtoView {
        TrendDtoView { keyword: self.keyword@, score: self.score, volume: self.volume }
    }
}

/// What the answer shows of a trend.
pub open spec fn shown_trend(trend: TrendView) -> TrendDtoView {
    TrendDtoView { keyword: trend.keyword, score: trend.score, volume: trend.volume }
}

/// The answer to a trend computation.
#[derive(Debug)]
pub struct TrendsResponse {
    pub timestamp: i64,
    pub trends: Vec<TrendDto>,
}

impl TrendsResponse {
    /// The answer that shows `report`: its time, and its trends in their order.
    pub fn of(report: TrendReport) -> (response: TrendsResponse)
        ensures
            response.timestamp == report.timestamp,
            response.trends@.map_values(|dto: TrendDto| dto@) == report@.trends.map_values(
                |t: TrendView| shown_trend(t),
            ),
    {
        let timestamp = report.timestamp;
        let ghost trends = report.trends@;
        let mut shown_trends: Vec<TrendDto> = Vec::new();
        for trend in it: report.trends
            invariant
                it.seq() == trends,
                shown_trends.len() == it.index(),
                forall|j: int|
                    0 <= j < it.index() ==> (#[trigger] shown_trends[j])@ == shown_trend(
                        trends[j]@,
                    ),
        {
            shown_trends.push(
                TrendDto { keyword: trend.keyword, score: trend.score, volume: trend.volume },
            );
        }
        let response = TrendsResponse { timestamp, trends: shown_trends };
        assert(response.trends@.map_values(|dto: TrendDto| dto@) =~= report@.trends.map_values(
            |t: TrendView| shown_trend(t),
        ));
        response
    }
}

} // verus!
