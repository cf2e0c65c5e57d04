//! Articles and reports as rows of tables.
//!
//! An article has one column for each field: the identifier and the source
//! as their texts, the score as the bits of its double, and the tags as a
//! JSON array of strings. A report has its timestamp, its trends as JSON and
//! its metadata as JSON.

use crate::article::{
    id_rejection, lemma_short_code_round_trip, tag_texts, Article, ArticleId, ArticleView, Source,
    SourceView,
};
use crate::error::{DomainError, ErrorView};
use crate::trend::{trend_views, Trend, TrendReport, TrendReportView};
use std::collections::{HashMap, HashSet};
use vstd::prelude::*;

verus! {

/// `serde_json::Error`, taken as it comes: nothing is known of what is
/// inside one.
#[verifier::external_type_specification]
#[verifier::external_body]
pub struct ExJsonError(serde_json::Error);

/// What `serde_json::from_str` makes of `json` when it is asked for a set of
/// strings: the set, or `None` where it reports an error.
pub uninterp spec fn json_tags(json: Seq<char>) -> Option<Set<Seq<char>>>;

/// Reads a set of tags from JSON.
///
/// Trusted: this is `serde_json::from_str`, asked for a `HashSet<String>`.
/// What it reads depends on the text alone and is given the name
/// `json_tags`; nothing more is claimed of it.
#[verifier::external_body]
pub(crate) fn tags_from_json(json: &str) -> (r: Result<HashSet<String>, serde_json::Error>)
    ensures
        match json_tags(json@) {
            Some(tags) => r matches Ok(set) && tag_texts(set@) == tags,
            None => r is Err,
        },
{
    serde_json::from_str(json)
}

/// Writes a set of tags as JSON.
///
/// Trusted: this is `serde_json::to_string`. On a set of strings it cannot
/// fail: it writes into memory, and strings always serialize. It writes the
/// tags as a JSON array, in the order in which the set hands them out, so
/// the text itself is left open; claimed is that `serde_json::from_str`
/// reads the same set back from it.
#[verifier::external_body]
pub(crate) fn tags_to_json(tags: &HashSet<String>) -> (r: Result<String, serde_json::Error>)
    ensures
        r is Ok,
        r matches Ok(text) ==> json_tags(text@) == Some(tag_texts(tags@)),
{
    serde_json::to_string(tags)
}

/// The message of an error of `serde_json`.
///
/// Trusted: this is the error's `to_string`; nothing is claimed of the text.
#[verifier::external_body]
pub(crate) fn json_error_text(e: &serde_json::Error) -> (text: String) {
    e.to_string()
}

/// An article as a row that is ready to be written.
#[derive(Debug)]
pub struct ArticleRow {
    pub id: String,
    pub title: String,
    pub url: String,
    pub source: String,
    pub score_bits: u64,
    pub author: String,
    pub timestamp: i64,
    /// The tags, as a JSON array of strings.
    pub tags: String,
    pub comment_count: i64,
    pub is_hot_on_source: bool,
}

/// `row` carries every field of `article` but its tags.
pub open spec fn row_carries(row: ArticleRow, article: ArticleView) -> bool {
    &&& row.id@ == article.id
    &&& row.title@ == article.title
    &&& row.url@ == article.url
    &&& row.source@ == article.source.short_code()
    &&& row.score_bits == article.score_bits
    &&& row.author@ == article.author
    &&& row.timestamp == article.timestamp
    &&& row.comment_count == article.comment_count
    &&& row.is_hot_on_source == article.is_hot_on_source
}

/// `row` holds `article`: every field in its column, and in the `tags`
/// column JSON that reads as the tags of the article.
pub open spec fn row_holds(row: ArticleRow, article: ArticleView) -> bool {
    &&& row_carries(row, article)
    &&& json_tags(row.tags@) == Some(article.tags)
}

/// The row for `article`, with `tags` as the JSON of its tags.
pub fn row_of_article(article: &Article, tags: String) -> (row: ArticleRow)
    ensures
        row_carries(row, article@),
        row.tags@ == tags@,
{
    ArticleRow {
        id: article.id.to_string(),
        title: article.title.clone(),
        url: article.url.clone(),
        source: article.source.to_string(),
        score_bits: article.score_bits,
        author: article.author.clone(),
        timestamp: article.timestamp,
        tags,
        comment_count: article.comment_count as i64,
        is_hot_on_source: article.is_hot_on_source,
    }
}

/// The row for `article`, with its tags written as JSON.
///
/// Writing a set of strings as JSON does not fail, so there is always a
/// row; the result leaves room for the failure all the same, as whoever
/// writes the row reports failures of its own in the same way.
pub fn article_to_row(article: &Article) -> (r: Result<ArticleRow, DomainError>)
    ensures
        r matches Ok(row) && row_holds(row, article@),
{
    match tags_to_json(&article.tags) {
        Ok(tags) => Ok(row_of_article(article, tags)),
        Err(e) => Err(DomainError::Repository(json_error_text(&e))),
    }
}

/// What reading the columns of a stored article brought. A column that the
/// article cannot do without holds its value or the driver's words on why
/// there is none; one that has a default holds its value or nothing.
#[derive(Debug)]
pub struct ArticleColumns {
    pub id: Result<String, String>,
    pub title: Result<String, String>,
    pub url: Option<String>,
    pub source: Result<String, String>,
    pub score_bits: Option<u64>,
    pub author: Option<String>,
    pub timestamp: Result<i64, String>,
    /// The tags, as a JSON array of strings.
    pub tags: Option<String>,
    pub comment_count: Option<i64>,
    pub is_hot_on_source: Option<bool>,
}

/// The failure to report for a column that an article cannot do without.
pub open spec fn missing(column: Seq<char>, fault: Seq<char>) -> ErrorView {
    ErrorView::Repository("Missing "@ + column + ": "@ + fault)
}

/// The text of a column that may be absent: empty where it is.
pub open spec fn text_or_empty(column: Option<String>) -> Seq<char> {
    match column {
        Some(text) => text@,
        None => Seq::empty(),
    }
}

/// The tags that a column of JSON stands for: none where the column is
/// absent or does not hold a JSON array of strings.
pub open spec fn tags_of_column(column: Option<String>) -> Set<Seq<char>> {
    match column {
        Some(json) => match json_tags(json@) {
            Some(tags) => tags,
            None => Set::empty(),
        },
        None => Set::empty(),
    }
}

/// The article that the columns stand for, with `tags` as its tags: the
/// source, the identifier, the title and the timestamp must be there, and
/// the first of them that is not decides the failure; every other column
/// falls back on its default.
pub open spec fn article_of_columns(columns: ArticleColumns, tags: Set<Seq<char>>) -> Result<
    ArticleView,
    ErrorView,
> {
    match columns.source {
        Err(fault) => Err(missing("source"@, fault@)),
        Ok(code) => match columns.id {
            Err(fault) => Err(missing("id"@, fault@)),
            Ok(id) => match columns.title {
                Err(fault) => Err(missing("title"@, fault@)),
                Ok(title) => match columns.timestamp {
                    Err(fault) => Err(missing("timestamp"@, fault@)),
                    Ok(timestamp) => Ok(
                        ArticleView {
                            id: id@,
                            title: title@,
                            url: text_or_empty(columns.url),
                            source: SourceView::of_short_code(code@),
                            score_bits: match columns.score_bits {
                                Some(bits) => bits,
                                None => 0,
                            },
                            author: text_or_empty(columns.author),
                            timestamp,
                            tags,
                            comment_count: match columns.comment_count {
                                Some(count) => count as u32,
                                None => 0,
                            },
                            is_hot_on_source: match columns.is_hot_on_source {
                                Some(hot) => hot,
                                None => false,
                            },
                        },
                    ),
                },
            },
        },
    }
}

fn missing_column(column: &str, fault: String) -> (e: DomainError)
    ensures
        e@ == missing(column@, fault@),
{
    let mut text = String::from_str("Missing ");
    text.append(column);
    text.append(": ");
    text.append(fault.as_str());
    DomainError::Repository(text)
}

fn or_empty(column: Option<String>) -> (text: String)
    ensures
        text@ == text_or_empty(column),
{
    match column {
        Some(text) => text,
        None => String::new(),
    }
}

/// The article that the columns stand for, with `tags` as its tags.
pub fn assemble_article(columns: ArticleColumns, tags: HashSet<String>) -> (r: Result<
    Article,
    DomainError,
>)
    ensures
        match article_of_columns(columns, tag_texts(tags@)) {
            Ok(article) => r matches Ok(a) && a@ == article,
            Err(failure) => r matches Err(e) && e@ == failure,
        },
{
    let code = match columns.source {
        Ok(code) => code,
        Err(fault) => {
            return Err(missing_column("source", fault));
        },
    };
    let id = match columns.id {
        Ok(id) => id,
        Err(fault) => {
            return Err(missing_column("id", fault));
        },
    };
    let title = match columns.title {
        Ok(title) => title,
        Err(fault) => {
            return Err(missing_column("title", fault));
        },
    };
    let timestamp = match columns.timestamp {
        Ok(timestamp) => timestamp,
        Err(fault) => {
            return Err(missing_column("timestamp", fault));
        },
    };
    Ok(
        Article {
            id: ArticleId::from_persisted(id),
            title,
            url: or_empty(columns.url),
            source: Source::from_persisted(code),
            score_bits: match columns.score_bits {
                Some(bits) => bits,
                None => 0,
            },
            author: or_empty(columns.author),
            timestamp,
            tags,
            comment_count: match columns.comment_count {
                Some(count) => #[verifier::truncate]
                (count as u32),
                None => 0,
            },
            is_hot_on_source: match columns.is_hot_on_source {
                Some(hot) => hot,
                None => false,
            },
        },
    )
}

/// The article that the columns stand for.
pub fn article_from_columns(columns: ArticleColumns) -> (r: Result<Article, DomainError>)
    ensures
        match article_of_columns(columns, tags_of_column(columns.tags)) {
            Ok(article) => r matches Ok(a) && a@ == article,
            Err(failure) => r matches Err(e) && e@ == failure,
        },
{
    let tags = match &columns.tags {
        Some(json) => match tags_from_json(json.as_str()) {
            Ok(tags) => tags,
            Err(_) => HashSet::new(),
        },
        None => HashSet::new(),
    };
    assert(tag_texts(tags@) =~= tags_of_column(columns.tags));
    assemble_article(columns, tags)
}

/// Every column of `columns` was read, and holds what `row` holds.
pub open spec fn read_from(columns: ArticleColumns, row: ArticleRow) -> bool {
    &&& columns.id matches Ok(id) && id@ == row.id@
    &&& columns.title matches Ok(title) && title@ == row.title@
    &&& columns.url matches Some(url) && url@ == row.url@
    &&& columns.source matches Ok(source) && source@ == row.source@
    &&& columns.score_bits == Some(row.score_bits)
    &&& columns.author matches Some(author) && author@ == row.author@
    &&& columns.timestamp == Ok::<i64, String>(row.timestamp)
    &&& columns.tags matches Some(tags) && tags@ == row.tags@
    &&& columns.comment_count == Some(row.comment_count)
    &&& columns.is_hot_on_source == Some(row.is_hot_on_source)
}

/// An article that was written as a row and read back from its columns is
/// the article that was written, where its source is one that identifiers
/// are made of.
pub proof fn lemma_row_reads_back(article: ArticleView, row: ArticleRow, columns: ArticleColumns)
    requires
        id_rejection(article.source, Seq::empty()) is None,
        row_holds(row, article),
        read_from(columns, row),
    ensures
        article_of_columns(columns, tags_of_column(columns.tags)) == Ok::<ArticleView, ErrorView>(
            article,
        ),
{
    lemma_short_code_round_trip(article.source, Seq::empty());
}

/// Why a column gave no value.
#[derive(Debug)]
pub enum ColumnFault {
    /// The column could not be read; the driver's words on it.
    Missing(String),
    /// The column was read, but not understood; the parser's words on it.
    Malformed(String),
}

/// What reading the columns of a stored report brought.
#[derive(Debug)]
pub struct ReportColumns {
    pub timestamp: Result<i64, String>,
    /// What the `data` column holds, read as trends.
    pub trends: Result<Vec<Trend>, ColumnFault>,
    /// The metadata, where the column is there and holds a map of strings.
    pub metadata: Option<HashMap<String, String>>,
}

/// The report that the columns stand for: the timestamp and the trends must
/// be there, and the first of them that is not decides the failure; without
/// metadata the report has none.
pub open spec fn report_of_columns(columns: ReportColumns) -> Result<TrendReportView, ErrorView> {
    match columns.timestamp {
        Err(fault) => Err(missing("timestamp"@, fault@)),
        Ok(timestamp) => match columns.trends {
            Err(ColumnFault::Missing(fault)) => Err(missing("data"@, fault@)),
            Err(ColumnFault::Malformed(fault)) => Err(
                ErrorView::Repository("Deserialization error: "@ + fault@),
            ),
            Ok(trends) => Ok(
                TrendReportView {
                    timestamp,
                    trends: trend_views(trends@),
                    metadata: match columns.metadata {
                        Some(metadata) => metadata@,
                        None => Map::empty(),
                    },
                },
            ),
        },
    }
}

/// The report that the columns stand for.
pub fn report_from_columns(columns: ReportColumns) -> (r: Result<TrendReport, DomainError>)
    ensures
        match report_of_columns(columns) {
            Ok(report) => r matches Ok(made) && made@ == report,
            Err(failure) => r matches Err(e) && e@ == failure,
        },
{
    let timestamp = match columns.timestamp {
        Ok(timestamp) => timestamp,
        Err(fault) => {
            return Err(missing_column("timestamp", fault));
        },
    };
    let trends = match columns.trends {
        Ok(trends) => trends,
        Err(ColumnFault::Missing(fault)) => {
            return Err(missing_column("data", fault));
        },
        Err(ColumnFault::Malformed(fault)) => {
            return Err(
                DomainError::Repository(
                    String::from_str("Deserialization error: ").concat(fault.as_str()),
                ),
            );
        },
    };
    let metadata = match columns.metadata {
        Some(metadata) => metadata,
        None => HashMap::new(),
    };
    Ok(TrendReport { timestamp, trends, metadata })
}

/// A report as a row that is ready to be written.
#[derive(Debug)]
pub struct ReportRow {
    pub timestamp: i64,
    /// The trends, as JSON.
    pub data: String,
    /// The metadata, as JSON.
    pub metadata: String,
}

/// The failure to report for what could not be written as JSON.
pub open spec fn unwritable(fault: Seq<char>) -> ErrorView {
    ErrorView::Repository("Serialization error: "@ + fault)
}

/// The row for a report made at `timestamp`, of the JSON of its trends and
/// of its metadata; where either could not be written as JSON, it holds the
/// serializer's words instead, and those of the trends go first.
pub fn report_to_row(
    timestamp: i64,
    data: Result<String, String>,
    metadata: Result<String, String>,
) -> (r: Result<ReportRow, DomainError>)
    ensures
        match data {
            Err(fault) => r matches Err(e) && e@ == unwritable(fault@),
            Ok(trends) => match metadata {
                Err(fault) => r matches Err(e) && e@ == unwritable(fault@),
                Ok(map) => r == Ok::<ReportRow, DomainError>(
                    ReportRow { timestamp, data: trends, metadata: map },
                ),
            },
        },
{
    let data = match data {
        Ok(data) => data,
        Err(fault) => {
            return Err(
                DomainError::Repository(
                    String::from_str("Serialization error: ").concat(fault.as_str()),
                ),
            );
        },
    };
    let metadata = match metadata {
        Ok(metadata) => metadata,
        Err(fault) => {
            return Err(
                DomainError::Repository(
                    String::from_str("Serialization error: ").concat(fault.as_str()),
                ),
            );
        },
    };
    Ok(ReportRow { timestamp, data, metadata })
}

} // verus!
