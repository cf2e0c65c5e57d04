//! Articles, the sources they come from, and the identifiers that keep
//! articles of different sources apart.

use crate::error::{DomainError, ErrorView};
use crate::text::{blank, contains_dash, has_dash, is_blank, text_eq};
use std::collections::HashSet;
use vstd::prelude::*;
use vstd::std_specs::cmp::PartialEqSpec;

verus! {

/// Where an article was found.
#[derive(Debug)]
pub enum Source {
    HackerNews,
    GitHub,
    /// A subreddit, by name.
    Reddit(String),
    ProductHunt,
    ArXiv,
    /// Any other source, by a name of its own.
    Custom(String),
}

/// A `Source` with its names as sequences of characters.
pub enum SourceView {
    HackerNews,
    GitHub,
    Reddit(Seq<char>),
    ProductHunt,
    ArXiv,
    Custom(Seq<char>),
}

impl SourceView {
    /// The short code that stands for the source at the head of an identifier.
    pub open spec fn short_code(self) -> Seq<char> {
        match self {
            SourceView::HackerNews => seq!['h', 'n'],
            SourceView::GitHub => seq!['g', 'h'],
            SourceView::Reddit(sub) => seq!['r', 'd', '-'] + sub,
            SourceView::ProductHunt => seq!['p', 'h'],
            SourceView::ArXiv => seq!['a', 'r', 'x', 'i', 'v'],
            SourceView::Custom(name) => name,
        }
    }

    /// The source that a stored short code stands for. A code that no
    /// built-in source has reads as a custom source of that name.
    pub open spec fn of_short_code(code: Seq<char>) -> SourceView {
        if code == seq!['h', 'n'] {
            SourceView::HackerNews
        } else if code == seq!['g', 'h'] {
            SourceView::GitHub
        } else if code == seq!['p', 'h'] {
            SourceView::ProductHunt
        } else if code == seq!['a', 'r', 'x', 'i', 'v'] {
            SourceView::ArXiv
        } else if crate::text::starts_with(code, seq!['r', 'd', '-']) {
            SourceView::Reddit(code.subrange(3, code.len() as int))
        } else {
            SourceView::Custom(code)
        }
    }
}

/// The short codes of the built-in sources. A custom source may not take one
/// of them as its name.
pub open spec fn is_reserved(name: Seq<char>) -> bool {
    ||| name == seq!['h', 'n']
    ||| name == seq!['g', 'h']
    ||| name == seq!['p', 'h']
    ||| name == seq!['a', 'r', 'x', 'i', 'v']
    ||| name == seq!['r', 'd']
}

/// Why no identifier can be made of `source` and `native_id`: the message of
/// the first rule that they break, or `None` where they break none.
pub open spec fn id_rejection(source: SourceView, native_id: Seq<char>) -> Option<Seq<char>> {
    if has_dash(native_id) {
        Some("Native ID cannot contain '-' separator"@)
    } else {
        match source {
            SourceView::Custom(name) => {
                if is_blank(name) {
                    Some("Custom source name cannot be empty"@)
                } else if has_dash(name) {
                    Some("Custom source name cannot contain '-'"@)
                } else if is_reserved(name) {
                    Some("Custom source cannot use reserved prefix '"@ + name + "'"@)
                } else {
                    None
                }
            },
            SourceView::Reddit(sub) => {
                if has_dash(sub) {
                    Some("Subreddit name cannot contain '-'"@)
                } else {
                    None
                }
            },
            _ => None,
        }
    }
}

/// The identifier of the article that `source` knows as `native_id`.
pub open spec fn id_text(source: SourceView, native_id: Seq<char>) -> Seq<char> {
    source.short_code() + seq!['-'] + native_id
}

impl View for Source {
    type V = SourceView;

    open spec fn view(&self) -> SourceView {
        match self {
            Source::HackerNews => SourceView::HackerNews,
            Source::GitHub => SourceView::GitHub,
            Source::Reddit(sub) => SourceView::Reddit(sub@),
            Source::ProductHunt => SourceView::ProductHunt,
            Source::ArXiv => SourceView::ArXiv,
            Source::Custom(name) => SourceView::Custom(name@),
        }
    }
}

impl Source {
    /// The short code of the source.
    pub fn to_string(&self) -> (code: String)
        ensures
            code@ == self@.short_code(),
    {
        proof {
            reveal_strlit("hn");
            reveal_strlit("gh");
            reveal_strlit("rd-");
            reveal_strlit("ph");
            reveal_strlit("arxiv");
        }
        match self {
            Source::HackerNews => String::from_str("hn"),
            Source::GitHub => String::from_str("gh"),
            Source::Reddit(sub) => String::from_str("rd-").concat(sub.as_str()),
            Source::ProductHunt => String::from_str("ph"),
            Source::ArXiv => String::from_str("arxiv"),
            Source::Custom(name) => name.clone(),
        }
    }

    /// The source that a stored short code stands for.
    pub fn from_persisted(code: String) -> (source: Source)
        ensures
            source@ == SourceView::of_short_code(code@),
    {
        proof {
            reveal_strlit("hn");
            reveal_strlit("gh");
            reveal_strlit("ph");
            reveal_strlit("arxiv");
            reveal_strlit("rd-");
            assert("hn"@ =~= seq!['h', 'n']);
            assert("gh"@ =~= seq!['g', 'h']);
            assert("ph"@ =~= seq!['p', 'h']);
            assert("arxiv"@ =~= seq!['a', 'r', 'x', 'i', 'v']);
            assert("rd-"@ =~= seq!['r', 'd', '-']);
        }
        let s = code.as_str();
        if text_eq(s, "hn") {
            Source::HackerNews
        } else if text_eq(s, "gh") {
            Source::GitHub
        } else if text_eq(s, "ph") {
            Source::ProductHunt
        } else if text_eq(s, "arxiv") {
            Source::ArXiv
        } else {
            let n = s.unicode_len();
            if n >= 3 && text_eq(s.substring_char(0, 3), "rd-") {
                Source::Reddit(String::from_str(s.substring_char(3, n)))
            } else {
                Source::Custom(code)
            }
        }
    }
}

impl Clone for Source {
    fn clone(&self) -> (copy: Source)
        ensures
            copy@ == self@,
    {
        match self {
            Source::HackerNews => Source::HackerNews,
            Source::GitHub => Source::GitHub,
            Source::Reddit(sub) => Source::Reddit(sub.clone()),
            Source::ProductHunt => Source::ProductHunt,
            Source::ArXiv => Source::ArXiv,
            Source::Custom(name) => Source::Custom(name.clone()),
        }
    }
}

impl PartialEq for Source {
    fn eq(&self, other: &Source) -> (r: bool) {
        match (self, other) {
            (Source::HackerNews, Source::HackerNews) => true,
            (Source::GitHub, Source::GitHub) => true,
            (Source::Reddit(a), Source::Reddit(b)) => *a == *b,
            (Source::ProductHunt, Source::ProductHunt) => true,
            (Source::ArXiv, Source::ArXiv) => true,
            (Source::Custom(a), Source::Custom(b)) => *a == *b,
            _ => false,
        }
    }
}

impl Eq for Source {

}

impl vstd::std_specs::cmp::PartialEqSpecImpl for Source {
    open spec fn obeys_eq_spec() -> bool {
        true
    }

    open spec fn eq_spec(&self, other: &Source) -> bool {
        self@ == other@
    }
}

/// The identifier of an article: the short code of its source, a dash, and
/// the identifier that the source gave it.
#[derive(Debug, Hash)]
pub struct ArticleId(String);

impl View for ArticleId {
    type V = Seq<char>;

    closed spec fn view(&self) -> Seq<char> {
        self.0@
    }
}

fn name_is_reserved(name: &str) -> (r: bool)
    ensures
        r == is_reserved(name@),
{
    proof {
        reveal_strlit("hn");
        reveal_strlit("gh");
        reveal_strlit("ph");
        reveal_strlit("arxiv");
        reveal_strlit("rd");
        assert("hn"@ =~= seq!['h', 'n']);
        assert("gh"@ =~= seq!['g', 'h']);
        assert("ph"@ =~= seq!['p', 'h']);
        assert("arxiv"@ =~= seq!['a', 'r', 'x', 'i', 'v']);
        assert("rd"@ =~= seq!['r', 'd']);
    }
    text_eq(name, "hn") || text_eq(name, "gh") || text_eq(name, "ph") || text_eq(name, "arxiv")
        || text_eq(name, "rd")
}

impl ArticleId {
    /// Makes the identifier of the article that `source` knows as
    /// `native_id`, or says which rule the two break.
    pub fn new(source: &Source, native_id: &str) -> (r: Result<ArticleId, DomainError>)
        ensures
            match id_rejection(source@, native_id@) {
                Some(reason) => r matches Err(e) && e@ == ErrorView::Validation(reason),
                None => r matches Ok(id) && id@ == id_text(source@, native_id@),
            },
            has_dash(native_id@) ==> r matches Err(DomainError::Validation(_)),
    {
        if contains_dash(native_id) {
            return Err(
                DomainError::Validation(String::from_str("Native ID cannot contain '-' separator")),
            );
        }
        match source {
            Source::Custom(name) => {
                if blank(name.as_str()) {
                    return Err(
                        DomainError::Validation(
                            String::from_str("Custom source name cannot be empty"),
                        ),
                    );
                }
                if contains_dash(name.as_str()) {
                    return Err(
                        DomainError::Validation(
                            String::from_str("Custom source name cannot contain '-'"),
                        ),
                    );
                }
                if name_is_reserved(name.as_str()) {
                    let mut reason = String::from_str("Custom source cannot use reserved prefix '");
                    reason.append(name.as_str());
                    reason.append("'");
                    return Err(DomainError::Validation(reason));
                }
            },
            Source::Reddit(sub) => {
                if contains_dash(sub.as_str()) {
                    return Err(
                        DomainError::Validation(
                            String::from_str("Subreddit name cannot contain '-'"),
                        ),
                    );
                }
            },
            _ => {},
        }
        let mut text = source.to_string();
        proof {
            reveal_strlit("-");
        }
        text.append("-");
        text.append(native_id);
        Ok(ArticleId(text))
    }

    /// Takes back an identifier that was checked when it was first made and
    /// has been stored since. Nothing is checked here: new identifiers come
    /// from `new`.
    pub fn from_persisted(s: String) -> (id: ArticleId)
        ensures
            id@ == s@,
    {
        ArticleId(s)
    }

    /// The identifier as text.
    pub fn to_string(&self) -> (s: String)
        ensures
            s@ == self@,
    {
        self.0.clone()
    }
}

impl Clone for ArticleId {
    fn clone(&self) -> (copy: ArticleId)
        ensures
            copy@ == self@,
    {
        ArticleId(self.0.clone())
    }
}

impl PartialEq for ArticleId {
    fn eq(&self, other: &ArticleId) -> (r: bool) {
        self.0 == other.0
    }
}

impl Eq for ArticleId {

}

impl vstd::std_specs::cmp::PartialEqSpecImpl for ArticleId {
    open spec fn obeys_eq_spec() -> bool {
        true
    }

    open spec fn eq_spec(&self, other: &ArticleId) -> bool {
        self@ == other@
    }
}

/// An identifier read back from its stored text is the identifier that was
/// stored.
pub proof fn lemma_stored_id_round_trip(id: ArticleId, stored: String, read: ArticleId)
    requires
        stored@ == id@,
        read@ == stored@,
    ensures
        read.eq_spec(&id),
{
}

/// Every native identifier that holds a dash is refused, whatever the source.
pub proof fn lemma_dash_in_native_id_is_refused(source: SourceView, native_id: Seq<char>)
    requires
        has_dash(native_id),
    ensures
        id_rejection(source, native_id) is Some,
{
}

/// A custom source is refused under the short code of a built-in source,
/// whatever the native identifier.
pub proof fn lemma_reserved_names_are_refused(name: Seq<char>, native_id: Seq<char>)
    requires
        is_reserved(name),
    ensures
        id_rejection(SourceView::Custom(name), native_id) is Some,
{
}

/// A custom source is accepted under any name that is not the short code of
/// a built-in source, holds no dash and is more than whitespace, with any
/// native identifier that holds no dash.
pub proof fn lemma_other_names_are_accepted(name: Seq<char>, native_id: Seq<char>)
    requires
        !is_reserved(name),
        !is_blank(name),
        !has_dash(name),
        !has_dash(native_id),
    ensures
        id_rejection(SourceView::Custom(name), native_id) is None,
{
}

/// The short code of a source that passes the rules leads back to that
/// source.
pub proof fn lemma_short_code_round_trip(source: SourceView, native_id: Seq<char>)
    requires
        id_rejection(source, native_id) is None,
    ensures
        SourceView::of_short_code(source.short_code()) == source,
{
    if let SourceView::Reddit(sub) = source {
        let code = source.short_code();
        assert(code.subrange(0, 3) =~= seq!['r', 'd', '-']);
        assert(code.subrange(3, code.len() as int) =~= sub);
    }
}

/// In an identifier made of a code and a dash-free native identifier, the
/// last dash is the one that joins the two.
proof fn lemma_parts_of_equal_ids(
    code1: Seq<char>,
    native1: Seq<char>,
    code2: Seq<char>,
    native2: Seq<char>,
)
    requires
        !has_dash(native1),
        !has_dash(native2),
        code1 + seq!['-'] + native1 == code2 + seq!['-'] + native2,
    ensures
        code1 == code2,
        native1 == native2,
{
    let id1 = code1 + seq!['-'] + native1;
    let id2 = code2 + seq!['-'] + native2;
    if code1.len() < code2.len() {
        assert(id2[code2.len() as int] == '-');
    } else if code2.len() < code1.len() {
        assert(id1[code1.len() as int] == '-');
    }
    assert(code1 =~= id1.subrange(0, code1.len() as int));
    assert(native1 =~= id1.subrange((code1.len() + 1) as int, id1.len() as int));
}

/// Two articles share an identifier only if they have the same source and
/// the same native identifier: no source can pass for another.
pub proof fn lemma_ids_do_not_collide(
    source1: SourceView,
    native1: Seq<char>,
    source2: SourceView,
    native2: Seq<char>,
)
    requires
        id_rejection(source1, native1) is None,
        id_rejection(source2, native2) is None,
        id_text(source1, native1) == id_text(source2, native2),
    ensures
        source1 == source2,
        native1 == native2,
{
    lemma_parts_of_equal_ids(source1.short_code(), native1, source2.short_code(), native2);
    lemma_short_code_round_trip(source1, native1);
    lemma_short_code_round_trip(source2, native2);
}

/// Copies a set of tags.
///
/// Trusted: `HashSet::clone` of std returns a set with the same members.
#[verifier::external_body]
pub(crate) fn clone_tags(tags: &HashSet<String>) -> (copy: HashSet<String>)
    ensures
        copy@ == tags@,
{
    tags.clone()
}

/// An article as a source published it, with what has been learned of it
/// since.
#[derive(Debug)]
pub struct Article {
    pub id: ArticleId,
    pub title: String,
    pub url: String,
    pub source: Source,
    /// The base score, from 0 to 100, as the bits of an IEEE 754 double.
    pub score_bits: u64,
    pub author: String,
    /// When the article appeared, in seconds since the Unix epoch.
    pub timestamp: i64,
    pub tags: HashSet<String>,
    pub comment_count: u32,
    pub is_hot_on_source: bool,
}

/// An `Article` with its texts as sequences of characters.
pub struct ArticleView {
    pub id: Seq<char>,
    pub title: Seq<char>,
    pub url: Seq<char>,
    pub source: SourceView,
    pub score_bits: u64,
    pub author: Seq<char>,
    pub timestamp: i64,
    pub tags: Set<Seq<char>>,
    pub comment_count: u32,
    pub is_hot_on_source: bool,
}

/// The texts of a set of tags.
pub open spec fn tag_texts(tags: Set<String>) -> Set<Seq<char>> {
    tags.map(|tag: String| tag@)
}

impl View for Article {
    type V = ArticleView;

    open spec fn view(&self) -> ArticleView {
        ArticleView {
            id: self.id@,
            title: self.title@,
            url: self.url@,
            source: self.source@,
            score_bits: self.score_bits,
            author: self.author@,
            timestamp: self.timestamp,
            tags: tag_texts(self.tags@),
            comment_count: self.comment_count,
            is_hot_on_source: self.is_hot_on_source,
        }
    }
}

/// The views of a run of articles.
pub open spec fn article_views(articles: Seq<Article>) -> Seq<ArticleView> {
    articles.map_values(|a: Article| a@)
}

/// The article that ingestion makes of what a source says: no score, no
/// known author, no tags, no comments, not hot.
pub open spec fn new_article(
    source: SourceView,
    native_id: Seq<char>,
    title: Seq<char>,
    url: Seq<char>,
    timestamp: i64,
) -> ArticleView {
    ArticleView {
        id: id_text(source, native_id),
        title,
        url,
        source,
        score_bits: 0,
        author: "unknown"@,
        timestamp,
        tags: Set::empty(),
        comment_count: 0,
        is_hot_on_source: false,
    }
}

/// The age of something that appeared at `timestamp`, seen at `now`: the
/// seconds between the two, and 0 for what lies in the future.
pub open spec fn age_in_seconds(timestamp: i64, now: i64) -> int {
    if now > timestamp {
        now - timestamp
    } else {
        0
    }
}

impl Article {
    /// A new article, as ingestion first records it.
    pub fn new(source: Source, native_id: &str, title: String, url: String, timestamp: i64) -> (r:
        Result<Article, DomainError>)
        ensures
            match id_rejection(source@, native_id@) {
                Some(reason) => r matches Err(e) && e@ == ErrorView::Validation(reason),
                None => r matches Ok(article) && article@ == new_article(
                    source@,
                    native_id@,
                    title@,
                    url@,
                    timestamp,
                ),
            },
    {
        match ArticleId::new(&source, native_id) {
            Err(e) => Err(e),
            Ok(id) => {
                let article = Article {
                    id,
                    title,
                    url,
                    source,
                    score_bits: 0,
                    author: String::from_str("unknown"),
                    timestamp,
                    tags: HashSet::new(),
                    comment_count: 0,
                    is_hot_on_source: false,
                };
                assert(article@.tags =~= Set::empty());
                Ok(article)
            },
        }
    }

    /// The age that the score decays by: the seconds from the article's
    /// timestamp to `now`, and 0 for an article dated after `now`.
    pub fn age_seconds(&self, now: i64) -> (age: u64)
        ensures
            age == age_in_seconds(self.timestamp, now),
            now <= self.timestamp ==> age == 0,
    {
        if now > self.timestamp {
            if self.timestamp >= 0 {
                (now - self.timestamp) as u64
            } else {
                let back: u64 = (-(self.timestamp + 1)) as u64 + 1;
                if now >= 0 {
                    now as u64 + back
                } else {
                    back - ((-(now + 1)) as u64 + 1)
                }
            }
        } else {
            0
        }
    }
}

impl Clone for Article {
    fn clone(&self) -> (copy: Article)
        ensures
            copy@ == self@,
    {
        Article {
            id: self.id.clone(),
            title: self.title.clone(),
            url: self.url.clone(),
            source: self.source.clone(),
            score_bits: self.score_bits,
            author: self.author.clone(),
            timestamp: self.timestamp,
            tags: clone_tags(&self.tags),
            comment_count: self.comment_count,
            is_hot_on_source: self.is_hot_on_source,
        }
    }
}

/// An article seen before or at its own timestamp has the age that it has
/// at that timestamp, which is 0; and age never runs backwards.
pub proof fn lemma_age_is_clamped_and_monotonic(timestamp: i64, earlier: i64, later: i64)
    requires
        earlier <= later,
    ensures
        earlier <= timestamp ==> age_in_seconds(timestamp, earlier) == age_in_seconds(
            timestamp,
            timestamp,
        ),
        age_in_seconds(timestamp, earlier) <= age_in_seconds(timestamp, later),
{
}

} // verus!
