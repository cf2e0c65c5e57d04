//! What Hacker News says of a story, and the article that is made of it.

use crate::article::{article_views, new_article, Article, ArticleView, Source, SourceView};
use crate::text::{decimal, decimal_string, lemma_decimal_has_no_dash};
use vstd::prelude::*;

verus! {

/// A story as Hacker News describes it. All but the number may be missing.
#[derive(Debug)]
pub struct HnItem {
    pub id: u64,
    pub title: Option<String>,
    pub url: Option<String>,
    /// When the story was posted, in seconds since the Unix epoch.
    pub time: Option<i64>,
}

/// An `HnItem` with its texts as sequences of characters.
pub struct HnItemView {
    pub id: u64,
    pub title: Option<Seq<char>>,
    pub url: Option<Seq<char>>,
    pub time: Option<i64>,
}

/// The text that `s` holds, if it holds one.
pub open spec fn text_of(s: Option<String>) -> Option<Seq<char>> {
    match s {
        Some(text) => Some(text@),
        None => None,
    }
}

impl View for HnItem {
    type V = HnItemView;

    open spec fn view(&self) -> HnItemView {
        HnItemView {
            id: self.id,
            title: text_of(self.title),
            url: text_of(self.url),
            time: self.time,
        }
    }
}

/// The page of Hacker News on the story with the number `id`.
pub open spec fn permalink(id: u64) -> Seq<char> {
    "https://news.ycombinator.com/item?id="@ + decimal(id as nat)
}

/// Where Hacker News describes the story with the number `id`.
pub open spec fn item_address(id: u64) -> Seq<char> {
    "https://hacker-news.firebaseio.com/v0/item/"@ + decimal(id as nat) + ".json"@
}

/// The article that is made of a story: none of a story without a title;
/// a story without an address gets its page on Hacker News, and one without
/// a time gets the time 0.
pub open spec fn article_of_item(item: HnItemView) -> Option<ArticleView> {
    match item.title {
        None => None,
        Some(title) => Some(
            new_article(
                SourceView::HackerNews,
                decimal(item.id as nat),
                title,
                match item.url {
                    Some(url) => url,
                    None => permalink(item.id),
                },
                match item.time {
                    Some(time) => time,
                    None => 0,
                },
            ),
        ),
    }
}

/// The articles that are made of the answers to a run of requests, in the
/// order of the requests. A request that failed left `None` and gives no
/// article, and neither does a story without a title.
pub open spec fn articles_of_items(items: Seq<Option<HnItemView>>) -> Seq<ArticleView>
    decreases items.len(),
{
    if items.len() == 0 {
        Seq::empty()
    } else {
        let before = articles_of_items(items.drop_last());
        match items.last() {
            Some(item) => match article_of_item(item) {
                Some(article) => before.push(article),
                None => before,
            },
            None => before,
        }
    }
}

/// The view of what one request brought.
pub open spec fn answer_view(answer: Option<HnItem>) -> Option<HnItemView> {
    match answer {
        Some(item) => Some(item@),
        None => None,
    }
}

/// The views of what a run of requests brought.
pub open spec fn answer_views(answers: Seq<Option<HnItem>>) -> Seq<Option<HnItemView>> {
    answers.map_values(|answer: Option<HnItem>| answer_view(answer))
}

/// Where the numbers of the top stories are listed.
pub fn top_stories_address() -> (address: &'static str)
    ensures
        address@ == "https://hacker-news.firebaseio.com/v0/topstories.json"@,
{
    "https://hacker-news.firebaseio.com/v0/topstories.json"
}

/// Where Hacker News describes the story with the number `id`.
pub fn item_url(id: u64) -> (address: String)
    ensures
        address@ == item_address(id),
{
    let mut address = String::from_str("https://hacker-news.firebaseio.com/v0/item/");
    let number = decimal_string(id);
    address.append(number.as_str());
    address.append(".json");
    address
}

/// The stories to ask for: the first `limit` of the top stories, or all of
/// them where there are fewer.
pub fn ids_to_fetch(top_ids: Vec<u64>, limit: usize) -> (ids: Vec<u64>)
    ensures
        ids@ == top_ids@.take(
            if limit <= top_ids.len() {
                limit as int
            } else {
                top_ids.len() as int
            },
        ),
{
    let mut ids = top_ids;
    if limit < ids.len() {
        ids.truncate(limit);
    }
    assert(ids@ =~= top_ids@.take(
        if limit <= top_ids.len() {
            limit as int
        } else {
            top_ids.len() as int
        },
    ));
    ids
}

/// The article that is made of a story.
pub fn article_from_item(item: HnItem) -> (made: Option<Article>)
    ensures
        match article_of_item(item@) {
            Some(article) => made matches Some(a) && a@ == article,
            None => made is None,
        },
{
    let id = item.id;
    match item.title {
        None => None,
        Some(title) => {
            let url = match item.url {
                Some(url) => url,
                None => {
                    let mut page = String::from_str("https://news.ycombinator.com/item?id=");
                    let number = decimal_string(id);
                    page.append(number.as_str());
                    page
                },
            };
            let timestamp = match item.time {
                Some(time) => time,
                None => 0,
            };
            let native_id = decimal_string(id);
            proof {
                lemma_decimal_has_no_dash(id as nat);
            }
            match Article::new(Source::HackerNews, native_id.as_str(), title, url, timestamp) {
                Ok(article) => Some(article),
                Err(_) => None,
            }
        },
    }
}

/// The articles that are made of the answers to a run of requests.
pub fn articles_from_items(items: Vec<Option<HnItem>>) -> (articles: Vec<Article>)
    ensures
        article_views(articles@) == articles_of_items(answer_views(items@)),
{
    let ghost answers = answer_views(items@);
    let mut articles: Vec<Article> = Vec::new();
    for answer in it: items
        invariant
            it.seq() == items@,
            answers == answer_views(items@),
            article_views(articles@) == articles_of_items(answers.take(it.index())),
    {
        proof {
            assert(answers.take(it.index() + 1).drop_last() =~= answers.take(it.index()));
        }
        if let Some(item) = answer {
            if let Some(article) = article_from_item(item) {
                articles.push(article);
            }
        }
    }
    proof {
        assert(answers.take(answers.len() as int) =~= answers);
    }
    articles
}

} // verus!
