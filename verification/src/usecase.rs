//! The operations of the service, on whatever stores it is given.

use crate::aggregate::{
    confirm, headlines_of, is_outcome, lemma_small_scans_fit, probes_of, report_on, TREND_WINDOW,
};
use crate::article::{article_views, Article, ArticleView};
use crate::error::DomainError;
use crate::http::{bounded_limit, shown, ArticleDto, FeedQuery, FeedResponse};
use crate::ingest::{next_step, IngestStep};
use crate::repository::{is_latest_of, ArticleRepo, TrendRepo};
use crate::trend::TrendReport;
use vstd::prelude::*;

verus! {

/// The store after the articles have been saved one after another.
pub open spec fn saved_all(
    stored: Map<Seq<char>, ArticleView>,
    articles: Seq<ArticleView>,
) -> Map<Seq<char>, ArticleView>
    decreases articles.len(),
{
    if articles.len() == 0 {
        stored
    } else {
        saved_all(stored, articles.drop_last()).insert(articles.last().id, articles.last())
    }
}

/// `after` is the store `before` with some of the articles saved: the first
/// ones, one after another, and not all of them.
pub open spec fn saved_some(
    before: Map<Seq<char>, ArticleView>,
    after: Map<Seq<char>, ArticleView>,
    articles: Seq<ArticleView>,
) -> bool {
    exists|done: int|
        0 <= done < articles.len() && after == saved_all(before, #[trigger] articles.take(done))
}

/// Saves what was fetched, article by article, and says how many articles
/// were fetched.
///
/// Where nothing could be fetched, nothing is saved and the failure of the
/// fetch is returned. The first save that fails ends the run with its
/// failure: the articles before it stay saved, the others are not tried.
pub fn ingest<R: ArticleRepo>(fetched: Result<Vec<Article>, DomainError>, articles: &mut R) -> (r:
    Result<usize, DomainError>)
    ensures
        final(articles).always_answers() == old(articles).always_answers(),
        match fetched {
            Err(e) => r == Err::<usize, DomainError>(e) && final(articles).stored() == old(
                articles,
            ).stored(),
            Ok(batch) => match r {
                Ok(count) => count == batch.len() && final(articles).stored() == saved_all(
                    old(articles).stored(),
                    article_views(batch@),
                ),
                Err(_) => !old(articles).always_answers() && saved_some(
                    old(articles).stored(),
                    final(articles).stored(),
                    article_views(batch@),
                ),
            },
        },
{
    let batch = match fetched {
        Ok(batch) => batch,
        Err(e) => {
            return Err(e);
        },
    };
    let ghost views = article_views(batch@);
    let mut saved: usize = 0;
    let mut last: Result<(), DomainError> = Ok(());
    loop
        invariant
            saved <= batch.len(),
            fetched == Ok::<Vec<Article>, DomainError>(batch),
            views == article_views(batch@),
            articles.always_answers() == old(articles).always_answers(),
            last is Ok ==> articles.stored() == saved_all(
                old(articles).stored(),
                views.take(saved as int),
            ),
            last is Err ==> !old(articles).always_answers() && saved_some(
                old(articles).stored(),
                articles.stored(),
                views,
            ),
        decreases
            batch.len() - saved + if last is Ok {
                1int
            } else {
                0int
            },
    {
        match next_step(batch.len(), saved, last) {
            IngestStep::Save(i) => {
                proof {
                    assert(views.take(i + 1).drop_last() =~= views.take(i as int));
                }
                last = articles.save(&batch[i]);
                if last.is_ok() {
                    saved += 1;
                }
            },
            IngestStep::Done(outcome) => {
                proof {
                    assert(views.take(batch.len() as int) =~= views);
                }
                return outcome;
            },
        }
    }
}

/// The feed for `query`: the newest articles, newest first, as many as the
/// query asks for within the bounds.
pub fn get_feed<R: ArticleRepo>(articles: &R, query: &FeedQuery) -> (r: Result<
    FeedResponse,
    DomainError,
>)
    ensures
        articles.always_answers() ==> r is Ok,
        r matches Ok(response) ==> exists|latest: Seq<ArticleView>|
            is_latest_of(latest, articles.stored(), bounded_limit(query.limit) as nat)
                && response.articles@.map_values(|dto: ArticleDto| dto@) == latest.map_values(
                |a: ArticleView| shown(a),
            ),
{
    let latest = match articles.find_latest(query.effective_limit()) {
        Ok(latest) => latest,
        Err(e) => {
            return Err(e);
        },
    };
    let ghost views = article_views(latest@);
    let response = FeedResponse::of(latest);
    proof {
        assert(response.articles@.map_values(|dto: ArticleDto| dto@) =~= views.map_values(
            |a: ArticleView| shown(a),
        ));
    }
    Ok(response)
}

/// Computes the report on `keywords` in the newest articles, a hundred of
/// them at most, and saves it.
///
/// The report is returned only if it was saved. Where the articles cannot
/// be read, no report is computed or saved; where the report cannot be
/// saved, it is dropped; either way the failure of the store is returned.
/// Where a keyword has more matches than the volume of a trend can count,
/// there is no report and nothing is saved; with fewer than forty million
/// keywords that cannot be.
pub fn calculate_trends<A: ArticleRepo, T: TrendRepo>(
    articles: &A,
    reports: &mut T,
    keywords: &[String],
    now: i64,
) -> (r: Result<Option<TrendReport>, DomainError>)
    ensures
        final(reports).always_answers() == old(reports).always_answers(),
        articles.always_answers() && old(reports).always_answers() ==> r is Ok,
        match r {
            Ok(made) => {
                &&& exists|window: Seq<Article>|
                    is_latest_of(article_views(window), articles.stored(), TREND_WINDOW as nat)
                        && is_outcome(made, window, keywords@, now)
                &&& match made {
                    Some(report) => final(reports).saved() == old(reports).saved().push(report@),
                    None => final(reports).saved() == old(reports).saved(),
                }
                &&& articles.stored() == Map::<Seq<char>, ArticleView>::empty() ==> (
                made matches Some(report) && report.trends.len() == 0)
            },
            Err(_) => final(reports).saved() == old(reports).saved(),
        },
        TREND_WINDOW * keywords.len() <= u32::MAX ==> !(r matches Ok(None)),
{
    let window = articles.find_latest(TREND_WINDOW);
    proof {
        if window is Ok && TREND_WINDOW * keywords.len() <= u32::MAX {
            let found = window->Ok_0;
            assert(found.len() * keywords.len() <= u32::MAX) by (nonlinear_arith)
                requires
                    found.len() <= TREND_WINDOW,
                    TREND_WINDOW * keywords.len() <= u32::MAX,
            ;
            lemma_small_scans_fit(headlines_of(found@), probes_of(keywords@));
        }
    }
    let report = match report_on(window, keywords, now) {
        Ok(Some(report)) => report,
        Ok(None) => {
            return Ok(None);
        },
        Err(e) => {
            return Err(e);
        },
    };
    let saved = reports.save_report(&report);
    match confirm(report, saved) {
        Ok(report) => Ok(Some(report)),
        Err(e) => Err(e),
    }
}

} // verus!
