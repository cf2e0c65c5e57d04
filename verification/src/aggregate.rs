//! The trend scan: which keywords show in which titles.
//!
//! Matching ignores case and looks for the keyword anywhere in the title,
//! inside longer words too: "AI" is found in "mail".

use crate::article::{Article, ArticleId, ArticleView};
use crate::text::{chars_of, contains_text, is_substring, lowercase, to_lowercase};
use crate::trend::{trend_views, Trend, TrendReport, TrendView};
use std::collections::HashMap;
use vstd::prelude::*;

verus! {

/// An article as the scan reads it: its identifier, and its title in lower case.
pub struct Headline {
    pub id: ArticleId,
    pub title: Vec<char>,
}

/// A `Headline` with its texts as sequences of characters.
pub struct HeadlineView {
    pub id: Seq<char>,
    pub title: Seq<char>,
}

impl View for Headline {
    type V = HeadlineView;

    open spec fn view(&self) -> HeadlineView {
        HeadlineView { id: self.id@, title: self.title@ }
    }
}

/// A keyword as the scan reads it: as it was given, and in lower case.
pub struct Probe {
    pub keyword: String,
    pub folded: Vec<char>,
}

/// A `Probe` with its texts as sequences of characters.
pub struct ProbeView {
    pub keyword: Seq<char>,
    pub folded: Seq<char>,
}

impl View for Probe {
    type V = ProbeView;

    open spec fn view(&self) -> ProbeView {
        ProbeView { keyword: self.keyword@, folded: self.folded@ }
    }
}

/// The views of a run of headlines.
pub open spec fn headline_views(headlines: Seq<Headline>) -> Seq<HeadlineView> {
    headlines.map_values(|h: Headline| h@)
}

/// The views of a run of probes.
pub open spec fn probe_views(probes: Seq<Probe>) -> Seq<ProbeView> {
    probes.map_values(|p: Probe| p@)
}

/// What one article adds to the matches of `keyword`: its identifier, once
/// for each probe that carries this keyword and is found in the title.
pub open spec fn row_hits(headline: HeadlineView, probes: Seq<ProbeView>, keyword: Seq<char>) -> Seq<
    Seq<char>,
>
    decreases probes.len(),
{
    if probes.len() == 0 {
        Seq::empty()
    } else {
        let before = row_hits(headline, probes.drop_last(), keyword);
        let probe = probes.last();
        if probe.keyword == keyword && is_substring(probe.folded, headline.title) {
            before.push(headline.id)
        } else {
            before
        }
    }
}

/// The matches of `keyword`: the identifiers of the articles whose titles
/// hold it, in the order of the scan, which takes the articles one after
/// another and, for each, the probes one after another.
pub open spec fn scan_hits(
    headlines: Seq<HeadlineView>,
    probes: Seq<ProbeView>,
    keyword: Seq<char>,
) -> Seq<Seq<char>>
    decreases headlines.len(),
{
    if headlines.len() == 0 {
        Seq::empty()
    } else {
        scan_hits(headlines.drop_last(), probes, keyword) + row_hits(
            headlines.last(),
            probes,
            keyword,
        )
    }
}

/// `trend` records exactly the matches `hits`, and there is at least one.
pub open spec fn records(trend: TrendView, hits: Seq<Seq<char>>) -> bool {
    &&& hits.len() >= 1
    &&& trend.related_articles == hits
    &&& trend.volume == hits.len()
    &&& trend.score == 10 * hits.len()
    &&& trend.velocity == 0
}

/// No keyword has more matches than the volume of a trend can count.
pub open spec fn volumes_fit(headlines: Seq<HeadlineView>, probes: Seq<ProbeView>) -> bool {
    forall|keyword: Seq<char>|
        (#[trigger] scan_hits(headlines, probes, keyword)).len() <= u32::MAX
}

/// `trends` is what the scan of `headlines` for `probes` finds: one trend for
/// each keyword that matched at least once, none for the others, in any
/// order.
pub open spec fn is_tally(
    trends: Seq<TrendView>,
    headlines: Seq<HeadlineView>,
    probes: Seq<ProbeView>,
) -> bool {
    &&& forall|i: int|
        0 <= i < trends.len() ==> records(
            #[trigger] trends[i],
            scan_hits(headlines, probes, trends[i].keyword),
        )
    &&& forall|i: int, j: int|
        0 <= i < j < trends.len() ==> (#[trigger] trends[i]).keyword != (#[trigger] trends[j]).keyword
    &&& forall|keyword: Seq<char>|
        (#[trigger] scan_hits(headlines, probes, keyword)).len() > 0 ==> exists|i: int|
            0 <= i < trends.len() && (#[trigger] trends[i]).keyword == keyword
}

/// The articles whose titles hold the text of `probe`, in their order.
pub open spec fn matching(headlines: Seq<HeadlineView>, probe: ProbeView) -> Seq<HeadlineView> {
    headlines.filter(|h: HeadlineView| is_substring(probe.folded, h.title))
}

proof fn lemma_row_of_a_keyword_listed_once(
    headline: HeadlineView,
    probes: Seq<ProbeView>,
    k: int,
    upto: int,
)
    requires
        0 <= k < probes.len(),
        0 <= upto <= probes.len(),
        forall|j: int| 0 <= j < probes.len() && j != k ==> probes[j].keyword != probes[k].keyword,
    ensures
        row_hits(headline, probes.take(upto), probes[k].keyword) == if k < upto && is_substring(
            probes[k].folded,
            headline.title,
        ) {
            seq![headline.id]
        } else {
            Seq::empty()
        },
    decreases upto,
{
    if upto > 0 {
        lemma_row_of_a_keyword_listed_once(headline, probes, k, upto - 1);
        assert(probes.take(upto).drop_last() =~= probes.take(upto - 1));
    }
}

/// For a keyword that is listed once, the matches are the articles whose
/// titles hold it, each once and in their order: the volume of its trend is
/// the number of those articles.
pub proof fn lemma_hits_of_a_keyword_listed_once(
    headlines: Seq<HeadlineView>,
    probes: Seq<ProbeView>,
    k: int,
)
    requires
        0 <= k < probes.len(),
        forall|j: int| 0 <= j < probes.len() && j != k ==> probes[j].keyword != probes[k].keyword,
    ensures
        scan_hits(headlines, probes, probes[k].keyword) == matching(
            headlines,
            probes[k],
        ).map_values(|h: HeadlineView| h.id),
    decreases headlines.len(),
{
    reveal(Seq::filter);
    if headlines.len() > 0 {
        lemma_hits_of_a_keyword_listed_once(headlines.drop_last(), probes, k);
        lemma_row_of_a_keyword_listed_once(headlines.last(), probes, k, probes.len() as int);
        assert(probes.take(probes.len() as int) =~= probes);
    }
    assert(scan_hits(headlines, probes, probes[k].keyword) =~= matching(
        headlines,
        probes[k],
    ).map_values(|h: HeadlineView| h.id));
}

/// The matches of `keyword` when the scan has done `a` articles and, of the
/// next one, `k` probes.
spec fn partial_hits(
    headlines: Seq<HeadlineView>,
    probes: Seq<ProbeView>,
    a: int,
    k: int,
    keyword: Seq<char>,
) -> Seq<Seq<char>> {
    scan_hits(headlines.take(a), probes, keyword) + (if a < headlines.len() {
        row_hits(headlines[a], probes.take(k), keyword)
    } else {
        Seq::empty()
    })
}

spec fn tallied_at(
    trends: Seq<TrendView>,
    headlines: Seq<HeadlineView>,
    probes: Seq<ProbeView>,
    a: int,
    k: int,
) -> bool {
    &&& forall|i: int|
        0 <= i < trends.len() ==> records(
            #[trigger] trends[i],
            partial_hits(headlines, probes, a, k, trends[i].keyword),
        )
    &&& forall|i: int, j: int|
        0 <= i < j < trends.len() ==> (#[trigger] trends[i]).keyword != (#[trigger] trends[j]).keyword
    &&& forall|keyword: Seq<char>|
        (#[trigger] partial_hits(headlines, probes, a, k, keyword)).len() > 0 ==> exists|i: int|
            0 <= i < trends.len() && (#[trigger] trends[i]).keyword == keyword
}

proof fn lemma_row_hits_bound(headline: HeadlineView, probes: Seq<ProbeView>, keyword: Seq<char>)
    ensures
        row_hits(headline, probes, keyword).len() <= probes.len(),
    decreases probes.len(),
{
    if probes.len() > 0 {
        lemma_row_hits_bound(headline, probes.drop_last(), keyword);
    }
}

proof fn lemma_scan_hits_bound(
    headlines: Seq<HeadlineView>,
    probes: Seq<ProbeView>,
    keyword: Seq<char>,
)
    ensures
        scan_hits(headlines, probes, keyword).len() <= headlines.len() * probes.len(),
    decreases headlines.len(),
{
    if headlines.len() > 0 {
        lemma_scan_hits_bound(headlines.drop_last(), probes, keyword);
        lemma_row_hits_bound(headlines.last(), probes, keyword);
        assert(headlines.drop_last().len() * probes.len() + probes.len() == headlines.len()
            * probes.len()) by (nonlinear_arith)
            requires
                headlines.drop_last().len() + 1 == headlines.len(),
        ;
    }
}

/// Where there are no more pairs of an article and a keyword than a volume
/// can count, every volume fits.
pub proof fn lemma_small_scans_fit(headlines: Seq<HeadlineView>, probes: Seq<ProbeView>)
    requires
        headlines.len() * probes.len() <= u32::MAX,
    ensures
        volumes_fit(headlines, probes),
{
    assert forall|keyword: Seq<char>|
        (#[trigger] scan_hits(headlines, probes, keyword)).len() <= u32::MAX by {
        lemma_scan_hits_bound(headlines, probes, keyword);
    }
}

proof fn lemma_row_hits_grow(
    headline: HeadlineView,
    probes: Seq<ProbeView>,
    k: int,
    keyword: Seq<char>,
)
    requires
        0 <= k <= probes.len(),
    ensures
        row_hits(headline, probes.take(k), keyword).len() <= row_hits(
            headline,
            probes,
            keyword,
        ).len(),
    decreases probes.len(),
{
    if k == probes.len() {
        assert(probes.take(k) =~= probes);
    } else {
        lemma_row_hits_grow(headline, probes.drop_last(), k, keyword);
        assert(probes.drop_last().take(k) =~= probes.take(k));
    }
}

proof fn lemma_scan_hits_grow(
    headlines: Seq<HeadlineView>,
    probes: Seq<ProbeView>,
    a: int,
    keyword: Seq<char>,
)
    requires
        0 <= a <= headlines.len(),
    ensures
        scan_hits(headlines.take(a), probes, keyword).len() <= scan_hits(
            headlines,
            probes,
            keyword,
        ).len(),
    decreases headlines.len(),
{
    if a == headlines.len() {
        assert(headlines.take(a) =~= headlines);
    } else {
        lemma_scan_hits_grow(headlines.drop_last(), probes, a, keyword);
        assert(headlines.drop_last().take(a) =~= headlines.take(a));
    }
}

/// The matches found so far are among the matches of the whole scan.
proof fn lemma_partial_hits_grow(
    headlines: Seq<HeadlineView>,
    probes: Seq<ProbeView>,
    a: int,
    k: int,
    keyword: Seq<char>,
)
    requires
        0 <= a < headlines.len(),
        0 <= k <= probes.len(),
    ensures
        partial_hits(headlines, probes, a, k, keyword).len() <= scan_hits(
            headlines,
            probes,
            keyword,
        ).len(),
{
    lemma_row_hits_grow(headlines[a], probes, k, keyword);
    lemma_scan_hits_grow(headlines, probes, a + 1, keyword);
    assert(headlines.take(a + 1).drop_last() =~= headlines.take(a));
}

/// One more probe of the article in hand.
proof fn lemma_partial_hits_step(
    headlines: Seq<HeadlineView>,
    probes: Seq<ProbeView>,
    a: int,
    k: int,
    keyword: Seq<char>,
)
    requires
        0 <= a < headlines.len(),
        0 <= k < probes.len(),
    ensures
        partial_hits(headlines, probes, a, k + 1, keyword) == if probes[k].keyword == keyword
            && is_substring(probes[k].folded, headlines[a].title) {
            partial_hits(headlines, probes, a, k, keyword).push(headlines[a].id)
        } else {
            partial_hits(headlines, probes, a, k, keyword)
        },
{
    assert(probes.take(k + 1).drop_last() =~= probes.take(k));
}

/// The article in hand is done: on to the next.
proof fn lemma_partial_hits_next(
    headlines: Seq<HeadlineView>,
    probes: Seq<ProbeView>,
    a: int,
    keyword: Seq<char>,
)
    requires
        0 <= a < headlines.len(),
    ensures
        partial_hits(headlines, probes, a, probes.len() as int, keyword) == partial_hits(
            headlines,
            probes,
            a + 1,
            0,
            keyword,
        ),
{
    assert(probes.take(probes.len() as int) =~= probes);
    assert(headlines.take(a + 1).drop_last() =~= headlines.take(a));
}

proof fn lemma_tallied_next(
    trends: Seq<TrendView>,
    headlines: Seq<HeadlineView>,
    probes: Seq<ProbeView>,
    a: int,
)
    requires
        0 <= a < headlines.len(),
        tallied_at(trends, headlines, probes, a, probes.len() as int),
    ensures
        tallied_at(trends, headlines, probes, a + 1, 0),
{
    assert forall|keyword: Seq<char>|
        partial_hits(headlines, probes, a, probes.len() as int, keyword) == #[trigger] partial_hits(
            headlines,
            probes,
            a + 1,
            0,
            keyword,
        ) by {
        lemma_partial_hits_next(headlines, probes, a, keyword);
    }
}

proof fn lemma_tallied_end(
    trends: Seq<TrendView>,
    headlines: Seq<HeadlineView>,
    probes: Seq<ProbeView>,
)
    requires
        tallied_at(trends, headlines, probes, headlines.len() as int, 0),
    ensures
        is_tally(trends, headlines, probes),
{
    assert(headlines.take(headlines.len() as int) =~= headlines);
    assert(forall|keyword: Seq<char>|
        partial_hits(headlines, probes, headlines.len() as int, 0, keyword) == #[trigger] scan_hits(
            headlines,
            probes,
            keyword,
        ));
}

/// Where the scan can be tallied, every volume fits: a trend counts the
/// matches of its keyword, and the other keywords have none.
pub proof fn lemma_tallies_fit(
    trends: Seq<TrendView>,
    headlines: Seq<HeadlineView>,
    probes: Seq<ProbeView>,
)
    requires
        is_tally(trends, headlines, probes),
    ensures
        volumes_fit(headlines, probes),
{
}

/// With no article to scan, no keyword matches and no trend is found.
pub proof fn lemma_nothing_scanned_nothing_found(trends: Seq<TrendView>, probes: Seq<ProbeView>)
    requires
        is_tally(trends, Seq::<HeadlineView>::empty(), probes),
    ensures
        trends.len() == 0,
{
    if trends.len() > 0 {
        assert(records(
            trends[0],
            scan_hits(Seq::<HeadlineView>::empty(), probes, trends[0].keyword),
        ));
    }
}

fn find_trend(trends: &Vec<Trend>, keyword: &String) -> (found: Option<usize>)
    ensures
        match found {
            Some(i) => i < trends.len() && trends[i as int].keyword@ == keyword@,
            None => forall|j: int| 0 <= j < trends.len() ==> trends[j].keyword@ != keyword@,
        },
{
    let mut i: usize = 0;
    while i < trends.len()
        invariant
            i <= trends.len(),
            forall|j: int| 0 <= j < i ==> trends[j].keyword@ != keyword@,
        decreases trends.len() - i,
    {
        if trends[i].keyword == *keyword {
            return Some(i);
        }
        i += 1;
    }
    None
}

/// Scans the headlines for the probes and tallies, keyword by keyword, the
/// articles that match. There is no tally where a keyword has more matches
/// than the volume of a trend can count.
pub fn tally(headlines: &Vec<Headline>, probes: &Vec<Probe>) -> (r: Option<Vec<Trend>>)
    ensures
        r is Some == volumes_fit(headline_views(headlines@), probe_views(probes@)),
        r matches Some(trends) ==> is_tally(
            trend_views(trends@),
            headline_views(headlines@),
            probe_views(probes@),
        ),
        headlines.len() == 0 ==> (r matches Some(trends) && trends.len() == 0),
{
    let ghost hs = headline_views(headlines@);
    let ghost ps = probe_views(probes@);
    let mut trends: Vec<Trend> = Vec::new();
    let mut a: usize = 0;
    while a < headlines.len()
        invariant
            a <= headlines.len(),
            hs == headline_views(headlines@),
            ps == probe_views(probes@),
            tallied_at(trend_views(trends@), hs, ps, a as int, 0),
        decreases headlines.len() - a,
    {
        let headline = &headlines[a];
        let mut k: usize = 0;
        while k < probes.len()
            invariant
                a < headlines.len(),
                k <= probes.len(),
                hs == headline_views(headlines@),
                ps == probe_views(probes@),
                headline == headlines[a as int],
                tallied_at(trend_views(trends@), hs, ps, a as int, k as int),
            decreases probes.len() - k,
        {
            let probe = &probes[k];
            let ghost before = trend_views(trends@);
            let ghost w = probe.keyword@;
            proof {
                assert forall|keyword: Seq<char>|
                    #[trigger] partial_hits(hs, ps, a as int, k + 1, keyword) == if w == keyword
                        && is_substring(probe.folded@, headline.title@) {
                        partial_hits(hs, ps, a as int, k as int, keyword).push(headline.id@)
                    } else {
                        partial_hits(hs, ps, a as int, k as int, keyword)
                    } by {
                    lemma_partial_hits_step(hs, ps, a as int, k as int, keyword);
                }
            }
            if contains_text(&headline.title, &probe.folded) {
                match find_trend(&trends, &probe.keyword) {
                    Some(i) => {
                        proof {
                            assert(records(
                                before[i as int],
                                partial_hits(hs, ps, a as int, k as int, w),
                            ));
                        }
                        if trends[i].volume == u32::MAX {
                            proof {
                                lemma_partial_hits_grow(hs, ps, a as int, k + 1, w);
                            }
                            return None;
                        }
                        let trend = &mut trends[i];
                        trend.volume = trend.volume + 1;
                        trend.score = trend.score + 10;
                        trend.related_articles.push(headline.id.clone());
                        proof {
                            let after = trend_views(trends@);
                            let hits = partial_hits(hs, ps, a as int, k as int, w);
                            assert(after[i as int].related_articles =~= hits.push(headline.id@));
                            assert(forall|j: int|
                                0 <= j < after.len() && j != i ==> after[j] == before[j]);
                        }
                    },
                    None => {
                        let mut related: Vec<ArticleId> = Vec::new();
                        related.push(headline.id.clone());
                        trends.push(
                            Trend {
                                keyword: probe.keyword.clone(),
                                score: 10,
                                volume: 1,
                                velocity: 0,
                                related_articles: related,
                            },
                        );
                        proof {
                            let after = trend_views(trends@);
                            let hits = partial_hits(hs, ps, a as int, k as int, w);
                            assert(after.last().related_articles =~= hits.push(headline.id@));
                            assert(forall|j: int| 0 <= j < before.len() ==> after[j] == before[j]);
                        }
                    },
                }
            }
            k += 1;
        }
        proof {
            lemma_tallied_next(trend_views(trends@), hs, ps, a as int);
        }
        a += 1;
    }
    proof {
        lemma_tallied_end(trend_views(trends@), hs, ps);
        lemma_tallies_fit(trend_views(trends@), hs, ps);
        if headlines.len() == 0 {
            lemma_nothing_scanned_nothing_found(trend_views(trends@), ps);
        }
    }
    Some(trends)
}

/// The headline that the scan reads for an article.
pub open spec fn headline_of(article: ArticleView) -> HeadlineView {
    HeadlineView { id: article.id, title: lowercase(article.title) }
}

/// The probe that the scan makes of a keyword.
pub open spec fn probe_of(keyword: Seq<char>) -> ProbeView {
    ProbeView { keyword, folded: lowercase(keyword) }
}

/// The headlines that the scan reads for a run of articles.
pub open spec fn headlines_of(articles: Seq<Article>) -> Seq<HeadlineView> {
    articles.map_values(|a: Article| headline_of(a@))
}

/// The probes that the scan makes of a run of keywords.
pub open spec fn probes_of(keywords: Seq<String>) -> Seq<ProbeView> {
    keywords.map_values(|k: String| probe_of(k@))
}

/// How many articles a report looks at: the latest ones, up to this many.
pub const TREND_WINDOW: usize = 100;

/// `made` is what comes of reporting on `keywords` in the titles of
/// `articles` at `now`: the report with that date, no metadata and the tally
/// of the scan; or nothing, where a keyword has more matches than the volume
/// of a trend can count.
pub open spec fn is_outcome(
    made: Option<TrendReport>,
    articles: Seq<Article>,
    keywords: Seq<String>,
    now: i64,
) -> bool {
    match made {
        Some(report) => {
            &&& volumes_fit(headlines_of(articles), probes_of(keywords))
            &&& report.timestamp == now
            &&& report.metadata@ == Map::<String, String>::empty()
            &&& is_tally(report@.trends, headlines_of(articles), probes_of(keywords))
        },
        None => !volumes_fit(headlines_of(articles), probes_of(keywords)),
    }
}

/// The report on `keywords` in the titles of `articles`, dated `now`.
///
/// A keyword matches a title that holds it, whatever the case of either. Each
/// keyword that matches at least once gets one trend, with the matching
/// articles in the order of `articles`, one point of volume and ten of score
/// for each; keywords without a match get none. There is no report where a
/// keyword has more matches than a volume can count.
pub fn aggregate(articles: &Vec<Article>, keywords: &[String], now: i64) -> (made: Option<
    TrendReport,
>)
    ensures
        is_outcome(made, articles@, keywords@, now),
        articles.len() == 0 ==> (made matches Some(report) && report.trends.len() == 0),
{
    let mut headlines: Vec<Headline> = Vec::new();
    for i in 0..articles.len()
        invariant
            headlines.len() == i,
            forall|j: int| 0 <= j < i ==> headlines[j]@ == headline_of(articles[j]@),
    {
        let article = &articles[i];
        let folded = to_lowercase(article.title.as_str());
        headlines.push(Headline { id: article.id.clone(), title: chars_of(folded.as_str()) });
    }
    let mut probes: Vec<Probe> = Vec::new();
    for i in 0..keywords.len()
        invariant
            probes.len() == i,
            forall|j: int| 0 <= j < i ==> probes[j]@ == probe_of(keywords[j]@),
    {
        let keyword = &keywords[i];
        let folded = to_lowercase(keyword.as_str());
        probes.push(Probe { keyword: keyword.clone(), folded: chars_of(folded.as_str()) });
    }
    assert(headline_views(headlines@) =~= headlines_of(articles@));
    assert(probe_views(probes@) =~= probes_of(keywords@));
    match tally(&headlines, &probes) {
        Some(trends) => Some(TrendReport { timestamp: now, trends, metadata: HashMap::new() }),
        None => None,
    }
}

/// The report on what the article store handed over, or the store's own
/// failure where it handed over none.
pub fn report_on(
    window: Result<Vec<Article>, crate::error::DomainError>,
    keywords: &[String],
    now: i64,
) -> (r: Result<Option<TrendReport>, crate::error::DomainError>)
    ensures
        match window {
            Ok(articles) => r matches Ok(made) && is_outcome(made, articles@, keywords@, now) && (
            articles.len() == 0 ==> (made matches Some(report) && report.trends.len() == 0)),
            Err(e) => r == Err::<Option<TrendReport>, crate::error::DomainError>(e),
        },
{
    match window {
        Ok(articles) => Ok(aggregate(&articles, keywords, now)),
        Err(e) => Err(e),
    }
}

/// What the caller gets once the report store has answered: the report if
/// it was saved, and the store's failure, without the report, if it was not.
pub fn confirm(report: TrendReport, saved: Result<(), crate::error::DomainError>) -> (r: Result<
    TrendReport,
    crate::error::DomainError,
>)
    ensures
        match saved {
            Ok(_) => r == Ok::<TrendReport, crate::error::DomainError>(report),
            Err(e) => r == Err::<TrendReport, crate::error::DomainError>(e),
        },
{
    match saved {
        Ok(_) => Ok(report),
        Err(e) => Err(e),
    }
}

} // verus!
