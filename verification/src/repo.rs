//! Stores that live in memory. They answer every request.
//!
//! Each store has one owner. A program that shares one among callers puts
//! it behind a lock of its own.

use crate::article::{article_views, Article, ArticleId, ArticleView};
use crate::error::DomainError;
use crate::ranking::{highest_first, is_ranking, lemma_top_of_ranking, lists};
use crate::repository::{event_views, ArticleRepo, TimelineRepo, TrendRepo, UserRepo};
use crate::text_map::{lemma_key_count, lemma_key_position, TextMap};
use crate::trend::{
    lemma_rank_follows_the_calendar, TimelineEvent, TimelineEventView, TrendReport, TrendReportView,
};
use crate::user::{UserId, UserProfile, UserProfileView};
use vstd::prelude::*;

verus! {

/// The articles, each under its identifier.
#[derive(Debug)]
pub struct InMemoryArticleRepo {
    store: TextMap<Article>,
}

impl InMemoryArticleRepo {
    #[verifier::type_invariant]
    spec fn filed_by_id(self) -> bool {
        &&& self.store.well_formed()
        &&& forall|i: int|
            0 <= i < self.store.keys().len() ==> (#[trigger] self.store.values()[i]).id@
                == self.store.keys()[i]
    }

    /// The stored articles, by identifier.
    pub closed spec fn view(self) -> Map<Seq<char>, ArticleView> {
        self.store@.map_values(|a: Article| a@)
    }

    /// The identifiers of the stored articles, in the order in which each
    /// was first saved.
    pub closed spec fn saving_order(self) -> Seq<Seq<char>> {
        self.store.keys()
    }

    /// A store with nothing in it.
    pub fn new() -> (repo: InMemoryArticleRepo)
        ensures
            repo@ == Map::<Seq<char>, ArticleView>::empty(),
            repo.saving_order() == Seq::<Seq<char>>::empty(),
    {
        InMemoryArticleRepo { store: TextMap::new() }
    }
}

impl Default for InMemoryArticleRepo {
    fn default() -> (repo: InMemoryArticleRepo)
        ensures
            repo@ == Map::<Seq<char>, ArticleView>::empty(),
    {
        InMemoryArticleRepo::new()
    }
}

impl ArticleRepo for InMemoryArticleRepo {
    open spec fn stored(&self) -> Map<Seq<char>, ArticleView> {
        self@
    }

    open spec fn always_answers(&self) -> bool {
        true
    }

    /// Stores a copy of `article`. An identifier that is saved again keeps
    /// its place in the saving order.
    fn save(&mut self, article: &Article) -> (r: Result<(), DomainError>)
        ensures
            final(self).saving_order() == if old(self)@.contains_key(article.id@) {
                old(self).saving_order()
            } else {
                old(self).saving_order().push(article.id@)
            },
    {
        proof {
            use_type_invariant(&*self);
        }
        let mut store: TextMap<Article> = TextMap::new();
        std::mem::swap(&mut self.store, &mut store);
        store.insert(article.id.to_string(), article.clone());
        std::mem::swap(&mut self.store, &mut store);
        Ok(())
    }

    fn find_by_id(&self, id: &ArticleId) -> (r: Result<Option<Article>, DomainError>) {
        let key = id.to_string();
        match self.store.get(key.as_str()) {
            Some(article) => Ok(Some(article.clone())),
            None => Ok(None),
        }
    }

    /// Of several articles of one timestamp, the one that was saved first
    /// comes first.
    fn find_latest(&self, limit: usize) -> (r: Result<Vec<Article>, DomainError>)
        ensures
            r matches Ok(latest) ==> forall|i: int, j: int|
                0 <= i < j < latest.len() && latest[i].timestamp == latest[j].timestamp
                    ==> self.saving_order().index_of(latest[i].id@) < self.saving_order().index_of(
                    latest[j].id@,
                ),
    {
        proof {
            use_type_invariant(self);
        }
        let n = self.store.len();
        let ghost values = self.store.values();
        let mut ranks: Vec<i128> = Vec::new();
        for i in 0..n
            invariant
                n == self.store.keys().len(),
                values == self.store.values(),
                ranks.len() == i,
                forall|j: int| 0 <= j < i ==> ranks[j] == values[j].timestamp,
        {
            ranks.push(self.store.value_at(i).timestamp as i128);
        }
        let order = highest_first(&ranks);
        let mut latest: Vec<Article> = Vec::new();
        let mut q: usize = 0;
        while q < n && q < limit
            invariant
                n == self.store.keys().len(),
                values == self.store.values(),
                is_ranking(order@, ranks@),
                ranks.len() == n,
                q <= n,
                q <= limit,
                latest.len() == q,
                forall|x: int| 0 <= x < q ==> (#[trigger] latest[x])@ == values[order[x] as int]@,
            decreases n - q,
        {
            latest.push(self.store.value_at(order[q]).clone());
            q += 1;
        }
        proof {
            let stored = self@;
            let found = article_views(latest@);
            lemma_key_count(self.store);
            lemma_top_of_ranking(order@, ranks@, q as int);
            assert(stored.dom() =~= self.store@.dom());
            assert forall|key: Seq<char>| #[trigger] stored.contains_key(key) implies (exists|
                x: int,
            |
                0 <= x < found.len() && (#[trigger] found[x]).id == key) || (forall|x: int|
                0 <= x < found.len() ==> stored[key].timestamp <= (
                #[trigger] found[x]).timestamp) by {
                lemma_key_position(self.store, key);
                let j = self.store.index_of(key);
                if lists(order@.take(q as int), j) {
                    let at = choose|at: int|
                        0 <= at < order@.take(q as int).len() && #[trigger] order@.take(
                            q as int,
                        )[at] == j;
                    assert(found[at].id == key);
                }
            }
        }
        Ok(latest)
    }
}

/// The users, each under its identifier.
#[derive(Debug)]
pub struct InMemoryUserRepo {
    store: TextMap<UserProfile>,
}

impl InMemoryUserRepo {
    /// The stored users, by identifier.
    pub closed spec fn view(self) -> Map<Seq<char>, UserProfileView> {
        self.store@.map_values(|u: UserProfile| u@)
    }

    /// A store with nothing in it.
    pub fn new() -> (repo: InMemoryUserRepo)
        ensures
            repo@ == Map::<Seq<char>, UserProfileView>::empty(),
    {
        InMemoryUserRepo { store: TextMap::new() }
    }
}

impl Default for InMemoryUserRepo {
    fn default() -> (repo: InMemoryUserRepo)
        ensures
            repo@ == Map::<Seq<char>, UserProfileView>::empty(),
    {
        InMemoryUserRepo::new()
    }
}

impl UserRepo for InMemoryUserRepo {
    open spec fn stored(&self) -> Map<Seq<char>, UserProfileView> {
        self@
    }

    open spec fn always_answers(&self) -> bool {
        true
    }

    /// Stores a copy of `user`.
    fn save(&mut self, user: &UserProfile) -> (r: Result<(), DomainError>) {
        self.store.insert(user.id.to_string(), user.clone());
        Ok(())
    }

    fn find_by_id(&self, id: &UserId) -> (r: Result<Option<UserProfile>, DomainError>) {
        let key = id.to_string();
        match self.store.get(key.as_str()) {
            Some(user) => Ok(Some(user.clone())),
            None => Ok(None),
        }
    }
}

/// The views of a run of reports.
pub open spec fn report_views(reports: Seq<TrendReport>) -> Seq<TrendReportView> {
    reports.map_values(|r: TrendReport| r@)
}

/// Where the latest report stands: the last of those with the greatest
/// timestamp.
pub open spec fn latest_index(reports: Seq<TrendReportView>) -> int
    decreases reports.len(),
{
    if reports.len() <= 1 {
        0
    } else {
        let earlier = latest_index(reports.drop_last());
        if reports.last().timestamp >= reports[earlier].timestamp {
            reports.len() - 1
        } else {
            earlier
        }
    }
}

/// The latest report has the greatest timestamp of all, wherever it stands.
pub proof fn lemma_latest_is_newest(reports: Seq<TrendReportView>)
    requires
        reports.len() > 0,
    ensures
        0 <= latest_index(reports) < reports.len(),
        forall|i: int|
            0 <= i < reports.len() ==> (#[trigger] reports[i]).timestamp
                <= reports[latest_index(reports)].timestamp,
    decreases reports.len(),
{
    if reports.len() > 1 {
        let head = reports.drop_last();
        lemma_latest_is_newest(head);
        assert forall|i: int| 0 <= i < reports.len() implies (#[trigger] reports[i]).timestamp
            <= reports[latest_index(reports)].timestamp by {
            if i < head.len() {
                assert(head[i] == reports[i]);
            }
        }
    }
}

/// The reports, in the order in which they were saved.
#[derive(Debug)]
pub struct InMemoryTrendRepo {
    reports: Vec<TrendReport>,
}

impl InMemoryTrendRepo {
    /// The saved reports, in the order in which they were saved.
    pub closed spec fn view(self) -> Seq<TrendReportView> {
        report_views(self.reports@)
    }

    /// A store with nothing in it.
    pub fn new() -> (repo: InMemoryTrendRepo)
        ensures
            repo@ == Seq::<TrendReportView>::empty(),
    {
        InMemoryTrendRepo { reports: Vec::new() }
    }
}

impl Default for InMemoryTrendRepo {
    fn default() -> (repo: InMemoryTrendRepo)
        ensures
            repo@ == Seq::<TrendReportView>::empty(),
    {
        InMemoryTrendRepo::new()
    }
}

impl TrendRepo for InMemoryTrendRepo {
    open spec fn saved(&self) -> Seq<TrendReportView> {
        self@
    }

    open spec fn always_answers(&self) -> bool {
        true
    }

    /// Adds a copy of `report`.
    fn save_report(&mut self, report: &TrendReport) -> (r: Result<(), DomainError>) {
        self.reports.push(report.clone());
        Ok(())
    }

    /// Of several reports with the greatest timestamp, the one saved last.
    fn find_latest_report(&self) -> (r: Result<Option<TrendReport>, DomainError>)
        ensures
            r matches Ok(Some(report)) ==> report@ == self@[latest_index(self@)],
    {
        let n = self.reports.len();
        if n == 0 {
            return Ok(None);
        }
        let mut best: usize = 0;
        let mut i: usize = 1;
        while i < n
            invariant
                n == self.reports.len(),
                1 <= i <= n,
                best == latest_index(self@.take(i as int)),
                best < i,
            decreases n - i,
        {
            proof {
                assert(self@.take(i + 1).drop_last() =~= self@.take(i as int));
            }
            if self.reports[i].timestamp >= self.reports[best].timestamp {
                best = i;
            }
            i += 1;
        }
        proof {
            assert(self@.take(n as int) =~= self@);
            lemma_latest_is_newest(self@);
        }
        Ok(Some(self.reports[best].clone()))
    }
}

/// The events of the timeline, each under its identifier.
#[derive(Debug)]
pub struct InMemoryTimelineRepo {
    events: TextMap<TimelineEvent>,
}

impl InMemoryTimelineRepo {
    #[verifier::type_invariant]
    spec fn filed_by_id(self) -> bool {
        &&& self.events.well_formed()
        &&& forall|i: int|
            0 <= i < self.events.keys().len() ==> (#[trigger] self.events.values()[i]).id@
                == self.events.keys()[i]
    }

    /// The stored events, by identifier.
    pub closed spec fn view(self) -> Map<Seq<char>, TimelineEventView> {
        self.events@.map_values(|e: TimelineEvent| e@)
    }

    /// A store with nothing in it.
    pub fn new() -> (repo: InMemoryTimelineRepo)
        ensures
            repo@ == Map::<Seq<char>, TimelineEventView>::empty(),
    {
        InMemoryTimelineRepo { events: TextMap::new() }
    }
}

impl Default for InMemoryTimelineRepo {
    fn default() -> (repo: InMemoryTimelineRepo)
        ensures
            repo@ == Map::<Seq<char>, TimelineEventView>::empty(),
    {
        InMemoryTimelineRepo::new()
    }
}

impl TimelineRepo for InMemoryTimelineRepo {
    open spec fn stored(&self) -> Map<Seq<char>, TimelineEventView> {
        self@
    }

    open spec fn always_answers(&self) -> bool {
        true
    }

    /// Stores a copy of `event`.
    fn save_event(&mut self, event: &TimelineEvent) -> (r: Result<(), DomainError>) {
        proof {
            use_type_invariant(&*self);
        }
        let mut events: TextMap<TimelineEvent> = TextMap::new();
        std::mem::swap(&mut self.events, &mut events);
        events.insert(event.id.to_string(), event.clone());
        std::mem::swap(&mut self.events, &mut events);
        Ok(())
    }

    fn list_events(&self) -> (r: Result<Vec<TimelineEvent>, DomainError>) {
        proof {
            use_type_invariant(self);
        }
        let n = self.events.len();
        let ghost values = self.events.values();
        let mut ranks: Vec<i128> = Vec::new();
        for i in 0..n
            invariant
                n == self.events.keys().len(),
                values == self.events.values(),
                ranks.len() == i,
                forall|j: int| 0 <= j < i ==> ranks[j] == values[j].date.spec_rank(),
        {
            ranks.push(self.events.value_at(i).date.rank());
        }
        let order = highest_first(&ranks);
        let mut listed: Vec<TimelineEvent> = Vec::new();
        let mut q: usize = 0;
        while q < n
            invariant
                n == self.events.keys().len(),
                values == self.events.values(),
                is_ranking(order@, ranks@),
                ranks.len() == n,
                q <= n,
                listed.len() == q,
                forall|x: int| 0 <= x < q ==> (#[trigger] listed[x])@ == values[order[x] as int]@,
            decreases n - q,
        {
            listed.push(self.events.value_at(order[q]).clone());
            q += 1;
        }
        proof {
            let stored = self@;
            let found = event_views(listed@);
            lemma_key_count(self.events);
            lemma_top_of_ranking(order@, ranks@, n as int);
            assert(stored.dom() =~= self.events@.dom());
            assert forall|x: int, y: int| 0 <= x < y < found.len() implies !(
            #[trigger] found[y]).date.is_after((#[trigger] found[x]).date) by {
                lemma_rank_follows_the_calendar(found[y].date, found[x].date);
            }
            assert forall|key: Seq<char>| #[trigger] stored.contains_key(key) implies exists|
                x: int,
            |
                0 <= x < found.len() && (#[trigger] found[x]).id == key by {
                lemma_key_position(self.events, key);
                let j = self.events.index_of(key);
                assert(lists(order@, j));
                let at = choose|at: int| 0 <= at < order.len() && #[trigger] order[at] == j;
                assert(found[at].id == key);
            }
        }
        Ok(listed)
    }
}

} // verus!
