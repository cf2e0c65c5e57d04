//! The stores that the service relies on, by what it asks of them.
//!
//! A store may fail at any request, and then says why. A write that fails
//! has written nothing.

use crate::article::{article_views, Article, ArticleId, ArticleView};
use crate::error::DomainError;
use crate::trend::{TimelineEvent, TimelineEventView, TrendReport, TrendReportView};
use crate::user::{UserId, UserProfile, UserProfileView};
use vstd::prelude::*;

verus! {

/// `latest` holds the newest of the `stored` articles, newest first, and no
/// more than `limit` of them: as many as there are, up to the limit; each as
/// it is stored and none twice; and whatever is left out is no newer than
/// anything that is in. Which of several articles of one timestamp comes
/// first is left open.
pub open spec fn is_latest_of(
    latest: Seq<ArticleView>,
    stored: Map<Seq<char>, ArticleView>,
    limit: nat,
) -> bool {
    &&& stored.dom().finite()
    &&& latest.len() == if limit <= stored.dom().len() {
        limit
    } else {
        stored.dom().len()
    }
    &&& forall|i: int, j: int|
        0 <= i < j < latest.len() ==> (#[trigger] latest[i]).timestamp >= (
        #[trigger] latest[j]).timestamp
    &&& forall|i: int|
        0 <= i < latest.len() ==> stored.contains_key((#[trigger] latest[i]).id)
            && stored[latest[i].id] == latest[i]
    &&& forall|i: int, j: int|
        0 <= i < j < latest.len() ==> (#[trigger] latest[i]).id != (#[trigger] latest[j]).id
    &&& forall|key: Seq<char>|
        #[trigger] stored.contains_key(key) ==> (exists|i: int|
            0 <= i < latest.len() && (#[trigger] latest[i]).id == key) || (forall|i: int|
            0 <= i < latest.len() ==> stored[key].timestamp <= (#[trigger] latest[i]).timestamp)
}

/// A store of articles, each under its identifier.
pub trait ArticleRepo {
    /// The stored articles, by identifier.
    spec fn stored(&self) -> Map<Seq<char>, ArticleView>;

    /// Whether the store answers every request.
    spec fn always_answers(&self) -> bool;

    /// Stores `article` under its identifier, in place of whatever was
    /// stored under it before: nothing of that is kept.
    fn save(&mut self, article: &Article) -> (r: Result<(), DomainError>)
        ensures
            final(self).always_answers() == old(self).always_answers(),
            old(self).always_answers() ==> r is Ok,
            r is Ok ==> final(self).stored() == old(self).stored().insert(article.id@, article@),
            r is Err ==> final(self).stored() == old(self).stored(),
    ;

    /// The article stored under `id`, if there is one.
    fn find_by_id(&self, id: &ArticleId) -> (r: Result<Option<Article>, DomainError>)
        ensures
            self.always_answers() ==> r is Ok,
            r matches Ok(found) ==> match found {
                Some(article) => self.stored().contains_key(id@) && article@ == self.stored()[id@],
                None => !self.stored().contains_key(id@),
            },
    ;

    /// The newest articles, newest first, `limit` of them at most.
    fn find_latest(&self, limit: usize) -> (r: Result<Vec<Article>, DomainError>)
        ensures
            self.always_answers() ==> r is Ok,
            r matches Ok(latest) ==> is_latest_of(
                article_views(latest@),
                self.stored(),
                limit as nat,
            ),
            r matches Ok(latest) ==> latest.len() <= limit && forall|i: int, j: int|
                0 <= i < j < latest.len() ==> latest[i].timestamp >= latest[j].timestamp,
    ;
}

/// Saving an article again under its identifier leaves nothing of what was
/// stored before: the store is as if the first save had never been made,
/// and the article read back is the one that was saved last.
pub proof fn lemma_resave_replaces(
    stored: Map<Seq<char>, ArticleView>,
    first: ArticleView,
    second: ArticleView,
)
    requires
        first.id == second.id,
    ensures
        stored.insert(first.id, first).insert(second.id, second) == stored.insert(
            second.id,
            second,
        ),
        stored.insert(first.id, first).insert(second.id, second)[second.id] == second,
{
    assert(stored.insert(first.id, first).insert(second.id, second) =~= stored.insert(
        second.id,
        second,
    ));
}

/// `report` is one of the `saved` reports, and none of them has a greater
/// timestamp.
pub open spec fn is_newest_of(report: TrendReportView, saved: Seq<TrendReportView>) -> bool {
    &&& exists|i: int| 0 <= i < saved.len() && #[trigger] saved[i] == report
    &&& forall|i: int| 0 <= i < saved.len() ==> (#[trigger] saved[i]).timestamp <= report.timestamp
}

/// A store of trend reports. Reports are added and never replaced: reports
/// of one timestamp stand side by side.
pub trait TrendRepo {
    /// The saved reports, in the order in which they were saved.
    spec fn saved(&self) -> Seq<TrendReportView>;

    /// Whether the store answers every request.
    spec fn always_answers(&self) -> bool;

    /// Adds `report` to the saved ones.
    fn save_report(&mut self, report: &TrendReport) -> (r: Result<(), DomainError>)
        ensures
            final(self).always_answers() == old(self).always_answers(),
            old(self).always_answers() ==> r is Ok,
            r is Ok ==> final(self).saved() == old(self).saved().push(report@),
            r is Err ==> final(self).saved() == old(self).saved(),
    ;

    /// The saved report with the greatest timestamp, whenever it was saved.
    fn find_latest_report(&self) -> (r: Result<Option<TrendReport>, DomainError>)
        ensures
            self.always_answers() ==> r is Ok,
            r matches Ok(found) ==> match found {
                Some(report) => is_newest_of(report@, self.saved()),
                None => self.saved().len() == 0,
            },
    ;
}

/// The timestamp of the latest report does not depend on the order in which
/// the reports were saved: whichever of two reports is saved first, the
/// latest report has the same timestamp.
pub proof fn lemma_latest_ignores_save_order(
    saved: Seq<TrendReportView>,
    a: TrendReportView,
    b: TrendReportView,
    latest_ab: TrendReportView,
    latest_ba: TrendReportView,
)
    requires
        is_newest_of(latest_ab, saved.push(a).push(b)),
        is_newest_of(latest_ba, saved.push(b).push(a)),
    ensures
        latest_ab.timestamp == latest_ba.timestamp,
        latest_ab.timestamp >= a.timestamp,
        latest_ab.timestamp >= b.timestamp,
{
    let ab = saved.push(a).push(b);
    let ba = saved.push(b).push(a);
    let n = saved.len() as int;
    let x = choose|i: int| 0 <= i < ab.len() && #[trigger] ab[i] == latest_ab;
    let y = choose|i: int| 0 <= i < ba.len() && #[trigger] ba[i] == latest_ba;
    // Each report of one run stands in the other too.
    let x_in_ba = if x == n {
        n + 1
    } else if x == n + 1 {
        n
    } else {
        x
    };
    let y_in_ab = if y == n {
        n + 1
    } else if y == n + 1 {
        n
    } else {
        y
    };
    assert(ba[x_in_ba] == ab[x]);
    assert(ab[y_in_ab] == ba[y]);
    assert(ab[n] == a);
    assert(ab[n + 1] == b);
}

/// `listed` holds every stored event once, each as it is stored, from the
/// latest date to the earliest.
pub open spec fn is_timeline_of(
    listed: Seq<TimelineEventView>,
    stored: Map<Seq<char>, TimelineEventView>,
) -> bool {
    &&& stored.dom().finite()
    &&& listed.len() == stored.dom().len()
    &&& forall|i: int, j: int|
        0 <= i < j < listed.len() ==> !(#[trigger] listed[j]).date.is_after(
            (#[trigger] listed[i]).date,
        )
    &&& forall|i: int|
        0 <= i < listed.len() ==> stored.contains_key((#[trigger] listed[i]).id)
            && stored[listed[i].id] == listed[i]
    &&& forall|i: int, j: int|
        0 <= i < j < listed.len() ==> (#[trigger] listed[i]).id != (#[trigger] listed[j]).id
    &&& forall|key: Seq<char>| #[trigger]
        stored.contains_key(key) ==> exists|i: int|
            0 <= i < listed.len() && (#[trigger] listed[i]).id == key
}

/// The views of a run of events.
pub open spec fn event_views(events: Seq<TimelineEvent>) -> Seq<TimelineEventView> {
    events.map_values(|e: TimelineEvent| e@)
}

/// A store of timeline events, each under its identifier.
pub trait TimelineRepo {
    /// The stored events, by identifier.
    spec fn stored(&self) -> Map<Seq<char>, TimelineEventView>;

    /// Whether the store answers every request.
    spec fn always_answers(&self) -> bool;

    /// Stores `event` under its identifier, in place of whatever was stored
    /// under it before.
    fn save_event(&mut self, event: &TimelineEvent) -> (r: Result<(), DomainError>)
        ensures
            final(self).always_answers() == old(self).always_answers(),
            old(self).always_answers() ==> r is Ok,
            r is Ok ==> final(self).stored() == old(self).stored().insert(event.id@, event@),
            r is Err ==> final(self).stored() == old(self).stored(),
    ;

    /// All the events, from the latest date to the earliest.
    fn list_events(&self) -> (r: Result<Vec<TimelineEvent>, DomainError>)
        ensures
            self.always_answers() ==> r is Ok,
            r matches Ok(listed) ==> is_timeline_of(event_views(listed@), self.stored()),
    ;
}

/// A store of users, each under its identifier.
pub trait UserRepo {
    /// The stored users, by identifier.
    spec fn stored(&self) -> Map<Seq<char>, UserProfileView>;

    /// Whether the store answers every request.
    spec fn always_answers(&self) -> bool;

    /// Stores `user` under its identifier, in place of whoever was stored
    /// under it before.
    fn save(&mut self, user: &UserProfile) -> (r: Result<(), DomainError>)
        ensures
            final(self).always_answers() == old(self).always_answers(),
            old(self).always_answers() ==> r is Ok,
            r is Ok ==> final(self).stored() == old(self).stored().insert(user.id@, user@),
            r is Err ==> final(self).stored() == old(self).stored(),
    ;

    /// The user stored under `id`, if there is one.
    fn find_by_id(&self, id: &UserId) -> (r: Result<Option<UserProfile>, DomainError>)
        ensures
            self.always_answers() ==> r is Ok,
            r matches Ok(found) ==> match found {
                Some(user) => self.stored().contains_key(id@) && user@ == self.stored()[id@],
                None => !self.stored().contains_key(id@),
            },
    ;
}

} // verus!
