//! Users and what each of them knows of the topics they meet.

use crate::text_map::TextMap;
use vstd::prelude::*;

verus! {

/// The identifier of a user.
#[derive(Debug, Hash)]
pub struct UserId(String);

impl View for UserId {
    type V = Seq<char>;

    closed spec fn view(&self) -> Seq<char> {
        self.0@
    }
}

impl UserId {
    /// The identifier with the text `id`.
    pub fn new(id: &str) -> (user: UserId)
        ensures
            user@ == id@,
    {
        UserId(id.to_owned())
    }

    /// The identifier as text.
    pub fn to_string(&self) -> (s: String)
        ensures
            s@ == self@,
    {
        self.0.clone()
    }
}

impl From<&str> for UserId {
    fn from(s: &str) -> (user: UserId)
        ensures
            user@ == s@,
    {
        UserId(s.to_owned())
    }
}

impl vstd::std_specs::convert::FromSpecImpl<&str> for UserId {
    open spec fn obeys_from_spec() -> bool {
        false
    }

    open spec fn from_spec(s: &str) -> UserId {
        arbitrary()
    }
}

impl Clone for UserId {
    fn clone(&self) -> (copy: UserId)
        ensures
            copy@ == self@,
    {
        UserId(self.0.clone())
    }
}

impl PartialEq for UserId {
    fn eq(&self, other: &UserId) -> (r: bool) {
        self.0 == other.0
    }
}

impl Eq for UserId {

}

impl vstd::std_specs::cmp::PartialEqSpecImpl for UserId {
    open spec fn obeys_eq_spec() -> bool {
        true
    }

    open spec fn eq_spec(&self, other: &UserId) -> bool {
        self@ == other@
    }
}

/// How well a user knows a topic.
#[derive(Debug, Clone, Copy, PartialEq, Eq, Structural)]
pub enum KnowledgeState {
    NeverSeen,
    HeardOf,
    KnowIt,
    WantToLearn,
}

impl Default for KnowledgeState {
    fn default() -> (state: KnowledgeState)
        ensures
            state == KnowledgeState::NeverSeen,
    {
        KnowledgeState::NeverSeen
    }
}

/// What a user knows of one topic, and since when.
#[derive(Debug)]
pub struct TopicKnowledge {
    pub topic: String,
    pub state: KnowledgeState,
    /// When the user first met the topic.
    pub first_seen: i64,
    /// When the user last met it.
    pub last_interaction: i64,
    /// How often the user has met it.
    pub interaction_count: u32,
}

/// A `TopicKnowledge` with its topic as a sequence of characters.
pub struct TopicKnowledgeView {
    pub topic: Seq<char>,
    pub state: KnowledgeState,
    pub first_seen: i64,
    pub last_interaction: i64,
    pub interaction_count: u32,
}

impl View for TopicKnowledge {
    type V = TopicKnowledgeView;

    open spec fn view(&self) -> TopicKnowledgeView {
        TopicKnowledgeView {
            topic: self.topic@,
            state: self.state,
            first_seen: self.first_seen,
            last_interaction: self.last_interaction,
            interaction_count: self.interaction_count,
        }
    }
}

impl Default for TopicKnowledge {
    fn default() -> (t: TopicKnowledge)
        ensures
            t@ == (TopicKnowledgeView {
                topic: Seq::empty(),
                state: KnowledgeState::NeverSeen,
                first_seen: 0,
                last_interaction: 0,
                interaction_count: 0,
            }),
    {
        TopicKnowledge {
            topic: String::new(),
            state: KnowledgeState::NeverSeen,
            first_seen: 0,
            last_interaction: 0,
            interaction_count: 0,
        }
    }
}

impl Clone for TopicKnowledge {
    fn clone(&self) -> (copy: TopicKnowledge)
        ensures
            copy@ == self@,
    {
        TopicKnowledge {
            topic: self.topic.clone(),
            state: self.state,
            first_seen: self.first_seen,
            last_interaction: self.last_interaction,
            interaction_count: self.interaction_count,
        }
    }
}

/// The topics of a map, each with what is known of it.
pub open spec fn topic_views(topics: TextMap<TopicKnowledge>) -> Map<Seq<char>, TopicKnowledgeView> {
    topics@.map_values(|t: TopicKnowledge| t@)
}

/// What a user knows, topic by topic.
#[derive(Debug)]
pub struct KnowledgeMap {
    pub topics: TextMap<TopicKnowledge>,
}

impl View for KnowledgeMap {
    type V = Map<Seq<char>, TopicKnowledgeView>;

    open spec fn view(&self) -> Map<Seq<char>, TopicKnowledgeView> {
        topic_views(self.topics)
    }
}

impl Default for KnowledgeMap {
    fn default() -> (map: KnowledgeMap)
        ensures
            map@ == Map::<Seq<char>, TopicKnowledgeView>::empty(),
    {
        KnowledgeMap { topics: TextMap::new() }
    }
}

impl Clone for KnowledgeMap {
    fn clone(&self) -> (copy: KnowledgeMap)
        ensures
            copy@ == self@,
    {
        let mut topics: TextMap<TopicKnowledge> = TextMap::new();
        let n = self.topics.len();
        for i in 0..n
            invariant
                n == self.topics.keys().len(),
                self.topics.well_formed(),
                topics.well_formed(),
                topics.keys() == self.topics.keys().take(i as int),
                forall|j: int|
                    0 <= j < i ==> (#[trigger] topics.values()[j])@ == self.topics.values()[j]@,
        {
            let key = self.topics.key_at(i).clone();
            let value = self.topics.value_at(i).clone();
            topics.insert(key, value);
        }
        let copy = KnowledgeMap { topics };
        proof {
            assert(topics.keys() =~= self.topics.keys());
        }
        copy
    }
}

/// What a user has chosen.
#[derive(Debug)]
pub struct UserSettings {
    pub preferred_sources: Vec<String>,
    pub theme: String,
}

/// `UserSettings` with its texts as sequences of characters.
pub struct UserSettingsView {
    pub preferred_sources: Seq<Seq<char>>,
    pub theme: Seq<char>,
}

impl View for UserSettings {
    type V = UserSettingsView;

    open spec fn view(&self) -> UserSettingsView {
        UserSettingsView {
            preferred_sources: self.preferred_sources@.map_values(|s: String| s@),
            theme: self.theme@,
        }
    }
}

impl Default for UserSettings {
    fn default() -> (settings: UserSettings)
        ensures
            settings@ == (UserSettingsView { preferred_sources: Seq::empty(), theme: Seq::empty() }),
    {
        let settings = UserSettings { preferred_sources: Vec::new(), theme: String::new() };
        assert(settings@.preferred_sources =~= Seq::empty());
        settings
    }
}

impl Clone for UserSettings {
    fn clone(&self) -> (copy: UserSettings)
        ensures
            copy@ == self@,
    {
        let mut sources: Vec<String> = Vec::new();
        for i in 0..self.preferred_sources.len()
            invariant
                sources.len() == i,
                forall|j: int| 0 <= j < i ==> sources[j]@ == self.preferred_sources[j]@,
        {
            sources.push(self.preferred_sources[i].clone());
        }
        let copy = UserSettings { preferred_sources: sources, theme: self.theme.clone() };
        assert(copy@.preferred_sources =~= self@.preferred_sources);
        copy
    }
}

/// A user: who it is, what it knows, what it has chosen.
#[derive(Debug)]
pub struct UserProfile {
    pub id: UserId,
    pub knowledge: KnowledgeMap,
    pub settings: UserSettings,
}

/// A `UserProfile` as its identifier, what it knows and what it has chosen.
pub struct UserProfileView {
    pub id: Seq<char>,
    pub knowledge: Map<Seq<char>, TopicKnowledgeView>,
    pub settings: UserSettingsView,
}

impl View for UserProfile {
    type V = UserProfileView;

    open spec fn view(&self) -> UserProfileView {
        UserProfileView { id: self.id@, knowledge: self.knowledge@, settings: self.settings@ }
    }
}

/// What is known of a topic once the user has met it again at `now` and is
/// found in `state`: the first meeting stays, the count goes up by one.
pub open spec fn after_interaction(
    prior: Option<TopicKnowledgeView>,
    topic: Seq<char>,
    state: KnowledgeState,
    now: i64,
) -> TopicKnowledgeView {
    match prior {
        Some(known) => TopicKnowledgeView {
            topic: known.topic,
            state,
            first_seen: known.first_seen,
            last_interaction: now,
            interaction_count: (known.interaction_count + 1) as u32,
        },
        None => TopicKnowledgeView {
            topic,
            state,
            first_seen: now,
            last_interaction: now,
            interaction_count: 1,
        },
    }
}

impl UserProfile {
    /// A user who knows nothing yet and has chosen nothing.
    pub fn new(id: UserId) -> (user: UserProfile)
        ensures
            user@ == (UserProfileView {
                id: id@,
                knowledge: Map::empty(),
                settings: UserSettingsView { preferred_sources: Seq::empty(), theme: Seq::empty() },
            }),
    {
        UserProfile { id, knowledge: KnowledgeMap::default(), settings: UserSettings::default() }
    }

    /// Records that the user met `topic` at `now` and is now in `state`.
    pub fn update_knowledge(&mut self, topic: &str, state: KnowledgeState, now: i64)
        requires
            old(self).knowledge@.contains_key(topic@) ==> old(self).knowledge@[topic@].interaction_count
                < u32::MAX,
        ensures
            final(self).id == old(self).id,
            final(self).settings == old(self).settings,
            final(self).knowledge@ == old(self).knowledge@.insert(
                topic@,
                after_interaction(old(self).knowledge@.get(topic@), topic@, state, now),
            ),
    {
        let entry = match self.knowledge.topics.get(topic) {
            Some(known) => TopicKnowledge {
                topic: known.topic.clone(),
                state,
                first_seen: known.first_seen,
                last_interaction: now,
                interaction_count: known.interaction_count + 1,
            },
            None => TopicKnowledge {
                topic: topic.to_owned(),
                state,
                first_seen: now,
                last_interaction: now,
                interaction_count: 1,
            },
        };
        self.knowledge.topics.insert(topic.to_owned(), entry);
        assert(self.knowledge@ =~= old(self).knowledge@.insert(
            topic@,
            after_interaction(old(self).knowledge@.get(topic@), topic@, state, now),
        ));
    }
}

impl Clone for UserProfile {
    fn clone(&self) -> (copy: UserProfile)
        ensures
            copy@ == self@,
    {
        UserProfile {
            id: self.id.clone(),
            knowledge: self.knowledge.clone(),
            settings: self.settings.clone(),
        }
    }
}

} // verus!
