//! Market research: a cache of research records per market, the decision of
//! what a research request answers, and the text shown to the user.
//!
//! A request for research on a market answers from the cache when research
//! is complete and current, reports progress when it is under way, reports
//! an expired or failed earlier run, and otherwise starts a new run.

use vstd::prelude::*;

use crate::clock::{now_secs, unix_time_nanos};
use crate::text::{dec, join, join_strings, push_decimal, views};

verus! {

// ===========================================================================
// Types
// ===========================================================================

/// Status of market research.
#[derive(Debug, Clone, Copy, PartialEq, Eq, Structural)]
pub enum ResearchStatus {
    Pending,
    InProgress,
    Completed,
    Failed,
    Expired,
}

/// A source used in research.
#[derive(Debug)]
pub struct ResearchSource {
    pub title: String,
    pub url: String,
    pub snippet: Option<String>,
}

/// The view of an optional string.
pub open spec fn opt_view(o: Option<String>) -> Option<Seq<char>> {
    match o {
        Some(s) => Some(s@),
        None => None,
    }
}

/// A research source as plain values.
pub struct ResearchSourceView {
    pub title: Seq<char>,
    pub url: Seq<char>,
    pub snippet: Option<Seq<char>>,
}

impl View for ResearchSource {
    type V = ResearchSourceView;

    open spec fn view(&self) -> ResearchSourceView {
        ResearchSourceView { title: self.title@, url: self.url@, snippet: opt_view(self.snippet) }
    }
}

impl Clone for ResearchSource {
    fn clone(&self) -> (c: Self)
        ensures
            c@ == self@,
    {
        ResearchSource { title: self.title.clone(), url: self.url.clone(), snippet: self.snippet.clone() }
    }
}

/// Trading recommendation from research.
#[derive(Debug)]
pub struct ResearchRecommendation {
    /// Whether a trade is recommended.
    pub should_trade: bool,
    /// Recommended direction: "YES" or "NO".
    pub direction: Option<String>,
    /// Confidence level 0-100.
    pub confidence: u8,
    /// Reasoning for the recommendation.
    pub reasoning: String,
}

/// A trading recommendation as plain values.
pub struct ResearchRecommendationView {
    pub should_trade: bool,
    pub direction: Option<Seq<char>>,
    pub confidence: u8,
    pub reasoning: Seq<char>,
}

impl View for ResearchRecommendation {
    type V = ResearchRecommendationView;

    open spec fn view(&self) -> ResearchRecommendationView {
        ResearchRecommendationView {
            should_trade: self.should_trade,
            direction: opt_view(self.direction),
            confidence: self.confidence,
            reasoning: self.reasoning@,
        }
    }
}

impl Clone for ResearchRecommendation {
    fn clone(&self) -> (c: Self)
        ensures
            c@ == self@,
    {
        ResearchRecommendation {
            should_trade: self.should_trade,
            direction: self.direction.clone(),
            confidence: self.confidence,
            reasoning: self.reasoning.clone(),
        }
    }
}

/// The view of an optional recommendation.
pub open spec fn opt_rec_view(o: Option<ResearchRecommendation>) -> Option<ResearchRecommendationView> {
    match o {
        Some(r) => Some(r@),
        None => None,
    }
}

fn clone_recommendation(o: &Option<ResearchRecommendation>) -> (c: Option<ResearchRecommendation>)
    ensures
        opt_rec_view(c) == opt_rec_view(*o),
{
    match o {
        Some(r) => Some(r.clone()),
        None => None,
    }
}

/// Completed research result.
#[derive(Debug)]
pub struct ResearchResult {
    pub summary: String,
    pub text: String,
    pub recommendation: Option<ResearchRecommendation>,
    pub sources: Vec<ResearchSource>,
    pub sources_count: usize,
}

/// A research result as plain values.
pub struct ResearchResultView {
    pub summary: Seq<char>,
    pub text: Seq<char>,
    pub recommendation: Option<ResearchRecommendationView>,
    pub sources: Seq<ResearchSourceView>,
    pub sources_count: usize,
}

impl View for ResearchResult {
    type V = ResearchResultView;

    open spec fn view(&self) -> ResearchResultView {
        ResearchResultView {
            summary: self.summary@,
            text: self.text@,
            recommendation: opt_rec_view(self.recommendation),
            sources: self.sources@.map_values(|s: ResearchSource| s@),
            sources_count: self.sources_count,
        }
    }
}

impl Clone for ResearchResult {
    fn clone(&self) -> (c: Self)
        ensures
            c@ == self@,
    {
        let mut sources: Vec<ResearchSource> = Vec::new();
        let n = self.sources.len();
        let mut i: usize = 0;
        while i < n
            invariant
                n == self.sources@.len(),
                i <= n,
                sources@.len() == i,
                forall|j: int| 0 <= j < i ==> #[trigger] sources@[j]@ == self.sources@[j]@,
            decreases n - i,
        {
            sources.push(self.sources[i].clone());
            i = i + 1;
        }
        let c = ResearchResult {
            summary: self.summary.clone(),
            text: self.text.clone(),
            recommendation: clone_recommendation(&self.recommendation),
            sources,
            sources_count: self.sources_count,
        };
        assert(c@.sources =~= self@.sources);
        c
    }
}

/// The view of an optional result.
pub open spec fn opt_result_view(o: Option<ResearchResult>) -> Option<ResearchResultView> {
    match o {
        Some(r) => Some(r@),
        None => None,
    }
}

/// Market research data stored in the cache.
#[derive(Debug)]
pub struct MarketResearch {
    pub market_id: String,
    pub market_question: String,
    pub status: ResearchStatus,
    pub task_id: Option<String>,
    pub research_id: Option<String>,
    pub started_at: Option<u64>,
    pub completed_at: Option<u64>,
    pub expires_at: Option<u64>,
    pub result: Option<ResearchResult>,
    pub error_message: Option<String>,
}

/// A market research record as plain values.
pub struct MarketResearchView {
    pub market_id: Seq<char>,
    pub market_question: Seq<char>,
    pub status: ResearchStatus,
    pub task_id: Option<Seq<char>>,
    pub research_id: Option<Seq<char>>,
    pub started_at: Option<u64>,
    pub completed_at: Option<u64>,
    pub expires_at: Option<u64>,
    pub result: Option<ResearchResultView>,
    pub error_message: Option<Seq<char>>,
}

impl View for MarketResearch {
    type V = MarketResearchView;

    open spec fn view(&self) -> MarketResearchView {
        MarketResearchView {
            market_id: self.market_id@,
            market_question: self.market_question@,
            status: self.status,
            task_id: opt_view(self.task_id),
            research_id: opt_view(self.research_id),
            started_at: self.started_at,
            completed_at: self.completed_at,
            expires_at: self.expires_at,
            result: opt_result_view(self.result),
            error_message: opt_view(self.error_message),
        }
    }
}

fn clone_result(o: &Option<ResearchResult>) -> (c: Option<ResearchResult>)
    ensures
        opt_result_view(c) == opt_result_view(*o),
{
    match o {
        Some(r) => Some(r.clone()),
        None => None,
    }
}

impl Clone for MarketResearch {
    fn clone(&self) -> (c: Self)
        ensures
            c@ == self@,
    {
        MarketResearch {
            market_id: self.market_id.clone(),
            market_question: self.market_question.clone(),
            status: self.status,
            task_id: self.task_id.clone(),
            research_id: self.research_id.clone(),
            started_at: self.started_at,
            completed_at: self.completed_at,
            expires_at: self.expires_at,
            result: clone_result(&self.result),
            error_message: self.error_message.clone(),
        }
    }
}

/// Callback action type.
#[derive(Debug, Clone, Copy, PartialEq, Eq, Structural)]
pub enum CallbackAction {
    EvaluateTrade,
    NotifyOnly,
}

impl Default for CallbackAction {
    fn default() -> (a: Self)
        ensures
            a == CallbackAction::NotifyOnly,
    {
        CallbackAction::NotifyOnly
    }
}

/// Parameters for the research market action.
#[derive(Debug)]
pub struct ResearchParams {
    pub market_id: String,
    pub market_question: String,
    pub force_refresh: bool,
    pub callback_action: CallbackAction,
}

/// Result of the research market action.
#[derive(Debug)]
pub struct ResearchActionResult {
    pub success: bool,
    pub status: String,
    pub market_id: String,
    pub market_question: String,
    pub task_id: Option<String>,
    pub recommendation: Option<ResearchRecommendation>,
    pub cached: bool,
    pub completed_at: Option<u64>,
    pub expires_at: Option<u64>,
    pub elapsed_minutes: Option<u64>,
    pub estimated_remaining: Option<u64>,
    pub error: Option<String>,
}

// ===========================================================================
// The cache as a map from market ID to record
// ===========================================================================

/// No two records hold the same market ID.
pub open spec fn ids_unique(v: Seq<MarketResearch>) -> bool {
    forall|i: int, j: int|
        0 <= i < v.len() && 0 <= j < v.len() && i != j ==> v[i].market_id@ != v[j].market_id@
}

/// The records keyed by their market ID.
pub open spec fn entry_map(v: Seq<MarketResearch>) -> Map<Seq<char>, MarketResearchView>
    decreases v.len(),
{
    if v.len() == 0 {
        Map::empty()
    } else {
        entry_map(v.drop_last()).insert(v.last().market_id@, v.last()@)
    }
}

proof fn lemma_entry_map_dom(v: Seq<MarketResearch>, k: Seq<char>)
    ensures
        entry_map(v).dom().contains(k) <==> exists|i: int|
            0 <= i < v.len() && #[trigger] v[i].market_id@ == k,
    decreases v.len(),
{
    if v.len() > 0 {
        let w = v.drop_last();
        lemma_entry_map_dom(w, k);
        if entry_map(v).dom().contains(k) {
            if k == v.last().market_id@ {
                assert(v[v.len() - 1].market_id@ == k);
            } else {
                let i = choose|i: int| 0 <= i < w.len() && #[trigger] w[i].market_id@ == k;
                assert(v[i].market_id@ == k);
            }
        }
        if exists|i: int| 0 <= i < v.len() && #[trigger] v[i].market_id@ == k {
            let i = choose|i: int| 0 <= i < v.len() && #[trigger] v[i].market_id@ == k;
            if i < v.len() - 1 {
                assert(w[i].market_id@ == k);
            }
        }
    }
}

proof fn lemma_entry_map_at(v: Seq<MarketResearch>, i: int)
    requires
        ids_unique(v),
        0 <= i < v.len(),
    ensures
        entry_map(v).dom().contains(v[i].market_id@),
        entry_map(v)[v[i].market_id@] == v[i]@,
    decreases v.len(),
{
    let w = v.drop_last();
    if i < v.len() - 1 {
        assert(w[i] == v[i]);
        lemma_entry_map_at(w, i);
    }
}

proof fn lemma_entry_map_update(v: Seq<MarketResearch>, i: int, r: MarketResearch)
    requires
        ids_unique(v),
        0 <= i < v.len(),
        v[i].market_id@ == r.market_id@,
    ensures
        ids_unique(v.update(i, r)),
        entry_map(v.update(i, r)) == entry_map(v).insert(r.market_id@, r@),
    decreases v.len(),
{
    let u = v.update(i, r);
    assert forall|a: int, b: int|
        0 <= a < u.len() && 0 <= b < u.len() && a != b implies u[a].market_id@ != u[b].market_id@ by {
        if a != i && b != i {
            assert(u[a] == v[a] && u[b] == v[b]);
        } else if a == i {
            assert(u[b] == v[b]);
            assert(v[a].market_id@ != v[b].market_id@);
        } else {
            assert(u[a] == v[a]);
            assert(v[a].market_id@ != v[b].market_id@);
        }
    }
    let w = v.drop_last();
    if i == v.len() - 1 {
        assert(u.drop_last() =~= w);
        assert(entry_map(u) =~= entry_map(v).insert(r.market_id@, r@));
    } else {
        assert(u.drop_last() =~= w.update(i, r));
        assert(ids_unique(w));
        lemma_entry_map_update(w, i, r);
        assert(v.last().market_id@ != v[i].market_id@);
        assert(entry_map(u) =~= entry_map(v).insert(r.market_id@, r@));
    }
}

proof fn lemma_entry_map_remove(v: Seq<MarketResearch>, i: int)
    requires
        ids_unique(v),
        0 <= i < v.len(),
    ensures
        ids_unique(v.remove(i)),
        entry_map(v.remove(i)) == entry_map(v).remove(v[i].market_id@),
    decreases v.len(),
{
    let u = v.remove(i);
    let k = v[i].market_id@;
    assert forall|a: int, b: int|
        0 <= a < u.len() && 0 <= b < u.len() && a != b implies u[a].market_id@ != u[b].market_id@ by {
        let a2 = if a < i { a } else { a + 1 };
        let b2 = if b < i { b } else { b + 1 };
        assert(u[a] == v[a2] && u[b] == v[b2]);
    }
    let w = v.drop_last();
    assert(ids_unique(w));
    if i == v.len() - 1 {
        assert(u =~= w);
        lemma_entry_map_dom(w, k);
        assert forall|j: int| 0 <= j < w.len() implies #[trigger] w[j].market_id@ != k by {
            assert(w[j] == v[j]);
        }
        assert(entry_map(u) =~= entry_map(v).remove(k));
    } else {
        assert(u.drop_last() =~= w.remove(i));
        assert(u.last() == v.last());
        assert(w[i] == v[i]);
        lemma_entry_map_remove(w, i);
        assert(v.last().market_id@ != k);
        assert(entry_map(u) =~= entry_map(v).remove(k));
    }
}

proof fn lemma_entry_map_push(v: Seq<MarketResearch>, r: MarketResearch)
    requires
        ids_unique(v),
        forall|j: int| 0 <= j < v.len() ==> #[trigger] v[j].market_id@ != r.market_id@,
    ensures
        ids_unique(v.push(r)),
        entry_map(v.push(r)) == entry_map(v).insert(r.market_id@, r@),
{
    let u = v.push(r);
    assert(u.drop_last() =~= v);
    assert forall|a: int, b: int|
        0 <= a < u.len() && 0 <= b < u.len() && a != b implies u[a].market_id@ != u[b].market_id@ by {
        if a < v.len() && b < v.len() {
            assert(u[a] == v[a] && u[b] == v[b]);
        } else if a < v.len() {
            assert(u[a] == v[a]);
        } else {
            assert(u[b] == v[b]);
        }
    }
}

// ===========================================================================
// What a stored record looks like after each operation
// ===========================================================================

/// The record as a reader sees it at time `now`: completed research past
/// its expiry time reads as expired.
pub open spec fn observed(r: MarketResearchView, now: u64) -> MarketResearchView {
    if r.status == ResearchStatus::Completed && r.expires_at is Some && now > r.expires_at->0 {
        MarketResearchView { status: ResearchStatus::Expired, ..r }
    } else {
        r
    }
}

/// The record that marks research on `id` as started at `now` by `task_id`.
pub open spec fn in_progress_view(
    id: Seq<char>,
    question: Seq<char>,
    task_id: Seq<char>,
    now: u64,
) -> MarketResearchView {
    MarketResearchView {
        market_id: id,
        market_question: question,
        status: ResearchStatus::InProgress,
        task_id: Some(task_id),
        research_id: None,
        started_at: Some(now),
        completed_at: None,
        expires_at: None,
        result: None,
        error_message: None,
    }
}

/// `prev` completed at `now` with `result`, valid for `expiry` seconds.
pub open spec fn completed_view(
    prev: MarketResearchView,
    result: ResearchResultView,
    research_id: Seq<char>,
    now: u64,
    expiry: u64,
) -> MarketResearchView {
    MarketResearchView {
        status: ResearchStatus::Completed,
        research_id: Some(research_id),
        completed_at: Some(now),
        expires_at: Some((now + expiry) as u64),
        result: Some(result),
        error_message: None,
        ..prev
    }
}

/// The record that research on `id` failed at `now` with `message`; what an
/// earlier record `prev` knew of the question, task and start is kept.
pub open spec fn failed_view(
    prev: Option<MarketResearchView>,
    id: Seq<char>,
    message: Seq<char>,
    now: u64,
) -> MarketResearchView {
    MarketResearchView {
        market_id: id,
        market_question: match prev {
            Some(p) => p.market_question,
            None => "Unknown"@,
        },
        status: ResearchStatus::Failed,
        task_id: match prev {
            Some(p) => p.task_id,
            None => None,
        },
        research_id: None,
        started_at: match prev {
            Some(p) => p.started_at,
            None => None,
        },
        completed_at: Some(now),
        expires_at: None,
        result: None,
        error_message: Some(message),
    }
}

/// Whole minutes from the start of `r` to `now` (0 when `now` is earlier).
pub open spec fn elapsed_minutes(r: Option<MarketResearchView>, now: u64) -> Option<u64> {
    match r {
        None => None,
        Some(x) => match x.started_at {
            None => None,
            Some(s) => Some((if now >= s { (now - s) as u64 } else { 0u64 }) / 60),
        },
    }
}

// ===========================================================================
// Research storage
// ===========================================================================

/// Default research expiry time (24 hours).
pub const DEFAULT_RESEARCH_EXPIRY_SECS: u64 = 86400;

/// In-memory research storage: at most one record per market.
#[derive(Debug)]
pub struct ResearchStorage {
    entries: Vec<MarketResearch>,
    expiry_secs: u64,
}

impl View for ResearchStorage {
    type V = Map<Seq<char>, MarketResearchView>;

    /// The records, keyed by market ID.
    closed spec fn view(&self) -> Map<Seq<char>, MarketResearchView> {
        entry_map(self.entries@)
    }
}

impl Default for ResearchStorage {
    fn default() -> (s: Self)
        ensures
            s@ == Map::<Seq<char>, MarketResearchView>::empty(),
            s.expiry() == DEFAULT_RESEARCH_EXPIRY_SECS,
    {
        Self::new(DEFAULT_RESEARCH_EXPIRY_SECS)
    }
}

impl ResearchStorage {
    /// Well-formedness: one record per market, stored under its own ID.
    #[verifier::type_invariant]
    spec fn wf(&self) -> bool {
        ids_unique(self.entries@)
    }

    /// How long completed research stays current, in seconds.
    pub closed spec fn expiry(&self) -> u64 {
        self.expiry_secs
    }

    pub fn new(expiry_secs: u64) -> (s: Self)
        ensures
            s@ == Map::<Seq<char>, MarketResearchView>::empty(),
            s.expiry() == expiry_secs,
    {
        let s = ResearchStorage { entries: Vec::new(), expiry_secs };
        assert(s@ =~= Map::<Seq<char>, MarketResearchView>::empty());
        s
    }

    /// The position of the record for `market_id`, if there is one.
    fn position(&self, market_id: &str) -> (r: Option<usize>)
        ensures
            r matches Some(i) ==> i < self.entries@.len() && self.entries@[i as int].market_id@
                == market_id@ && self@.dom().contains(market_id@) && self@[market_id@]
                == self.entries@[i as int]@,
            r is None ==> !self@.dom().contains(market_id@),
    {
        proof {
            use_type_invariant(self);
        }
        let n = self.entries.len();
        let mut i: usize = 0;
        while i < n
            invariant
                n == self.entries@.len(),
                i <= n,
                ids_unique(self.entries@),
                forall|j: int| 0 <= j < i ==> #[trigger] self.entries@[j].market_id@ != market_id@,
            decreases n - i,
        {
            if crate::text::str_eq(self.entries[i].market_id.as_str(), market_id) {
                proof {
                    lemma_entry_map_at(self.entries@, i as int);
                }
                return Some(i);
            }
            i = i + 1;
        }
        proof {
            lemma_entry_map_dom(self.entries@, market_id@);
        }
        None
    }

    /// The research on `market_id` as read at time `now`.
    pub fn get_market_research_at(&self, market_id: &str, now: u64) -> (r: Option<MarketResearch>)
        ensures
            r is Some <==> self@.dom().contains(market_id@),
            r matches Some(x) ==> x@ == observed(self@[market_id@], now),
    {
        match self.position(market_id) {
            None => None,
            Some(i) => {
                let research = self.entries[i].clone();
                if research.status == ResearchStatus::Completed {
                    if let Some(expires_at) = research.expires_at {
                        if now > expires_at {
                            return Some(MarketResearch { status: ResearchStatus::Expired, ..research });
                        }
                    }
                }
                Some(research)
            },
        }
    }

    /// The research on `market_id`, read at the current time.
    pub fn get_market_research(&self, market_id: &str) -> (r: Option<MarketResearch>)
        ensures
            r is Some <==> self@.dom().contains(market_id@),
            r matches Some(x) ==> exists|now: u64| x@ == observed(self@[market_id@], now),
    {
        self.get_market_research_at(market_id, now_secs())
    }

    /// Stores `record` under its market ID, replacing any earlier record.
    fn put(&mut self, record: MarketResearch)
        ensures
            final(self)@ == old(self)@.insert(record.market_id@, record@),
            final(self).expiry() == old(self).expiry(),
    {
        proof {
            use_type_invariant(&*self);
        }
        let position = self.position(record.market_id.as_str());
        let mut entries: Vec<MarketResearch> = Vec::new();
        std::mem::swap(&mut entries, &mut self.entries);
        match position {
            Some(i) => {
                proof {
                    lemma_entry_map_update(entries@, i as int, record);
                }
                entries.set(i, record);
            },
            None => {
                proof {
                    lemma_entry_map_dom(entries@, record.market_id@);
                    lemma_entry_map_push(entries@, record);
                }
                entries.push(record);
            },
        }
        self.entries = entries;
    }

    /// Marks research on `market_id` as started at `now` by task `task_id`.
    pub fn mark_in_progress_at(&mut self, market_id: &str, market_question: &str, task_id: &str, now: u64)
        ensures
            final(self).expiry() == old(self).expiry(),
            final(self)@ == old(self)@.insert(
                market_id@,
                in_progress_view(market_id@, market_question@, task_id@, now),
            ),
    {
        let record = MarketResearch {
            market_id: String::from_str(market_id),
            market_question: String::from_str(market_question),
            status: ResearchStatus::InProgress,
            task_id: Some(String::from_str(task_id)),
            research_id: None,
            started_at: Some(now),
            completed_at: None,
            expires_at: None,
            result: None,
            error_message: None,
        };
        self.put(record);
    }

    /// Marks research on `market_id` as started now by task `task_id`.
    pub fn mark_in_progress(&mut self, market_id: &str, market_question: &str, task_id: &str)
        ensures
            final(self).expiry() == old(self).expiry(),
            exists|now: u64|
                final(self)@ == old(self)@.insert(
                    market_id@,
                    #[trigger] in_progress_view(market_id@, market_question@, task_id@, now),
                ),
    {
        self.mark_in_progress_at(market_id, market_question, task_id, now_secs());
    }

    /// Records `result` as the completed research on `market_id` at `now`.
    /// Nothing is stored when there is no record for `market_id`.
    pub fn store_result_at(&mut self, market_id: &str, result: ResearchResult, research_id: &str, now: u64)
        requires
            now + old(self).expiry() <= u64::MAX,
        ensures
            final(self).expiry() == old(self).expiry(),
            final(self)@ == if old(self)@.dom().contains(market_id@) {
                old(self)@.insert(
                    market_id@,
                    completed_view(old(self)@[market_id@], result@, research_id@, now, old(self).expiry()),
                )
            } else {
                old(self)@
            },
    {
        proof {
            use_type_invariant(&*self);
        }
        if let Some(i) = self.position(market_id) {
            let existing = self.entries[i].clone();
            let record = MarketResearch {
                status: ResearchStatus::Completed,
                research_id: Some(String::from_str(research_id)),
                completed_at: Some(now),
                expires_at: Some(now + self.expiry_secs),
                result: Some(result),
                error_message: None,
                ..existing
            };
            let mut entries: Vec<MarketResearch> = Vec::new();
            std::mem::swap(&mut entries, &mut self.entries);
            proof {
                lemma_entry_map_update(entries@, i as int, record);
            }
            entries.set(i, record);
            self.entries = entries;
        }
    }

    /// Records `result` as the completed research on `market_id`, now.
    /// Nothing is stored when there is no record for `market_id`. A clock
    /// so late that the expiry time would not fit in 64 bits is taken as
    /// the latest time at which it fits.
    pub fn store_result(&mut self, market_id: &str, result: ResearchResult, research_id: &str)
        ensures
            final(self).expiry() == old(self).expiry(),
            !old(self)@.dom().contains(market_id@) ==> final(self)@ == old(self)@,
            old(self)@.dom().contains(market_id@) ==> exists|now: u64|
                now + old(self).expiry() <= u64::MAX && final(self)@ == old(self)@.insert(
                    market_id@,
                    #[trigger] completed_view(old(self)@[market_id@], result@, research_id@, now, old(self).expiry()),
                ),
    {
        let secs = now_secs();
        let latest = u64::MAX - self.expiry_secs;
        let now = if secs > latest {
            latest
        } else {
            secs
        };
        self.store_result_at(market_id, result, research_id, now);
    }

    /// Records that research on `market_id` failed at `now`.
    pub fn mark_failed_at(&mut self, market_id: &str, error_message: &str, now: u64)
        ensures
            final(self).expiry() == old(self).expiry(),
            final(self)@ == old(self)@.insert(
                market_id@,
                failed_view(old(self)@.get(market_id@), market_id@, error_message@, now),
            ),
    {
        let existing = match self.position(market_id) {
            Some(i) => Some(self.entries[i].clone()),
            None => None,
        };
        let record = match existing {
            Some(e) => MarketResearch {
                market_id: String::from_str(market_id),
                market_question: e.market_question,
                status: ResearchStatus::Failed,
                task_id: e.task_id,
                research_id: None,
                started_at: e.started_at,
                completed_at: Some(now),
                expires_at: None,
                result: None,
                error_message: Some(String::from_str(error_message)),
            },
            None => MarketResearch {
                market_id: String::from_str(market_id),
                market_question: String::from_str("Unknown"),
                status: ResearchStatus::Failed,
                task_id: None,
                research_id: None,
                started_at: None,
                completed_at: Some(now),
                expires_at: None,
                result: None,
                error_message: Some(String::from_str(error_message)),
            },
        };
        self.put(record);
    }

    /// Records that research on `market_id` failed, now.
    pub fn mark_failed(&mut self, market_id: &str, error_message: &str)
        ensures
            final(self).expiry() == old(self).expiry(),
            exists|now: u64|
                final(self)@ == old(self)@.insert(
                    market_id@,
                    #[trigger] failed_view(old(self)@.get(market_id@), market_id@, error_message@, now),
                ),
    {
        self.mark_failed_at(market_id, error_message, now_secs());
    }

    /// Removes the research on `market_id`.
    pub fn delete_research(&mut self, market_id: &str)
        ensures
            final(self).expiry() == old(self).expiry(),
            final(self)@ == old(self)@.remove(market_id@),
    {
        proof {
            use_type_invariant(&*self);
        }
        match self.position(market_id) {
            Some(i) => {
                let mut entries: Vec<MarketResearch> = Vec::new();
                std::mem::swap(&mut entries, &mut self.entries);
                proof {
                    lemma_entry_map_remove(entries@, i as int);
                }
                entries.remove(i);
                self.entries = entries;
            },
            None => {
                assert(old(self)@.remove(market_id@) =~= old(self)@);
            },
        }
    }

    /// Whether completed, current research on `market_id` is available at
    /// time `now`.
    pub fn is_available_at(&self, market_id: &str, now: u64) -> (b: bool)
        ensures
            b == (self@.dom().contains(market_id@) && observed(self@[market_id@], now).status
                == ResearchStatus::Completed),
    {
        match self.get_market_research_at(market_id, now) {
            Some(r) => r.status == ResearchStatus::Completed,
            None => false,
        }
    }

    /// Whether completed, current research on `market_id` is available now.
    pub fn is_available(&self, market_id: &str) -> (b: bool)
        ensures
            exists|now: u64|
                b == (self@.dom().contains(market_id@) && #[trigger] observed(self@[market_id@], now).status
                    == ResearchStatus::Completed),
    {
        self.is_available_at(market_id, now_secs())
    }

    /// Whole minutes since research on `market_id` started, at time `now`.
    pub fn get_elapsed_minutes_at(&self, market_id: &str, now: u64) -> (m: Option<u64>)
        ensures
            m == elapsed_minutes(self@.get(market_id@), now),
    {
        match self.position(market_id) {
            None => None,
            Some(i) => match self.entries[i].started_at {
                None => None,
                Some(started) => Some(now.saturating_sub(started) / 60),
            },
        }
    }

    /// Whole minutes since research on `market_id` started, now.
    pub fn get_elapsed_minutes(&self, market_id: &str) -> (m: Option<u64>)
        ensures
            exists|now: u64| m == #[trigger] elapsed_minutes(self@.get(market_id@), now),
    {
        self.get_elapsed_minutes_at(market_id, now_secs())
    }
}

// ===========================================================================
// Research action
// ===========================================================================

/// A research action result as plain values.
pub struct ResearchActionResultView {
    pub success: bool,
    pub status: Seq<char>,
    pub market_id: Seq<char>,
    pub market_question: Seq<char>,
    pub task_id: Option<Seq<char>>,
    pub recommendation: Option<ResearchRecommendationView>,
    pub cached: bool,
    pub completed_at: Option<u64>,
    pub expires_at: Option<u64>,
    pub elapsed_minutes: Option<u64>,
    pub estimated_remaining: Option<u64>,
    pub error: Option<Seq<char>>,
}

impl View for ResearchActionResult {
    type V = ResearchActionResultView;

    open spec fn view(&self) -> ResearchActionResultView {
        ResearchActionResultView {
            success: self.success,
            status: self.status@,
            market_id: self.market_id@,
            market_question: self.market_question@,
            task_id: opt_view(self.task_id),
            recommendation: opt_rec_view(self.recommendation),
            cached: self.cached,
            completed_at: self.completed_at,
            expires_at: self.expires_at,
            elapsed_minutes: self.elapsed_minutes,
            estimated_remaining: self.estimated_remaining,
            error: opt_view(self.error),
        }
    }
}

/// An answer with the given success flag and status for `p`, and nothing
/// else set.
pub open spec fn plain_answer(p: ResearchParams, success: bool, status: Seq<char>) -> ResearchActionResultView {
    ResearchActionResultView {
        success,
        status,
        market_id: p.market_id@,
        market_question: p.market_question@,
        task_id: None,
        recommendation: None,
        cached: false,
        completed_at: None,
        expires_at: None,
        elapsed_minutes: None,
        estimated_remaining: None,
        error: None,
    }
}

/// The recommendation held by a record's result, if any.
pub open spec fn recommendation_of(r: MarketResearchView) -> Option<ResearchRecommendationView> {
    match r.result {
        Some(res) => res.recommendation,
        None => None,
    }
}

/// Minutes of research still expected after `elapsed` minutes: the rest of
/// half an hour, and never less than five.
pub open spec fn remaining_minutes(elapsed: u64) -> u64 {
    let rest: u64 = if elapsed <= 30 { (30 - elapsed) as u64 } else { 0 };
    if rest >= 5 { rest } else { 5 }
}

/// Whether a request for research with `p` starts a new run, given the
/// record `existing` as read at `now`.
pub open spec fn starts_research(p: ResearchParams, existing: Option<MarketResearchView>, now: u64) -> bool {
    &&& p.market_id@.len() != 0
    &&& p.market_question@.len() != 0
    &&& match existing {
        None => true,
        Some(e) => {
            let seen = observed(e, now);
            !(seen.status == ResearchStatus::InProgress || (!p.force_refresh && (seen.status
                == ResearchStatus::Completed || seen.status == ResearchStatus::Expired || seen.status
                == ResearchStatus::Failed)))
        },
    }
}

/// What a request for research with `p` answers, given the stored record
/// `existing`, the time `now` and the ID `task_id` a new run would get.
pub open spec fn research_answer(
    p: ResearchParams,
    existing: Option<MarketResearchView>,
    now: u64,
    task_id: Seq<char>,
) -> ResearchActionResultView {
    if p.market_id@.len() == 0 || p.market_question@.len() == 0 {
        ResearchActionResultView {
            error: Some("missing_parameters"@),
            ..plain_answer(p, false, "error"@)
        }
    } else if starts_research(p, existing, now) {
        ResearchActionResultView {
            task_id: Some(task_id),
            estimated_remaining: Some(30),
            ..plain_answer(p, true, "started"@)
        }
    } else {
        let e = existing->0;
        let seen = observed(e, now);
        if seen.status == ResearchStatus::Completed {
            ResearchActionResultView {
                recommendation: recommendation_of(seen),
                cached: true,
                completed_at: seen.completed_at,
                expires_at: seen.expires_at,
                ..plain_answer(p, true, "completed"@)
            }
        } else if seen.status == ResearchStatus::InProgress {
            let elapsed = match elapsed_minutes(Some(e), now) {
                Some(m) => m,
                None => 0,
            };
            ResearchActionResultView {
                task_id: seen.task_id,
                elapsed_minutes: Some(elapsed),
                estimated_remaining: Some(remaining_minutes(elapsed)),
                ..plain_answer(p, true, "in_progress"@)
            }
        } else if seen.status == ResearchStatus::Expired {
            ResearchActionResultView {
                recommendation: recommendation_of(seen),
                expires_at: seen.expires_at,
                ..plain_answer(p, true, "expired"@)
            }
        } else {
            ResearchActionResultView { error: seen.error_message, ..plain_answer(p, false, "failed"@) }
        }
    }
}

fn answer(p: &ResearchParams, success: bool, status: &str) -> (r: ResearchActionResult)
    ensures
        r@ == plain_answer(*p, success, status@),
{
    ResearchActionResult {
        success,
        status: String::from_str(status),
        market_id: p.market_id.clone(),
        market_question: p.market_question.clone(),
        task_id: None,
        recommendation: None,
        cached: false,
        completed_at: None,
        expires_at: None,
        elapsed_minutes: None,
        estimated_remaining: None,
        error: None,
    }
}

fn recommendation_in(r: &MarketResearch) -> (c: Option<ResearchRecommendation>)
    ensures
        opt_rec_view(c) == recommendation_of(r@),
{
    match &r.result {
        Some(res) => clone_recommendation(&res.recommendation),
        None => None,
    }
}

/// Answers a request for research on a market at time `now`: from the cache
/// when research is complete and current, with progress when it is under
/// way, with the earlier outcome when it expired or failed (unless a
/// refresh is forced), and otherwise by starting a run with ID `task_id`.
pub fn research_market_at(
    params: &ResearchParams,
    storage: &mut ResearchStorage,
    now: u64,
    task_id: &str,
) -> (r: ResearchActionResult)
    ensures
        final(storage).expiry() == old(storage).expiry(),
        r@ == research_answer(*params, old(storage)@.get(params.market_id@), now, task_id@),
        final(storage)@ == if starts_research(*params, old(storage)@.get(params.market_id@), now) {
            old(storage)@.insert(
                params.market_id@,
                in_progress_view(params.market_id@, params.market_question@, task_id@, now),
            )
        } else {
            old(storage)@
        },
{
    let market_id = params.market_id.as_str();
    let market_question = params.market_question.as_str();

    if market_id.is_empty() || market_question.is_empty() {
        let mut r = answer(params, false, "error");
        r.error = Some(String::from_str("missing_parameters"));
        return r;
    }
    let existing = storage.get_market_research_at(market_id, now);

    if let Some(research) = &existing {
        if research.status == ResearchStatus::Completed && !params.force_refresh {
            let mut r = answer(params, true, "completed");
            r.recommendation = recommendation_in(research);
            r.cached = true;
            r.completed_at = research.completed_at;
            r.expires_at = research.expires_at;
            return r;
        }
        if research.status == ResearchStatus::InProgress {
            let elapsed = match storage.get_elapsed_minutes_at(market_id, now) {
                Some(m) => m,
                None => 0,
            };
            let rest = 30u64.saturating_sub(elapsed);
            let remaining = if rest >= 5 { rest } else { 5 };
            let mut r = answer(params, true, "in_progress");
            r.task_id = research.task_id.clone();
            r.elapsed_minutes = Some(elapsed);
            r.estimated_remaining = Some(remaining);
            return r;
        }
        if research.status == ResearchStatus::Expired && !params.force_refresh {
            let mut r = answer(params, true, "expired");
            r.recommendation = recommendation_in(research);
            r.expires_at = research.expires_at;
            return r;
        }
        if research.status == ResearchStatus::Failed && !params.force_refresh {
            let mut r = answer(params, false, "failed");
            r.error = research.error_message.clone();
            return r;
        }
    }

    let _prompt = build_research_prompt(market_question);
    storage.mark_in_progress_at(market_id, market_question, task_id, now);
    let mut r = answer(params, true, "started");
    r.task_id = Some(String::from_str(task_id));
    r.estimated_remaining = Some(30);
    r
}

/// Answers a request for research on a market at the current time; a new
/// run gets an ID made from the current time (`uuid_text` of some time).
pub fn research_market(params: &ResearchParams, storage: &mut ResearchStorage) -> (r: ResearchActionResult)
    ensures
        final(storage).expiry() == old(storage).expiry(),
        exists|now: u64, t: u128|
            {
                &&& r@ == #[trigger] research_answer(
                    *params,
                    old(storage)@.get(params.market_id@),
                    now,
                    uuid_text(t),
                )
                &&& final(storage)@ == if starts_research(*params, old(storage)@.get(params.market_id@), now) {
                    old(storage)@.insert(
                        params.market_id@,
                        in_progress_view(params.market_id@, params.market_question@, uuid_text(t), now),
                    )
                } else {
                    old(storage)@
                }
            },
{
    let now = now_secs();
    let task_id = uuid_v4();
    let ghost t = choose|t: u128| task_id@ == uuid_text(t);
    let r = research_market_at(params, storage, now, task_id.as_str());
    assert(r@ == research_answer(*params, old(storage)@.get(params.market_id@), now, uuid_text(t)));
    r
}

// ===========================================================================
// Task IDs
// ===========================================================================

/// The lowest `width` hexadecimal digits of `v`, zero-padded, lowercase.
pub open spec fn hex_fixed(v: nat, width: nat) -> Seq<char>
    decreases width,
{
    if width == 0 {
        seq![]
    } else {
        hex_fixed(v / 16, (width - 1) as nat).push(crate::text::nibble_char(v % 16))
    }
}

fn hex_digit(d: u128) -> (c: char)
    requires
        d < 16,
    ensures
        c == crate::text::nibble_char(d as nat),
{
    match d {
        0 => '0',
        1 => '1',
        2 => '2',
        3 => '3',
        4 => '4',
        5 => '5',
        6 => '6',
        7 => '7',
        8 => '8',
        9 => '9',
        10 => 'a',
        11 => 'b',
        12 => 'c',
        13 => 'd',
        14 => 'e',
        _ => 'f',
    }
}

fn push_hex_fixed(s: &mut String, v: u128, width: u32)
    ensures
        final(s)@ == old(s)@ + hex_fixed(v as nat, width as nat),
    decreases width,
{
    if width > 0 {
        push_hex_fixed(s, v / 16, width - 1);
        crate::text::push_char(s, hex_digit(v % 16));
    }
    proof {
        if width == 0 {
            assert(hex_fixed(v as nat, 0) =~= seq![]);
        }
    }
}

/// The version-4-shaped identifier made from a nanosecond timestamp `t`:
/// its fields are bits of `t` in lowercase hexadecimal, with the version
/// digit 4 and the variant bit set.
pub open spec fn uuid_text(t: u128) -> Seq<char> {
    hex_fixed((t & 0xFFFF_FFFF) as nat, 8) + "-"@ + hex_fixed(((t >> 32) & 0xFFFF) as nat, 4) + "-4"@
        + hex_fixed(((t >> 48) & 0x0FFF) as nat, 3) + "-"@ + hex_fixed(
        (0x8000 | ((t >> 60) & 0x3FFF)) as nat,
        4,
    ) + "-"@ + hex_fixed((((t >> 74) ^ t) & 0xFFFF_FFFF_FFFF) as nat, 12)
}

/// The identifier made from the nanosecond timestamp `t`.
pub fn uuid_from_nanos(t: u128) -> (s: String)
    ensures
        s@ == uuid_text(t),
{
    let mut s = String::new();
    push_hex_fixed(&mut s, t & 0xFFFF_FFFF, 8);
    s.append("-");
    push_hex_fixed(&mut s, (t >> 32) & 0xFFFF, 4);
    s.append("-4");
    push_hex_fixed(&mut s, (t >> 48) & 0x0FFF, 3);
    s.append("-");
    push_hex_fixed(&mut s, 0x8000 | ((t >> 60) & 0x3FFF), 4);
    s.append("-");
    push_hex_fixed(&mut s, ((t >> 74) ^ t) & 0xFFFF_FFFF_FFFF, 12);
    s
}

/// A fresh task identifier made from the current time.
pub fn uuid_v4() -> (s: String)
    ensures
        exists|t: u128| s@ == #[trigger] uuid_text(t),
{
    uuid_from_nanos(unix_time_nanos())
}

// ===========================================================================
// Text
// ===========================================================================

/// The research prompt for a market question.
pub open spec fn research_prompt(question: Seq<char>) -> Seq<char> {
    "Conduct comprehensive research on this prediction market question:\n\n\""@ + question
        + "\"\n\nResearch goals:\n1. Gather current state and the most recent developments related to this question\n2. Find historical precedents and patterns that might inform the outcome\n3. Collect expert opinions, forecasts, and analysis from multiple credible sources\n4. Identify key factors and variables that could influence the result\n5. Note any important upcoming events or deadlines\n6. Assess the reliability and potential biases of different information sources\n\nProvide a thorough, well-sourced analysis that would help someone make an informed prediction about this market's outcome."@
}

/// Builds the research prompt for a market question.
pub fn build_research_prompt(market_question: &str) -> (s: String)
    ensures
        s@ == research_prompt(market_question@),
{
    let mut s = String::from_str("Conduct comprehensive research on this prediction market question:\n\n\"");
    s.append(market_question);
    s.append("\"\n\nResearch goals:\n1. Gather current state and the most recent developments related to this question\n2. Find historical precedents and patterns that might inform the outcome\n3. Collect expert opinions, forecasts, and analysis from multiple credible sources\n4. Identify key factors and variables that could influence the result\n5. Note any important upcoming events or deadlines\n6. Assess the reliability and potential biases of different information sources\n\nProvide a thorough, well-sourced analysis that would help someone make an informed prediction about this market's outcome.");
    s
}

/// `o` when it is set, else `default`.
pub open spec fn or_text(o: Option<Seq<char>>, default: Seq<char>) -> Seq<char> {
    match o {
        Some(t) => t,
        None => default,
    }
}

/// `o` when it is set, else `default`.
pub open spec fn or_number(o: Option<u64>, default: u64) -> u64 {
    match o {
        Some(n) => n,
        None => default,
    }
}

/// The text shown for a research action result.
pub open spec fn action_result_text(r: ResearchActionResultView) -> Seq<char> {
    if r.status == "completed"@ {
        "📊 **Research Complete: "@ + r.market_question + "**\n\nResearch is available and current."@
            + (if r.cached { "\n**Cached:** Yes"@ } else { ""@ })
            + "\n\nUse `get_research_details` for full analysis."@
    } else if r.status == "in_progress"@ {
        "⏳ **Research In Progress**\n\n**Market:** "@ + r.market_question + "\n**Started:** "@ + dec(
            or_number(r.elapsed_minutes, 0) as nat,
        ) + " minutes ago\n**Task ID:** `"@ + or_text(r.task_id, "unknown"@)
            + "`\n\nDeep research typically takes 20-40 minutes. Estimated time remaining: ~"@ + dec(
            or_number(r.estimated_remaining, 30) as nat,
        ) + " minutes."@
    } else if r.status == "expired"@ {
        let trade = r.recommendation matches Some(rec) && rec.should_trade;
        let conf: u8 = match r.recommendation {
            Some(rec) => rec.confidence,
            None => 0,
        };
        "⚠️ **Research Expired**\n\nPrevious research for this market is outdated.\n\n**Previous Recommendation:** "@
            + (if trade { "Trade"@ } else { "No Trade"@ }) + " ("@ + dec(conf as nat)
            + "% confidence)\n\nWould you like me to start fresh research?"@
    } else if r.status == "failed"@ {
        "❌ **Previous Research Failed**\n\nError: "@ + or_text(r.error, "Unknown error"@)
            + "\n\nWould you like me to retry the research?"@
    } else if r.status == "started"@ {
        "🔬 **Research Started**\n\n**Market:** "@ + r.market_question + "\n**Task ID:** `"@ + or_text(
            r.task_id,
            "unknown"@,
        ) + "`\n\nDeep research has been initiated. This typically takes 20-40 minutes."@
    } else {
        "Research status: "@ + r.status
    }
}

fn append_opt(s: &mut String, o: &Option<String>, default: &str)
    ensures
        final(s)@ == old(s)@ + or_text(opt_view(*o), default@),
{
    match o {
        Some(t) => s.append(t.as_str()),
        None => s.append(default),
    }
}

/// Formats a research action result for display.
pub fn format_research_action_result(result: &ResearchActionResult) -> (s: String)
    ensures
        s@ == action_result_text(result@),
{
    let status = result.status.as_str();
    if crate::text::str_eq(status, "completed") {
        let mut s = String::from_str("📊 **Research Complete: ");
        s.append(result.market_question.as_str());
        s.append("**\n\nResearch is available and current.");
        if result.cached {
            s.append("\n**Cached:** Yes");
        } else {
            s.append("");
        }
        s.append("\n\nUse `get_research_details` for full analysis.");
        s
    } else if crate::text::str_eq(status, "in_progress") {
        let mut s = String::from_str("⏳ **Research In Progress**\n\n**Market:** ");
        s.append(result.market_question.as_str());
        s.append("\n**Started:** ");
        push_decimal(&mut s, match result.elapsed_minutes { Some(m) => m, None => 0 });
        s.append(" minutes ago\n**Task ID:** `");
        append_opt(&mut s, &result.task_id, "unknown");
        s.append("`\n\nDeep research typically takes 20-40 minutes. Estimated time remaining: ~");
        push_decimal(&mut s, match result.estimated_remaining { Some(m) => m, None => 30 });
        s.append(" minutes.");
        s
    } else if crate::text::str_eq(status, "expired") {
        let (trade, conf) = match &result.recommendation {
            Some(rec) => (rec.should_trade, rec.confidence),
            None => (false, 0u8),
        };
        let mut s = String::from_str(
            "⚠️ **Research Expired**\n\nPrevious research for this market is outdated.\n\n**Previous Recommendation:** ",
        );
        if trade {
            s.append("Trade");
        } else {
            s.append("No Trade");
        }
        s.append(" (");
        push_decimal(&mut s, conf as u64);
        s.append("% confidence)\n\nWould you like me to start fresh research?");
        s
    } else if crate::text::str_eq(status, "failed") {
        let mut s = String::from_str("❌ **Previous Research Failed**\n\nError: ");
        append_opt(&mut s, &result.error, "Unknown error");
        s.append("\n\nWould you like me to retry the research?");
        s
    } else if crate::text::str_eq(status, "started") {
        let mut s = String::from_str("🔬 **Research Started**\n\n**Market:** ");
        s.append(result.market_question.as_str());
        s.append("\n**Task ID:** `");
        append_opt(&mut s, &result.task_id, "unknown");
        s.append("`\n\nDeep research has been initiated. This typically takes 20-40 minutes.");
        s
    } else {
        let mut s = String::from_str("Research status: ");
        s.append(status);
        s
    }
}

/// The marker for a recommendation: green for a trade held with more than
/// 80% confidence, yellow for any other trade, red otherwise.
pub open spec fn recommendation_marker(rec: Option<ResearchRecommendationView>) -> Seq<char> {
    match rec {
        Some(r) => if r.should_trade && r.confidence > 80 {
            "🟢"@
        } else if r.should_trade {
            "🟡"@
        } else {
            "🔴"@
        },
        None => "🔴"@,
    }
}

/// The lines of a full research report.
pub open spec fn report_lines(r: MarketResearchView) -> Seq<Seq<char>> {
    let rec = recommendation_of(r);
    let head = seq!["📊 **Research Complete: "@ + r.market_question + "**\n"@];
    let summary = match r.result {
        Some(res) => if res.summary.len() != 0 {
            seq!["**Summary:**\n"@ + res.summary + "\n"@]
        } else {
            seq![]
        },
        None => seq![],
    };
    let recommendation = match rec {
        Some(x) => seq![
            "**Trading Recommendation:** "@ + recommendation_marker(rec),
            "• Should Trade: "@ + (if x.should_trade { "Yes"@ } else { "No"@ }),
        ] + (match x.direction {
            Some(d) => seq!["• Direction: "@ + d],
            None => seq![],
        }) + seq![
            "• Confidence: "@ + dec(x.confidence as nat) + "%"@,
            "• Reasoning: "@ + x.reasoning + "\n"@,
        ],
        None => seq![],
    };
    let sources = match r.result {
        Some(res) => if res.sources_count > 0 {
            seq!["**Sources Analyzed:** "@ + dec(res.sources_count as nat)]
        } else {
            seq![]
        },
        None => seq![],
    };
    head + summary + recommendation + sources
}

/// Formats a full research report.
pub fn format_research_results(research: &MarketResearch) -> (s: String)
    ensures
        s@ == join(report_lines(research@), "\n"@),
{
    let rec = recommendation_in(research);
    let mut lines: Vec<String> = Vec::new();
    let mut head = String::from_str("📊 **Research Complete: ");
    head.append(research.market_question.as_str());
    head.append("**\n");
    lines.push(head);

    if let Some(result) = &research.result {
        if !result.summary.as_str().is_empty() {
            let mut l = String::from_str("**Summary:**\n");
            l.append(result.summary.as_str());
            l.append("\n");
            lines.push(l);
        }
    }
    let ghost after_summary = views(lines@);

    if let Some(r) = &rec {
        let mut l = String::from_str("**Trading Recommendation:** ");
        if r.should_trade && r.confidence > 80 {
            l.append("🟢");
        } else if r.should_trade {
            l.append("🟡");
        } else {
            l.append("🔴");
        }
        lines.push(l);
        let mut l = String::from_str("• Should Trade: ");
        if r.should_trade {
            l.append("Yes");
        } else {
            l.append("No");
        }
        lines.push(l);
        if let Some(dir) = &r.direction {
            let mut l = String::from_str("• Direction: ");
            l.append(dir.as_str());
            lines.push(l);
        }
        let mut l = String::from_str("• Confidence: ");
        push_decimal(&mut l, r.confidence as u64);
        l.append("%");
        lines.push(l);
        let mut l = String::from_str("• Reasoning: ");
        l.append(r.reasoning.as_str());
        l.append("\n");
        lines.push(l);
    }
    let ghost after_rec = views(lines@);

    if let Some(result) = &research.result {
        if result.sources_count > 0 {
            let mut l = String::from_str("**Sources Analyzed:** ");
            push_decimal(&mut l, result.sources_count as u64);
            lines.push(l);
        }
    }
    assert(views(lines@) =~= report_lines(research@));
    join_strings(&lines, "\n")
}

// ===========================================================================
// Laws
// ===========================================================================

/// Research marked as started on a market reads back, at any time, as that
/// in-progress record; records of other markets are untouched.
pub proof fn law_started_research_reads_back(
    m: Map<Seq<char>, MarketResearchView>,
    id: Seq<char>,
    question: Seq<char>,
    task_id: Seq<char>,
    started: u64,
    now: u64,
    other: Seq<char>,
)
    requires
        other != id,
    ensures
        observed(m.insert(id, in_progress_view(id, question, task_id, started))[id], now)
            == in_progress_view(id, question, task_id, started),
        m.insert(id, in_progress_view(id, question, task_id, started)).get(other) == m.get(other),
{
}

/// Completed research reads back as completed, with its result, until its
/// expiry time has passed, and as expired afterwards.
pub proof fn law_completed_research_expires(
    prev: MarketResearchView,
    result: ResearchResultView,
    research_id: Seq<char>,
    completed: u64,
    expiry: u64,
    now: u64,
)
    requires
        completed + expiry <= u64::MAX,
    ensures
        now <= completed + expiry ==> observed(
            completed_view(prev, result, research_id, completed, expiry),
            now,
        ).status == ResearchStatus::Completed,
        now > completed + expiry ==> observed(
            completed_view(prev, result, research_id, completed, expiry),
            now,
        ).status == ResearchStatus::Expired,
        observed(completed_view(prev, result, research_id, completed, expiry), now).result == Some(result),
{
}

/// Deleted research is gone; other markets keep theirs.
pub proof fn law_deleted_research_is_gone(m: Map<Seq<char>, MarketResearchView>, id: Seq<char>, other: Seq<char>)
    requires
        other != id,
    ensures
        !m.remove(id).dom().contains(id),
        m.remove(id).get(other) == m.get(other),
{
}

/// A request without a market ID or question is refused with an error and
/// starts nothing.
pub proof fn law_missing_parameters_are_refused(
    p: ResearchParams,
    existing: Option<MarketResearchView>,
    now: u64,
    task_id: Seq<char>,
)
    requires
        p.market_id@.len() == 0 || p.market_question@.len() == 0,
    ensures
        !research_answer(p, existing, now, task_id).success,
        research_answer(p, existing, now, task_id).status == "error"@,
        research_answer(p, existing, now, task_id).error is Some,
        !starts_research(p, existing, now),
{
}

/// A request on a market with no research starts a run with the new task
/// ID, expected to take half an hour.
pub proof fn law_unknown_market_starts_research(p: ResearchParams, now: u64, task_id: Seq<char>)
    requires
        p.market_id@.len() != 0,
        p.market_question@.len() != 0,
    ensures
        starts_research(p, None, now),
        research_answer(p, None, now, task_id).success,
        research_answer(p, None, now, task_id).status == "started"@,
        research_answer(p, None, now, task_id).task_id == Some(task_id),
        research_answer(p, None, now, task_id).estimated_remaining == Some(30u64),
{
}

/// Asking again while research runs reports progress on the same task and
/// starts nothing, forced refresh or not.
pub proof fn law_running_research_is_not_restarted(
    p: ResearchParams,
    question: Seq<char>,
    task_id: Seq<char>,
    started: u64,
    now: u64,
    new_task_id: Seq<char>,
)
    requires
        p.market_id@.len() != 0,
        p.market_question@.len() != 0,
    ensures
        ({
            let e = Some(in_progress_view(p.market_id@, question, task_id, started));
            &&& !starts_research(p, e, now)
            &&& research_answer(p, e, now, new_task_id).status == "in_progress"@
            &&& research_answer(p, e, now, new_task_id).task_id == Some(task_id)
            &&& research_answer(p, e, now, new_task_id).estimated_remaining->0 >= 5
        }),
{
}

/// Current completed research is answered from the cache, with its
/// recommendation, unless a refresh is forced; a forced refresh starts a
/// new run.
pub proof fn law_current_research_is_cached(
    p: ResearchParams,
    e: MarketResearchView,
    now: u64,
    task_id: Seq<char>,
)
    requires
        p.market_id@.len() != 0,
        p.market_question@.len() != 0,
        observed(e, now).status == ResearchStatus::Completed,
    ensures
        !p.force_refresh ==> !starts_research(p, Some(e), now),
        !p.force_refresh ==> research_answer(p, Some(e), now, task_id).cached,
        !p.force_refresh ==> research_answer(p, Some(e), now, task_id).recommendation == recommendation_of(e),
        p.force_refresh ==> starts_research(p, Some(e), now),
{
}

/// Completed research read after its expiry time is answered as expired,
/// not served from the cache: the answer succeeds with status `expired`,
/// is not cached, gives no completion time, and shows the expiry time and
/// the outdated recommendation; no new run starts unless one is forced.
pub proof fn law_expired_research_is_not_served_as_current(
    p: ResearchParams,
    e: MarketResearchView,
    now: u64,
    task_id: Seq<char>,
)
    requires
        p.market_id@.len() != 0,
        p.market_question@.len() != 0,
        !p.force_refresh,
        e.status == ResearchStatus::Completed,
        e.expires_at matches Some(x) && now > x,
    ensures
        !starts_research(p, Some(e), now),
        research_answer(p, Some(e), now, task_id).status == "expired"@,
        research_answer(p, Some(e), now, task_id).success,
        !research_answer(p, Some(e), now, task_id).cached,
        research_answer(p, Some(e), now, task_id).completed_at is None,
        research_answer(p, Some(e), now, task_id).expires_at == e.expires_at,
        research_answer(p, Some(e), now, task_id).recommendation == match e.result {
            Some(res) => res.recommendation,
            None => None,
        },
{
}

/// Completed research read no later than its expiry time (or with none)
/// is served from the cache: the answer succeeds with status `completed`,
/// is cached, and gives the stored completion and expiry times.
pub proof fn law_current_research_is_served_from_cache(
    p: ResearchParams,
    e: MarketResearchView,
    now: u64,
    task_id: Seq<char>,
)
    requires
        p.market_id@.len() != 0,
        p.market_question@.len() != 0,
        !p.force_refresh,
        e.status == ResearchStatus::Completed,
        !(e.expires_at matches Some(x) && now > x),
    ensures
        !starts_research(p, Some(e), now),
        research_answer(p, Some(e), now, task_id).status == "completed"@,
        research_answer(p, Some(e), now, task_id).success,
        research_answer(p, Some(e), now, task_id).cached,
        research_answer(p, Some(e), now, task_id).completed_at == e.completed_at,
        research_answer(p, Some(e), now, task_id).expires_at == e.expires_at,
{
}

} // verus!
