//! Report bookkeeping: the generation of the usage data, the cached graphs and the live tail.

use vstd::prelude::*;
use vstd::string::*;
use crate::agent_warp::state::SourceSnapshot;
use crate::text::same_text;
use crate::warp_usage::WarpUsageSource;

verus! {

/// A graph is served from the cache for this long, in nanoseconds.
pub const ONESHOT_MAX_AGE_NANOS: u64 = 30_000_000_000;

/// The live tail is parsed again after this long, in nanoseconds.
pub const TAIL_TICK_NANOS: u64 = 10_000_000_000;

pub const USAGE_DATA_CHANGED: &'static str = "usage_data_changed";

/// A computed graph: when it was computed or last confirmed, on a clock of nanoseconds that never
/// runs back, the state of the sources then, and the payload.
pub struct GraphCacheEntry {
    pub year: String,
    pub at: u64,
    pub token: u64,
    pub data: String,
}

/// Bookkeeping of the live tail: when it was last parsed to the end, and whether a parse runs.
#[derive(Clone, Copy, Debug, PartialEq, Eq, Structural)]
pub struct TickState {
    pub last: Option<u64>,
    pub in_flight: bool,
}

pub struct Reports {
    pub generation: u64,
    pub graphs: Vec<GraphCacheEntry>,
    pub tick: TickState,
}

#[verifier::ext_equal]
pub ghost struct CachedGraph {
    pub at: u64,
    pub token: u64,
    pub data: Seq<char>,
}

#[verifier::ext_equal]
pub ghost struct ReportsModel {
    pub generation: u64,
    pub graphs: Map<Seq<char>, CachedGraph>,
    pub tick: TickState,
}

impl GraphCacheEntry {
    /// What is kept under the year of the entry.
    pub open spec fn graph(self) -> CachedGraph {
        CachedGraph { at: self.at, token: self.token, data: self.data@ }
    }
}

/// The graph of each year; of two entries for one year the later counts.
pub open spec fn graphs_by_year(entries: Seq<GraphCacheEntry>) -> Map<Seq<char>, CachedGraph>
    decreases entries.len(),
{
    if entries.len() == 0 {
        Map::empty()
    } else {
        graphs_by_year(entries.drop_last()).insert(entries.last().year@, entries.last().graph())
    }
}

impl View for Reports {
    type V = ReportsModel;

    open spec fn view(&self) -> ReportsModel {
        ReportsModel {
            generation: self.generation,
            graphs: graphs_by_year(self.graphs@),
            tick: self.tick,
        }
    }
}

/// The generation that follows another. It counts modulo 2^64.
pub open spec fn next_generation(generation: u64) -> u64 {
    if generation == u64::MAX {
        0
    } else {
        (generation + 1) as u64
    }
}

pub fn bump(generation: u64) -> (r: u64)
    ensures
        r == next_generation(generation),
        r != generation,
{
    if generation == u64::MAX {
        0
    } else {
        generation + 1
    }
}

impl ReportsModel {
    /// The bookkeeping after the usage data changed: no graph is kept and the tail is due.
    pub open spec fn invalidated(self) -> ReportsModel {
        ReportsModel {
            generation: next_generation(self.generation),
            graphs: Map::empty(),
            tick: TickState { last: None, ..self.tick },
        }
    }
}

impl Reports {
    pub fn new() -> (r: Reports)
        ensures
            r@ == (ReportsModel {
                generation: 0,
                graphs: Map::empty(),
                tick: TickState { last: None, in_flight: false },
            }),
    {
        let r = Reports {
            generation: 0,
            graphs: Vec::new(),
            tick: TickState { last: None, in_flight: false },
        };
        assert(r@.graphs =~= Map::empty());
        r
    }
}

pub fn usage_data_generation(reports: &Reports) -> (r: u64)
    ensures
        r == reports@.generation,
{
    reports.generation
}

/// Drops what was derived from the usage data: cached graphs, and the last parse of the tail.
pub fn invalidate_usage_data(reports: &mut Reports)
    ensures
        final(reports)@ == old(reports)@.invalidated(),
{
    reports.generation = bump(reports.generation);
    reports.graphs = Vec::new();
    reports.tick.last = None;
    assert(reports@ =~= old(reports)@.invalidated());
}

/// What the cache knows about the graph of a year.
pub enum CachedRead {
    Missing,
    Fresh(String),
    Aged { token: u64, data: String },
}

/// Whether a graph of that age may be served without looking at the sources.
pub open spec fn young(graph: CachedGraph, now: u64, max_age: u64) -> bool {
    now - graph.at <= max_age
}

fn position_of(entries: &Vec<GraphCacheEntry>, year: &str) -> (r: Option<usize>)
    ensures
        match r {
            Some(i) => {
                &&& i < entries@.len()
                &&& entries@[i as int].year@ == year@
                &&& graphs_by_year(entries@).dom().contains(year@)
                &&& graphs_by_year(entries@)[year@] == entries@[i as int].graph()
            },
            None => !graphs_by_year(entries@).dom().contains(year@),
        },
{
    let mut i: usize = entries.len();
    assert(entries@.take(i as int) =~= entries@);
    while i > 0
        invariant
            i <= entries@.len(),
            graphs_by_year(entries@.take(i as int)).dom().contains(year@) == graphs_by_year(
                entries@,
            ).dom().contains(year@),
            graphs_by_year(entries@).dom().contains(year@) ==> graphs_by_year(
                entries@.take(i as int),
            )[year@] == graphs_by_year(entries@)[year@],
        decreases i,
    {
        assert(entries@.take(i as int).last() == entries@[i - 1]);
        assert(entries@.take(i as int).drop_last() =~= entries@.take(i - 1));
        if same_text(&entries[i - 1].year, year) {
            return Some(i - 1);
        }
        i -= 1;
    }
    None
}

/// What looking the graph of a year up gives: a young one as it is, an aged one with the state of
/// the sources that it was computed from.
pub open spec fn cached_read(
    reports: ReportsModel,
    year: Seq<char>,
    now: u64,
    max_age: u64,
    read: CachedRead,
) -> bool {
    match read {
        CachedRead::Missing => !reports.graphs.dom().contains(year),
        CachedRead::Fresh(data) => {
            &&& reports.graphs.dom().contains(year)
            &&& young(reports.graphs[year], now, max_age)
            &&& data@ == reports.graphs[year].data
        },
        CachedRead::Aged { token, data } => {
            &&& reports.graphs.dom().contains(year)
            &&& !young(reports.graphs[year], now, max_age)
            &&& token == reports.graphs[year].token
            &&& data@ == reports.graphs[year].data
        },
    }
}

/// Looks the graph of a year up. A young one is served as it is; an aged one needs the sources to
/// be unchanged.
pub fn graph_cached(reports: &Reports, year: &str, now: u64, max_age: u64) -> (r: CachedRead)
    ensures
        cached_read(reports@, year@, now, max_age, r),
{
    match position_of(&reports.graphs, year) {
        Some(i) => {
            let entry = &reports.graphs[i];
            if now <= entry.at || now - entry.at <= max_age {
                CachedRead::Fresh(entry.data.clone())
            } else {
                CachedRead::Aged { token: entry.token, data: entry.data.clone() }
            }
        },
        None => CachedRead::Missing,
    }
}

/// The graphs of all years but one.
fn without_year(entries: &Vec<GraphCacheEntry>, year: &str) -> (r: Vec<GraphCacheEntry>)
    ensures
        graphs_by_year(r@) == graphs_by_year(entries@).remove(year@),
{
    let mut kept: Vec<GraphCacheEntry> = Vec::new();
    let mut i: usize = 0;
    assert(entries@.take(0) =~= Seq::empty());
    assert(graphs_by_year(kept@) =~= graphs_by_year(entries@.take(0)).remove(year@));
    while i < entries.len()
        invariant
            i <= entries@.len(),
            graphs_by_year(kept@) == graphs_by_year(entries@.take(i as int)).remove(year@),
        decreases entries@.len() - i,
    {
        let entry = &entries[i];
        let ghost before = kept@;
        let ghost known = graphs_by_year(entries@.take(i as int));
        proof {
            assert(entries@.take(i + 1).last() == entries@[i as int]);
            assert(entries@.take(i + 1).drop_last() =~= entries@.take(i as int));
        }
        if !same_text(&entry.year, year) {
            let copied = GraphCacheEntry {
                year: entry.year.clone(),
                at: entry.at,
                token: entry.token,
                data: entry.data.clone(),
            };
            kept.push(copied);
            assert(kept@.drop_last() =~= before);
            assert(known.insert(entry.year@, entry.graph()).remove(year@) =~= known.remove(year@).insert(
                entry.year@,
                entry.graph(),
            ));
        } else {
            assert(known.insert(entry.year@, entry.graph()).remove(year@) =~= known.remove(year@));
        }
        i += 1;
    }
    assert(entries@.take(i as int) =~= entries@);
    kept
}

fn put_graph(reports: &mut Reports, entry: GraphCacheEntry)
    ensures
        final(reports)@ == (ReportsModel {
            graphs: old(reports)@.graphs.insert(entry.year@, entry.graph()),
            ..old(reports)@
        }),
{
    let mut kept = without_year(&reports.graphs, &entry.year);
    let ghost before = kept@;
    let ghost added = entry;
    kept.push(entry);
    assert(kept@.drop_last() =~= before);
    reports.graphs = kept;
    assert(reports@.graphs =~= old(reports)@.graphs.insert(added.year@, added.graph()));
}

/// The bookkeeping after the graph of a year was confirmed.
pub open spec fn confirmed(before: ReportsModel, year: Seq<char>, now: u64) -> ReportsModel {
    if before.graphs.dom().contains(year) {
        ReportsModel {
            graphs: before.graphs.insert(year, CachedGraph { at: now, ..before.graphs[year] }),
            ..before
        }
    } else {
        before
    }
}

/// What looking at the sources again gives for an aged graph.
pub open spec fn revalidates(
    before: ReportsModel,
    year: Seq<char>,
    token: u64,
    data: String,
    found: Option<u64>,
    now: u64,
    outcome: Option<String>,
    after: ReportsModel,
) -> bool {
    if found == Some(token) {
        outcome == Some(data) && after == confirmed(before, year, now)
    } else {
        outcome is None && after == before
    }
}

/// Serves an aged graph after the sources were looked at again: only where their state is the one
/// it was computed from. The entry that the cache holds by then counts as confirmed now.
pub fn graph_revalidated(
    reports: &mut Reports,
    year: &str,
    token: u64,
    data: String,
    found: Option<u64>,
    now: u64,
) -> (r: Option<String>)
    ensures
        revalidates(old(reports)@, year@, token, data, found, now, r, final(reports)@),
{
    if found != Some(token) {
        return None;
    }
    match position_of(&reports.graphs, year) {
        Some(i) => {
            let entry = GraphCacheEntry {
                year: reports.graphs[i].year.clone(),
                at: now,
                token: reports.graphs[i].token,
                data: reports.graphs[i].data.clone(),
            };
            put_graph(reports, entry);
        },
        None => {},
    }
    Some(data)
}

/// The message that a result holds, or its payload.
pub open spec fn payload(outcome: Result<String, String>) -> Result<Seq<char>, Seq<char>> {
    match outcome {
        Ok(data) => Ok(data@),
        Err(message) => Err(message@),
    }
}

/// What keeping a computed graph gives: the graph where the usage data is still that of
/// `generation`, else an error and nothing kept.
pub open spec fn computes(
    before: ReportsModel,
    year: Seq<char>,
    generation: u64,
    token: Option<u64>,
    outcome: Result<Seq<char>, Seq<char>>,
    now: u64,
    given: Result<Seq<char>, Seq<char>>,
    after: ReportsModel,
) -> bool {
    match outcome {
        Err(_) => given == outcome && after == before,
        Ok(data) => if before.generation != generation {
            given == Err::<Seq<char>, Seq<char>>(USAGE_DATA_CHANGED@) && after == before
        } else {
            given == outcome && after == (ReportsModel {
                graphs: before.graphs.insert(
                    year,
                    CachedGraph {
                        at: now,
                        token: match token {
                            Some(found) => found,
                            None => 0,
                        },
                        data,
                    },
                ),
                ..before
            })
        },
    }
}

/// Keeps a graph that was computed from the usage data of `generation`. Where the data changed
/// meanwhile, the graph is neither kept nor served. `token` is the state of the sources before the
/// computation, zero where it could not be found.
pub fn graph_computed(
    reports: &mut Reports,
    year: &str,
    generation: u64,
    token: Option<u64>,
    outcome: Result<String, String>,
    now: u64,
) -> (r: Result<String, String>)
    ensures
        computes(
            old(reports)@,
            year@,
            generation,
            token,
            payload(outcome),
            now,
            payload(r),
            final(reports)@,
        ),
{
    let data = match outcome {
        Ok(data) => data,
        Err(message) => return Err(message),
    };
    if reports.generation != generation {
        return Err(USAGE_DATA_CHANGED.to_owned());
    }
    let token: u64 = match token {
        Some(found) => found,
        None => 0,
    };
    put_graph(
        reports,
        GraphCacheEntry { year: year.to_owned(), at: now, token, data: data.clone() },
    );
    Ok(data)
}

/// Whether the tail is to be parsed now: no parse runs, and the last one is too long ago.
pub open spec fn tick_due(tick: TickState, now: u64) -> bool {
    !tick.in_flight && (tick.last matches Some(at) ==> now - at >= TAIL_TICK_NANOS)
}

/// What asking for a parse of the tail gives: a claim under the generation of the data, where one
/// is due.
pub open spec fn claims(
    before: ReportsModel,
    now: u64,
    claimed: Option<u64>,
    after: ReportsModel,
) -> bool {
    if tick_due(before.tick, now) {
        claimed == Some(before.generation) && after == (ReportsModel {
            tick: TickState { in_flight: true, ..before.tick },
            ..before
        })
    } else {
        claimed is None && after == before
    }
}

/// The bookkeeping after a parse of the tail came to its end.
pub open spec fn finished(before: ReportsModel, generation: u64, now: u64) -> ReportsModel {
    if before.generation == generation {
        ReportsModel { tick: TickState { last: Some(now), ..before.tick }, ..before }
    } else {
        before
    }
}

/// The bookkeeping after the claim on the tail was given back.
pub open spec fn released(before: ReportsModel) -> ReportsModel {
    ReportsModel { tick: TickState { in_flight: false, ..before.tick }, ..before }
}

/// Claims a parse of the live tail where one is due. The caller that gets a generation parses the
/// tail, reports with `finish_tail_tick` where the parse came to its end, and in any case releases
/// the claim.
pub fn tail_tick_if_stale(reports: &mut Reports, now: u64) -> (r: Option<u64>)
    ensures
        claims(old(reports)@, now, r, final(reports)@),
{
    if reports.tick.in_flight {
        return None;
    }
    let stale: bool = match reports.tick.last {
        Some(at) => now >= at && now - at >= TAIL_TICK_NANOS,
        None => true,
    };
    if stale {
        reports.tick.in_flight = true;
        Some(reports.generation)
    } else {
        None
    }
}

/// Stamps a parse of the tail that came to its end, unless the usage data changed during it.
pub fn finish_tail_tick(reports: &mut Reports, generation: u64, now: u64)
    ensures
        final(reports)@ == finished(old(reports)@, generation, now),
{
    if reports.generation == generation {
        reports.tick.last = Some(now);
    }
}

/// Gives the claim on the tail back, whether or not the parse came to its end.
pub fn release_tail_tick(reports: &mut Reports)
    ensures
        final(reports)@ == released(old(reports)@),
{
    reports.tick.in_flight = false;
}

/// While one caller holds the claim on the tail, no other gets it.
pub proof fn tail_ticks_are_single_flight(tick: TickState, now: u64, later: u64)
    requires
        tick_due(tick, now),
    ensures
        !tick_due(TickState { in_flight: true, ..tick }, later),
{
}

/// A parse that did not come to its end is due again at once, a finished one only after the
/// interval.
pub proof fn abandoned_ticks_are_due_again(tick: TickState, now: u64, later: u64)
    requires
        tick_due(tick, now),
        now <= later,
    ensures
        tick_due(TickState { in_flight: false, ..tick }, later),
        tick_due(TickState { in_flight: false, last: Some(now) }, later) <==> later - now
            >= TAIL_TICK_NANOS,
{
}

/// Invalidating leaves no graph to serve, makes the tail due as soon as no parse runs, and makes
/// every graph computed from the data before it unfit to keep.
pub proof fn invalidation_leaves_nothing_stale(before: ReportsModel, year: Seq<char>, now: u64)
    ensures
        !before.invalidated().graphs.dom().contains(year),
        before.invalidated().generation != before.generation,
        !before.tick.in_flight ==> tick_due(before.invalidated().tick, now),
{
}

/// Whether the sources stayed the same through a run.
pub open spec fn undisturbed(seen: (u64, SourceSnapshot), counted: (u64, u64)) -> bool {
    counted.0 == seen.0 && counted.1 == seen.1.generation
}

/// One run of a report: the sources are observed, the report is made of the source that was seen,
/// and the generations are counted afterwards, each once.
pub open spec fn report_run<
    T,
    W,
    O: Fn(W) -> ((u64, SourceSnapshot), W),
    B: Fn(W, Option<WarpUsageSource>) -> (Result<T, String>, W),
    G: Fn(W) -> ((u64, u64), W),
>(
    observe: O,
    body: B,
    generations: G,
    before: W,
    seen: (u64, SourceSnapshot),
    outcome: Result<T, String>,
    counted: (u64, u64),
    after: W,
) -> bool {
    exists|observed: W, reported: W|
        {
            &&& call_ensures(observe, (before,), (seen, observed))
            &&& #[trigger] call_ensures(
                body,
                (observed, seen.1.warp_usage_source),
                (outcome, reported),
            )
            &&& call_ensures(generations, (reported,), (counted, after))
        }
}

/// A run whose outcome counts, since the sources stayed the same.
pub open spec fn settled_run<
    T,
    W,
    O: Fn(W) -> ((u64, SourceSnapshot), W),
    B: Fn(W, Option<WarpUsageSource>) -> (Result<T, String>, W),
    G: Fn(W) -> ((u64, u64), W),
>(observe: O, body: B, generations: G, before: W, outcome: Result<T, String>, after: W) -> bool {
    exists|seen: (u64, SourceSnapshot), counted: (u64, u64)| #[trigger]
        report_run(observe, body, generations, before, seen, outcome, counted, after)
            && undisturbed(seen, counted)
}

/// A run whose outcome is dropped, since the sources changed meanwhile.
pub open spec fn dropped_run<
    T,
    W,
    O: Fn(W) -> ((u64, SourceSnapshot), W),
    B: Fn(W, Option<WarpUsageSource>) -> (Result<T, String>, W),
    G: Fn(W) -> ((u64, u64), W),
>(observe: O, body: B, generations: G, before: W, after: W) -> bool {
    exists|seen: (u64, SourceSnapshot), outcome: Result<T, String>, counted: (u64, u64)| #[trigger]
        report_run(observe, body, generations, before, seen, outcome, counted, after)
            && !undisturbed(seen, counted)
}

/// What a report over stable sources may give: the outcome of the first run where it counts, else
/// that of a second run where it counts, else that the data kept changing.
pub open spec fn stable_report<
    T,
    W,
    O: Fn(W) -> ((u64, SourceSnapshot), W),
    B: Fn(W, Option<WarpUsageSource>) -> (Result<T, String>, W),
    G: Fn(W) -> ((u64, u64), W),
>(observe: O, body: B, generations: G, before: W, outcome: Result<T, String>, after: W) -> bool {
    ||| settled_run(observe, body, generations, before, outcome, after)
    ||| exists|between: W|
        {
            &&& #[trigger] dropped_run(observe, body, generations, before, between)
            &&& settled_run(observe, body, generations, between, outcome, after) || (dropped_run(
                observe,
                body,
                generations,
                between,
                after,
            ) && (outcome matches Err(message) && message@ == USAGE_DATA_CHANGED@))
        }
}

/// Runs a report over the sources, and runs it once more where they changed meanwhile. Only the
/// outcome of an undisturbed run is returned; after two disturbed ones it is an error. A `W` is
/// handed from each call to the next, so that the contract fixes which calls are made, how often
/// and in which order.
pub fn with_stable_usage_source<
    T,
    W,
    O: Fn(W) -> ((u64, SourceSnapshot), W),
    B: Fn(W, Option<WarpUsageSource>) -> (Result<T, String>, W),
    G: Fn(W) -> ((u64, u64), W),
>(world: W, observe: O, body: B, generations: G) -> (r: (Result<T, String>, W))
    requires
        forall|w: W| #[trigger] call_requires(observe, (w,)),
        forall|w: W, source: Option<WarpUsageSource>| #[trigger] call_requires(body, (w, source)),
        forall|w: W| #[trigger] call_requires(generations, (w,)),
    ensures
        stable_report(observe, body, generations, world, r.0, r.1),
{
    let (first, world) = attempt(world, &observe, &body, &generations);
    if let Some(outcome) = first {
        return (outcome, world);
    }
    let (second, world) = attempt(world, &observe, &body, &generations);
    match second {
        Some(outcome) => (outcome, world),
        None => (Err(USAGE_DATA_CHANGED.to_owned()), world),
    }
}

fn attempt<
    T,
    W,
    O: Fn(W) -> ((u64, SourceSnapshot), W),
    B: Fn(W, Option<WarpUsageSource>) -> (Result<T, String>, W),
    G: Fn(W) -> ((u64, u64), W),
>(world: W, observe: &O, body: &B, generations: &G) -> (r: (Option<Result<T, String>>, W))
    requires
        forall|w: W| #[trigger] call_requires(*observe, (w,)),
        forall|w: W, source: Option<WarpUsageSource>| #[trigger] call_requires(*body, (w, source)),
        forall|w: W| #[trigger] call_requires(*generations, (w,)),
    ensures
        match r.0 {
            Some(outcome) => settled_run(*observe, *body, *generations, world, outcome, r.1),
            None => dropped_run(*observe, *body, *generations, world, r.1),
        },
{
    let (seen, observed) = observe(world);
    let ghost whole = seen;
    let (usage_generation, snapshot) = seen;
    let warp_generation: u64 = snapshot.generation;
    let (outcome, reported) = body(observed, snapshot.warp_usage_source);
    let (counted, after) = generations(reported);
    assert(report_run(*observe, *body, *generations, world, whole, outcome, counted, after));
    if counted.0 == usage_generation && counted.1 == warp_generation {
        (Some(outcome), after)
    } else {
        (None, after)
    }
}

/// A graph that was kept is served as it is while it is young enough, and afterwards only with the
/// state of the sources that it was computed from. One of another year is not touched.
pub proof fn kept_graphs_are_served(
    before: ReportsModel,
    year: Seq<char>,
    other: Seq<char>,
    graph: CachedGraph,
    now: u64,
    max_age: u64,
)
    requires
        other != year,
    ensures
        ({
            let after = ReportsModel { graphs: before.graphs.insert(year, graph), ..before };
            &&& after.graphs.dom().contains(year)
            &&& after.graphs[year] == graph
            &&& after.graphs.dom().contains(other) == before.graphs.dom().contains(other)
            &&& before.graphs.dom().contains(other) ==> after.graphs[other] == before.graphs[other]
        }),
        now >= graph.at && now - graph.at <= max_age ==> young(graph, now, max_age),
        now < graph.at ==> young(graph, now, max_age),
        now >= graph.at && now - graph.at > max_age ==> !young(graph, now, max_age),
{
}

/// The bookkeeping that is kept is that of its entries: a year with one entry has the graph of that
/// entry, and of two entries the later one counts.
pub proof fn the_latest_entry_of_a_year_counts(entries: Seq<GraphCacheEntry>, year: Seq<char>, i: int)
    requires
        -1 <= i < entries.len(),
        forall|j: int| i < j < entries.len() ==> (#[trigger] entries[j]).year@ != year,
    ensures
        i >= 0 && entries[i].year@ == year ==> {
            &&& graphs_by_year(entries).dom().contains(year)
            &&& graphs_by_year(entries)[year].at == entries[i].at
            &&& graphs_by_year(entries)[year].token == entries[i].token
            &&& graphs_by_year(entries)[year].data == entries[i].data@
        },
        i == -1 ==> !graphs_by_year(entries).dom().contains(year),
    decreases entries.len(),
{
    if entries.len() > 0 && i < entries.len() - 1 {
        assert(entries[entries.len() - 1].year@ != year);
        let rest = entries.drop_last();
        assert forall|j: int| i < j < rest.len() implies (#[trigger] rest[j]).year@ != year by {
            assert(rest[j] == entries[j]);
        }
        the_latest_entry_of_a_year_counts(rest, year, i);
    }
}

/// The tail is due exactly where no parse runs and the last one ended ten seconds ago or more, or
/// none ended yet.
pub proof fn the_tail_is_due_every_ten_seconds(tick: TickState, now: u64)
    ensures
        tick.in_flight ==> !tick_due(tick, now),
        !tick.in_flight && tick.last is None ==> tick_due(tick, now),
        !tick.in_flight && (tick.last matches Some(at) && now >= at + 10_000_000_000) ==> tick_due(
            tick,
            now,
        ),
        tick.last matches Some(at) && now < at + 10_000_000_000 ==> !tick_due(tick, now),
{
}

/// Invalidating counts the generation on by one, drops every graph and forgets the last parse; a
/// parse that runs goes on.
pub proof fn invalidation_counts_on(before: ReportsModel, year: Seq<char>)
    ensures
        before.generation < u64::MAX ==> before.invalidated().generation == before.generation + 1,
        before.generation == u64::MAX ==> before.invalidated().generation == 0,
        !before.invalidated().graphs.dom().contains(year),
        before.invalidated().tick.last is None,
        before.invalidated().tick.in_flight == before.tick.in_flight,
{
}

/// A run is undisturbed exactly where both generations are the ones that were seen before it.
pub proof fn runs_are_disturbed_by_either_change(
    seen: (u64, SourceSnapshot),
    counted: (u64, u64),
)
    ensures
        undisturbed(seen, counted) <==> counted.0 == seen.0 && counted.1 == seen.1.generation,
        counted.0 != seen.0 ==> !undisturbed(seen, counted),
        counted.1 != seen.1.generation ==> !undisturbed(seen, counted),
{
}

/// A graph that was computed from the data at hand is served again while it is young, and afterwards
/// with the state of the sources before its computation. The graphs of other years are served as
/// before.
pub proof fn computed_graphs_are_served_again(
    before: ReportsModel,
    year: Seq<char>,
    token: u64,
    data: Seq<char>,
    now: u64,
    given: Result<Seq<char>, Seq<char>>,
    after: ReportsModel,
    later: u64,
    max_age: u64,
    read: CachedRead,
    other: Seq<char>,
    elsewhere: CachedRead,
)
    requires
        computes(before, year, before.generation, Some(token), Ok(data), now, given, after),
        now <= later,
        cached_read(after, year, later, max_age, read),
        other != year,
        cached_read(after, other, later, max_age, elsewhere),
    ensures
        given == Ok::<Seq<char>, Seq<char>>(data),
        later - now <= max_age ==> (read matches CachedRead::Fresh(held) && held@ == data),
        later - now > max_age ==> (read matches CachedRead::Aged { token: found, data: held }
            && found == token && held@ == data),
        cached_read(before, other, later, max_age, elsewhere),
        after.generation == before.generation,
        after.tick == before.tick,
{
}

/// A graph from data that changed meanwhile is neither kept nor served, and a failed computation
/// keeps its own error.
pub proof fn outdated_graphs_are_dropped(
    before: ReportsModel,
    year: Seq<char>,
    generation: u64,
    token: Option<u64>,
    data: Seq<char>,
    message: Seq<char>,
    now: u64,
    given: Result<Seq<char>, Seq<char>>,
    after: ReportsModel,
)
    ensures
        computes(before, year, generation, token, Ok(data), now, given, after) && before.generation
            != generation ==> given == Err::<Seq<char>, Seq<char>>("usage_data_changed"@) && after
            == before,
        computes(before, year, generation, token, Err(message), now, given, after) ==> given
            == Err::<Seq<char>, Seq<char>>(message) && after == before,
{
}

/// An aged graph is served exactly where the sources are as they were when it was computed. It is
/// young again from then on.
pub proof fn aged_graphs_need_unchanged_sources(
    before: ReportsModel,
    year: Seq<char>,
    token: u64,
    data: String,
    found: Option<u64>,
    now: u64,
    outcome: Option<String>,
    after: ReportsModel,
    later: u64,
    max_age: u64,
    read: CachedRead,
)
    requires
        revalidates(before, year, token, data, found, now, outcome, after),
        cached_read(after, year, later, max_age, read),
        now <= later,
        later - now <= max_age,
    ensures
        found != Some(token) ==> outcome is None && after == before,
        found == Some(token) ==> outcome == Some(data),
        found == Some(token) && before.graphs.dom().contains(year) ==> (
        read matches CachedRead::Fresh(held) && held@ == before.graphs[year].data),
        found == Some(token) && !before.graphs.dom().contains(year) ==> read is Missing,
{
}

/// Nothing of before is served once the usage data was invalidated.
pub proof fn invalidated_graphs_are_missing(
    before: ReportsModel,
    year: Seq<char>,
    now: u64,
    max_age: u64,
    read: CachedRead,
)
    requires
        cached_read(before.invalidated(), year, now, max_age, read),
    ensures
        read is Missing,
{
}

/// One caller at a time parses the tail: who asks while a parse runs gets nothing, and after one
/// that came to its end the next is given out ten seconds later, not before. One that was given back
/// without coming to its end is given out again at once.
pub proof fn the_tail_is_given_out_once(
    before: ReportsModel,
    now: u64,
    claimed: Option<u64>,
    during: ReportsModel,
    meanwhile: u64,
    second: Option<u64>,
    still: ReportsModel,
    ended: u64,
    later: u64,
    next: Option<u64>,
    next_after: ReportsModel,
    again: Option<u64>,
    again_after: ReportsModel,
    other: u64,
)
    requires
        other != before.generation,
        claims(before, now, claimed, during),
        claimed is Some,
        claims(during, meanwhile, second, still),
        ended <= later,
        claims(released(finished(during, before.generation, ended)), later, next, next_after),
        now <= later,
        claims(released(during), later, again, again_after),
    ensures
        claimed == Some(before.generation),
        second is None,
        still == during,
        later - ended >= 10_000_000_000 ==> next == Some(before.generation),
        later - ended < 10_000_000_000 ==> next is None,
        again == Some(before.generation),
        finished(during, other, ended) == during,
{
}

/// What a report returns comes from a run through which nothing changed, unless it is the error that
/// the data kept changing. Where nothing ever changes, it is the outcome of the first run.
pub proof fn only_undisturbed_runs_are_returned<
    T,
    W,
    O: Fn(W) -> ((u64, SourceSnapshot), W),
    B: Fn(W, Option<WarpUsageSource>) -> (Result<T, String>, W),
    G: Fn(W) -> ((u64, u64), W),
>(
    observe: O,
    body: B,
    generations: G,
    before: W,
    outcome: Result<T, String>,
    after: W,
)
    requires
        stable_report(observe, body, generations, before, outcome, after),
    ensures
        (outcome matches Err(message) && message@ == "usage_data_changed"@) || exists|
            start: W,
            seen: (u64, SourceSnapshot),
            counted: (u64, u64),
            end: W,
        |
            {
                &&& #[trigger] report_run(
                    observe,
                    body,
                    generations,
                    start,
                    seen,
                    outcome,
                    counted,
                    end,
                )
                &&& counted.0 == seen.0
                &&& counted.1 == seen.1.generation
            },
        (forall|
            seen: (u64, SourceSnapshot),
            given: Result<T, String>,
            counted: (u64, u64),
            end: W,
        | #[trigger]
            report_run(observe, body, generations, before, seen, given, counted, end) ==> counted.0
                == seen.0 && counted.1 == seen.1.generation) ==> exists|
            seen: (u64, SourceSnapshot),
            counted: (u64, u64),
        | #[trigger]
            report_run(observe, body, generations, before, seen, outcome, counted, after),
{
}

/// A run makes its report of the source that was seen, observed before it and counted after it.
pub proof fn runs_report_the_source_they_saw<
    T,
    W,
    O: Fn(W) -> ((u64, SourceSnapshot), W),
    B: Fn(W, Option<WarpUsageSource>) -> (Result<T, String>, W),
    G: Fn(W) -> ((u64, u64), W),
>(
    observe: O,
    body: B,
    generations: G,
    before: W,
    seen: (u64, SourceSnapshot),
    outcome: Result<T, String>,
    counted: (u64, u64),
    after: W,
)
    requires
        report_run(observe, body, generations, before, seen, outcome, counted, after),
    ensures
        exists|observed: W, reported: W|
            {
                &&& call_ensures(observe, (before,), (seen, observed))
                &&& #[trigger] call_ensures(
                    body,
                    (observed, seen.1.warp_usage_source),
                    (outcome, reported),
                )
                &&& call_ensures(generations, (reported,), (counted, after))
            },
{
}

} // verus!
