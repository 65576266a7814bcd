//! What holds of every sequence of changes to the active Warp source, and of the steps that a
//! failure takes.

use vstd::prelude::*;
use crate::agent_warp::flows::{self, AppSnapshot, FetchFailure, SetFailureAction, SyncOutcome};
use crate::agent_warp::state::{
    self, AppModel, ExternalModel, ModeModel, PreparedModel, PreparedSource, StateModel, WarpError,
};
use crate::paths;
use crate::reports::{self, CachedGraph, ReportsModel};
use crate::text;

verus! {

/// One change to the state. Every function on the state makes none of them, one, or two of them one
/// after another.
pub ghost enum Change {
    Install(ModeModel),
    Authenticate(AppModel),
    Clear(Option<WarpError>),
    Revoke(Seq<char>),
    NoteError(WarpError),
    ExternalFresh,
    ExternalStale(WarpError),
    ExternalReread(PreparedModel),
    SyncFailed { scope: Seq<char>, failure: FetchFailure, purged: bool },
}

pub open spec fn changed(state: StateModel, change: Change) -> StateModel {
    match change {
        Change::Install(mode) => state.installed(mode),
        Change::Authenticate(app) => state.authenticated(app),
        Change::Clear(error) => state.cleared(error),
        Change::Revoke(scope) => state.revoking(scope),
        Change::NoteError(error) => state.inactive_error(error),
        Change::ExternalFresh => state.external_fresh(),
        Change::ExternalStale(error) => state.external_stale(error),
        Change::ExternalReread(prepared) => state.external_reread(prepared),
        Change::SyncFailed { scope, failure, purged } => flows::same_scope_failed(
            state,
            scope,
            failure,
            purged,
        ),
    }
}

/// The state after a sequence of changes.
pub open spec fn after_all(state: StateModel, changes: Seq<Change>) -> StateModel
    decreases changes.len(),
{
    if changes.len() == 0 {
        state
    } else {
        changed(after_all(state, changes.drop_last()), changes.last())
    }
}

/// The report bookkeeping after a sequence of changes.
pub open spec fn reports_after(
    before: ReportsModel,
    state: StateModel,
    changes: Seq<Change>,
) -> ReportsModel
    decreases changes.len(),
{
    if changes.len() == 0 {
        before
    } else {
        state::following(
            reports_after(before, state, changes.drop_last()),
            after_all(state, changes.drop_last()),
            after_all(state, changes),
        )
    }
}

/// The changes that a bearer which could not be synced makes.
pub open spec fn failure_changes(
    prior: Option<flows::PriorModel>,
    bearer: Seq<char>,
    scope: Seq<char>,
    cached: Option<PreparedModel>,
    failure: FetchFailure,
    purged: bool,
) -> Seq<Change> {
    let noted = if failure.error == WarpError::Unauthorized {
        seq![Change::Revoke(scope)]
    } else {
        Seq::empty()
    };
    match flows::failure_action(prior, scope, cached is Some, failure.error) {
        SetFailureAction::ApplySameScope => noted.push(
            Change::SyncFailed { scope, failure, purged },
        ),
        SetFailureAction::InstallCached => noted.push(
            Change::Install(
                ModeModel::App(flows::app_model(bearer, scope, cached->Some_0, Some(failure))),
            ),
        ),
        SetFailureAction::StayInactive => noted.push(
            Change::NoteError(
                if failure.error == WarpError::Unauthorized && !purged {
                    WarpError::Storage
                } else {
                    failure.error
                },
            ),
        ),
        SetFailureAction::PreservePrior => noted,
    }
}

/// A bearer that could not be synced changes the state by those changes, one after another.
pub proof fn failed_bearers_make_changes(
    state: StateModel,
    prior: Option<flows::PriorModel>,
    bearer: Seq<char>,
    scope: Seq<char>,
    cached: Option<PreparedModel>,
    failure: FetchFailure,
    purged: bool,
)
    ensures
        after_all(state, failure_changes(prior, bearer, scope, cached, failure, purged))
            == flows::set_bearer_failed(state, prior, bearer, scope, cached, failure, purged),
{
    reveal_with_fuel(after_all, 3);
    let changes = failure_changes(prior, bearer, scope, cached, failure, purged);
    let noted = if failure.error == WarpError::Unauthorized {
        seq![Change::Revoke(scope)]
    } else {
        Seq::empty()
    };
    assert(noted.len() > 0 ==> noted.drop_last() =~= Seq::<Change>::empty());
    if changes.len() > noted.len() {
        assert(changes.drop_last() =~= noted);
    }
    assert(state.revoking(scope).revoking(scope).revoked =~= state.revoking(scope).revoked);
}

/// How often the generation counts through a sequence of changes.
spec fn counts(state: StateModel, changes: Seq<Change>) -> nat
    decreases changes.len(),
{
    if changes.len() == 0 {
        0
    } else {
        let earlier = counts(state, changes.drop_last());
        if after_all(state, changes).generation == after_all(
            state,
            changes.drop_last(),
        ).generation {
            earlier
        } else {
            earlier + 1
        }
    }
}

proof fn lemma_one_change(state: StateModel, change: Change)
    ensures
        changed(state, change).generation == state.generation || changed(state, change).generation
            == reports::next_generation(state.generation),
        changed(state, change).generation == state.generation ==> state::active_source(
            changed(state, change),
        ) == state::active_source(state),
{
}

proof fn lemma_counts(state: StateModel, changes: Seq<Change>)
    ensures
        counts(state, changes) <= changes.len(),
        after_all(state, changes).generation as int == (state.generation + counts(state, changes))
            % 0x1_0000_0000_0000_0000,
    decreases changes.len(),
{
    if changes.len() > 0 {
        let earlier = changes.drop_last();
        lemma_counts(state, earlier);
        lemma_one_change(after_all(state, earlier), changes.last());
        let sum = state.generation + counts(state, earlier);
        assert((sum + 1) % 0x1_0000_0000_0000_0000 == (if sum % 0x1_0000_0000_0000_0000
            == 0xffff_ffff_ffff_ffff {
            0
        } else {
            sum % 0x1_0000_0000_0000_0000 + 1
        }));
    }
}

proof fn lemma_counts_grow(state: StateModel, changes: Seq<Change>, k: int)
    requires
        0 <= k <= changes.len(),
    ensures
        counts(state, changes.take(k)) <= counts(state, changes),
        counts(state, changes) == 0 ==> state::active_source(after_all(state, changes.take(k)))
            == state::active_source(state),
    decreases changes.len(),
{
    if changes.len() == 0 {
        assert(changes.take(k) =~= changes);
    } else {
        let earlier = changes.drop_last();
        if k == changes.len() {
            assert(changes.take(k) =~= changes);
            assert(earlier.take(k - 1) =~= earlier);
            lemma_counts_grow(state, earlier, k - 1);
            lemma_one_change(after_all(state, earlier), changes.last());
        } else {
            assert(changes.take(k) =~= earlier.take(k));
            lemma_counts_grow(state, earlier, k);
        }
    }
}

/// Where the generation is the same again after a sequence of changes, the active source was the
/// same all along, so that whoever took a snapshot before can tell. The generation counts modulo
/// 2^64, so the sequence must be shorter than that.
pub proof fn an_unchanged_generation_means_an_unchanged_source(
    state: StateModel,
    changes: Seq<Change>,
    k: int,
)
    requires
        changes.len() <= u64::MAX,
        after_all(state, changes).generation == state.generation,
        0 <= k <= changes.len(),
    ensures
        state::active_source(after_all(state, changes.take(k))) == state::active_source(state),
        state::active_source(after_all(state, changes)) == state::active_source(state),
{
    lemma_counts(state, changes);
    let n = counts(state, changes) as int;
    assert(n == 0) by {
        assert((state.generation + n) % 0x1_0000_0000_0000_0000 == (if state.generation + n
            > u64::MAX {
            state.generation + n - 0x1_0000_0000_0000_0000
        } else {
            state.generation + n
        }));
    }
    lemma_counts_grow(state, changes, k);
    lemma_counts_grow(state, changes, changes.len() as int);
    assert(changes.take(changes.len() as int) =~= changes);
}

/// What was derived from the usage data is dropped once the active source has changed: no graph
/// that was kept before is kept after any sequence of changes through which it did.
pub proof fn source_changes_invalidate_reports(
    state: StateModel,
    changes: Seq<Change>,
    before: ReportsModel,
    k: int,
)
    requires
        0 <= k <= changes.len(),
        state::active_source(after_all(state, changes.take(k))) != state::active_source(state),
    ensures
        reports_after(before, state, changes).graphs == Map::<Seq<char>, CachedGraph>::empty(),
    decreases changes.len(),
{
    let earlier = changes.drop_last();
    if k == changes.len() {
        assert(changes.take(k) =~= changes);
    }
    assert(changes.len() > 0) by {
        assert(changes.len() == 0 ==> changes.take(k) =~= changes);
    }
    lemma_one_change(after_all(state, earlier), changes.last());
    if k < changes.len() {
        assert(changes.take(k) =~= earlier.take(k));
        source_changes_invalidate_reports(state, earlier, before, k);
    } else if state::active_source(after_all(state, earlier)) != state::active_source(state) {
        assert(earlier.take(earlier.len() as int) =~= earlier);
        source_changes_invalidate_reports(state, earlier, before, earlier.len() as int);
    }
}

/// A report through which the source changed is not taken for an undisturbed one, even where the
/// source changed back.
pub proof fn reports_across_a_source_change_are_disturbed(
    state: StateModel,
    changes: Seq<Change>,
    k: int,
    seen: (u64, state::SourceSnapshot),
    counted: (u64, u64),
)
    requires
        changes.len() <= u64::MAX,
        0 <= k <= changes.len(),
        state::active_source(after_all(state, changes.take(k))) != state::active_source(state),
        seen.1.generation == state.generation,
        counted.1 == after_all(state, changes).generation,
    ensures
        !reports::undisturbed(seen, counted),
{
    if after_all(state, changes).generation == state.generation {
        an_unchanged_generation_means_an_unchanged_source(state, changes, k);
    }
}

/// A prepared source that is valid, and was made from the usage beside it.
pub open spec fn sound_source(prepared: PreparedModel) -> bool {
    prepared.source.well_formed() && prepared.source.usage == prepared.usage
}

pub open spec fn sound_mode(mode: ModeModel) -> bool {
    match mode {
        ModeModel::App(app) => sound_source(app.prepared),
        ModeModel::External(external) => sound_source(external.prepared),
    }
}

/// A state whose active source, if there is one, is valid and was made from the usage beside it.
pub open spec fn sound(state: StateModel) -> bool {
    state.mode matches Some(mode) ==> sound_mode(mode)
}

/// A change that brings no unsound source.
pub open spec fn brings_sound(change: Change) -> bool {
    match change {
        Change::Install(mode) => sound_mode(mode),
        Change::Authenticate(app) => sound_source(app.prepared),
        Change::ExternalReread(prepared) => sound_source(prepared),
        _ => true,
    }
}

/// The active source stays valid through every sequence of changes, and the status keeps showing
/// the figures that reports are made from.
pub proof fn active_sources_stay_sound(state: StateModel, changes: Seq<Change>)
    requires
        sound(state),
        forall|i: int| 0 <= i < changes.len() ==> brings_sound(#[trigger] changes[i]),
    ensures
        sound(after_all(state, changes)),
        state::active_source(after_all(state, changes)) matches Some(source) ==> {
            &&& source.well_formed()
            &&& state::status_of(after_all(state, changes)).requests_used
                == source.usage.usage.requests_used
            &&& state::status_of(after_all(state, changes)).spend_cents
                == source.usage.usage.spend_cents
            &&& state::status_of(after_all(state, changes)).workspace_count
                == source.usage.workspaces.len()
        },
    decreases changes.len(),
{
    if changes.len() > 0 {
        let earlier = changes.drop_last();
        assert forall|i: int| 0 <= i < earlier.len() implies brings_sound(
            #[trigger] earlier[i],
        ) by {
            assert(earlier[i] == changes[i]);
        }
        active_sources_stay_sound(state, earlier);
        assert(brings_sound(changes[changes.len() - 1]));
    }
}

/// A reload that started before the source changed is dropped, whatever file it read and whatever
/// happened since.
pub proof fn reloads_never_override_a_newer_source(
    state: StateModel,
    changes: Seq<Change>,
    k: int,
    path: Seq<u8>,
)
    requires
        changes.len() <= u64::MAX,
        0 <= k <= changes.len(),
        state::active_source(after_all(state, changes.take(k))) != state::active_source(state),
    ensures
        !after_all(state, changes).still_reads(state.generation, path),
{
    if after_all(state, changes).generation == state.generation {
        an_unchanged_generation_means_an_unchanged_source(state, changes, k);
    }
}

/// A reload never replaces an app source.
pub proof fn reloads_never_touch_an_app_source(state: StateModel, generation: u64, path: Seq<u8>)
    requires
        flows::uses_app(state),
    ensures
        !state.still_reads(generation, path),
{
}

/// What a change says about an account scope: that it is refused, that it is accepted, or nothing.
pub open spec fn verdict(change: Change, scope: Seq<char>) -> Option<bool> {
    match change {
        Change::Authenticate(app) => if app.account_scope == scope {
            Some(false)
        } else {
            None
        },
        Change::Revoke(named) => if named == scope {
            Some(true)
        } else {
            None
        },
        Change::SyncFailed { scope: named, failure, .. } => if named == scope && failure.error
            == WarpError::Unauthorized {
            Some(true)
        } else {
            None
        },
        _ => None,
    }
}

/// The last thing that a sequence of changes says about an account scope, where it says anything.
pub open spec fn last_verdict(changes: Seq<Change>, scope: Seq<char>) -> Option<bool>
    decreases changes.len(),
{
    if changes.len() == 0 {
        None
    } else {
        match verdict(changes.last(), scope) {
            Some(refused) => Some(refused),
            None => last_verdict(changes.drop_last(), scope),
        }
    }
}

/// A refused account scope stays refused until the service accepts a credential of that scope: after
/// any sequence of changes it is refused exactly where the last that was said about it is a
/// refusal, or nothing was said and it was refused before.
pub proof fn refused_scopes_stay_refused(state: StateModel, changes: Seq<Change>, scope: Seq<char>)
    ensures
        after_all(state, changes).revoked.contains(scope) == (match last_verdict(changes, scope) {
            Some(refused) => refused,
            None => state.revoked.contains(scope),
        }),
    decreases changes.len(),
{
    if changes.len() > 0 {
        refused_scopes_stay_refused(state, changes.drop_last(), scope);
    }
}

/// A failed sync never lifts a refusal, and one that the service refused adds one, whatever was in
/// use and whether or not the cache could be removed.
pub proof fn failed_syncs_keep_refusals(
    state: StateModel,
    prior: Option<flows::PriorModel>,
    bearer: Seq<char>,
    scope: Seq<char>,
    cached: Option<PreparedModel>,
    failure: FetchFailure,
    purged: bool,
    other: Seq<char>,
)
    ensures
        ({
            let after = flows::set_bearer_failed(
                state,
                prior,
                bearer,
                scope,
                cached,
                failure,
                purged,
            );
            &&& state.revoked.contains(other) ==> after.revoked.contains(other)
            &&& failure.error == WarpError::Unauthorized ==> after.revoked.contains(scope)
        }),
{
}

/// A bearer of another account that cannot be synced leaves the source in use as it is.
pub proof fn failed_replacements_keep_the_source(
    state: StateModel,
    bearer: Seq<char>,
    scope: Seq<char>,
    cached: Option<PreparedModel>,
    failure: FetchFailure,
    purged: bool,
)
    requires
        state.mode is Some,
        flows::prior_of(state)->Some_0.account_scope != Some(scope),
    ensures
        ({
            let after = flows::set_bearer_failed(
                state,
                flows::prior_of(state),
                bearer,
                scope,
                cached,
                failure,
                purged,
            );
            after.mode == state.mode && after.generation == state.generation && after.last_error
                == state.last_error
        }),
{
}

/// A refused credential never stays in use: neither its source nor cached usage of it is active
/// afterwards.
pub proof fn refused_credentials_are_dropped(
    state: StateModel,
    bearer: Seq<char>,
    scope: Seq<char>,
    cached: Option<PreparedModel>,
    retry_at_ms: Option<i64>,
    purged: bool,
)
    requires
        flows::prior_of(state) matches Some(identity) ==> identity.account_scope == Some(scope),
    ensures
        flows::set_bearer_failed(
            state,
            flows::prior_of(state),
            bearer,
            scope,
            cached,
            FetchFailure { error: WarpError::Unauthorized, retry_at_ms },
            purged,
        ).mode is None,
        flows::same_scope_failed(
            state,
            scope,
            FetchFailure { error: WarpError::Unauthorized, retry_at_ms },
            purged,
        ).mode is None,
{
}

/// A reload that fails keeps the last good source in use, and the next one that succeeds clears
/// the error.
pub proof fn failed_reloads_keep_the_last_good_source(
    state: StateModel,
    current: ExternalModel,
    error: WarpError,
)
    requires
        state.mode == Some(ModeModel::External(current)),
    ensures
        state::active_source(state.external_stale(error)) == state::active_source(state),
        state::status_of(state.external_stale(error)).stale,
        state::status_of(state.external_stale(error)).error_code == Some(state::code_of(error)),
        state::status_of(state.external_stale(error)).requests_used == state::status_of(
            state,
        ).requests_used,
        ({
            let recovered = state.external_stale(error).external_reread(current.prepared);
            &&& !state::status_of(recovered).stale
            &&& state::status_of(recovered).error_code is None
            &&& state::active_source(recovered) == state::active_source(state)
            &&& recovered.generation == state.generation
        }),
{
}

/// The status is that of exactly the source that reports see.
pub proof fn status_tells_the_active_source(state: StateModel)
    ensures
        state::status_of(state).active <==> state::active_source(state) is Some,
        state.mode matches Some(ModeModel::App(_)) ==> state::status_of(state).mode == "app"@,
        state.mode matches Some(ModeModel::External(_)) ==> state::status_of(state).mode
            == "external"@,
        state.mode is None ==> state::status_of(state).mode == "none"@,
{
}

/// The status tells nothing of the credential: it is the same for any bearer and account scope.
pub proof fn status_hides_the_credential(
    state: StateModel,
    app: AppModel,
    bearer: Seq<char>,
    account_scope: Seq<char>,
)
    requires
        state.mode == Some(ModeModel::App(app)),
    ensures
        state::status_of(state) == state::status_of(
            StateModel {
                mode: Some(ModeModel::App(AppModel { bearer, account_scope, ..app })),
                ..state
            },
        ),
{
}

/// Whether two states hold the same credential and the same usage, whatever else is said of them.
pub open spec fn keeps_app(before: AppModel, after: StateModel) -> bool {
    after.mode matches Some(ModeModel::App(app)) && app.bearer == before.bearer
        && app.account_scope == before.account_scope && app.prepared == before.prepared
}

/// A failed sync of the account in use, other than a refusal, keeps its source and sets the time of
/// the next try: until then a refresh and a new bearer of that account are answered with a
/// cooldown, from then on they go on. The status shows the time and the error.
pub proof fn failed_syncs_cool_down(
    state: StateModel,
    app: AppModel,
    scope: Seq<char>,
    bearer: Seq<char>,
    cached: Option<PreparedModel>,
    failure: FetchFailure,
    purged: bool,
    at: i64,
    now_ms: i64,
    other: Seq<char>,
)
    requires
        state.mode == Some(ModeModel::App(app)),
        failure.error != WarpError::Unauthorized,
        failure.retry_at_ms == Some(at),
        other != app.account_scope,
    ensures
        ({
            let after = flows::same_scope_failed(state, scope, failure, purged);
            &&& keeps_app(app, after)
            &&& after.generation == state.generation
            &&& after.revoked == state.revoked
            &&& after.supported == state.supported
            &&& state::status_of(after).active
            &&& state::status_of(after).stale
            &&& state::status_of(after).retry_at_ms == Some(at)
            &&& state::status_of(after).error_code == Some(state::code_of(failure.error))
            &&& state::status_of(after).requests_used == app.prepared.usage.usage.requests_used
            &&& now_ms < at ==> flows::cooling_down(
                flows::prior_of(after),
                app.account_scope,
                now_ms,
            )
            &&& now_ms >= at ==> !flows::cooling_down(
                flows::prior_of(after),
                app.account_scope,
                now_ms,
            )
            &&& !flows::cooling_down(flows::prior_of(after), other, now_ms)
            &&& state.supported && now_ms < at ==> flows::refresh_refused(after, now_ms) == Some(
                WarpError::Cooldown,
            )
            &&& state.supported && now_ms >= at ==> flows::refresh_refused(after, now_ms) is None
            &&& flows::set_bearer_failed(
                state,
                flows::prior_of(state),
                bearer,
                app.account_scope,
                cached,
                failure,
                purged,
            ) == flows::same_scope_failed(state, app.account_scope, failure, purged)
        }),
{
}

/// A failure without a time of the next try, and a sync that succeeded, leave nothing to wait for.
pub proof fn nothing_else_cools_down(
    state: StateModel,
    app: AppModel,
    scope: Seq<char>,
    failure: FetchFailure,
    purged: bool,
    bearer: Seq<char>,
    prepared: PreparedModel,
    now_ms: i64,
)
    requires
        state.mode == Some(ModeModel::App(app)),
        state.supported,
        failure.error != WarpError::Unauthorized,
        failure.retry_at_ms is None,
    ensures
        flows::refresh_refused(
            flows::same_scope_failed(state, scope, failure, purged),
            now_ms,
        ) is None,
        ({
            let after = state.authenticated(flows::app_model(bearer, scope, prepared, None));
            &&& flows::refresh_refused(after, now_ms) is None
            &&& !flows::cooling_down(flows::prior_of(after), scope, now_ms)
        }),
{
}

/// A sync that succeeded makes its usage the one in use, under its credential, with nothing wrong:
/// the status shows the figures that were fetched. The account is no longer refused, every other
/// one is as before, and the change shows in the generation.
pub proof fn synced_usage_is_in_use(
    state: StateModel,
    bearer: Seq<char>,
    scope: Seq<char>,
    prepared: PreparedModel,
    other: Seq<char>,
)
    ensures
        ({
            let after = state.authenticated(flows::app_model(bearer, scope, prepared, None));
            &&& after.mode matches Some(ModeModel::App(app)) && app.bearer == bearer
                && app.account_scope == scope && app.prepared == prepared && !app.stale
                && app.retry_at_ms is None && app.error is None
            &&& state::active_source(after) == Some(prepared.source)
            &&& shows_usage(state::status_of(after), prepared)
            &&& state::status_of(after).mode == "app"@
            &&& state::status_of(after).error_code is None
            &&& state::status_of(after).retry_at_ms is None
            &&& !state::status_of(after).stale
            &&& !after.revoked.contains(scope)
            &&& other != scope ==> after.revoked.contains(other) == state.revoked.contains(other)
            &&& after.generation != state.generation
            &&& after.last_error is None
            &&& after.supported == state.supported
        }),
{
}

/// Whether a status shows the figures of a source.
pub open spec fn shows_usage(status: state::StatusModel, prepared: PreparedModel) -> bool {
    &&& status.active
    &&& status.synced_at_ms == Some(prepared.usage.synced_at_ms)
    &&& status.requests_used == prepared.usage.usage.requests_used
    &&& status.request_limit == prepared.usage.usage.request_limit
    &&& status.spend_cents == prepared.usage.usage.spend_cents
    &&& status.workspace_count == prepared.usage.workspaces.len()
}

/// The status of a source in use shows its figures and what is wrong with it, under the name of its
/// kind. Without a source it shows no figures, and the last error.
pub proof fn status_shows_figures_and_faults(state: StateModel, app: AppModel, external: ExternalModel)
    ensures
        state::status_of(state).supported == state.supported,
        state.mode == Some(ModeModel::App(app)) ==> {
            &&& shows_usage(state::status_of(state), app.prepared)
            &&& state::status_of(state).mode == "app"@
            &&& state::status_of(state).stale == app.stale
            &&& state::status_of(state).retry_at_ms == app.retry_at_ms
            &&& app.error matches Some(error) ==> state::status_of(state).error_code == Some(
                state::code_of(error),
            )
            &&& app.error is None ==> state::status_of(state).error_code is None
        },
        state.mode == Some(ModeModel::External(external)) ==> {
            &&& shows_usage(state::status_of(state), external.prepared)
            &&& state::status_of(state).mode == "external"@
            &&& state::status_of(state).stale == external.stale
            &&& state::status_of(state).retry_at_ms is None
            &&& external.error matches Some(error) ==> state::status_of(state).error_code == Some(
                state::code_of(error),
            )
            &&& external.error is None ==> state::status_of(state).error_code is None
        },
        state.mode is None ==> {
            &&& state::status_of(state).mode == "none"@
            &&& !state::status_of(state).active
            &&& !state::status_of(state).stale
            &&& state::status_of(state).synced_at_ms is None
            &&& state::status_of(state).retry_at_ms is None
            &&& state::status_of(state).requests_used is None
            &&& state::status_of(state).request_limit is None
            &&& state::status_of(state).spend_cents is None
            &&& state::status_of(state).workspace_count == 0
            &&& state.last_error matches Some(error) ==> state::status_of(state).error_code
                == Some(state::code_of(error))
            &&& state.last_error is None ==> state::status_of(state).error_code is None
        },
{
}

/// A refused credential leaves no source in use and its account refused; the status says why,
/// unless the cache could not be removed, which it says instead. No other account is touched.
pub proof fn refusals_are_remembered_and_shown(
    state: StateModel,
    bearer: Seq<char>,
    scope: Seq<char>,
    cached: Option<PreparedModel>,
    retry_at_ms: Option<i64>,
    purged: bool,
    other: Seq<char>,
)
    requires
        flows::prior_of(state) matches Some(identity) ==> identity.account_scope == Some(scope),
        other != scope,
    ensures
        ({
            let failure = FetchFailure { error: WarpError::Unauthorized, retry_at_ms };
            let after = flows::set_bearer_failed(
                state,
                flows::prior_of(state),
                bearer,
                scope,
                cached,
                failure,
                purged,
            );
            &&& after.mode is None
            &&& after.revoked.contains(scope)
            &&& after.revoked.contains(other) == state.revoked.contains(other)
            &&& purged ==> state::status_of(after).error_code == Some(
                state::code_of(WarpError::Unauthorized),
            )
            &&& !purged ==> state::status_of(after).error_code == Some(
                state::code_of(WarpError::Storage),
            )
            &&& state.mode is Some ==> after.generation != state.generation
        }),
        ({
            let failure = FetchFailure { error: WarpError::Unauthorized, retry_at_ms };
            let after = flows::same_scope_failed(state, scope, failure, purged);
            &&& after.mode is None
            &&& after.revoked.contains(scope)
            &&& after.revoked.contains(other) == state.revoked.contains(other)
            &&& after.generation != state.generation
            &&& purged ==> after.last_error == Some(WarpError::Unauthorized)
            &&& !purged ==> after.last_error == Some(WarpError::Storage)
        }),
{
}

/// Where nothing is in use, a bearer that could not be synced, but was not refused, falls back on
/// the cached usage of its account, which is shown as out of date with the reason. Without cached
/// usage nothing is in use, and the reason is shown.
pub proof fn failed_bearers_fall_back_on_the_cache(
    state: StateModel,
    bearer: Seq<char>,
    scope: Seq<char>,
    cached: PreparedModel,
    failure: FetchFailure,
    purged: bool,
)
    requires
        state.mode is None,
        failure.error != WarpError::Unauthorized,
    ensures
        ({
            let after = flows::set_bearer_failed(
                state,
                flows::prior_of(state),
                bearer,
                scope,
                Some(cached),
                failure,
                purged,
            );
            &&& after.mode matches Some(ModeModel::App(app)) && app.bearer == bearer
                && app.account_scope == scope && app.prepared == cached && app.stale
                && app.retry_at_ms == failure.retry_at_ms && app.error == Some(failure.error)
            &&& state::active_source(after) == Some(cached.source)
            &&& shows_usage(state::status_of(after), cached)
            &&& state::status_of(after).error_code == Some(state::code_of(failure.error))
            &&& after.generation != state.generation
            &&& after.revoked == state.revoked
        }),
        ({
            let after = flows::set_bearer_failed(
                state,
                flows::prior_of(state),
                bearer,
                scope,
                None,
                failure,
                purged,
            );
            &&& after.mode is None
            &&& after.last_error == Some(failure.error)
            &&& after.generation == state.generation
            &&& after.revoked == state.revoked
        }),
{
}

/// Dropping the source leaves none in use and no figures to show; what was refused stays refused.
pub proof fn cleared_states_show_nothing(state: StateModel, error: Option<WarpError>)
    ensures
        state.cleared(error).mode is None,
        state::active_source(state.cleared(error)) is None,
        state.cleared(error).last_error == error,
        state.cleared(error).revoked == state.revoked,
        state.cleared(error).supported == state.supported,
        state.cleared(error).generation != state.generation,
        !state::status_of(state.cleared(error)).active,
{
}

/// A source that is installed is the one in use, with the error of before gone; what was refused
/// stays refused.
pub proof fn installed_sources_are_in_use(state: StateModel, mode: ModeModel)
    ensures
        state.installed(mode).mode == Some(mode),
        state.installed(mode).last_error is None,
        state.installed(mode).revoked == state.revoked,
        state.installed(mode).supported == state.supported,
        state.installed(mode).generation != state.generation,
        mode matches ModeModel::App(app) ==> state::active_source(state.installed(mode)) == Some(
            app.prepared.source,
        ),
        mode matches ModeModel::External(external) ==> state::active_source(state.installed(mode))
            == Some(external.prepared.source),
{
}

/// An external file that was read again and has changed takes the place of the one in use, fresh
/// and without an error. Where usage, file and time of change are the same, it stays and only the
/// error goes.
pub proof fn reread_files_take_their_place(
    state: StateModel,
    current: ExternalModel,
    prepared: PreparedModel,
)
    requires
        state.mode == Some(ModeModel::External(current)),
    ensures
        current.prepared.usage != prepared.usage || current.prepared.source.observed_mtime_ms
            != prepared.source.observed_mtime_ms || paths::path_model(current.prepared.source.path)
            != paths::path_model(prepared.source.path) ==> {
            let after = state.external_reread(prepared);
            &&& after.mode == Some(
                ModeModel::External(ExternalModel { prepared, stale: false, error: None }),
            )
            &&& after.generation != state.generation
            &&& shows_usage(state::status_of(after), prepared)
        },
        current.prepared.usage == prepared.usage && current.prepared.source.observed_mtime_ms
            == prepared.source.observed_mtime_ms && current.prepared.source.path
            == prepared.source.path ==> {
            let after = state.external_reread(prepared);
            &&& after.mode == Some(
                ModeModel::External(
                    ExternalModel { prepared: current.prepared, stale: false, error: None },
                ),
            )
            &&& after.generation == state.generation
            &&& state::external_is_current(state, prepared)
        },
        !state::status_of(state.external_reread(prepared)).stale,
        state::status_of(state.external_reread(prepared)).error_code is None,
        state.external_reread(prepared).revoked == state.revoked,
{
}

/// A refresh asks for what is in use: only an app source on a platform that is supported, with the
/// bearer and the account that it has.
pub proof fn refreshes_need_an_app_source(state: StateModel, now_ms: i64)
    ensures
        !state.supported ==> flows::refresh_refused(state, now_ms) == Some(
            WarpError::UnsupportedPlatform,
        ),
        state.supported && state.mode is None ==> flows::refresh_refused(state, now_ms) == Some(
            WarpError::NoActiveCredential,
        ),
        state.supported && (state.mode matches Some(ModeModel::External(_)))
            ==> flows::refresh_refused(state, now_ms) == Some(WarpError::NoActiveCredential),
        state.supported && (state.mode matches Some(ModeModel::App(app)) && (
        app.retry_at_ms matches Some(at) ==> at <= now_ms)) ==> flows::refresh_refused(
            state,
            now_ms,
        ) is None,
{
}

/// The source in use is kept under its account: only a failure of that very account is applied to
/// it, and a bearer of another account is told so by its own error.
pub proof fn failures_stay_with_their_account(
    state: StateModel,
    app: AppModel,
    scope: Seq<char>,
    has_cache: bool,
    error: WarpError,
)
    requires
        state.mode == Some(ModeModel::App(app)),
    ensures
        scope == app.account_scope ==> flows::failure_action(
            flows::prior_of(state),
            scope,
            has_cache,
            error,
        ) == SetFailureAction::ApplySameScope,
        scope != app.account_scope ==> flows::failure_action(
            flows::prior_of(state),
            scope,
            has_cache,
            error,
        ) == SetFailureAction::PreservePrior,
        scope != app.account_scope || error != WarpError::Unauthorized ==> !flows::purges(
            flows::prior_of(state),
            scope,
            FetchFailure { error, retry_at_ms: None },
        ),
        scope == app.account_scope && error == WarpError::Unauthorized ==> flows::purges(
            flows::prior_of(state),
            scope,
            FetchFailure { error, retry_at_ms: None },
        ),
{
}

/// A refresh that the service puts off is not made again before its time: the status shows when,
/// until then the next refresh and the next bearer of the account are answered with a cooldown, and
/// from then on they go on with the same credential.
pub proof fn put_off_refreshes_wait<P: FnOnce() -> Result<(), WarpError>>(
    before: StateModel,
    app: AppModel,
    snapshot: AppSnapshot,
    failure: FetchFailure,
    at: i64,
    purge: P,
    answer: Result<state::StatusModel, WarpError>,
    after: StateModel,
    now_ms: i64,
    next: Result<AppSnapshot, WarpError>,
    admitted: Result<Option<flows::PriorModel>, WarpError>,
)
    requires
        before.supported,
        before.mode == Some(ModeModel::App(app)),
        failure.error != WarpError::Unauthorized,
        failure.retry_at_ms == Some(at),
        flows::refresh_completes(
            before,
            snapshot,
            SyncOutcome::Failed(failure),
            purge,
            answer,
            after,
        ),
        flows::refresh_begins(after, now_ms, next),
        flows::bearer_admitted(after, app.account_scope, now_ms, admitted),
    ensures
        answer == Err::<state::StatusModel, WarpError>(failure.error),
        state::status_of(after).retry_at_ms == Some(at),
        state::status_of(after).error_code == Some(state::code_of(failure.error)),
        keeps_app(app, after),
        now_ms < at ==> next == Err::<AppSnapshot, WarpError>(WarpError::Cooldown),
        now_ms < at ==> admitted == Err::<Option<flows::PriorModel>, WarpError>(
            WarpError::Cooldown,
        ),
        now_ms >= at ==> (next matches Ok(again) && again.bearer@ == app.bearer
            && again.account_scope@ == app.account_scope && again.generation == before.generation),
        now_ms >= at ==> (admitted matches Ok(Some(prior)) && prior.account_scope == Some(
            app.account_scope,
        )),
{
}

/// A refresh that succeeded under an unchanged source shows the new usage; one that came too late
/// changes nothing, and neither does one whose usage could not be kept.
pub proof fn finished_refreshes_show_their_usage<P: FnOnce() -> Result<(), WarpError>>(
    before: StateModel,
    snapshot: AppSnapshot,
    prepared: PreparedSource,
    error: WarpError,
    purge: P,
    answer: Result<state::StatusModel, WarpError>,
    after: StateModel,
)
    ensures
        flows::refresh_completes(
            before,
            snapshot,
            SyncOutcome::Synced(prepared),
            purge,
            answer,
            after,
        ) && before.generation == snapshot.generation ==> {
            &&& answer is Ok
            &&& shows_usage(answer->Ok_0, prepared@)
            &&& answer->Ok_0.error_code is None
            &&& answer->Ok_0.retry_at_ms is None
            &&& !answer->Ok_0.stale
            &&& state::active_source(after) == Some(prepared@.source)
            &&& after.mode matches Some(ModeModel::App(app)) && app.bearer == snapshot.bearer@
                && app.account_scope == snapshot.account_scope@
            &&& !after.revoked.contains(snapshot.account_scope@)
        },
        flows::refresh_completes(
            before,
            snapshot,
            SyncOutcome::Synced(prepared),
            purge,
            answer,
            after,
        ) && before.generation != snapshot.generation ==> after == before && answer == Err::<
            state::StatusModel,
            WarpError,
        >(WarpError::SourceChanged),
        flows::refresh_completes(
            before,
            snapshot,
            SyncOutcome::NotPersisted(error),
            purge,
            answer,
            after,
        ) ==> after == before && answer == Err::<state::StatusModel, WarpError>(error),
{
}

/// A refresh that is refused leaves nothing in use and the account refused. The answer is the
/// refusal, unless the cache could not be removed.
pub proof fn refused_refreshes_drop_the_source<P: FnOnce() -> Result<(), WarpError>>(
    before: StateModel,
    snapshot: AppSnapshot,
    failure: FetchFailure,
    purge: P,
    answer: Result<state::StatusModel, WarpError>,
    after: StateModel,
)
    requires
        failure.error == WarpError::Unauthorized,
        flows::refresh_completes(
            before,
            snapshot,
            SyncOutcome::Failed(failure),
            purge,
            answer,
            after,
        ),
    ensures
        after.mode is None,
        after.revoked.contains(snapshot.account_scope@),
        answer == Err::<state::StatusModel, WarpError>(WarpError::Unauthorized) || answer == Err::<
            state::StatusModel,
            WarpError,
        >(WarpError::Storage),
        answer == Err::<state::StatusModel, WarpError>(WarpError::Unauthorized) ==> call_ensures(
            purge,
            (),
            Ok::<(), WarpError>(()),
        ),
        answer == Err::<state::StatusModel, WarpError>(WarpError::Storage) ==> exists|
            error: WarpError,
        | #[trigger]
            call_ensures(purge, (), Err::<(), WarpError>(error)),
{
}

/// A bearer whose usage was fetched is in use with it, and the answer shows it. Where the usage
/// could not be kept, nothing changes. Where it could not be fetched, the answer is why, and the
/// purge is tried only for a refusal that does not meet a source of another account.
pub proof fn set_bearers_are_in_use<P: FnOnce() -> Result<(), WarpError>>(
    before: StateModel,
    prior: Option<flows::PriorModel>,
    bearer: Seq<char>,
    scope: Seq<char>,
    cached: Option<PreparedModel>,
    prepared: PreparedSource,
    error: WarpError,
    failure: FetchFailure,
    purge: P,
    answer: Result<state::StatusModel, WarpError>,
    after: StateModel,
)
    ensures
        flows::set_bearer_completes(
            before,
            prior,
            bearer,
            scope,
            cached,
            SyncOutcome::Synced(prepared),
            purge,
            answer,
            after,
        ) ==> {
            &&& answer is Ok
            &&& shows_usage(answer->Ok_0, prepared@)
            &&& answer->Ok_0.mode == "app"@
            &&& answer->Ok_0.error_code is None
            &&& state::active_source(after) == Some(prepared@.source)
            &&& after.mode matches Some(ModeModel::App(app)) && app.bearer == bearer
                && app.account_scope == scope
            &&& !after.revoked.contains(scope)
            &&& after.generation != before.generation
        },
        flows::set_bearer_completes(
            before,
            prior,
            bearer,
            scope,
            cached,
            SyncOutcome::NotPersisted(error),
            purge,
            answer,
            after,
        ) ==> after == before && answer == Err::<state::StatusModel, WarpError>(error),
        flows::set_bearer_completes(
            before,
            prior,
            bearer,
            scope,
            cached,
            SyncOutcome::Failed(failure),
            purge,
            answer,
            after,
        ) && failure.error != WarpError::Unauthorized ==> answer == Err::<
            state::StatusModel,
            WarpError,
        >(failure.error) && after.revoked == before.revoked,
        flows::set_bearer_completes(
            before,
            prior,
            bearer,
            scope,
            cached,
            SyncOutcome::Failed(failure),
            purge,
            answer,
            after,
        ) && failure.error == WarpError::Unauthorized ==> after.revoked.contains(scope) && (answer
            == Err::<state::StatusModel, WarpError>(WarpError::Unauthorized) || answer == Err::<
            state::StatusModel,
            WarpError,
        >(WarpError::Storage)),
{
}

/// An external source that was set is in use and shown. Where the app's own source is in use, its
/// cache goes first: only where that worked is it replaced.
pub proof fn set_external_sources_are_in_use<P: FnOnce() -> Result<(), WarpError>>(
    before: StateModel,
    prepared: PreparedModel,
    purge: P,
    answer: Result<state::StatusModel, WarpError>,
    after: StateModel,
)
    requires
        flows::external_sets(before, prepared, purge, answer, after),
    ensures
        answer is Ok ==> {
            &&& shows_usage(answer->Ok_0, prepared)
            &&& answer->Ok_0.mode == "external"@
            &&& answer->Ok_0.error_code is None
            &&& !answer->Ok_0.stale
        },
        answer is Ok && !(before.mode matches Some(ModeModel::External(_))) ==> after.mode == Some(
            ModeModel::External(ExternalModel { prepared, stale: false, error: None }),
        ) && after.generation != before.generation,
        !(before.mode matches Some(ModeModel::App(_))) ==> answer is Ok,
        (before.mode matches Some(ModeModel::App(_))) && answer is Ok ==> call_ensures(
            purge,
            (),
            Ok::<(), WarpError>(()),
        ),
        answer is Err ==> after == before && answer == Err::<state::StatusModel, WarpError>(
            WarpError::Storage,
        ),
        after.revoked == before.revoked,
{
}

/// A remembered source comes into use only where nothing did since it was asked for; in any case the
/// answer is the status of what is in use then.
pub proof fn restored_sources_never_replace(
    before: StateModel,
    expected_generation: u64,
    prepared: PreparedModel,
    error: WarpError,
    answer: Result<state::StatusModel, WarpError>,
    after: StateModel,
)
    ensures
        flows::external_restores(before, expected_generation, Ok(prepared), answer, after) && (
        before.mode is Some || before.generation != expected_generation) ==> after == before
            && answer == Ok::<state::StatusModel, WarpError>(state::status_of(before)),
        flows::external_restores(before, expected_generation, Ok(prepared), answer, after)
            && before.mode is None && before.generation == expected_generation ==> {
            &&& after.mode == Some(
                ModeModel::External(ExternalModel { prepared, stale: false, error: None }),
            )
            &&& answer is Ok
            &&& shows_usage(answer->Ok_0, prepared)
            &&& after.generation != before.generation
        },
        flows::external_restores(before, expected_generation, Err(error), answer, after) ==> after
            == before && answer == Err::<state::StatusModel, WarpError>(error),
{
}

/// Logging out drops the source whatever becomes of its cache; the answer says whether that is gone
/// too. On a platform without support nothing happens.
pub proof fn logging_out_drops_the_source<P: FnOnce() -> Result<(), WarpError>>(
    before: StateModel,
    begun: bool,
    purge: P,
    answer: Result<state::StatusModel, WarpError>,
    after: StateModel,
)
    requires
        flows::clears(before, begun, purge, answer, after),
    ensures
        !before.supported ==> after == before && answer == Err::<state::StatusModel, WarpError>(
            WarpError::UnsupportedPlatform,
        ),
        before.supported ==> after.mode is None && after.last_error is None && after.revoked
            == before.revoked && after.generation != before.generation,
        before.supported && !begun ==> answer == Err::<state::StatusModel, WarpError>(
            WarpError::Storage,
        ),
        before.supported && begun && !(before.mode matches Some(ModeModel::App(_))) ==> answer
            is Ok,
        answer is Ok ==> !answer->Ok_0.active && answer->Ok_0.mode == "none"@
            && answer->Ok_0.error_code is None,
        (before.mode matches Some(ModeModel::App(_))) && answer is Ok ==> call_ensures(
            purge,
            (),
            Ok::<(), WarpError>(()),
        ),
        answer is Err && before.supported ==> answer == Err::<state::StatusModel, WarpError>(
            WarpError::Storage,
        ),
{
}

/// A bearer is begun with only where the platform is supported and the text holds one; an external
/// file only where the platform is supported and the file has the right name.
pub proof fn requests_are_refused_before_they_begin(
    state: StateModel,
    raw: Seq<char>,
    outcome: Result<Seq<char>, WarpError>,
    path: Seq<u8>,
)
    requires
        flows::bearer_begins(state, raw, outcome),
    ensures
        !state.supported ==> outcome == Err::<Seq<char>, WarpError>(WarpError::UnsupportedPlatform),
        state.supported && state::bearer_in(raw) is None ==> outcome == Err::<
            Seq<char>,
            WarpError,
        >(WarpError::InvalidBearer),
        outcome matches Ok(bearer) ==> bearer == text::trimmed(raw),
        state.supported && state::bearer_in(raw) is Some ==> outcome is Ok,
        !state.supported ==> flows::external_refused(state, path) == Some(
            WarpError::UnsupportedPlatform,
        ),
        state.supported && !state::external_filename(path) ==> flows::external_refused(state, path)
            == Some(WarpError::InvalidExternalPath),
        state.supported && state::external_filename(path) ==> flows::external_refused(state, path)
            is None,
{
}

/// What a step does not speak of stays as it is: a reload leaves the refusals, the platform and the
/// kind of source alone and shows no error of its own beside that of the source; a failed sync of
/// the source in use touches neither the last error nor the refusals.
pub proof fn steps_leave_the_rest_alone(
    state: StateModel,
    current: ExternalModel,
    app: AppModel,
    error: WarpError,
    prepared: PreparedModel,
    scope: Seq<char>,
    failure: FetchFailure,
    purged: bool,
)
    requires
        failure.error != WarpError::Unauthorized,
    ensures
        state.mode == Some(ModeModel::External(current)) ==> {
            &&& state.external_stale(error).mode == Some(
                ModeModel::External(
                    ExternalModel {
                        prepared: current.prepared,
                        stale: true,
                        error: Some(error),
                    },
                ),
            )
            &&& state.external_stale(error).last_error is None
            &&& state.external_stale(error).revoked == state.revoked
            &&& state.external_stale(error).supported == state.supported
            &&& state.external_stale(error).generation == state.generation
            &&& state.external_fresh().mode == Some(
                ModeModel::External(
                    ExternalModel { prepared: current.prepared, stale: false, error: None },
                ),
            )
            &&& state.external_fresh().last_error is None
            &&& state.external_fresh().revoked == state.revoked
            &&& state.external_fresh().supported == state.supported
            &&& state.external_fresh().generation == state.generation
            &&& state.external_reread(prepared).last_error is None
            &&& state.external_reread(prepared).supported == state.supported
            &&& flows::same_scope_failed(state, scope, failure, purged) == state
        },
        state.mode == Some(ModeModel::App(app)) ==> {
            &&& state.external_stale(error) == state
            &&& state.external_fresh() == state
            &&& state.external_reread(prepared) == state
            &&& flows::same_scope_failed(state, scope, failure, purged).last_error
                == state.last_error
            &&& flows::same_scope_failed(state, scope, failure, purged).revoked == state.revoked
        },
        state.mode is None ==> {
            &&& state.external_stale(error) == state
            &&& state.external_fresh() == state
            &&& state.external_reread(prepared) == state
            &&& flows::same_scope_failed(state, scope, failure, purged) == state
            &&& state.inactive_error(error).last_error == Some(error)
            &&& state.inactive_error(error).mode is None
        },
        state.mode is Some ==> state.inactive_error(error) == state,
        state.inactive_error(error).revoked == state.revoked,
        state.inactive_error(error).generation == state.generation,
        state.inactive_error(error).supported == state.supported,
        state.revoking(scope).mode == state.mode,
        state.revoking(scope).last_error == state.last_error,
        state.revoking(scope).generation == state.generation,
        state.revoking(scope).supported == state.supported,
        state.revoking(scope).revoked == state.revoked.insert(scope),
{
}

} // verus!
