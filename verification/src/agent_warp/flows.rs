//! What a user's request does to the active Warp source, step by step between the outside work:
//! the caller takes the refresh lock, reaches the service and the cache, and hands back what came
//! of it.

use vstd::prelude::*;
use vstd::string::*;
use crate::agent_warp::state::{
    self, clear_external_error_if_current, clear_mode, clear_mode_with_error,
    install_authenticated_app_mode, install_external_if_inactive, install_mode,
    load_cache_candidate_with, require_macos, revoke_scope, set_no_mode_error, status,
    validate_bearer, validate_external_filename, AppMode, AppModel, ExternalMode, ExternalModel,
    Mode, ModeModel, PreparedSource, StateModel, StatusModel, WarpError, WarpState, WarpStatus,
};
use crate::paths::SourcePath;
use crate::reports::Reports;
use crate::text::{self, same_text};

verus! {

/// Why a sync with the service failed, and when it may be tried again.
#[derive(Clone, Copy, Debug, PartialEq, Eq, Structural)]
pub struct FetchFailure {
    pub error: WarpError,
    pub retry_at_ms: Option<i64>,
}

/// The source that was active when a request came in.
pub struct PriorIdentity {
    pub mode: Option<&'static str>,
    pub account_scope: Option<String>,
    pub retry_at_ms: Option<i64>,
}

#[verifier::ext_equal]
pub ghost struct PriorModel {
    pub mode: Option<Seq<char>>,
    pub account_scope: Option<Seq<char>>,
    pub retry_at_ms: Option<i64>,
}

impl View for PriorIdentity {
    type V = PriorModel;

    open spec fn view(&self) -> PriorModel {
        PriorModel {
            mode: match self.mode {
                Some(mode) => Some(mode@),
                None => None,
            },
            account_scope: text::opt_text(self.account_scope),
            retry_at_ms: self.retry_at_ms,
        }
    }
}

pub open spec fn opt_prior(prior: Option<PriorIdentity>) -> Option<PriorModel> {
    match prior {
        Some(identity) => Some(identity@),
        None => None,
    }
}

/// What identifies the active source.
pub open spec fn prior_of(state: StateModel) -> Option<PriorModel> {
    match state.mode {
        Some(ModeModel::App(app)) => Some(
            PriorModel {
                mode: Some("app"@),
                account_scope: Some(app.account_scope),
                retry_at_ms: app.retry_at_ms,
            },
        ),
        Some(ModeModel::External(_)) => Some(
            PriorModel { mode: Some("external"@), account_scope: None, retry_at_ms: None },
        ),
        None => None,
    }
}

pub fn prior_identity(state: &WarpState) -> (r: Option<PriorIdentity>)
    ensures
        opt_prior(r) == prior_of(state@),
{
    match &state.mode {
        Some(Mode::App(app)) => Some(
            PriorIdentity {
                mode: Some("app"),
                account_scope: Some(app.account_scope.clone()),
                retry_at_ms: app.retry_at_ms,
            },
        ),
        Some(Mode::External(_)) => Some(
            PriorIdentity { mode: Some("external"), account_scope: None, retry_at_ms: None },
        ),
        None => None,
    }
}

#[derive(Clone, Copy, Debug, PartialEq, Eq, Structural)]
pub enum SetFailureAction {
    ApplySameScope,
    InstallCached,
    StayInactive,
    PreservePrior,
}

/// What a failed sync of a new bearer does: a failure of the account in use is applied to it, any
/// other source in use is kept, and without one cached usage stands in unless the bearer was
/// refused.
pub open spec fn failure_action(
    prior: Option<PriorModel>,
    new_scope: Seq<char>,
    has_cache: bool,
    error: WarpError,
) -> SetFailureAction {
    match prior {
        Some(identity) => if identity.account_scope == Some(new_scope) {
            SetFailureAction::ApplySameScope
        } else {
            SetFailureAction::PreservePrior
        },
        None => if has_cache && error != WarpError::Unauthorized {
            SetFailureAction::InstallCached
        } else {
            SetFailureAction::StayInactive
        },
    }
}

fn has_scope(prior: &PriorIdentity, scope: &str) -> (r: bool)
    ensures
        r == (prior@.account_scope == Some(scope@)),
{
    match &prior.account_scope {
        Some(held) => same_text(held, scope),
        None => false,
    }
}

pub fn set_failure_action(
    prior: Option<&PriorIdentity>,
    new_scope: &str,
    has_cache: bool,
    error: WarpError,
) -> (r: SetFailureAction)
    ensures
        r == failure_action(
            match prior {
                Some(identity) => Some(identity@),
                None => None,
            },
            new_scope@,
            has_cache,
            error,
        ),
{
    match prior {
        Some(identity) => if has_scope(identity, new_scope) {
            SetFailureAction::ApplySameScope
        } else {
            SetFailureAction::PreservePrior
        },
        None => if has_cache && error != WarpError::Unauthorized {
            SetFailureAction::InstallCached
        } else {
            SetFailureAction::StayInactive
        },
    }
}

/// Whether the service refused the credential itself.
pub open spec fn refused(failure: FetchFailure) -> bool {
    failure.error == WarpError::Unauthorized
}

/// Whether the app's own source is in use.
pub open spec fn uses_app(state: StateModel) -> bool {
    state.mode matches Some(ModeModel::App(_))
}

/// The state after a failure of the account in use. A refused credential drops the source and its
/// cache; any other failure keeps the source and marks it.
pub open spec fn same_scope_failed(
    state: StateModel,
    scope: Seq<char>,
    failure: FetchFailure,
    purged: bool,
) -> StateModel {
    if failure.error == WarpError::Unauthorized {
        let dropped = state.revoking(scope).cleared(Some(WarpError::Unauthorized));
        if purged {
            dropped
        } else {
            dropped.inactive_error(WarpError::Storage)
        }
    } else {
        match state.mode {
            Some(ModeModel::App(app)) => StateModel {
                mode: Some(
                    ModeModel::App(
                        AppModel {
                            stale: true,
                            retry_at_ms: failure.retry_at_ms,
                            error: Some(failure.error),
                            ..app
                        },
                    ),
                ),
                ..state
            },
            _ => state,
        }
    }
}

/// Whether removing the cache, where that was tried, succeeded.
pub open spec fn purge_gave<P: FnOnce() -> Result<(), WarpError>>(
    purge: P,
    purged: bool,
) -> bool {
    if purged {
        call_ensures(purge, (), Ok(()))
    } else {
        exists|error: WarpError| #[trigger]
            call_ensures(purge, (), Err::<(), WarpError>(error))
    }
}

fn try_purge<P: FnOnce() -> Result<(), WarpError>>(purge: P) -> (r: bool)
    requires
        call_requires(purge, ()),
    ensures
        purge_gave(purge, r),
{
    match purge() {
        Ok(nothing) => {
            assert(nothing == ());
            true
        },
        Err(error) => {
            assert(call_ensures(purge, (), Err::<(), WarpError>(error)));
            false
        },
    }
}

/// Applies a failure of the account in use. `purge` removes the cache, and is called only for a
/// refused credential.
pub fn apply_same_scope_failure_with<P: FnOnce() -> Result<(), WarpError>>(
    state: &mut WarpState,
    reports: &mut Reports,
    account_scope: &str,
    failure: FetchFailure,
    purge: P,
) -> (r: Result<(), WarpError>)
    requires
        failure.error == WarpError::Unauthorized ==> call_requires(purge, ()),
    ensures
        failure.error == WarpError::Unauthorized ==> purge_gave(purge, r is Ok),
        failure.error != WarpError::Unauthorized ==> r is Ok,
        r is Err ==> r == Err::<(), WarpError>(WarpError::Storage),
        final(state)@ == same_scope_failed(old(state)@, account_scope@, failure, r is Ok),
        final(reports)@ == state::following(old(reports)@, old(state)@, final(state)@),
{
    if failure.error == WarpError::Unauthorized {
        revoke_scope(state, account_scope);
        clear_mode_with_error(state, reports, WarpError::Unauthorized);
        if !try_purge(purge) {
            set_no_mode_error(state, WarpError::Storage);
            return Err(WarpError::Storage);
        }
        return Ok(());
    }
    match &mut state.mode {
        Some(Mode::App(app)) => {
            app.stale = true;
            app.retry_at_ms = failure.retry_at_ms;
            app.error = Some(failure.error);
        },
        _ => {},
    }
    Ok(())
}

/// The state after a failure while no source is active.
pub open spec fn inactive_failed(
    state: StateModel,
    scope: Seq<char>,
    failure: FetchFailure,
    purged: bool,
) -> StateModel {
    if failure.error == WarpError::Unauthorized {
        if purged {
            state.revoking(scope).inactive_error(failure.error)
        } else {
            state.revoking(scope).inactive_error(WarpError::Storage)
        }
    } else {
        state.inactive_error(failure.error)
    }
}

/// Applies a failure while no source is active. `purge` removes the cache, and is called only for
/// a refused credential.
pub fn apply_inactive_failure<P: FnOnce() -> Result<(), WarpError>>(
    state: &mut WarpState,
    account_scope: &str,
    failure: FetchFailure,
    purge: P,
) -> (r: Result<(), WarpError>)
    requires
        failure.error == WarpError::Unauthorized ==> call_requires(purge, ()),
    ensures
        failure.error == WarpError::Unauthorized ==> purge_gave(purge, r is Ok),
        failure.error != WarpError::Unauthorized ==> r is Ok,
        r is Err ==> r == Err::<(), WarpError>(WarpError::Storage),
        final(state)@ == inactive_failed(old(state)@, account_scope@, failure, r is Ok),
{
    if failure.error == WarpError::Unauthorized {
        revoke_scope(state, account_scope);
        if !try_purge(purge) {
            set_no_mode_error(state, WarpError::Storage);
            return Err(WarpError::Storage);
        }
    }
    set_no_mode_error(state, failure.error);
    Ok(())
}

/// What the first step of setting a bearer gives.
pub open spec fn bearer_begins(
    state: StateModel,
    raw: Seq<char>,
    outcome: Result<Seq<char>, WarpError>,
) -> bool {
    if !state.supported {
        outcome == Err::<Seq<char>, WarpError>(WarpError::UnsupportedPlatform)
    } else {
        match state::bearer_in(raw) {
            Some(bearer) => outcome == Ok::<Seq<char>, WarpError>(bearer),
            None => outcome == Err::<Seq<char>, WarpError>(WarpError::InvalidBearer),
        }
    }
}

/// First step of setting a bearer: the bearer to go on with.
pub fn begin_set_bearer(state: &WarpState, raw: &str) -> (r: Result<String, WarpError>)
    ensures
        bearer_begins(
            state@,
            raw@,
            match r {
                Ok(bearer) => Ok(bearer@),
                Err(error) => Err(error),
            },
        ),
{
    match require_macos(state) {
        Ok(_) => validate_bearer(raw),
        Err(error) => Err(error),
    }
}

/// Whether the account in use is to be left alone until later.
pub open spec fn cooling_down(prior: Option<PriorModel>, scope: Seq<char>, now_ms: i64) -> bool {
    match prior {
        Some(identity) => identity.account_scope == Some(scope) && (
        identity.retry_at_ms matches Some(at) && at > now_ms),
        None => false,
    }
}

/// What the second step of setting a bearer gives.
pub open spec fn bearer_admitted(
    state: StateModel,
    scope: Seq<char>,
    now_ms: i64,
    outcome: Result<Option<PriorModel>, WarpError>,
) -> bool {
    if cooling_down(prior_of(state), scope, now_ms) {
        outcome == Err::<Option<PriorModel>, WarpError>(WarpError::Cooldown)
    } else {
        outcome == Ok::<Option<PriorModel>, WarpError>(prior_of(state))
    }
}

/// Second step of setting a bearer, once its account scope is known: the source in use, unless it
/// is of the same account and must not be retried yet.
pub fn admit_set_bearer(state: &WarpState, account_scope: &str, now_ms: i64) -> (r: Result<
    Option<PriorIdentity>,
    WarpError,
>)
    ensures
        bearer_admitted(
            state@,
            account_scope@,
            now_ms,
            match r {
                Ok(prior) => Ok(opt_prior(prior)),
                Err(error) => Err(error),
            },
        ),
{
    let prior = prior_identity(state);
    if let Some(identity) = &prior {
        if has_scope(identity, account_scope) {
            if let Some(at) = identity.retry_at_ms {
                if at > now_ms {
                    return Err(WarpError::Cooldown);
                }
            }
        }
    }
    Ok(prior)
}

/// What looking for cached usage of a new bearer gives.
pub open spec fn candidate_loads<T, L: FnOnce() -> Result<Option<T>, WarpError>>(
    state: StateModel,
    in_use: bool,
    scope: Seq<char>,
    load: L,
    outcome: Result<Option<T>, WarpError>,
) -> bool {
    if in_use || state.revoked.contains(scope) {
        outcome == Ok::<Option<T>, WarpError>(None)
    } else {
        call_ensures(load, (), outcome)
    }
}

/// Third step of setting a bearer: cached usage of its account, which is looked for only where no
/// source is in use and the credential of that account was not refused.
pub fn load_cache_candidate<T, L: FnOnce() -> Result<Option<T>, WarpError>>(
    state: &WarpState,
    prior: &Option<PriorIdentity>,
    account_scope: &str,
    load: L,
) -> (r: Result<Option<T>, WarpError>)
    requires
        prior is None && !state@.revoked.contains(account_scope@) ==> call_requires(load, ()),
    ensures
        candidate_loads(state@, prior is Some, account_scope@, load, r),
{
    if prior.is_some() {
        Ok(None)
    } else {
        load_cache_candidate_with(state, account_scope, load)
    }
}

/// What came of a sync with the service.
pub enum SyncOutcome {
    /// The usage was fetched, cached and read back.
    Synced(PreparedSource),
    /// The usage was fetched, but could not be cached.
    NotPersisted(WarpError),
    /// The usage could not be fetched.
    Failed(FetchFailure),
}

pub open spec fn app_model(
    bearer: Seq<char>,
    account_scope: Seq<char>,
    prepared: state::PreparedModel,
    failure: Option<FetchFailure>,
) -> AppModel {
    match failure {
        Some(f) => AppModel {
            bearer,
            account_scope,
            prepared,
            stale: true,
            retry_at_ms: f.retry_at_ms,
            error: Some(f.error),
        },
        None => AppModel {
            bearer,
            account_scope,
            prepared,
            stale: false,
            retry_at_ms: None,
            error: None,
        },
    }
}

/// The state after a bearer could not be synced.
pub open spec fn set_bearer_failed(
    state: StateModel,
    prior: Option<PriorModel>,
    bearer: Seq<char>,
    scope: Seq<char>,
    cached: Option<state::PreparedModel>,
    failure: FetchFailure,
    purged: bool,
) -> StateModel {
    let noted = if failure.error == WarpError::Unauthorized {
        state.revoking(scope)
    } else {
        state
    };
    match failure_action(prior, scope, cached is Some, failure.error) {
        SetFailureAction::ApplySameScope => same_scope_failed(noted, scope, failure, purged),
        SetFailureAction::InstallCached => noted.installed(
            ModeModel::App(app_model(bearer, scope, cached->Some_0, Some(failure))),
        ),
        SetFailureAction::StayInactive => inactive_failed(noted, scope, failure, purged),
        SetFailureAction::PreservePrior => noted,
    }
}

/// Whether a failed bearer has its cache removed.
pub open spec fn purges(prior: Option<PriorModel>, scope: Seq<char>, failure: FetchFailure) -> bool {
    failure.error == WarpError::Unauthorized && (prior matches Some(identity)
        ==> identity.account_scope == Some(scope))
}

pub open spec fn opt_prepared(prepared: Option<PreparedSource>) -> Option<state::PreparedModel> {
    match prepared {
        Some(source) => Some(source@),
        None => None,
    }
}

/// What the last step of setting a bearer gives, for what came of the sync.
pub open spec fn set_bearer_completes<P: FnOnce() -> Result<(), WarpError>>(
    before: StateModel,
    prior: Option<PriorModel>,
    bearer: Seq<char>,
    scope: Seq<char>,
    cached: Option<state::PreparedModel>,
    outcome: SyncOutcome,
    purge: P,
    answer: Result<StatusModel, WarpError>,
    after: StateModel,
) -> bool {
    match outcome {
        SyncOutcome::Synced(prepared) => {
            &&& after == before.authenticated(app_model(bearer, scope, prepared@, None))
            &&& answer == Ok::<StatusModel, WarpError>(state::status_of(after))
        },
        SyncOutcome::NotPersisted(error) => after == before && answer == Err::<
            StatusModel,
            WarpError,
        >(error),
        SyncOutcome::Failed(failure) => exists|purged: bool|
            {
                &&& #[trigger] purge_outcome(purge, purges(prior, scope, failure), purged)
                &&& after == set_bearer_failed(
                    before,
                    prior,
                    bearer,
                    scope,
                    cached,
                    failure,
                    purged,
                )
                &&& answer == Err::<StatusModel, WarpError>(
                    if purged {
                        failure.error
                    } else {
                        WarpError::Storage
                    },
                )
            },
    }
}

/// Last step of setting a bearer: the state and the answer for what came of the sync. `purge`
/// removes the cache, and is called only where the bearer was refused and no source of another
/// account is in use.
pub fn complete_set_bearer<P: FnOnce() -> Result<(), WarpError>>(
    state: &mut WarpState,
    reports: &mut Reports,
    prior: Option<PriorIdentity>,
    bearer: String,
    account_scope: String,
    cached: Option<PreparedSource>,
    outcome: SyncOutcome,
    purge: P,
) -> (r: Result<WarpStatus, WarpError>)
    requires
        outcome matches SyncOutcome::Failed(failure) && purges(
            opt_prior(prior),
            account_scope@,
            failure,
        ) ==> call_requires(purge, ()),
    ensures
        set_bearer_completes(
            old(state)@,
            opt_prior(prior),
            bearer@,
            account_scope@,
            opt_prepared(cached),
            outcome,
            purge,
            state::answered(r),
            final(state)@,
        ),
        final(reports)@ == state::following(old(reports)@, old(state)@, final(state)@),
{
    let failure = match outcome {
        SyncOutcome::Synced(prepared) => {
            install_authenticated_app_mode(
                state,
                reports,
                AppMode {
                    bearer,
                    account_scope,
                    prepared,
                    stale: false,
                    retry_at_ms: None,
                    error: None,
                },
            );
            return Ok(status(state));
        },
        SyncOutcome::NotPersisted(error) => return Err(error),
        SyncOutcome::Failed(failure) => failure,
    };
    if failure.error == WarpError::Unauthorized {
        revoke_scope(state, &account_scope);
    }
    let action = set_failure_action(
        prior.as_ref(),
        &account_scope,
        cached.is_some(),
        failure.error,
    );
    match action {
        SetFailureAction::ApplySameScope => {
            let applied = apply_same_scope_failure_with(
                state,
                reports,
                &account_scope,
                failure,
                purge,
            );
            assert(purge_outcome(
                purge,
                purges(opt_prior(prior), account_scope@, failure),
                applied is Ok,
            ));
            match applied {
                Ok(_) => Err(failure.error),
                Err(error) => Err(error),
            }
        },
        SetFailureAction::InstallCached => {
            match cached {
                Some(prepared) => install_mode(
                    state,
                    reports,
                    Mode::App(
                        AppMode {
                            bearer,
                            account_scope,
                            prepared,
                            stale: true,
                            retry_at_ms: failure.retry_at_ms,
                            error: Some(failure.error),
                        },
                    ),
                ),
                None => {},
            }
            assert(purge_outcome(
                purge,
                purges(opt_prior(prior), account_scope@, failure),
                true,
            ));
            Err(failure.error)
        },
        SetFailureAction::StayInactive => {
            let applied = apply_inactive_failure(state, &account_scope, failure, purge);
            assert(purge_outcome(
                purge,
                purges(opt_prior(prior), account_scope@, failure),
                applied is Ok,
            ));
            match applied {
                Ok(_) => Err(failure.error),
                Err(error) => Err(error),
            }
        },
        SetFailureAction::PreservePrior => {
            assert(purge_outcome(
                purge,
                purges(opt_prior(prior), account_scope@, failure),
                true,
            ));
            Err(failure.error)
        },
    }
}

/// Whether the cache was removed where it had to be. Where it did not have to be, nothing failed.
pub open spec fn purge_outcome<P: FnOnce() -> Result<(), WarpError>>(
    purge: P,
    needed: bool,
    purged: bool,
) -> bool {
    if needed {
        purge_gave(purge, purged)
    } else {
        purged
    }
}

/// The credential in use, with the generation that it belongs to.
pub struct AppSnapshot {
    pub generation: u64,
    pub bearer: String,
    pub account_scope: String,
    pub retry_at_ms: Option<i64>,
}

pub fn app_snapshot(state: &WarpState) -> (r: Result<AppSnapshot, WarpError>)
    ensures
        match state@.mode {
            Some(ModeModel::App(app)) => {
                &&& r is Ok
                &&& r->Ok_0.generation == state@.generation
                &&& r->Ok_0.bearer@ == app.bearer
                &&& r->Ok_0.account_scope@ == app.account_scope
                &&& r->Ok_0.retry_at_ms == app.retry_at_ms
            },
            _ => r == Err::<AppSnapshot, WarpError>(WarpError::NoActiveCredential),
        },
{
    match &state.mode {
        Some(Mode::App(app)) => Ok(
            AppSnapshot {
                generation: state.generation,
                bearer: app.bearer.clone(),
                account_scope: app.account_scope.clone(),
                retry_at_ms: app.retry_at_ms,
            },
        ),
        _ => Err(WarpError::NoActiveCredential),
    }
}

/// Why the credential in use may not be refreshed now, if it may not.
pub open spec fn refresh_refused(state: StateModel, now_ms: i64) -> Option<WarpError> {
    if !state.supported {
        Some(WarpError::UnsupportedPlatform)
    } else {
        match state.mode {
            Some(ModeModel::App(app)) => if app.retry_at_ms matches Some(at) && at > now_ms {
                Some(WarpError::Cooldown)
            } else {
                None
            },
            _ => Some(WarpError::NoActiveCredential),
        }
    }
}

/// What the first step of refreshing the credential in use gives.
pub open spec fn refresh_begins(
    state: StateModel,
    now_ms: i64,
    outcome: Result<AppSnapshot, WarpError>,
) -> bool {
    match refresh_refused(state, now_ms) {
        Some(error) => outcome == Err::<AppSnapshot, WarpError>(error),
        None => {
            &&& outcome is Ok
            &&& outcome->Ok_0.generation == state.generation
            &&& state.mode matches Some(ModeModel::App(app)) && outcome->Ok_0.bearer@ == app.bearer
                && outcome->Ok_0.account_scope@ == app.account_scope && outcome->Ok_0.retry_at_ms
                == app.retry_at_ms
        },
    }
}

/// First step of refreshing the credential in use.
pub fn begin_refresh(state: &WarpState, now_ms: i64) -> (r: Result<AppSnapshot, WarpError>)
    ensures
        refresh_begins(state@, now_ms, r),
{
    match require_macos(state) {
        Ok(_) => {},
        Err(error) => return Err(error),
    }
    let snapshot = match app_snapshot(state) {
        Ok(snapshot) => snapshot,
        Err(error) => return Err(error),
    };
    if let Some(at) = snapshot.retry_at_ms {
        if at > now_ms {
            return Err(WarpError::Cooldown);
        }
    }
    Ok(snapshot)
}

/// Whether the source is still the one that a request started from.
pub fn require_unchanged(state: &WarpState, expected_generation: u64) -> (r: Result<(), WarpError>)
    ensures
        r == (if state@.generation == expected_generation {
            Ok::<(), WarpError>(())
        } else {
            Err(WarpError::SourceChanged)
        }),
{
    if state.generation == expected_generation {
        Ok(())
    } else {
        Err(WarpError::SourceChanged)
    }
}

/// What the last step of refreshing the credential in use gives, for what came of the sync.
pub open spec fn refresh_completes<P: FnOnce() -> Result<(), WarpError>>(
    before: StateModel,
    snapshot: AppSnapshot,
    outcome: SyncOutcome,
    purge: P,
    answer: Result<StatusModel, WarpError>,
    after: StateModel,
) -> bool {
    match outcome {
        SyncOutcome::Synced(prepared) => if before.generation == snapshot.generation {
            &&& after == before.authenticated(
                app_model(snapshot.bearer@, snapshot.account_scope@, prepared@, None),
            )
            &&& answer == Ok::<StatusModel, WarpError>(state::status_of(after))
        } else {
            after == before && answer == Err::<StatusModel, WarpError>(WarpError::SourceChanged)
        },
        SyncOutcome::NotPersisted(error) => after == before && answer == Err::<
            StatusModel,
            WarpError,
        >(error),
        SyncOutcome::Failed(failure) => exists|purged: bool|
            {
                &&& #[trigger] purge_outcome(purge, refused(failure), purged)
                &&& after == same_scope_failed(
                    if failure.error == WarpError::Unauthorized {
                        before.revoking(snapshot.account_scope@)
                    } else {
                        before
                    },
                    snapshot.account_scope@,
                    failure,
                    purged,
                )
                &&& answer == Err::<StatusModel, WarpError>(
                    if purged {
                        failure.error
                    } else {
                        WarpError::Storage
                    },
                )
            },
    }
}

/// Last step of refreshing the credential in use. `purge` removes the cache, and is called only
/// for a refused credential.
pub fn complete_refresh<P: FnOnce() -> Result<(), WarpError>>(
    state: &mut WarpState,
    reports: &mut Reports,
    snapshot: AppSnapshot,
    outcome: SyncOutcome,
    purge: P,
) -> (r: Result<WarpStatus, WarpError>)
    requires
        outcome matches SyncOutcome::Failed(failure) && failure.error == WarpError::Unauthorized
            ==> call_requires(purge, ()),
    ensures
        refresh_completes(
            old(state)@,
            snapshot,
            outcome,
            purge,
            state::answered(r),
            final(state)@,
        ),
        final(reports)@ == state::following(old(reports)@, old(state)@, final(state)@),
{
    match outcome {
        SyncOutcome::Synced(prepared) => {
            match require_unchanged(state, snapshot.generation) {
                Ok(_) => {},
                Err(error) => return Err(error),
            }
            install_authenticated_app_mode(
                state,
                reports,
                AppMode {
                    bearer: snapshot.bearer,
                    account_scope: snapshot.account_scope,
                    prepared,
                    stale: false,
                    retry_at_ms: None,
                    error: None,
                },
            );
            Ok(status(state))
        },
        SyncOutcome::NotPersisted(error) => Err(error),
        SyncOutcome::Failed(failure) => {
            if failure.error == WarpError::Unauthorized {
                revoke_scope(state, &snapshot.account_scope);
            }
            let applied = apply_same_scope_failure_with(
                state,
                reports,
                &snapshot.account_scope,
                failure,
                purge,
            );
            assert(purge_outcome(purge, refused(failure), applied is Ok));
            match applied {
                Ok(_) => Err(failure.error),
                Err(error) => Err(error),
            }
        },
    }
}

/// Why a path may not be used as an external source, if it may not.
pub open spec fn external_refused(state: StateModel, path: Seq<u8>) -> Option<WarpError> {
    if !state.supported {
        Some(WarpError::UnsupportedPlatform)
    } else if !state::external_filename(path) {
        Some(WarpError::InvalidExternalPath)
    } else {
        None
    }
}

/// First step of setting an external source.
pub fn begin_set_external(state: &WarpState, path: &SourcePath) -> (r: Result<(), WarpError>)
    ensures
        match external_refused(state@, path@) {
            Some(error) => r == Err::<(), WarpError>(error),
            None => r is Ok,
        },
{
    match require_macos(state) {
        Ok(_) => validate_external_filename(path),
        Err(error) => Err(error),
    }
}

/// What the last step of setting an external source gives.
pub open spec fn external_sets<P: FnOnce() -> Result<(), WarpError>>(
    before: StateModel,
    prepared: state::PreparedModel,
    purge: P,
    answer: Result<StatusModel, WarpError>,
    after: StateModel,
) -> bool {
    exists|purged: bool|
        {
            &&& #[trigger] purge_outcome(purge, uses_app(before), purged)
            &&& if !purged {
                after == before && answer == Err::<StatusModel, WarpError>(WarpError::Storage)
            } else {
                &&& after == (if state::external_is_current(before, prepared) {
                    before.external_fresh()
                } else {
                    before.installed(
                        ModeModel::External(ExternalModel { prepared, stale: false, error: None }),
                    )
                })
                &&& answer == Ok::<StatusModel, WarpError>(state::status_of(after))
            }
        }
}

/// Last step of setting an external source. `purge` removes the cache of the app's own source, and
/// is called only where that source is in use; where it fails, that source stays in use.
pub fn set_external<P: FnOnce() -> Result<(), WarpError>>(
    state: &mut WarpState,
    reports: &mut Reports,
    prepared: PreparedSource,
    purge: P,
) -> (r: Result<WarpStatus, WarpError>)
    requires
        uses_app(old(state)@) ==> call_requires(purge, ()),
    ensures
        external_sets(old(state)@, prepared@, purge, state::answered(r), final(state)@),
        final(reports)@ == state::following(old(reports)@, old(state)@, final(state)@),
{
    if clear_external_error_if_current(state, &prepared) {
        assert(purge_outcome(
            purge,
            uses_app(old(state)@),
            true,
        ));
        return Ok(status(state));
    }
    let app: bool = match &state.mode {
        Some(Mode::App(_)) => true,
        _ => false,
    };
    if app {
        let purged = try_purge(purge);
        assert(purge_outcome(
            purge,
            uses_app(old(state)@),
            purged,
        ));
        if !purged {
            return Err(WarpError::Storage);
        }
    } else {
        assert(purge_outcome(
            purge,
            uses_app(old(state)@),
            true,
        ));
    }
    install_mode(
        state,
        reports,
        Mode::External(ExternalMode { prepared, stale: false, error: None }),
    );
    Ok(status(state))
}

/// First step of restoring a remembered external source: the generation to restore it under, or
/// `None` where a source is in use and nothing is to be done.
pub fn begin_restore_external(state: &WarpState, path: &SourcePath) -> (r: Result<
    Option<u64>,
    WarpError,
>)
    ensures
        match external_refused(state@, path@) {
            Some(error) => r == Err::<Option<u64>, WarpError>(error),
            None => r == Ok::<Option<u64>, WarpError>(
                if state@.mode is None {
                    Some(state@.generation)
                } else {
                    None
                },
            ),
        },
{
    match begin_set_external(state, path) {
        Ok(_) => {},
        Err(error) => return Err(error),
    }
    if state.mode.is_some() {
        Ok(None)
    } else {
        Ok(Some(state.generation))
    }
}

/// What the last step of restoring a remembered external source gives.
pub open spec fn external_restores(
    before: StateModel,
    expected_generation: u64,
    outcome: Result<state::PreparedModel, WarpError>,
    answer: Result<StatusModel, WarpError>,
    after: StateModel,
) -> bool {
    match outcome {
        Err(error) => after == before && answer == Err::<StatusModel, WarpError>(error),
        Ok(prepared) => {
            &&& after == (if before.generation == expected_generation && before.mode is None {
                before.installed(
                    ModeModel::External(ExternalModel { prepared, stale: false, error: None }),
                )
            } else {
                before
            })
            &&& answer == Ok::<StatusModel, WarpError>(state::status_of(after))
        },
    }
}

/// Last step of restoring a remembered external source. It becomes active only where no source
/// became active since the first step.
pub fn restore_external_if_inactive(
    state: &mut WarpState,
    reports: &mut Reports,
    expected_generation: u64,
    outcome: Result<PreparedSource, WarpError>,
) -> (r: Result<WarpStatus, WarpError>)
    ensures
        external_restores(
            old(state)@,
            expected_generation,
            match outcome {
                Ok(prepared) => Ok(prepared@),
                Err(error) => Err(error),
            },
            state::answered(r),
            final(state)@,
        ),
        final(reports)@ == state::following(old(reports)@, old(state)@, final(state)@),
{
    match outcome {
        Ok(prepared) => {
            install_external_if_inactive(state, reports, expected_generation, prepared);
            Ok(status(state))
        },
        Err(error) => Err(error),
    }
}

/// The external file to read again, with the generation that it belongs to.
pub fn external_refresh_target(state: &WarpState) -> (r: Option<(u64, SourcePath)>)
    ensures
        match r {
            Some((generation, path)) => {
                &&& state@.supported
                &&& generation == state@.generation
                &&& state@.mode matches Some(ModeModel::External(current)) && path@
                    == current.prepared.source.path
            },
            None => !state@.supported || !(state@.mode matches Some(ModeModel::External(_))),
        },
{
    if !state.supported {
        return None;
    }
    match &state.mode {
        Some(Mode::External(current)) => Some(
            (state.generation, current.prepared.source.path().copy()),
        ),
        _ => None,
    }
}

/// What dropping the active source gives.
pub open spec fn clears<P: FnOnce() -> Result<(), WarpError>>(
    before: StateModel,
    begun: bool,
    purge: P,
    answer: Result<StatusModel, WarpError>,
    after: StateModel,
) -> bool {
    if !before.supported {
        after == before && answer == Err::<StatusModel, WarpError>(WarpError::UnsupportedPlatform)
    } else if !begun {
        after == before.cleared(None) && answer == Err::<StatusModel, WarpError>(WarpError::Storage)
    } else {
        &&& after == before.cleared(None)
        &&& exists|purged: bool|
            {
                &&& #[trigger] purge_outcome(purge, uses_app(before), purged)
                &&& answer == (if purged {
                    Ok::<StatusModel, WarpError>(state::status_of(after))
                } else {
                    Err(WarpError::Storage)
                })
            }
    }
}

/// Drops the active source. `begun` says whether the refresh lock was taken; `purge` removes the
/// cache of the app's own source, and is called only where that was in use. The source is dropped
/// even where the cache cannot be removed.
pub fn clear<P: FnOnce() -> Result<(), WarpError>>(
    state: &mut WarpState,
    reports: &mut Reports,
    begun: bool,
    purge: P,
) -> (r: Result<WarpStatus, WarpError>)
    requires
        uses_app(old(state)@) ==> call_requires(purge, ()),
    ensures
        clears(old(state)@, begun, purge, state::answered(r), final(state)@),
        final(reports)@ == state::following(old(reports)@, old(state)@, final(state)@),
{
    match require_macos(state) {
        Ok(_) => {},
        Err(error) => return Err(error),
    }
    let was_app: bool = match &state.mode {
        Some(Mode::App(_)) => true,
        _ => false,
    };
    clear_mode(state, reports);
    if !begun {
        return Err(WarpError::Storage);
    }
    if was_app {
        let purged = try_purge(purge);
        assert(purge_outcome(
            purge,
            uses_app(old(state)@),
            purged,
        ));
        if !purged {
            return Err(WarpError::Storage);
        }
    } else {
        assert(purge_outcome(
            purge,
            uses_app(old(state)@),
            true,
        ));
    }
    Ok(status(state))
}

/// Cached usage stands in only where nothing is in use and the account was not refused; then it is
/// what the cache gives.
pub proof fn refused_accounts_get_no_cache<T, L: FnOnce() -> Result<Option<T>, WarpError>>(
    state: StateModel,
    in_use: bool,
    scope: Seq<char>,
    load: L,
    outcome: Result<Option<T>, WarpError>,
)
    requires
        candidate_loads(state, in_use, scope, load, outcome),
    ensures
        state.revoked.contains(scope) ==> outcome == Ok::<Option<T>, WarpError>(None),
        in_use ==> outcome == Ok::<Option<T>, WarpError>(None),
        !in_use && !state.revoked.contains(scope) ==> call_ensures(load, (), outcome),
{
}

/// What is in use is identified by its kind, its account and when it may be tried again.
pub proof fn sources_in_use_are_identified(state: StateModel)
    ensures
        state.mode is None ==> prior_of(state) is None,
        state.mode matches Some(ModeModel::App(app)) ==> prior_of(state) == Some(
            PriorModel {
                mode: Some("app"@),
                account_scope: Some(app.account_scope),
                retry_at_ms: app.retry_at_ms,
            },
        ),
        (state.mode matches Some(ModeModel::External(_))) ==> prior_of(state) == Some(
            PriorModel { mode: Some("external"@), account_scope: None, retry_at_ms: None },
        ),
        uses_app(state) <==> (state.mode matches Some(ModeModel::App(_))),
{
}

} // verus!
