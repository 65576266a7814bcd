//! The active Warp source and what happens to it.

use vstd::prelude::*;
use vstd::string::*;
use vstd::utf8::*;
use crate::paths::{self, same_bytes, SourcePath};
use crate::reports::{bump, invalidate_usage_data, next_generation, Reports, ReportsModel};
use crate::text::{self, chars_of, is_ascii_control, same_text, to_ascii_lower, trim};
use crate::warp_usage::{SourceModel, UsageModel, WarpNormalizedUsage, WarpUsageSource};

verus! {

pub const MAX_BEARER_BYTES: usize = 16384;

#[derive(Clone, Copy, Debug, PartialEq, Eq, Structural)]
pub enum WarpError {
    UnsupportedPlatform,
    InvalidBearer,
    NoActiveCredential,
    Cooldown,
    Unauthorized,
    Forbidden,
    RateLimited,
    RemoteRejected,
    RemoteServer,
    Timeout,
    Transport,
    Oversize,
    Decode,
    Graphql,
    InvalidUsage,
    InvalidExternalPath,
    ScopeMismatch,
    Storage,
    SourceChanged,
    Internal,
}

/// The fixed code of an error.
pub open spec fn code_of(error: WarpError) -> Seq<char> {
    match error {
        WarpError::UnsupportedPlatform => "warp_unsupported_platform"@,
        WarpError::InvalidBearer => "warp_invalid_bearer"@,
        WarpError::NoActiveCredential => "warp_no_active_credential"@,
        WarpError::Cooldown => "warp_retry_cooldown"@,
        WarpError::Unauthorized => "warp_unauthorized"@,
        WarpError::Forbidden => "warp_forbidden"@,
        WarpError::RateLimited => "warp_rate_limited"@,
        WarpError::RemoteRejected => "warp_remote_rejected"@,
        WarpError::RemoteServer => "warp_remote_server"@,
        WarpError::Timeout => "warp_timeout"@,
        WarpError::Transport => "warp_transport"@,
        WarpError::Oversize => "warp_response_too_large"@,
        WarpError::Decode => "warp_decode_failed"@,
        WarpError::Graphql => "warp_graphql_error"@,
        WarpError::InvalidUsage => "warp_invalid_usage"@,
        WarpError::InvalidExternalPath => "warp_invalid_external_path"@,
        WarpError::ScopeMismatch => "warp_scope_mismatch"@,
        WarpError::Storage => "warp_storage_failed"@,
        WarpError::SourceChanged => "warp_source_changed"@,
        WarpError::Internal => "warp_internal"@,
    }
}

impl WarpError {
    pub fn code(self) -> (r: &'static str)
        ensures
            r@ == code_of(self),
    {
        match self {
            WarpError::UnsupportedPlatform => "warp_unsupported_platform",
            WarpError::InvalidBearer => "warp_invalid_bearer",
            WarpError::NoActiveCredential => "warp_no_active_credential",
            WarpError::Cooldown => "warp_retry_cooldown",
            WarpError::Unauthorized => "warp_unauthorized",
            WarpError::Forbidden => "warp_forbidden",
            WarpError::RateLimited => "warp_rate_limited",
            WarpError::RemoteRejected => "warp_remote_rejected",
            WarpError::RemoteServer => "warp_remote_server",
            WarpError::Timeout => "warp_timeout",
            WarpError::Transport => "warp_transport",
            WarpError::Oversize => "warp_response_too_large",
            WarpError::Decode => "warp_decode_failed",
            WarpError::Graphql => "warp_graphql_error",
            WarpError::InvalidUsage => "warp_invalid_usage",
            WarpError::InvalidExternalPath => "warp_invalid_external_path",
            WarpError::ScopeMismatch => "warp_scope_mismatch",
            WarpError::Storage => "warp_storage_failed",
            WarpError::SourceChanged => "warp_source_changed",
            WarpError::Internal => "warp_internal",
        }
    }
}

/// Every error code begins with `warp_` and holds no path separator.
pub proof fn error_codes_are_plain_words(error: WarpError)
    ensures
        "warp_"@.is_prefix_of(code_of(error)),
        !code_of(error).contains('/'),
{
    reveal_strlit("warp_");
    reveal_strlit("warp_unsupported_platform");
    reveal_strlit("warp_invalid_bearer");
    reveal_strlit("warp_no_active_credential");
    reveal_strlit("warp_retry_cooldown");
    reveal_strlit("warp_unauthorized");
    reveal_strlit("warp_forbidden");
    reveal_strlit("warp_rate_limited");
    reveal_strlit("warp_remote_rejected");
    reveal_strlit("warp_remote_server");
    reveal_strlit("warp_timeout");
    reveal_strlit("warp_transport");
    reveal_strlit("warp_response_too_large");
    reveal_strlit("warp_decode_failed");
    reveal_strlit("warp_graphql_error");
    reveal_strlit("warp_invalid_usage");
    reveal_strlit("warp_invalid_external_path");
    reveal_strlit("warp_scope_mismatch");
    reveal_strlit("warp_storage_failed");
    reveal_strlit("warp_source_changed");
    reveal_strlit("warp_internal");
}

/// A source that is ready to be used, with the usage it was made from.
pub struct PreparedSource {
    pub source: WarpUsageSource,
    pub usage: WarpNormalizedUsage,
}

/// A source that a bearer in process memory keeps up to date.
pub struct AppMode {
    pub bearer: String,
    pub account_scope: String,
    pub prepared: PreparedSource,
    pub stale: bool,
    pub retry_at_ms: Option<i64>,
    pub error: Option<WarpError>,
}

/// A source that another program writes.
pub struct ExternalMode {
    pub prepared: PreparedSource,
    pub stale: bool,
    pub error: Option<WarpError>,
}

pub enum Mode {
    App(AppMode),
    External(ExternalMode),
}

/// What is known about Warp: whether this platform supports it, the active source, the last error
/// without one, the account scopes whose credential was refused, and a count of source changes.
pub struct WarpState {
    pub supported: bool,
    pub mode: Option<Mode>,
    pub last_error: Option<WarpError>,
    pub revoked_scopes: Vec<String>,
    pub generation: u64,
}

#[verifier::ext_equal]
pub ghost struct PreparedModel {
    pub source: SourceModel,
    pub usage: UsageModel,
}

#[verifier::ext_equal]
pub ghost struct AppModel {
    pub bearer: Seq<char>,
    pub account_scope: Seq<char>,
    pub prepared: PreparedModel,
    pub stale: bool,
    pub retry_at_ms: Option<i64>,
    pub error: Option<WarpError>,
}

#[verifier::ext_equal]
pub ghost struct ExternalModel {
    pub prepared: PreparedModel,
    pub stale: bool,
    pub error: Option<WarpError>,
}

#[verifier::ext_equal]
pub ghost enum ModeModel {
    App(AppModel),
    External(ExternalModel),
}

#[verifier::ext_equal]
pub ghost struct StateModel {
    pub supported: bool,
    pub mode: Option<ModeModel>,
    pub last_error: Option<WarpError>,
    pub revoked: Set<Seq<char>>,
    pub generation: u64,
}

impl View for PreparedSource {
    type V = PreparedModel;

    open spec fn view(&self) -> PreparedModel {
        PreparedModel { source: self.source@, usage: self.usage@ }
    }
}

impl View for AppMode {
    type V = AppModel;

    open spec fn view(&self) -> AppModel {
        AppModel {
            bearer: self.bearer@,
            account_scope: self.account_scope@,
            prepared: self.prepared@,
            stale: self.stale,
            retry_at_ms: self.retry_at_ms,
            error: self.error,
        }
    }
}

impl View for ExternalMode {
    type V = ExternalModel;

    open spec fn view(&self) -> ExternalModel {
        ExternalModel { prepared: self.prepared@, stale: self.stale, error: self.error }
    }
}

impl View for Mode {
    type V = ModeModel;

    open spec fn view(&self) -> ModeModel {
        match *self {
            Mode::App(app) => ModeModel::App(app@),
            Mode::External(external) => ModeModel::External(external@),
        }
    }
}

pub open spec fn opt_mode(mode: Option<Mode>) -> Option<ModeModel> {
    match mode {
        Some(active) => Some(active@),
        None => None,
    }
}

impl View for WarpState {
    type V = StateModel;

    open spec fn view(&self) -> StateModel {
        StateModel {
            supported: self.supported,
            mode: opt_mode(self.mode),
            last_error: self.last_error,
            revoked: text::texts(self.revoked_scopes@).to_set(),
            generation: self.generation,
        }
    }
}

impl StateModel {
    /// After a source became active.
    pub open spec fn installed(self, mode: ModeModel) -> StateModel {
        StateModel {
            mode: Some(mode),
            last_error: None,
            generation: next_generation(self.generation),
            ..self
        }
    }

    /// After the service accepted a credential.
    pub open spec fn authenticated(self, app: AppModel) -> StateModel {
        StateModel {
            revoked: self.revoked.remove(app.account_scope),
            ..self.installed(ModeModel::App(app))
        }
    }

    /// After the active source was dropped.
    pub open spec fn cleared(self, error: Option<WarpError>) -> StateModel {
        StateModel {
            mode: None,
            last_error: error,
            generation: next_generation(self.generation),
            ..self
        }
    }

    /// After the service refused a credential.
    pub open spec fn revoking(self, scope: Seq<char>) -> StateModel {
        StateModel { revoked: self.revoked.insert(scope), ..self }
    }

    /// With an error to show while no source is active.
    pub open spec fn inactive_error(self, error: WarpError) -> StateModel {
        if self.mode is None {
            StateModel { last_error: Some(error), ..self }
        } else {
            self
        }
    }
}

/// What becomes of the report bookkeeping when one state follows another: a changed source
/// invalidates it.
pub open spec fn following(
    reports: ReportsModel,
    before: StateModel,
    after: StateModel,
) -> ReportsModel {
    if after.generation == before.generation {
        reports
    } else {
        reports.invalidated()
    }
}

#[derive(Clone, Copy, Debug, PartialEq, Eq, Structural)]
pub struct WarpCapability {
    pub supported: bool,
    pub bearer_in_process_only: bool,
    pub external_exact_usage_json: bool,
}

#[derive(Debug)]
pub struct WarpStatus {
    pub supported: bool,
    pub mode: &'static str,
    pub active: bool,
    pub stale: bool,
    pub synced_at_ms: Option<i64>,
    pub retry_at_ms: Option<i64>,
    pub error_code: Option<&'static str>,
    pub requests_used: Option<i64>,
    pub request_limit: Option<i64>,
    pub spend_cents: Option<i64>,
    pub workspace_count: usize,
}

#[verifier::ext_equal]
pub ghost struct StatusModel {
    pub supported: bool,
    pub mode: Seq<char>,
    pub active: bool,
    pub stale: bool,
    pub synced_at_ms: Option<i64>,
    pub retry_at_ms: Option<i64>,
    pub error_code: Option<Seq<char>>,
    pub requests_used: Option<i64>,
    pub request_limit: Option<i64>,
    pub spend_cents: Option<i64>,
    pub workspace_count: nat,
}

impl View for WarpStatus {
    type V = StatusModel;

    open spec fn view(&self) -> StatusModel {
        StatusModel {
            supported: self.supported,
            mode: self.mode@,
            active: self.active,
            stale: self.stale,
            synced_at_ms: self.synced_at_ms,
            retry_at_ms: self.retry_at_ms,
            error_code: match self.error_code {
                Some(code) => Some(code@),
                None => None,
            },
            requests_used: self.requests_used,
            request_limit: self.request_limit,
            spend_cents: self.spend_cents,
            workspace_count: self.workspace_count as nat,
        }
    }
}

pub open spec fn opt_code(error: Option<WarpError>) -> Option<Seq<char>> {
    match error {
        Some(e) => Some(code_of(e)),
        None => None,
    }
}

/// The status of an active source.
pub open spec fn active_status(
    supported: bool,
    mode: Seq<char>,
    usage: UsageModel,
    stale: bool,
    retry_at_ms: Option<i64>,
    error: Option<WarpError>,
) -> StatusModel {
    StatusModel {
        supported,
        mode,
        active: true,
        stale,
        synced_at_ms: Some(usage.synced_at_ms),
        retry_at_ms,
        error_code: opt_code(error),
        requests_used: usage.usage.requests_used,
        request_limit: usage.usage.request_limit,
        spend_cents: usage.usage.spend_cents,
        workspace_count: usage.workspaces.len(),
    }
}

/// The status of a state.
pub open spec fn status_of(state: StateModel) -> StatusModel {
    match state.mode {
        Some(ModeModel::App(app)) => active_status(
            state.supported,
            "app"@,
            app.prepared.usage,
            app.stale,
            app.retry_at_ms,
            app.error,
        ),
        Some(ModeModel::External(external)) => active_status(
            state.supported,
            "external"@,
            external.prepared.usage,
            external.stale,
            None,
            external.error,
        ),
        None => StatusModel {
            supported: state.supported,
            mode: "none"@,
            active: false,
            stale: false,
            synced_at_ms: None,
            retry_at_ms: None,
            error_code: opt_code(state.last_error),
            requests_used: None,
            request_limit: None,
            spend_cents: None,
            workspace_count: 0,
        },
    }
}

/// A status, or the error instead of one.
pub open spec fn answered(outcome: Result<WarpStatus, WarpError>) -> Result<
    StatusModel,
    WarpError,
> {
    match outcome {
        Ok(status) => Ok(status@),
        Err(error) => Err(error),
    }
}

pub fn initial_state(supported: bool) -> (r: WarpState)
    ensures
        r@ == (StateModel {
            supported,
            mode: None,
            last_error: None,
            revoked: Set::empty(),
            generation: 0,
        }),
{
    let r = WarpState {
        supported,
        mode: None,
        last_error: None,
        revoked_scopes: Vec::new(),
        generation: 0,
    };
    assert(r@.revoked =~= Set::empty());
    r
}

pub fn capability(state: &WarpState) -> (r: WarpCapability)
    ensures
        r == (WarpCapability {
            supported: state@.supported,
            bearer_in_process_only: state@.supported,
            external_exact_usage_json: state@.supported,
        }),
{
    WarpCapability {
        supported: state.supported,
        bearer_in_process_only: state.supported,
        external_exact_usage_json: state.supported,
    }
}

fn error_code(error: Option<WarpError>) -> (r: Option<&'static str>)
    ensures
        (match r {
            Some(code) => Some(code@),
            None => None,
        }) == opt_code(error),
{
    match error {
        Some(e) => Some(e.code()),
        None => None,
    }
}

pub fn status_for_usage(
    supported: bool,
    mode: &'static str,
    usage: &WarpNormalizedUsage,
    stale: bool,
    retry_at_ms: Option<i64>,
    error: Option<WarpError>,
) -> (r: WarpStatus)
    ensures
        r@ == active_status(supported, mode@, usage@, stale, retry_at_ms, error),
{
    WarpStatus {
        supported,
        mode,
        active: true,
        stale,
        synced_at_ms: Some(usage.synced_at_ms),
        retry_at_ms,
        error_code: error_code(error),
        requests_used: usage.usage.requests_used,
        request_limit: usage.usage.request_limit,
        spend_cents: usage.usage.spend_cents,
        workspace_count: usage.workspaces.len(),
    }
}

pub fn status(state: &WarpState) -> (r: WarpStatus)
    ensures
        r@ == status_of(state@),
{
    match &state.mode {
        Some(Mode::App(app)) => status_for_usage(
            state.supported,
            "app",
            &app.prepared.usage,
            app.stale,
            app.retry_at_ms,
            app.error,
        ),
        Some(Mode::External(external)) => status_for_usage(
            state.supported,
            "external",
            &external.prepared.usage,
            external.stale,
            None,
            external.error,
        ),
        None => WarpStatus {
            supported: state.supported,
            mode: "none",
            active: false,
            stale: false,
            synced_at_ms: None,
            retry_at_ms: None,
            error_code: error_code(state.last_error),
            requests_used: None,
            request_limit: None,
            spend_cents: None,
            workspace_count: 0,
        },
    }
}

/// The active source together with the generation that it belongs to.
pub struct SourceSnapshot {
    pub generation: u64,
    pub warp_usage_source: Option<WarpUsageSource>,
}

/// The source that is active, if one is.
pub open spec fn active_source(state: StateModel) -> Option<SourceModel> {
    match state.mode {
        Some(ModeModel::App(app)) => Some(app.prepared.source),
        Some(ModeModel::External(external)) => Some(external.prepared.source),
        None => None,
    }
}

pub open spec fn opt_source(source: Option<WarpUsageSource>) -> Option<SourceModel> {
    match source {
        Some(s) => Some(s@),
        None => None,
    }
}

pub fn source_snapshot(state: &WarpState) -> (r: SourceSnapshot)
    ensures
        r.generation == state@.generation,
        opt_source(r.warp_usage_source) == active_source(state@),
{
    let warp_usage_source = match &state.mode {
        Some(Mode::App(app)) => Some(app.prepared.source.copy()),
        Some(Mode::External(external)) => Some(external.prepared.source.copy()),
        None => None,
    };
    SourceSnapshot { generation: state.generation, warp_usage_source }
}

pub fn generation(state: &WarpState) -> (r: u64)
    ensures
        r == state@.generation,
{
    state.generation
}

pub fn require_macos(state: &WarpState) -> (r: Result<(), WarpError>)
    ensures
        r == (if state@.supported {
            Ok::<(), WarpError>(())
        } else {
            Err(WarpError::UnsupportedPlatform)
        }),
{
    if state.supported {
        Ok(())
    } else {
        Err(WarpError::UnsupportedPlatform)
    }
}

/// Makes a source the active one.
pub fn install_mode(state: &mut WarpState, reports: &mut Reports, mode: Mode)
    ensures
        final(state)@ == old(state)@.installed(mode@),
        final(reports)@ == old(reports)@.invalidated(),
{
    state.mode = Some(mode);
    state.last_error = None;
    state.generation = bump(state.generation);
    invalidate_usage_data(reports);
}

fn without_scope(scopes: &Vec<String>, scope: &str) -> (r: Vec<String>)
    ensures
        text::texts(r@).to_set() == text::texts(scopes@).to_set().remove(scope@),
{
    let mut kept: Vec<String> = Vec::new();
    let mut i: usize = 0;
    assert(text::texts(kept@).to_set() =~= text::texts(scopes@.take(0)).to_set().remove(scope@));
    while i < scopes.len()
        invariant
            i <= scopes@.len(),
            text::texts(kept@).to_set() == text::texts(scopes@.take(i as int)).to_set().remove(
                scope@,
            ),
        decreases scopes@.len() - i,
    {
        let ghost before = kept@;
        proof {
            assert(scopes@.take(i + 1) =~= scopes@.take(i as int).push(scopes@[i as int]));
            lemma_pushed_text(scopes@.take(i as int), scopes@[i as int]);
        }
        if !same_text(&scopes[i], scope) {
            let copied = scopes[i].clone();
            kept.push(copied);
            proof {
                lemma_pushed_text(before, copied);
            }
        }
        assert(text::texts(kept@).to_set() =~= text::texts(scopes@.take(i + 1)).to_set().remove(
            scope@,
        ));
        i += 1;
    }
    assert(scopes@.take(i as int) =~= scopes@);
    kept
}

proof fn lemma_pushed_text(list: Seq<String>, added: String)
    ensures
        text::texts(list.push(added)).to_set() == text::texts(list).to_set().insert(added@),
{
    let longer = text::texts(list.push(added));
    let shorter = text::texts(list);
    assert(longer =~= shorter.push(added@));
    assert forall|s: Seq<char>| longer.to_set().contains(s) <==> shorter.to_set().insert(
        added@,
    ).contains(s) by {
        if longer.contains(s) {
            let i = choose|i: int| 0 <= i < longer.len() && longer[i] == s;
            if i < shorter.len() {
                assert(shorter[i] == s);
            }
        }
        if shorter.contains(s) {
            let i = choose|i: int| 0 <= i < shorter.len() && shorter[i] == s;
            assert(longer[i] == s);
        }
        if s == added@ {
            assert(longer[shorter.len() as int] == s);
        }
    }
    assert(longer.to_set() =~= shorter.to_set().insert(added@));
}

/// Makes the source of a credential that the service accepted the active one.
pub fn install_authenticated_app_mode(state: &mut WarpState, reports: &mut Reports, app: AppMode)
    ensures
        final(state)@ == old(state)@.authenticated(app@),
        final(reports)@ == old(reports)@.invalidated(),
{
    state.revoked_scopes = without_scope(&state.revoked_scopes, &app.account_scope);
    state.mode = Some(Mode::App(app));
    state.last_error = None;
    state.generation = bump(state.generation);
    invalidate_usage_data(reports);
}

/// Drops the active source.
pub fn clear_mode(state: &mut WarpState, reports: &mut Reports)
    ensures
        final(state)@ == old(state)@.cleared(None),
        final(reports)@ == old(reports)@.invalidated(),
{
    state.mode = None;
    state.last_error = None;
    state.generation = bump(state.generation);
    invalidate_usage_data(reports);
}

/// Drops the active source because of an error.
pub fn clear_mode_with_error(state: &mut WarpState, reports: &mut Reports, error: WarpError)
    ensures
        final(state)@ == old(state)@.cleared(Some(error)),
        final(reports)@ == old(reports)@.invalidated(),
{
    state.mode = None;
    state.last_error = Some(error);
    state.generation = bump(state.generation);
    invalidate_usage_data(reports);
}

/// Notes an error while no source is active.
pub fn set_no_mode_error(state: &mut WarpState, error: WarpError)
    ensures
        final(state)@ == old(state)@.inactive_error(error),
{
    if state.mode.is_none() {
        state.last_error = Some(error);
    }
}

fn is_revoked(state: &WarpState, scope: &str) -> (r: bool)
    ensures
        r == state@.revoked.contains(scope@),
{
    let ghost list = text::texts(state.revoked_scopes@);
    let mut i: usize = 0;
    while i < state.revoked_scopes.len()
        invariant
            i <= state.revoked_scopes@.len(),
            list == text::texts(state.revoked_scopes@),
            forall|j: int| 0 <= j < i ==> list[j] != scope@,
        decreases state.revoked_scopes@.len() - i,
    {
        assert(list[i as int] == state.revoked_scopes@[i as int]@);
        if same_text(&state.revoked_scopes[i], scope) {
            assert(list.contains(scope@));
            return true;
        }
        i += 1;
    }
    assert(!list.contains(scope@));
    false
}

/// Remembers that the service refused the credential of an account scope.
pub fn revoke_scope(state: &mut WarpState, account_scope: &str)
    ensures
        final(state)@ == old(state)@.revoking(account_scope@),
{
    if is_revoked(state, account_scope) {
        assert(state@.revoked =~= old(state)@.revoked.insert(account_scope@));
        return;
    }
    let added = account_scope.to_owned();
    proof {
        lemma_pushed_text(state.revoked_scopes@, added);
    }
    state.revoked_scopes.push(added);
}

/// Loads cached usage for an account scope, unless the credential of that scope was refused.
pub fn load_cache_candidate_with<T, L: FnOnce() -> Result<Option<T>, WarpError>>(
    state: &WarpState,
    account_scope: &str,
    load: L,
) -> (r: Result<Option<T>, WarpError>)
    requires
        !state@.revoked.contains(account_scope@) ==> call_requires(load, ()),
    ensures
        state@.revoked.contains(account_scope@) ==> r == Ok::<Option<T>, WarpError>(None),
        !state@.revoked.contains(account_scope@) ==> call_ensures(load, (), r),
{
    if is_revoked(state, account_scope) {
        Ok(None)
    } else {
        load()
    }
}

/// Whether two prepared sources are the same: equal usage, the same file, seen at the same
/// modification time.
pub open spec fn same_source(current: PreparedModel, candidate: PreparedModel) -> bool {
    &&& current.usage == candidate.usage
    &&& paths::path_model(current.source.path) == paths::path_model(candidate.source.path)
    &&& current.source.observed_mtime_ms == candidate.source.observed_mtime_ms
}

pub fn same_external_source(current: &PreparedSource, candidate: &PreparedSource) -> (r: bool)
    ensures
        r == same_source(current@, candidate@),
{
    current.usage.same(&candidate.usage) && current.source.path().same_path(
        candidate.source.path(),
    ) && current.source.observed_mtime_ms() == candidate.source.observed_mtime_ms()
}

/// Whether the active source is an external one that is the same as the given one.
pub open spec fn external_is_current(state: StateModel, candidate: PreparedModel) -> bool {
    match state.mode {
        Some(ModeModel::External(current)) => same_source(current.prepared, candidate),
        _ => false,
    }
}

pub fn external_source_is_current(state: &WarpState, prepared: &PreparedSource) -> (r: bool)
    ensures
        r == external_is_current(state@, prepared@),
{
    match &state.mode {
        Some(Mode::External(current)) => same_external_source(&current.prepared, prepared),
        _ => false,
    }
}

impl StateModel {
    /// With the external source in use fresh again.
    pub open spec fn external_fresh(self) -> StateModel {
        match self.mode {
            Some(ModeModel::External(current)) => StateModel {
                mode: Some(
                    ModeModel::External(ExternalModel { stale: false, error: None, ..current }),
                ),
                last_error: None,
                ..self
            },
            _ => self,
        }
    }

    /// With the external source in use out of date because of an error.
    pub open spec fn external_stale(self, error: WarpError) -> StateModel {
        match self.mode {
            Some(ModeModel::External(current)) => StateModel {
                mode: Some(
                    ModeModel::External(
                        ExternalModel { stale: true, error: Some(error), ..current },
                    ),
                ),
                last_error: None,
                ..self
            },
            _ => self,
        }
    }

    /// With the external source in use read again: the newer one takes its place where it is
    /// another.
    pub open spec fn external_reread(self, prepared: PreparedModel) -> StateModel {
        match self.mode {
            Some(ModeModel::External(current)) => if same_source(current.prepared, prepared) {
                self.external_fresh()
            } else {
                self.installed(
                    ModeModel::External(ExternalModel { prepared, stale: false, error: None }),
                )
            },
            _ => self,
        }
    }

    /// Whether the active source is still the external one that a refresh started from.
    pub open spec fn still_reads(self, generation: u64, path: Seq<u8>) -> bool {
        &&& self.generation == generation
        &&& self.mode matches Some(ModeModel::External(current)) && paths::path_model(
            current.prepared.source.path,
        ) == paths::path_model(path)
    }
}

/// Clears the error of the external source in use where the given one is the same.
pub fn clear_external_error_if_current(state: &mut WarpState, prepared: &PreparedSource) -> (r:
    bool)
    ensures
        r == external_is_current(old(state)@, prepared@),
        final(state)@ == (if r {
            old(state)@.external_fresh()
        } else {
            old(state)@
        }),
{
    if !external_source_is_current(state, prepared) {
        return false;
    }
    match &mut state.mode {
        Some(Mode::External(current)) => {
            current.stale = false;
            current.error = None;
        },
        _ => {},
    }
    state.last_error = None;
    true
}

/// Makes a remembered external source active, unless a source became active since `generation`.
pub fn install_external_if_inactive(
    state: &mut WarpState,
    reports: &mut Reports,
    expected_generation: u64,
    prepared: PreparedSource,
) -> (r: bool)
    ensures
        r == (old(state)@.generation == expected_generation && old(state)@.mode is None),
        final(state)@ == (if r {
            old(state)@.installed(
                ModeModel::External(
                    ExternalModel { prepared: prepared@, stale: false, error: None },
                ),
            )
        } else {
            old(state)@
        }),
        final(reports)@ == following(old(reports)@, old(state)@, final(state)@),
{
    if state.generation != expected_generation || state.mode.is_some() {
        return false;
    }
    install_mode(
        state,
        reports,
        Mode::External(ExternalMode { prepared, stale: false, error: None }),
    );
    true
}

fn reads_external(state: &WarpState, generation: u64, path: &SourcePath) -> (r: bool)
    ensures
        r == state@.still_reads(generation, path@),
{
    if state.generation != generation {
        return false;
    }
    match &state.mode {
        Some(Mode::External(current)) => current.prepared.source.path().same_path(path),
        _ => false,
    }
}

/// Takes over what reading the external file again gave, unless another source became active or
/// the source changed since the reading started.
pub fn install_refreshed_external(
    state: &mut WarpState,
    reports: &mut Reports,
    expected_generation: u64,
    expected_path: &SourcePath,
    prepared: PreparedSource,
) -> (r: bool)
    ensures
        r == old(state)@.still_reads(expected_generation, expected_path@),
        final(state)@ == (if r {
            old(state)@.external_reread(prepared@)
        } else {
            old(state)@
        }),
        final(reports)@ == following(old(reports)@, old(state)@, final(state)@),
{
    if !reads_external(state, expected_generation, expected_path) {
        return false;
    }
    if external_source_is_current(state, &prepared) {
        clear_external_error_if_current(state, &prepared);
        return true;
    }
    install_mode(
        state,
        reports,
        Mode::External(ExternalMode { prepared, stale: false, error: None }),
    );
    true
}

/// Marks the external source as out of date, unless another source became active or the source
/// changed since the reading started. The last good usage stays in use.
pub fn mark_external_stale(
    state: &mut WarpState,
    expected_generation: u64,
    expected_path: &SourcePath,
    error: WarpError,
) -> (r: bool)
    ensures
        r == old(state)@.still_reads(expected_generation, expected_path@),
        final(state)@ == (if r {
            old(state)@.external_stale(error)
        } else {
            old(state)@
        }),
{
    if !reads_external(state, expected_generation, expected_path) {
        return false;
    }
    match &mut state.mode {
        Some(Mode::External(current)) => {
            current.stale = true;
            current.error = Some(error);
        },
        _ => {},
    }
    state.last_error = None;
    true
}

/// What reading the external file again does: nothing where another source is in use or the source
/// changed since, else the file takes its place or the one in use is out of date.
pub open spec fn external_refreshes(
    before: StateModel,
    expected_generation: u64,
    expected_path: Seq<u8>,
    outcome: Result<PreparedModel, WarpError>,
    applied: bool,
    after: StateModel,
) -> bool {
    &&& applied == before.still_reads(expected_generation, expected_path)
    &&& after == (if applied {
        match outcome {
            Ok(prepared) => before.external_reread(prepared),
            Err(error) => before.external_stale(error),
        }
    } else {
        before
    })
}

/// Applies what reading the external file again gave.
pub fn finish_external_refresh(
    state: &mut WarpState,
    reports: &mut Reports,
    expected_generation: u64,
    expected_path: &SourcePath,
    outcome: Result<PreparedSource, WarpError>,
) -> (r: bool)
    ensures
        external_refreshes(
            old(state)@,
            expected_generation,
            expected_path@,
            match outcome {
                Ok(prepared) => Ok(prepared@),
                Err(error) => Err(error),
            },
            r,
            final(state)@,
        ),
        final(reports)@ == following(old(reports)@, old(state)@, final(state)@),
{
    match outcome {
        Ok(prepared) => install_refreshed_external(
            state,
            reports,
            expected_generation,
            expected_path,
            prepared,
        ),
        Err(error) => mark_external_stale(state, expected_generation, expected_path, error),
    }
}

/// Whether a path names the file that external usage is read from.
pub open spec fn external_filename(path: Seq<u8>) -> bool {
    paths::file_name(path) == Some(encode_utf8("usage.json"@))
}

pub fn validate_external_filename(path: &SourcePath) -> (r: Result<(), WarpError>)
    ensures
        r == (if external_filename(path@) {
            Ok::<(), WarpError>(())
        } else {
            Err(WarpError::InvalidExternalPath)
        }),
{
    match path.file_name() {
        Some(name) => if same_bytes(&name, &"usage.json".as_bytes_vec()) {
            Ok(())
        } else {
            Err(WarpError::InvalidExternalPath)
        },
        None => Err(WarpError::InvalidExternalPath),
    }
}

/// The bytes that identify a path, which need not be text.
pub fn path_identity_bytes(path: &SourcePath) -> (r: Vec<u8>)
    ensures
        r@ == path@,
{
    path.copy().bytes
}

/// The bearer that a text holds: without white space around it, not empty, not too long, without
/// control characters, and without the word `Bearer` in front.
pub open spec fn bearer_in(raw: Seq<char>) -> Option<Seq<char>> {
    let bearer = text::trimmed(raw);
    if bearer.len() == 0 || encode_utf8(bearer).len() > MAX_BEARER_BYTES || has_control(bearer)
        || names_scheme(bearer) {
        None
    } else {
        Some(bearer)
    }
}

pub open spec fn has_control(s: Seq<char>) -> bool {
    exists|i: int| 0 <= i < s.len() && text::ascii_control(#[trigger] s[i])
}

/// Whether a text begins with `bearer` and a blank, in any case.
pub open spec fn names_scheme(s: Seq<char>) -> bool {
    s.len() >= 7 && s.take(7).map_values(|c: char| text::ascii_lower(c)) == "bearer "@
}

fn begins_with_scheme(chars: &Vec<char>) -> (r: bool)
    ensures
        r == names_scheme(chars@),
{
    proof {
        reveal_strlit("bearer ");
    }
    if chars.len() < 7 {
        return false;
    }
    let ghost lower = chars@.take(7).map_values(|c: char| text::ascii_lower(c));
    let r: bool = to_ascii_lower(chars[0]) == 'b' && to_ascii_lower(chars[1]) == 'e'
        && to_ascii_lower(chars[2]) == 'a' && to_ascii_lower(chars[3]) == 'r' && to_ascii_lower(
        chars[4],
    ) == 'e' && to_ascii_lower(chars[5]) == 'r' && to_ascii_lower(chars[6]) == ' ';
    proof {
        if r {
            assert(lower =~= "bearer "@);
        } else if lower == "bearer "@ {
            assert(lower[0] == 'b' && lower[1] == 'e' && lower[2] == 'a' && lower[3] == 'r'
                && lower[4] == 'e' && lower[5] == 'r' && lower[6] == ' ');
        }
    }
    r
}

pub fn validate_bearer(raw: &str) -> (r: Result<String, WarpError>)
    ensures
        match bearer_in(raw@) {
            Some(bearer) => r matches Ok(held) && held@ == bearer,
            None => r == Err::<String, WarpError>(WarpError::InvalidBearer),
        },
{
    let bearer = trim(raw);
    let chars = chars_of(&bearer);
    if chars.len() == 0 || bearer.as_str().as_bytes().len() > MAX_BEARER_BYTES {
        return Err(WarpError::InvalidBearer);
    }
    let mut i: usize = 0;
    while i < chars.len()
        invariant
            i <= chars@.len(),
            chars@ == bearer@,
            bearer@ == text::trimmed(raw@),
            forall|j: int| 0 <= j < i ==> !text::ascii_control(#[trigger] chars@[j]),
        decreases chars@.len() - i,
    {
        if is_ascii_control(chars[i]) {
            return Err(WarpError::InvalidBearer);
        }
        i += 1;
    }
    if begins_with_scheme(&chars) {
        return Err(WarpError::InvalidBearer);
    }
    Ok(bearer)
}

/// A bearer is what is left of a text without the white space around it. It is accepted exactly
/// where it is neither empty nor longer than sixteen kibibytes, holds no control character, and
/// does not bring the word `Bearer` along.
pub proof fn bearers_are_accepted_whole(raw: Seq<char>, bearer: Seq<char>, i: int)
    requires
        bearer == text::trimmed(raw),
    ensures
        bearer_in(raw) matches Some(held) ==> held == bearer && bearer.len() > 0 && encode_utf8(
            bearer,
        ).len() <= 16384,
        0 <= i < bearer.len() && ((bearer[i] as u32) <= 0x1f || bearer[i] as u32 == 0x7f)
            ==> bearer_in(raw) is None,
        bearer.len() == 0 ==> bearer_in(raw) is None,
        encode_utf8(bearer).len() > 16384 ==> bearer_in(raw) is None,
        bearer.len() > 0 && encode_utf8(bearer).len() <= 16384 && (forall|j: int|
            0 <= j < bearer.len() ==> (#[trigger] bearer[j]) as u32 > 0x1f && bearer[j] as u32
                != 0x7f) && !(bearer.len() >= 7 && bearer[6] == ' ') ==> bearer_in(raw) == Some(
            bearer,
        ),
{
    reveal_strlit("bearer ");
    if 0 <= i < bearer.len() && ((bearer[i] as u32) <= 0x1f || bearer[i] as u32 == 0x7f) {
        assert(text::ascii_control(bearer[i]));
    }
    if bearer.len() >= 7 {
        let lower = bearer.take(7).map_values(|c: char| text::ascii_lower(c));
        if lower == "bearer "@ {
            assert(lower[6] == ' ');
            assert(text::ascii_lower(bearer[6]) == ' ');
        }
    }
}

/// A text that begins with `Bearer` and a blank, in any case, is refused; one that begins otherwise
/// is not refused for it.
pub proof fn schemes_are_refused(scheme: Seq<char>, rest: Seq<char>, raw: Seq<char>)
    requires
        scheme == "bearer "@ || scheme == "Bearer "@ || scheme == "BEARER "@,
        text::trimmed(raw) == scheme + rest,
    ensures
        bearer_in(raw) is None,
{
    reveal_strlit("bearer ");
    reveal_strlit("Bearer ");
    reveal_strlit("BEARER ");
    let bearer = scheme + rest;
    let lower = bearer.take(7).map_values(|c: char| text::ascii_lower(c));
    assert(lower =~= "bearer "@) by {
        assert forall|j: int| 0 <= j < 7 implies lower[j] == "bearer "@[j] by {
            assert(bearer.take(7)[j] == scheme[j]);
        }
    }
}

/// The generation counts by one, and starts over after the last number.
pub proof fn generations_count_by_one(generation: u64)
    ensures
        generation < u64::MAX ==> next_generation(generation) == generation + 1,
        generation == u64::MAX ==> next_generation(generation) == 0,
{
}

/// A path whose last component is `usage.json` names the file of external usage, and one whose last
/// component is anything else does not.
pub proof fn external_files_are_named_usage_json(dir: Seq<u8>, name: Seq<u8>)
    requires
        name.len() > 0,
        !name.contains(0x2fu8),
        name != seq![0x2eu8],
        name != seq![0x2eu8, 0x2eu8],
    ensures
        external_filename(dir.push(0x2fu8) + name) <==> name == encode_utf8("usage.json"@),
        external_filename(name) <==> name == encode_utf8("usage.json"@),
{
    paths::the_last_component_is_the_name(dir, name);
}

/// A file that was read again is applied exactly where the source that the reading started from is
/// still the one in use: the same generation, an external source, the same file. It then shows the
/// new figures, or the old ones as out of date with the reason.
pub proof fn reread_files_are_applied_to_their_source(
    before: StateModel,
    current: ExternalModel,
    expected_generation: u64,
    expected_path: Seq<u8>,
    prepared: PreparedModel,
    error: WarpError,
    applied: bool,
    after: StateModel,
)
    ensures
        external_refreshes(
            before,
            expected_generation,
            expected_path,
            Ok(prepared),
            applied,
            after,
        ) && before.mode == Some(ModeModel::External(current)) && before.generation
            == expected_generation && current.prepared.source.path == expected_path ==> {
            &&& applied
            &&& status_of(after).requests_used == prepared.usage.usage.requests_used
            &&& status_of(after).spend_cents == prepared.usage.usage.spend_cents
            &&& status_of(after).synced_at_ms == Some(prepared.usage.synced_at_ms)
            &&& status_of(after).active
            &&& !status_of(after).stale
            &&& status_of(after).error_code is None
        },
        external_refreshes(
            before,
            expected_generation,
            expected_path,
            Err(error),
            applied,
            after,
        ) && before.mode == Some(ModeModel::External(current)) && before.generation
            == expected_generation && current.prepared.source.path == expected_path ==> {
            &&& applied
            &&& active_source(after) == active_source(before)
            &&& after.generation == before.generation
            &&& status_of(after).stale
            &&& status_of(after).error_code == Some(code_of(error))
            &&& status_of(after).requests_used == current.prepared.usage.usage.requests_used
        },
        external_refreshes(
            before,
            expected_generation,
            expected_path,
            Ok(prepared),
            applied,
            after,
        ) && (before.generation != expected_generation || !(before.mode matches Some(
            ModeModel::External(_),
        ))) ==> !applied && after == before,
        external_refreshes(
            before,
            expected_generation,
            expected_path,
            Err(error),
            applied,
            after,
        ) && (before.generation != expected_generation || !(before.mode matches Some(
            ModeModel::External(_),
        ))) ==> !applied && after == before,
        external_refreshes(
            before,
            expected_generation,
            expected_path,
            Ok(prepared),
            applied,
            after,
        ) && (before.mode matches Some(ModeModel::External(held)) && paths::path_model(
            held.prepared.source.path,
        ) != paths::path_model(expected_path)) ==> !applied && after == before,
{
}

/// A text is refused for its scheme only where each of its first seven characters is the one of
/// `Bearer` and a blank, in either case: one that differs anywhere there is accepted.
pub proof fn other_beginnings_are_no_scheme(raw: Seq<char>, bearer: Seq<char>, k: int)
    requires
        bearer == text::trimmed(raw),
        0 <= k < 7 <= bearer.len(),
        encode_utf8(bearer).len() <= 16384,
        forall|j: int|
            0 <= j < bearer.len() ==> (#[trigger] bearer[j]) as u32 > 0x1f && bearer[j] as u32
                != 0x7f,
        bearer[k] != "bearer "@[k],
        bearer[k] != "BEARER "@[k],
    ensures
        bearer_in(raw) == Some(bearer),
{
    reveal_strlit("bearer ");
    reveal_strlit("BEARER ");
    let lower = bearer.take(7).map_values(|c: char| text::ascii_lower(c));
    if lower == "bearer "@ {
        assert(lower[k] == "bearer "@[k]);
        assert(text::ascii_lower(bearer[k]) == "bearer "@[k]);
        let c = bearer[k];
        assert('A' <= c <= 'Z');
        assert("BEARER "@[k] as u32 == c as u32);
        assert("BEARER "@[k] == c);
    }
    assert(!has_control(bearer)) by {
        if has_control(bearer) {
            let i = choose|i: int| 0 <= i < bearer.len() && text::ascii_control(
                #[trigger] bearer[i],
            );
            assert(bearer[i] as u32 > 0x1f);
        }
    }
}

} // verus!
