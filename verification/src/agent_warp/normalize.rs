//! Turning remote and external usage into normalized usage.

use vstd::prelude::*;
use vstd::string::*;
use vstd::utf8::*;
use crate::agent_warp::keyed::{self, scope_from, workspace_material, KeyedMaterial};
use crate::agent_warp::state::WarpError;
use crate::agent_warp::transport::MAX_RESPONSE_BYTES;
use crate::text::{self, chars_of, trim};
use crate::timestamps::{self, parse_from_rfc3339};
use crate::warp_usage::{
    self, validate_normalized_usage, UsageModel, WarpAggregateUsage, WarpNormalizedUsage,
    WarpWorkspaceUsage, WorkspaceModel, WARP_NORMALIZED_USAGE_VERSION,
};

verus! {

pub struct RequestLimitData {
    pub request_limit_info: Option<RequestLimitInfo>,
}

pub struct RequestLimitInfo {
    pub request_limit: Option<i64>,
    pub requests_used_since_last_refresh: Option<i64>,
    pub next_refresh_time: Option<String>,
    pub bonus_grants_info: Option<BonusGrantsInfo>,
}

#[derive(Clone, Copy)]
pub struct BonusGrantsInfo {
    pub spending_info: Option<SpendingInfo>,
}

#[derive(Clone, Copy)]
pub struct SpendingInfo {
    pub current_month_spend_cents: Option<i64>,
    pub current_month_credits_purchased: Option<i64>,
}

pub struct WorkspaceData {
    pub workspaces_metadata_for_user: Vec<WorkspaceMetadata>,
}

pub struct WorkspaceMetadata {
    pub id: String,
    pub total_requests_used_since_last_refresh: Option<i64>,
    pub ai_overages: Option<AiOverages>,
    pub usage_info: Option<WorkspaceUsageInfo>,
}

#[derive(Clone, Copy)]
pub struct AiOverages {
    pub current_monthly_request_cost_cents: Option<i64>,
    pub current_monthly_requests_used: Option<i64>,
}

#[derive(Clone, Copy)]
pub struct WorkspaceUsageInfo {
    pub requests_used_since_last_refresh: Option<i64>,
}

pub struct ExternalUsage {
    pub version: u32,
    pub synced_at: String,
    pub usage: ExternalAggregateUsage,
    pub workspaces: Vec<ExternalWorkspaceUsage>,
}

pub struct ExternalAggregateUsage {
    pub requests_used: Option<i64>,
    pub request_limit: Option<i64>,
    pub spend_cents: Option<i64>,
    pub credits_purchased_cents: Option<i64>,
    pub next_refresh_time: Option<String>,
}

pub struct ExternalWorkspaceUsage {
    pub id: String,
    pub name: Option<String>,
    pub requests_used: Option<i64>,
    pub spend_cents: Option<i64>,
}

/// A workspace under the id that its owner knows it by.
struct RawWorkspace {
    id: String,
    requests_used: Option<i64>,
    spend_cents: Option<i64>,
}

/// The figures of a workspace, under the id that its owner knows it by.
#[verifier::ext_equal]
pub ghost struct RawModel {
    pub id: Seq<char>,
    pub requests_used: Option<i64>,
    pub spend_cents: Option<i64>,
}

impl RawWorkspace {
    spec fn model(self) -> RawModel {
        RawModel {
            id: self.id@,
            requests_used: self.requests_used,
            spend_cents: self.spend_cents,
        }
    }
}

spec fn raw_models(list: Seq<RawWorkspace>) -> Seq<RawModel> {
    list.map_values(|raw: RawWorkspace| raw.model())
}

/// The first of two counters that is known.
pub open spec fn known(first: Option<i64>, second: Option<i64>) -> Option<i64> {
    match first {
        Some(n) => Some(n),
        None => second,
    }
}

fn first_known(first: Option<i64>, second: Option<i64>) -> (r: Option<i64>)
    ensures
        r == known(first, second),
{
    match first {
        Some(n) => Some(n),
        None => second,
    }
}

/// What a remote workspace used: the billed count where there is one, else the total, else the
/// count of the current period. What it spent is the billed cost.
pub open spec fn remote_raw(workspace: WorkspaceMetadata) -> RawModel {
    let billed = match workspace.ai_overages {
        Some(overages) => overages.current_monthly_requests_used,
        None => None,
    };
    let current = match workspace.usage_info {
        Some(info) => info.requests_used_since_last_refresh,
        None => None,
    };
    RawModel {
        id: workspace.id@,
        requests_used: known(billed, known(workspace.total_requests_used_since_last_refresh, current)),
        spend_cents: match workspace.ai_overages {
            Some(overages) => overages.current_monthly_request_cost_cents,
            None => None,
        },
    }
}

pub open spec fn remote_raws(list: Seq<WorkspaceMetadata>) -> Seq<RawModel> {
    list.map_values(|workspace: WorkspaceMetadata| remote_raw(workspace))
}

/// What an external workspace used. Its name does not count.
pub open spec fn external_raw(workspace: ExternalWorkspaceUsage) -> RawModel {
    RawModel {
        id: workspace.id@,
        requests_used: workspace.requests_used,
        spend_cents: workspace.spend_cents,
    }
}

pub open spec fn external_raws(list: Seq<ExternalWorkspaceUsage>) -> Seq<RawModel> {
    list.map_values(|workspace: ExternalWorkspaceUsage| external_raw(workspace))
}

/// Whether an id may be used: not blank, and within the limit where there is one.
pub open spec fn usable_id(id: Seq<char>, limit: Option<u64>) -> bool {
    text::trimmed(id).len() > 0 && (limit matches Some(max) ==> encode_utf8(id).len() <= max)
}

/// What the scope of a workspace may come out as, by its id.
pub type Scoping = spec_fn(Seq<char>, Result<Seq<char>, WarpError>) -> bool;

/// The scopes that a function gives.
pub open spec fn scopes_by<F: Fn(&str) -> Result<String, WarpError>>(scope_of: F) -> Scoping {
    |id: Seq<char>, outcome: Result<Seq<char>, WarpError>|
        exists|name: &str, scope: Result<String, WarpError>|
            {
                &&& name@ == id
                &&& #[trigger] call_ensures(scope_of, (name,), scope)
                &&& keyed::scope_text(scope) == outcome
            }
}

/// The scopes under the installation key, for the workspaces of an account.
pub open spec fn keyed_scopes<O: Fn(&KeyedMaterial) -> Option<String>>(
    opaque: O,
    account: Seq<char>,
) -> Scoping {
    |id: Seq<char>, outcome: Result<Seq<char>, WarpError>|
        keyed::scope_given(opaque, keyed::workspace_key(account, id), outcome)
}

/// What normalizing one workspace may give: its figures under the opaque scope of its id.
pub open spec fn workspace_scopes(
    scoping: Scoping,
    raw: RawModel,
    limit: Option<u64>,
    outcome: Result<WorkspaceModel, WarpError>,
) -> bool {
    if !usable_id(raw.id, limit) {
        outcome == Err::<WorkspaceModel, WarpError>(WarpError::InvalidUsage)
    } else {
        match outcome {
            Ok(workspace) => {
                &&& scoping(raw.id, Ok(workspace.scope))
                &&& workspace.requests_used == raw.requests_used
                &&& workspace.spend_cents == raw.spend_cents
            },
            Err(error) => scoping(raw.id, Err(error)),
        }
    }
}

/// Whether the workspaces of `done` are those of `raws` under their scopes, in order.
pub open spec fn all_scoped(
    scoping: Scoping,
    raws: Seq<RawModel>,
    limit: Option<u64>,
    done: Seq<WorkspaceModel>,
) -> bool {
    &&& done.len() <= raws.len()
    &&& forall|i: int|
        0 <= i < done.len() ==> workspace_scopes(scoping, raws[i], limit, Ok(#[trigger] done[i]))
}

/// What normalizing usage may give, for a header that is understood: an error of the first
/// workspace that has one, else the usage where it is valid.
pub open spec fn normalizes(
    scoping: Scoping,
    account_scope: Seq<char>,
    synced_at_ms: i64,
    usage: WarpAggregateUsage,
    raws: Seq<RawModel>,
    limit: Option<u64>,
    outcome: Result<UsageModel, WarpError>,
) -> bool {
    exists|done: Seq<WorkspaceModel>|
        {
            &&& #[trigger] all_scoped(scoping, raws, limit, done)
            &&& if done.len() < raws.len() {
                outcome matches Err(error) && workspace_scopes(
                    scoping,
                    raws[done.len() as int],
                    limit,
                    Err(error),
                )
            } else {
                let normalized = UsageModel {
                    version: WARP_NORMALIZED_USAGE_VERSION,
                    synced_at_ms,
                    account_scope,
                    usage,
                    workspaces: done,
                };
                if warp_usage::usage_fault(normalized) is None {
                    outcome == Ok::<UsageModel, WarpError>(normalized)
                } else {
                    outcome == Err::<UsageModel, WarpError>(WarpError::InvalidUsage)
                }
            }
        }
}

/// Whether the scope of this id may be asked for: it is the id of a workspace, and usable.
pub open spec fn asks_for(raws: Seq<RawModel>, limit: Option<u64>, id: Seq<char>) -> bool {
    usable_id(id, limit) && exists|i: int| 0 <= i < raws.len() && (#[trigger] raws[i]).id == id
}

proof fn lemma_scoping_weakens(
    scoping: Scoping,
    weaker: Scoping,
    account_scope: Seq<char>,
    synced_at_ms: i64,
    usage: WarpAggregateUsage,
    raws: Seq<RawModel>,
    limit: Option<u64>,
    outcome: Result<UsageModel, WarpError>,
)
    requires
        normalizes(scoping, account_scope, synced_at_ms, usage, raws, limit, outcome),
        forall|id: Seq<char>, given: Result<Seq<char>, WarpError>| #[trigger]
            scoping(id, given) ==> weaker(id, given),
    ensures
        normalizes(weaker, account_scope, synced_at_ms, usage, raws, limit, outcome),
{
    let done = choose|done: Seq<WorkspaceModel>|
        {
            &&& #[trigger] all_scoped(scoping, raws, limit, done)
            &&& if done.len() < raws.len() {
                outcome matches Err(error) && workspace_scopes(
                    scoping,
                    raws[done.len() as int],
                    limit,
                    Err(error),
                )
            } else {
                let normalized = UsageModel {
                    version: WARP_NORMALIZED_USAGE_VERSION,
                    synced_at_ms,
                    account_scope,
                    usage,
                    workspaces: done,
                };
                if warp_usage::usage_fault(normalized) is None {
                    outcome == Ok::<UsageModel, WarpError>(normalized)
                } else {
                    outcome == Err::<UsageModel, WarpError>(WarpError::InvalidUsage)
                }
            }
        };
    assert forall|i: int| 0 <= i < done.len() implies workspace_scopes(
        weaker,
        raws[i],
        limit,
        Ok(#[trigger] done[i]),
    ) by {
        assert(workspace_scopes(scoping, raws[i], limit, Ok(done[i])));
    }
    assert(all_scoped(weaker, raws, limit, done));
}

/// The usage that a result holds, or its error.
pub open spec fn normalized(outcome: Result<WarpNormalizedUsage, WarpError>) -> Result<
    UsageModel,
    WarpError,
> {
    match outcome {
        Ok(usage) => Ok(usage@),
        Err(error) => Err(error),
    }
}

pub fn validate_normalized(usage: &WarpNormalizedUsage) -> (r: Result<(), WarpError>)
    ensures
        r == (if warp_usage::usage_fault(usage@) is None {
            Ok::<(), WarpError>(())
        } else {
            Err(WarpError::InvalidUsage)
        }),
{
    match validate_normalized_usage(usage) {
        Ok(_) => Ok(()),
        Err(_) => Err(WarpError::InvalidUsage),
    }
}

fn is_usable_id(id: &str, limit: Option<u64>) -> (r: bool)
    ensures
        r == usable_id(id@, limit),
{
    if chars_of(&trim(id)).len() == 0 {
        return false;
    }
    match limit {
        Some(max) => id.as_bytes().len() as u64 <= max,
        None => true,
    }
}

fn normalize<F: Fn(&str) -> Result<String, WarpError>>(
    scope_of: &F,
    account_scope: String,
    synced_at_ms: i64,
    usage: WarpAggregateUsage,
    raws: &Vec<RawWorkspace>,
    limit: Option<u64>,
) -> (r: Result<WarpNormalizedUsage, WarpError>)
    requires
        forall|id: &str|
            asks_for(raw_models(raws@), limit, id@) ==> #[trigger] call_requires(*scope_of, (id,)),
    ensures
        normalizes(
            scopes_by(*scope_of),
            account_scope@,
            synced_at_ms,
            usage,
            raw_models(raws@),
            limit,
            normalized(r),
        ),
{
    let ghost models = raw_models(raws@);
    let ghost scoping = scopes_by(*scope_of);
    let mut workspaces: Vec<WarpWorkspaceUsage> = Vec::new();
    let ghost mut done: Seq<WorkspaceModel> = Seq::empty();
    let mut i: usize = 0;
    assert(warp_usage::workspace_models(workspaces@) =~= done);
    while i < raws.len()
        invariant
            i <= raws@.len(),
            scoping == scopes_by(*scope_of),
            models == raw_models(raws@),
            done == warp_usage::workspace_models(workspaces@),
            done.len() == i,
            all_scoped(scoping, models, limit, done),
            forall|id: &str|
                asks_for(models, limit, id@) ==> #[trigger] call_requires(*scope_of, (id,)),
        decreases raws@.len() - i,
    {
        let raw = &raws[i];
        assert(models[i as int] == raw.model());
        if !is_usable_id(&raw.id, limit) {
            assert(workspace_scopes(
                scoping,
                models[done.len() as int],
                limit,
                Err(WarpError::InvalidUsage),
            ));
            return Err(WarpError::InvalidUsage);
        }
        let name = raw.id.as_str();
        assert(asks_for(models, limit, name@));
        let scope = scope_of(name);
        assert(call_ensures(*scope_of, (name,), scope));
        assert(scoping(name@, keyed::scope_text(scope)));
        match scope {
            Ok(workspace_scope) => {
                let ghost earlier = workspaces@;
                let ghost before = done;
                let added = WarpWorkspaceUsage {
                    workspace_scope,
                    requests_used: raw.requests_used,
                    spend_cents: raw.spend_cents,
                };
                proof {
                    done = done.push(added@);
                    assert(workspace_scopes(scoping, models[i as int], limit, Ok(added@)));
                    assert forall|j: int| 0 <= j < done.len() implies workspace_scopes(
                        scoping,
                        models[j],
                        limit,
                        Ok(#[trigger] done[j]),
                    ) by {
                        if j < before.len() {
                            assert(done[j] == before[j]);
                        }
                    }
                }
                workspaces.push(added);
                assert(warp_usage::workspace_models(workspaces@) =~= done);
            },
            Err(error) => {
                assert(workspace_scopes(
                    scoping,
                    models[done.len() as int],
                    limit,
                    Err(error),
                ));
                return Err(error);
            },
        }
        i += 1;
    }
    assert(models.len() == raws@.len());
    let normalized_usage = WarpNormalizedUsage {
        version: WARP_NORMALIZED_USAGE_VERSION,
        synced_at_ms,
        account_scope,
        usage,
        workspaces,
    };
    match validate_normalized(&normalized_usage) {
        Ok(_) => Ok(normalized_usage),
        Err(error) => Err(error),
    }
}

/// The milliseconds since the epoch that an optional RFC 3339 date denotes; an error where it is
/// no date.
pub open spec fn optional_time(value: Option<Seq<char>>) -> Result<Option<int>, WarpError> {
    match value {
        Some(content) => match timestamps::rfc3339_instant(content) {
            Some(moment) => Ok(Some(moment.millis())),
            None => Err(WarpError::InvalidUsage),
        },
        None => Ok(None),
    }
}

pub open spec fn opt_int(value: Option<i64>) -> Option<int> {
    match value {
        Some(n) => Some(n as int),
        None => None,
    }
}

pub fn parse_optional_time(value: Option<&str>) -> (r: Result<Option<i64>, WarpError>)
    ensures
        (match r {
            Ok(at) => Ok(opt_int(at)),
            Err(error) => Err(error),
        }) == optional_time(text::opt_str(value)),
{
    match value {
        Some(content) => match parse_from_rfc3339(content) {
            Some(moment) => Ok(Some(moment.timestamp_millis())),
            None => Err(WarpError::InvalidUsage),
        },
        None => Ok(None),
    }
}

fn parse_held_time(value: &Option<String>) -> (r: Result<Option<i64>, WarpError>)
    ensures
        (match r {
            Ok(at) => Ok(opt_int(at)),
            Err(error) => Err(error),
        }) == optional_time(text::opt_text(*value)),
{
    match value {
        Some(content) => parse_optional_time(Some(content.as_str())),
        None => Ok(None),
    }
}

/// The account figures of a remote answer, with the time of the next refresh.
pub open spec fn remote_aggregate(info: RequestLimitInfo, next: Option<i64>) -> WarpAggregateUsage {
    let spending = match info.bonus_grants_info {
        Some(bonus) => bonus.spending_info,
        None => None,
    };
    WarpAggregateUsage {
        requests_used: info.requests_used_since_last_refresh,
        request_limit: info.request_limit,
        spend_cents: match spending {
            Some(spent) => spent.current_month_spend_cents,
            None => None,
        },
        credits_purchased_cents: match spending {
            Some(spent) => spent.current_month_credits_purchased,
            None => None,
        },
        next_refresh_at_ms: next,
    }
}

/// What normalizing a remote answer may give.
pub open spec fn remote_normalizes(
    scoping: Scoping,
    request: RequestLimitData,
    workspaces: WorkspaceData,
    account_scope: Seq<char>,
    now_ms: i64,
    outcome: Result<UsageModel, WarpError>,
) -> bool {
    match request.request_limit_info {
        None => outcome == Err::<UsageModel, WarpError>(WarpError::InvalidUsage),
        Some(info) => match optional_time(text::opt_text(info.next_refresh_time)) {
            Err(error) => outcome == Err::<UsageModel, WarpError>(error),
            Ok(next) => exists|next_ms: Option<i64>|
                #[trigger] opt_int(next_ms) == next && normalizes(
                    scoping,
                    account_scope,
                    if now_ms > 1 {
                        now_ms
                    } else {
                        1
                    },
                    remote_aggregate(info, next_ms),
                    remote_raws(workspaces.workspaces_metadata_for_user@),
                    Some(MAX_RESPONSE_BYTES),
                    outcome,
                ),
        },
    }
}

fn collect_remote(list: &Vec<WorkspaceMetadata>) -> (r: Vec<RawWorkspace>)
    ensures
        raw_models(r@) == remote_raws(list@),
{
    let mut out: Vec<RawWorkspace> = Vec::new();
    let mut i: usize = 0;
    while i < list.len()
        invariant
            i <= list@.len(),
            out@.len() == i,
            forall|j: int| 0 <= j < i ==> (#[trigger] out@[j]).model() == remote_raw(list@[j]),
        decreases list@.len() - i,
    {
        let workspace = &list[i];
        let billed: Option<i64> = match workspace.ai_overages {
            Some(overages) => overages.current_monthly_requests_used,
            None => None,
        };
        let current: Option<i64> = match workspace.usage_info {
            Some(info) => info.requests_used_since_last_refresh,
            None => None,
        };
        let spend_cents: Option<i64> = match workspace.ai_overages {
            Some(overages) => overages.current_monthly_request_cost_cents,
            None => None,
        };
        let total: Option<i64> = first_known(
            workspace.total_requests_used_since_last_refresh,
            current,
        );
        out.push(
            RawWorkspace {
                id: workspace.id.clone(),
                requests_used: first_known(billed, total),
                spend_cents,
            },
        );
        i += 1;
    }
    assert(raw_models(out@) =~= remote_raws(list@));
    out
}

/// Normalizes the two remote answers. `scope_of` turns the id of a workspace into an opaque scope;
/// it is asked for usable ids of the answer alone.
pub fn normalize_remote_with<F: Fn(&str) -> Result<String, WarpError>>(
    request: RequestLimitData,
    workspaces: WorkspaceData,
    account_scope: String,
    scope_of: F,
    now_ms: i64,
) -> (r: Result<WarpNormalizedUsage, WarpError>)
    requires
        forall|id: &str|
            asks_for(
                remote_raws(workspaces.workspaces_metadata_for_user@),
                Some(MAX_RESPONSE_BYTES),
                id@,
            ) ==> #[trigger] call_requires(scope_of, (id,)),
    ensures
        remote_normalizes(
            scopes_by(scope_of),
            request,
            workspaces,
            account_scope@,
            now_ms,
            normalized(r),
        ),
        r matches Ok(made) ==> remote_figures_kept(request, made.usage) && made.account_scope@
            == account_scope@,
{
    let info = match request.request_limit_info {
        Some(info) => info,
        None => return Err(WarpError::InvalidUsage),
    };
    let next_refresh_at_ms: Option<i64> = match parse_held_time(&info.next_refresh_time) {
        Ok(at) => at,
        Err(error) => return Err(error),
    };
    let spending = match info.bonus_grants_info {
        Some(bonus) => bonus.spending_info,
        None => None,
    };
    let spend_cents: Option<i64> = match spending {
        Some(spent) => spent.current_month_spend_cents,
        None => None,
    };
    let credits_purchased_cents: Option<i64> = match spending {
        Some(spent) => spent.current_month_credits_purchased,
        None => None,
    };
    let usage = WarpAggregateUsage {
        requests_used: info.requests_used_since_last_refresh,
        request_limit: info.request_limit,
        spend_cents,
        credits_purchased_cents,
        next_refresh_at_ms,
    };
    let raws = collect_remote(&workspaces.workspaces_metadata_for_user);
    let synced_at_ms: i64 = if now_ms > 1 {
        now_ms
    } else {
        1
    };
    normalize(&scope_of, account_scope, synced_at_ms, usage, &raws, Some(MAX_RESPONSE_BYTES))
}

/// The account figures of an external file, with the time of the next refresh.
pub open spec fn external_aggregate(
    usage: ExternalAggregateUsage,
    next: Option<i64>,
) -> WarpAggregateUsage {
    WarpAggregateUsage {
        requests_used: usage.requests_used,
        request_limit: usage.request_limit,
        spend_cents: usage.spend_cents,
        credits_purchased_cents: usage.credits_purchased_cents,
        next_refresh_at_ms: next,
    }
}

/// Whether the head of an external file is understood.
pub open spec fn external_is_dated(raw: ExternalUsage) -> bool {
    &&& raw.version == WARP_NORMALIZED_USAGE_VERSION
    &&& timestamps::rfc3339_instant(raw.synced_at@) is Some
    &&& optional_time(text::opt_text(raw.usage.next_refresh_time)) is Ok
}

/// What normalizing an external file may give.
pub open spec fn external_normalizes(
    scoping: Scoping,
    raw: ExternalUsage,
    account_scope: Seq<char>,
    outcome: Result<UsageModel, WarpError>,
) -> bool {
    if !external_is_dated(raw) {
        outcome == Err::<UsageModel, WarpError>(WarpError::InvalidUsage)
    } else {
        exists|synced_at_ms: i64, next_ms: Option<i64>|
            {
                &&& synced_at_ms == timestamps::rfc3339_instant(raw.synced_at@)->Some_0.millis()
                &&& Ok::<Option<int>, WarpError>(opt_int(next_ms)) == optional_time(
                    text::opt_text(raw.usage.next_refresh_time),
                )
                &&& #[trigger] normalizes(
                    scoping,
                    account_scope,
                    synced_at_ms,
                    external_aggregate(raw.usage, next_ms),
                    external_raws(raw.workspaces@),
                    None,
                    outcome,
                )
            }
    }
}

fn collect_external(list: &Vec<ExternalWorkspaceUsage>) -> (r: Vec<RawWorkspace>)
    ensures
        raw_models(r@) == external_raws(list@),
{
    let mut out: Vec<RawWorkspace> = Vec::new();
    let mut i: usize = 0;
    while i < list.len()
        invariant
            i <= list@.len(),
            out@.len() == i,
            forall|j: int| 0 <= j < i ==> (#[trigger] out@[j]).model() == external_raw(list@[j]),
        decreases list@.len() - i,
    {
        out.push(
            RawWorkspace {
                id: list[i].id.clone(),
                requests_used: list[i].requests_used,
                spend_cents: list[i].spend_cents,
            },
        );
        i += 1;
    }
    assert(raw_models(out@) =~= external_raws(list@));
    out
}

/// Normalizes the usage of an external file. `opaque` gives the scopes of its workspaces under the
/// installation key; it is asked for usable ids of the file alone.
pub fn normalize_external<O: Fn(&KeyedMaterial) -> Option<String>>(
    raw: ExternalUsage,
    account_scope: String,
    opaque: &O,
) -> (r: Result<WarpNormalizedUsage, WarpError>)
    requires
        forall|material: &KeyedMaterial, id: Seq<char>|
            asks_for(external_raws(raw.workspaces@), None, id) && material@
                == #[trigger] keyed::workspace_key(account_scope@, id) ==> #[trigger] call_requires(
                *opaque,
                (material,),
            ),
    ensures
        external_normalizes(
            keyed_scopes(*opaque, account_scope@),
            raw,
            account_scope@,
            normalized(r),
        ),
        r matches Ok(made) ==> {
            &&& made.usage.requests_used == raw.usage.requests_used
            &&& made.usage.request_limit == raw.usage.request_limit
            &&& made.usage.spend_cents == raw.usage.spend_cents
            &&& made.usage.credits_purchased_cents == raw.usage.credits_purchased_cents
            &&& made.account_scope@ == account_scope@
        },
{
    if raw.version != WARP_NORMALIZED_USAGE_VERSION {
        return Err(WarpError::InvalidUsage);
    }
    let synced_at_ms: i64 = match parse_from_rfc3339(&raw.synced_at) {
        Some(moment) => moment.timestamp_millis(),
        None => return Err(WarpError::InvalidUsage),
    };
    let next_refresh_at_ms: Option<i64> = match parse_held_time(&raw.usage.next_refresh_time) {
        Ok(at) => at,
        Err(error) => return Err(error),
    };
    let usage = WarpAggregateUsage {
        requests_used: raw.usage.requests_used,
        request_limit: raw.usage.request_limit,
        spend_cents: raw.usage.spend_cents,
        credits_purchased_cents: raw.usage.credits_purchased_cents,
        next_refresh_at_ms,
    };
    let raws = collect_external(&raw.workspaces);
    let account = account_scope.clone();
    let ghost asked = external_raws(raw.workspaces@);
    let scope_of = |id: &str| -> (scope: Result<String, WarpError>)
        requires
            forall|material: &KeyedMaterial|
                material@ == keyed::workspace_key(account@, id@) ==> #[trigger] call_requires(
                    *opaque,
                    (material,),
                ),
        ensures
            keyed::scope_given(
                *opaque,
                keyed::workspace_key(account@, id@),
                keyed::scope_text(scope),
            ),
        { scope_from(&workspace_material(&account, id), opaque) };
    let made = normalize(&scope_of, account_scope, synced_at_ms, usage, &raws, None);
    proof {
        lemma_scoping_weakens(
            scopes_by(scope_of),
            keyed_scopes(*opaque, account@),
            account@,
            synced_at_ms,
            usage,
            asked,
            None,
            normalized(made),
        );
        assert(usage == external_aggregate(raw.usage, next_refresh_at_ms));
    }
    made
}

/// Normalizes the two remote answers, with the scopes of the workspaces that `opaque` gives under
/// the installation key.
pub fn normalize_remote<O: Fn(&KeyedMaterial) -> Option<String>>(
    request: RequestLimitData,
    workspaces: WorkspaceData,
    account_scope: String,
    opaque: &O,
    now_ms: i64,
) -> (r: Result<WarpNormalizedUsage, WarpError>)
    requires
        forall|material: &KeyedMaterial, id: Seq<char>|
            asks_for(
                remote_raws(workspaces.workspaces_metadata_for_user@),
                Some(MAX_RESPONSE_BYTES),
                id,
            ) && material@ == #[trigger] keyed::workspace_key(account_scope@, id) ==> #[trigger]
                call_requires(*opaque, (material,)),
    ensures
        remote_normalizes(
            keyed_scopes(*opaque, account_scope@),
            request,
            workspaces,
            account_scope@,
            now_ms,
            normalized(r),
        ),
        r matches Ok(made) ==> remote_figures_kept(request, made.usage) && made.account_scope@
            == account_scope@,
{
    let account = account_scope.clone();
    let ghost asked = remote_raws(workspaces.workspaces_metadata_for_user@);
    let scope_of = |id: &str| -> (scope: Result<String, WarpError>)
        requires
            forall|material: &KeyedMaterial|
                material@ == keyed::workspace_key(account@, id@) ==> #[trigger] call_requires(
                    *opaque,
                    (material,),
                ),
        ensures
            keyed::scope_given(
                *opaque,
                keyed::workspace_key(account@, id@),
                keyed::scope_text(scope),
            ),
        { scope_from(&workspace_material(&account, id), opaque) };
    let made = normalize_remote_with(request, workspaces, account_scope, scope_of, now_ms);
    proof {
        let info = request.request_limit_info->Some_0;
        if request.request_limit_info is Some && optional_time(
            text::opt_text(info.next_refresh_time),
        ) is Ok {
            let next = optional_time(text::opt_text(info.next_refresh_time))->Ok_0;
            let synced_at_ms: i64 = if now_ms > 1 {
                now_ms
            } else {
                1
            };
            let next_ms = choose|next_ms: Option<i64>|
                #[trigger] opt_int(next_ms) == next && normalizes(
                    scopes_by(scope_of),
                    account@,
                    synced_at_ms,
                    remote_aggregate(info, next_ms),
                    asked,
                    Some(MAX_RESPONSE_BYTES),
                    normalized(made),
                );
            lemma_scoping_weakens(
                scopes_by(scope_of),
                keyed_scopes(*opaque, account@),
                account@,
                synced_at_ms,
                remote_aggregate(info, next_ms),
                asked,
                Some(MAX_RESPONSE_BYTES),
                normalized(made),
            );
        }
    }
    made
}

/// Normalized usage is always valid, belongs to the account it was asked for, and has one
/// workspace for each that came in.
pub proof fn normalized_usage_is_valid(
    scoping: Scoping,
    account_scope: Seq<char>,
    synced_at_ms: i64,
    usage: WarpAggregateUsage,
    raws: Seq<RawModel>,
    limit: Option<u64>,
    outcome: Result<UsageModel, WarpError>,
)
    requires
        normalizes(scoping, account_scope, synced_at_ms, usage, raws, limit, outcome),
        outcome is Ok,
    ensures
        warp_usage::usage_fault(outcome->Ok_0) is None,
        outcome->Ok_0.account_scope == account_scope,
        outcome->Ok_0.workspaces.len() == raws.len(),
{
}

/// Whether the account figures are those of the remote answer, each under its own name.
pub open spec fn remote_figures_kept(request: RequestLimitData, usage: WarpAggregateUsage) -> bool {
    &&& request.request_limit_info is Some
    &&& usage.requests_used == request.request_limit_info->Some_0.requests_used_since_last_refresh
    &&& usage.request_limit == request.request_limit_info->Some_0.request_limit
    &&& match request.request_limit_info->Some_0.bonus_grants_info {
        Some(BonusGrantsInfo { spending_info: Some(spent) }) => usage.spend_cents
            == spent.current_month_spend_cents && usage.credits_purchased_cents
            == spent.current_month_credits_purchased,
        _ => usage.spend_cents is None && usage.credits_purchased_cents is None,
    }
}

/// Whether a time is the one that an optional date denotes, in milliseconds since the epoch.
pub open spec fn dated(time: Option<i64>, date: Option<Seq<char>>) -> bool {
    match date {
        Some(content) => timestamps::rfc3339_instant(content) is Some && time is Some
            && time->Some_0 == timestamps::rfc3339_instant(content)->Some_0.secs * 1000
            + timestamps::rfc3339_instant(content)->Some_0.nanos as int / 1_000_000,
        None => time is None,
    }
}

proof fn lemma_normalized(
    scoping: Scoping,
    account_scope: Seq<char>,
    synced_at_ms: i64,
    usage: WarpAggregateUsage,
    raws: Seq<RawModel>,
    limit: Option<u64>,
    made: UsageModel,
)
    requires
        normalizes(scoping, account_scope, synced_at_ms, usage, raws, limit, Ok(made)),
    ensures
        made.version == 1,
        made.synced_at_ms == synced_at_ms,
        made.account_scope == account_scope,
        made.usage == usage,
        made.workspaces.len() == raws.len(),
        forall|i: int|
            0 <= i < raws.len() ==> {
                &&& scoping(raws[i].id, Ok((#[trigger] made.workspaces[i]).scope))
                &&& made.workspaces[i].requests_used == raws[i].requests_used
                &&& made.workspaces[i].spend_cents == raws[i].spend_cents
                &&& text::trimmed(raws[i].id).len() > 0
            },
{
    let done = made.workspaces;
    assert(all_scoped(scoping, raws, limit, done));
    assert forall|i: int| 0 <= i < raws.len() implies workspace_scopes(
        scoping,
        raws[i],
        limit,
        Ok(#[trigger] done[i]),
    ) by {}
}

/// Where an external file normalizes, every figure of the result is the figure of the same name in
/// the file: those of the account, and those of each workspace in order, under the scope of its id.
/// Only a file of the first version with dates that can be read and no blank id normalizes.
pub proof fn external_figures_are_kept(
    scoping: Scoping,
    raw: ExternalUsage,
    account_scope: Seq<char>,
    made: UsageModel,
)
    requires
        external_normalizes(scoping, raw, account_scope, Ok(made)),
    ensures
        raw.version == 1,
        made.version == 1,
        made.account_scope == account_scope,
        dated(Some(made.synced_at_ms), Some(raw.synced_at@)),
        made.usage.requests_used == raw.usage.requests_used,
        made.usage.request_limit == raw.usage.request_limit,
        made.usage.spend_cents == raw.usage.spend_cents,
        made.usage.credits_purchased_cents == raw.usage.credits_purchased_cents,
        dated(made.usage.next_refresh_at_ms, text::opt_text(raw.usage.next_refresh_time)),
        made.workspaces.len() == raw.workspaces@.len(),
        forall|i: int|
            0 <= i < raw.workspaces@.len() ==> {
                &&& scoping(raw.workspaces@[i].id@, Ok((#[trigger] made.workspaces[i]).scope))
                &&& made.workspaces[i].requests_used == raw.workspaces@[i].requests_used
                &&& made.workspaces[i].spend_cents == raw.workspaces@[i].spend_cents
                &&& text::trimmed(raw.workspaces@[i].id@).len() > 0
            },
{
    let (synced_at_ms, next_ms) = choose|synced_at_ms: i64, next_ms: Option<i64>|
        {
            &&& synced_at_ms == timestamps::rfc3339_instant(raw.synced_at@)->Some_0.millis()
            &&& Ok::<Option<int>, WarpError>(opt_int(next_ms)) == optional_time(
                text::opt_text(raw.usage.next_refresh_time),
            )
            &&& #[trigger] normalizes(
                scoping,
                account_scope,
                synced_at_ms,
                external_aggregate(raw.usage, next_ms),
                external_raws(raw.workspaces@),
                None,
                Ok(made),
            )
        };
    lemma_normalized(
        scoping,
        account_scope,
        synced_at_ms,
        external_aggregate(raw.usage, next_ms),
        external_raws(raw.workspaces@),
        None,
        made,
    );
    let raws = external_raws(raw.workspaces@);
    assert forall|i: int| 0 <= i < raw.workspaces@.len() implies {
        &&& scoping(raw.workspaces@[i].id@, Ok((#[trigger] made.workspaces[i]).scope))
        &&& made.workspaces[i].requests_used == raw.workspaces@[i].requests_used
        &&& made.workspaces[i].spend_cents == raw.workspaces@[i].spend_cents
        &&& text::trimmed(raw.workspaces@[i].id@).len() > 0
    } by {
        assert(raws[i] == external_raw(raw.workspaces@[i]));
    }
}

/// Where a remote answer normalizes, every figure of the result is that of the answer: those of the
/// account, and those of each workspace in order, under the scope of its id. What a workspace used
/// is what was billed, else its total, else the count of the period; what it spent is what was
/// billed.
pub proof fn remote_figures_are_kept(
    scoping: Scoping,
    request: RequestLimitData,
    workspaces: WorkspaceData,
    account_scope: Seq<char>,
    now_ms: i64,
    made: UsageModel,
)
    requires
        remote_normalizes(scoping, request, workspaces, account_scope, now_ms, Ok(made)),
    ensures
        made.version == 1,
        made.account_scope == account_scope,
        now_ms >= 1 ==> made.synced_at_ms == now_ms,
        now_ms < 1 ==> made.synced_at_ms == 1,
        remote_figures_kept(request, made.usage),
        dated(
            made.usage.next_refresh_at_ms,
            text::opt_text(request.request_limit_info->Some_0.next_refresh_time),
        ),
        made.workspaces.len() == workspaces.workspaces_metadata_for_user@.len(),
        forall|i: int|
            0 <= i < made.workspaces.len() ==> workspace_figures_kept(
                workspaces.workspaces_metadata_for_user@[i],
                #[trigger] made.workspaces[i],
            ) && scoping(
                workspaces.workspaces_metadata_for_user@[i].id@,
                Ok(made.workspaces[i].scope),
            ),
{
    let info = request.request_limit_info->Some_0;
    let next = optional_time(text::opt_text(info.next_refresh_time))->Ok_0;
    let synced_at_ms: i64 = if now_ms > 1 {
        now_ms
    } else {
        1
    };
    let list = workspaces.workspaces_metadata_for_user@;
    let next_ms = choose|next_ms: Option<i64>|
        #[trigger] opt_int(next_ms) == next && normalizes(
            scoping,
            account_scope,
            synced_at_ms,
            remote_aggregate(info, next_ms),
            remote_raws(list),
            Some(MAX_RESPONSE_BYTES),
            Ok(made),
        );
    lemma_normalized(
        scoping,
        account_scope,
        synced_at_ms,
        remote_aggregate(info, next_ms),
        remote_raws(list),
        Some(MAX_RESPONSE_BYTES),
        made,
    );
    let raws = remote_raws(list);
    assert forall|i: int| 0 <= i < made.workspaces.len() implies workspace_figures_kept(
        list[i],
        #[trigger] made.workspaces[i],
    ) && scoping(list[i].id@, Ok(made.workspaces[i].scope)) by {
        assert(raws[i] == remote_raw(list[i]));
    }
}

/// Whether the figures of a workspace are those of its remote answer.
pub open spec fn workspace_figures_kept(answer: WorkspaceMetadata, made: WorkspaceModel) -> bool {
    &&& match answer.ai_overages {
        Some(AiOverages { current_monthly_requests_used: Some(billed), .. }) => made.requests_used
            == Some(billed),
        _ => match answer.total_requests_used_since_last_refresh {
            Some(total) => made.requests_used == Some(total),
            None => match answer.usage_info {
                Some(info) => made.requests_used == info.requests_used_since_last_refresh,
                None => made.requests_used is None,
            },
        },
    }
    &&& match answer.ai_overages {
        Some(overages) => made.spend_cents == overages.current_monthly_request_cost_cents,
        None => made.spend_cents is None,
    }
}

/// A remote answer without its head, or with a date that cannot be read, is refused, and so is an
/// external file of another version or with such a date. Nothing else but a workspace or figures
/// that are not valid is.
pub proof fn refused_usage_has_a_reason(
    scoping: Scoping,
    raw: ExternalUsage,
    account_scope: Seq<char>,
    outcome: Result<UsageModel, WarpError>,
)
    requires
        external_normalizes(scoping, raw, account_scope, outcome),
    ensures
        raw.version != 1 ==> outcome == Err::<UsageModel, WarpError>(WarpError::InvalidUsage),
        timestamps::rfc3339_instant(raw.synced_at@) is None ==> outcome == Err::<
            UsageModel,
            WarpError,
        >(WarpError::InvalidUsage),
        (raw.usage.next_refresh_time matches Some(date) && timestamps::rfc3339_instant(date@)
            is None) ==> outcome == Err::<UsageModel, WarpError>(WarpError::InvalidUsage),
        (exists|i: int|
            0 <= i < raw.workspaces@.len() && text::trimmed(
                (#[trigger] raw.workspaces@[i]).id@,
            ).len() == 0) ==> outcome is Err,
        raw.version == 1 && timestamps::rfc3339_instant(raw.synced_at@) is Some && (
        raw.usage.next_refresh_time matches Some(date) ==> timestamps::rfc3339_instant(date@)
            is Some) && outcome is Err && outcome->Err_0 != WarpError::InvalidUsage ==> exists|i: int|
            0 <= i < raw.workspaces@.len() && scoping(
                (#[trigger] raw.workspaces@[i]).id@,
                Err(outcome->Err_0),
            ),
{
    if exists|i: int|
        0 <= i < raw.workspaces@.len() && text::trimmed((#[trigger] raw.workspaces@[i]).id@).len()
            == 0 {
        let i = choose|i: int|
            0 <= i < raw.workspaces@.len() && text::trimmed(
                (#[trigger] raw.workspaces@[i]).id@,
            ).len() == 0;
        if outcome is Ok {
            external_figures_are_kept(scoping, raw, account_scope, outcome->Ok_0);
            assert(outcome->Ok_0.workspaces[i] == outcome->Ok_0.workspaces[i]);
        }
    }
    if external_is_dated(raw) && outcome is Err && outcome->Err_0 != WarpError::InvalidUsage {
        let (synced_at_ms, next_ms) = choose|synced_at_ms: i64, next_ms: Option<i64>|
            {
                &&& synced_at_ms == timestamps::rfc3339_instant(raw.synced_at@)->Some_0.millis()
                &&& Ok::<Option<int>, WarpError>(opt_int(next_ms)) == optional_time(
                    text::opt_text(raw.usage.next_refresh_time),
                )
                &&& #[trigger] normalizes(
                    scoping,
                    account_scope,
                    synced_at_ms,
                    external_aggregate(raw.usage, next_ms),
                    external_raws(raw.workspaces@),
                    None,
                    outcome,
                )
            };
        let raws = external_raws(raw.workspaces@);
        lemma_refused(
            scoping,
            account_scope,
            synced_at_ms,
            external_aggregate(raw.usage, next_ms),
            raws,
            None,
            outcome->Err_0,
        );
        let i = choose|i: int|
            0 <= i < raws.len() && scoping((#[trigger] raws[i]).id, Err(outcome->Err_0));
        assert(raws[i] == external_raw(raw.workspaces@[i]));
    }
}

proof fn lemma_refused(
    scoping: Scoping,
    account_scope: Seq<char>,
    synced_at_ms: i64,
    usage: WarpAggregateUsage,
    raws: Seq<RawModel>,
    limit: Option<u64>,
    error: WarpError,
)
    requires
        normalizes(scoping, account_scope, synced_at_ms, usage, raws, limit, Err(error)),
        error != WarpError::InvalidUsage,
    ensures
        exists|i: int| 0 <= i < raws.len() && scoping((#[trigger] raws[i]).id, Err(error)),
{
    let done = choose|done: Seq<WorkspaceModel>|
        {
            &&& #[trigger] all_scoped(scoping, raws, limit, done)
            &&& done.len() < raws.len()
            &&& workspace_scopes(scoping, raws[done.len() as int], limit, Err(error))
        };
    assert(scoping(raws[done.len() as int].id, Err(error)));
}

/// Whether usage holds the figures of these workspaces, each under a scope of its id.
pub open spec fn holds_workspaces(
    scoping: Scoping,
    raws: Seq<RawModel>,
    made: UsageModel,
) -> bool {
    &&& made.workspaces.len() == raws.len()
    &&& forall|i: int|
        0 <= i < raws.len() ==> {
            &&& scoping(raws[i].id, Ok((#[trigger] made.workspaces[i]).scope))
            &&& made.workspaces[i].requests_used == raws[i].requests_used
            &&& made.workspaces[i].spend_cents == raws[i].spend_cents
        }
}

proof fn lemma_invalid(
    scoping: Scoping,
    account_scope: Seq<char>,
    synced_at_ms: i64,
    usage: WarpAggregateUsage,
    raws: Seq<RawModel>,
    limit: Option<u64>,
)
    requires
        normalizes(
            scoping,
            account_scope,
            synced_at_ms,
            usage,
            raws,
            limit,
            Err(WarpError::InvalidUsage),
        ),
        forall|i: int|
            0 <= i < raws.len() ==> text::trimmed((#[trigger] raws[i]).id).len() > 0 && (
            limit matches Some(max) ==> encode_utf8(raws[i].id).len() <= max) && !scoping(
                raws[i].id,
                Err(WarpError::InvalidUsage),
            ),
    ensures
        exists|made: UsageModel|
            {
                &&& #[trigger] holds_workspaces(scoping, raws, made)
                &&& warp_usage::usage_fault(made) is Some
                &&& made.version == 1
                &&& made.account_scope == account_scope
                &&& made.synced_at_ms == synced_at_ms
                &&& made.usage == usage
            },
{
    let done = choose|done: Seq<WorkspaceModel>|
        {
            &&& #[trigger] all_scoped(scoping, raws, limit, done)
            &&& if done.len() < raws.len() {
                workspace_scopes(
                    scoping,
                    raws[done.len() as int],
                    limit,
                    Err(WarpError::InvalidUsage),
                )
            } else {
                warp_usage::usage_fault(
                    UsageModel {
                        version: WARP_NORMALIZED_USAGE_VERSION,
                        synced_at_ms,
                        account_scope,
                        usage,
                        workspaces: done,
                    },
                ) is Some
            }
        };
    if done.len() < raws.len() {
        let raw = raws[done.len() as int];
        assert(text::trimmed(raw.id).len() > 0);
    }
    let made = UsageModel {
        version: WARP_NORMALIZED_USAGE_VERSION,
        synced_at_ms,
        account_scope,
        usage,
        workspaces: done,
    };
    assert forall|i: int| 0 <= i < raws.len() implies {
        &&& scoping(raws[i].id, Ok((#[trigger] made.workspaces[i]).scope))
        &&& made.workspaces[i].requests_used == raws[i].requests_used
        &&& made.workspaces[i].spend_cents == raws[i].spend_cents
    } by {
        assert(workspace_scopes(scoping, raws[i], limit, Ok(done[i])));
        assert(text::trimmed(raws[i].id).len() > 0);
    }
    assert(holds_workspaces(scoping, raws, made));
}

/// An external file that is dated, of the first version and without a blank id is refused as
/// invalid only where its own figures are: they make usage that is not valid.
pub proof fn good_external_files_normalize(
    scoping: Scoping,
    raw: ExternalUsage,
    account_scope: Seq<char>,
)
    requires
        external_normalizes(scoping, raw, account_scope, Err(WarpError::InvalidUsage)),
        raw.version == 1,
        timestamps::rfc3339_instant(raw.synced_at@) is Some,
        raw.usage.next_refresh_time matches Some(date) ==> timestamps::rfc3339_instant(date@)
            is Some,
        forall|i: int|
            0 <= i < raw.workspaces@.len() ==> text::trimmed(
                (#[trigger] raw.workspaces@[i]).id@,
            ).len() > 0 && !scoping(raw.workspaces@[i].id@, Err(WarpError::InvalidUsage)),
    ensures
        exists|made: UsageModel|
            {
                &&& #[trigger] holds_workspaces(scoping, external_raws(raw.workspaces@), made)
                &&& warp_usage::usage_fault(made) is Some
                &&& made.version == 1
                &&& made.account_scope == account_scope
                &&& dated(Some(made.synced_at_ms), Some(raw.synced_at@))
                &&& made.usage.requests_used == raw.usage.requests_used
                &&& made.usage.request_limit == raw.usage.request_limit
                &&& made.usage.spend_cents == raw.usage.spend_cents
                &&& made.usage.credits_purchased_cents == raw.usage.credits_purchased_cents
                &&& dated(made.usage.next_refresh_at_ms, text::opt_text(raw.usage.next_refresh_time))
            },
{
    let (synced_at_ms, next_ms) = choose|synced_at_ms: i64, next_ms: Option<i64>|
        {
            &&& synced_at_ms == timestamps::rfc3339_instant(raw.synced_at@)->Some_0.millis()
            &&& Ok::<Option<int>, WarpError>(opt_int(next_ms)) == optional_time(
                text::opt_text(raw.usage.next_refresh_time),
            )
            &&& #[trigger] normalizes(
                scoping,
                account_scope,
                synced_at_ms,
                external_aggregate(raw.usage, next_ms),
                external_raws(raw.workspaces@),
                None,
                Err(WarpError::InvalidUsage),
            )
        };
    let raws = external_raws(raw.workspaces@);
    assert forall|i: int| 0 <= i < raws.len() implies text::trimmed((#[trigger] raws[i]).id).len()
        > 0 && !scoping(raws[i].id, Err(WarpError::InvalidUsage)) by {
        assert(raws[i] == external_raw(raw.workspaces@[i]));
    }
    lemma_invalid(
        scoping,
        account_scope,
        synced_at_ms,
        external_aggregate(raw.usage, next_ms),
        raws,
        None,
    );
}

/// A remote answer whose head is there and dated, and whose ids are neither blank nor longer than a
/// response may be, is refused as invalid only where its own figures are. Without its head, or with
/// a date that cannot be read, it is refused.
pub proof fn good_remote_answers_normalize(
    scoping: Scoping,
    request: RequestLimitData,
    workspaces: WorkspaceData,
    account_scope: Seq<char>,
    now_ms: i64,
    outcome: Result<UsageModel, WarpError>,
)
    requires
        remote_normalizes(scoping, request, workspaces, account_scope, now_ms, outcome),
    ensures
        request.request_limit_info is None ==> outcome == Err::<UsageModel, WarpError>(
            WarpError::InvalidUsage,
        ),
        (request.request_limit_info matches Some(info) && (
        info.next_refresh_time matches Some(date) && timestamps::rfc3339_instant(date@) is None))
            ==> outcome == Err::<UsageModel, WarpError>(WarpError::InvalidUsage),
        (request.request_limit_info matches Some(info) && (
        info.next_refresh_time matches Some(date) ==> timestamps::rfc3339_instant(date@) is Some))
            && outcome == Err::<UsageModel, WarpError>(WarpError::InvalidUsage) && (forall|i: int|
            0 <= i < workspaces.workspaces_metadata_for_user@.len() ==> text::trimmed(
                (#[trigger] workspaces.workspaces_metadata_for_user@[i]).id@,
            ).len() > 0 && encode_utf8(workspaces.workspaces_metadata_for_user@[i].id@).len()
                <= 2_097_152 && !scoping(
                workspaces.workspaces_metadata_for_user@[i].id@,
                Err(WarpError::InvalidUsage),
            )) ==> exists|made: UsageModel|
            {
                &&& #[trigger] holds_workspaces(
                    scoping,
                    remote_raws(workspaces.workspaces_metadata_for_user@),
                    made,
                )
                &&& warp_usage::usage_fault(made) is Some
                &&& made.version == 1
                &&& made.account_scope == account_scope
                &&& made.synced_at_ms >= 1
                &&& remote_figures_kept(request, made.usage)
            },
{
    if request.request_limit_info is Some {
        let info = request.request_limit_info->Some_0;
        let list = workspaces.workspaces_metadata_for_user@;
        let raws = remote_raws(list);
        if optional_time(text::opt_text(info.next_refresh_time)) is Ok && outcome == Err::<
            UsageModel,
            WarpError,
        >(WarpError::InvalidUsage) && (forall|i: int|
            0 <= i < list.len() ==> text::trimmed((#[trigger] list[i]).id@).len() > 0
                && encode_utf8(list[i].id@).len() <= 2_097_152 && !scoping(
                list[i].id@,
                Err(WarpError::InvalidUsage),
            )) {
            let next = optional_time(text::opt_text(info.next_refresh_time))->Ok_0;
            let synced_at_ms: i64 = if now_ms > 1 {
                now_ms
            } else {
                1
            };
            let next_ms = choose|next_ms: Option<i64>|
                #[trigger] opt_int(next_ms) == next && normalizes(
                    scoping,
                    account_scope,
                    synced_at_ms,
                    remote_aggregate(info, next_ms),
                    raws,
                    Some(MAX_RESPONSE_BYTES),
                    outcome,
                );
            assert forall|i: int| 0 <= i < raws.len() implies text::trimmed(
                (#[trigger] raws[i]).id,
            ).len() > 0 && encode_utf8(raws[i].id).len() <= MAX_RESPONSE_BYTES && !scoping(
                raws[i].id,
                Err(WarpError::InvalidUsage),
            ) by {
                assert(raws[i] == remote_raw(list[i]));
            }
            lemma_invalid(
                scoping,
                account_scope,
                synced_at_ms,
                remote_aggregate(info, next_ms),
                raws,
                Some(MAX_RESPONSE_BYTES),
            );
        }
    }
}

} // verus!
