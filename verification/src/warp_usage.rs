//! Normalized Warp usage: aggregate counters under opaque account and workspace identities.

use vstd::prelude::*;
use vstd::string::*;
use crate::paths::SourcePath;
use crate::text::{self, chars_of, is_ascii_alphanumeric, joined, same_text};

verus! {

pub const WARP_NORMALIZED_USAGE_VERSION: u32 = 1;

pub const INVALID_HEADER: &'static str = "invalid warp normalized usage header";

pub const INVALID_ACCOUNT: &'static str = "invalid warp account scope";

pub const NEGATIVE_VALUE: &'static str = "negative warp usage value";

pub const INVALID_REFRESH_TIME: &'static str = "invalid warp refresh time";

pub const INVALID_WORKSPACE: &'static str = "invalid warp workspace scope";

pub const EMPTY_PATH: &'static str = "warp source path is empty";

#[derive(Clone, Copy, Debug, PartialEq, Eq, Structural)]
pub struct WarpAggregateUsage {
    pub requests_used: Option<i64>,
    pub request_limit: Option<i64>,
    pub spend_cents: Option<i64>,
    pub credits_purchased_cents: Option<i64>,
    pub next_refresh_at_ms: Option<i64>,
}

impl Default for WarpAggregateUsage {
    fn default() -> (r: WarpAggregateUsage)
        ensures
            r == (WarpAggregateUsage {
                requests_used: None,
                request_limit: None,
                spend_cents: None,
                credits_purchased_cents: None,
                next_refresh_at_ms: None,
            }),
    {
        WarpAggregateUsage {
            requests_used: None,
            request_limit: None,
            spend_cents: None,
            credits_purchased_cents: None,
            next_refresh_at_ms: None,
        }
    }
}

#[derive(Debug)]
pub struct WarpWorkspaceUsage {
    pub workspace_scope: String,
    pub requests_used: Option<i64>,
    pub spend_cents: Option<i64>,
}

#[derive(Debug)]
pub struct WarpNormalizedUsage {
    pub version: u32,
    pub synced_at_ms: i64,
    pub account_scope: String,
    pub usage: WarpAggregateUsage,
    pub workspaces: Vec<WarpWorkspaceUsage>,
}

#[verifier::ext_equal]
pub ghost struct WorkspaceModel {
    pub scope: Seq<char>,
    pub requests_used: Option<i64>,
    pub spend_cents: Option<i64>,
}

#[verifier::ext_equal]
pub ghost struct UsageModel {
    pub version: u32,
    pub synced_at_ms: i64,
    pub account_scope: Seq<char>,
    pub usage: WarpAggregateUsage,
    pub workspaces: Seq<WorkspaceModel>,
}

impl View for WarpWorkspaceUsage {
    type V = WorkspaceModel;

    open spec fn view(&self) -> WorkspaceModel {
        WorkspaceModel {
            scope: self.workspace_scope@,
            requests_used: self.requests_used,
            spend_cents: self.spend_cents,
        }
    }
}

pub open spec fn workspace_models(list: Seq<WarpWorkspaceUsage>) -> Seq<WorkspaceModel> {
    list.map_values(|workspace: WarpWorkspaceUsage| workspace@)
}

impl View for WarpNormalizedUsage {
    type V = UsageModel;

    open spec fn view(&self) -> UsageModel {
        UsageModel {
            version: self.version,
            synced_at_ms: self.synced_at_ms,
            account_scope: self.account_scope@,
            usage: self.usage,
            workspaces: workspace_models(self.workspaces@),
        }
    }
}

impl WarpWorkspaceUsage {
    pub fn copy(&self) -> (r: WarpWorkspaceUsage)
        ensures
            r@ == self@,
    {
        WarpWorkspaceUsage {
            workspace_scope: self.workspace_scope.clone(),
            requests_used: self.requests_used,
            spend_cents: self.spend_cents,
        }
    }

    pub fn same(&self, other: &WarpWorkspaceUsage) -> (r: bool)
        ensures
            r == (self@ == other@),
    {
        same_text(&self.workspace_scope, &other.workspace_scope) && self.requests_used
            == other.requests_used && self.spend_cents == other.spend_cents
    }
}

impl WarpNormalizedUsage {
    pub fn copy(&self) -> (r: WarpNormalizedUsage)
        ensures
            r@ == self@,
    {
        let mut workspaces: Vec<WarpWorkspaceUsage> = Vec::new();
        let mut i: usize = 0;
        assert(workspace_models(workspaces@) =~= workspace_models(self.workspaces@).take(0));
        while i < self.workspaces.len()
            invariant
                i <= self.workspaces@.len(),
                workspace_models(workspaces@) == workspace_models(self.workspaces@).take(i as int),
            decreases self.workspaces@.len() - i,
        {
            let ghost before = workspaces@;
            let copied = self.workspaces[i].copy();
            workspaces.push(copied);
            assert(workspace_models(workspaces@) =~= workspace_models(before).push(copied@));
            assert(workspace_models(self.workspaces@).take(i + 1) =~= workspace_models(
                self.workspaces@,
            ).take(i as int).push(self.workspaces@[i as int]@));
            i += 1;
        }
        assert(workspace_models(self.workspaces@).take(i as int) =~= workspace_models(
            self.workspaces@,
        ));
        WarpNormalizedUsage {
            version: self.version,
            synced_at_ms: self.synced_at_ms,
            account_scope: self.account_scope.clone(),
            usage: self.usage,
            workspaces,
        }
    }

    pub fn same(&self, other: &WarpNormalizedUsage) -> (r: bool)
        ensures
            r == (self@ == other@),
    {
        let ghost mine = workspace_models(self.workspaces@);
        let ghost theirs = workspace_models(other.workspaces@);
        assert(mine.len() == self.workspaces@.len() && theirs.len() == other.workspaces@.len());
        if self.version != other.version || self.synced_at_ms != other.synced_at_ms || !same_text(
            &self.account_scope,
            &other.account_scope,
        ) || self.usage != other.usage || self.workspaces.len() != other.workspaces.len() {
            return false;
        }
        let mut i: usize = 0;
        while i < self.workspaces.len()
            invariant
                i <= self.workspaces@.len() == other.workspaces@.len(),
                mine == workspace_models(self.workspaces@),
                theirs == workspace_models(other.workspaces@),
                forall|j: int| 0 <= j < i ==> mine[j] == theirs[j],
            decreases self.workspaces@.len() - i,
        {
            assert(mine[i as int] == self.workspaces@[i as int]@);
            assert(theirs[i as int] == other.workspaces@[i as int]@);
            if !self.workspaces[i].same(&other.workspaces[i]) {
                return false;
            }
            i += 1;
        }
        assert(mine =~= theirs);
        true
    }
}

/// A keyed digest as text: forty-three characters of the URL-safe Base64 alphabet.
pub open spec fn opaque_hmac(s: Seq<char>) -> bool {
    s.len() == 43 && forall|i: int| 0 <= i < s.len() ==> opaque_char(#[trigger] s[i])
}

pub open spec fn opaque_char(c: char) -> bool {
    text::ascii_alphanumeric(c) || c == '-' || c == '_'
}

pub fn is_opaque_hmac(value: &str) -> (r: bool)
    ensures
        r == opaque_hmac(value@),
{
    let chars = chars_of(value);
    if chars.len() != 43 {
        return false;
    }
    let mut i: usize = 0;
    while i < chars.len()
        invariant
            i <= chars@.len(),
            chars@ == value@,
            forall|j: int| 0 <= j < i ==> opaque_char(#[trigger] chars@[j]),
        decreases chars@.len() - i,
    {
        let c = chars[i];
        if !(is_ascii_alphanumeric(c) || c == '-' || c == '_') {
            return false;
        }
        i += 1;
    }
    true
}

pub open spec fn negative(value: Option<i64>) -> bool {
    value matches Some(n) && n < 0
}

fn is_negative(value: Option<i64>) -> (r: bool)
    ensures
        r == negative(value),
{
    match value {
        Some(n) => n < 0,
        None => false,
    }
}

/// Whether an earlier workspace has the scope of workspace `i`.
pub open spec fn scope_seen(workspaces: Seq<WorkspaceModel>, i: int) -> bool {
    exists|j: int| 0 <= j < i && (#[trigger] workspaces[j]).scope == workspaces[i].scope
}

/// What is wrong with workspace `i`.
pub open spec fn workspace_fault(workspaces: Seq<WorkspaceModel>, i: int) -> Option<Seq<char>> {
    if !opaque_hmac(workspaces[i].scope) || scope_seen(workspaces, i) {
        Some(INVALID_WORKSPACE@)
    } else if negative(workspaces[i].requests_used) || negative(workspaces[i].spend_cents) {
        Some(NEGATIVE_VALUE@)
    } else {
        None
    }
}

/// What is wrong with the first faulty workspace from `i` on.
pub open spec fn workspaces_fault(workspaces: Seq<WorkspaceModel>, i: int) -> Option<Seq<char>>
    decreases workspaces.len() - i,
{
    if i >= workspaces.len() {
        None
    } else {
        match workspace_fault(workspaces, i) {
            Some(fault) => Some(fault),
            None => workspaces_fault(workspaces, i + 1),
        }
    }
}

/// What is wrong with normalized usage, if anything.
pub open spec fn usage_fault(usage: UsageModel) -> Option<Seq<char>> {
    if usage.version != WARP_NORMALIZED_USAGE_VERSION || usage.synced_at_ms <= 0 {
        Some(INVALID_HEADER@)
    } else if !opaque_hmac(usage.account_scope) {
        Some(INVALID_ACCOUNT@)
    } else if negative(usage.usage.requests_used) || negative(usage.usage.request_limit)
        || negative(usage.usage.spend_cents) || negative(usage.usage.credits_purchased_cents) {
        Some(NEGATIVE_VALUE@)
    } else if usage.usage.next_refresh_at_ms matches Some(at) && at <= 0 {
        Some(INVALID_REFRESH_TIME@)
    } else {
        workspaces_fault(usage.workspaces, 0)
    }
}

pub open spec fn opt_message(outcome: Result<(), &'static str>) -> Option<Seq<char>> {
    match outcome {
        Ok(_) => None,
        Err(message) => Some(message@),
    }
}

fn is_scope_seen(workspaces: &Vec<WarpWorkspaceUsage>, i: usize) -> (r: bool)
    requires
        i < workspaces@.len(),
    ensures
        r == scope_seen(workspace_models(workspaces@), i as int),
{
    let ghost models = workspace_models(workspaces@);
    let mut j: usize = 0;
    while j < i
        invariant
            j <= i < workspaces@.len(),
            models == workspace_models(workspaces@),
            forall|k: int| 0 <= k < j ==> (#[trigger] models[k]).scope != models[i as int].scope,
        decreases i - j,
    {
        assert(models[j as int] == workspaces@[j as int]@);
        assert(models[i as int] == workspaces@[i as int]@);
        if same_text(&workspaces[j].workspace_scope, &workspaces[i].workspace_scope) {
            return true;
        }
        j += 1;
    }
    false
}

pub fn validate_normalized_usage(usage: &WarpNormalizedUsage) -> (r: Result<(), &'static str>)
    ensures
        opt_message(r) == usage_fault(usage@),
{
    if usage.version != WARP_NORMALIZED_USAGE_VERSION || usage.synced_at_ms <= 0 {
        return Err(INVALID_HEADER);
    }
    if !is_opaque_hmac(&usage.account_scope) {
        return Err(INVALID_ACCOUNT);
    }
    if is_negative(usage.usage.requests_used) || is_negative(usage.usage.request_limit)
        || is_negative(usage.usage.spend_cents) || is_negative(
        usage.usage.credits_purchased_cents,
    ) {
        return Err(NEGATIVE_VALUE);
    }
    if let Some(at) = usage.usage.next_refresh_at_ms {
        if at <= 0 {
            return Err(INVALID_REFRESH_TIME);
        }
    }
    let ghost models = workspace_models(usage.workspaces@);
    let mut i: usize = 0;
    while i < usage.workspaces.len()
        invariant
            i <= usage.workspaces@.len(),
            models == workspace_models(usage.workspaces@),
            workspaces_fault(models, i as int) == workspaces_fault(models, 0),
            usage_fault(usage@) == workspaces_fault(models, 0),
        decreases usage.workspaces@.len() - i,
    {
        assert(models[i as int] == usage.workspaces@[i as int]@);
        if !is_opaque_hmac(&usage.workspaces[i].workspace_scope) || is_scope_seen(
            &usage.workspaces,
            i,
        ) {
            return Err(INVALID_WORKSPACE);
        }
        if is_negative(usage.workspaces[i].requests_used) || is_negative(
            usage.workspaces[i].spend_cents,
        ) {
            return Err(NEGATIVE_VALUE);
        }
        i += 1;
    }
    Ok(())
}

/// A point-in-time Warp source: validated usage, with the file that it came from.
pub struct WarpUsageSource {
    path: SourcePath,
    usage: WarpNormalizedUsage,
    fingerprint: [u8; 32],
    observed_mtime_ms: u64,
}

#[verifier::ext_equal]
pub ghost struct SourceModel {
    pub path: Seq<u8>,
    pub usage: UsageModel,
    pub fingerprint: Seq<u8>,
    pub observed_mtime_ms: u64,
}

impl View for WarpUsageSource {
    type V = SourceModel;

    closed spec fn view(&self) -> SourceModel {
        SourceModel {
            path: self.path@,
            usage: self.usage@,
            fingerprint: self.fingerprint@,
            observed_mtime_ms: self.observed_mtime_ms,
        }
    }
}

impl SourceModel {
    /// Valid usage from a file that has a name.
    pub open spec fn well_formed(self) -> bool {
        usage_fault(self.usage) is None && self.path.len() > 0
    }
}

impl WarpUsageSource {
    /// Every source is valid.
    #[verifier::type_invariant]
    pub closed spec fn sound(self) -> bool {
        self@.well_formed()
    }

    /// A source, where the usage is valid and the path is not empty.
    pub fn new(
        path: SourcePath,
        usage: WarpNormalizedUsage,
        fingerprint: [u8; 32],
        observed_mtime_ms: u64,
    ) -> (r: Result<WarpUsageSource, &'static str>)
        ensures
            match usage_fault(usage@) {
                Some(fault) => r matches Err(message) && message@ == fault,
                None => if path@.len() == 0 {
                    r matches Err(message) && message@ == EMPTY_PATH@
                } else {
                    r matches Ok(source) && source@ == (SourceModel {
                        path: path@,
                        usage: usage@,
                        fingerprint: fingerprint@,
                        observed_mtime_ms,
                    }) && source@.well_formed()
                },
            },
    {
        match validate_normalized_usage(&usage) {
            Ok(_) => {},
            Err(message) => return Err(message),
        }
        if path.bytes.len() == 0 {
            return Err(EMPTY_PATH);
        }
        Ok(WarpUsageSource { path, usage, fingerprint, observed_mtime_ms })
    }

    pub fn path(&self) -> (r: &SourcePath)
        ensures
            r@ == self@.path,
    {
        &self.path
    }

    pub fn usage(&self) -> (r: &WarpNormalizedUsage)
        ensures
            r@ == self@.usage,
            self@.well_formed(),
    {
        proof {
            use_type_invariant(self);
        }
        &self.usage
    }

    pub fn fingerprint(&self) -> (r: [u8; 32])
        ensures
            r@ == self@.fingerprint,
    {
        self.fingerprint
    }

    pub fn observed_mtime_ms(&self) -> (r: u64)
        ensures
            r == self@.observed_mtime_ms,
    {
        self.observed_mtime_ms
    }

    pub fn copy(&self) -> (r: WarpUsageSource)
        ensures
            r@ == self@,
    {
        proof {
            use_type_invariant(self);
        }
        WarpUsageSource {
            path: self.path.copy(),
            usage: self.usage.copy(),
            fingerprint: self.fingerprint,
            observed_mtime_ms: self.observed_mtime_ms,
        }
    }
}

/// One row of a usage report. The cost is in cents and is what the provider itself charged.
pub struct UnifiedMessage {
    pub client: String,
    pub model_id: String,
    pub provider_id: String,
    pub session_id: String,
    pub timestamp_ms: i64,
    pub message_count: i32,
    pub cost_cents: i64,
    pub workspace_key: Option<String>,
    pub workspace_label: Option<String>,
    pub provider_reported_cost: bool,
}

#[verifier::ext_equal]
pub ghost struct MessageModel {
    pub session_id: Seq<char>,
    pub timestamp_ms: i64,
    pub message_count: int,
    pub cost_cents: int,
    pub workspace_key: Option<Seq<char>>,
}

impl UnifiedMessage {
    /// A Warp row with these figures.
    pub open spec fn shows(self, row: MessageModel) -> bool {
        &&& self.client@ == "warp"@
        &&& self.model_id@ == "aggregate-requests"@
        &&& self.provider_id@ == "warp"@
        &&& self.session_id@ == row.session_id
        &&& self.timestamp_ms == row.timestamp_ms
        &&& self.message_count == row.message_count
        &&& self.cost_cents == row.cost_cents
        &&& text::opt_text(self.workspace_key) == row.workspace_key
        &&& self.workspace_label is None
        &&& self.provider_reported_cost
    }
}

/// A counter where it is known and not negative, else zero.
pub open spec fn counted(value: Option<i64>) -> int {
    match value {
        Some(n) => if n > 0 {
            n as int
        } else {
            0
        },
        None => 0,
    }
}

/// A counter, held to what a row can count.
pub open spec fn row_count(value: Option<i64>) -> int {
    if counted(value) > i32::MAX {
        i32::MAX as int
    } else {
        counted(value)
    }
}

/// The row of an account or a workspace; none where nothing was used.
pub open spec fn row_of(
    session_id: Seq<char>,
    workspace_key: Option<Seq<char>>,
    requests_used: Option<i64>,
    spend_cents: Option<i64>,
    timestamp_ms: i64,
) -> Seq<MessageModel> {
    if row_count(requests_used) == 0 && counted(spend_cents) == 0 {
        Seq::empty()
    } else {
        seq![
            MessageModel {
                session_id,
                timestamp_ms,
                message_count: row_count(requests_used),
                cost_cents: counted(spend_cents),
                workspace_key,
            },
        ]
    }
}

pub open spec fn workspace_row(workspace: WorkspaceModel, timestamp_ms: i64) -> Seq<MessageModel> {
    row_of(
        "warp-aggregate-workspace-"@ + workspace.scope,
        Some(workspace.scope),
        workspace.requests_used,
        workspace.spend_cents,
        timestamp_ms,
    )
}

/// The rows of the workspaces that used something, in order.
pub open spec fn workspace_rows(workspaces: Seq<WorkspaceModel>, timestamp_ms: i64) -> Seq<
    MessageModel,
>
    decreases workspaces.len(),
{
    if workspaces.len() == 0 {
        Seq::empty()
    } else {
        workspace_rows(workspaces.drop_last(), timestamp_ms) + workspace_row(
            workspaces.last(),
            timestamp_ms,
        )
    }
}

pub open spec fn account_row(usage: UsageModel) -> Seq<MessageModel> {
    row_of(
        "warp-aggregate-account-"@ + usage.account_scope,
        None,
        usage.usage.requests_used,
        usage.usage.spend_cents,
        usage.synced_at_ms,
    )
}

/// The rows of a source: those of its workspaces where there are any, else that of the account.
/// Invalid usage has none.
pub open spec fn source_rows(usage: UsageModel) -> Seq<MessageModel> {
    let rows = workspace_rows(usage.workspaces, usage.synced_at_ms);
    if usage_fault(usage) is Some {
        Seq::empty()
    } else if rows.len() > 0 {
        rows
    } else {
        account_row(usage)
    }
}

/// Whether messages are the given rows, one for one.
pub open spec fn show_rows(messages: Seq<UnifiedMessage>, rows: Seq<MessageModel>) -> bool {
    &&& messages.len() == rows.len()
    &&& forall|i: int| 0 <= i < rows.len() ==> (#[trigger] messages[i]).shows(rows[i])
}

fn non_negative(value: Option<i64>) -> (r: i64)
    ensures
        r == counted(value),
{
    match value {
        Some(n) => if n > 0 {
            n
        } else {
            0
        },
        None => 0,
    }
}

fn to_message(
    session_id: String,
    workspace_key: Option<String>,
    requests_used: Option<i64>,
    spend_cents: Option<i64>,
    timestamp_ms: i64,
) -> (r: Option<UnifiedMessage>)
    ensures
        ({
            let rows = row_of(
                session_id@,
                text::opt_text(workspace_key),
                requests_used,
                spend_cents,
                timestamp_ms,
            );
            match r {
                Some(message) => rows.len() == 1 && message.shows(rows[0]),
                None => rows.len() == 0,
            }
        }),
{
    let total: i64 = non_negative(requests_used);
    let message_count: i32 = if total > 0x7fff_ffff {
        i32::MAX
    } else {
        total as i32
    };
    let cost_cents: i64 = non_negative(spend_cents);
    if message_count == 0 && cost_cents == 0 {
        return None;
    }
    Some(
        UnifiedMessage {
            client: "warp".to_owned(),
            model_id: "aggregate-requests".to_owned(),
            provider_id: "warp".to_owned(),
            session_id,
            timestamp_ms,
            message_count,
            cost_cents,
            workspace_key,
            workspace_label: None,
            provider_reported_cost: true,
        },
    )
}

/// The report rows of a source.
pub fn parse_warp_source(source: &WarpUsageSource) -> (r: Vec<UnifiedMessage>)
    ensures
        show_rows(r@, source_rows(source@.usage)),
{
    let usage = source.usage();
    let mut out: Vec<UnifiedMessage> = Vec::new();
    if validate_normalized_usage(usage).is_err() {
        return out;
    }
    let ghost models = workspace_models(usage.workspaces@);
    let ghost at = usage.synced_at_ms;
    let mut i: usize = 0;
    assert(models.take(0) =~= Seq::empty());
    while i < usage.workspaces.len()
        invariant
            i <= usage.workspaces@.len(),
            models == workspace_models(usage.workspaces@),
            at == usage.synced_at_ms,
            show_rows(out@, workspace_rows(models.take(i as int), at)),
        decreases usage.workspaces@.len() - i,
    {
        let ghost before = workspace_rows(models.take(i as int), at);
        proof {
            assert(models.take(i + 1).drop_last() =~= models.take(i as int));
            assert(models.take(i + 1).last() == usage.workspaces@[i as int]@);
        }
        let scope = usage.workspaces[i].workspace_scope.clone();
        let message = to_message(
            joined("warp-aggregate-workspace-", &scope),
            Some(scope),
            usage.workspaces[i].requests_used,
            usage.workspaces[i].spend_cents,
            usage.synced_at_ms,
        );
        match message {
            Some(message) => {
                out.push(message);
            },
            None => {
                assert(workspace_rows(models.take(i + 1), at) =~= before);
            },
        }
        i += 1;
    }
    assert(models.take(i as int) =~= models);
    if out.len() > 0 {
        return out;
    }
    let message = to_message(
        joined("warp-aggregate-account-", &usage.account_scope),
        None,
        usage.usage.requests_used,
        usage.usage.spend_cents,
        usage.synced_at_ms,
    );
    match message {
        Some(message) => out.push(message),
        None => {},
    }
    out
}

/// In valid usage every identity is opaque, no workspace stands twice, and no counter is below
/// zero.
pub proof fn valid_usage_is_opaque_and_distinct(usage: UsageModel, i: int, j: int)
    requires
        usage_fault(usage) is None,
        0 <= j < i < usage.workspaces.len(),
    ensures
        opaque_hmac(usage.account_scope),
        opaque_hmac(usage.workspaces[i].scope),
        usage.workspaces[j].scope != usage.workspaces[i].scope,
        counted(usage.workspaces[i].requests_used) == (match usage.workspaces[i].requests_used {
            Some(n) => n as int,
            None => 0,
        }),
        counted(usage.usage.spend_cents) == (match usage.usage.spend_cents {
            Some(n) => n as int,
            None => 0,
        }),
{
    lemma_no_fault_at(usage.workspaces, 0, i);
}

proof fn lemma_no_fault_at(workspaces: Seq<WorkspaceModel>, from: int, i: int)
    requires
        0 <= from <= i < workspaces.len(),
        workspaces_fault(workspaces, from) is None,
    ensures
        workspace_fault(workspaces, i) is None,
    decreases i - from,
{
    if from < i {
        lemma_no_fault_at(workspaces, from + 1, i);
    }
}

/// A report that breaks usage down by workspace never names the account.
pub proof fn rows_name_workspaces_or_the_account(usage: UsageModel, i: int)
    requires
        0 <= i < source_rows(usage).len(),
    ensures
        source_rows(usage)[i].workspace_key is Some ==> source_rows(usage)[i].session_id
            == "warp-aggregate-workspace-"@ + source_rows(usage)[i].workspace_key->Some_0,
        source_rows(usage)[i].workspace_key is None ==> source_rows(usage).len() == 1
            && source_rows(usage)[i].session_id == "warp-aggregate-account-"@
            + usage.account_scope,
{
    let rows = workspace_rows(usage.workspaces, usage.synced_at_ms);
    if usage_fault(usage) is None && rows.len() > 0 {
        lemma_workspace_rows_named(usage.workspaces, usage.synced_at_ms, i);
    }
}

proof fn lemma_workspace_rows_named(workspaces: Seq<WorkspaceModel>, timestamp_ms: i64, i: int)
    requires
        0 <= i < workspace_rows(workspaces, timestamp_ms).len(),
    ensures
        workspace_rows(workspaces, timestamp_ms)[i].workspace_key is Some,
        workspace_rows(workspaces, timestamp_ms)[i].session_id == "warp-aggregate-workspace-"@
            + workspace_rows(workspaces, timestamp_ms)[i].workspace_key->Some_0,
    decreases workspaces.len(),
{
    let earlier = workspace_rows(workspaces.drop_last(), timestamp_ms);
    if i < earlier.len() {
        lemma_workspace_rows_named(workspaces.drop_last(), timestamp_ms, i);
    }
}

/// Whether a counter is above zero.
pub open spec fn positive(value: Option<i64>) -> bool {
    value matches Some(n) && n > 0
}

/// Whether a workspace used or spent anything.
pub open spec fn used_something(workspace: WorkspaceModel) -> bool {
    positive(workspace.requests_used) || positive(workspace.spend_cents)
}

/// How many workspaces used something.
pub open spec fn users(workspaces: Seq<WorkspaceModel>) -> nat
    decreases workspaces.len(),
{
    if workspaces.len() == 0 {
        0
    } else {
        users(workspaces.drop_last()) + (if used_something(workspaces.last()) {
            1nat
        } else {
            0
        })
    }
}

/// What all workspaces spent together; one without a figure spent nothing.
pub open spec fn total_spend(workspaces: Seq<WorkspaceModel>) -> int
    decreases workspaces.len(),
{
    if workspaces.len() == 0 {
        0
    } else {
        total_spend(workspaces.drop_last()) + (match workspaces.last().spend_cents {
            Some(n) => n as int,
            None => 0,
        })
    }
}

/// What all rows cost together.
pub open spec fn total_cost(messages: Seq<UnifiedMessage>) -> int
    decreases messages.len(),
{
    if messages.len() == 0 {
        0
    } else {
        total_cost(messages.drop_last()) + messages.last().cost_cents
    }
}

/// Whether a row of a report shows these figures: the count as far as a row can count, the cost in
/// full, none of them below zero.
pub open spec fn row_shows(
    message: UnifiedMessage,
    requests_used: Option<i64>,
    spend_cents: Option<i64>,
    synced_at_ms: i64,
) -> bool {
    &&& message.client@ == "warp"@
    &&& message.model_id@ == "aggregate-requests"@
    &&& message.provider_id@ == "warp"@
    &&& message.timestamp_ms == synced_at_ms
    &&& message.workspace_label is None
    &&& message.provider_reported_cost
    &&& match requests_used {
        Some(n) => if n > 0x7fff_ffff {
            message.message_count == 0x7fff_ffff
        } else if n > 0 {
            message.message_count == n
        } else {
            message.message_count == 0
        },
        None => message.message_count == 0,
    }
    &&& match spend_cents {
        Some(n) => if n > 0 {
            message.cost_cents == n
        } else {
            message.cost_cents == 0
        },
        None => message.cost_cents == 0,
    }
}

/// Every workspace that used something has its own row, in the order of the workspaces: its place
/// is the number of such workspaces before it. There is no other row, and the rows cost together
/// what the workspaces spent.
pub proof fn every_used_workspace_has_its_row(
    usage: UsageModel,
    messages: Seq<UnifiedMessage>,
    i: int,
)
    requires
        usage_fault(usage) is None,
        show_rows(messages, source_rows(usage)),
        0 <= i < usage.workspaces.len(),
        used_something(usage.workspaces[i]),
    ensures
        messages.len() == users(usage.workspaces),
        total_cost(messages) == total_spend(usage.workspaces),
        ({
            let at = users(usage.workspaces.take(i)) as int;
            &&& 0 <= at < messages.len()
            &&& row_shows(
                messages[at],
                usage.workspaces[i].requests_used,
                usage.workspaces[i].spend_cents,
                usage.synced_at_ms,
            )
            &&& messages[at].workspace_key matches Some(key) && key@ == usage.workspaces[i].scope
            &&& messages[at].session_id@ == "warp-aggregate-workspace-"@
                + usage.workspaces[i].scope
        }),
{
    let all = usage.workspaces;
    let rows = workspace_rows(all, usage.synced_at_ms);
    lemma_rows_of_workspaces(all, usage.synced_at_ms, i);
    lemma_rows_are_counted(all, usage.synced_at_ms);
    assert(messages.len() == rows.len());
    lemma_cost_of_rows(messages, rows);
    lemma_valid_spend(usage, all.len() as int);
    assert(all.take(all.len() as int) =~= all);
    lemma_rows_cost(all, usage.synced_at_ms);
    let at = users(all.take(i)) as int;
    assert(messages[at].shows(rows[at]));
}

/// Where no workspace used anything, the account has the only row, and none where it used nothing
/// either.
pub proof fn unused_workspaces_leave_the_account(usage: UsageModel, messages: Seq<UnifiedMessage>)
    requires
        usage_fault(usage) is None,
        show_rows(messages, source_rows(usage)),
        forall|i: int|
            0 <= i < usage.workspaces.len() ==> !used_something(#[trigger] usage.workspaces[i]),
    ensures
        positive(usage.usage.requests_used) || positive(usage.usage.spend_cents) ==> {
            &&& messages.len() == 1
            &&& row_shows(
                messages[0],
                usage.usage.requests_used,
                usage.usage.spend_cents,
                usage.synced_at_ms,
            )
            &&& messages[0].workspace_key is None
            &&& messages[0].session_id@ == "warp-aggregate-account-"@ + usage.account_scope
        },
        !positive(usage.usage.requests_used) && !positive(usage.usage.spend_cents)
            ==> messages.len() == 0,
{
    lemma_rows_are_counted(usage.workspaces, usage.synced_at_ms);
    lemma_no_users(usage.workspaces);
    if messages.len() > 0 {
        assert(messages[0].shows(account_row(usage)[0]));
    }
}

/// Usage that is not valid has no rows.
pub proof fn invalid_usage_has_no_rows(usage: UsageModel, messages: Seq<UnifiedMessage>)
    requires
        usage_fault(usage) is Some,
        show_rows(messages, source_rows(usage)),
    ensures
        messages.len() == 0,
{
}

proof fn lemma_rows_are_counted(workspaces: Seq<WorkspaceModel>, timestamp_ms: i64)
    ensures
        workspace_rows(workspaces, timestamp_ms).len() == users(workspaces),
    decreases workspaces.len(),
{
    if workspaces.len() > 0 {
        lemma_rows_are_counted(workspaces.drop_last(), timestamp_ms);
    }
}

proof fn lemma_no_users(workspaces: Seq<WorkspaceModel>)
    requires
        forall|i: int| 0 <= i < workspaces.len() ==> !used_something(#[trigger] workspaces[i]),
    ensures
        users(workspaces) == 0,
    decreases workspaces.len(),
{
    if workspaces.len() > 0 {
        assert(!used_something(workspaces[workspaces.len() - 1]));
        let rest = workspaces.drop_last();
        assert forall|i: int| 0 <= i < rest.len() implies !used_something(#[trigger] rest[i]) by {
            assert(rest[i] == workspaces[i]);
        }
        lemma_no_users(rest);
    }
}

proof fn lemma_rows_of_workspaces(workspaces: Seq<WorkspaceModel>, timestamp_ms: i64, i: int)
    requires
        0 <= i < workspaces.len(),
        used_something(workspaces[i]),
    ensures
        users(workspaces.take(i)) < workspace_rows(workspaces, timestamp_ms).len(),
        workspace_rows(workspaces, timestamp_ms)[users(workspaces.take(i)) as int]
            == workspace_row(workspaces[i], timestamp_ms)[0],
        workspace_row(workspaces[i], timestamp_ms).len() == 1,
    decreases workspaces.len(),
{
    let rest = workspaces.drop_last();
    lemma_rows_are_counted(rest, timestamp_ms);
    if i == workspaces.len() - 1 {
        assert(workspaces.take(i) =~= rest);
    } else {
        assert(workspaces.take(i) =~= rest.take(i));
        assert(rest[i] == workspaces[i]);
        lemma_rows_of_workspaces(rest, timestamp_ms, i);
    }
}

spec fn rows_cost(rows: Seq<MessageModel>) -> int
    decreases rows.len(),
{
    if rows.len() == 0 {
        0
    } else {
        rows_cost(rows.drop_last()) + rows.last().cost_cents
    }
}

proof fn lemma_cost_of_rows(messages: Seq<UnifiedMessage>, rows: Seq<MessageModel>)
    requires
        show_rows(messages, rows),
    ensures
        total_cost(messages) == rows_cost(rows),
    decreases rows.len(),
{
    if rows.len() > 0 {
        assert(messages[rows.len() - 1].shows(rows[rows.len() - 1]));
        let fewer = messages.drop_last();
        assert forall|i: int| 0 <= i < rows.len() - 1 implies (#[trigger] fewer[i]).shows(
            rows.drop_last()[i],
        ) by {
            assert(messages[i].shows(rows[i]));
        }
        lemma_cost_of_rows(fewer, rows.drop_last());
    }
}

spec fn counted_spend(workspaces: Seq<WorkspaceModel>) -> int
    decreases workspaces.len(),
{
    if workspaces.len() == 0 {
        0
    } else {
        counted_spend(workspaces.drop_last()) + counted(workspaces.last().spend_cents)
    }
}

proof fn lemma_rows_cost(workspaces: Seq<WorkspaceModel>, timestamp_ms: i64)
    ensures
        rows_cost(workspace_rows(workspaces, timestamp_ms)) == counted_spend(workspaces),
    decreases workspaces.len(),
{
    if workspaces.len() > 0 {
        let rest = workspaces.drop_last();
        lemma_rows_cost(rest, timestamp_ms);
        let earlier = workspace_rows(rest, timestamp_ms);
        let last = workspace_row(workspaces.last(), timestamp_ms);
        if last.len() > 0 {
            assert((earlier + last).drop_last() =~= earlier);
        } else {
            assert(earlier + last =~= earlier);
        }
    }
}

proof fn lemma_valid_spend(usage: UsageModel, n: int)
    requires
        usage_fault(usage) is None,
        0 <= n <= usage.workspaces.len(),
    ensures
        counted_spend(usage.workspaces.take(n)) == total_spend(usage.workspaces.take(n)),
    decreases n,
{
    if n > 0 {
        lemma_valid_spend(usage, n - 1);
        lemma_no_fault_at(usage.workspaces, 0, n - 1);
        assert(usage.workspaces.take(n).drop_last() =~= usage.workspaces.take(n - 1));
        assert(usage.workspaces.take(n).last() == usage.workspaces[n - 1]);
    }
}

/// Forty-three letters, digits, hyphens or underscores.
pub open spec fn reads_as_digest(s: Seq<char>) -> bool {
    s.len() == 43 && forall|i: int|
        0 <= i < s.len() ==> ('0' <= #[trigger] s[i] && s[i] <= '9') || ('a' <= s[i] && s[i] <= 'z')
            || ('A' <= s[i] && s[i] <= 'Z') || s[i] == '-' || s[i] == '_'
}

/// Whether a counter is unknown or at least zero.
pub open spec fn at_least_zero(value: Option<i64>) -> bool {
    value matches Some(n) ==> n >= 0
}

/// Usage is valid exactly where it is of the first version and synced after the epoch, every
/// identity is a digest, no workspace stands twice, no counter is below zero, and the time of the
/// next refresh, where it is known, lies after the epoch.
pub proof fn valid_usage_is_whole(usage: UsageModel)
    ensures
        usage_fault(usage) is None <==> {
            &&& usage.version == 1
            &&& usage.synced_at_ms > 0
            &&& reads_as_digest(usage.account_scope)
            &&& at_least_zero(usage.usage.requests_used)
            &&& at_least_zero(usage.usage.request_limit)
            &&& at_least_zero(usage.usage.spend_cents)
            &&& at_least_zero(usage.usage.credits_purchased_cents)
            &&& usage.usage.next_refresh_at_ms matches Some(at) ==> at > 0
            &&& forall|i: int|
                0 <= i < usage.workspaces.len() ==> reads_as_digest(
                    (#[trigger] usage.workspaces[i]).scope,
                ) && at_least_zero(usage.workspaces[i].requests_used) && at_least_zero(
                    usage.workspaces[i].spend_cents,
                )
            &&& forall|i: int, j: int|
                0 <= j < i < usage.workspaces.len() ==> (#[trigger] usage.workspaces[j]).scope != (
                #[trigger] usage.workspaces[i]).scope
        },
{
    let all = usage.workspaces;
    lemma_digest(usage.account_scope);
    assert forall|i: int| 0 <= i < all.len() implies opaque_hmac((#[trigger] all[i]).scope)
        == reads_as_digest(all[i].scope) by {
        lemma_digest(all[i].scope);
    }
    if workspaces_fault(all, 0) is None {
        assert forall|i: int| 0 <= i < all.len() implies workspace_fault(all, i) is None && (
        #[trigger] all[i]) == all[i] by {
            lemma_no_fault_at(all, 0, i);
        }
        assert forall|i: int, j: int| 0 <= j < i < all.len() implies (#[trigger] all[j]).scope != (
        #[trigger] all[i]).scope by {
            assert(workspace_fault(all, i) is None);
        }
        assert forall|i: int| 0 <= i < all.len() implies at_least_zero(
            (#[trigger] all[i]).requests_used,
        ) && at_least_zero(all[i].spend_cents) && opaque_hmac(all[i].scope) by {
            assert(workspace_fault(all, i) is None);
        }
    } else {
        lemma_some_fault(all, 0);
    }
}

proof fn lemma_digest(s: Seq<char>)
    ensures
        opaque_hmac(s) == reads_as_digest(s),
{
    if s.len() == 43 {
        assert forall|i: int| 0 <= i < s.len() implies opaque_char(#[trigger] s[i]) == (('0' <= s[i]
            && s[i] <= '9') || ('a' <= s[i] && s[i] <= 'z') || ('A' <= s[i] && s[i] <= 'Z') || s[i]
            == '-' || s[i] == '_') by {}
    }
}

proof fn lemma_some_fault(workspaces: Seq<WorkspaceModel>, from: int)
    requires
        0 <= from,
        workspaces_fault(workspaces, from) is Some,
    ensures
        exists|i: int|
            from <= i < workspaces.len() && #[trigger] workspace_fault(workspaces, i) is Some,
    decreases workspaces.len() - from,
{
    if workspace_fault(workspaces, from) is None {
        lemma_some_fault(workspaces, from + 1);
    }
}

} // verus!
