//! What a usage response says about the weekly quota.

use vstd::prelude::*;
use vstd::string::*;
use crate::doubles::{self, is_percentage, EXACT_INTEGERS};
use crate::json::{self, parse_json, Json, JsonModel, JsonNumber};
use crate::numbers;
use crate::text::{self, chars_of};
use crate::timestamps::{self, instant_of_double, instant_of_text, whole_seconds_between, Instant};

verus! {

pub const WEEKLY_WINDOW_KEY: &'static str = "weekly.v1";

pub const WEEKLY_LABEL: &'static str = "Weekly";

pub const UNDECODABLE: &'static str = "Grok Bot usage response could not be decoded.";

pub const UNEXPECTED: &'static str = "Cursor returned an unexpected response.";

pub const UNAVAILABLE: &'static str = "Grok Bot usage is unavailable. Open Grok Bot, then refresh.";

pub const POOLED: &'static str = "Grok Bot uses a pooled team allowance; no individual weekly quota is available.";

pub const NO_ALLOWANCE: &'static str = "Grok Bot has no included allowance; no individual weekly quota is available.";

pub const NO_PERCENTAGE: &'static str = "Cursor omitted the Grok Bot usage percentage.";

pub const BAD_PERCENTAGE: &'static str = "Cursor returned an invalid Grok Bot usage percentage.";

pub const NO_RESET: &'static str = "Cursor omitted the Grok Bot reset time.";

pub const PAST_RESET: &'static str = "Grok Bot reported a quota reset that has already passed. Open Grok Bot, then refresh.";

/// Why an account has no scope.
#[derive(Clone, Copy, Debug, PartialEq, Eq, Structural)]
pub enum AccountScopeError {
    NoTrustedEvidence,
    Unresolved,
}

/// The person or plan behind a quota card.
pub struct AgentIdentity {
    pub email: Option<String>,
    pub plan: Option<String>,
}

/// A window length that the provider itself reported, and the second at which the window ends.
#[derive(Clone, Copy, Debug, PartialEq, Eq, Structural)]
pub struct DurationEvidence {
    pub reset_at: i64,
    pub seconds: i64,
}

/// One quota window of a card.
pub struct UsageWindow {
    pub label: String,
    /// The used percentage, as the bits of a double.
    pub used_percent: u64,
    pub resets_at: Option<Instant>,
    pub observed_at: Instant,
    pub card_id: String,
    pub window_key: Option<String>,
    pub duration: Option<DurationEvidence>,
}

pub struct GrokBotData {
    pub identity: Option<AgentIdentity>,
    pub account_scope: Result<String, AccountScopeError>,
    pub history_scope: Result<String, AccountScopeError>,
    pub cache_binding: Option<String>,
    pub windows: Vec<UsageWindow>,
}

/// What a usable response says.
#[verifier::ext_equal]
pub ghost struct Meter {
    pub plan: Option<Seq<char>>,
    pub used: u64,
    pub reset: Instant,
    pub duration: Option<Span>,
}

/// The length of a window: the second that it ends in, and the seconds that it lasts.
pub ghost struct Span {
    pub reset_at: int,
    pub seconds: int,
}

/// The first of two spellings of a field that holds a truth value.
pub open spec fn first_flag(doc: JsonModel, camel: Seq<char>, snake: Seq<char>) -> Option<bool> {
    match json::as_flag(json::get(doc, camel)) {
        Some(b) => Some(b),
        None => json::as_flag(json::get(doc, snake)),
    }
}

/// The first of two spellings of a field that holds a number.
pub open spec fn first_number(doc: JsonModel, camel: Seq<char>, snake: Seq<char>) -> Option<u64> {
    match json::as_double(json::get(doc, camel)) {
        Some(bits) => Some(bits),
        None => json::as_double(json::get(doc, snake)),
    }
}

/// The moment that a field denotes: an epoch number, a numeric text or a date.
pub open spec fn moment_of(value: Option<JsonModel>) -> Option<Instant> {
    match value {
        Some(JsonModel::Number(n)) => match n.double {
            Some(bits) => timestamps::moment_at(timestamps::epoch_seconds(bits)),
            None => None,
        },
        Some(JsonModel::Text(s)) => timestamps::text_instant(s),
        _ => None,
    }
}

/// The moment that a whole number denotes.
pub open spec fn whole_moment(n: nat) -> Option<Instant> {
    timestamps::moment_at(Some(timestamps::whole_epoch_seconds(n)))
}

/// A whole number denotes the moment of its seconds, or of its milliseconds where it is large.
pub proof fn whole_numbers_denote_moments(number: JsonNumber, n: u64)
    requires
        number.unsigned == Some(n),
        n < EXACT_INTEGERS,
        number.agrees(),
    ensures
        moment_of(Some(JsonModel::Number(number))) == whole_moment(n as nat),
{
    timestamps::whole_doubles_denote_their_seconds(number.double->Some_0, n as nat);
}

/// Nothing but a number or a text denotes a moment, and a blank text denotes none.
pub proof fn other_values_denote_no_moment(value: JsonModel)
    requires
        !(value is Number),
        value matches JsonModel::Text(s) ==> text::trimmed(s).len() == 0,
    ensures
        moment_of(Some(value)) is None,
{
}

/// The first of two spellings of a field that denotes a moment.
pub open spec fn first_moment(doc: JsonModel, camel: Seq<char>, snake: Seq<char>) -> Option<
    Instant,
> {
    match moment_of(json::get(doc, camel)) {
        Some(moment) => Some(moment),
        None => moment_of(json::get(doc, snake)),
    }
}

/// The text of a field, unless it is empty.
pub open spec fn filled_text(doc: JsonModel, key: Seq<char>) -> Option<Seq<char>> {
    match json::as_text(json::get(doc, key)) {
        Some(s) => if s.len() > 0 {
            Some(s)
        } else {
            None
        },
        None => None,
    }
}

/// The first of two spellings of a field that holds a text which is not empty.
pub open spec fn first_filled(doc: JsonModel, camel: Seq<char>, snake: Seq<char>) -> Option<
    Seq<char>,
> {
    match filled_text(doc, camel) {
        Some(s) => Some(s),
        None => filled_text(doc, snake),
    }
}

/// The length of the window, where it starts before it ends.
pub open spec fn window_duration(start: Option<Instant>, reset: Instant) -> Option<Span> {
    match start {
        Some(begin) => if begin.precedes(reset) {
            Some(
                Span {
                    reset_at: reset.secs as int,
                    seconds: timestamps::seconds_between(begin, reset),
                },
            )
        } else {
            None
        },
        None => None,
    }
}

/// What a response document says at the moment `now`, or why it says nothing.
pub open spec fn meter(doc: JsonModel, now: Instant) -> Result<Meter, Seq<char>> {
    let used = first_number(doc, "usagePercent"@, "usage_percent"@);
    let reset = first_moment(doc, "nextResetTimestampUtc"@, "next_reset_timestamp_utc"@);
    let start = first_moment(doc, "currentPeriodStart"@, "current_period_start"@);
    if !(doc is Object) {
        Err(UNEXPECTED@)
    } else if filled_text(doc, "error"@) is Some {
        Err(UNAVAILABLE@)
    } else if first_flag(
        doc,
        "usesPooledEnterpriseAllowance"@,
        "uses_pooled_enterprise_allowance"@,
    ) == Some(true) {
        Err(POOLED@)
    } else if first_flag(doc, "hasNonZeroIncludedLimit"@, "has_non_zero_included_limit"@) == Some(
        false,
    ) {
        Err(NO_ALLOWANCE@)
    } else if used is None {
        Err(NO_PERCENTAGE@)
    } else if !doubles::percentage(used->Some_0) {
        Err(BAD_PERCENTAGE@)
    } else if reset is None {
        Err(NO_RESET@)
    } else if !now.precedes(reset->Some_0) {
        Err(PAST_RESET@)
    } else {
        Ok(
            Meter {
                plan: first_filled(doc, "grokPlanLabel"@, "grok_plan_label"@),
                used: used->Some_0,
                reset: reset->Some_0,
                duration: window_duration(start, reset->Some_0),
            },
        )
    }
}

/// The meter that a response text holds.
pub open spec fn text_meter(document: Option<JsonModel>, now: Instant) -> Result<Meter, Seq<char>> {
    match document {
        Some(doc) => meter(doc, now),
        None => Err(UNDECODABLE@),
    }
}

impl GrokBotData {
    /// One weekly window with the meter's figures, and no account evidence yet.
    pub open spec fn shows(self, meter: Meter, now: Instant) -> bool {
        &&& self.account_scope == Err::<String, AccountScopeError>(
            AccountScopeError::NoTrustedEvidence,
        )
        &&& self.history_scope == Err::<String, AccountScopeError>(
            AccountScopeError::NoTrustedEvidence,
        )
        &&& self.cache_binding is None
        &&& self.identity_shows(meter)
        &&& self.windows@.len() == 1
        &&& self.windows@[0].shows(meter, now)
    }

    /// The plan that the meter names, and nothing else.
    pub open spec fn identity_shows(self, meter: Meter) -> bool {
        &&& self.identity is Some <==> meter.plan is Some
        &&& self.identity matches Some(identity) ==> identity.email is None && text::opt_text(
            identity.plan,
        ) == meter.plan
    }
}

impl UsageWindow {
    pub open spec fn shows(self, meter: Meter, now: Instant) -> bool {
        &&& self.label@ == WEEKLY_LABEL@
        &&& self.used_percent == meter.used
        &&& self.resets_at == Some(meter.reset)
        &&& self.observed_at == now
        &&& self.card_id@ == WEEKLY_WINDOW_KEY@
        &&& text::opt_text(self.window_key) == Some(WEEKLY_WINDOW_KEY@)
        &&& match (self.duration, meter.duration) {
            (Some(evidence), Some(span)) => evidence.reset_at == span.reset_at && evidence.seconds
                == span.seconds,
            (None, None) => true,
            _ => false,
        }
    }
}

/// The outcome of mapping, against what it should be.
pub open spec fn maps_to(
    outcome: Result<GrokBotData, String>,
    expected: Result<Meter, Seq<char>>,
    now: Instant,
) -> bool {
    match expected {
        Ok(meter) => outcome matches Ok(data) && data.shows(meter, now),
        Err(message) => outcome matches Err(said) && said@ == message,
    }
}

fn first_bool(doc: &Json, camel: &str, snake: &str) -> (r: Option<bool>)
    ensures
        r == first_flag(doc@, camel@, snake@),
{
    let first = match doc.get(camel) {
        Some(value) => value.flag(),
        None => None,
    };
    match first {
        Some(b) => Some(b),
        None => match doc.get(snake) {
            Some(value) => value.flag(),
            None => None,
        },
    }
}

fn first_double(doc: &Json, camel: &str, snake: &str) -> (r: Option<u64>)
    ensures
        r == first_number(doc@, camel@, snake@),
{
    let first: Option<u64> = match doc.get(camel) {
        Some(value) => value.double(),
        None => None,
    };
    match first {
        Some(bits) => Some(bits),
        None => match doc.get(snake) {
            Some(value) => value.double(),
            None => None,
        },
    }
}

/// The moment that a JSON value denotes.
pub fn parse_timestamp(value: &Json) -> (r: Option<Instant>)
    ensures
        r == moment_of(Some(value@)),
        r matches Some(moment) ==> moment.valid(),
        value@ matches JsonModel::Text(s) ==> timestamps::whole_digits(text::trimmed(s)) ==> r
            == whole_moment(numbers::digits_value(text::trimmed(s))),
        value@ matches JsonModel::Text(s) ==> text::trimmed(s).len() > 0
            && timestamps::rfc3339_instant(text::trimmed(s)) is Some ==> r
            == timestamps::rfc3339_instant(text::trimmed(s)),
{
    match value {
        Json::Number(n) => match n.double {
            Some(bits) => instant_of_double(bits),
            None => None,
        },
        Json::Text(s) => instant_of_text(s),
        _ => None,
    }
}

fn first_timestamp(doc: &Json, camel: &str, snake: &str) -> (r: Option<Instant>)
    ensures
        r == first_moment(doc@, camel@, snake@),
        r matches Some(moment) ==> moment.valid(),
{
    let first = match doc.get(camel) {
        Some(value) => parse_timestamp(value),
        None => None,
    };
    match first {
        Some(moment) => Some(moment),
        None => match doc.get(snake) {
            Some(value) => parse_timestamp(value),
            None => None,
        },
    }
}

fn filled(doc: &Json, key: &str) -> (r: Option<String>)
    ensures
        text::opt_text(r) == filled_text(doc@, key@),
{
    match doc.get_text(key) {
        Some(s) => if chars_of(s).len() > 0 {
            Some(s.clone())
        } else {
            None
        },
        None => None,
    }
}

fn first_text(doc: &Json, camel: &str, snake: &str) -> (r: Option<String>)
    ensures
        text::opt_text(r) == first_filled(doc@, camel@, snake@),
{
    match filled(doc, camel) {
        Some(s) => Some(s),
        None => filled(doc, snake),
    }
}

/// Maps a usage document to the weekly quota card at the moment `now`.
pub fn map_document(doc: &Json, now: Instant) -> (r: Result<GrokBotData, String>)
    ensures
        maps_to(r, meter(doc@, now), now),
        meter(doc@, now) matches Ok(shown) ==> shown.reset.valid(),
{
    if !doc.is_object() {
        return Err(UNEXPECTED.to_owned());
    }
    if filled(doc, "error").is_some() {
        return Err(UNAVAILABLE.to_owned());
    }
    if first_bool(doc, "usesPooledEnterpriseAllowance", "uses_pooled_enterprise_allowance") == Some(
        true,
    ) {
        return Err(POOLED.to_owned());
    }
    if first_bool(doc, "hasNonZeroIncludedLimit", "has_non_zero_included_limit") == Some(false) {
        return Err(NO_ALLOWANCE.to_owned());
    }
    let used: u64 = match first_double(doc, "usagePercent", "usage_percent") {
        Some(bits) => bits,
        None => return Err(NO_PERCENTAGE.to_owned()),
    };
    if !is_percentage(used) {
        return Err(BAD_PERCENTAGE.to_owned());
    }
    let reset = match first_timestamp(doc, "nextResetTimestampUtc", "next_reset_timestamp_utc") {
        Some(moment) => moment,
        None => return Err(NO_RESET.to_owned()),
    };
    if !now.is_before(reset) {
        return Err(PAST_RESET.to_owned());
    }
    let duration = match first_timestamp(doc, "currentPeriodStart", "current_period_start") {
        Some(start) => if start.is_before(reset) {
            let seconds: i64 = whole_seconds_between(start, reset);
            Some(DurationEvidence { reset_at: reset.secs, seconds })
        } else {
            None
        },
        None => None,
    };
    let identity = match first_text(doc, "grokPlanLabel", "grok_plan_label") {
        Some(plan) => Some(AgentIdentity { email: None, plan: Some(plan) }),
        None => None,
    };
    let window = UsageWindow {
        label: WEEKLY_LABEL.to_owned(),
        used_percent: used,
        resets_at: Some(reset),
        observed_at: now,
        card_id: WEEKLY_WINDOW_KEY.to_owned(),
        window_key: Some(WEEKLY_WINDOW_KEY.to_owned()),
        duration,
    };
    let mut windows: Vec<UsageWindow> = Vec::new();
    windows.push(window);
    Ok(
        GrokBotData {
            identity,
            account_scope: Err(AccountScopeError::NoTrustedEvidence),
            history_scope: Err(AccountScopeError::NoTrustedEvidence),
            cache_binding: None,
            windows,
        },
    )
}

/// Maps the text of a usage response to the weekly quota card at the moment `now`.
pub fn map_response(body: &str, now: Instant) -> (r: Result<GrokBotData, String>)
    ensures
        maps_to(r, text_meter(json::json_document(body@), now), now),
        text_meter(json::json_document(body@), now) matches Ok(shown) ==> shown.reset.valid(),
{
    match parse_json(body) {
        Some(doc) => map_document(&doc, now),
        None => Err(UNDECODABLE.to_owned()),
    }
}

/// A published card is never stale: its reset lies after the moment it was read, and its
/// percentage between zero and one hundred.
pub proof fn published_meters_are_current(doc: JsonModel, now: Instant)
    requires
        meter(doc, now) is Ok,
    ensures
        now.precedes(meter(doc, now)->Ok_0.reset),
        doubles::percentage(meter(doc, now)->Ok_0.used),
{
}

/// Only the moment decides whether an otherwise good reading is published: at or after the reset
/// the same document is refused.
pub proof fn readings_expire_at_their_reset(doc: JsonModel, now: Instant, later: Instant)
    requires
        meter(doc, now) is Ok,
    ensures
        later.precedes(meter(doc, now)->Ok_0.reset) ==> meter(doc, later) == meter(doc, now),
        !later.precedes(meter(doc, now)->Ok_0.reset) ==> meter(doc, later) == Err::<
            Meter,
            Seq<char>,
        >(PAST_RESET@),
{
}

} // verus!
