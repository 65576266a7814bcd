//! What holds of the weekly quota as a whole, in terms of what goes in and what comes out.

use vstd::prelude::*;
use vstd::string::*;
use vstd::arithmetic::div_mod::*;
use vstd::arithmetic::power2::*;
use crate::agent_grokbot::meter::{
    self, GrokBotData, BAD_PERCENTAGE, NO_ALLOWANCE, NO_PERCENTAGE, NO_RESET, PAST_RESET, POOLED,
    UNAVAILABLE, UNDECODABLE, UNEXPECTED,
};
use crate::doubles;
use crate::json::{self, JsonModel, JsonNumber};
use crate::text;
use crate::timestamps::{self, Instant};

verus! {

/// Whether a document reports an error in words.
pub open spec fn reports_error(doc: JsonModel) -> bool {
    json::get(doc, "error"@) matches Some(JsonModel::Text(s)) && s.len() > 0
}

/// Whether a document has this truth value under the first spelling of a key, or under the second
/// where there is none under the first.
pub open spec fn has_flag(doc: JsonModel, camel: Seq<char>, snake: Seq<char>, flag: bool) -> bool {
    json::get(doc, camel) == Some(JsonModel::Bool(flag)) || (!(json::get(doc, camel) matches Some(
        JsonModel::Bool(_),
    )) && json::get(doc, snake) == Some(JsonModel::Bool(flag)))
}

/// Whether a document says that the allowance is pooled.
pub open spec fn says_pooled(doc: JsonModel) -> bool {
    has_flag(doc, "usesPooledEnterpriseAllowance"@, "uses_pooled_enterprise_allowance"@, true)
}

/// Whether a document says that nothing is included.
pub open spec fn says_nothing_included(doc: JsonModel) -> bool {
    has_flag(doc, "hasNonZeroIncludedLimit"@, "has_non_zero_included_limit"@, false)
}

/// Whether a value is a number with these bits.
pub open spec fn has_bits(value: Option<JsonModel>, bits: u64) -> bool {
    value matches Some(JsonModel::Number(n)) && n.double == Some(bits)
}

/// Whether a document gives the used percentage by these bits: under the first spelling of the key,
/// or under the second where there is no number under the first.
pub open spec fn gives_percentage(doc: JsonModel, bits: u64) -> bool {
    has_bits(json::get(doc, "usagePercent"@), bits) || ((forall|other: u64|
        !#[trigger] has_bits(json::get(doc, "usagePercent"@), other)) && has_bits(
        json::get(doc, "usage_percent"@),
        bits,
    ))
}

/// Whether a document gives this moment under the first spelling of a key, or under the second where
/// there is none under the first.
pub open spec fn gives_moment(
    doc: JsonModel,
    camel: Seq<char>,
    snake: Seq<char>,
    moment: Instant,
) -> bool {
    meter::moment_of(json::get(doc, camel)) == Some(moment) || (meter::moment_of(
        json::get(doc, camel),
    ) is None && meter::moment_of(json::get(doc, snake)) == Some(moment))
}

/// Whether a document gives this moment as the reset.
pub open spec fn gives_reset(doc: JsonModel, reset: Instant) -> bool {
    gives_moment(doc, "nextResetTimestampUtc"@, "next_reset_timestamp_utc"@, reset)
}

/// Whether a document gives this moment as the start of the window.
pub open spec fn gives_start(doc: JsonModel, start: Instant) -> bool {
    gives_moment(doc, "currentPeriodStart"@, "current_period_start"@, start)
}

/// Whether a value is a text that says something.
pub open spec fn says(value: Option<JsonModel>, content: Seq<char>) -> bool {
    value == Some(JsonModel::Text(content)) && content.len() > 0
}

/// Whether a document names this plan: under the first spelling of the key, or under the second
/// where nothing is said under the first.
pub open spec fn names_plan(doc: JsonModel, plan: Seq<char>) -> bool {
    says(json::get(doc, "grokPlanLabel"@), plan) || ((forall|other: Seq<char>|
        !#[trigger] says(json::get(doc, "grokPlanLabel"@), other)) && says(
        json::get(doc, "grok_plan_label"@),
        plan,
    ))
}

/// Whether one moment lies before another.
pub open spec fn earlier(one: Instant, other: Instant) -> bool {
    one.secs < other.secs || (one.secs == other.secs && one.nanos < other.nanos)
}

/// Whether the bits are those of a double from zero to one hundred.
pub open spec fn bits_of_percentage(bits: u64) -> bool {
    bits <= 0x4059_0000_0000_0000 || bits == 0x8000_0000_0000_0000
}

/// A response without an error, whose pooled flag is absent or false, whose included-limit flag is
/// absent or true, with a percentage from zero to one hundred and a reset that is still to come
/// always maps to one weekly window with that percentage and that reset.
pub proof fn usable_responses_always_map(
    doc: JsonModel,
    now: Instant,
    used: u64,
    reset: Instant,
    outcome: Result<GrokBotData, String>,
)
    requires
        doc is Object,
        !reports_error(doc),
        !says_pooled(doc),
        !says_nothing_included(doc),
        gives_percentage(doc, used),
        bits_of_percentage(used),
        gives_reset(doc, reset),
        earlier(now, reset),
        meter::maps_to(outcome, meter::meter(doc, now), now),
    ensures
        outcome is Ok,
        outcome->Ok_0.windows@.len() == 1,
        outcome->Ok_0.windows@[0].used_percent == used,
        outcome->Ok_0.windows@[0].resets_at == Some(reset),
        outcome->Ok_0.windows@[0].observed_at == now,
        outcome->Ok_0.windows@[0].label@ == "Weekly"@,
        outcome->Ok_0.windows@[0].card_id@ == "weekly.v1"@,
        outcome->Ok_0.windows@[0].window_key matches Some(key) && key@ == "weekly.v1"@,
        outcome->Ok_0.account_scope is Err,
        outcome->Ok_0.history_scope is Err,
        outcome->Ok_0.cache_binding is None,
{
    doubles::percentages_by_their_bits(used);
    lemma_percentage(doc, used);
}

proof fn lemma_percentage(doc: JsonModel, bits: u64)
    ensures
        gives_percentage(doc, bits) <==> meter::first_number(
            doc,
            "usagePercent"@,
            "usage_percent"@,
        ) == Some(bits),
{
    let first = json::get(doc, "usagePercent"@);
    if json::as_double(first) is Some {
        assert(has_bits(first, json::as_double(first)->Some_0));
    }
}

/// The messages of refused responses, told apart.
proof fn lemma_messages_differ()
    ensures
        UNEXPECTED@.len() == 39,
        UNAVAILABLE@.len() == 59,
        POOLED@.len() == 79,
        NO_ALLOWANCE@.len() == 76,
        NO_PERCENTAGE@.len() == 45,
        BAD_PERCENTAGE@.len() == 53,
        NO_RESET@.len() == 39,
        PAST_RESET@.len() == 85,
        UNEXPECTED@ != NO_RESET@,
{
    reveal_strlit("Cursor returned an unexpected response.");
    reveal_strlit("Grok Bot usage is unavailable. Open Grok Bot, then refresh.");
    reveal_strlit(
        "Grok Bot uses a pooled team allowance; no individual weekly quota is available.",
    );
    reveal_strlit("Grok Bot has no included allowance; no individual weekly quota is available.");
    reveal_strlit("Cursor omitted the Grok Bot usage percentage.");
    reveal_strlit("Cursor returned an invalid Grok Bot usage percentage.");
    reveal_strlit("Cursor omitted the Grok Bot reset time.");
    reveal_strlit(
        "Grok Bot reported a quota reset that has already passed. Open Grok Bot, then refresh.",
    );
    assert(UNEXPECTED@[7] == 'r');
    assert(NO_RESET@[7] == 'o');
}

/// A response is refused only for a reason that stands in it, and each reason has its own message:
/// the pooled refusal is given only where a pooled flag is true, and so on.
pub proof fn refusals_name_their_reason(
    doc: JsonModel,
    now: Instant,
    message: Seq<char>,
    outcome: Result<GrokBotData, String>,
)
    requires
        meter::maps_to(outcome, meter::meter(doc, now), now),
        outcome matches Err(said) && said@ == message,
    ensures
        message == UNEXPECTED@ ==> !(doc is Object),
        message == UNAVAILABLE@ ==> reports_error(doc),
        message == POOLED@ ==> says_pooled(doc),
        message == NO_ALLOWANCE@ ==> says_nothing_included(doc),
        message == NO_PERCENTAGE@ ==> forall|bits: u64| !#[trigger] gives_percentage(doc, bits),
        message == BAD_PERCENTAGE@ ==> exists|bits: u64|
            #[trigger] gives_percentage(doc, bits) && !bits_of_percentage(bits),
        message == NO_RESET@ ==> forall|reset: Instant| !#[trigger] gives_reset(doc, reset),
        message == PAST_RESET@ ==> exists|reset: Instant|
            #[trigger] gives_reset(doc, reset) && !earlier(now, reset),
        message == UNEXPECTED@ || message == UNAVAILABLE@ || message == POOLED@ || message
            == NO_ALLOWANCE@ || message == NO_PERCENTAGE@ || message == BAD_PERCENTAGE@ || message
            == NO_RESET@ || message == PAST_RESET@,
{
    lemma_messages_differ();
    let used = meter::first_number(doc, "usagePercent"@, "usage_percent"@);
    if message == NO_PERCENTAGE@ {
        assert forall|bits: u64| !#[trigger] gives_percentage(doc, bits) by {
            lemma_percentage(doc, bits);
        }
    }
    if message == BAD_PERCENTAGE@ {
        lemma_percentage(doc, used->Some_0);
        doubles::percentages_by_their_bits(used->Some_0);
        assert(gives_percentage(doc, used->Some_0));
    }
    if message == PAST_RESET@ {
        let reset = meter::first_moment(
            doc,
            "nextResetTimestampUtc"@,
            "next_reset_timestamp_utc"@,
        )->Some_0;
        assert(gives_reset(doc, reset));
    }
}

/// Each reason to refuse a response has its message, the earlier reasons before the later ones.
pub proof fn reasons_are_refused_in_order(
    doc: JsonModel,
    now: Instant,
    used: u64,
    reset: Instant,
    outcome: Result<GrokBotData, String>,
)
    requires
        meter::maps_to(outcome, meter::meter(doc, now), now),
    ensures
        !(doc is Object) ==> (outcome matches Err(said) && said@ == UNEXPECTED@),
        doc is Object && reports_error(doc) ==> (outcome matches Err(said) && said@
            == UNAVAILABLE@),
        doc is Object && !reports_error(doc) && says_pooled(doc) ==> (outcome matches Err(said)
            && said@ == POOLED@),
        doc is Object && !reports_error(doc) && !says_pooled(doc) && says_nothing_included(doc)
            ==> (outcome matches Err(said) && said@ == NO_ALLOWANCE@),
        doc is Object && !reports_error(doc) && !says_pooled(doc) && !says_nothing_included(doc) && (
        forall|bits: u64| !#[trigger] gives_percentage(doc, bits)) ==> (outcome matches Err(said)
            && said@ == NO_PERCENTAGE@),
        doc is Object && !reports_error(doc) && !says_pooled(doc) && !says_nothing_included(doc)
            && gives_percentage(doc, used) && !bits_of_percentage(used) ==> (
        outcome matches Err(said) && said@ == BAD_PERCENTAGE@),
        doc is Object && !reports_error(doc) && !says_pooled(doc) && !says_nothing_included(doc)
            && gives_percentage(doc, used) && bits_of_percentage(used) && (forall|moment: Instant|
            !#[trigger] gives_reset(doc, moment)) ==> (outcome matches Err(said) && said@
            == NO_RESET@),
        doc is Object && !reports_error(doc) && !says_pooled(doc) && !says_nothing_included(doc)
            && gives_percentage(doc, used) && bits_of_percentage(used) && gives_reset(doc, reset)
            && !earlier(now, reset) ==> (outcome matches Err(said) && said@ == PAST_RESET@),
{
    doubles::percentages_by_their_bits(used);
    lemma_percentage(doc, used);
    let number = meter::first_number(doc, "usagePercent"@, "usage_percent"@);
    if number is Some {
        lemma_percentage(doc, number->Some_0);
        assert(gives_percentage(doc, number->Some_0));
    }
    let moment = meter::first_moment(
        doc,
        "nextResetTimestampUtc"@,
        "next_reset_timestamp_utc"@,
    );
    if moment is Some {
        assert(gives_reset(doc, moment->Some_0));
    }
}

/// A text that is no JSON document is refused as such, any other is mapped as its document is.
pub proof fn texts_map_as_their_documents(
    document: Option<JsonModel>,
    now: Instant,
    outcome: Result<GrokBotData, String>,
)
    requires
        meter::maps_to(outcome, meter::text_meter(document, now), now),
    ensures
        document is None ==> (outcome matches Err(said) && said@ == UNDECODABLE@),
        document matches Some(doc) ==> meter::maps_to(outcome, meter::meter(doc, now), now),
{
}

/// A card has a window length exactly where the response gives a start that lies before the reset.
/// It ends in the second of the reset, and lasts for the whole seconds between the two moments.
pub proof fn windows_last_from_their_start(
    doc: JsonModel,
    now: Instant,
    start: Instant,
    outcome: Result<GrokBotData, String>,
    reset: Instant,
)
    requires
        meter::maps_to(outcome, meter::meter(doc, now), now),
        outcome matches Ok(data) && data.windows@[0].resets_at == Some(reset),
    ensures
        (forall|moment: Instant| !#[trigger] gives_start(doc, moment))
            ==> outcome->Ok_0.windows@[0].duration is None,
        gives_start(doc, start) && !earlier(start, reset) ==> outcome->Ok_0.windows@[0].duration
            is None,
        gives_start(doc, start) && earlier(start, reset) ==> {
            let span = (reset.secs - start.secs) * 1_000_000_000 + reset.nanos - start.nanos;
            &&& outcome->Ok_0.windows@[0].duration is Some
            &&& outcome->Ok_0.windows@[0].duration->Some_0.reset_at == reset.secs
            &&& start.nanos == 0 && reset.nanos == 0
                ==> outcome->Ok_0.windows@[0].duration->Some_0.seconds == reset.secs - start.secs
            &&& start.nanos < 1_000_000_000 && reset.nanos < 1_000_000_000
                ==> outcome->Ok_0.windows@[0].duration->Some_0.seconds * 1_000_000_000 <= span < (
            outcome->Ok_0.windows@[0].duration->Some_0.seconds + 1) * 1_000_000_000
        },
{
    let first = meter::first_moment(doc, "currentPeriodStart"@, "current_period_start"@);
    if first is Some {
        assert(gives_start(doc, first->Some_0));
    }
}

/// A card names the plan of the response exactly where it names one, and never a person.
pub proof fn cards_name_the_plan(
    doc: JsonModel,
    now: Instant,
    plan: Seq<char>,
    outcome: Result<GrokBotData, String>,
)
    requires
        meter::maps_to(outcome, meter::meter(doc, now), now),
        outcome is Ok,
    ensures
        names_plan(doc, plan) ==> (outcome->Ok_0.identity matches Some(identity) && identity.email
            is None && (identity.plan matches Some(label) && label@ == plan)),
        (forall|other: Seq<char>| !#[trigger] names_plan(doc, other))
            ==> outcome->Ok_0.identity is None,
{
    let first = json::get(doc, "grokPlanLabel"@);
    if json::as_text(first) is Some && json::as_text(first)->Some_0.len() > 0 {
        assert(says(first, json::as_text(first)->Some_0));
        assert(names_plan(doc, json::as_text(first)->Some_0));
    } else {
        let second = json::get(doc, "grok_plan_label"@);
        assert forall|other: Seq<char>| !#[trigger] says(first, other) by {}
        if json::as_text(second) is Some && json::as_text(second)->Some_0.len() > 0 {
            assert(says(second, json::as_text(second)->Some_0));
            assert(names_plan(doc, json::as_text(second)->Some_0));
        }
    }
}

/// A text that is a date denotes the moment of that date, and one that is a number the moment of
/// that number, whatever white space stands around it.
pub proof fn texts_denote_moments(s: Seq<char>, number: JsonNumber, bits: u64)
    requires
        text::trimmed(s).len() > 0,
        number.double == Some(bits),
    ensures
        timestamps::decimal_double(text::trimmed(s)) is None && !timestamps::nan_text(
            text::trimmed(s),
        ) ==> meter::moment_of(Some(JsonModel::Text(s))) == timestamps::rfc3339_instant(
            text::trimmed(s),
        ),
        timestamps::decimal_double(text::trimmed(s)) == Some(bits) && !timestamps::nan_text(
            text::trimmed(s),
        ) && meter::moment_of(Some(JsonModel::Number(number))) is Some ==> meter::moment_of(
            Some(JsonModel::Text(s)),
        ) == meter::moment_of(Some(JsonModel::Number(number))),
{
}

/// A whole number of seconds denotes the moment of that second, a larger one counts milliseconds,
/// and one beyond the calendar denotes nothing. The same digits as text denote the same moment.
pub proof fn whole_numbers_are_seconds_or_milliseconds(number: JsonNumber, bits: u64, n: nat)
    requires
        number.double == Some(bits),
        doubles::denotes(bits, n),
    ensures
        n <= 100_000_000_000 ==> meter::moment_of(Some(JsonModel::Number(number))) == Some(
            Instant { secs: n as i64, nanos: 0 },
        ),
        n > 100_000_000_000 && n <= 8_210_266_876_799_999 ==> (meter::moment_of(
            Some(JsonModel::Number(number)),
        ) matches Some(moment) && moment.nanos == 0 && moment.secs * 1000 <= n < moment.secs * 1000
            + 1000),
        n > 8_210_266_876_799_999 ==> meter::moment_of(Some(JsonModel::Number(number))) is None,
        meter::moment_of(Some(JsonModel::Number(number))) == meter::whole_moment(n),
{
    timestamps::whole_doubles_denote_their_seconds(bits, n);
}

/// A number with a fraction denotes the second that it falls into, and a negative one counts back
/// from the epoch, towards it.
pub proof fn fractions_of_seconds_are_cut(number: JsonNumber, bits: u64)
    requires
        number.double == Some(bits),
        doubles::is_finite(bits),
        doubles::units(bits) <= 100_000_000_000 * doubles::one(),
    ensures
        !doubles::is_negative(bits) ==> (meter::moment_of(Some(JsonModel::Number(number))) matches Some(
            moment,
        ) && moment.nanos == 0 && moment.secs >= 0 && moment.secs * doubles::one()
            <= doubles::units(bits) < (moment.secs + 1) * doubles::one()),
        doubles::is_negative(bits) ==> (meter::moment_of(Some(JsonModel::Number(number))) matches Some(
            moment,
        ) && moment.nanos == 0 && moment.secs <= 0 && -moment.secs * doubles::one()
            <= doubles::units(bits) < (1 - moment.secs) * doubles::one()),
{
    let u = doubles::units(bits) as int;
    let d = doubles::one() as int;
    lemma_pow2_pos(1074);
    lemma_fundamental_div_mod(u, d);
    let q = u / d;
    assert(d * q == q * d) by (nonlinear_arith);
    assert(u % d < d);
    assert((q + 1) * d == q * d + d) by (nonlinear_arith);
    assert(0 <= q <= 100_000_000_000) by (nonlinear_arith)
        requires
            u == d * q + u % d,
            u % d >= 0,
            u % d < d,
            0 <= u <= 100_000_000_000 * d,
            d > 0,
    ;
}

} // verus!
