//! Asking the Warp service, and what its answers mean before they are read.

use vstd::prelude::*;
use vstd::string::*;
use crate::agent_warp::flows::FetchFailure;
use crate::agent_warp::state::WarpError;
use crate::http::{self, push_header, HttpRequest};
use crate::json::{self, quote};
use crate::numbers::{self, parse_i64, parse_u64, saturating_sum, seconds_to_ms};
use crate::text::{self, joined, trim};
use crate::timestamps::{self, parse_from_rfc2822, Instant};

verus! {

pub const ENDPOINT: &'static str = "https://app.warp.dev/graphql/v2";

pub const HTTP_TIMEOUT_SECS: u64 = 8;

pub const MAX_RESPONSE_BYTES: u64 = 2_097_152;

pub const DEFAULT_RETRY_MS: i64 = 300_000;

pub const REQUEST_LIMIT_OPERATION: &'static str = "GetRequestLimitInfo";

pub const WORKSPACES_OPERATION: &'static str = "GetWorkspacesMetadataForUser";

pub const REQUEST_LIMIT_QUERY: &'static str = "query GetRequestLimitInfo { requestLimitInfo { requestLimit requestsUsedSinceLastRefresh nextRefreshTime bonusGrantsInfo { spendingInfo { currentMonthSpendCents currentMonthCreditsPurchased } } } }";

pub const WORKSPACES_QUERY: &'static str = "query GetWorkspacesMetadataForUser { workspacesMetadataForUser { id totalRequestsUsedSinceLastRefresh aiOverages { currentMonthlyRequestCostCents currentMonthlyRequestsUsed } usageInfo { requestsUsedSinceLastRefresh } } }";

/// The JSON text of a query without variables.
pub open spec fn graphql_body(operation: Seq<char>, query: Seq<char>) -> Seq<char> {
    "{\"operationName\":"@ + json::quoted_text(operation) + ",\"query\":"@ + json::quoted_text(
        query,
    ) + ",\"variables\":{}}"@
}

/// The headers of a query: the bearer, and nothing else that identifies the user.
pub open spec fn graphql_headers(bearer: Seq<char>) -> Seq<(Seq<char>, Seq<char>)> {
    seq![
        ("authorization"@, "Bearer "@ + bearer),
        ("content-type"@, "application/json"@),
        ("accept"@, "application/json"@),
    ]
}

/// The request for one query.
pub fn graphql_request(bearer: &str, operation: &str, query: &str) -> (r: HttpRequest)
    ensures
        r.url@ == ENDPOINT@,
        http::header_texts(r.headers@) == graphql_headers(bearer@),
        r.body@ == graphql_body(operation@, query@),
{
    let mut headers: Vec<(String, String)> = Vec::new();
    push_header(&mut headers, "authorization", joined("Bearer ", bearer));
    push_header(&mut headers, "content-type", "application/json".to_owned());
    push_header(&mut headers, "accept", "application/json".to_owned());
    assert(http::header_texts(headers@) =~= graphql_headers(bearer@));
    let named = joined("{\"operationName\":", &quote(operation));
    let asked = joined(&named, ",\"query\":");
    let quoted = joined(&asked, &quote(query));
    HttpRequest {
        url: ENDPOINT.to_owned(),
        headers,
        body: joined(&quoted, ",\"variables\":{}}"),
    }
}

/// Milliseconds since the epoch, given those that the clock tells; one where it tells a time
/// before the epoch.
pub open spec fn clock_ms(elapsed: Option<u128>) -> int {
    match elapsed {
        Some(ms) => if ms > i64::MAX {
            i64::MAX as int
        } else {
            ms as int
        },
        None => 1,
    }
}

pub fn now_ms(elapsed: Option<u128>) -> (r: i64)
    ensures
        r == clock_ms(elapsed),
{
    match elapsed {
        Some(ms) => if ms > 0x7fff_ffff_ffff_ffff {
            i64::MAX
        } else {
            ms as i64
        },
        None => 1,
    }
}

/// When a failed request may be made again where nothing else is said.
pub open spec fn default_retry(now_ms: i64) -> i64 {
    numbers::saturated(now_ms + DEFAULT_RETRY_MS)
}

pub fn transient_failure(error: WarpError, now_ms: i64) -> (r: FetchFailure)
    ensures
        r == (FetchFailure { error, retry_at_ms: Some(default_retry(now_ms)) }),
{
    FetchFailure { error, retry_at_ms: Some(saturating_sum(now_ms, DEFAULT_RETRY_MS)) }
}

/// The failure of a request that got no response.
pub fn request_failure(timed_out: bool, now_ms: i64) -> (r: FetchFailure)
    ensures
        r == (FetchFailure {
            error: if timed_out {
                WarpError::Timeout
            } else {
                WarpError::Transport
            },
            retry_at_ms: Some(default_retry(now_ms)),
        }),
{
    transient_failure(
        if timed_out {
            WarpError::Timeout
        } else {
            WarpError::Transport
        },
        now_ms,
    )
}

/// When a request may be made again, given what its `Retry-After` header holds as a number of
/// seconds and as a date.
pub open spec fn retry_time(seconds: Option<i64>, date: Option<Instant>, now_ms: i64) -> int {
    match seconds {
        Some(n) => numbers::saturated(
            now_ms + numbers::saturated(
                if n > 0 {
                    n * 1000
                } else {
                    0
                },
            ),
        ) as int,
        None => match date {
            Some(moment) => moment.millis(),
            None => default_retry(now_ms) as int,
        },
    }
}

pub fn retry_time_of(seconds: Option<i64>, date: Option<Instant>, now_ms: i64) -> (r: i64)
    requires
        date matches Some(moment) ==> moment.valid(),
    ensures
        r == retry_time(seconds, date, now_ms),
{
    match seconds {
        Some(n) => saturating_sum(now_ms, seconds_to_ms(n)),
        None => match date {
            Some(moment) => moment.timestamp_millis(),
            None => saturating_sum(now_ms, DEFAULT_RETRY_MS),
        },
    }
}

/// The number of seconds that a `Retry-After` header holds.
pub open spec fn header_seconds(value: Seq<char>) -> Option<i64> {
    match numbers::signed_of(text::trimmed(value)) {
        Some(n) => if i64::MIN <= n <= i64::MAX {
            Some(n as i64)
        } else {
            None
        },
        None => None,
    }
}

/// When a `Retry-After` header lets a request be made again.
pub open spec fn retry_after(value: Option<Seq<char>>, now_ms: i64) -> int {
    match value {
        Some(content) => retry_time(
            header_seconds(content),
            timestamps::rfc2822_instant(content),
            now_ms,
        ),
        None => default_retry(now_ms) as int,
    }
}

pub fn parse_retry_after(value: Option<&str>, now_ms: i64) -> (r: i64)
    ensures
        r == retry_after(text::opt_str(value), now_ms),
{
    match value {
        Some(content) => retry_time_of(
            parse_i64(&trim(content)),
            parse_from_rfc2822(content),
            now_ms,
        ),
        None => saturating_sum(now_ms, DEFAULT_RETRY_MS),
    }
}

/// The error that a status without success stands for.
pub open spec fn status_error(status: u16) -> WarpError {
    if status == 401 {
        WarpError::Unauthorized
    } else if status == 403 {
        WarpError::Forbidden
    } else if status == 429 {
        WarpError::RateLimited
    } else if 500 <= status < 600 {
        WarpError::RemoteServer
    } else {
        WarpError::RemoteRejected
    }
}

/// When a request with that status may be made again: never for a refused credential, and no
/// sooner than by default for a rate limit.
pub open spec fn status_retry(
    status: u16,
    retry_after_header: Option<Seq<char>>,
    now_ms: i64,
) -> Option<int> {
    match status_error(status) {
        WarpError::Unauthorized => None,
        WarpError::RateLimited => Some(
            if retry_after(retry_after_header, now_ms) > default_retry(now_ms) {
                retry_after(retry_after_header, now_ms)
            } else {
                default_retry(now_ms) as int
            },
        ),
        _ => Some(default_retry(now_ms) as int),
    }
}

pub fn classify_status(status: u16, retry_after_header: Option<&str>, now_ms: i64) -> (r:
    FetchFailure)
    ensures
        r.error == status_error(status),
        (match r.retry_at_ms {
            Some(at) => Some(at as int),
            None => None,
        }) == status_retry(status, text::opt_str(retry_after_header), now_ms),
{
    let by_default: i64 = saturating_sum(now_ms, DEFAULT_RETRY_MS);
    if status == 401 {
        FetchFailure { error: WarpError::Unauthorized, retry_at_ms: None }
    } else if status == 403 {
        FetchFailure { error: WarpError::Forbidden, retry_at_ms: Some(by_default) }
    } else if status == 429 {
        let asked: i64 = parse_retry_after(retry_after_header, now_ms);
        let at: i64 = if asked > by_default {
            asked
        } else {
            by_default
        };
        FetchFailure { error: WarpError::RateLimited, retry_at_ms: Some(at) }
    } else if 500 <= status && status < 600 {
        FetchFailure { error: WarpError::RemoteServer, retry_at_ms: Some(by_default) }
    } else {
        FetchFailure { error: WarpError::RemoteRejected, retry_at_ms: Some(by_default) }
    }
}

/// A rate limit is never retried sooner than five minutes from now.
pub proof fn rate_limits_wait_at_least_five_minutes(header: Option<Seq<char>>, now_ms: i64)
    requires
        now_ms + 300_000 <= i64::MAX,
    ensures
        status_retry(429, header, now_ms) matches Some(at) && at >= now_ms + 300_000,
{
}

/// Whether a `Content-Length` header announces more than is read.
pub open spec fn announces_too_much(value: Option<Seq<char>>) -> bool {
    match value {
        Some(content) => match numbers::unsigned_of(content) {
            Some(n) => MAX_RESPONSE_BYTES < n <= u64::MAX,
            None => false,
        },
        None => false,
    }
}

/// Refuses a response that announces more than is read.
fn check_content_length(value: Option<&str>, now_ms: i64) -> (r: Result<(), FetchFailure>)
    ensures
        r == (if announces_too_much(text::opt_str(value)) {
            Err::<(), FetchFailure>(
                FetchFailure {
                    error: WarpError::Oversize,
                    retry_at_ms: Some(default_retry(now_ms)),
                },
            )
        } else {
            Ok(())
        }),
{
    if let Some(content) = value {
        if let Some(n) = parse_u64(content) {
            if n > MAX_RESPONSE_BYTES {
                return Err(transient_failure(WarpError::Oversize, now_ms));
            }
        }
    }
    Ok(())
}

/// Why the body of a response is not read, if it is not.
pub open spec fn response_refused(
    status: u16,
    retry_after_header: Option<Seq<char>>,
    content_length: Option<Seq<char>>,
    now_ms: i64,
) -> Option<(WarpError, Option<int>)> {
    if !(200 <= status < 300) {
        Some((status_error(status), status_retry(status, retry_after_header, now_ms)))
    } else if announces_too_much(content_length) {
        Some((WarpError::Oversize, Some(default_retry(now_ms) as int)))
    } else {
        None
    }
}

/// Decides from the head of a response whether its body is read: only that of a success which
/// does not announce too much.
pub fn admit_response(
    status: u16,
    retry_after_header: Option<&str>,
    content_length: Option<&str>,
    now_ms: i64,
) -> (r: Result<(), FetchFailure>)
    ensures
        (match r {
            Ok(_) => None,
            Err(failure) => Some(
                (
                    failure.error,
                    match failure.retry_at_ms {
                        Some(at) => Some(at as int),
                        None => None,
                    },
                ),
            ),
        }) == response_refused(
            status,
            text::opt_str(retry_after_header),
            text::opt_str(content_length),
            now_ms,
        ),
{
    if !(200 <= status && status < 300) {
        return Err(classify_status(status, retry_after_header, now_ms));
    }
    check_content_length(content_length, now_ms)
}

/// What adding a chunk to the bytes read so far gives.
pub open spec fn chunk_appends(
    before: Seq<u8>,
    chunk: Seq<u8>,
    now_ms: i64,
    outcome: Result<(), FetchFailure>,
    after: Seq<u8>,
) -> bool {
    if before.len() + chunk.len() > MAX_RESPONSE_BYTES {
        &&& outcome == Err::<(), FetchFailure>(
            FetchFailure { error: WarpError::Oversize, retry_at_ms: Some(default_retry(now_ms)) },
        )
        &&& after == before
    } else {
        outcome is Ok && after == before + chunk
    }
}

/// Adds a chunk to the bytes read so far, unless they become too many.
pub fn append_chunk(bytes: &mut Vec<u8>, chunk: &[u8], now_ms: i64) -> (r: Result<
    (),
    FetchFailure,
>)
    ensures
        chunk_appends(old(bytes)@, chunk@, now_ms, r, final(bytes)@),
{
    if bytes.len() > 2_097_152 || chunk.len() > 2_097_152 - bytes.len() {
        return Err(transient_failure(WarpError::Oversize, now_ms));
    }
    bytes.extend_from_slice(chunk);
    assert(bytes@ =~= old(bytes)@ + chunk@);
    Ok(())
}

/// An answer to a query: its data, and how many errors it reports.
pub struct GraphqlAnswer<T> {
    pub data: Option<T>,
    pub errors: usize,
}

/// What opening an answer to a query gives.
pub open spec fn answer_opens<T>(
    answer: Option<GraphqlAnswer<T>>,
    now_ms: i64,
    outcome: Result<T, FetchFailure>,
) -> bool {
    match answer {
        Some(GraphqlAnswer { data, errors }) => if errors > 0 {
            outcome == Err::<T, FetchFailure>(
                FetchFailure {
                    error: WarpError::Graphql,
                    retry_at_ms: Some(default_retry(now_ms)),
                },
            )
        } else {
            match data {
                Some(value) => outcome == Ok::<T, FetchFailure>(value),
                None => outcome == Err::<T, FetchFailure>(
                    FetchFailure {
                        error: WarpError::Decode,
                        retry_at_ms: Some(default_retry(now_ms)),
                    },
                ),
            }
        },
        None => outcome == Err::<T, FetchFailure>(
            FetchFailure { error: WarpError::Decode, retry_at_ms: Some(default_retry(now_ms)) },
        ),
    }
}

/// What an answer to a query holds, `None` where it could not be decoded: data, unless it reports
/// errors or has none.
pub fn open_answer<T>(answer: Option<GraphqlAnswer<T>>, now_ms: i64) -> (r: Result<
    T,
    FetchFailure,
>)
    ensures
        answer_opens(answer, now_ms, r),
{
    let held = match answer {
        Some(held) => held,
        None => return Err(transient_failure(WarpError::Decode, now_ms)),
    };
    if held.errors > 0 {
        return Err(transient_failure(WarpError::Graphql, now_ms));
    }
    match held.data {
        Some(value) => Ok(value),
        None => Err(transient_failure(WarpError::Decode, now_ms)),
    }
}

/// Each status without success has its error: 401 a refused credential, 403 a forbidden one, 429 a
/// rate limit, the five hundreds the fault of the service, any other a rejection.
pub proof fn statuses_name_their_error(status: u16)
    ensures
        status_error(401) == WarpError::Unauthorized,
        status_error(403) == WarpError::Forbidden,
        status_error(429) == WarpError::RateLimited,
        500 <= status <= 599 ==> status_error(status) == WarpError::RemoteServer,
        status != 401 && status != 403 && status != 429 && !(500 <= status <= 599) ==> status_error(
            status,
        ) == WarpError::RemoteRejected,
{
}

/// A request that failed by default may be made again after five minutes, and not before.
pub proof fn failures_are_retried_after_five_minutes(now_ms: i64)
    ensures
        now_ms + 300_000 <= i64::MAX ==> default_retry(now_ms) == now_ms + 300_000,
        now_ms + 300_000 > i64::MAX ==> default_retry(now_ms) == i64::MAX,
{
}

/// A refused credential is never to be tried again. A rate limit is to be waited for as long as the
/// service asks, in seconds or until a date, but for five minutes at least. Any other failure is to
/// be waited for five minutes.
pub proof fn statuses_say_when_to_retry(
    status: u16,
    header: Option<Seq<char>>,
    content: Seq<char>,
    seconds: nat,
    now_ms: i64,
)
    requires
        0 <= now_ms <= 0x1000_0000_0000_0000,
        seconds <= 0x1_0000_0000_0000,
    ensures
        status_retry(401, header, now_ms) is None,
        status != 401 && status != 429 ==> status_retry(status, header, now_ms) == Some(
            now_ms + 300_000,
        ),
        status_retry(429, None, now_ms) == Some(now_ms + 300_000),
        numbers::signed_of(text::trimmed(content)) == Some(seconds as int) && seconds >= 300
            ==> status_retry(429, Some(content), now_ms) == Some(now_ms + seconds * 1000),
        numbers::signed_of(text::trimmed(content)) == Some(seconds as int) && seconds < 300
            ==> status_retry(429, Some(content), now_ms) == Some(now_ms + 300_000),
        numbers::signed_of(text::trimmed(content)) is None && (timestamps::rfc2822_instant(
            content,
        ) matches Some(date) && date.secs * 1000 + date.nanos as int / 1_000_000 > now_ms + 300_000)
            ==> status_retry(429, Some(content), now_ms) == Some(
            timestamps::rfc2822_instant(content)->Some_0.secs * 1000 + timestamps::rfc2822_instant(
                content,
            )->Some_0.nanos as int / 1_000_000,
        ),
        numbers::signed_of(text::trimmed(content)) is None && timestamps::rfc2822_instant(content)
            is None ==> status_retry(429, Some(content), now_ms) == Some(now_ms + 300_000),
{
}

/// A `Retry-After` header is taken at its word: as many seconds from now, or its date. A count below
/// zero is none, and a header that says nothing means five minutes.
pub proof fn retry_headers_are_taken_at_their_word(
    content: Seq<char>,
    seconds: int,
    now_ms: i64,
)
    requires
        0 <= now_ms <= 0x1000_0000_0000_0000,
        -0x1_0000_0000_0000 <= seconds <= 0x1_0000_0000_0000,
    ensures
        numbers::signed_of(text::trimmed(content)) == Some(seconds) && seconds >= 0 ==> retry_after(
            Some(content),
            now_ms,
        ) == now_ms + seconds * 1000,
        numbers::signed_of(text::trimmed(content)) == Some(seconds) && seconds < 0 ==> retry_after(
            Some(content),
            now_ms,
        ) == now_ms,
        numbers::signed_of(text::trimmed(content)) is None && (timestamps::rfc2822_instant(
            content,
        ) matches Some(date)) ==> retry_after(Some(content), now_ms)
            == timestamps::rfc2822_instant(content)->Some_0.secs * 1000
            + timestamps::rfc2822_instant(content)->Some_0.nanos as int / 1_000_000,
        retry_after(None, now_ms) == now_ms + 300_000,
{
}

/// Only a success is read, and only where it does not announce more than two mebibytes. Anything
/// else is refused with the error and the time of its status.
pub proof fn only_small_successes_are_read(
    status: u16,
    header: Option<Seq<char>>,
    content: Seq<char>,
    n: nat,
    now_ms: i64,
)
    requires
        numbers::unsigned_of(content) == Some(n),
        n <= u64::MAX,
        0 <= now_ms <= 0x1000_0000_0000_0000,
    ensures
        200 <= status <= 299 ==> response_refused(status, header, None, now_ms) is None,
        200 <= status <= 299 && n <= 2_097_152 ==> response_refused(
            status,
            header,
            Some(content),
            now_ms,
        ) is None,
        200 <= status <= 299 && n > 2_097_152 ==> response_refused(
            status,
            header,
            Some(content),
            now_ms,
        ) == Some((WarpError::Oversize, Some(now_ms + 300_000))),
        !(200 <= status <= 299) ==> response_refused(status, header, Some(content), now_ms) == Some(
            (status_error(status), status_retry(status, header, now_ms)),
        ),
{
}

/// A query carries the bearer in one header and names nobody anywhere else.
pub proof fn queries_carry_the_bearer_alone(bearer: Seq<char>, i: int)
    ensures
        graphql_headers(bearer).contains(("authorization"@, "Bearer "@ + bearer)),
        graphql_headers(bearer).contains(("content-type"@, "application/json"@)),
        graphql_headers(bearer).len() == 3,
        0 <= i < 3 && graphql_headers(bearer)[i].0 != "authorization"@ ==> graphql_headers(bearer)[i].1
            == "application/json"@,
{
    assert(graphql_headers(bearer)[0] == ("authorization"@, "Bearer "@ + bearer));
    assert(graphql_headers(bearer)[1] == ("content-type"@, "application/json"@));
}

/// The clock is held to what a time can be, and a clock before the epoch tells the first
/// millisecond.
pub proof fn clocks_tell_milliseconds(elapsed: u128)
    ensures
        elapsed <= i64::MAX ==> clock_ms(Some(elapsed)) == elapsed,
        elapsed > i64::MAX ==> clock_ms(Some(elapsed)) == i64::MAX,
        clock_ms(None) == 1,
{
}

/// The bytes of a response are its chunks one after another, up to two mebibytes; more are refused,
/// and what was read stays as it is.
pub proof fn responses_are_their_chunks(
    before: Seq<u8>,
    chunk: Seq<u8>,
    now_ms: i64,
    outcome: Result<(), FetchFailure>,
    after: Seq<u8>,
)
    requires
        chunk_appends(before, chunk, now_ms, outcome, after),
        now_ms <= 0x1000_0000_0000_0000,
    ensures
        before.len() + chunk.len() <= 2_097_152 ==> outcome is Ok && after == before + chunk,
        before.len() + chunk.len() > 2_097_152 ==> after == before && outcome == Err::<
            (),
            FetchFailure,
        >(
            FetchFailure {
                error: WarpError::Oversize,
                retry_at_ms: Some((now_ms + 300_000) as i64),
            },
        ),
{
}

/// An answer gives its data exactly where it reports no error and has data. Errors are told as such,
/// and what cannot be decoded or holds nothing as that; both may be tried again in five minutes.
pub proof fn answers_give_their_data<T>(
    value: T,
    errors: usize,
    now_ms: i64,
    outcome: Result<T, FetchFailure>,
)
    requires
        now_ms <= 0x1000_0000_0000_0000,
    ensures
        answer_opens(Some(GraphqlAnswer { data: Some(value), errors: 0 }), now_ms, outcome)
            ==> outcome == Ok::<T, FetchFailure>(value),
        answer_opens(Some(GraphqlAnswer { data: Some(value), errors }), now_ms, outcome) && errors
            > 0 ==> (outcome matches Err(failure) && failure.error == WarpError::Graphql
            && failure.retry_at_ms == Some((now_ms + 300_000) as i64)),
        answer_opens(Some(GraphqlAnswer { data: None, errors: 0 }), now_ms, outcome) ==> (
        outcome matches Err(failure) && failure.error == WarpError::Decode && failure.retry_at_ms
            == Some((now_ms + 300_000) as i64)),
        answer_opens(None, now_ms, outcome) ==> (outcome matches Err(failure) && failure.error
            == WarpError::Decode && failure.retry_at_ms == Some((now_ms + 300_000) as i64)),
{
}

} // verus!
