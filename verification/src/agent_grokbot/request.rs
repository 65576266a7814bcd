//! Asking for the weekly quota, and what the outcome of asking means.

use vstd::prelude::*;
use vstd::string::*;
use crate::agent_grokbot::credentials::{self, GrokBotCredentials, Login, PROVIDER};
use crate::agent_grokbot::meter::{self, map_response, AccountScopeError, GrokBotData};
use crate::http::{self, push_header, HttpRequest};
use crate::json;
use crate::numbers::{self, decimal};
use crate::text::{self, joined};
use crate::timestamps::Instant;

verus! {

pub const GROK_BOT_USAGE_URL: &'static str = "https://cursor.com/api/dashboard/get-sand-usage-status";

pub const GROK_BOT_DESKTOP_USAGE_URL: &'static str =
    "https://api2.cursor.sh/aiserver.v1.DashboardService/GetSandUsageStatus";

pub const LOGIN_UNREADABLE: &'static str = "Could not read the Grok Bot login.";

pub const IDENTITY_UNVERIFIED: &'static str = "Grok Bot account identity could not be verified.";

pub const CLIENT_UNAVAILABLE: &'static str = "Grok Bot usage client could not be created.";

pub const REQUEST_FAILED: &'static str = "Grok Bot usage request failed. Retrying automatically.";

/// The headers that every usage request ends with.
pub open spec fn common_headers() -> Seq<(Seq<char>, Seq<char>)> {
    seq![
        ("accept"@, "application/json"@),
        ("content-type"@, "application/json"@),
        ("user-agent"@, "TokenBar"@),
    ]
}

/// The headers that the desktop service is asked with, before the team.
pub open spec fn desktop_headers(token: Seq<char>) -> Seq<(Seq<char>, Seq<char>)> {
    seq![
        ("authorization"@, "Bearer "@ + token),
        ("connect-protocol-version"@, "1"@),
        ("x-cursor-client-type"@, "sand"@),
        ("x-ghost-mode"@, "true"@),
    ]
}

/// The headers that the Cursor dashboard is asked with.
pub open spec fn cursor_headers(user: Seq<char>, token: Seq<char>) -> Seq<
    (Seq<char>, Seq<char>),
> {
    seq![
        ("origin"@, "https://cursor.com"@),
        ("referer"@, "https://cursor.com/dashboard"@),
        ("cookie"@, "WorkosCursorSessionToken="@ + user + "%3A%3A"@ + token),
    ]
}

pub open spec fn team_headers(team: Option<u64>) -> Seq<(Seq<char>, Seq<char>)> {
    match team {
        Some(id) => seq![("x-cursor-team-id"@, numbers::decimal_text(id as nat))],
        None => Seq::empty(),
    }
}

/// The headers of the usage request of a login.
pub open spec fn request_headers(login: Login) -> Seq<(Seq<char>, Seq<char>)> {
    match login {
        Login::Desktop { token, team } => desktop_headers(token) + team_headers(team)
            + common_headers(),
        Login::Cursor { user, token } => cursor_headers(user, token) + common_headers(),
    }
}

/// The address of the usage request of a login.
pub open spec fn request_url(login: Login) -> Seq<char> {
    match login {
        Login::Desktop { .. } => GROK_BOT_DESKTOP_USAGE_URL@,
        Login::Cursor { .. } => GROK_BOT_USAGE_URL@,
    }
}

/// The usage request of a login.
pub fn usage_request(credentials: &GrokBotCredentials) -> (r: HttpRequest)
    ensures
        r.url@ == request_url(credentials@),
        http::header_texts(r.headers@) == request_headers(credentials@),
        r.body@ == "{}"@,
{
    let mut headers: Vec<(String, String)> = Vec::new();
    assert(http::header_texts(headers@) =~= Seq::<(Seq<char>, Seq<char>)>::empty());
    let url = match credentials {
        GrokBotCredentials::Desktop { access_token, team_id } => {
            push_header(&mut headers, "authorization", joined("Bearer ", access_token));
            push_header(&mut headers, "connect-protocol-version", "1".to_owned());
            push_header(&mut headers, "x-cursor-client-type", "sand".to_owned());
            push_header(&mut headers, "x-ghost-mode", "true".to_owned());
            assert(http::header_texts(headers@) =~= desktop_headers(access_token@));
            if let Some(id) = team_id {
                push_header(&mut headers, "x-cursor-team-id", decimal(*id));
            }
            assert(http::header_texts(headers@) =~= desktop_headers(access_token@) + team_headers(
                *team_id,
            ));
            GROK_BOT_DESKTOP_USAGE_URL
        },
        GrokBotCredentials::Cursor(cursor) => {
            push_header(&mut headers, "origin", "https://cursor.com".to_owned());
            push_header(&mut headers, "referer", "https://cursor.com/dashboard".to_owned());
            let user = joined("WorkosCursorSessionToken=", &cursor.user_id);
            let divided = joined(&user, "%3A%3A");
            push_header(&mut headers, "cookie", joined(&divided, &cursor.access_token));
            assert(http::header_texts(headers@) =~= cursor_headers(
                cursor.user_id@,
                cursor.access_token@,
            ));
            GROK_BOT_USAGE_URL
        },
    };
    push_header(&mut headers, "accept", "application/json".to_owned());
    push_header(&mut headers, "content-type", "application/json".to_owned());
    push_header(&mut headers, "user-agent", "TokenBar".to_owned());
    assert(http::header_texts(headers@) =~= request_headers(credentials@));
    HttpRequest { url: url.to_owned(), headers, body: "{}".to_owned() }
}

/// A desktop login is never sent as a cookie.
pub proof fn desktop_requests_carry_no_cookie(token: Seq<char>, team: Option<u64>)
    ensures
        !http::has_header(request_headers(Login::Desktop { token, team }), "cookie"@),
{
    reveal_header_names();
}

/// A Cursor login is never sent as a bearer token or with a team.
pub proof fn cursor_requests_carry_no_authorization(user: Seq<char>, token: Seq<char>)
    ensures
        !http::has_header(request_headers(Login::Cursor { user, token }), "authorization"@),
        !http::has_header(request_headers(Login::Cursor { user, token }), "x-cursor-team-id"@),
{
    reveal_header_names();
}

proof fn reveal_header_names()
    ensures
        "cookie"@ != "authorization"@,
        "cookie"@ != "connect-protocol-version"@,
        "cookie"@ != "x-cursor-client-type"@,
        "cookie"@ != "x-ghost-mode"@,
        "cookie"@ != "x-cursor-team-id"@,
        "cookie"@ != "accept"@,
        "cookie"@ != "content-type"@,
        "cookie"@ != "user-agent"@,
        "authorization"@ != "origin"@,
        "authorization"@ != "referer"@,
        "authorization"@ != "accept"@,
        "authorization"@ != "content-type"@,
        "authorization"@ != "user-agent"@,
        "x-cursor-team-id"@ != "origin"@,
        "x-cursor-team-id"@ != "referer"@,
        "x-cursor-team-id"@ != "accept"@,
        "x-cursor-team-id"@ != "content-type"@,
        "x-cursor-team-id"@ != "user-agent"@,
{
    reveal_strlit("cookie");
    reveal_strlit("authorization");
    reveal_strlit("connect-protocol-version");
    reveal_strlit("x-cursor-client-type");
    reveal_strlit("x-ghost-mode");
    reveal_strlit("x-cursor-team-id");
    reveal_strlit("accept");
    reveal_strlit("content-type");
    reveal_strlit("user-agent");
    reveal_strlit("origin");
    reveal_strlit("referer");
    assert("cookie"@.len() == 6 && "accept"@.len() == 6 && "origin"@.len() == 6);
    assert("cookie"@[0] == 'c' && "accept"@[0] == 'a');
    assert("authorization"@.len() == 13);
    assert("x-cursor-team-id"@.len() == 16);
}

/// Why a response has no body to read: a failure that may pass, or a status that stands.
pub enum ResponseReadFailure {
    Transient(String),
    Terminal(u16),
}

/// Why a fetch gave no data. A transient failure keeps the binding of the attempt, so that
/// cached data of the same account may stand in.
pub enum ProviderFetchFailure {
    Transient { display: String, attempt_binding: Option<String>, diagnostic: String },
    Terminal { display: String },
}

/// What a fetch failure says.
pub ghost enum FailureModel {
    Transient { display: Seq<char>, binding: Option<Seq<char>>, diagnostic: Seq<char> },
    Terminal { display: Seq<char> },
}

impl View for ProviderFetchFailure {
    type V = FailureModel;

    open spec fn view(&self) -> FailureModel {
        match *self {
            ProviderFetchFailure::Transient { display, attempt_binding, diagnostic } =>
                FailureModel::Transient {
                display: display@,
                binding: text::opt_text(attempt_binding),
                diagnostic: diagnostic@,
            },
            ProviderFetchFailure::Terminal { display } => FailureModel::Terminal {
                display: display@,
            },
        }
    }
}

/// The application that owns a login.
pub open spec fn app_of(login: Login) -> Seq<char> {
    match login {
        Login::Desktop { .. } => "Grok Bot"@,
        Login::Cursor { .. } => "Cursor"@,
    }
}

/// What a response without a readable body means for a login.
pub open spec fn failure_of(
    failure: ResponseReadFailure,
    login: Login,
    binding: Option<Seq<char>>,
) -> FailureModel {
    match failure {
        ResponseReadFailure::Transient(diagnostic) => FailureModel::Transient {
            display: REQUEST_FAILED@,
            binding,
            diagnostic: diagnostic@,
        },
        ResponseReadFailure::Terminal(status) => if status == 401 || status == 403 {
            FailureModel::Terminal {
                display: app_of(login) + " login expired. Open "@ + app_of(login)
                    + " and sign in again, then refresh."@,
            }
        } else {
            FailureModel::Terminal {
                display: "Grok Bot usage API returned "@ + numbers::decimal_text(status as nat)
                    + "."@,
            }
        },
    }
}

pub fn response_failure(
    failure: ResponseReadFailure,
    credentials: &GrokBotCredentials,
    binding: Option<String>,
) -> (r: ProviderFetchFailure)
    ensures
        r@ == failure_of(failure, credentials@, text::opt_text(binding)),
{
    match failure {
        ResponseReadFailure::Transient(diagnostic) => ProviderFetchFailure::Transient {
            display: REQUEST_FAILED.to_owned(),
            attempt_binding: binding,
            diagnostic,
        },
        ResponseReadFailure::Terminal(status) => {
            if status == 401 || status == 403 {
                let app = match credentials {
                    GrokBotCredentials::Desktop { .. } => "Grok Bot",
                    GrokBotCredentials::Cursor(_) => "Cursor",
                };
                let expired = joined(app, " login expired. Open ");
                let named = joined(&expired, app);
                ProviderFetchFailure::Terminal {
                    display: joined(&named, " and sign in again, then refresh."),
                }
            } else {
                let returned = joined("Grok Bot usage API returned ", &decimal(status as u64));
                ProviderFetchFailure::Terminal { display: joined(&returned, ".") }
            }
        },
    }
}

/// Why the body of a response with this status is not read. Rate limits and server errors may
/// pass; any other status but a success stands.
pub open spec fn status_refuses(status: u16, diagnostic: String) -> Option<ResponseReadFailure> {
    if 200 <= status < 300 {
        None
    } else if status == 429 || status >= 500 {
        Some(ResponseReadFailure::Transient(diagnostic))
    } else {
        Some(ResponseReadFailure::Terminal(status))
    }
}

pub fn read_failure(status: u16, diagnostic: String) -> (r: Option<ResponseReadFailure>)
    ensures
        r == status_refuses(status, diagnostic),
{
    if 200 <= status && status < 300 {
        None
    } else if status == 429 || status >= 500 {
        Some(ResponseReadFailure::Transient(diagnostic))
    } else {
        Some(ResponseReadFailure::Terminal(status))
    }
}

/// What a fetch goes on with, given what loading the login gave.
pub open spec fn login_admitted(
    outcome: Option<Result<Option<GrokBotCredentials>, String>>,
    given: Result<Option<GrokBotCredentials>, ProviderFetchFailure>,
) -> bool {
    match outcome {
        None => given matches Err(failure) && failure@ == (FailureModel::Terminal {
            display: LOGIN_UNREADABLE@,
        }),
        Some(Err(message)) => given matches Err(failure) && failure@ == (FailureModel::Terminal {
            display: message@,
        }),
        Some(Ok(login)) => given == Ok::<Option<GrokBotCredentials>, ProviderFetchFailure>(login),
    }
}

/// The login that a fetch goes on with, given what loading it gave (`None` where loading did not
/// finish). `Ok(None)` where nobody is signed in.
pub fn admit_login(outcome: Option<Result<Option<GrokBotCredentials>, String>>) -> (r: Result<
    Option<GrokBotCredentials>,
    ProviderFetchFailure,
>)
    ensures
        login_admitted(outcome, r),
{
    match outcome {
        None => Err(ProviderFetchFailure::Terminal { display: LOGIN_UNREADABLE.to_owned() }),
        Some(Err(message)) => Err(ProviderFetchFailure::Terminal { display: message }),
        Some(Ok(login)) => Ok(login),
    }
}

/// A scope, or why there is none.
pub open spec fn scope_text(scope: Result<String, AccountScopeError>) -> Result<
    Seq<char>,
    AccountScopeError,
> {
    match scope {
        Ok(content) => Ok(content@),
        Err(error) => Err(error),
    }
}

/// What completing a fetch gives for the document of the response.
pub open spec fn fetch_completes<
    W,
    H: FnOnce(W, &'static str, String) -> (Result<String, AccountScopeError>, W),
>(
    login: Login,
    scope: Seq<char>,
    document: Option<json::JsonModel>,
    now: Instant,
    world: W,
    resolve: H,
    outcome: Result<GrokBotData, ProviderFetchFailure>,
    after: W,
) -> bool {
    match meter::text_meter(document, now) {
        Err(message) => {
            &&& outcome matches Err(failure) && failure@ == (FailureModel::Terminal {
                display: message,
            })
            &&& after == world
        },
        Ok(meter) => {
            &&& outcome is Ok
            &&& outcome->Ok_0.windows@.len() == 1
            &&& outcome->Ok_0.windows@[0].shows(meter, now)
            &&& outcome->Ok_0.identity_shows(meter)
            &&& scope_text(outcome->Ok_0.account_scope) == Ok::<Seq<char>, AccountScopeError>(scope)
            &&& text::opt_text(outcome->Ok_0.cache_binding) == Some(scope)
            &&& match credentials::owner_text(credentials::owner_of(login)) {
                Some(owner) => exists|provider: &'static str, written: String|
                    provider@ == PROVIDER@ && written@ == owner && #[trigger] call_ensures(
                        resolve,
                        (world, provider, written),
                        (outcome->Ok_0.history_scope, after),
                    ),
                None => after == world && outcome->Ok_0.history_scope == Err::<
                    String,
                    AccountScopeError,
                >(AccountScopeError::NoTrustedEvidence),
            }
        },
    }
}

/// Reads the body of a usage response at the moment `now` and completes the card: the account
/// scope of the request, which cached data is bound to as well, and the history scope that
/// `resolve` gives for the owner of the login. The owner is used only once the body is accepted: a
/// `W`, which cannot be copied, is handed to `resolve` and comes back untouched where it is not
/// called.
pub fn complete_fetch<
    W,
    H: FnOnce(W, &'static str, String) -> (Result<String, AccountScopeError>, W),
>(
    credentials: &GrokBotCredentials,
    scope: String,
    body: &str,
    now: Instant,
    world: W,
    resolve: H,
) -> (r: (Result<GrokBotData, ProviderFetchFailure>, W))
    requires
        forall|provider: &'static str, owner: String|
            provider@ == PROVIDER@ && credentials::owner_text(credentials::owner_of(credentials@))
                == Some(owner@) ==> #[trigger] call_requires(resolve, (world, provider, owner)),
    ensures
        fetch_completes(
            credentials@,
            scope@,
            json::json_document(body@),
            now,
            world,
            resolve,
            r.0,
            r.1,
        ),
{
    let mut data = match map_response(body, now) {
        Ok(data) => data,
        Err(message) => {
            return (Err(ProviderFetchFailure::Terminal { display: message }), world);
        },
    };
    data.cache_binding = Some(scope.clone());
    data.account_scope = Ok(scope);
    let (history_scope, after) = match credentials.history_owner() {
        Some(owner) => resolve(world, PROVIDER, owner),
        None => (Err(AccountScopeError::NoTrustedEvidence), world),
    };
    data.history_scope = history_scope;
    (Ok(data), after)
}

/// A desktop login is asked for at the desktop service, with its token as the bearer and its team in
/// decimal digits, where it has one. A Cursor login is asked for at the dashboard, with the session
/// cookie of its user and token.
pub proof fn requests_carry_their_login(
    token: Seq<char>,
    team: u64,
    user: Seq<char>,
)
    ensures
        ({
            let headers = request_headers(Login::Desktop { token, team: Some(team) });
            &&& headers.contains(("authorization"@, "Bearer "@ + token))
            &&& headers.contains(("x-cursor-team-id"@, numbers::decimal_text(team as nat)))
            &&& headers.contains(("user-agent"@, "TokenBar"@))
            &&& headers.contains(("content-type"@, "application/json"@))
            &&& headers.contains(("connect-protocol-version"@, "1"@))
            &&& headers.contains(("x-cursor-client-type"@, "sand"@))
            &&& headers.contains(("x-ghost-mode"@, "true"@))
        }),
        ({
            let headers = request_headers(Login::Desktop { token, team: None });
            &&& headers.contains(("authorization"@, "Bearer "@ + token))
            &&& !http::has_header(headers, "x-cursor-team-id"@)
        }),
        ({
            let headers = request_headers(Login::Cursor { user, token });
            &&& headers.contains(
                ("cookie"@, "WorkosCursorSessionToken="@ + user + "%3A%3A"@ + token),
            )
            &&& headers.contains(("origin"@, "https://cursor.com"@))
            &&& headers.contains(("referer"@, "https://cursor.com/dashboard"@))
            &&& headers.contains(("user-agent"@, "TokenBar"@))
            &&& headers.contains(("content-type"@, "application/json"@))
        }),
        request_url(Login::Desktop { token, team: Some(team) })
            == "https://api2.cursor.sh/aiserver.v1.DashboardService/GetSandUsageStatus"@,
        request_url(Login::Desktop { token, team: None })
            == "https://api2.cursor.sh/aiserver.v1.DashboardService/GetSandUsageStatus"@,
        request_url(Login::Cursor { user, token })
            == "https://cursor.com/api/dashboard/get-sand-usage-status"@,
{
    reveal_header_names();
    reveal_strlit("x-cursor-team-id");
    reveal_strlit("authorization");
    reveal_strlit("connect-protocol-version");
    reveal_strlit("x-cursor-client-type");
    reveal_strlit("x-ghost-mode");
    reveal_strlit("accept");
    reveal_strlit("content-type");
    reveal_strlit("user-agent");
    assert("x-cursor-team-id"@.len() == 16);
    assert("authorization"@.len() == 13 && "connect-protocol-version"@.len() == 24);
    assert("x-cursor-client-type"@.len() == 20 && "x-ghost-mode"@.len() == 12);
    assert("accept"@.len() == 6 && "content-type"@.len() == 12 && "user-agent"@.len() == 10);
    let with_team = request_headers(Login::Desktop { token, team: Some(team) });
    assert(with_team[0] == ("authorization"@, "Bearer "@ + token));
    assert(with_team[1] == ("connect-protocol-version"@, "1"@));
    assert(with_team[2] == ("x-cursor-client-type"@, "sand"@));
    assert(with_team[3] == ("x-ghost-mode"@, "true"@));
    assert(with_team[4] == ("x-cursor-team-id"@, numbers::decimal_text(team as nat)));
    assert(with_team[6] == ("content-type"@, "application/json"@));
    assert(with_team[7] == ("user-agent"@, "TokenBar"@));
    let without = request_headers(Login::Desktop { token, team: None });
    assert(without[0] == ("authorization"@, "Bearer "@ + token));
    let cursor = request_headers(Login::Cursor { user, token });
    assert(cursor[0] == ("origin"@, "https://cursor.com"@));
    assert(cursor[1] == ("referer"@, "https://cursor.com/dashboard"@));
    assert(cursor[2] == ("cookie"@, "WorkosCursorSessionToken="@ + user + "%3A%3A"@ + token));
    assert(cursor[4] == ("content-type"@, "application/json"@));
    assert(cursor[5] == ("user-agent"@, "TokenBar"@));
}

/// A body is read exactly for the statuses of success. Of the others, rate limits and faults of the
/// service may pass, and any other stands.
pub proof fn only_successes_are_read(status: u16, diagnostic: String)
    ensures
        status_refuses(status, diagnostic) is None <==> 200 <= status <= 299,
        status_refuses(status, diagnostic) == Some(ResponseReadFailure::Transient(diagnostic))
            <==> status == 429 || status >= 500,
        status_refuses(status, diagnostic) == Some(ResponseReadFailure::Terminal(status)) <==> !(200
            <= status <= 299) && status != 429 && status < 500,
{
}

/// A failure that may pass keeps the binding of the attempt and what was found out; a status that
/// stands never does. An expired login names the application to open, any other status its number.
pub proof fn failures_say_what_to_do(
    diagnostic: String,
    status: u16,
    token: Seq<char>,
    team: Option<u64>,
    user: Seq<char>,
    binding: Option<Seq<char>>,
)
    ensures
        failure_of(
            ResponseReadFailure::Transient(diagnostic),
            Login::Desktop { token, team },
            binding,
        ) == (FailureModel::Transient {
            display: "Grok Bot usage request failed. Retrying automatically."@,
            binding,
            diagnostic: diagnostic@,
        }),
        failure_of(
            ResponseReadFailure::Transient(diagnostic),
            Login::Cursor { user, token },
            binding,
        ) == (FailureModel::Transient {
            display: "Grok Bot usage request failed. Retrying automatically."@,
            binding,
            diagnostic: diagnostic@,
        }),
        status == 401 || status == 403 ==> failure_of(
            ResponseReadFailure::Terminal(status),
            Login::Desktop { token, team },
            binding,
        ) == (FailureModel::Terminal {
            display: "Grok Bot"@ + " login expired. Open "@ + "Grok Bot"@
                + " and sign in again, then refresh."@,
        }),
        status == 401 || status == 403 ==> failure_of(
            ResponseReadFailure::Terminal(status),
            Login::Cursor { user, token },
            binding,
        ) == (FailureModel::Terminal {
            display: "Cursor"@ + " login expired. Open "@ + "Cursor"@
                + " and sign in again, then refresh."@,
        }),
        status != 401 && status != 403 ==> failure_of(
            ResponseReadFailure::Terminal(status),
            Login::Desktop { token, team },
            binding,
        ) == (FailureModel::Terminal {
            display: "Grok Bot usage API returned "@ + numbers::decimal_text(status as nat) + "."@,
        }) && failure_of(
            ResponseReadFailure::Terminal(status),
            Login::Cursor { user, token },
            binding,
        ) == (FailureModel::Terminal {
            display: "Grok Bot usage API returned "@ + numbers::decimal_text(status as nat) + "."@,
        }),
{
}

/// A login that could not be loaded ends the fetch with the reason, one that was loaded is what the
/// fetch goes on with, and without one there is nothing to fetch.
pub proof fn loaded_logins_are_gone_on_with(
    login: Option<GrokBotCredentials>,
    message: String,
    given: Result<Option<GrokBotCredentials>, ProviderFetchFailure>,
)
    ensures
        login_admitted(Some(Ok(login)), given) ==> given == Ok::<
            Option<GrokBotCredentials>,
            ProviderFetchFailure,
        >(login),
        login_admitted(Some(Err(message)), given) ==> (given matches Err(failure) && failure@ == (
        FailureModel::Terminal { display: message@ })),
        login_admitted(None, given) ==> (given matches Err(failure) && failure@ == (
        FailureModel::Terminal { display: "Could not read the Grok Bot login."@ })),
{
}

/// A completed card shows what the response says, and is bound to the scope of the account that it
/// was asked for with. Its history belongs to what `resolve` gives for the owner, and to nobody
/// where the owner is not known. A refused response gives no card and asks for no owner.
pub proof fn completed_cards_belong_to_their_account<
    W,
    H: FnOnce(W, &'static str, String) -> (Result<String, AccountScopeError>, W),
>(
    login: Login,
    scope: Seq<char>,
    doc: json::JsonModel,
    now: Instant,
    world: W,
    resolve: H,
    outcome: Result<GrokBotData, ProviderFetchFailure>,
    after: W,
    mapped: Result<GrokBotData, String>,
    resolved: Result<String, AccountScopeError>,
)
    requires
        fetch_completes(login, scope, Some(doc), now, world, resolve, outcome, after),
        meter::maps_to(mapped, meter::meter(doc, now), now),
    ensures
        mapped is Ok ==> {
            &&& outcome is Ok
            &&& outcome->Ok_0.windows@.len() == 1
            &&& outcome->Ok_0.windows@[0].used_percent == mapped->Ok_0.windows@[0].used_percent
            &&& outcome->Ok_0.windows@[0].resets_at == mapped->Ok_0.windows@[0].resets_at
            &&& outcome->Ok_0.windows@[0].observed_at == now
            &&& outcome->Ok_0.windows@[0].duration == mapped->Ok_0.windows@[0].duration
            &&& outcome->Ok_0.account_scope matches Ok(held) && held@ == scope
            &&& outcome->Ok_0.cache_binding matches Some(held) && held@ == scope
        },
        mapped is Ok && credentials::owner_of(login) is None ==> outcome->Ok_0.history_scope is Err
            && after == world,
        mapped is Ok && (credentials::owner_of(login) matches Some(owner) && (forall|
            provider: &'static str,
            written: String,
            given: Result<String, AccountScopeError>,
            done: W,
        |
            provider@ == "grok-bot"@ && written@ == json::pair_text(owner.0, owner.1) && #[trigger]
                call_ensures(resolve, (world, provider, written), (given, done)) ==> given
                == resolved)) ==> outcome->Ok_0.history_scope == resolved,
        mapped matches Err(message) ==> (outcome matches Err(failure) && failure@ == (
        FailureModel::Terminal { display: message@ })) && after == world,
{
}

} // verus!
