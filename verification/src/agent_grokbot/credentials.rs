//! The login that a usage request is made with, and what identifies it.

use vstd::prelude::*;
use vstd::string::*;
use crate::encoding::{self, decode_url_safe, from_utf8};
use crate::json::{self, parse_json, write_pair, write_text_pair, Json, JsonModel};
use crate::paths::SourcePath;
use crate::text::{self, chars_of, split, trim, trim_trailing};

verus! {

pub const PROVIDER: &'static str = "grok-bot";

pub const DESKTOP_SOURCE: &'static str = "grok-bot-desktop";

pub const CURSOR_SOURCE: &'static str = "grok-bot-cursor-dashboard";

pub struct CursorCredentials {
    pub user_id: String,
    pub access_token: String,
}

pub enum GrokBotCredentials {
    Desktop { access_token: String, team_id: Option<u64> },
    Cursor(CursorCredentials),
}

/// What a login consists of.
pub ghost enum Login {
    Desktop { token: Seq<char>, team: Option<u64> },
    Cursor { user: Seq<char>, token: Seq<char> },
}

impl View for CursorCredentials {
    type V = Login;

    open spec fn view(&self) -> Login {
        Login::Cursor { user: self.user_id@, token: self.access_token@ }
    }
}

impl View for GrokBotCredentials {
    type V = Login;

    open spec fn view(&self) -> Login {
        match *self {
            GrokBotCredentials::Desktop { access_token, team_id } => Login::Desktop {
                token: access_token@,
                team: team_id,
            },
            GrokBotCredentials::Cursor(credentials) => credentials@,
        }
    }
}

/// The store that a login comes from.
pub open spec fn source_of(login: Login) -> Seq<char> {
    match login {
        Login::Desktop { .. } => DESKTOP_SOURCE@,
        Login::Cursor { .. } => CURSOR_SOURCE@,
    }
}

/// The text that binds a cache entry to the exact request credential and account selector.
pub open spec fn marker_of(login: Login) -> Seq<char> {
    match login {
        Login::Desktop { token, team } => json::pair_text(token, team),
        Login::Cursor { user, token } => json::text_pair_text(user, token),
    }
}

/// Whether a text is a marker from which the login can be read back.
pub open spec fn marks(written: Seq<char>, login: Login) -> bool {
    match login {
        Login::Desktop { token, team } => json::reads_as_pair(written, token, team),
        Login::Cursor { user, token } => json::json_document(written) == Some(
            JsonModel::Array(seq![JsonModel::Text(user), JsonModel::Text(token)]),
        ),
    }
}

/// The subject that the claims of a token name, without white space around it.
pub open spec fn claimed_subject(claims: JsonModel) -> Option<Seq<char>> {
    match json::as_text(json::get(claims, "sub"@)) {
        Some(subject) => if text::trimmed(subject).len() > 0 {
            Some(text::trimmed(subject))
        } else {
            None
        },
        None => None,
    }
}

/// The second part of a token, without the padding at its end.
pub open spec fn token_payload(token: Seq<char>) -> Option<Seq<char>> {
    let pieces = text::split_on(token, '.');
    if pieces.len() < 2 {
        None
    } else {
        Some(text::without_trailing(pieces[1], '='))
    }
}

/// The claims that the payload of a token holds.
pub open spec fn payload_claims(payload: Seq<char>) -> Option<JsonModel> {
    match encoding::url_safe_bytes(payload) {
        Some(bytes) => match encoding::utf8_text(bytes) {
            Some(content) => json::json_document(content),
            None => None,
        },
        None => None,
    }
}

/// The subject of a token: the owner that its payload names.
pub open spec fn token_subject(token: Seq<char>) -> Option<Seq<char>> {
    match token_payload(token) {
        Some(payload) => match payload_claims(payload) {
            Some(claims) => claimed_subject(claims),
            None => None,
        },
        None => None,
    }
}

/// The owner and the team that durable history belongs to, when the owner is known.
pub open spec fn owner_of(login: Login) -> Option<(Seq<char>, Option<u64>)> {
    match login {
        Login::Desktop { token, team } => match token_subject(token) {
            Some(subject) => Some((subject, team)),
            None => None,
        },
        Login::Cursor { user, .. } => Some((user, None)),
    }
}

/// The text under which history is kept for an owner.
pub open spec fn owner_text(owner: Option<(Seq<char>, Option<u64>)>) -> Option<Seq<char>> {
    match owner {
        Some((name, team)) => Some(json::pair_text(name, team)),
        None => None,
    }
}

/// The subject that a set of claims names.
pub fn subject_of_claims(claims: &Json) -> (r: Option<String>)
    ensures
        text::opt_text(r) == claimed_subject(claims@),
{
    match claims.get_text("sub") {
        Some(subject) => {
            let name = trim(subject);
            if chars_of(&name).len() > 0 {
                Some(name)
            } else {
                None
            }
        },
        None => None,
    }
}

/// The subject that an access token names, if it is a token with claims.
pub fn subject_of_token(token: &str) -> (r: Option<String>)
    ensures
        text::opt_text(r) == token_subject(token@),
{
    let pieces = split(token, '.');
    assert(text::texts(pieces@).len() == pieces@.len());
    if pieces.len() < 2 {
        return None;
    }
    assert(text::texts(pieces@)[1] == pieces@[1]@);
    let payload = trim_trailing(&pieces[1], '=');
    match decode_url_safe(&payload) {
        Some(bytes) => match from_utf8(bytes) {
            Ok(content) => match parse_json(&content) {
                Some(claims) => subject_of_claims(&claims),
                None => None,
            },
            Err(_) => None,
        },
        None => None,
    }
}

/// The file of the store that a login comes from.
pub open spec fn store_of(login: Login, desktop_store: Seq<u8>, cursor_store: Seq<u8>) -> Seq<u8> {
    match login {
        Login::Desktop { .. } => desktop_store,
        Login::Cursor { .. } => cursor_store,
    }
}

/// What resolving the scope of an account gives: the first of `locate` and `resolve` that fails
/// decides.
pub open spec fn scope_resolves<
    L,
    S,
    E,
    F: FnOnce(SourcePath) -> Result<L, E>,
    H: FnOnce(&'static str, &'static str, L, String) -> Result<S, E>,
>(
    login: Login,
    desktop_store: Seq<u8>,
    cursor_store: Seq<u8>,
    locate: F,
    resolve: H,
    outcome: Result<S, E>,
) -> bool {
    exists|store: SourcePath, found: Result<L, E>|
        #![trigger call_ensures(locate, (store,), found)]
        {
            &&& store@ == store_of(login, desktop_store, cursor_store)
            &&& call_ensures(locate, (store,), found)
            &&& match found {
                Err(error) => outcome == Err::<S, E>(error),
                Ok(location) => exists|provider: &'static str, source: &'static str, marker: String|
                    #![trigger call_ensures(resolve, (provider, source, location, marker), outcome)]
                    {
                        &&& provider@ == PROVIDER@
                        &&& source@ == source_of(login)
                        &&& marker@ == marker_of(login)
                        &&& marks(marker@, login)
                        &&& call_ensures(resolve, (provider, source, location, marker), outcome)
                    },
            }
        }
}

impl GrokBotCredentials {
    /// What binds cached usage to this login: its store, the file of that store, and a marker
    /// that differs for every credential and account selector.
    pub fn scope_material(&self, desktop_store: &SourcePath, cursor_store: &SourcePath) -> (r: (
        &'static str,
        SourcePath,
        String,
    ))
        ensures
            r.0@ == source_of(self@),
            r.1@ == store_of(self@, desktop_store@, cursor_store@),
            r.2@ == marker_of(self@),
            marks(r.2@, self@),
    {
        match self {
            GrokBotCredentials::Desktop { access_token, team_id } => (
                DESKTOP_SOURCE,
                desktop_store.copy(),
                write_pair(access_token, *team_id),
            ),
            GrokBotCredentials::Cursor(credentials) => (
                CURSOR_SOURCE,
                cursor_store.copy(),
                write_text_pair(&credentials.user_id, &credentials.access_token),
            ),
        }
    }

    /// The scope of the account: `locate` finds the file of the store, `resolve` turns provider,
    /// source, location and marker into a scope. The first of them that fails decides.
    pub fn resolve_account_scope<L, S, E>(
        &self,
        desktop_store: &SourcePath,
        cursor_store: &SourcePath,
        locate: impl FnOnce(SourcePath) -> Result<L, E>,
        resolve: impl FnOnce(&'static str, &'static str, L, String) -> Result<S, E>,
    ) -> (r: Result<S, E>)
        requires
            forall|store: SourcePath|
                store@ == store_of(self@, desktop_store@, cursor_store@) ==> #[trigger]
                    call_requires(locate, (store,)),
            forall|
                store: SourcePath,
                provider: &'static str,
                source: &'static str,
                location: L,
                marker: String,
            |
                #![trigger call_ensures(locate, (store,), Ok(location)), call_requires(resolve, (provider, source, location, marker))]
                {
                    &&& store@ == store_of(self@, desktop_store@, cursor_store@)
                    &&& call_ensures(locate, (store,), Ok(location))
                    &&& provider@ == PROVIDER@
                    &&& source@ == source_of(self@)
                    &&& marker@ == marker_of(self@)
                } ==> call_requires(resolve, (provider, source, location, marker)),
        ensures
            scope_resolves(self@, desktop_store@, cursor_store@, locate, resolve, r),
    {
        let (source, store, marker) = self.scope_material(desktop_store, cursor_store);
        let ghost at = store;
        let found = locate(store);
        assert(call_ensures(locate, (at,), found));
        match found {
            Ok(location) => resolve(PROVIDER, source, location, marker),
            Err(error) => Err(error),
        }
    }

    /// The owner of durable history: the subject of a desktop token with its team, or the Cursor
    /// user. `None` where the token does not name its owner.
    pub fn history_owner(&self) -> (r: Option<String>)
        ensures
            text::opt_text(r) == owner_text(owner_of(self@)),
            r matches Some(written) ==> json::reads_as_pair(
                written@,
                owner_of(self@)->Some_0.0,
                owner_of(self@)->Some_0.1,
            ),
    {
        match self {
            GrokBotCredentials::Desktop { access_token, team_id } => match subject_of_token(
                access_token,
            ) {
                Some(subject) => Some(write_pair(&subject, *team_id)),
                None => None,
            },
            GrokBotCredentials::Cursor(credentials) => Some(write_pair(&credentials.user_id, None)),
        }
    }
}

/// A cache marker belongs to one login of its store: another credential, user or team has
/// another marker.
pub proof fn markers_bind_the_exact_login(written: Seq<char>, login: Login, other: Login)
    requires
        marks(written, login),
        marks(written, other),
        source_of(login) == source_of(other),
    ensures
        login == other,
{
    reveal_strlit("grok-bot-desktop");
    reveal_strlit("grok-bot-cursor-dashboard");
    match (login, other) {
        (Login::Cursor { user, token }, Login::Cursor { user: user2, token: token2 }) => {
            let a = seq![JsonModel::Text(user), JsonModel::Text(token)];
            let b = seq![JsonModel::Text(user2), JsonModel::Text(token2)];
            assert(a == b);
            assert(a[0] == b[0] && a[1] == b[1]);
        },
        _ => {},
    }
}

/// Rotating a token does not split history: the same subject and team are the same owner.
pub proof fn history_survives_token_rotation(
    token: Seq<char>,
    rotated: Seq<char>,
    team: Option<u64>,
)
    requires
        token_subject(token) == token_subject(rotated),
    ensures
        owner_text(owner_of(Login::Desktop { token, team })) == owner_text(
            owner_of(Login::Desktop { token: rotated, team }),
        ),
{
}

/// History is not shared between owners or teams: one text is kept for one owner and team.
pub proof fn history_is_kept_apart(
    written: Seq<char>,
    owner: (Seq<char>, Option<u64>),
    other: (Seq<char>, Option<u64>),
)
    requires
        json::reads_as_pair(written, owner.0, owner.1),
        json::reads_as_pair(written, other.0, other.1),
    ensures
        owner == other,
{
}

/// The subject of a token is what its payload names: the part between the first two dots, without
/// the padding at its end, decoded. A token without a dot has none.
pub proof fn tokens_name_their_subject(
    head: Seq<char>,
    body: Seq<char>,
    padding: nat,
    tail: Seq<char>,
    token: Seq<char>,
    bytes: Seq<u8>,
    claims: JsonModel,
    subject: Seq<char>,
)
    requires
        !head.contains('.'),
        !body.contains('.'),
        body.len() > 0 ==> body.last() != '=',
        token == head.push('.') + ((body + Seq::new(padding, |i: int| '=')).push('.') + tail),
        encoding::url_safe_bytes(body) == Some(bytes),
        encoding::utf8_text(bytes) is Some,
        json::json_document(encoding::utf8_text(bytes)->Some_0) == Some(claims),
    ensures
        json::get(claims, "sub"@) == Some(JsonModel::Text(subject)) ==> token_subject(token) == (
        if text::trimmed(subject).len() > 0 {
            Some(text::trimmed(subject))
        } else {
            None
        }),
        json::get(claims, "sub"@) is None ==> token_subject(token) is None,
        token_subject(head) is None,
{
    let padded = body + Seq::new(padding, |i: int| '=');
    let rest = padded.push('.') + tail;
    assert(!padded.contains('.')) by {
        if padded.contains('.') {
            let i = choose|i: int| 0 <= i < padded.len() && padded[i] == '.';
            if i < body.len() {
                assert(body[i] == '.');
                assert(body.contains('.'));
            }
        }
    }
    lemma_first_piece(head, rest);
    lemma_first_piece(padded, tail);
    let pieces = text::split_on(token, '.');
    assert(pieces[1] == text::split_on(rest, '.')[0]);
    text::trailing_runs_come_off(body, '=', padding);
    assert(text::split_on(head, '.') =~= seq![head]);
}

proof fn lemma_first_piece(head: Seq<char>, rest: Seq<char>)
    requires
        !head.contains('.'),
    ensures
        text::split_on(head.push('.') + rest, '.') == seq![head] + text::split_on(rest, '.'),
        text::split_on(rest, '.').len() >= 1,
{
    let s = head.push('.') + rest;
    assert(s[head.len() as int] == '.');
    s.index_of_first_ensures('.');
    let at = s.index_of_first('.')->Some_0;
    if at < head.len() {
        assert(head[at] == '.');
        assert(head.contains('.'));
    }
    if head.len() < at {
        assert(s[head.len() as int] != '.');
    }
    assert(at == head.len());
    assert(s.take(at) =~= head);
    assert(s.skip(at + 1) =~= rest);
    text::splitting_loses_nothing(rest, '.');
}

/// Durable history belongs to the subject of a desktop token with its team, or to the Cursor user
/// alone. A token that names nobody owns none.
pub proof fn history_belongs_to_the_owner(
    token: Seq<char>,
    team: Option<u64>,
    user: Seq<char>,
    subject: Seq<char>,
)
    ensures
        token_subject(token) == Some(subject) ==> owner_text(
            owner_of(Login::Desktop { token, team }),
        ) == Some(json::pair_text(subject, team)) && owner_of(Login::Desktop { token, team })
            == Some((subject, team)),
        token_subject(token) is None ==> owner_text(owner_of(Login::Desktop { token, team }))
            is None,
        owner_text(owner_of(Login::Cursor { user, token })) == Some(json::pair_text(user, None)),
        owner_of(Login::Cursor { user, token }) == Some((user, None::<u64>)),
{
}

/// A cache marker is made of the credential and the account selector of its login, under the name
/// of its store, and stands with the file of that store.
pub proof fn markers_are_made_of_the_login(
    token: Seq<char>,
    team: Option<u64>,
    user: Seq<char>,
    desktop_store: Seq<u8>,
    cursor_store: Seq<u8>,
)
    ensures
        marker_of(Login::Desktop { token, team }) == json::pair_text(token, team),
        marker_of(Login::Cursor { user, token }) == json::text_pair_text(user, token),
        source_of(Login::Desktop { token, team }) == "grok-bot-desktop"@,
        source_of(Login::Cursor { user, token }) == "grok-bot-cursor-dashboard"@,
        store_of(Login::Desktop { token, team }, desktop_store, cursor_store) == desktop_store,
        store_of(Login::Cursor { user, token }, desktop_store, cursor_store) == cursor_store,
{
}

/// The scope of an account is what `resolve` gives for its login, asked under the name of the
/// provider with the marker of that login and the place of its store. A store that cannot be located
/// is the answer itself.
pub proof fn scopes_are_those_of_their_login<
    L,
    S,
    E,
    F: FnOnce(SourcePath) -> Result<L, E>,
    H: FnOnce(&'static str, &'static str, L, String) -> Result<S, E>,
>(
    login: Login,
    desktop_store: Seq<u8>,
    cursor_store: Seq<u8>,
    locate: F,
    resolve: H,
    outcome: Result<S, E>,
    location: L,
    error: E,
    expected: Result<S, E>,
)
    requires
        scope_resolves(login, desktop_store, cursor_store, locate, resolve, outcome),
    ensures
        (forall|store: SourcePath, found: Result<L, E>| #[trigger]
            call_ensures(locate, (store,), found) ==> found == Err::<L, E>(error)) ==> outcome
            == Err::<S, E>(error),
        (forall|store: SourcePath, found: Result<L, E>|
            store@ == (match login {
                Login::Desktop { .. } => desktop_store,
                Login::Cursor { .. } => cursor_store,
            }) && #[trigger] call_ensures(locate, (store,), found) ==> found == Ok::<L, E>(
                location,
            )) && (forall|
            provider: &'static str,
            source: &'static str,
            marker: String,
            given: Result<S, E>,
        |
            provider@ == "grok-bot"@ && source@ == (match login {
                Login::Desktop { .. } => "grok-bot-desktop"@,
                Login::Cursor { .. } => "grok-bot-cursor-dashboard"@,
            }) && marker@ == (match login {
                Login::Desktop { token, team } => json::pair_text(token, team),
                Login::Cursor { user, token } => json::text_pair_text(user, token),
            }) && #[trigger] call_ensures(resolve, (provider, source, location, marker), given)
                ==> given == expected) ==> outcome == expected,
{
}

} // verus!
