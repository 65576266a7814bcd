//! Reading a login out of the desktop store or the Cursor database.

use vstd::prelude::*;
use vstd::string::*;
use vstd::utf8::*;
use crate::agent_grokbot::credentials::{CursorCredentials, GrokBotCredentials, Login};
use crate::encoding::{self, decode_standard, from_utf8};
use crate::json::{self, parse_json, Json, JsonModel};
use crate::numbers::{self, parse_u64};
use crate::paths::{self, SourcePath};
use crate::text::{
    self, chars_of, find, is_ascii_alphanumeric, is_ascii_hex_digit, joined, same_text, split_once,
    strip_prefix, text_between,
};

verus! {

/// The login is there, but the user has not agreed to a Keychain read for it.
pub const GROK_BOT_KEYCHAIN_CONSENT_REQUIRED: &'static str =
    "TokenBar needs your permission to read the Grok Bot login from Keychain.";

pub const UNREADABLE_STORE: &'static str =
    "Could not read Grok Bot login data. Open Grok Bot, then refresh.";

pub const INVALID_STORE: &'static str =
    "Grok Bot login data is invalid. Open Grok Bot and sign in again.";

pub const UNDECODABLE_SECRET: &'static str =
    "Grok Bot login data could not be decoded. Open Grok Bot and sign in again.";

pub const UNREADABLE_DATABASE: &'static str = "Could not read the Cursor login database.";

/// What reading the desktop store file gave.
pub enum DesktopFile {
    Missing,
    Unreadable,
    Contents(String),
}

/// What reading the Cursor database gave: the rows of key and value, where it is there.
pub enum CursorDatabase {
    Missing,
    Unreadable,
    Rows(Vec<(String, String)>),
}

/// The text or the message that a result holds.
pub open spec fn said(outcome: Result<String, String>) -> Result<Seq<char>, Seq<char>> {
    match outcome {
        Ok(content) => Ok(content@),
        Err(message) => Err(message@),
    }
}

/// The login or the message that a result holds.
pub open spec fn loaded(outcome: Result<Option<GrokBotCredentials>, String>) -> Result<
    Option<Login>,
    Seq<char>,
> {
    match outcome {
        Ok(Some(credentials)) => Ok(Some(credentials@)),
        Ok(None) => Ok(None),
        Err(message) => Err(message@),
    }
}

/// The login or the message that reading the Cursor database gave.
pub open spec fn cursor_loaded(outcome: Result<Option<CursorCredentials>, String>) -> Result<
    Option<Login>,
    Seq<char>,
> {
    match outcome {
        Ok(Some(credentials)) => Ok(Some(credentials@)),
        Ok(None) => Ok(None),
        Err(message) => Err(message@),
    }
}

/// How a stored secret is kept.
pub ghost enum SecretForm {
    Malformed,
    Plain(Seq<char>),
    Sealed(Seq<u8>),
}

/// The scope of a sealed secret: sixty-four hexadecimal digits.
pub open spec fn secret_scope(s: Seq<char>) -> bool {
    s.len() == 64 && forall|i: int| 0 <= i < s.len() ==> text::ascii_hex_digit(#[trigger] s[i])
}

pub open spec fn sealed_form(encoded: Seq<char>) -> SecretForm {
    match encoding::standard_bytes(encoded) {
        Some(bytes) => SecretForm::Sealed(bytes),
        None => SecretForm::Malformed,
    }
}

pub open spec fn plain_form(encoded: Seq<char>) -> SecretForm {
    match encoding::standard_bytes(encoded) {
        Some(bytes) => match encoding::utf8_text(bytes) {
            Some(content) => SecretForm::Plain(content),
            None => SecretForm::Malformed,
        },
        None => SecretForm::Malformed,
    }
}

/// How a stored secret is kept: in the plain after `plaintext:v1:`, else sealed, with or without
/// a scope in front.
pub open spec fn secret_form(stored: Seq<char>) -> SecretForm {
    match text::after_prefix(stored, "plaintext:v1:"@) {
        Some(encoded) => plain_form(encoded),
        None => match text::after_prefix(stored, "scoped:v1:"@) {
            Some(scoped) => match text::parted_at(scoped, ':') {
                Some((scope, encoded)) => if secret_scope(scope) {
                    sealed_form(encoded)
                } else {
                    SecretForm::Malformed
                },
                None => SecretForm::Malformed,
            },
            None => sealed_form(stored),
        },
    }
}

/// What opening a secret may give, and what becomes of the Keychain session: for a sealed one
/// `consent` is asked once, and only after its yes `decrypt` is called, once and on the sealed
/// bytes. The other forms leave the session alone.
pub open spec fn secret_opens<
    K,
    C: Fn(K) -> (bool, K),
    D: Fn(K, &[u8]) -> (Result<String, String>, K),
>(
    form: SecretForm,
    consent: C,
    decrypt: D,
    before: K,
    outcome: Result<Seq<char>, Seq<char>>,
    after: K,
) -> bool {
    match form {
        SecretForm::Malformed => after == before && outcome == Err::<Seq<char>, Seq<char>>(
            UNDECODABLE_SECRET@,
        ),
        SecretForm::Plain(content) => after == before && outcome == Ok::<Seq<char>, Seq<char>>(
            content,
        ),
        SecretForm::Sealed(bytes) => {
            ||| call_ensures(consent, (before,), (false, after)) && outcome == Err::<
                Seq<char>,
                Seq<char>,
            >(GROK_BOT_KEYCHAIN_CONSENT_REQUIRED@)
            ||| exists|asked: K, data: &[u8], opened: Result<String, String>|
                {
                    &&& call_ensures(consent, (before,), (true, asked))
                    &&& data@ == bytes
                    &&& #[trigger] call_ensures(decrypt, (asked, data), (opened, after))
                    &&& said(opened) == outcome
                }
        },
    }
}

/// That the calls which opening a secret may make are allowed: asking, for a sealed one, and
/// after a yes the decryption of its bytes. The other forms need no call.
pub open spec fn secret_calls<
    K,
    C: Fn(K) -> (bool, K),
    D: Fn(K, &[u8]) -> (Result<String, String>, K),
>(form: SecretForm, consent: C, decrypt: D, before: K) -> bool {
    match form {
        SecretForm::Sealed(bytes) => {
            &&& call_requires(consent, (before,))
            &&& forall|asked: K, data: &[u8]|
                call_ensures(consent, (before,), (true, asked)) && data@ == bytes
                    ==> #[trigger] call_requires(decrypt, (asked, data))
        },
        _ => true,
    }
}

fn is_secret_scope(scope: &str) -> (r: bool)
    ensures
        r == secret_scope(scope@),
{
    let chars = chars_of(scope);
    if chars.len() != 64 {
        return false;
    }
    let mut i: usize = 0;
    while i < chars.len()
        invariant
            i <= chars@.len(),
            chars@ == scope@,
            forall|j: int| 0 <= j < i ==> text::ascii_hex_digit(#[trigger] chars@[j]),
        decreases chars@.len() - i,
    {
        if !is_ascii_hex_digit(chars[i]) {
            return false;
        }
        i += 1;
    }
    true
}

/// Opens a stored secret. Only a sealed one is asked `consent` for, right before `decrypt`, and
/// without a yes `decrypt` is not called. A session `K`, which cannot be copied, is handed from
/// each call to the next, so that the contract fixes which calls are made, how often and in which
/// order.
pub fn decode_desktop_secret<
    K,
    C: Fn(K) -> (bool, K),
    D: Fn(K, &[u8]) -> (Result<String, String>, K),
>(stored: &str, session: K, consent: &C, decrypt: &D) -> (r: (Result<String, String>, K))
    requires
        secret_calls(secret_form(stored@), *consent, *decrypt, session),
    ensures
        secret_opens(secret_form(stored@), *consent, *decrypt, session, said(r.0), r.1),
{
    if let Some(encoded) = strip_prefix(stored, "plaintext:v1:") {
        return match decode_standard(&encoded) {
            Some(bytes) => match from_utf8(bytes) {
                Ok(content) => (Ok(content), session),
                Err(_) => (Err(UNDECODABLE_SECRET.to_owned()), session),
            },
            None => (Err(UNDECODABLE_SECRET.to_owned()), session),
        };
    }
    let encoded = match strip_prefix(stored, "scoped:v1:") {
        Some(scoped) => match split_once(&scoped, ':') {
            Some((scope, encoded)) => {
                if !is_secret_scope(&scope) {
                    return (Err(UNDECODABLE_SECRET.to_owned()), session);
                }
                encoded
            },
            None => return (Err(UNDECODABLE_SECRET.to_owned()), session),
        },
        None => stored.to_owned(),
    };
    let ciphertext = match decode_standard(&encoded) {
        Some(bytes) => bytes,
        None => return (Err(UNDECODABLE_SECRET.to_owned()), session),
    };
    let (allowed, asked) = consent(session);
    if !allowed {
        return (Err(GROK_BOT_KEYCHAIN_CONSENT_REQUIRED.to_owned()), asked);
    }
    decrypt(asked, ciphertext.as_slice())
}

/// The login that a store holds.
pub ghost enum Selection {
    Malformed,
    SignedOut,
    Found(JsonModel),
}

/// The active account of an account map.
pub open spec fn active_account(record: JsonModel) -> Selection {
    match json::get(record, "accounts"@) {
        Some(JsonModel::Object(accounts)) => match json::get(record, "active"@) {
            Some(JsonModel::Null) => Selection::SignedOut,
            Some(JsonModel::Text(id)) => match json::member(accounts, id) {
                Some(account) => if account is Object {
                    Selection::Found(account)
                } else {
                    Selection::Malformed
                },
                None => Selection::Malformed,
            },
            _ => Selection::Malformed,
        },
        _ => Selection::Malformed,
    }
}

/// The login of a store document: that of the active account where there is an account map, the
/// top-level one only where there is none.
pub open spec fn selected_login(root: JsonModel) -> Selection {
    if !(root is Object) {
        Selection::Malformed
    } else {
        match json::get(root, "cursor-accounts"@) {
            Some(JsonModel::Text(encoded)) => match json::json_document(encoded) {
                Some(record) => active_account(record),
                None => Selection::Malformed,
            },
            Some(_) => Selection::Malformed,
            None => Selection::Found(root),
        }
    }
}

/// The selection that a result of the executable functions below stands for.
pub open spec fn selection(outcome: Result<Option<&Json>, ()>) -> Selection {
    match outcome {
        Ok(Some(login)) => Selection::Found(login@),
        Ok(None) => Selection::SignedOut,
        Err(_) => Selection::Malformed,
    }
}

/// The active account of an account map: `Ok(None)` where nobody is signed in.
pub fn active_account_of(record: &Json) -> (r: Result<Option<&Json>, ()>)
    ensures
        selection(r) == active_account(record@),
{
    let accounts = match record.get("accounts") {
        Some(accounts) => accounts,
        None => return Err(()),
    };
    if !accounts.is_object() {
        return Err(());
    }
    match record.get("active") {
        Some(Json::Null) => Ok(None),
        Some(Json::Text(id)) => match accounts.get(id) {
            Some(account) => if account.is_object() {
                Ok(Some(account))
            } else {
                Err(())
            },
            None => Err(()),
        },
        _ => Err(()),
    }
}

/// A team id: a positive number of 64 bits.
pub open spec fn team_number(digits: Seq<char>) -> Option<u64> {
    match numbers::unsigned_of(digits) {
        Some(n) => if 0 < n <= u64::MAX {
            Some(n as u64)
        } else {
            None
        },
        None => None,
    }
}

/// What the team of a login may give, for a token that was opened. A sealed team is asked for
/// anew, after the token.
pub open spec fn team_opens<
    K,
    C: Fn(K) -> (bool, K),
    D: Fn(K, &[u8]) -> (Result<String, String>, K),
>(
    login: JsonModel,
    token: Seq<char>,
    consent: C,
    decrypt: D,
    before: K,
    outcome: Result<Option<Login>, Seq<char>>,
    after: K,
) -> bool {
    match json::get(login, "cursor-selected-team-id"@) {
        None => after == before && outcome == Ok::<Option<Login>, Seq<char>>(
            Some(Login::Desktop { token, team: None }),
        ),
        Some(JsonModel::Text(stored)) => exists|opened: Result<Seq<char>, Seq<char>>|
            {
                &&& #[trigger] secret_opens(
                    secret_form(stored),
                    consent,
                    decrypt,
                    before,
                    opened,
                    after,
                )
                &&& match opened {
                    Err(message) => outcome == Err::<Option<Login>, Seq<char>>(message),
                    Ok(digits) => match team_number(digits) {
                        Some(team) => outcome == Ok::<Option<Login>, Seq<char>>(
                            Some(Login::Desktop { token, team: Some(team) }),
                        ),
                        None => outcome == Err::<Option<Login>, Seq<char>>(INVALID_STORE@),
                    },
                }
            },
        Some(_) => after == before && outcome == Err::<Option<Login>, Seq<char>>(INVALID_STORE@),
    }
}

/// What the login of a store may give: nothing where it has no token, else the token, which must
/// open and not be empty, with its team. The team is not touched before the token is open.
pub open spec fn login_opens<
    K,
    C: Fn(K) -> (bool, K),
    D: Fn(K, &[u8]) -> (Result<String, String>, K),
>(
    login: JsonModel,
    consent: C,
    decrypt: D,
    before: K,
    outcome: Result<Option<Login>, Seq<char>>,
    after: K,
) -> bool {
    match json::get(login, "cursor-access-token"@) {
        None => after == before && outcome == Ok::<Option<Login>, Seq<char>>(None),
        Some(JsonModel::Text(stored)) => exists|opened: Result<Seq<char>, Seq<char>>, between: K|
            {
                &&& #[trigger] secret_opens(
                    secret_form(stored),
                    consent,
                    decrypt,
                    before,
                    opened,
                    between,
                )
                &&& match opened {
                    Err(message) => after == between && outcome == Err::<Option<Login>, Seq<char>>(
                        message,
                    ),
                    Ok(token) => if token.len() == 0 {
                        after == between && outcome == Err::<Option<Login>, Seq<char>>(
                            INVALID_STORE@,
                        )
                    } else {
                        team_opens(login, token, consent, decrypt, between, outcome, after)
                    },
                }
            },
        Some(_) => after == before && outcome == Err::<Option<Login>, Seq<char>>(INVALID_STORE@),
    }
}

/// That the calls which opening a login may make are allowed: those for its token, and after a
/// token that is not empty those for its team.
pub open spec fn login_calls<
    K,
    C: Fn(K) -> (bool, K),
    D: Fn(K, &[u8]) -> (Result<String, String>, K),
>(login: JsonModel, consent: C, decrypt: D, before: K) -> bool {
    match json::get(login, "cursor-access-token"@) {
        Some(JsonModel::Text(stored)) => {
            &&& secret_calls(secret_form(stored), consent, decrypt, before)
            &&& match json::get(login, "cursor-selected-team-id"@) {
                Some(JsonModel::Text(team)) => forall|token: Seq<char>, between: K|
                    token.len() > 0 && #[trigger] secret_opens(
                        secret_form(stored),
                        consent,
                        decrypt,
                        before,
                        Ok(token),
                        between,
                    ) ==> secret_calls(secret_form(team), consent, decrypt, between),
                _ => true,
            }
        },
        _ => true,
    }
}

/// What a store document may give. Only the secrets of the selected login are opened.
pub open spec fn document_opens<
    K,
    C: Fn(K) -> (bool, K),
    D: Fn(K, &[u8]) -> (Result<String, String>, K),
>(
    document: Option<JsonModel>,
    consent: C,
    decrypt: D,
    before: K,
    outcome: Result<Option<Login>, Seq<char>>,
    after: K,
) -> bool {
    match document {
        None => after == before && outcome == Err::<Option<Login>, Seq<char>>(INVALID_STORE@),
        Some(root) => match selected_login(root) {
            Selection::Malformed => after == before && outcome == Err::<Option<Login>, Seq<char>>(
                INVALID_STORE@,
            ),
            Selection::SignedOut => after == before && outcome == Ok::<Option<Login>, Seq<char>>(
                None,
            ),
            Selection::Found(login) => login_opens(login, consent, decrypt, before, outcome, after),
        },
    }
}

/// What the desktop store may give: no login where the file is missing, an error where it cannot
/// be read or understood.
pub open spec fn desktop_opens<
    K,
    C: Fn(K) -> (bool, K),
    D: Fn(K, &[u8]) -> (Result<String, String>, K),
>(
    file: DesktopFile,
    consent: C,
    decrypt: D,
    before: K,
    outcome: Result<Option<Login>, Seq<char>>,
    after: K,
) -> bool {
    match file {
        DesktopFile::Missing => after == before && outcome == Ok::<Option<Login>, Seq<char>>(None),
        DesktopFile::Unreadable => after == before && outcome == Err::<Option<Login>, Seq<char>>(
            UNREADABLE_STORE@,
        ),
        DesktopFile::Contents(raw) => document_opens(
            json::json_document(raw@),
            consent,
            decrypt,
            before,
            outcome,
            after,
        ),
    }
}

/// The login whose secrets a desktop store leads to, where there is one.
pub open spec fn store_login(file: DesktopFile) -> Option<JsonModel> {
    match file {
        DesktopFile::Contents(raw) => match json::json_document(raw@) {
            Some(root) => match selected_login(root) {
                Selection::Found(login) => Some(login),
                _ => None,
            },
            None => None,
        },
        _ => None,
    }
}

/// That the calls which reading the desktop store may make are allowed: those for the selected
/// login, and none where no login is selected.
pub open spec fn desktop_calls<
    K,
    C: Fn(K) -> (bool, K),
    D: Fn(K, &[u8]) -> (Result<String, String>, K),
>(file: DesktopFile, consent: C, decrypt: D, before: K) -> bool {
    match store_login(file) {
        Some(login) => login_calls(login, consent, decrypt, before),
        None => true,
    }
}

/// Opens the token and the team of one login.
pub fn open_login<
    K,
    C: Fn(K) -> (bool, K),
    D: Fn(K, &[u8]) -> (Result<String, String>, K),
>(login: &Json, session: K, consent: &C, decrypt: &D) -> (r: (
    Result<Option<GrokBotCredentials>, String>,
    K,
))
    requires
        login_calls(login@, *consent, *decrypt, session),
    ensures
        login_opens(login@, *consent, *decrypt, session, loaded(r.0), r.1),
{
    let stored_token = match login.get("cursor-access-token") {
        Some(Json::Text(stored)) => stored,
        Some(_) => return (Err(INVALID_STORE.to_owned()), session),
        None => return (Ok(None), session),
    };
    let (opened, between) = decode_desktop_secret(stored_token, session, consent, decrypt);
    let access_token = match opened {
        Ok(token) => token,
        Err(message) => return (Err(message), between),
    };
    if chars_of(&access_token).len() == 0 {
        return (Err(INVALID_STORE.to_owned()), between);
    }
    let stored_team = match login.get("cursor-selected-team-id") {
        Some(Json::Text(stored)) => stored,
        Some(_) => return (Err(INVALID_STORE.to_owned()), between),
        None => {
            return (Ok(Some(GrokBotCredentials::Desktop { access_token, team_id: None })), between);
        },
    };
    let (opened, after) = decode_desktop_secret(stored_team, between, consent, decrypt);
    let digits = match opened {
        Ok(digits) => digits,
        Err(message) => return (Err(message), after),
    };
    match parse_u64(&digits) {
        Some(id) => if id == 0 {
            (Err(INVALID_STORE.to_owned()), after)
        } else {
            (Ok(Some(GrokBotCredentials::Desktop { access_token, team_id: Some(id) })), after)
        },
        None => (Err(INVALID_STORE.to_owned()), after),
    }
}

/// Reads the login of the desktop store.
pub fn load_desktop_credentials_from<
    K,
    C: Fn(K) -> (bool, K),
    D: Fn(K, &[u8]) -> (Result<String, String>, K),
>(file: &DesktopFile, session: K, consent: &C, decrypt: &D) -> (r: (
    Result<Option<GrokBotCredentials>, String>,
    K,
))
    requires
        desktop_calls(*file, *consent, *decrypt, session),
    ensures
        desktop_opens(*file, *consent, *decrypt, session, loaded(r.0), r.1),
{
    let raw = match file {
        DesktopFile::Missing => return (Ok(None), session),
        DesktopFile::Unreadable => return (Err(UNREADABLE_STORE.to_owned()), session),
        DesktopFile::Contents(raw) => raw,
    };
    let root = match parse_json(raw) {
        Some(root) => root,
        None => return (Err(INVALID_STORE.to_owned()), session),
    };
    if !root.is_object() {
        return (Err(INVALID_STORE.to_owned()), session);
    }
    let record = match root.get("cursor-accounts") {
        None => return open_login(&root, session, consent, decrypt),
        Some(Json::Text(encoded)) => match parse_json(encoded) {
            Some(record) => record,
            None => return (Err(INVALID_STORE.to_owned()), session),
        },
        Some(_) => return (Err(INVALID_STORE.to_owned()), session),
    };
    match active_account_of(&record) {
        Ok(Some(login)) => open_login(login, session, consent, decrypt),
        Ok(None) => (Ok(None), session),
        Err(_) => (Err(INVALID_STORE.to_owned()), session),
    }
}

/// A value of the Cursor database, without the one layer of JSON quotes that it may have.
pub open spec fn unquoted(stored: Seq<char>, document: Option<JsonModel>) -> Option<Seq<char>> {
    if stored.len() == 0 {
        None
    } else if stored[0] == '"' && json::as_text(document) is Some {
        let inner = json::as_text(document)->Some_0;
        if inner.len() == 0 {
            None
        } else {
            Some(inner)
        }
    } else {
        Some(stored)
    }
}

pub open spec fn stored_text(stored: Seq<char>) -> Option<Seq<char>> {
    unquoted(stored, json::json_document(stored))
}

/// A stored value, given the JSON document that it holds, if any.
pub fn unquote(stored: &str, document: &Option<Json>) -> (r: Option<String>)
    ensures
        text::opt_text(r) == unquoted(stored@, json::opt_json(*document)),
{
    let chars = chars_of(stored);
    if chars.len() == 0 {
        return None;
    }
    if chars[0] == '"' {
        if let Some(Json::Text(inner)) = document {
            return if chars_of(inner).len() == 0 {
                None
            } else {
                Some(inner.clone())
            };
        }
    }
    Some(stored.to_owned())
}

pub fn normalized_stored_string(stored: &str) -> (r: Option<String>)
    ensures
        text::opt_text(r) == stored_text(stored@),
{
    unquote(stored, &parse_json(stored))
}

/// How many letters and digits `s` begins with.
pub open spec fn alphanumeric_run(s: Seq<char>) -> nat
    decreases s.len(),
{
    if s.len() > 0 && text::ascii_alphanumeric(s[0]) {
        1 + alphanumeric_run(s.drop_first())
    } else {
        0
    }
}

/// The user id in a text: the first `user_` with the letters and digits behind it, of which there
/// must be at least twenty.
pub open spec fn user_id_in(s: Seq<char>) -> Option<Seq<char>> {
    match text::found_from(s, "user_"@, 0) {
        Some(at) => {
            let run = alphanumeric_run(s.skip(at + 5));
            if run >= 20 {
                Some("user_"@ + s.skip(at + 5).take(run as int))
            } else {
                None
            }
        },
        None => None,
    }
}

proof fn lemma_run(s: Seq<char>, n: int)
    requires
        0 <= n <= s.len(),
        forall|i: int| 0 <= i < n ==> text::ascii_alphanumeric(#[trigger] s[i]),
        n < s.len() ==> !text::ascii_alphanumeric(s[n]),
    ensures
        alphanumeric_run(s) == n,
    decreases n,
{
    if n > 0 {
        assert(text::ascii_alphanumeric(s[0]));
        assert forall|i: int| 0 <= i < n - 1 implies text::ascii_alphanumeric(
            #[trigger] s.drop_first()[i],
        ) by {
            assert(s.drop_first()[i] == s[i + 1]);
        }
        lemma_run(s.drop_first(), n - 1);
    }
}

pub fn extract_user_id(source: &str) -> (r: Option<String>)
    ensures
        text::opt_text(r) == user_id_in(source@),
{
    proof {
        reveal_strlit("user_");
    }
    let chars = chars_of(source);
    let part = chars_of("user_");
    let at: usize = match find(&chars, &part) {
        Some(at) => at,
        None => return None,
    };
    let n: usize = chars.len();
    let from: usize = at + 5;
    let mut to: usize = from;
    while to < n && is_ascii_alphanumeric(chars[to])
        invariant
            from <= to <= n,
            n == chars@.len(),
            forall|i: int| from <= i < to ==> text::ascii_alphanumeric(#[trigger] chars@[i]),
        decreases n - to,
    {
        to += 1;
    }
    proof {
        let rest = chars@.skip(from as int);
        assert forall|i: int| 0 <= i < to - from implies text::ascii_alphanumeric(
            #[trigger] rest[i],
        ) by {
            assert(rest[i] == chars@[from + i]);
        }
        lemma_run(rest, to - from);
        assert(rest.take(to - from) =~= chars@.subrange(from as int, to as int));
    }
    if to - from < 20 {
        return None;
    }
    let run = text_between(&chars, from, to);
    Some(joined("user_", &run))
}

/// The value of the last row with the given key.
pub open spec fn row_value(rows: Seq<(String, String)>, key: Seq<char>) -> Option<Seq<char>>
    decreases rows.len(),
{
    if rows.len() == 0 {
        None
    } else if rows.last().0@ == key {
        stored_text(rows.last().1@)
    } else {
        row_value(rows.drop_last(), key)
    }
}

pub open spec fn user_id_from(identity: Option<Seq<char>>, profile: Option<Seq<char>>) -> Option<
    Seq<char>,
> {
    let named = match identity {
        Some(s) => user_id_in(s),
        None => None,
    };
    match named {
        Some(id) => Some(id),
        None => match profile {
            Some(s) => user_id_in(s),
            None => None,
        },
    }
}

/// The login that the values of the three keys make, where there is a token and a user id.
pub open spec fn cursor_login(
    token: Option<Seq<char>>,
    identity: Option<Seq<char>>,
    profile: Option<Seq<char>>,
) -> Option<Login> {
    match token {
        Some(t) => if t.len() == 0 {
            None
        } else {
            match user_id_from(identity, profile) {
                Some(user) => Some(Login::Cursor { user, token: t }),
                None => None,
            }
        },
        None => None,
    }
}

/// What the Cursor database gives.
pub open spec fn database_login(database: CursorDatabase) -> Result<Option<Login>, Seq<char>> {
    match database {
        CursorDatabase::Missing => Ok(None),
        CursorDatabase::Unreadable => Err(UNREADABLE_DATABASE@),
        CursorDatabase::Rows(rows) => Ok(
            cursor_login(
                row_value(rows@, "cursorAuth/accessToken"@),
                row_value(rows@, "glass.lastSignedInAuthId"@),
                row_value(rows@, "cursorAuth/cachedScopedProfile"@),
            ),
        ),
    }
}

fn value_of(rows: &Vec<(String, String)>, key: &str) -> (r: Option<String>)
    ensures
        text::opt_text(r) == row_value(rows@, key@),
{
    let mut i: usize = rows.len();
    assert(rows@.take(i as int) =~= rows@);
    while i > 0
        invariant
            i <= rows@.len(),
            row_value(rows@.take(i as int), key@) == row_value(rows@, key@),
        decreases i,
    {
        assert(rows@.take(i as int).last() == rows@[i - 1]);
        assert(rows@.take(i as int).drop_last() =~= rows@.take(i - 1));
        if same_text(&rows[i - 1].0, key) {
            return normalized_stored_string(&rows[i - 1].1);
        }
        i -= 1;
    }
    None
}

fn extract_optional(value: &Option<String>) -> (r: Option<String>)
    ensures
        text::opt_text(r) == (match *value {
            Some(s) => user_id_in(s@),
            None => None,
        }),
{
    match value {
        Some(s) => extract_user_id(s),
        None => None,
    }
}

/// The login that the values of the three keys make.
pub fn combine_cursor_login(
    token: Option<String>,
    identity: &Option<String>,
    profile: &Option<String>,
) -> (r: Option<CursorCredentials>)
    ensures
        (match r {
            Some(credentials) => Some(credentials@),
            None => None,
        }) == cursor_login(
            text::opt_text(token),
            text::opt_text(*identity),
            text::opt_text(*profile),
        ),
{
    let access_token = match token {
        Some(token) => token,
        None => return None,
    };
    if chars_of(&access_token).len() == 0 {
        return None;
    }
    let user_id = match extract_optional(identity) {
        Some(id) => id,
        None => match extract_optional(profile) {
            Some(id) => id,
            None => return None,
        },
    };
    Some(CursorCredentials { user_id, access_token })
}

/// Reads the login of the Cursor database.
pub fn load_credentials_from(database: &CursorDatabase) -> (r: Result<
    Option<CursorCredentials>,
    String,
>)
    ensures
        cursor_loaded(r) == database_login(*database),
{
    match database {
        CursorDatabase::Missing => Ok(None),
        CursorDatabase::Unreadable => Err(UNREADABLE_DATABASE.to_owned()),
        CursorDatabase::Rows(rows) => {
            let token = value_of(rows, "cursorAuth/accessToken");
            let identity = value_of(rows, "glass.lastSignedInAuthId");
            let profile = value_of(rows, "cursorAuth/cachedScopedProfile");
            Ok(combine_cursor_login(token, &identity, &profile))
        },
    }
}

/// What both sources together may give: the desktop login decides unless there is none.
pub open spec fn sources_open<
    K,
    C: Fn(K) -> (bool, K),
    D: Fn(K, &[u8]) -> (Result<String, String>, K),
    R: FnOnce() -> CursorDatabase,
>(
    file: DesktopFile,
    read_cursor: R,
    consent: C,
    decrypt: D,
    before: K,
    outcome: Result<Option<Login>, Seq<char>>,
    after: K,
) -> bool {
    ||| !(outcome matches Ok(None)) && desktop_opens(
        file,
        consent,
        decrypt,
        before,
        outcome,
        after,
    )
    ||| desktop_opens(file, consent, decrypt, before, Ok(None), after) && exists|
        database: CursorDatabase,
    | #[trigger]
        call_ensures(read_cursor, (), database) && outcome == database_login(database)
}

/// Reads the login that quota is asked for with. The Cursor database is read only where the
/// desktop store holds no login.
pub fn load_credentials_from_sources<
    K,
    C: Fn(K) -> (bool, K),
    D: Fn(K, &[u8]) -> (Result<String, String>, K),
    R: FnOnce() -> CursorDatabase,
>(file: &DesktopFile, read_cursor: R, session: K, consent: &C, decrypt: &D) -> (r: (
    Result<Option<GrokBotCredentials>, String>,
    K,
))
    requires
        desktop_calls(*file, *consent, *decrypt, session),
        (exists|after: K| #[trigger]
            desktop_opens(*file, *consent, *decrypt, session, Ok(None), after)) ==> call_requires(
            read_cursor,
            (),
        ),
    ensures
        sources_open(*file, read_cursor, *consent, *decrypt, session, loaded(r.0), r.1),
{
    let (desktop, after) = load_desktop_credentials_from(file, session, consent, decrypt);
    match desktop {
        Ok(Some(credentials)) => (Ok(Some(credentials)), after),
        Ok(None) => {
            let database = read_cursor();
            let outcome = match load_credentials_from(&database) {
                Ok(Some(credentials)) => Ok(Some(GrokBotCredentials::Cursor(credentials))),
                Ok(None) => Ok(None),
                Err(message) => Err(message),
            };
            (outcome, after)
        },
        Err(message) => (Err(message), after),
    }
}

/// The file of the desktop store: the override where it is not empty, else the place below the
/// home directory.
pub open spec fn desktop_store_at(chosen: Seq<u8>, home: Seq<u8>) -> Seq<u8> {
    if chosen.len() > 0 {
        chosen
    } else {
        paths::joined(
            home,
            encode_utf8("Library/Application Support/Grok Bot/sand-secrets.json"@),
        )
    }
}

pub open spec fn opt_path(path: Option<&SourcePath>) -> Seq<u8> {
    match path {
        Some(p) => p@,
        None => Seq::empty(),
    }
}

pub fn desktop_secrets_path(chosen: Option<&SourcePath>, home: Option<&SourcePath>) -> (r:
    SourcePath)
    ensures
        r@ == desktop_store_at(opt_path(chosen), opt_path(home)),
{
    if let Some(path) = chosen {
        if path.bytes.len() > 0 {
            return path.copy();
        }
    }
    match home {
        Some(path) => path.join("Library/Application Support/Grok Bot/sand-secrets.json"),
        None => {
            let empty = SourcePath { bytes: Vec::new() };
            assert(empty@ =~= Seq::<u8>::empty());
            empty.join("Library/Application Support/Grok Bot/sand-secrets.json")
        },
    }
}

/// The file of the Cursor database: the override where it is not empty, else the place below the
/// home directory, else the bare file name.
pub open spec fn cursor_store_at(chosen: Seq<u8>, home: Option<Seq<u8>>) -> Seq<u8> {
    if chosen.len() > 0 {
        chosen
    } else {
        match home {
            Some(base) => paths::joined(
                base,
                encode_utf8(
                    "Library/Application Support/Cursor/User/globalStorage/state.vscdb"@,
                ),
            ),
            None => encode_utf8("state.vscdb"@),
        }
    }
}

pub fn cursor_state_db_path(chosen: Option<&SourcePath>, home: Option<&SourcePath>) -> (r:
    SourcePath)
    ensures
        r@ == cursor_store_at(
            opt_path(chosen),
            match home {
                Some(base) => Some(base@),
                None => None,
            },
        ),
{
    if let Some(path) = chosen {
        if path.bytes.len() > 0 {
            return path.copy();
        }
    }
    match home {
        Some(path) => path.join("Library/Application Support/Cursor/User/globalStorage/state.vscdb"),
        None => SourcePath::from_text("state.vscdb"),
    }
}

/// A sealed secret is not opened without consent: where the answer is not yes, the outcome is
/// that permission is needed.
pub proof fn sealed_secrets_need_consent<
    K,
    C: Fn(K) -> (bool, K),
    D: Fn(K, &[u8]) -> (Result<String, String>, K),
>(
    stored: Seq<char>,
    consent: C,
    decrypt: D,
    before: K,
    outcome: Result<Seq<char>, Seq<char>>,
    after: K,
)
    requires
        secret_form(stored) is Sealed,
        forall|asked: K| !#[trigger] call_ensures(consent, (before,), (true, asked)),
        secret_opens(secret_form(stored), consent, decrypt, before, outcome, after),
    ensures
        outcome == Err::<Seq<char>, Seq<char>>(GROK_BOT_KEYCHAIN_CONSENT_REQUIRED@),
        call_ensures(consent, (before,), (false, after)),
{
}

/// A plain or malformed secret opens to the same outcome whatever the answer on consent is, and
/// the Keychain session is left alone.
pub proof fn plain_secrets_need_no_consent<
    K,
    C: Fn(K) -> (bool, K),
    D: Fn(K, &[u8]) -> (Result<String, String>, K),
>(
    stored: Seq<char>,
    consent: C,
    decrypt: D,
    before: K,
    outcome: Result<Seq<char>, Seq<char>>,
    after: K,
)
    requires
        !(secret_form(stored) is Sealed),
        secret_opens(secret_form(stored), consent, decrypt, before, outcome, after),
    ensures
        secret_form(stored) is Plain ==> outcome == Ok::<Seq<char>, Seq<char>>(
            secret_form(stored)->Plain_0,
        ),
        secret_form(stored) is Malformed ==> outcome == Err::<Seq<char>, Seq<char>>(
            UNDECODABLE_SECRET@,
        ),
        after == before,
{
}

/// Withholding consent for a sealed desktop login never falls back to the Cursor login: whatever
/// the Cursor database holds, the outcome is that permission is needed.
pub proof fn withheld_consent_never_switches_account<
    K,
    C: Fn(K) -> (bool, K),
    D: Fn(K, &[u8]) -> (Result<String, String>, K),
    R: FnOnce() -> CursorDatabase,
>(
    raw: String,
    root: JsonModel,
    login: JsonModel,
    stored: Seq<char>,
    read_cursor: R,
    consent: C,
    decrypt: D,
    before: K,
    outcome: Result<Option<Login>, Seq<char>>,
    after: K,
)
    requires
        json::json_document(raw@) == Some(root),
        selected_login(root) == Selection::Found(login),
        json::get(login, "cursor-access-token"@) == Some(JsonModel::Text(stored)),
        secret_form(stored) is Sealed,
        forall|asked: K| !#[trigger] call_ensures(consent, (before,), (true, asked)),
        sources_open(
            DesktopFile::Contents(raw),
            read_cursor,
            consent,
            decrypt,
            before,
            outcome,
            after,
        ),
    ensures
        outcome == Err::<Option<Login>, Seq<char>>(GROK_BOT_KEYCHAIN_CONSENT_REQUIRED@),
        call_ensures(consent, (before,), (false, after)),
{
}

/// One yes covers one read: where consent is refused once the token is open, a sealed team stays
/// closed. The outcome is that permission is needed, and the refusal is the last thing that
/// happened to the session.
pub proof fn one_answer_covers_one_read<
    K,
    C: Fn(K) -> (bool, K),
    D: Fn(K, &[u8]) -> (Result<String, String>, K),
>(
    login: JsonModel,
    token: Seq<char>,
    team: Seq<char>,
    consent: C,
    decrypt: D,
    between: K,
    outcome: Result<Option<Login>, Seq<char>>,
    after: K,
)
    requires
        json::get(login, "cursor-selected-team-id"@) == Some(JsonModel::Text(team)),
        secret_form(team) is Sealed,
        forall|asked: K| !#[trigger] call_ensures(consent, (between,), (true, asked)),
        team_opens(login, token, consent, decrypt, between, outcome, after),
    ensures
        outcome == Err::<Option<Login>, Seq<char>>(GROK_BOT_KEYCHAIN_CONSENT_REQUIRED@),
        call_ensures(consent, (between,), (false, after)),
{
}

/// The Cursor login is used only where the desktop store may give no login. A store that cannot
/// be read or understood, or whose login does not open, is never passed over.
pub proof fn desktop_errors_are_never_passed_over<
    K,
    C: Fn(K) -> (bool, K),
    D: Fn(K, &[u8]) -> (Result<String, String>, K),
    R: FnOnce() -> CursorDatabase,
>(
    file: DesktopFile,
    read_cursor: R,
    consent: C,
    decrypt: D,
    before: K,
    outcome: Result<Option<Login>, Seq<char>>,
    after: K,
)
    requires
        sources_open(file, read_cursor, consent, decrypt, before, outcome, after),
        !desktop_opens(file, consent, decrypt, before, Ok(None), after),
    ensures
        desktop_opens(file, consent, decrypt, before, outcome, after),
        !(outcome matches Ok(None)),
        outcome matches Ok(Some(login)) ==> login is Desktop,
{
}

/// A store that gives no login leaves the Keychain session alone: nothing was asked and nothing
/// was decrypted.
pub proof fn absent_logins_ask_for_nothing<
    K,
    C: Fn(K) -> (bool, K),
    D: Fn(K, &[u8]) -> (Result<String, String>, K),
>(file: DesktopFile, consent: C, decrypt: D, before: K, after: K)
    requires
        desktop_opens(file, consent, decrypt, before, Ok(None), after),
    ensures
        after == before,
{
}

/// Only the secrets of the selected login are opened: two stores that select the same login give
/// the same outcomes and make the same calls, whatever else they hold.
pub proof fn only_the_selected_login_is_opened<
    K,
    C: Fn(K) -> (bool, K),
    D: Fn(K, &[u8]) -> (Result<String, String>, K),
>(
    raw: String,
    other: String,
    consent: C,
    decrypt: D,
    before: K,
    outcome: Result<Option<Login>, Seq<char>>,
    after: K,
)
    requires
        store_login(DesktopFile::Contents(raw)) is Some,
        store_login(DesktopFile::Contents(raw)) == store_login(DesktopFile::Contents(other)),
    ensures
        desktop_opens(DesktopFile::Contents(raw), consent, decrypt, before, outcome, after)
            == desktop_opens(DesktopFile::Contents(other), consent, decrypt, before, outcome, after),
        desktop_calls(DesktopFile::Contents(raw), consent, decrypt, before) == desktop_calls(
            DesktopFile::Contents(other),
            consent,
            decrypt,
            before,
        ),
{
}

/// Once a store has an account map, its top-level login counts for nothing: two stores with the
/// same map select the same login.
pub proof fn account_maps_hide_the_top_level_login(root: JsonModel, other: JsonModel)
    requires
        root is Object,
        other is Object,
        json::get(root, "cursor-accounts"@) is Some,
        json::get(root, "cursor-accounts"@) == json::get(other, "cursor-accounts"@),
    ensures
        selected_login(root) == selected_login(other),
{
}

/// Only the active account of a map is ever selected.
pub proof fn only_the_active_account_is_selected(record: JsonModel)
    requires
        active_account(record) is Found,
    ensures
        json::get(record, "active"@) is Some,
        json::as_text(json::get(record, "active"@)) is Some,
        json::get(
            json::get(record, "accounts"@)->Some_0,
            json::as_text(json::get(record, "active"@))->Some_0,
        ) == Some(active_account(record)->Found_0),
{
}

/// A letter or a digit of ASCII.
pub open spec fn letter_or_digit(c: char) -> bool {
    ('0' <= c && c <= '9') || ('a' <= c && c <= 'z') || ('A' <= c && c <= 'Z')
}

/// The user id of a text is whole: the first `user_` in it with all the letters and digits behind
/// it, however many there are from twenty on. Fewer make no id, and neither does a text without
/// `user_`.
pub proof fn user_ids_are_whole(
    front: Seq<char>,
    run: Seq<char>,
    back: Seq<char>,
    s: Seq<char>,
)
    requires
        s == front + "user_"@ + run + back,
        forall|i: int|
            0 <= i < front.len() && i + 5 <= s.len() ==> s.subrange(i, #[trigger] (i + 5))
                != "user_"@,
        forall|i: int| 0 <= i < run.len() ==> letter_or_digit(#[trigger] run[i]),
        back.len() > 0 ==> !letter_or_digit(back[0]),
    ensures
        run.len() >= 20 ==> user_id_in(s) == Some("user_"@ + run),
        run.len() < 20 ==> user_id_in(s) is None,
{
    reveal_strlit("user_");
    let at = front.len() as int;
    assert(s.subrange(at, at + 5) =~= "user_"@);
    assert forall|i: int| 0 <= i < at && i + "user_"@.len() <= s.len() implies s.subrange(
        i,
        #[trigger] (i + "user_"@.len()),
    ) != "user_"@ by {
        assert(s.subrange(i, i + 5) != "user_"@);
    }
    text::the_first_occurrence_is_found(s, "user_"@, 0, at);
    let rest = s.skip(at + 5);
    assert(rest =~= run + back);
    assert forall|i: int| 0 <= i < run.len() implies text::ascii_alphanumeric(
        #[trigger] rest[i],
    ) by {
        assert(rest[i] == run[i]);
    }
    if back.len() > 0 {
        assert(rest[run.len() as int] == back[0]);
    }
    lemma_run(rest, run.len() as int);
    assert(rest.take(run.len() as int) =~= run);
}

/// A text without `user_` has no user id.
pub proof fn texts_without_a_user_have_no_id(s: Seq<char>)
    requires
        forall|i: int|
            0 <= i && i + 5 <= s.len() ==> s.subrange(i, #[trigger] (i + 5)) != "user_"@,
    ensures
        user_id_in(s) is None,
{
    reveal_strlit("user_");
    assert forall|i: int| 0 <= i < s.len() && i + "user_"@.len() <= s.len() implies s.subrange(
        i,
        #[trigger] (i + "user_"@.len()),
    ) != "user_"@ by {
        assert(s.subrange(i, i + 5) != "user_"@);
    }
    text::the_first_occurrence_is_found(s, "user_"@, 0, s.len() as int);
}

/// What comes out is an id of the text itself: it stands there, and the character behind it, if
/// there is one, is neither a letter nor a digit.
pub proof fn user_ids_stand_in_their_text(s: Seq<char>)
    requires
        user_id_in(s) is Some,
    ensures
        ({
            let id = user_id_in(s)->Some_0;
            &&& id.len() >= 25
            &&& exists|at: int|
                {
                    &&& 0 <= at
                    &&& at + id.len() <= s.len()
                    &&& #[trigger] s.subrange(at, at + id.len()) == id
                    &&& at + id.len() < s.len() ==> !letter_or_digit(s[at + id.len()])
                }
            &&& id.take(5) == "user_"@
            &&& forall|i: int| 5 <= i < id.len() ==> letter_or_digit(#[trigger] id[i])
        }),
{
    reveal_strlit("user_");
    let at = text::found_from(s, "user_"@, 0)->Some_0;
    lemma_found_stands(s, "user_"@, 0);
    let rest = s.skip(at + 5);
    lemma_run_shape(rest);
    let run = alphanumeric_run(rest) as int;
    let id = user_id_in(s)->Some_0;
    assert(s.subrange(at, at + 5) == "user_"@);
    assert(s.subrange(at, at + id.len()) =~= id) by {
        assert forall|i: int| 0 <= i < id.len() implies s.subrange(at, at + id.len())[i]
            == id[i] by {
            if i < 5 {
                assert(s.subrange(at, at + 5)[i] == "user_"@[i]);
            } else {
                assert(rest.take(run)[i - 5] == s[at + i]);
            }
        }
    }
    assert(id.take(5) =~= "user_"@);
    assert forall|i: int| 5 <= i < id.len() implies letter_or_digit(#[trigger] id[i]) by {
        assert(id[i] == rest[i - 5]);
    }
    if at + id.len() < s.len() {
        assert(rest[run] == s[at + id.len()]);
    }
}

proof fn lemma_found_stands(s: Seq<char>, part: Seq<char>, from: int)
    requires
        text::found_from(s, part, from) is Some,
    ensures
        text::stands_at(s, part, text::found_from(s, part, from)->Some_0),
    decreases s.len() + 1 - from,
{
    if !text::stands_at(s, part, from) {
        lemma_found_stands(s, part, from + 1);
    }
}

proof fn lemma_run_shape(s: Seq<char>)
    ensures
        alphanumeric_run(s) <= s.len(),
        forall|i: int| 0 <= i < alphanumeric_run(s) ==> text::ascii_alphanumeric(#[trigger] s[i]),
        alphanumeric_run(s) < s.len() ==> !text::ascii_alphanumeric(s[alphanumeric_run(s) as int]),
    decreases s.len(),
{
    if s.len() > 0 && text::ascii_alphanumeric(s[0]) {
        let rest = s.drop_first();
        lemma_run_shape(rest);
        assert forall|i: int| 0 <= i < alphanumeric_run(s) implies text::ascii_alphanumeric(
            #[trigger] s[i],
        ) by {
            if i > 0 {
                assert(rest[i - 1] == s[i]);
            }
        }
        if alphanumeric_run(s) < s.len() {
            assert(rest[alphanumeric_run(rest) as int] == s[alphanumeric_run(s) as int]);
        }
    }
}

/// A stored value stands for itself, unless it is a JSON text: then it stands for what that text
/// says. An empty one stands for nothing.
pub proof fn stored_values_stand_for_their_text(stored: Seq<char>, inner: Seq<char>)
    ensures
        stored.len() == 0 ==> stored_text(stored) is None,
        stored.len() > 0 && stored[0] != '"' ==> stored_text(stored) == Some(stored),
        stored.len() > 0 && stored[0] == '"' && json::json_document(stored) == Some(
            JsonModel::Text(inner),
        ) ==> stored_text(stored) == (if inner.len() == 0 {
            None::<Seq<char>>
        } else {
            Some(inner)
        }),
        stored.len() > 0 && json::json_document(stored) is None ==> stored_text(stored) == Some(
            stored,
        ),
{
}

/// The last row of a key counts, and a key without a row has no value.
pub proof fn the_last_row_of_a_key_counts(rows: Seq<(String, String)>, key: Seq<char>, i: int)
    requires
        -1 <= i < rows.len(),
        forall|j: int| i < j < rows.len() ==> (#[trigger] rows[j]).0@ != key,
    ensures
        i >= 0 && rows[i].0@ == key ==> row_value(rows, key) == stored_text(rows[i].1@),
        i == -1 ==> row_value(rows, key) is None,
    decreases rows.len(),
{
    if rows.len() > 0 && i < rows.len() - 1 {
        assert(rows[rows.len() - 1].0@ != key);
        let rest = rows.drop_last();
        assert forall|j: int| i < j < rest.len() implies (#[trigger] rest[j]).0@ != key by {
            assert(rest[j] == rows[j]);
        }
        the_last_row_of_a_key_counts(rest, key, i);
    }
}

/// The Cursor login is the stored token under the user who signed in last, or under the one of the
/// profile where that names nobody. Without a token or a user there is no login.
pub proof fn cursor_logins_pair_token_and_user(
    rows: Vec<(String, String)>,
    token: Option<Seq<char>>,
    identity: Option<Seq<char>>,
    profile: Option<Seq<char>>,
    user: Seq<char>,
)
    requires
        token == row_value(rows@, "cursorAuth/accessToken"@),
        identity == row_value(rows@, "glass.lastSignedInAuthId"@),
        profile == row_value(rows@, "cursorAuth/cachedScopedProfile"@),
    ensures
        (token matches Some(t) && t.len() > 0) && (identity matches Some(named) && user_id_in(named)
            == Some(user)) ==> database_login(CursorDatabase::Rows(rows)) == Ok::<
            Option<Login>,
            Seq<char>,
        >(Some(Login::Cursor { user, token: token->Some_0 })),
        (token matches Some(t) && t.len() > 0) && (identity matches Some(named) ==> user_id_in(
            named,
        ) is None) && (profile matches Some(held) && user_id_in(held) == Some(user))
            ==> database_login(CursorDatabase::Rows(rows)) == Ok::<Option<Login>, Seq<char>>(
            Some(Login::Cursor { user, token: token->Some_0 }),
        ),
        (token matches Some(t) ==> t.len() == 0) ==> database_login(CursorDatabase::Rows(rows))
            == Ok::<Option<Login>, Seq<char>>(None),
        (identity matches Some(named) ==> user_id_in(named) is None) && (profile matches Some(held)
            ==> user_id_in(held) is None) ==> database_login(CursorDatabase::Rows(rows)) == Ok::<
            Option<Login>,
            Seq<char>,
        >(None),
        database_login(CursorDatabase::Missing) == Ok::<Option<Login>, Seq<char>>(None),
        database_login(CursorDatabase::Unreadable) is Err,
{
}

/// A secret after `plaintext:v1:` is the text that its Base64 holds.
pub proof fn plain_secrets_are_their_text(encoded: Seq<char>, bytes: Seq<u8>)
    requires
        encoding::standard_bytes(encoded) == Some(bytes),
    ensures
        valid_utf8(bytes) ==> secret_form("plaintext:v1:"@ + encoded) == SecretForm::Plain(
            decode_utf8(bytes),
        ),
        !valid_utf8(bytes) ==> secret_form("plaintext:v1:"@ + encoded) is Malformed,
{
    text::prefixes_come_off("plaintext:v1:"@, encoded, encoded);
}

/// A secret after `scoped:v1:` and sixty-four hexadecimal digits is sealed, and so is one without
/// any mark. What is sealed is what the Base64 behind the mark holds.
pub proof fn sealed_secrets_are_their_bytes(
    scope: Seq<char>,
    encoded: Seq<char>,
    bare: Seq<char>,
    bytes: Seq<u8>,
)
    requires
        scope.len() == 64,
        forall|i: int|
            0 <= i < scope.len() ==> ('0' <= #[trigger] scope[i] && scope[i] <= '9') || ('a'
                <= scope[i] && scope[i] <= 'f') || ('A' <= scope[i] && scope[i] <= 'F'),
        !"plaintext:v1:"@.is_prefix_of(bare),
        !"scoped:v1:"@.is_prefix_of(bare),
    ensures
        encoding::standard_bytes(encoded) == Some(bytes) ==> secret_form(
            "scoped:v1:"@ + (scope.push(':') + encoded),
        ) == SecretForm::Sealed(bytes),
        encoding::standard_bytes(encoded) is None ==> secret_form(
            "scoped:v1:"@ + (scope.push(':') + encoded),
        ) is Malformed,
        encoding::standard_bytes(bare) == Some(bytes) ==> secret_form(bare) == SecretForm::Sealed(
            bytes,
        ),
        encoding::standard_bytes(bare) is None ==> secret_form(bare) is Malformed,
{
    reveal_strlit("plaintext:v1:");
    reveal_strlit("scoped:v1:");
    let scoped = scope.push(':') + encoded;
    let stored = "scoped:v1:"@ + scoped;
    text::prefixes_come_off("scoped:v1:"@, scoped, scoped);
    assert(!"plaintext:v1:"@.is_prefix_of(stored)) by {
        assert(stored[0] == 's');
        assert("plaintext:v1:"@[0] == 'p');
    }
    assert(!scope.contains(':')) by {
        if scope.contains(':') {
            let i = choose|i: int| 0 <= i < scope.len() && scope[i] == ':';
            assert(scope[i] == ':');
        }
    }
    text::texts_part_at_the_first(scope, ':', encoded);
    assert(secret_scope(scope));
}

/// A scope of any other length, or with another character in it, is no scope.
pub proof fn other_scopes_are_malformed(scope: Seq<char>, encoded: Seq<char>, i: int)
    requires
        !scope.contains(':'),
        scope.len() != 64 || (0 <= i < 64 && !(('0' <= scope[i] && scope[i] <= '9') || ('a'
            <= scope[i] && scope[i] <= 'f') || ('A' <= scope[i] && scope[i] <= 'F'))),
    ensures
        secret_form("scoped:v1:"@ + (scope.push(':') + encoded)) is Malformed,
        secret_form("scoped:v1:"@ + scope) is Malformed,
{
    reveal_strlit("plaintext:v1:");
    reveal_strlit("scoped:v1:");
    let scoped = scope.push(':') + encoded;
    text::prefixes_come_off("scoped:v1:"@, scoped, scoped);
    text::prefixes_come_off("scoped:v1:"@, scope, scope);
    assert("plaintext:v1:"@[0] == 'p');
    assert(("scoped:v1:"@ + scoped)[0] == 's');
    assert(("scoped:v1:"@ + scope)[0] == 's');
    text::texts_part_at_the_first(scope, ':', encoded);
    assert(!secret_scope(scope));
}

/// A store without an account map is the login itself; one with a map leads to the account that is
/// active, to nobody where none is, and to nothing where the map is broken.
pub proof fn stores_lead_to_the_active_login(
    root: JsonModel,
    encoded: Seq<char>,
    record: JsonModel,
    accounts: Seq<(Seq<char>, JsonModel)>,
    id: Seq<char>,
    account: JsonModel,
)
    requires
        root is Object,
    ensures
        json::get(root, "cursor-accounts"@) is None ==> selected_login(root) == Selection::Found(
            root,
        ),
        json::get(root, "cursor-accounts"@) == Some(JsonModel::Text(encoded))
            && json::json_document(encoded) == Some(record) && json::get(record, "accounts"@)
            == Some(JsonModel::Object(accounts)) ==> {
            &&& json::get(record, "active"@) == Some(JsonModel::Null) ==> selected_login(root)
                is SignedOut
            &&& json::get(record, "active"@) == Some(JsonModel::Text(id)) && json::member(
                accounts,
                id,
            ) == Some(account) && account is Object ==> selected_login(root) == Selection::Found(
                account,
            )
            &&& json::get(record, "active"@) == Some(JsonModel::Text(id)) && json::member(
                accounts,
                id,
            ) is None ==> selected_login(root) is Malformed
            &&& json::get(record, "active"@) == Some(JsonModel::Text(id)) && json::member(
                accounts,
                id,
            ) == Some(account) && !(account is Object) ==> selected_login(root) is Malformed
            &&& json::get(record, "active"@) is None ==> selected_login(root) is Malformed
        },
        json::get(root, "cursor-accounts"@) == Some(JsonModel::Text(encoded))
            && json::json_document(encoded) == Some(record) && !(json::get(
            record,
            "accounts"@,
        ) matches Some(JsonModel::Object(_))) ==> selected_login(root) is Malformed,
        json::get(root, "cursor-accounts"@) == Some(JsonModel::Text(encoded))
            && json::json_document(encoded) is None ==> selected_login(root) is Malformed,
        (json::get(root, "cursor-accounts"@) matches Some(other) && !(other is Text))
            ==> selected_login(root) is Malformed,
{
}

/// A desktop login is the token that its secret holds, with the team that the other secret holds
/// in decimal digits, which must not be zero. Without a token there is no login, and an empty one
/// is an error.
pub proof fn desktop_logins_are_their_secrets<
    K,
    C: Fn(K) -> (bool, K),
    D: Fn(K, &[u8]) -> (Result<String, String>, K),
>(
    login: JsonModel,
    stored: Seq<char>,
    token: Seq<char>,
    team: Seq<char>,
    number: u64,
    consent: C,
    decrypt: D,
    before: K,
    outcome: Result<Option<Login>, Seq<char>>,
    after: K,
)
    requires
        login_opens(login, consent, decrypt, before, outcome, after),
    ensures
        json::get(login, "cursor-access-token"@) is None ==> outcome == Ok::<
            Option<Login>,
            Seq<char>,
        >(None),
        json::get(login, "cursor-access-token"@) == Some(JsonModel::Text(stored)) && secret_form(
            stored,
        ) == SecretForm::Plain(token) ==> {
            &&& token.len() == 0 ==> outcome is Err
            &&& token.len() > 0 && json::get(login, "cursor-selected-team-id"@) is None ==> outcome
                == Ok::<Option<Login>, Seq<char>>(Some(Login::Desktop { token, team: None }))
            &&& token.len() > 0 && json::get(login, "cursor-selected-team-id"@) == Some(
                JsonModel::Text(team),
            ) && secret_form(team) == SecretForm::Plain(numbers::decimal_text(number as nat))
                ==> outcome == (if number == 0 {
                Err::<Option<Login>, Seq<char>>(INVALID_STORE@)
            } else {
                Ok(Some(Login::Desktop { token, team: Some(number) }))
            })
        },
        (json::get(login, "cursor-access-token"@) matches Some(other) && !(other is Text))
            ==> outcome is Err,
        json::get(login, "cursor-access-token"@) == Some(JsonModel::Text(stored)) && secret_form(
            stored,
        ) is Malformed ==> outcome is Err,
        outcome matches Ok(Some(found)) ==> found is Desktop && found->Desktop_token.len() > 0 && (
        found->Desktop_team matches Some(n) ==> n > 0),
{
    numbers::decimal_reads_back(number as nat);
}

/// A sealed token that the user lets be read is what `decrypt` makes of its bytes.
pub proof fn sealed_logins_are_what_decrypts<
    K,
    C: Fn(K) -> (bool, K),
    D: Fn(K, &[u8]) -> (Result<String, String>, K),
>(
    login: JsonModel,
    stored: Seq<char>,
    bytes: Seq<u8>,
    token: Seq<char>,
    consent: C,
    decrypt: D,
    before: K,
    outcome: Result<Option<Login>, Seq<char>>,
    after: K,
)
    requires
        login_opens(login, consent, decrypt, before, outcome, after),
        json::get(login, "cursor-access-token"@) == Some(JsonModel::Text(stored)),
        json::get(login, "cursor-selected-team-id"@) is None,
        secret_form(stored) == SecretForm::Sealed(bytes),
        token.len() > 0,
        forall|asked: K| !#[trigger] call_ensures(consent, (before,), (false, asked)),
        forall|asked: K, data: &[u8], opened: Result<String, String>, done: K|
            data@ == bytes && #[trigger] call_ensures(decrypt, (asked, data), (opened, done)) ==> (
            opened matches Ok(content) && content@ == token),
    ensures
        outcome == Ok::<Option<Login>, Seq<char>>(Some(Login::Desktop { token, team: None })),
{
}

/// The store files are the ones that the user chose, else those below the home directory.
pub proof fn stores_stand_where_they_are_chosen(chosen: Seq<u8>, home: Seq<u8>)
    requires
        home.len() > 0,
        home.last() != 0x2f,
    ensures
        chosen.len() > 0 ==> desktop_store_at(chosen, home) == chosen && cursor_store_at(
            chosen,
            Some(home),
        ) == chosen && cursor_store_at(chosen, None) == chosen,
        chosen.len() == 0 ==> {
            &&& desktop_store_at(chosen, home) == home.push(0x2fu8) + encode_utf8(
                "Library/Application Support/Grok Bot/sand-secrets.json"@,
            )
            &&& cursor_store_at(chosen, Some(home)) == home.push(0x2fu8) + encode_utf8(
                "Library/Application Support/Cursor/User/globalStorage/state.vscdb"@,
            )
            &&& cursor_store_at(chosen, None) == encode_utf8("state.vscdb"@)
        },
{
}

/// A sealed team that the user lets be read is the number that `decrypt` makes of its bytes, beside
/// the token.
pub proof fn sealed_teams_are_what_decrypts<
    K,
    C: Fn(K) -> (bool, K),
    D: Fn(K, &[u8]) -> (Result<String, String>, K),
>(
    login: JsonModel,
    token: Seq<char>,
    team: Seq<char>,
    bytes: Seq<u8>,
    number: u64,
    consent: C,
    decrypt: D,
    before: K,
    outcome: Result<Option<Login>, Seq<char>>,
    after: K,
)
    requires
        team_opens(login, token, consent, decrypt, before, outcome, after),
        json::get(login, "cursor-selected-team-id"@) == Some(JsonModel::Text(team)),
        secret_form(team) == SecretForm::Sealed(bytes),
        number > 0,
        forall|asked: K| !#[trigger] call_ensures(consent, (before,), (false, asked)),
        forall|asked: K, data: &[u8], opened: Result<String, String>, done: K|
            data@ == bytes && #[trigger] call_ensures(decrypt, (asked, data), (opened, done)) ==> (
            opened matches Ok(content) && content@ == numbers::decimal_text(number as nat)),
    ensures
        outcome == Ok::<Option<Login>, Seq<char>>(
            Some(Login::Desktop { token, team: Some(number) }),
        ),
{
    numbers::decimal_reads_back(number as nat);
}

/// A store that is missing holds no login, one that cannot be read or is no document is an error,
/// one where nobody is signed in holds none, and any other holds what its login opens to.
pub proof fn desktop_files_hold_their_login<
    K,
    C: Fn(K) -> (bool, K),
    D: Fn(K, &[u8]) -> (Result<String, String>, K),
>(
    raw: String,
    root: JsonModel,
    login: JsonModel,
    consent: C,
    decrypt: D,
    before: K,
    outcome: Result<Option<Login>, Seq<char>>,
    after: K,
)
    ensures
        desktop_opens(DesktopFile::Missing, consent, decrypt, before, outcome, after) ==> outcome
            == Ok::<Option<Login>, Seq<char>>(None) && after == before,
        desktop_opens(DesktopFile::Unreadable, consent, decrypt, before, outcome, after)
            ==> outcome == Err::<Option<Login>, Seq<char>>(
            "Could not read Grok Bot login data. Open Grok Bot, then refresh."@,
        ) && after == before,
        desktop_opens(DesktopFile::Contents(raw), consent, decrypt, before, outcome, after)
            && json::json_document(raw@) is None ==> outcome is Err && after == before,
        desktop_opens(DesktopFile::Contents(raw), consent, decrypt, before, outcome, after)
            && json::json_document(raw@) == Some(root) && selected_login(root) is Malformed
            ==> outcome is Err && after == before,
        desktop_opens(DesktopFile::Contents(raw), consent, decrypt, before, outcome, after)
            && json::json_document(raw@) == Some(root) && selected_login(root) is SignedOut
            ==> outcome == Ok::<Option<Login>, Seq<char>>(None) && after == before,
        desktop_opens(DesktopFile::Contents(raw), consent, decrypt, before, outcome, after)
            && json::json_document(raw@) == Some(root) && selected_login(root) == Selection::Found(
            login,
        ) ==> login_opens(login, consent, decrypt, before, outcome, after),
{
}

/// The desktop login is the one that counts wherever there is one; where there is none, the login is
/// that of the Cursor database, whatever that gives.
pub proof fn desktop_logins_come_first<
    K,
    C: Fn(K) -> (bool, K),
    D: Fn(K, &[u8]) -> (Result<String, String>, K),
    R: FnOnce() -> CursorDatabase,
>(
    file: DesktopFile,
    read_cursor: R,
    consent: C,
    decrypt: D,
    before: K,
    outcome: Result<Option<Login>, Seq<char>>,
    after: K,
    login: Login,
    database: CursorDatabase,
)
    requires
        sources_open(file, read_cursor, consent, decrypt, before, outcome, after),
    ensures
        (forall|given: Result<Option<Login>, Seq<char>>, done: K| #[trigger]
            desktop_opens(file, consent, decrypt, before, given, done) ==> given == Ok::<
                Option<Login>,
                Seq<char>,
            >(Some(login))) ==> outcome == Ok::<Option<Login>, Seq<char>>(Some(login)),
        (forall|given: Result<Option<Login>, Seq<char>>, done: K| #[trigger]
            desktop_opens(file, consent, decrypt, before, given, done) ==> given == Ok::<
                Option<Login>,
                Seq<char>,
            >(None)) && (forall|found: CursorDatabase| #[trigger]
            call_ensures(read_cursor, (), found) ==> found == database) ==> outcome
            == database_login(database),
        (forall|given: Result<Option<Login>, Seq<char>>, done: K| #[trigger]
            desktop_opens(file, consent, decrypt, before, given, done) ==> given is Err) ==> outcome
            is Err,
{
}

/// A base that ends in a separator, or is empty, has the store put right behind it.
pub proof fn stores_stand_below_any_home(home: Seq<u8>)
    ensures
        home.len() > 0 && home.last() == 0x2f ==> desktop_store_at(Seq::empty(), home) == home
            + encode_utf8("Library/Application Support/Grok Bot/sand-secrets.json"@)
            && cursor_store_at(Seq::empty(), Some(home)) == home + encode_utf8(
            "Library/Application Support/Cursor/User/globalStorage/state.vscdb"@,
        ),
        desktop_store_at(Seq::empty(), Seq::empty()) =~= encode_utf8(
            "Library/Application Support/Grok Bot/sand-secrets.json"@,
        ),
{
}

} // verus!
