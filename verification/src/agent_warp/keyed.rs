//! What goes under the installation key: the identities of accounts and workspaces, the digest of
//! the cache, and the fingerprint of a source.

use vstd::prelude::*;
use vstd::string::*;
use vstd::utf8::*;
use crate::agent_warp::state::WarpError;

verus! {

pub const ACCOUNT_DOMAIN: &'static str = "tokenbar-warp-account-v1";

pub const EXTERNAL_ACCOUNT_DOMAIN: &'static str = "tokenbar-warp-external-account-v1";

pub const WORKSPACE_DOMAIN: &'static str = "tokenbar-warp-workspace-v1";

pub const CACHE_MAC_DOMAIN: &'static str = "tokenbar-warp-cache-mac-v1";

pub const SOURCE_FINGERPRINT_DOMAIN: &'static str = "tokenbar-warp-source-fingerprint-v1";

/// What a keyed digest is taken of: the domain that says what it is for, and the parts.
#[derive(Debug)]
pub struct KeyedMaterial {
    pub domain: &'static str,
    pub parts: Vec<Vec<u8>>,
}

#[verifier::ext_equal]
pub ghost struct Material {
    pub domain: Seq<char>,
    pub parts: Seq<Seq<u8>>,
}

impl View for KeyedMaterial {
    type V = Material;

    open spec fn view(&self) -> Material {
        Material {
            domain: self.domain@,
            parts: self.parts@.map_values(|part: Vec<u8>| part@),
        }
    }
}

/// What the scope of an account is taken of: its bearer.
pub open spec fn account_key(bearer: Seq<char>) -> Material {
    Material { domain: ACCOUNT_DOMAIN@, parts: seq![encode_utf8(bearer)] }
}

/// What the scope of an external file is taken of: the bytes of its path.
pub open spec fn external_account_key(path: Seq<u8>) -> Material {
    Material { domain: EXTERNAL_ACCOUNT_DOMAIN@, parts: seq![path] }
}

/// What the scope of a workspace is taken of: the scope of its account, and its id.
pub open spec fn workspace_key(account: Seq<char>, id: Seq<char>) -> Material {
    Material { domain: WORKSPACE_DOMAIN@, parts: seq![encode_utf8(account), encode_utf8(id)] }
}

/// What the digest of a cached payload is taken of: the scope of its account, and the payload.
pub open spec fn cache_key(account: Seq<char>, payload: Seq<u8>) -> Material {
    Material { domain: CACHE_MAC_DOMAIN@, parts: seq![encode_utf8(account), payload] }
}

/// What the fingerprint of a source is taken of: the scope of its account, and its usage as it is
/// written.
pub open spec fn fingerprint_key(account: Seq<char>, payload: Seq<u8>) -> Material {
    Material { domain: SOURCE_FINGERPRINT_DOMAIN@, parts: seq![encode_utf8(account), payload] }
}

fn byte_copy(bytes: &Vec<u8>) -> (r: Vec<u8>)
    ensures
        r@ == bytes@,
{
    let mut out: Vec<u8> = Vec::new();
    let mut i: usize = 0;
    while i < bytes.len()
        invariant
            i <= bytes@.len(),
            out@ == bytes@.take(i as int),
        decreases bytes@.len() - i,
    {
        out.push(bytes[i]);
        i += 1;
        assert(bytes@.take(i as int) =~= bytes@.take(i - 1).push(bytes@[i - 1]));
    }
    assert(out@ =~= bytes@);
    out
}

fn of_one(domain: &'static str, part: Vec<u8>) -> (r: KeyedMaterial)
    ensures
        r@ == (Material { domain: domain@, parts: seq![part@] }),
{
    let mut parts: Vec<Vec<u8>> = Vec::new();
    parts.push(part);
    let r = KeyedMaterial { domain, parts };
    assert(r@.parts =~= seq![part@]);
    r
}

fn of_two(domain: &'static str, first: Vec<u8>, second: Vec<u8>) -> (r: KeyedMaterial)
    ensures
        r@ == (Material { domain: domain@, parts: seq![first@, second@] }),
{
    let mut parts: Vec<Vec<u8>> = Vec::new();
    parts.push(first);
    parts.push(second);
    let r = KeyedMaterial { domain, parts };
    assert(r@.parts =~= seq![first@, second@]);
    r
}

pub fn account_material(bearer: &str) -> (r: KeyedMaterial)
    ensures
        r@ == account_key(bearer@),
{
    of_one(ACCOUNT_DOMAIN, bearer.as_bytes_vec())
}

pub fn external_account_material(path: &Vec<u8>) -> (r: KeyedMaterial)
    ensures
        r@ == external_account_key(path@),
{
    of_one(EXTERNAL_ACCOUNT_DOMAIN, byte_copy(path))
}

pub fn workspace_material(account: &str, id: &str) -> (r: KeyedMaterial)
    ensures
        r@ == workspace_key(account@, id@),
{
    of_two(WORKSPACE_DOMAIN, account.as_bytes_vec(), id.as_bytes_vec())
}

pub fn cache_material(account: &str, payload: &Vec<u8>) -> (r: KeyedMaterial)
    ensures
        r@ == cache_key(account@, payload@),
{
    of_two(CACHE_MAC_DOMAIN, account.as_bytes_vec(), byte_copy(payload))
}

pub fn fingerprint_material(account: &str, payload: &Vec<u8>) -> (r: KeyedMaterial)
    ensures
        r@ == fingerprint_key(account@, payload@),
{
    of_two(SOURCE_FINGERPRINT_DOMAIN, account.as_bytes_vec(), byte_copy(payload))
}

/// What a scope may come out as when `opaque` is asked for it: `opaque` turns the material into an
/// opaque text, and where it cannot the storage is at fault.
pub open spec fn scope_given<O: Fn(&KeyedMaterial) -> Option<String>>(
    opaque: O,
    material: Material,
    outcome: Result<Seq<char>, WarpError>,
) -> bool {
    exists|asked: &KeyedMaterial, given: Option<String>|
        {
            &&& asked@ == material
            &&& #[trigger] call_ensures(opaque, (asked,), given)
            &&& outcome == (match given {
                Some(scope) => Ok::<Seq<char>, WarpError>(scope@),
                None => Err(WarpError::Storage),
            })
        }
}

/// The scope that a result holds, or its error.
pub open spec fn scope_text(outcome: Result<String, WarpError>) -> Result<Seq<char>, WarpError> {
    match outcome {
        Ok(scope) => Ok(scope@),
        Err(error) => Err(error),
    }
}

/// Asks `opaque` for the scope of a material.
pub fn scope_from<O: Fn(&KeyedMaterial) -> Option<String>>(
    material: &KeyedMaterial,
    opaque: &O,
) -> (r: Result<String, WarpError>)
    requires
        call_requires(*opaque, (material,)),
    ensures
        scope_given(*opaque, material@, scope_text(r)),
{
    let given = opaque(material);
    assert(call_ensures(*opaque, (material,), given));
    match given {
        Some(scope) => Ok(scope),
        None => Err(WarpError::Storage),
    }
}

/// The scope of the account that a bearer belongs to.
pub fn account_scope<O: Fn(&KeyedMaterial) -> Option<String>>(bearer: &str, opaque: &O) -> (r:
    Result<String, WarpError>)
    requires
        forall|material: &KeyedMaterial|
            material@ == account_key(bearer@) ==> #[trigger] call_requires(*opaque, (material,)),
    ensures
        scope_given(*opaque, account_key(bearer@), scope_text(r)),
{
    scope_from(&account_material(bearer), opaque)
}

proof fn lemma_domains_differ()
    ensures
        ACCOUNT_DOMAIN@ != EXTERNAL_ACCOUNT_DOMAIN@,
        ACCOUNT_DOMAIN@ != WORKSPACE_DOMAIN@,
        ACCOUNT_DOMAIN@ != CACHE_MAC_DOMAIN@,
        ACCOUNT_DOMAIN@ != SOURCE_FINGERPRINT_DOMAIN@,
        EXTERNAL_ACCOUNT_DOMAIN@ != WORKSPACE_DOMAIN@,
        EXTERNAL_ACCOUNT_DOMAIN@ != CACHE_MAC_DOMAIN@,
        EXTERNAL_ACCOUNT_DOMAIN@ != SOURCE_FINGERPRINT_DOMAIN@,
        WORKSPACE_DOMAIN@ != CACHE_MAC_DOMAIN@,
        WORKSPACE_DOMAIN@ != SOURCE_FINGERPRINT_DOMAIN@,
        CACHE_MAC_DOMAIN@ != SOURCE_FINGERPRINT_DOMAIN@,
{
    reveal_strlit("tokenbar-warp-account-v1");
    reveal_strlit("tokenbar-warp-external-account-v1");
    reveal_strlit("tokenbar-warp-workspace-v1");
    reveal_strlit("tokenbar-warp-cache-mac-v1");
    reveal_strlit("tokenbar-warp-source-fingerprint-v1");
    assert(ACCOUNT_DOMAIN@.len() == 24);
    assert(EXTERNAL_ACCOUNT_DOMAIN@.len() == 33);
    assert(WORKSPACE_DOMAIN@.len() == 26);
    assert(CACHE_MAC_DOMAIN@.len() == 26);
    assert(SOURCE_FINGERPRINT_DOMAIN@.len() == 35);
    assert(WORKSPACE_DOMAIN@[14] == 'w');
    assert(CACHE_MAC_DOMAIN@[14] == 'c');
}

/// What one digest is taken of is never what a digest for another use is taken of, whatever the
/// parts are.
pub proof fn uses_of_the_key_are_kept_apart(
    bearer: Seq<char>,
    path: Seq<u8>,
    account: Seq<char>,
    id: Seq<char>,
    payload: Seq<u8>,
    other_account: Seq<char>,
    other_payload: Seq<u8>,
)
    ensures
        account_key(bearer) != external_account_key(path),
        account_key(bearer) != workspace_key(account, id),
        account_key(bearer) != cache_key(account, payload),
        account_key(bearer) != fingerprint_key(account, payload),
        external_account_key(path) != workspace_key(account, id),
        external_account_key(path) != cache_key(account, payload),
        external_account_key(path) != fingerprint_key(account, payload),
        workspace_key(account, id) != cache_key(other_account, payload),
        workspace_key(account, id) != fingerprint_key(other_account, payload),
        cache_key(account, payload) != fingerprint_key(other_account, other_payload),
{
    lemma_domains_differ();
}

/// Two accounts never share the material of a workspace, and neither do two workspaces of one
/// account.
pub proof fn workspaces_are_kept_apart(
    account: Seq<char>,
    id: Seq<char>,
    other_account: Seq<char>,
    other_id: Seq<char>,
)
    requires
        workspace_key(account, id) == workspace_key(other_account, other_id),
    ensures
        account == other_account,
        id == other_id,
{
    let one = workspace_key(account, id).parts;
    let other = workspace_key(other_account, other_id).parts;
    assert(one[0] == other[0] && one[1] == other[1]);
    encode_utf8_decode_utf8(account);
    encode_utf8_decode_utf8(other_account);
    encode_utf8_decode_utf8(id);
    encode_utf8_decode_utf8(other_id);
}

/// A scope is what the key gives for the material that it is asked about, and without the key it is
/// a fault of the storage.
pub proof fn scopes_are_what_the_key_gives<O: Fn(&KeyedMaterial) -> Option<String>>(
    opaque: O,
    material: Material,
    scope: Seq<char>,
    outcome: Result<Seq<char>, WarpError>,
)
    requires
        scope_given(opaque, material, outcome),
    ensures
        (forall|asked: &KeyedMaterial, given: Option<String>|
            asked@ == material && #[trigger] call_ensures(opaque, (asked,), given) ==> (
            given matches Some(held) && held@ == scope)) ==> outcome == Ok::<Seq<char>, WarpError>(
            scope,
        ),
        (forall|asked: &KeyedMaterial, given: Option<String>|
            asked@ == material && #[trigger] call_ensures(opaque, (asked,), given) ==> given
                is None) ==> outcome == Err::<Seq<char>, WarpError>(WarpError::Storage),
{
}

} // verus!
