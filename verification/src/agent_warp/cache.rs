//! The cache of the app's own usage, and making a source out of usage.

use vstd::prelude::*;
use vstd::string::*;
use vstd::utf8::*;
use crate::agent_warp::keyed::{
    self, cache_material, external_account_material, fingerprint_material, scope_from,
    KeyedMaterial,
};
use crate::agent_warp::normalize::{self, normalize_external, ExternalUsage};
use crate::agent_warp::state::{
    self, path_identity_bytes, validate_external_filename, PreparedModel, PreparedSource,
    WarpError,
};
use crate::agent_warp::transport::MAX_RESPONSE_BYTES;
use crate::encoding::{self, decode_url_safe, encode_url_safe};
use crate::paths::SourcePath;
use crate::text::same_text;
use crate::warp_usage::{
    self, SourceModel, UsageModel, WarpNormalizedUsage, WarpUsageSource,
};

verus! {

pub const CACHE_SCHEMA_VERSION: u32 = 1;

/// A cached payload with the account it belongs to and a keyed digest of both.
pub struct CacheEnvelope {
    pub schema_version: u32,
    pub account_scope: String,
    pub payload_bytes_base64: String,
    pub payload_mac: String,
}

/// What an envelope is for the account that looks for its cache.
pub ghost enum CacheFrame {
    /// Of another account, or of another version of the cache.
    Other,
    /// Not readable.
    Damaged,
    /// A payload and the digest that it came with.
    Framed { payload: Seq<u8>, mac: Seq<u8> },
}

/// What an envelope holds for an account scope.
pub open spec fn frame_of(envelope: CacheEnvelope, scope: Seq<char>) -> CacheFrame {
    if envelope.schema_version != CACHE_SCHEMA_VERSION || envelope.account_scope@ != scope {
        CacheFrame::Other
    } else {
        match (
            encoding::url_safe_bytes(envelope.payload_bytes_base64@),
            encoding::url_safe_bytes(envelope.payload_mac@),
        ) {
            (Some(payload), Some(mac)) => if payload.len() > MAX_RESPONSE_BYTES {
                CacheFrame::Damaged
            } else {
                CacheFrame::Framed { payload, mac }
            },
            _ => CacheFrame::Damaged,
        }
    }
}

/// Whether an envelope carries that payload and digest for that account.
pub open spec fn carries(
    envelope: CacheEnvelope,
    scope: Seq<char>,
    payload: Seq<u8>,
    mac: Seq<u8>,
) -> bool {
    &&& envelope.schema_version == CACHE_SCHEMA_VERSION
    &&& envelope.account_scope@ == scope
    &&& envelope.payload_bytes_base64@ == encoding::url_safe_text(payload)
    &&& envelope.payload_mac@ == encoding::url_safe_text(mac)
    &&& encoding::url_safe_bytes(envelope.payload_bytes_base64@) == Some(payload)
    &&& encoding::url_safe_bytes(envelope.payload_mac@) == Some(mac)
}

/// What `write` may turn usage into: its bytes, or nothing where it cannot be written.
pub open spec fn writes<W: Fn(&WarpNormalizedUsage) -> Option<Vec<u8>>>(
    write: W,
    usage: UsageModel,
    payload: Option<Seq<u8>>,
) -> bool {
    exists|held: &WarpNormalizedUsage, written: Option<Vec<u8>>|
        {
            &&& held@ == usage
            &&& #[trigger] call_ensures(write, (held,), written)
            &&& encoding::opt_bytes(written) == payload
        }
}

/// What `digest` may compute of a material: its keyed digest, or nothing where the key is not at
/// hand.
pub open spec fn digests<D: Fn(&KeyedMaterial) -> Option<[u8; 32]>>(
    digest: D,
    material: keyed::Material,
    mac: Option<Seq<u8>>,
) -> bool {
    exists|asked: &KeyedMaterial, given: Option<[u8; 32]>|
        {
            &&& asked@ == material
            &&& #[trigger] call_ensures(digest, (asked,), given)
            &&& mac == (match given {
                Some(bytes) => Some(bytes@),
                None => None,
            })
        }
}

/// What putting usage into an envelope may give: the written usage with the keyed digest of account
/// and payload. Usage that cannot be written is an internal error, a digest that cannot be had one
/// of the storage.
pub open spec fn cache_encodes<
    W: Fn(&WarpNormalizedUsage) -> Option<Vec<u8>>,
    D: Fn(&KeyedMaterial) -> Option<[u8; 32]>,
>(
    usage: UsageModel,
    write: W,
    digest: D,
    outcome: Result<CacheEnvelope, WarpError>,
) -> bool {
    exists|payload: Option<Seq<u8>>|
        {
            &&& #[trigger] writes(write, usage, payload)
            &&& match payload {
                None => outcome == Err::<CacheEnvelope, WarpError>(WarpError::Internal),
                Some(bytes) => payload_seals(usage.account_scope, bytes, digest, outcome),
            }
        }
}

/// What putting a payload into an envelope may give.
pub open spec fn payload_seals<D: Fn(&KeyedMaterial) -> Option<[u8; 32]>>(
    scope: Seq<char>,
    payload: Seq<u8>,
    digest: D,
    outcome: Result<CacheEnvelope, WarpError>,
) -> bool {
    exists|mac: Option<Seq<u8>>|
        {
            &&& #[trigger] digests(digest, keyed::cache_key(scope, payload), mac)
            &&& match mac {
                None => outcome == Err::<CacheEnvelope, WarpError>(WarpError::Storage),
                Some(tag) => outcome matches Ok(envelope) && carries(envelope, scope, payload, tag),
            }
        }
}

fn bytes_of(digest: &[u8; 32]) -> (r: Vec<u8>)
    ensures
        r@ == digest@,
{
    let mut out: Vec<u8> = Vec::new();
    let mut i: usize = 0;
    while i < 32
        invariant
            i <= 32,
            out@ == digest@.take(i as int),
        decreases 32 - i,
    {
        out.push(digest[i]);
        i += 1;
        assert(digest@.take(i as int) =~= digest@.take(i - 1).push(digest@[i - 1]));
    }
    assert(out@ =~= digest@);
    out
}

/// Puts usage into an envelope for its account. `write` turns the usage into bytes, `digest`
/// computes keyed digests.
pub fn encode_cache<
    W: Fn(&WarpNormalizedUsage) -> Option<Vec<u8>>,
    D: Fn(&KeyedMaterial) -> Option<[u8; 32]>,
>(usage: &WarpNormalizedUsage, write: &W, digest: &D) -> (r: Result<CacheEnvelope, WarpError>)
    requires
        call_requires(*write, (usage,)),
        forall|payload: Vec<u8>| #[trigger]
            call_ensures(*write, (usage,), Some(payload)) ==> payload@.len() <= usize::MAX / 4,
        forall|payload: Vec<u8>, material: &KeyedMaterial|
            #![trigger call_ensures(*write, (usage,), Some(payload)), call_requires(*digest, (material,))]
            call_ensures(*write, (usage,), Some(payload)) && material@ == keyed::cache_key(
                usage@.account_scope,
                payload@,
            ) ==> call_requires(*digest, (material,)),
    ensures
        cache_encodes(usage@, *write, *digest, r),
{
    let written = write(usage);
    assert(call_ensures(*write, (usage,), written));
    assert(writes(*write, usage@, encoding::opt_bytes(written)));
    let payload = match written {
        Some(payload) => payload,
        None => return Err(WarpError::Internal),
    };
    assert(call_ensures(*write, (usage,), Some(payload)));
    assert(writes(*write, usage@, Some(payload@)));
    let ghost key = keyed::cache_key(usage@.account_scope, payload@);
    let material = cache_material(&usage.account_scope, &payload);
    let given = digest(&material);
    assert(call_ensures(*digest, (&material,), given));
    let mac = match given {
        Some(mac) => mac,
        None => {
            assert(digests(*digest, key, None));
            return Err(WarpError::Storage);
        },
    };
    assert(digests(*digest, key, Some(mac@)));
    Ok(
        CacheEnvelope {
            schema_version: CACHE_SCHEMA_VERSION,
            account_scope: usage.account_scope.clone(),
            payload_bytes_base64: encode_url_safe(&payload),
            payload_mac: encode_url_safe(&bytes_of(&mac)),
        },
    )
}

/// What is written into the cache for an account is what a later read for that account finds, and
/// no other account finds it.
pub proof fn cached_payloads_read_back(
    envelope: CacheEnvelope,
    scope: Seq<char>,
    other: Seq<char>,
    payload: Seq<u8>,
    mac: Seq<u8>,
)
    requires
        carries(envelope, scope, payload, mac),
        payload.len() <= MAX_RESPONSE_BYTES,
    ensures
        frame_of(envelope, scope) == (CacheFrame::Framed { payload, mac }),
        other != scope ==> frame_of(envelope, other) is Other,
{
}

/// What a frame holds, of the executable kind.
enum Frame {
    Other,
    Damaged,
    Framed { payload: Vec<u8>, mac: Vec<u8> },
}

fn open_frame(envelope: &CacheEnvelope, scope: &str) -> (r: Frame)
    ensures
        match r {
            Frame::Other => frame_of(*envelope, scope@) is Other,
            Frame::Damaged => frame_of(*envelope, scope@) is Damaged,
            Frame::Framed { payload, mac } => frame_of(*envelope, scope@) == (CacheFrame::Framed {
                payload: payload@,
                mac: mac@,
            }),
        },
{
    if envelope.schema_version != CACHE_SCHEMA_VERSION || !same_text(
        &envelope.account_scope,
        scope,
    ) {
        return Frame::Other;
    }
    let payload = match decode_url_safe(&envelope.payload_bytes_base64) {
        Some(payload) => payload,
        None => return Frame::Damaged,
    };
    if payload.len() as u64 > MAX_RESPONSE_BYTES {
        return Frame::Damaged;
    }
    match decode_url_safe(&envelope.payload_mac) {
        Some(mac) => Frame::Framed { payload, mac },
        None => Frame::Damaged,
    }
}

/// The source that a result holds, or its error.
pub open spec fn prepared(outcome: Result<PreparedSource, WarpError>) -> Result<
    PreparedModel,
    WarpError,
> {
    match outcome {
        Ok(source) => Ok(source@),
        Err(error) => Err(error),
    }
}

/// What making a source out of usage may give: valid usage from a named file, with the keyed digest
/// of account and written usage as its fingerprint.
pub open spec fn source_makes<
    W: Fn(&WarpNormalizedUsage) -> Option<Vec<u8>>,
    D: Fn(&KeyedMaterial) -> Option<[u8; 32]>,
>(
    write: W,
    digest: D,
    path: Seq<u8>,
    modified_ms: u64,
    usage: UsageModel,
    outcome: Result<PreparedModel, WarpError>,
) -> bool {
    exists|payload: Option<Seq<u8>>|
        {
            &&& #[trigger] writes(write, usage, payload)
            &&& match payload {
                None => outcome == Err::<PreparedModel, WarpError>(WarpError::Internal),
                Some(bytes) => fingerprint_makes(digest, path, modified_ms, usage, bytes, outcome),
            }
        }
}

/// What making a source out of usage and its written form may give.
pub open spec fn fingerprint_makes<D: Fn(&KeyedMaterial) -> Option<[u8; 32]>>(
    digest: D,
    path: Seq<u8>,
    modified_ms: u64,
    usage: UsageModel,
    payload: Seq<u8>,
    outcome: Result<PreparedModel, WarpError>,
) -> bool {
    exists|mac: Option<Seq<u8>>|
        {
            &&& #[trigger] digests(
                digest,
                keyed::fingerprint_key(usage.account_scope, payload),
                mac,
            )
            &&& outcome == (match mac {
                None => Err::<PreparedModel, WarpError>(WarpError::Storage),
                Some(fingerprint) => if warp_usage::usage_fault(usage) is None && path.len() > 0 {
                    Ok(
                        PreparedModel {
                            source: SourceModel {
                                path,
                                usage,
                                fingerprint,
                                observed_mtime_ms: modified_ms,
                            },
                            usage,
                        },
                    )
                } else {
                    Err(WarpError::InvalidUsage)
                },
            })
        }
}

/// That the calls which making a source out of usage may make are allowed: the usage is written,
/// and a digest is taken for its fingerprint.
pub open spec fn source_calls<
    W: Fn(&WarpNormalizedUsage) -> Option<Vec<u8>>,
    D: Fn(&KeyedMaterial) -> Option<[u8; 32]>,
>(write: W, digest: D, usage: UsageModel) -> bool {
    &&& forall|held: &WarpNormalizedUsage|
        held@ == usage ==> #[trigger] call_requires(write, (held,))
    &&& forall|held: &WarpNormalizedUsage, payload: Vec<u8>, material: &KeyedMaterial|
        #![trigger call_ensures(write, (held,), Some(payload)), call_requires(digest, (material,))]
        held@ == usage && call_ensures(write, (held,), Some(payload)) && material@
            == keyed::fingerprint_key(usage.account_scope, payload@) ==> call_requires(
            digest,
            (material,),
        )
}

pub fn source_from_usage<
    W: Fn(&WarpNormalizedUsage) -> Option<Vec<u8>>,
    D: Fn(&KeyedMaterial) -> Option<[u8; 32]>,
>(
    path: SourcePath,
    modified_ms: u64,
    usage: WarpNormalizedUsage,
    write: &W,
    digest: &D,
) -> (r: Result<PreparedSource, WarpError>)
    requires
        source_calls(*write, *digest, usage@),
    ensures
        source_makes(*write, *digest, path@, modified_ms, usage@, prepared(r)),
        r matches Ok(source) ==> source@.source.well_formed() && source@.source.usage
            == source@.usage,
{
    let written = write(&usage);
    assert(call_ensures(*write, (&usage,), written));
    assert(writes(*write, usage@, encoding::opt_bytes(written)));
    let payload = match written {
        Some(payload) => payload,
        None => return Err(WarpError::Internal),
    };
    assert(call_ensures(*write, (&usage,), Some(payload)));
    assert(writes(*write, usage@, Some(payload@)));
    let ghost key = keyed::fingerprint_key(usage@.account_scope, payload@);
    let material = fingerprint_material(&usage.account_scope, &payload);
    let given = digest(&material);
    assert(call_ensures(*digest, (&material,), given));
    let fingerprint = match given {
        Some(fingerprint) => fingerprint,
        None => {
            assert(digests(*digest, key, None));
            return Err(WarpError::Storage);
        },
    };
    assert(digests(*digest, key, Some(fingerprint@)));
    match WarpUsageSource::new(path, usage.copy(), fingerprint, modified_ms) {
        Ok(source) => Ok(PreparedSource { source, usage }),
        Err(_) => Err(WarpError::InvalidUsage),
    }
}

/// A file that was read whole: where it is, what it holds, when it was last changed.
pub struct SecureFileRead {
    pub path: SourcePath,
    pub bytes: Vec<u8>,
    pub modified_ms: u64,
}

/// What opening a cached envelope may give. `verify` checks the keyed digest of account and payload,
/// `parse` reads the payload as usage.
pub open spec fn cache_opens<
    V: Fn(&KeyedMaterial, &Vec<u8>) -> bool,
    R: Fn(&Vec<u8>) -> Option<WarpNormalizedUsage>,
    W: Fn(&WarpNormalizedUsage) -> Option<Vec<u8>>,
    D: Fn(&KeyedMaterial) -> Option<[u8; 32]>,
>(
    envelope: Option<CacheEnvelope>,
    path: Seq<u8>,
    modified_ms: u64,
    scope: Seq<char>,
    verify: V,
    parse: R,
    write: W,
    digest: D,
    outcome: Result<Option<PreparedModel>, WarpError>,
) -> bool {
    match envelope {
        None => outcome == Err::<Option<PreparedModel>, WarpError>(WarpError::Storage),
        Some(held) => match frame_of(held, scope) {
            CacheFrame::Other => outcome == Ok::<Option<PreparedModel>, WarpError>(None),
            CacheFrame::Damaged => outcome == Err::<Option<PreparedModel>, WarpError>(
                WarpError::Storage,
            ),
            CacheFrame::Framed { payload, mac } => exists|
                asked: &KeyedMaterial,
                tag: &Vec<u8>,
                genuine: bool,
            |
                {
                    &&& asked@ == keyed::cache_key(scope, payload)
                    &&& tag@ == mac
                    &&& #[trigger] call_ensures(verify, (asked, tag), genuine)
                    &&& if !genuine {
                        outcome == Err::<Option<PreparedModel>, WarpError>(WarpError::Storage)
                    } else {
                        exists|content: &Vec<u8>, read: Option<WarpNormalizedUsage>|
                            {
                                &&& content@ == payload
                                &&& #[trigger] call_ensures(parse, (content,), read)
                                &&& payload_opens(
                                    read,
                                    path,
                                    modified_ms,
                                    scope,
                                    write,
                                    digest,
                                    outcome,
                                )
                            }
                    }
                },
        },
    }
}

/// What a genuine payload may give: usage of the account that looks for it, made into a source.
pub open spec fn payload_opens<
    W: Fn(&WarpNormalizedUsage) -> Option<Vec<u8>>,
    D: Fn(&KeyedMaterial) -> Option<[u8; 32]>,
>(
    read: Option<WarpNormalizedUsage>,
    path: Seq<u8>,
    modified_ms: u64,
    scope: Seq<char>,
    write: W,
    digest: D,
    outcome: Result<Option<PreparedModel>, WarpError>,
) -> bool {
    match read {
        None => outcome == Err::<Option<PreparedModel>, WarpError>(WarpError::Storage),
        Some(usage) => if usage@.account_scope != scope {
            outcome == Err::<Option<PreparedModel>, WarpError>(WarpError::ScopeMismatch)
        } else {
            match outcome {
                Ok(Some(source)) => source_makes(
                    write,
                    digest,
                    path,
                    modified_ms,
                    usage@,
                    Ok(source),
                ),
                Ok(None) => false,
                Err(error) => source_makes(write, digest, path, modified_ms, usage@, Err(error)),
            }
        },
    }
}

/// The source that a result may hold, or its error.
pub open spec fn opened(outcome: Result<Option<PreparedSource>, WarpError>) -> Result<
    Option<PreparedModel>,
    WarpError,
> {
    match outcome {
        Ok(Some(source)) => Ok(Some(source@)),
        Ok(None) => Ok(None),
        Err(error) => Err(error),
    }
}

/// Whether an envelope is framed for an account, around this payload and digest.
pub open spec fn frames(
    envelope: Option<CacheEnvelope>,
    scope: Seq<char>,
    payload: Seq<u8>,
    mac: Seq<u8>,
) -> bool {
    envelope matches Some(held) && frame_of(held, scope) == (CacheFrame::Framed { payload, mac })
}

/// Whether `verify` may accept this payload of an envelope.
pub open spec fn accepts<V: Fn(&KeyedMaterial, &Vec<u8>) -> bool>(
    envelope: Option<CacheEnvelope>,
    scope: Seq<char>,
    verify: V,
    payload: Seq<u8>,
) -> bool {
    exists|asked: &KeyedMaterial, tag: &Vec<u8>|
        {
            &&& asked@ == keyed::cache_key(scope, payload)
            &&& frames(envelope, scope, payload, tag@)
            &&& #[trigger] call_ensures(verify, (asked, tag), true)
        }
}

/// Opens a cached envelope, `None` where the file was none, for an account scope. `verify` is
/// asked of the framed payload alone, only a payload that it accepted is read by `parse`, and only
/// usage of that account gets a fingerprint.
pub fn decode_cache<
    V: Fn(&KeyedMaterial, &Vec<u8>) -> bool,
    R: Fn(&Vec<u8>) -> Option<WarpNormalizedUsage>,
    W: Fn(&WarpNormalizedUsage) -> Option<Vec<u8>>,
    D: Fn(&KeyedMaterial) -> Option<[u8; 32]>,
>(
    envelope: &Option<CacheEnvelope>,
    path: SourcePath,
    modified_ms: u64,
    expected_scope: &str,
    verify: &V,
    parse: &R,
    write: &W,
    digest: &D,
) -> (r: Result<Option<PreparedSource>, WarpError>)
    requires
        forall|payload: Seq<u8>, asked: &KeyedMaterial, tag: &Vec<u8>|
            #![trigger frames(*envelope, expected_scope@, payload, tag@), call_requires(*verify, (asked, tag))]
            frames(*envelope, expected_scope@, payload, tag@) && asked@ == keyed::cache_key(
                expected_scope@,
                payload,
            ) ==> call_requires(*verify, (asked, tag)),
        forall|content: &Vec<u8>|
            accepts(*envelope, expected_scope@, *verify, content@) ==> #[trigger] call_requires(
                *parse,
                (content,),
            ),
        forall|usage: UsageModel|
            usage.account_scope == expected_scope@ ==> #[trigger] source_calls(
                *write,
                *digest,
                usage,
            ),
    ensures
        cache_opens(
            *envelope,
            path@,
            modified_ms,
            expected_scope@,
            *verify,
            *parse,
            *write,
            *digest,
            opened(r),
        ),
{
    let held = match envelope {
        Some(held) => held,
        None => return Err(WarpError::Storage),
    };
    let (payload, mac) = match open_frame(held, expected_scope) {
        Frame::Other => return Ok(None),
        Frame::Damaged => return Err(WarpError::Storage),
        Frame::Framed { payload, mac } => (payload, mac),
    };
    assert(frames(*envelope, expected_scope@, payload@, mac@));
    let material = cache_material(expected_scope, &payload);
    let genuine = verify(&material, &mac);
    assert(call_ensures(*verify, (&material, &mac), genuine));
    if !genuine {
        return Err(WarpError::Storage);
    }
    assert(accepts(*envelope, expected_scope@, *verify, payload@));
    let read = parse(&payload);
    assert(call_ensures(*parse, (&payload,), read));
    let usage = match read {
        Some(usage) => usage,
        None => return Err(WarpError::Storage),
    };
    if !same_text(&usage.account_scope, expected_scope) {
        return Err(WarpError::ScopeMismatch);
    }
    assert(source_calls(*write, *digest, usage@));
    match source_from_usage(path, modified_ms, usage, write, digest) {
        Ok(source) => Ok(Some(source)),
        Err(error) => Err(error),
    }
}

/// A cached source is only ever handed to the account that it belongs to, and is valid.
pub proof fn cached_sources_belong_to_their_account<
    V: Fn(&KeyedMaterial, &Vec<u8>) -> bool,
    R: Fn(&Vec<u8>) -> Option<WarpNormalizedUsage>,
    W: Fn(&WarpNormalizedUsage) -> Option<Vec<u8>>,
    D: Fn(&KeyedMaterial) -> Option<[u8; 32]>,
>(
    envelope: Option<CacheEnvelope>,
    path: Seq<u8>,
    modified_ms: u64,
    scope: Seq<char>,
    verify: V,
    parse: R,
    write: W,
    digest: D,
    source: PreparedModel,
)
    requires
        cache_opens(
            envelope,
            path,
            modified_ms,
            scope,
            verify,
            parse,
            write,
            digest,
            Ok(Some(source)),
        ),
    ensures
        source.usage.account_scope == scope,
        source.source.usage == source.usage,
        source.source.well_formed(),
        envelope matches Some(held) && held.account_scope@ == scope,
{
}

/// Whether `verify` accepts what `digest` computes.
pub open spec fn keys_agree<
    V: Fn(&KeyedMaterial, &Vec<u8>) -> bool,
    D: Fn(&KeyedMaterial) -> Option<[u8; 32]>,
>(verify: V, digest: D) -> bool {
    forall|asked: &KeyedMaterial, tag: &Vec<u8>, genuine: bool|
        digests(digest, asked@, Some(tag@)) && #[trigger] call_ensures(
            verify,
            (asked, tag),
            genuine,
        ) ==> genuine
}

/// Whether `parse` reads as this usage whatever `write` wrote of it.
pub open spec fn reads_back<
    R: Fn(&Vec<u8>) -> Option<WarpNormalizedUsage>,
    W: Fn(&WarpNormalizedUsage) -> Option<Vec<u8>>,
>(parse: R, write: W, usage: UsageModel) -> bool {
    forall|content: &Vec<u8>, read: Option<WarpNormalizedUsage>|
        writes(write, usage, Some(content@)) && #[trigger] call_ensures(parse, (content,), read)
            ==> (read matches Some(held) && held@ == usage)
}

/// What was put into the cache opens again for its account, and is nothing to any other: for valid
/// usage that is written within the limit, the outcome is a source with that usage, from the file
/// that was read. The key must accept its own digests and be at hand, and written usage must read
/// back.
pub proof fn written_caches_open_again<
    V: Fn(&KeyedMaterial, &Vec<u8>) -> bool,
    R: Fn(&Vec<u8>) -> Option<WarpNormalizedUsage>,
    W: Fn(&WarpNormalizedUsage) -> Option<Vec<u8>>,
    D: Fn(&KeyedMaterial) -> Option<[u8; 32]>,
>(
    usage: UsageModel,
    envelope: CacheEnvelope,
    path: Seq<u8>,
    modified_ms: u64,
    verify: V,
    parse: R,
    write: W,
    digest: D,
    outcome: Result<Option<PreparedModel>, WarpError>,
    other: Seq<char>,
    elsewhere: Result<Option<PreparedModel>, WarpError>,
)
    requires
        cache_encodes(usage, write, digest, Ok(envelope)),
        warp_usage::usage_fault(usage) is None,
        path.len() > 0,
        forall|payload: Option<Seq<u8>>| #[trigger]
            writes(write, usage, payload) ==> (payload matches Some(bytes) && bytes.len()
                <= MAX_RESPONSE_BYTES),
        forall|material: keyed::Material, mac: Option<Seq<u8>>| #[trigger]
            digests(digest, material, mac) ==> mac is Some,
        keys_agree(verify, digest),
        reads_back(parse, write, usage),
        cache_opens(
            Some(envelope),
            path,
            modified_ms,
            usage.account_scope,
            verify,
            parse,
            write,
            digest,
            outcome,
        ),
        other != usage.account_scope,
        cache_opens(
            Some(envelope),
            path,
            modified_ms,
            other,
            verify,
            parse,
            write,
            digest,
            elsewhere,
        ),
    ensures
        outcome matches Ok(Some(source)) && source.usage == usage && source.source.usage == usage
            && source.source.path == path && source.source.observed_mtime_ms == modified_ms,
        elsewhere == Ok::<Option<PreparedModel>, WarpError>(None),
{
    let payload = choose|payload: Option<Seq<u8>>| #[trigger]
        writes(write, usage, payload) && payload is Some && payload_seals(
            usage.account_scope,
            payload->Some_0,
            digest,
            Ok(envelope),
        );
    let bytes = payload->Some_0;
    let mac = choose|mac: Option<Seq<u8>>| #[trigger]
        digests(digest, keyed::cache_key(usage.account_scope, bytes), mac) && mac is Some && carries(
            envelope,
            usage.account_scope,
            bytes,
            mac->Some_0,
        );
    assert(frame_of(envelope, usage.account_scope) == (CacheFrame::Framed {
        payload: bytes,
        mac: mac->Some_0,
    }));
}

/// A cache whose payload or digest was changed never opens: where `verify` accepts nothing but the
/// keyed digest of what it is asked about, a framed payload with any other digest is an error.
pub proof fn altered_caches_never_open<
    V: Fn(&KeyedMaterial, &Vec<u8>) -> bool,
    R: Fn(&Vec<u8>) -> Option<WarpNormalizedUsage>,
    W: Fn(&WarpNormalizedUsage) -> Option<Vec<u8>>,
    D: Fn(&KeyedMaterial) -> Option<[u8; 32]>,
>(
    envelope: CacheEnvelope,
    payload: Seq<u8>,
    mac: Seq<u8>,
    path: Seq<u8>,
    modified_ms: u64,
    scope: Seq<char>,
    keyed_digest: spec_fn(keyed::Material) -> Seq<u8>,
    verify: V,
    parse: R,
    write: W,
    digest: D,
    outcome: Result<Option<PreparedModel>, WarpError>,
)
    requires
        forall|asked: &KeyedMaterial, tag: &Vec<u8>| #[trigger]
            call_ensures(verify, (asked, tag), true) ==> tag@ == keyed_digest(asked@),
        frame_of(envelope, scope) == (CacheFrame::Framed { payload, mac }),
        mac != keyed_digest(keyed::cache_key(scope, payload)),
        cache_opens(
            Some(envelope),
            path,
            modified_ms,
            scope,
            verify,
            parse,
            write,
            digest,
            outcome,
        ),
    ensures
        outcome == Err::<Option<PreparedModel>, WarpError>(WarpError::Storage),
{
}

/// What looking for the cache gave.
pub enum CacheLookup {
    /// The file could not be read.
    Unreadable,
    /// There is no file.
    Absent,
    /// The file was read, and this is what opening it gave.
    Read(Result<Option<PreparedSource>, WarpError>),
}

/// What looking for the cached source of an account gives.
pub open spec fn cache_loads<P: FnOnce() -> Result<(), WarpError>>(
    lookup: CacheLookup,
    purge: P,
    outcome: Result<Option<PreparedSource>, WarpError>,
) -> bool {
    match lookup {
        CacheLookup::Unreadable => outcome == Err::<Option<PreparedSource>, WarpError>(
            WarpError::Storage,
        ),
        CacheLookup::Absent => outcome == Ok::<Option<PreparedSource>, WarpError>(None),
        CacheLookup::Read(Ok(candidate)) => outcome == Ok::<Option<PreparedSource>, WarpError>(
            candidate,
        ),
        CacheLookup::Read(Err(_)) => exists|purged: Result<(), WarpError>| #[trigger]
            call_ensures(purge, (), purged) && outcome == (match purged {
                Ok(_) => Ok::<Option<PreparedSource>, WarpError>(None),
                Err(_) => Err(WarpError::Storage),
            }),
    }
}

/// The cached source of an account, if there is one. A cache that does not open is removed and
/// counts as none.
pub fn load_cache<P: FnOnce() -> Result<(), WarpError>>(lookup: CacheLookup, purge: P) -> (r: Result<
    Option<PreparedSource>,
    WarpError,
>)
    requires
        lookup matches CacheLookup::Read(Err(_)) ==> call_requires(purge, ()),
    ensures
        cache_loads(lookup, purge, r),
{
    match lookup {
        CacheLookup::Unreadable => Err(WarpError::Storage),
        CacheLookup::Absent => Ok(None),
        CacheLookup::Read(Ok(candidate)) => Ok(candidate),
        CacheLookup::Read(Err(_)) => {
            let purged = purge();
            assert(call_ensures(purge, (), purged));
            match purged {
                Ok(_) => Ok(None),
                Err(_) => Err(WarpError::Storage),
            }
        },
    }
}

/// The source that was kept, given what reading it back gave.
pub open spec fn kept_source(
    read_back: Option<Result<Option<PreparedSource>, WarpError>>,
) -> Result<PreparedSource, WarpError> {
    match read_back {
        None => Err(WarpError::Storage),
        Some(Ok(Some(source))) => Ok(source),
        Some(Ok(None)) => Err(WarpError::ScopeMismatch),
        Some(Err(error)) => Err(error),
    }
}

/// The source that a write to the cache leaves: what opening the cache right after it gave, which
/// must be of the same account. `None` where the cache could not be written.
pub fn persist_app_source(read_back: Option<Result<Option<PreparedSource>, WarpError>>) -> (r:
    Result<PreparedSource, WarpError>)
    ensures
        r == kept_source(read_back),
{
    match read_back {
        None => Err(WarpError::Storage),
        Some(Ok(Some(source))) => Ok(source),
        Some(Ok(None)) => Err(WarpError::ScopeMismatch),
        Some(Err(error)) => Err(error),
    }
}

/// What making a source out of an external file may give. `opaque` gives scopes under the
/// installation key, `decode` reads the bytes of the file as usage.
pub open spec fn external_prepares<
    O: Fn(&KeyedMaterial) -> Option<String>,
    R: Fn(&Vec<u8>) -> Option<ExternalUsage>,
    W: Fn(&WarpNormalizedUsage) -> Option<Vec<u8>>,
    D: Fn(&KeyedMaterial) -> Option<[u8; 32]>,
>(
    read: SecureFileRead,
    opaque: O,
    decode: R,
    write: W,
    digest: D,
    outcome: Result<PreparedModel, WarpError>,
) -> bool {
    if !state::external_filename(read.path@) {
        outcome == Err::<PreparedModel, WarpError>(WarpError::InvalidExternalPath)
    } else {
        exists|account: Result<Seq<char>, WarpError>|
            {
                &&& #[trigger] keyed::scope_given(
                    opaque,
                    keyed::external_account_key(read.path@),
                    account,
                )
                &&& match account {
                    Err(error) => outcome == Err::<PreparedModel, WarpError>(error),
                    Ok(scope) => exists|raw: Option<ExternalUsage>|
                        {
                            &&& #[trigger] call_ensures(decode, (&read.bytes,), raw)
                            &&& match raw {
                                None => outcome == Err::<PreparedModel, WarpError>(
                                    WarpError::Decode,
                                ),
                                Some(usage) => external_makes(
                                    read,
                                    usage,
                                    scope,
                                    opaque,
                                    write,
                                    digest,
                                    outcome,
                                ),
                            }
                        },
                }
            }
    }
}

/// What the decoded usage of an external file may give.
pub open spec fn external_makes<
    O: Fn(&KeyedMaterial) -> Option<String>,
    W: Fn(&WarpNormalizedUsage) -> Option<Vec<u8>>,
    D: Fn(&KeyedMaterial) -> Option<[u8; 32]>,
>(
    read: SecureFileRead,
    usage: ExternalUsage,
    account: Seq<char>,
    opaque: O,
    write: W,
    digest: D,
    outcome: Result<PreparedModel, WarpError>,
) -> bool {
    exists|made: Result<UsageModel, WarpError>|
        {
            &&& #[trigger] normalize::external_normalizes(
                normalize::keyed_scopes(opaque, account),
                usage,
                account,
                made,
            )
            &&& match made {
                Err(error) => outcome == Err::<PreparedModel, WarpError>(error),
                Ok(normal) => source_makes(
                    write,
                    digest,
                    read.path@,
                    read.modified_ms,
                    normal,
                    outcome,
                ),
            }
        }
}

/// Makes a source out of an external file that was read.
pub fn prepare_external_source<
    O: Fn(&KeyedMaterial) -> Option<String>,
    R: Fn(&Vec<u8>) -> Option<ExternalUsage>,
    W: Fn(&WarpNormalizedUsage) -> Option<Vec<u8>>,
    D: Fn(&KeyedMaterial) -> Option<[u8; 32]>,
>(read: SecureFileRead, opaque: &O, decode: &R, write: &W, digest: &D) -> (r: Result<
    PreparedSource,
    WarpError,
>)
    requires
        forall|material: &KeyedMaterial|
            state::external_filename(read.path@) && material@ == keyed::external_account_key(
                read.path@,
            ) ==> #[trigger] call_requires(*opaque, (material,)),
        state::external_filename(read.path@) ==> call_requires(*decode, (&read.bytes,)),
        forall|material: &KeyedMaterial, account: Seq<char>, id: Seq<char>|
            #![trigger keyed::workspace_key(account, id), call_requires(*opaque, (material,))]
            keyed::scope_given(*opaque, keyed::external_account_key(read.path@), Ok(account))
                && material@ == keyed::workspace_key(account, id) ==> call_requires(
                *opaque,
                (material,),
            ),
        forall|usage: UsageModel|
            keyed::scope_given(
                *opaque,
                keyed::external_account_key(read.path@),
                Ok(usage.account_scope),
            ) ==> #[trigger] source_calls(*write, *digest, usage),
    ensures
        external_prepares(read, *opaque, *decode, *write, *digest, prepared(r)),
{
    match validate_external_filename(&read.path) {
        Ok(_) => {},
        Err(error) => return Err(error),
    }
    let identity = path_identity_bytes(&read.path);
    let account = scope_from(&external_account_material(&identity), opaque);
    assert(keyed::scope_given(
        *opaque,
        keyed::external_account_key(read.path@),
        keyed::scope_text(account),
    ));
    let account_scope = match account {
        Ok(scope) => scope,
        Err(error) => return Err(error),
    };
    let raw = decode(&read.bytes);
    assert(call_ensures(*decode, (&read.bytes,), raw));
    let external = match raw {
        Some(external) => external,
        None => return Err(WarpError::Decode),
    };
    let made = normalize_external(external, account_scope, opaque);
    assert(normalize::external_normalizes(
        normalize::keyed_scopes(*opaque, account_scope@),
        external,
        account_scope@,
        normalize::normalized(made),
    ));
    match made {
        Ok(usage) => {
            assert(source_calls(*write, *digest, usage@));
            source_from_usage(read.path, read.modified_ms, usage, write, digest)
        },
        Err(error) => Err(error),
    }
}

/// An envelope is for its account and its version alone: of another it is passed over, and one that
/// holds no Base64 or more than two mebibytes is damaged.
pub proof fn envelopes_are_for_their_account(
    envelope: CacheEnvelope,
    scope: Seq<char>,
    payload: Seq<u8>,
    mac: Seq<u8>,
)
    ensures
        envelope.schema_version != 1 || envelope.account_scope@ != scope ==> frame_of(
            envelope,
            scope,
        ) is Other,
        envelope.schema_version == 1 && envelope.account_scope@ == scope ==> {
            &&& encoding::url_safe_bytes(envelope.payload_bytes_base64@) is None ==> frame_of(
                envelope,
                scope,
            ) is Damaged
            &&& encoding::url_safe_bytes(envelope.payload_mac@) is None ==> frame_of(
                envelope,
                scope,
            ) is Damaged
            &&& encoding::url_safe_bytes(envelope.payload_bytes_base64@) == Some(payload)
                && payload.len() > 2_097_152 ==> frame_of(envelope, scope) is Damaged
            &&& encoding::url_safe_bytes(envelope.payload_bytes_base64@) == Some(payload)
                && encoding::url_safe_bytes(envelope.payload_mac@) == Some(mac) && payload.len()
                <= 2_097_152 ==> frame_of(envelope, scope) == (CacheFrame::Framed { payload, mac })
        },
{
}

/// What is put into an envelope says which account it is for and carries the written usage with the
/// digest of both. It fails only where the usage cannot be written or the digest cannot be had.
pub proof fn envelopes_carry_the_written_usage<
    W: Fn(&WarpNormalizedUsage) -> Option<Vec<u8>>,
    D: Fn(&KeyedMaterial) -> Option<[u8; 32]>,
>(
    usage: UsageModel,
    write: W,
    digest: D,
    payload: Seq<u8>,
    mac: Seq<u8>,
    outcome: Result<CacheEnvelope, WarpError>,
)
    requires
        cache_encodes(usage, write, digest, outcome),
        forall|written: Option<Seq<u8>>| #[trigger]
            writes(write, usage, written) ==> written == Some(payload),
        forall|given: Option<Seq<u8>>| #[trigger]
            digests(digest, keyed::cache_key(usage.account_scope, payload), given) ==> given == Some(
                mac,
            ),
    ensures
        outcome is Ok,
        outcome->Ok_0.schema_version == 1,
        outcome->Ok_0.account_scope@ == usage.account_scope,
        encoding::url_safe_bytes(outcome->Ok_0.payload_bytes_base64@) == Some(payload),
        encoding::url_safe_bytes(outcome->Ok_0.payload_mac@) == Some(mac),
{
    let written = choose|written: Option<Seq<u8>>| #[trigger]
        writes(write, usage, written) && match written {
            None => outcome == Err::<CacheEnvelope, WarpError>(WarpError::Internal),
            Some(bytes) => payload_seals(usage.account_scope, bytes, digest, outcome),
        };
    assert(written == Some(payload));
}

/// A source has the fingerprint that the key gives to its account and written usage, and is made of
/// that usage, from that file, as it was seen.
pub proof fn sources_are_made_of_their_usage<
    W: Fn(&WarpNormalizedUsage) -> Option<Vec<u8>>,
    D: Fn(&KeyedMaterial) -> Option<[u8; 32]>,
>(
    write: W,
    digest: D,
    path: Seq<u8>,
    modified_ms: u64,
    usage: UsageModel,
    payload: Seq<u8>,
    mac: Seq<u8>,
    outcome: Result<PreparedModel, WarpError>,
)
    requires
        source_makes(write, digest, path, modified_ms, usage, outcome),
        forall|written: Option<Seq<u8>>| #[trigger]
            writes(write, usage, written) ==> written == Some(payload),
        forall|given: Option<Seq<u8>>| #[trigger]
            digests(digest, keyed::fingerprint_key(usage.account_scope, payload), given) ==> given
                == Some(mac),
    ensures
        warp_usage::usage_fault(usage) is None && path.len() > 0 ==> {
            &&& outcome is Ok
            &&& outcome->Ok_0.usage == usage
            &&& outcome->Ok_0.source.usage == usage
            &&& outcome->Ok_0.source.path == path
            &&& outcome->Ok_0.source.observed_mtime_ms == modified_ms
            &&& outcome->Ok_0.source.fingerprint == mac
        },
        warp_usage::usage_fault(usage) is Some || path.len() == 0 ==> outcome == Err::<
            PreparedModel,
            WarpError,
        >(WarpError::InvalidUsage),
{
    let written = choose|written: Option<Seq<u8>>| #[trigger]
        writes(write, usage, written) && match written {
            None => outcome == Err::<PreparedModel, WarpError>(WarpError::Internal),
            Some(bytes) => fingerprint_makes(digest, path, modified_ms, usage, bytes, outcome),
        };
    assert(written == Some(payload));
}

/// What a key is asked about is fixed letter for letter.
pub proof fn keys_are_asked_under_fixed_names(account: Seq<char>, id: Seq<char>, payload: Seq<u8>)
    ensures
        keyed::account_key(id).domain == "tokenbar-warp-account-v1"@,
        keyed::account_key(id).parts == seq![encode_utf8(id)],
        keyed::external_account_key(payload).domain == "tokenbar-warp-external-account-v1"@,
        keyed::external_account_key(payload).parts == seq![payload],
        keyed::workspace_key(account, id).domain == "tokenbar-warp-workspace-v1"@,
        keyed::workspace_key(account, id).parts == seq![encode_utf8(account), encode_utf8(id)],
        keyed::cache_key(account, payload).domain == "tokenbar-warp-cache-mac-v1"@,
        keyed::cache_key(account, payload).parts == seq![encode_utf8(account), payload],
        keyed::fingerprint_key(account, payload).domain == "tokenbar-warp-source-fingerprint-v1"@,
        keyed::fingerprint_key(account, payload).parts == seq![encode_utf8(account), payload],
{
}

/// A cache that opens gives what it holds, none is no source, one that cannot be read is an error,
/// and one that does not open is removed and counts as none.
pub proof fn broken_caches_count_as_none<P: FnOnce() -> Result<(), WarpError>>(
    source: PreparedSource,
    error: WarpError,
    purge: P,
    outcome: Result<Option<PreparedSource>, WarpError>,
)
    ensures
        cache_loads(CacheLookup::Read(Ok(Some(source))), purge, outcome) ==> outcome == Ok::<
            Option<PreparedSource>,
            WarpError,
        >(Some(source)),
        cache_loads(CacheLookup::Read(Ok(None)), purge, outcome) ==> outcome == Ok::<
            Option<PreparedSource>,
            WarpError,
        >(None),
        cache_loads(CacheLookup::Absent, purge, outcome) ==> outcome == Ok::<
            Option<PreparedSource>,
            WarpError,
        >(None),
        cache_loads(CacheLookup::Unreadable, purge, outcome) ==> outcome == Err::<
            Option<PreparedSource>,
            WarpError,
        >(WarpError::Storage),
        cache_loads(CacheLookup::Read(Err(error)), purge, outcome) ==> {
            &&& outcome == Ok::<Option<PreparedSource>, WarpError>(None) || outcome == Err::<
                Option<PreparedSource>,
                WarpError,
            >(WarpError::Storage)
            &&& outcome is Ok ==> call_ensures(purge, (), Ok::<(), WarpError>(()))
            &&& outcome is Err ==> exists|failed: WarpError| #[trigger]
                call_ensures(purge, (), Err::<(), WarpError>(failed))
        },
{
    if cache_loads(CacheLookup::Read(Err(error)), purge, outcome) {
        let purged = choose|purged: Result<(), WarpError>| #[trigger]
            call_ensures(purge, (), purged) && outcome == (match purged {
                Ok(_) => Ok::<Option<PreparedSource>, WarpError>(None),
                Err(_) => Err(WarpError::Storage),
            });
        match purged {
            Ok(nothing) => {
                assert(nothing == ());
            },
            Err(failed) => {
                assert(call_ensures(purge, (), Err::<(), WarpError>(failed)));
            },
        }
    }
}

/// What is kept is what was read back; where it could not be written, belongs to another account or
/// does not open, the answer says which.
pub proof fn only_what_reads_back_is_kept(source: PreparedSource, error: WarpError)
    ensures
        kept_source(Some(Ok(Some(source)))) == Ok::<PreparedSource, WarpError>(source),
        kept_source(None) == Err::<PreparedSource, WarpError>(WarpError::Storage),
        kept_source(Some(Ok(None))) == Err::<PreparedSource, WarpError>(WarpError::ScopeMismatch),
        kept_source(Some(Err(error))) == Err::<PreparedSource, WarpError>(error),
{
}

/// A cached payload is opened only for usage of its account, and only where it reads as usage; the
/// answer says which of these fails.
pub proof fn cached_payloads_open_for_their_account<
    V: Fn(&KeyedMaterial, &Vec<u8>) -> bool,
    R: Fn(&Vec<u8>) -> Option<WarpNormalizedUsage>,
    W: Fn(&WarpNormalizedUsage) -> Option<Vec<u8>>,
    D: Fn(&KeyedMaterial) -> Option<[u8; 32]>,
>(
    envelope: CacheEnvelope,
    payload: Seq<u8>,
    mac: Seq<u8>,
    path: Seq<u8>,
    modified_ms: u64,
    scope: Seq<char>,
    verify: V,
    parse: R,
    write: W,
    digest: D,
    outcome: Result<Option<PreparedModel>, WarpError>,
)
    requires
        frame_of(envelope, scope) == (CacheFrame::Framed { payload, mac }),
        forall|asked: &KeyedMaterial, tag: &Vec<u8>| !#[trigger]
            call_ensures(verify, (asked, tag), false),
        cache_opens(
            Some(envelope),
            path,
            modified_ms,
            scope,
            verify,
            parse,
            write,
            digest,
            outcome,
        ),
    ensures
        (forall|content: &Vec<u8>, read: Option<WarpNormalizedUsage>|
            content@ == payload && #[trigger] call_ensures(parse, (content,), read) ==> read is None)
            ==> outcome == Err::<Option<PreparedModel>, WarpError>(WarpError::Storage),
        (forall|content: &Vec<u8>, read: Option<WarpNormalizedUsage>|
            content@ == payload && #[trigger] call_ensures(parse, (content,), read) ==> (
            read matches Some(usage) && usage@.account_scope != scope)) ==> outcome == Err::<
            Option<PreparedModel>,
            WarpError,
        >(WarpError::ScopeMismatch),
        !(outcome matches Ok(None)),
{
}

/// An external file becomes a source only under its own name, with the key at hand and usage that
/// can be read; the answer says which of these is missing. The source is of that file, as it was
/// seen, and holds the figures of the file under the account of its path.
pub proof fn external_files_become_their_source<
    O: Fn(&KeyedMaterial) -> Option<String>,
    R: Fn(&Vec<u8>) -> Option<ExternalUsage>,
    W: Fn(&WarpNormalizedUsage) -> Option<Vec<u8>>,
    D: Fn(&KeyedMaterial) -> Option<[u8; 32]>,
>(
    read: SecureFileRead,
    raw: ExternalUsage,
    opaque: O,
    decode: R,
    write: W,
    digest: D,
    outcome: Result<PreparedModel, WarpError>,
)
    requires
        external_prepares(read, opaque, decode, write, digest, outcome),
    ensures
        !state::external_filename(read.path@) ==> outcome == Err::<PreparedModel, WarpError>(
            WarpError::InvalidExternalPath,
        ),
        state::external_filename(read.path@) && (forall|asked: &KeyedMaterial, given: Option<String>|
            #[trigger] call_ensures(opaque, (asked,), given) ==> given is None) ==> outcome
            == Err::<PreparedModel, WarpError>(WarpError::Storage),
        state::external_filename(read.path@) && (forall|asked: &KeyedMaterial, given: Option<String>|
            #[trigger] call_ensures(opaque, (asked,), given) ==> given is Some) && (forall|
            found: Option<ExternalUsage>,
        | #[trigger] call_ensures(decode, (&read.bytes,), found) ==> found is None) ==> outcome
            == Err::<PreparedModel, WarpError>(WarpError::Decode),
        outcome is Ok && (forall|found: Option<ExternalUsage>| #[trigger]
            call_ensures(decode, (&read.bytes,), found) ==> found == Some(raw)) ==> {
            let source = outcome->Ok_0;
            &&& source.source.path == read.path@
            &&& source.source.observed_mtime_ms == read.modified_ms
            &&& source.source.usage == source.usage
            &&& source.usage.usage.requests_used == raw.usage.requests_used
            &&& source.usage.usage.request_limit == raw.usage.request_limit
            &&& source.usage.usage.spend_cents == raw.usage.spend_cents
            &&& source.usage.workspaces.len() == raw.workspaces@.len()
            &&& keyed::scope_given(
                opaque,
                keyed::external_account_key(read.path@),
                Ok(source.usage.account_scope),
            )
        },
{
    if outcome is Ok && (forall|found: Option<ExternalUsage>| #[trigger]
        call_ensures(decode, (&read.bytes,), found) ==> found == Some(raw)) {
        let account = choose|account: Result<Seq<char>, WarpError>|
            {
                &&& #[trigger] keyed::scope_given(
                    opaque,
                    keyed::external_account_key(read.path@),
                    account,
                )
                &&& account is Ok
                &&& external_makes(read, raw, account->Ok_0, opaque, write, digest, outcome)
            };
        let scoping = normalize::keyed_scopes(opaque, account->Ok_0);
        let made = choose|made: Result<UsageModel, WarpError>|
            {
                &&& #[trigger] normalize::external_normalizes(scoping, raw, account->Ok_0, made)
                &&& made is Ok
                &&& source_makes(
                    write,
                    digest,
                    read.path@,
                    read.modified_ms,
                    made->Ok_0,
                    outcome,
                )
            };
        normalize::external_figures_are_kept(scoping, raw, account->Ok_0, made->Ok_0);
    }
}

} // verus!
