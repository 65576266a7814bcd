//! Electron's version 10 secrets: what surrounds the cipher, and how long the Keychain is waited
//! for.

use vstd::prelude::*;
use vstd::string::*;
use crate::encoding::{self, from_utf8};

verus! {

pub const KEYCHAIN_DENIED: &'static str = "Cannot access the Grok Bot login in Keychain. Allow access to Grok Bot Safe Storage, then refresh.";

pub const UNDECRYPTABLE: &'static str = "Cannot decrypt the Grok Bot login. Open Grok Bot and sign in again, then refresh.";

pub const UNDERIVABLE: &'static str = "Could not derive the Grok Bot login key.";

/// An unanswered prompt is waited for this long, in milliseconds.
pub const KEYCHAIN_WAIT_MS: u64 = 25_000;

/// The blocks of ciphertext in a stored secret: what follows `v10`, which must be whole blocks of
/// sixteen bytes, and at least one.
pub open spec fn cipher_blocks(stored: Seq<u8>) -> Option<Seq<u8>> {
    if stored.len() > 3 && stored[0] == 0x76 && stored[1] == 0x31 && stored[2] == 0x30 && (
    stored.len() - 3) % 16 == 0 {
        Some(stored.skip(3))
    } else {
        None
    }
}

fn blocks_of(stored: &[u8]) -> (r: Option<Vec<u8>>)
    ensures
        encoding::opt_bytes(r) == cipher_blocks(stored@),
{
    if stored.len() <= 3 || stored[0] != 0x76 || stored[1] != 0x31 || stored[2] != 0x30 || (
    stored.len() - 3) % 16 != 0 {
        return None;
    }
    let mut out: Vec<u8> = Vec::new();
    let mut i: usize = 3;
    while i < stored.len()
        invariant
            3 <= i <= stored@.len(),
            out@ == stored@.subrange(3, i as int),
        decreases stored@.len() - i,
    {
        out.push(stored[i]);
        i += 1;
        assert(stored@.subrange(3, i as int) =~= stored@.subrange(3, i - 1).push(
            stored@[i - 1],
        ));
    }
    assert(out@ =~= stored@.skip(3));
    Some(out)
}

/// As many zero bytes.
pub open spec fn zeros(count: nat) -> Seq<u8> {
    Seq::new(count, |i: int| 0u8)
}

/// What decrypting a stored secret may give: `decipher` turns the ciphertext into the plain bytes,
/// which must be text. Plain bytes that are not text remain as zeros; in every other case nothing
/// remains.
pub open spec fn decrypts<K: Fn(&Vec<u8>) -> Option<Vec<u8>>>(
    stored: Seq<u8>,
    decipher: K,
    outcome: Result<Seq<char>, Seq<char>>,
    remains: Seq<u8>,
) -> bool {
    match cipher_blocks(stored) {
        None => outcome == Err::<Seq<char>, Seq<char>>(UNDECRYPTABLE@) && remains == zeros(0),
        Some(blocks) => exists|data: &Vec<u8>, plain: Option<Vec<u8>>|
            {
                &&& data@ == blocks
                &&& #[trigger] call_ensures(decipher, (data,), plain)
                &&& (outcome, remains) == (match plain {
                    Some(bytes) => match encoding::utf8_text(bytes@) {
                        Some(content) => (Ok::<Seq<char>, Seq<char>>(content), zeros(0)),
                        None => (Err(UNDECRYPTABLE@), zeros(bytes@.len())),
                    },
                    None => (Err(UNDECRYPTABLE@), zeros(0)),
                })
            },
    }
}

/// Decrypts a stored secret. A secret of another format is refused before `decipher` is called.
/// Plain bytes that are not text are overwritten; the buffer that held them is handed back, so that
/// the caller can keep the stores from being optimized away.
pub fn decrypt<K: Fn(&Vec<u8>) -> Option<Vec<u8>>>(stored: &[u8], decipher: &K) -> (r: (
    Result<String, String>,
    Vec<u8>,
))
    requires
        forall|data: &Vec<u8>|
            cipher_blocks(stored@) == Some(data@) ==> #[trigger] call_requires(*decipher, (data,)),
    ensures
        decrypts(
            stored@,
            *decipher,
            match r.0 {
                Ok(content) => Ok(content@),
                Err(message) => Err(message@),
            },
            r.1@,
        ),
{
    let none: Vec<u8> = Vec::new();
    assert(none@ =~= zeros(0));
    let blocks = match blocks_of(stored) {
        Some(blocks) => blocks,
        None => return (Err(UNDECRYPTABLE.to_owned()), none),
    };
    let plain = decipher(&blocks);
    assert(call_ensures(*decipher, (&blocks,), plain));
    let bytes = match plain {
        Some(bytes) => bytes,
        None => return (Err(UNDECRYPTABLE.to_owned()), none),
    };
    match from_utf8(bytes) {
        Ok(content) => (Ok(content), none),
        Err(mut refused) => {
            erase(&mut refused);
            assert(refused@ =~= zeros(bytes@.len()));
            (Err(UNDECRYPTABLE.to_owned()), refused)
        },
    }
}

/// Nothing of a secret outlives a decryption but the text that it gives: what remains beside it is
/// zeros.
pub proof fn refused_secrets_are_erased<K: Fn(&Vec<u8>) -> Option<Vec<u8>>>(
    stored: Seq<u8>,
    decipher: K,
    outcome: Result<Seq<char>, Seq<char>>,
    remains: Seq<u8>,
)
    requires
        decrypts(stored, decipher, outcome, remains),
    ensures
        forall|i: int| 0 <= i < remains.len() ==> #[trigger] remains[i] == 0,
        outcome is Ok ==> remains.len() == 0,
{
}

/// What to do about a Keychain request that is running.
#[derive(Clone, Copy, Debug, PartialEq, Eq, Structural)]
pub enum KeychainStep {
    /// It has ended: read what it printed.
    Read,
    /// Look again a little later.
    Wait,
    /// Give it up.
    Stop,
}

/// The next step for a request, by whether it has ended and how long it has been running.
pub open spec fn step_for(ended: Option<bool>, waited_ms: u64) -> KeychainStep {
    match ended {
        Some(true) => KeychainStep::Read,
        Some(false) => if waited_ms < KEYCHAIN_WAIT_MS {
            KeychainStep::Wait
        } else {
            KeychainStep::Stop
        },
        None => KeychainStep::Stop,
    }
}

/// The next step, given whether the request has ended (`None` where that cannot be told) and how
/// long it has been running.
pub fn keychain_step(ended: Option<bool>, waited_ms: u64) -> (r: KeychainStep)
    ensures
        r == step_for(ended, waited_ms),
{
    match ended {
        Some(true) => KeychainStep::Read,
        Some(false) => if waited_ms < KEYCHAIN_WAIT_MS {
            KeychainStep::Wait
        } else {
            KeychainStep::Stop
        },
        None => KeychainStep::Stop,
    }
}

/// `bytes` without the line ends behind it.
pub open spec fn without_line_ends(bytes: Seq<u8>) -> Seq<u8>
    decreases bytes.len(),
{
    if bytes.len() > 0 && (bytes.last() == 0x0d || bytes.last() == 0x0a) {
        without_line_ends(bytes.drop_last())
    } else {
        bytes
    }
}

/// The password that a finished Keychain request printed, if it did.
pub open spec fn printed_password(succeeded: bool, printed: Seq<u8>) -> Option<Seq<u8>> {
    if succeeded && without_line_ends(printed).len() > 0 {
        Some(without_line_ends(printed))
    } else {
        None
    }
}

/// The password that a finished Keychain request printed: what stands before the line ends, unless
/// the request failed or printed nothing.
pub fn keychain_password(succeeded: bool, printed: Vec<u8>) -> (r: Result<Vec<u8>, String>)
    ensures
        match printed_password(succeeded, printed@) {
            Some(password) => r matches Ok(held) && held@ == password,
            None => r matches Err(message) && message@ == KEYCHAIN_DENIED@,
        },
{
    if !succeeded {
        return Err(KEYCHAIN_DENIED.to_owned());
    }
    let mut bytes = printed;
    while bytes.len() > 0 && (bytes[bytes.len() - 1] == 0x0d || bytes[bytes.len() - 1] == 0x0a)
        invariant
            without_line_ends(bytes@) == without_line_ends(printed@),
        decreases bytes@.len(),
    {
        let ghost before = bytes@;
        bytes.pop();
        assert(bytes@ =~= before.drop_last());
    }
    if bytes.len() == 0 {
        Err(KEYCHAIN_DENIED.to_owned())
    } else {
        Ok(bytes)
    }
}

/// Overwrites a secret with zeros.
pub fn erase(bytes: &mut Vec<u8>)
    ensures
        final(bytes)@.len() == old(bytes)@.len(),
        forall|i: int| 0 <= i < final(bytes)@.len() ==> #[trigger] final(bytes)@[i] == 0,
{
    let n: usize = bytes.len();
    let mut i: usize = 0;
    while i < n
        invariant
            i <= n,
            n == bytes@.len(),
            n == old(bytes)@.len(),
            forall|j: int| 0 <= j < i ==> #[trigger] bytes@[j] == 0,
        decreases n - i,
    {
        bytes.set(i, 0);
        i += 1;
    }
}

/// A stored secret is `v10` and whole blocks of sixteen bytes, at least one. Nothing else is
/// deciphered.
pub proof fn secrets_are_whole_blocks(blocks: Seq<u8>, stored: Seq<u8>)
    ensures
        blocks.len() > 0 && blocks.len() % 16 == 0 ==> cipher_blocks(
            seq![0x76u8, 0x31u8, 0x30u8] + blocks,
        ) == Some(blocks),
        blocks.len() == 0 || blocks.len() % 16 != 0 ==> cipher_blocks(
            seq![0x76u8, 0x31u8, 0x30u8] + blocks,
        ) is None,
        cipher_blocks(stored) matches Some(held) ==> stored == seq![0x76u8, 0x31u8, 0x30u8] + held,
{
    let whole = seq![0x76u8, 0x31u8, 0x30u8] + blocks;
    assert(whole.skip(3) =~= blocks);
    assert(whole[0] == 0x76 && whole[1] == 0x31 && whole[2] == 0x30);
    if cipher_blocks(stored) is Some {
        assert(stored =~= seq![0x76u8, 0x31u8, 0x30u8] + stored.skip(3));
    }
}

/// A secret decrypts to the text that its blocks decipher to.
pub proof fn secrets_decrypt_to_their_text<K: Fn(&Vec<u8>) -> Option<Vec<u8>>>(
    blocks: Seq<u8>,
    plain: Seq<char>,
    decipher: K,
    outcome: Result<Seq<char>, Seq<char>>,
    remains: Seq<u8>,
)
    requires
        blocks.len() > 0,
        blocks.len() % 16 == 0,
        decrypts(seq![0x76u8, 0x31u8, 0x30u8] + blocks, decipher, outcome, remains),
        forall|data: &Vec<u8>, given: Option<Vec<u8>>|
            data@ == blocks && #[trigger] call_ensures(decipher, (data,), given) ==> (
            given matches Some(bytes) && encoding::utf8_text(bytes@) == Some(plain)),
    ensures
        outcome == Ok::<Seq<char>, Seq<char>>(plain),
{
    secrets_are_whole_blocks(blocks, blocks);
}

/// The password is what was printed before the line ends behind it, whatever they are.
pub proof fn line_ends_come_off(password: Seq<u8>, ends: Seq<u8>)
    requires
        password.len() > 0 ==> password.last() != 0x0a && password.last() != 0x0d,
        forall|i: int| 0 <= i < ends.len() ==> #[trigger] ends[i] == 0x0a || ends[i] == 0x0d,
    ensures
        without_line_ends(password + ends) == password,
    decreases ends.len(),
{
    if ends.len() == 0 {
        assert(password + ends =~= password);
    } else {
        let whole = password + ends;
        assert(whole.last() == ends[ends.len() - 1]);
        assert(whole.drop_last() =~= password + ends.drop_last());
        line_ends_come_off(password, ends.drop_last());
    }
}

/// A request that has ended is read at once, one that runs is waited for twenty-five seconds, and one
/// that cannot be told is given up.
pub proof fn keychain_requests_end_or_are_given_up(waited_ms: u64)
    ensures
        step_for(Some(true), waited_ms) == KeychainStep::Read,
        waited_ms < 25_000 ==> step_for(Some(false), waited_ms) == KeychainStep::Wait,
        waited_ms >= 25_000 ==> step_for(Some(false), waited_ms) == KeychainStep::Stop,
        step_for(None, waited_ms) == KeychainStep::Stop,
{
}

/// A request that succeeded gives the password that it printed, without the line ends behind it. One
/// that failed, or printed nothing else, gives none.
pub proof fn keychain_requests_give_their_password(password: Seq<u8>, ends: Seq<u8>)
    requires
        password.len() > 0,
        password.last() != 0x0a,
        password.last() != 0x0d,
        forall|i: int| 0 <= i < ends.len() ==> #[trigger] ends[i] == 0x0a || ends[i] == 0x0d,
    ensures
        printed_password(true, password + ends) == Some(password),
        printed_password(true, ends) is None,
        printed_password(false, password + ends) is None,
{
    line_ends_come_off(password, ends);
    line_ends_come_off(Seq::empty(), ends);
    assert(Seq::<u8>::empty() + ends =~= ends);
}

} // verus!
