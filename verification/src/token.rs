//! Tokens: the 16-byte marks that relays append to a query, by which a relay
//! recognises a query that it has already forwarded.

use vstd::prelude::*;
use vstd::bytes::spec_u32_to_le_bytes;
use vstd::bytes::u32_to_le_bytes;
use md5::Digest;
use md5::Md5;
use rand::rngs::OsRng;
use rand::RngCore;
use crate::error::OwError;

verus! {

/// The mark of one client or relay instance.
pub type Token = [u8; 16];

/// The version bit that says that tokens follow the content.
pub const SERVERMESSAGE: u32 = 0x1_0000;

/// The version bits that count the tokens.
pub const SERVERTOKENS: u32 = 0xFFFF;

/// The number of tokens that a version word announces.
pub open spec fn token_count(version: u32) -> u32 {
    if version & SERVERMESSAGE == SERVERMESSAGE {
        version & SERVERTOKENS
    } else {
        0
    }
}

/// The version word of a message that carries `count` tokens.
pub open spec fn token_version(count: u32) -> u32 {
    SERVERMESSAGE | count
}

/// The number of tokens that `version` announces.
pub fn tokens_announced(version: u32) -> (n: u32)
    ensures
        n == token_count(version),
        n <= 0xFFFF,
{
    assert(version & 0xFFFF <= 0xFFFF) by (bit_vector);
    if version & SERVERMESSAGE == SERVERMESSAGE {
        version & SERVERTOKENS
    } else {
        0
    }
}

/// A version word that announces `count` tokens is read back as `count`.
pub proof fn lemma_token_version(count: u32)
    requires
        count <= 0xFFFF,
    ensures
        token_count(token_version(count)) == count,
{
    assert(count <= 0xFFFF ==> (0x1_0000u32 | count) & 0x1_0000 == 0x1_0000 && (0x1_0000u32
        | count) & 0xFFFF == count) by (bit_vector);
}

/// Tokens, each given by its sixteen bytes, laid end to end.
pub open spec fn token_bytes(tokens: Seq<Seq<u8>>) -> Seq<u8> {
    Seq::new(tokens.len() * 16, |i: int| tokens[i / 16][i % 16])
}

/// The tokens held by a run of bytes, sixteen bytes to a token; bytes left
/// over at the end belong to no token.
pub open spec fn tokens_in(bytes: Seq<u8>) -> Seq<Seq<u8>> {
    Seq::new(bytes.len() / 16, |k: int| bytes.subrange(16 * k, 16 * k + 16))
}

/// The byte strings of a list of tokens.
pub open spec fn token_views(tokens: Seq<Token>) -> Seq<Seq<u8>> {
    Seq::new(tokens.len(), |k: int| tokens[k]@)
}

/// True if the two tokens hold the same bytes.
pub fn same_token(a: &Token, b: &Token) -> (same: bool)
    ensures
        same == (*a == *b),
        same == (a@ == b@),
{
    let mut i: usize = 0;
    while i < 16
        invariant
            i <= 16,
            forall|k: int| 0 <= k < i ==> a[k] == b[k],
        decreases 16 - i,
    {
        if a[i] != b[i] {
            assert(a@[i as int] != b@[i as int]);
            return false;
        }
        i = i + 1;
    }
    assert(*a =~= *b);
    true
}

/// A token is in a list exactly when its bytes are among the bytes of the
/// list's tokens.
pub proof fn lemma_token_views_contains(tokens: Seq<Token>, token: Token)
    ensures
        token_views(tokens).contains(token@) == tokens.contains(token),
{
    if tokens.contains(token) {
        let k = choose|k: int| 0 <= k < tokens.len() && tokens[k] == token;
        assert(token_views(tokens)[k] == token@);
    }
    if token_views(tokens).contains(token@) {
        let k = choose|k: int| 0 <= k < token_views(tokens).len() && token_views(tokens)[k] == token@;
        assert(tokens[k]@ == token@);
        assert(tokens[k] =~= token);
    }
}

/// True if `token` is one of `tokens`.
pub fn has_token(tokens: &Vec<Token>, token: &Token) -> (found: bool)
    ensures
        found == tokens@.contains(*token),
{
    let mut i: usize = 0;
    while i < tokens.len()
        invariant
            i <= tokens@.len(),
            forall|k: int| 0 <= k < i ==> tokens@[k] != *token,
        decreases tokens@.len() - i,
    {
        if same_token(&tokens[i], token) {
            return true;
        }
        i = i + 1;
    }
    false
}

/// The loop detector of a relay: refuses a token list that already holds
/// `own`, since the query then went through this relay before, and appends
/// `own` to any other.
pub fn check_and_append(tokens: Vec<Token>, own: Token) -> (r: Result<Vec<Token>, OwError>)
    ensures
        tokens@.contains(own) ==> r == Err::<Vec<Token>, OwError>(OwError::TopologyLoop),
        !tokens@.contains(own) ==> r is Ok && r.unwrap()@ == tokens@.push(own),
{
    if has_token(&tokens, &own) {
        Err(OwError::TopologyLoop)
    } else {
        let mut tokens = tokens;
        tokens.push(own);
        Ok(tokens)
    }
}

/// Laying tokens end to end and cutting the bytes into tokens again gives
/// the tokens back.
pub proof fn lemma_tokens_round_trip(tokens: Seq<Seq<u8>>)
    requires
        forall|k: int| 0 <= k < tokens.len() ==> (#[trigger] tokens[k]).len() == 16,
    ensures
        token_bytes(tokens).len() == tokens.len() * 16,
        tokens_in(token_bytes(tokens)) == tokens,
{
    let bytes = token_bytes(tokens);
    assert(bytes.len() / 16 == tokens.len());
    assert forall|k: int| 0 <= k < tokens.len() implies #[trigger] tokens_in(bytes)[k]
        == tokens[k] by {
        let piece = bytes.subrange(16 * k, 16 * k + 16);
        assert forall|j: int| 0 <= j < 16 implies piece[j] == tokens[k][j] by {
            assert((16 * k + j) / 16 == k);
            assert((16 * k + j) % 16 == j);
        }
        assert(piece =~= tokens[k]);
    }
    assert(tokens_in(bytes) =~= tokens);
}

/// `bytemuck::cast_slice` reads a slice of 16-byte arrays as the slice of
/// their bytes, in order; between byte arrays and bytes it cannot fail.
#[verifier::external_body]
pub(crate) fn flat_tokens(tokens: &Vec<Token>) -> (bytes: Vec<u8>)
    ensures
        bytes@ == token_bytes(token_views(tokens@)),
{
    let bytes: &[u8] = bytemuck::cast_slice(tokens.as_slice());
    bytes.to_vec()
}

/// Cuts a run of bytes into tokens of sixteen bytes; bytes left over at the
/// end are dropped.
pub fn cut_tokens(bytes: &[u8]) -> (tokens: Vec<Token>)
    ensures
        token_views(tokens@) == tokens_in(bytes@),
{
    let count: usize = bytes.len() / 16;
    let mut tokens: Vec<Token> = Vec::new();
    let mut k: usize = 0;
    while k < count
        invariant
            count == bytes@.len() / 16,
            k <= count,
            tokens@.len() == k,
            forall|j: int| 0 <= j < k ==> (#[trigger] tokens@[j])@ == bytes@.subrange(16 * j, 16 * j + 16),
        decreases count - k,
    {
        let mut token: Token = [0u8; 16];
        let mut i: usize = 0;
        assert(16 * k + 16 <= bytes.len());
        let base: usize = 16 * k;
        while i < 16
            invariant
                i <= 16,
                base == 16 * k,
                base + 16 <= bytes@.len(),
                forall|j: int| 0 <= j < i ==> token@[j] == bytes@[base + j],
            decreases 16 - i,
        {
            token[i] = bytes[base + i];
            i = i + 1;
        }
        assert(token@ =~= bytes@.subrange(16 * k, 16 * k + 16));
        tokens.push(token);
        k = k + 1;
    }
    assert(token_views(tokens@) =~= tokens_in(bytes@));
    tokens
}

/// The MD5 digest of a byte string.
pub uninterp spec fn md5_digest(data: Seq<u8>) -> Seq<u8>;

/// `Md5::digest` of the md-5 crate: the 16-byte MD5 digest of `data`.
#[verifier::external_body]
pub(crate) fn md5_of(data: &[u8]) -> (digest: Token)
    ensures
        digest@ == md5_digest(data@),
{
    let mut digest: Token = [0u8; 16];
    digest.copy_from_slice(&Md5::digest(data));
    digest
}

/// The error of the operating system's random source; nothing is read from
/// it.
#[verifier::external_type_specification]
#[verifier::external_body]
pub struct ExRandError(rand::Error);

/// `OsRng::try_fill_bytes` of the rand crate fills sixteen bytes from the
/// operating system's random source, or fails where the system has none to
/// give. Nothing is known of the bytes.
#[verifier::external_body]
pub(crate) fn os_salt() -> (r: Result<Token, rand::Error>)
{
    let mut salt: Token = [0u8; 16];
    match OsRng.try_fill_bytes(&mut salt) {
        Ok(()) => Ok(salt),
        Err(e) => Err(e),
    }
}

/// What is hashed into a token: the sub-second clock ticks and the process
/// id, each as four little-endian bytes, then the salt.
pub open spec fn token_seed(ticks: u32, pid: u32, salt: Seq<u8>) -> Seq<u8> {
    spec_u32_to_le_bytes(ticks) + spec_u32_to_le_bytes(pid) + salt
}

/// The token of an instance that started at `ticks` in process `pid` and drew
/// `salt`.
pub fn token_from_parts(ticks: u32, pid: u32, salt: &Token) -> (token: Token)
    ensures
        token@ == md5_digest(token_seed(ticks, pid, salt@)),
{
    let mut seed: Vec<u8> = u32_to_le_bytes(ticks);
    let mut pid_bytes: Vec<u8> = u32_to_le_bytes(pid);
    seed.append(&mut pid_bytes);
    let mut i: usize = 0;
    while i < 16
        invariant
            i <= 16,
            seed@ == spec_u32_to_le_bytes(ticks) + spec_u32_to_le_bytes(pid) + salt@.take(i as int),
        decreases 16 - i,
    {
        seed.push(salt[i]);
        assert(salt@.take(i + 1) =~= salt@.take(i as int).push(salt@[i as int]));
        i = i + 1;
    }
    assert(salt@.take(16) =~= salt@);
    md5_of(seed.as_slice())
}

/// Makes the token of a new client or relay instance from the sub-second
/// ticks of the clock, the process id and a fresh random salt. Fails only
/// where the operating system gives no random bytes.
pub fn make_token(ticks: u32, pid: u32) -> (r: Result<Token, OwError>)
    ensures
        match r {
            Ok(token) => exists|salt: Token| token@ == md5_digest(token_seed(ticks, pid, salt@)),
            Err(e) => e is General,
        },
{
    match os_salt() {
        Ok(salt) => Ok(token_from_parts(ticks, pid, &salt)),
        Err(_) => Err(OwError::General("No random salt for a token".to_owned())),
    }
}

} // verus!
