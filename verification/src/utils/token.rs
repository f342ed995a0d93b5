//! Token signing and verification. A token binds an identity and a secret
//! to a timestamp and process id, signs the whole with a keyed DJB2 hash,
//! masks the bytes, and carries them as unpadded URL-safe base64.

use super::textual::bytes_eq;
use super::textual::dec_u128;
use super::textual::djb2_bytes;
use super::textual::hex16_u64;
use super::textual::push_bytes;
use super::textual::spec_dec_digits;
use super::textual::spec_djb2;
use super::textual::spec_hex16;
use super::textual::utf8_to_string;
use base64::Engine;
use vstd::prelude::*;

verus! {

/// The built-in key that `default_token` signs with.
const NONCE: &'static str = "Gmv123...";

/// The mask every token's bytes are XORed with.
pub const TOKEN_MASK: u8 = 0x5A;

/// What encoding `bytes` as unpadded URL-safe base64 yields.
pub uninterp spec fn b64url_of(bytes: Seq<u8>) -> Seq<char>;

/// What decoding `text` as unpadded URL-safe base64 yields, if anything.
pub uninterp spec fn b64url_decode_of(text: Seq<char>) -> Option<Seq<u8>>;

/// Relies on base64's URL_SAFE_NO_PAD engine encode: the result is a
/// function of the bytes alone, and decoding it with the same engine gives
/// the bytes back.
#[verifier::external_body]
fn b64url_encode(bytes: &[u8]) -> (r: String)
    ensures
        r@ == b64url_of(bytes@),
        b64url_decode_of(r@) == Some(bytes@),
{
    base64::engine::general_purpose::URL_SAFE_NO_PAD.encode(bytes)
}

/// Relies on base64's URL_SAFE_NO_PAD engine decode: success or failure,
/// and the bytes on success, are a function of the text alone.
#[verifier::external_body]
fn b64url_decode(text: &str) -> (r: Option<Vec<u8>>)
    ensures
        r matches Some(b) ==> b64url_decode_of(text@) == Some(b@),
        r is None ==> b64url_decode_of(text@) is None,
{
    base64::engine::general_purpose::URL_SAFE_NO_PAD.decode(text).ok()
}

/// The bytes of `data` reversed and then XORed with `mask` (XORing each
/// element and reversing commute, so this is also XORing then reversing).
pub open spec fn spec_rev_xor(data: Seq<u8>, mask: u8) -> Seq<u8> {
    Seq::new(data.len(), |i: int| (data[data.len() - 1 - i] ^ mask) as u8)
}

proof fn lemma_xor_involution(x: u8, m: u8)
    ensures
        ((x ^ m) ^ m) == x,
{
    assert(((x ^ m) ^ m) == x) by (bit_vector);
}

/// Law: masking is an involution; deobfuscating an obfuscated buffer gives
/// the buffer back.
pub proof fn lemma_rev_xor_involution(data: Seq<u8>, mask: u8)
    ensures
        spec_rev_xor(spec_rev_xor(data, mask), mask) == data,
{
    let twice = spec_rev_xor(spec_rev_xor(data, mask), mask);
    assert forall|i: int| 0 <= i < data.len() implies twice[i] == data[i] by {
        lemma_xor_involution(data[i], mask);
    };
    assert(twice =~= data);
}

/// Law: masking is injective: equal masked buffers come from equal
/// buffers.
pub proof fn lemma_rev_xor_injective(a: Seq<u8>, b: Seq<u8>, mask: u8)
    requires
        spec_rev_xor(a, mask) == spec_rev_xor(b, mask),
    ensures
        a == b,
{
    lemma_rev_xor_involution(a, mask);
    lemma_rev_xor_involution(b, mask);
}

/// Reverses the buffer and XORs every byte with the mask.
pub fn obfuscate(data: Vec<u8>, mask: u8) -> (r: Vec<u8>)
    ensures
        r@ == spec_rev_xor(data@, mask),
{
    let n = data.len();
    let mut out: Vec<u8> = Vec::new();
    let mut i: usize = 0;
    while i < n
        invariant
            n == data@.len(),
            i <= n,
            out@.len() == i,
            forall|j: int| 0 <= j < i ==> out@[j] == (data@[n - 1 - j] ^ mask) as u8,
        decreases n - i,
    {
        out.push(data[n - 1 - i] ^ mask);
        i = i + 1;
    }
    proof {
        assert(out@ =~= spec_rev_xor(data@, mask));
    }
    out
}

/// XORs every byte with the mask and reverses the buffer: the inverse of
/// `obfuscate`, and elementwise the same transformation.
pub fn deobfuscate(data: Vec<u8>, mask: u8) -> (r: Vec<u8>)
    ensures
        r@ == spec_rev_xor(data@, mask),
{
    obfuscate(data, mask)
}

/// The DJB2 hash of the text's bytes.
pub fn simple_hash(s: &str) -> (r: u64)
    ensures
        r == spec_djb2(vstd::utf8::encode_utf8(s@)),
{
    djb2_bytes(s.as_bytes())
}

/// The unsigned part of a token: identity, secret, timestamp and process
/// id, dot-separated.
pub open spec fn spec_token_plain(id: Seq<char>, sec: Seq<char>, now: nat, pid: nat) -> Seq<u8> {
    vstd::utf8::encode_utf8(id) + seq![46u8] + vstd::utf8::encode_utf8(sec) + seq![46u8]
        + spec_dec_digits(now) + seq![46u8] + spec_dec_digits(pid)
}

/// A signed token before masking: the unsigned part, a dot, and sixteen hex
/// digits of the DJB2 hash of the unsigned part followed by the key.
pub open spec fn spec_token_raw(
    id: Seq<char>,
    sec: Seq<char>,
    noc: Seq<char>,
    now: nat,
    pid: nat,
) -> Seq<u8> {
    spec_token_plain(id, sec, now, pid) + seq![46u8] + spec_hex16(
        spec_djb2(spec_token_plain(id, sec, now, pid) + vstd::utf8::encode_utf8(noc)) as nat,
    )
}

/// The finished token: the signed bytes masked, then base64-encoded.
pub open spec fn spec_encode_token(
    id: Seq<char>,
    sec: Seq<char>,
    noc: Seq<char>,
    now: nat,
    pid: nat,
) -> Seq<char> {
    b64url_of(spec_rev_xor(spec_token_raw(id, sec, noc, now, pid), TOKEN_MASK))
}

/// Law: a signed token is well formed. Its raw bytes are valid UTF-8, and
/// the part after their last dot is exactly the signature of the part
/// before it under the signing key.
proof fn lemma_token_raw_checks(id: Seq<char>, sec: Seq<char>, noc: Seq<char>, now: nat, pid: nat)
    ensures
        vstd::utf8::valid_utf8(spec_token_raw(id, sec, noc, now, pid)),
        spec_check_raw(
            spec_token_raw(id, sec, noc, now, pid),
            vstd::utf8::encode_utf8(noc),
        ),
{
    let plain = spec_token_plain(id, sec, now, pid);
    let sig = spec_hex16(spec_djb2(plain + vstd::utf8::encode_utf8(noc)) as nat);
    let raw = spec_token_raw(id, sec, noc, now, pid);
    let dot = seq![46u8];
    let id_b = vstd::utf8::encode_utf8(id);
    let sec_b = vstd::utf8::encode_utf8(sec);
    let now_b = spec_dec_digits(now);
    let pid_b = spec_dec_digits(pid);

    assert(dot[0] < 128);
    super::textual::lemma_ascii_bytes_valid_utf8(dot);
    vstd::utf8::encode_utf8_valid_utf8(id);
    vstd::utf8::encode_utf8_valid_utf8(sec);
    super::textual::lemma_dec_digits_bounds(now);
    super::textual::lemma_ascii_bytes_valid_utf8(now_b);
    super::textual::lemma_dec_digits_bounds(pid);
    super::textual::lemma_ascii_bytes_valid_utf8(pid_b);
    super::textual::lemma_hex_digits_bounds(
        spec_djb2(plain + vstd::utf8::encode_utf8(noc)) as nat,
        16,
    );
    super::textual::lemma_ascii_bytes_valid_utf8(sig);

    vstd::utf8::valid_utf8_concat(id_b, dot);
    vstd::utf8::valid_utf8_concat(id_b + dot, sec_b);
    vstd::utf8::valid_utf8_concat(id_b + dot + sec_b, dot);
    vstd::utf8::valid_utf8_concat(id_b + dot + sec_b + dot, now_b);
    vstd::utf8::valid_utf8_concat(id_b + dot + sec_b + dot + now_b, dot);
    vstd::utf8::valid_utf8_concat(id_b + dot + sec_b + dot + now_b + dot, pid_b);
    assert(plain == id_b + dot + sec_b + dot + now_b + dot + pid_b);
    vstd::utf8::valid_utf8_concat(plain, dot);
    vstd::utf8::valid_utf8_concat(plain + dot, sig);
    assert(raw == plain + dot + sig);

    let i = plain.len() as int;
    assert(raw[i] == 46u8);
    assert forall|j: int| i < j < raw.len() implies raw[j] != 46u8 by {
        assert(raw[j] == sig[j - i - 1]);
    };
    assert(spec_is_last_dot(raw, i));
    assert(raw.take(i) =~= plain);
    assert(raw.subrange(i + 1, raw.len() as int) =~= sig);
    assert(spec_check_raw(raw, vstd::utf8::encode_utf8(noc)));
}

/// Builds a token for the identity `id` and secret `sec`, signed with the
/// key `noc`, at the given timestamp (nanoseconds) and process id. The
/// token it builds always verifies under the key it was signed with.
pub fn encode_token(id: &str, sec: &str, noc: &str, now_nanos: u128, pid: u32) -> (r: String)
    ensures
        r@ == spec_encode_token(id@, sec@, noc@, now_nanos as nat, pid as nat),
        b64url_decode_of(r@) == Some(
            spec_rev_xor(spec_token_raw(id@, sec@, noc@, now_nanos as nat, pid as nat), TOKEN_MASK),
        ),
        spec_verify_token(r@, noc@),
{
    let mut plain: Vec<u8> = Vec::new();
    push_bytes(&mut plain, id.as_bytes());
    plain.push(46);
    push_bytes(&mut plain, sec.as_bytes());
    plain.push(46);
    let now_digits = dec_u128(now_nanos);
    push_bytes(&mut plain, now_digits.as_slice());
    plain.push(46);
    let pid_digits = dec_u128(pid as u128);
    push_bytes(&mut plain, pid_digits.as_slice());
    proof {
        assert(plain@ =~= spec_token_plain(id@, sec@, now_nanos as nat, pid as nat));
    }
    let mut sig_input: Vec<u8> = Vec::new();
    push_bytes(&mut sig_input, plain.as_slice());
    push_bytes(&mut sig_input, noc.as_bytes());
    let sig = djb2_bytes(sig_input.as_slice());
    let sig_hex = hex16_u64(sig);
    let mut raw = plain;
    raw.push(46);
    push_bytes(&mut raw, sig_hex.as_slice());
    proof {
        assert(raw@ =~= spec_token_raw(id@, sec@, noc@, now_nanos as nat, pid as nat));
    }
    let obf = obfuscate(raw, TOKEN_MASK);
    let r = b64url_encode(obf.as_slice());
    proof {
        lemma_token_raw_checks(id@, sec@, noc@, now_nanos as nat, pid as nat);
        lemma_rev_xor_involution(
            spec_token_raw(id@, sec@, noc@, now_nanos as nat, pid as nat),
            TOKEN_MASK,
        );
    }
    r
}

/// Builds a token signed with the built-in key; it always verifies under
/// that key.
pub fn default_token(id: &str, sec: &str, now_nanos: u128, pid: u32) -> (r: String)
    ensures
        r@ == spec_encode_token(id@, sec@, "Gmv123..."@, now_nanos as nat, pid as nat),
        b64url_decode_of(r@) == Some(
            spec_rev_xor(
                spec_token_raw(id@, sec@, "Gmv123..."@, now_nanos as nat, pid as nat),
                TOKEN_MASK,
            ),
        ),
        spec_verify_token(r@, "Gmv123..."@),
{
    encode_token(id, sec, NONCE, now_nanos, pid)
}

/// Whether `i` is the index of the last dot of `raw`.
pub open spec fn spec_is_last_dot(raw: Seq<u8>, i: int) -> bool {
    &&& 0 <= i < raw.len()
    &&& raw[i] == 46u8
    &&& forall|j: int| i < j < raw.len() ==> raw[j] != 46u8
}

/// Whether the part of `raw` after its last dot is exactly the sixteen hex
/// digits of the DJB2 hash of the part before the dot followed by `key`.
pub open spec fn spec_check_raw(raw: Seq<u8>, key: Seq<u8>) -> bool {
    exists|i: int|
        spec_is_last_dot(raw, i) && raw.subrange(i + 1, raw.len() as int) == spec_hex16(
            spec_djb2(raw.take(i) + key) as nat,
        )
}

/// Law: the signed bytes embed their timestamp. With everything else
/// equal, two different timestamps give two different signed byte strings.
pub proof fn lemma_token_raw_distinct_timestamps(
    id: Seq<char>,
    sec: Seq<char>,
    noc: Seq<char>,
    now1: nat,
    now2: nat,
    pid: nat,
)
    requires
        now1 != now2,
    ensures
        spec_token_raw(id, sec, noc, now1, pid) != spec_token_raw(id, sec, noc, now2, pid),
{
    let raw1 = spec_token_raw(id, sec, noc, now1, pid);
    let raw2 = spec_token_raw(id, sec, noc, now2, pid);
    if raw1 == raw2 {
        let dot = seq![46u8];
        let id_b = vstd::utf8::encode_utf8(id);
        let sec_b = vstd::utf8::encode_utf8(sec);
        let noc_b = vstd::utf8::encode_utf8(noc);
        let pid_b = spec_dec_digits(pid);
        let n1 = spec_dec_digits(now1);
        let n2 = spec_dec_digits(now2);
        let plain1 = spec_token_plain(id, sec, now1, pid);
        let plain2 = spec_token_plain(id, sec, now2, pid);
        super::textual::lemma_hex_rec_len(spec_djb2(plain1 + noc_b) as nat, 16);
        super::textual::lemma_hex_rec_len(spec_djb2(plain2 + noc_b) as nat, 16);
        assert(raw1.len() == plain1.len() + 17);
        assert(raw2.len() == plain2.len() + 17);
        assert(plain1.len() == plain2.len());
        assert(plain1 =~= plain2) by {
            assert forall|i: int| 0 <= i < plain1.len() implies plain1[i] == plain2[i] by {
                assert(raw1[i] == plain1[i]);
                assert(raw2[i] == plain2[i]);
            };
        };
        let lhs = id_b + dot + sec_b + dot;
        let p = lhs.len() as int;
        assert(plain1 == lhs + n1 + dot + pid_b);
        assert(plain2 == lhs + n2 + dot + pid_b);
        assert(n1.len() == n2.len());
        assert(n1 =~= n2) by {
            assert forall|i: int| 0 <= i < n1.len() implies n1[i] == n2[i] by {
                assert(plain1[p + i] == n1[i]);
                assert(plain2[p + i] == n2[i]);
            };
        };
        super::textual::lemma_dec_digits_injective(now1, now2);
        assert(false);
    }
}

/// Law: tokens whose decodings are signed bytes with two different
/// timestamps are themselves different. A caller of `encode_token` has the
/// decoding of each token from its contract, so two calls observing
/// different timestamps return different tokens.
pub proof fn lemma_token_distinct_timestamps(
    t1: Seq<char>,
    t2: Seq<char>,
    id: Seq<char>,
    sec: Seq<char>,
    noc: Seq<char>,
    now1: nat,
    now2: nat,
    pid: nat,
)
    requires
        b64url_decode_of(t1) == Some(
            spec_rev_xor(spec_token_raw(id, sec, noc, now1, pid), TOKEN_MASK),
        ),
        b64url_decode_of(t2) == Some(
            spec_rev_xor(spec_token_raw(id, sec, noc, now2, pid), TOKEN_MASK),
        ),
        now1 != now2,
    ensures
        t1 != t2,
{
    if t1 == t2 {
        lemma_rev_xor_injective(
            spec_token_raw(id, sec, noc, now1, pid),
            spec_token_raw(id, sec, noc, now2, pid),
            TOKEN_MASK,
        );
        lemma_token_raw_distinct_timestamps(id, sec, noc, now1, now2, pid);
    }
}

/// Law: a token decoding to bytes signed with one key never verifies under
/// a key whose signature of those bytes differs. A caller of `encode_token`
/// has the decoding of the token from its contract, so verification under a
/// key that hashes differently fails.
pub proof fn lemma_verify_wrong_key(
    token: Seq<char>,
    id: Seq<char>,
    sec: Seq<char>,
    noc: Seq<char>,
    key: Seq<char>,
    now: nat,
    pid: nat,
)
    requires
        b64url_decode_of(token) == Some(
            spec_rev_xor(spec_token_raw(id, sec, noc, now, pid), TOKEN_MASK),
        ),
        spec_djb2(spec_token_plain(id, sec, now, pid) + vstd::utf8::encode_utf8(key)) != spec_djb2(
            spec_token_plain(id, sec, now, pid) + vstd::utf8::encode_utf8(noc),
        ),
    ensures
        !spec_verify_token(token, key),
{
    let raw = spec_token_raw(id, sec, noc, now, pid);
    let plain = spec_token_plain(id, sec, now, pid);
    let key_b = vstd::utf8::encode_utf8(key);
    let noc_b = vstd::utf8::encode_utf8(noc);
    let h_noc = spec_djb2(plain + noc_b);
    let h_key = spec_djb2(plain + key_b);
    let sig = spec_hex16(h_noc as nat);
    let dot = seq![46u8];
    lemma_rev_xor_involution(raw, TOKEN_MASK);
    super::textual::lemma_hex_rec_len(h_noc as nat, 16);
    super::textual::lemma_hex_digits_bounds(h_noc as nat, 16);
    assert(raw == plain + dot + sig);
    let d = plain.len() as int;
    assert(raw[d] == 46u8);
    if spec_check_raw(raw, key_b) {
        let i = choose|i: int|
            spec_is_last_dot(raw, i) && raw.subrange(i + 1, raw.len() as int) == spec_hex16(
                spec_djb2(raw.take(i) + key_b) as nat,
            );
        assert(spec_is_last_dot(raw, i));
        if i < d {
            assert(raw[d] == 46u8);
            assert(false);
        }
        if i > d {
            assert(raw[i] == sig[i - d - 1]);
            assert(raw[i] != 46u8);
            assert(false);
        }
        assert(raw.take(d) =~= plain);
        assert(raw.subrange(d + 1, raw.len() as int) =~= sig);
        assert(spec_hex16(h_key as nat) == spec_hex16(h_noc as nat));
        super::textual::lemma_hex16_injective(h_key, h_noc);
        assert(false);
    }
}

/// Whether `token` verifies under `key`: it decodes as base64, unmasks to
/// valid UTF-8, and its signature matches.
pub open spec fn spec_verify_token(token: Seq<char>, key: Seq<char>) -> bool {
    match b64url_decode_of(token) {
        None => false,
        Some(obf) => {
            let raw = spec_rev_xor(obf, TOKEN_MASK);
            vstd::utf8::valid_utf8(raw) && spec_check_raw(raw, vstd::utf8::encode_utf8(key))
        },
    }
}

/// Checks a token against the signing key: true exactly when the token is
/// well-formed and its signature matches.
pub fn verify_token(token: &str, key: &str) -> (r: bool)
    ensures
        r == spec_verify_token(token@, key@),
{
    let obf = match b64url_decode(token) {
        Some(v) => v,
        None => {
            return false;
        },
    };
    let raw_bytes = deobfuscate(obf, TOKEN_MASK);
    let ghost raw_seq = raw_bytes@;
    let s = match utf8_to_string(raw_bytes) {
        Some(s) => s,
        None => {
            return false;
        },
    };
    let bytes = s.as_str().as_bytes();
    proof {
        assert(bytes@ == raw_seq);
    }
    let n = bytes.len();
    let mut found = false;
    let mut idx: usize = 0;
    let mut j: usize = 0;
    while j < n
        invariant
            j <= n,
            n == bytes@.len(),
            found ==> idx < j <= n && bytes@[idx as int] == 46u8 && (forall|t: int|
                idx < t < j ==> bytes@[t] != 46u8),
            !found ==> forall|t: int| 0 <= t < j ==> bytes@[t] != 46u8,
        decreases n - j,
    {
        if bytes[j] == 46 {
            found = true;
            idx = j;
        }
        j = j + 1;
    }
    if !found {
        proof {
            assert forall|i: int| !spec_is_last_dot(bytes@, i) by {
                if 0 <= i < bytes@.len() {
                    assert(bytes@[i] != 46u8);
                }
            };
        }
        return false;
    }
    let rest = &bytes[0..idx];
    let sig = &bytes[idx + 1..n];
    let mut hash_input: Vec<u8> = Vec::new();
    push_bytes(&mut hash_input, rest);
    push_bytes(&mut hash_input, key.as_bytes());
    proof {
        assert(hash_input@ =~= bytes@.take(idx as int) + vstd::utf8::encode_utf8(key@));
    }
    let expected = hex16_u64(djb2_bytes(hash_input.as_slice()));
    let ok = bytes_eq(sig, expected.as_slice());
    proof {
        assert(spec_is_last_dot(bytes@, idx as int));
        if ok {
            assert(bytes@.subrange(idx as int + 1, bytes@.len() as int) == spec_hex16(
                spec_djb2(bytes@.take(idx as int) + vstd::utf8::encode_utf8(key@)) as nat,
            ));
            assert(spec_check_raw(bytes@, vstd::utf8::encode_utf8(key@)));
        } else {
            assert forall|i: int|
                !(spec_is_last_dot(bytes@, i) && bytes@.subrange(i + 1, bytes@.len() as int)
                    == spec_hex16(spec_djb2(bytes@.take(i) + vstd::utf8::encode_utf8(key@)) as nat)) by {
                if spec_is_last_dot(bytes@, i) {
                    assert(i == idx as int);
                }
            };
        }
    }
    ok
}

} // verus!
