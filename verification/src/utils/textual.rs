//! Byte-level text helpers: decimal and hexadecimal rendering, byte
//! comparisons, the DJB2 hash, and the two conversions between byte vectors
//! and `String`.

use vstd::prelude::*;
use vstd::string::*;

verus! {

/// The decimal digits of `n`, most significant first, as ASCII bytes.
pub open spec fn spec_dec_digits(n: nat) -> Seq<u8>
    decreases n,
{
    if n < 10 {
        seq![(n + 48) as u8]
    } else {
        spec_dec_digits(n / 10).push((n % 10 + 48) as u8)
    }
}

/// Renders `n` in decimal, as ASCII bytes.
pub fn dec_u128(n: u128) -> (r: Vec<u8>)
    ensures
        r@ == spec_dec_digits(n as nat),
    decreases n,
{
    if n < 10 {
        let mut v: Vec<u8> = Vec::new();
        v.push((n as u8) + 48);
        assert(v@ =~= spec_dec_digits(n as nat));
        v
    } else {
        proof {
            assert(n / 10 < n) by (nonlinear_arith)
                requires
                    n >= 10,
            ;
        }
        let mut v = dec_u128(n / 10);
        v.push(((n % 10) as u8) + 48);
        assert(v@ =~= spec_dec_digits(n as nat));
        v
    }
}

/// The ASCII byte of one hexadecimal digit, lowercase.
pub open spec fn spec_hex_digit(d: nat) -> u8 {
    if d < 10 {
        (d + 48) as u8
    } else {
        (d + 87) as u8
    }
}

/// The last `k` hexadecimal digits of `n`, most significant first, as ASCII
/// bytes, zero-padded to exactly `k` digits.
pub open spec fn spec_hex_rec(n: nat, k: nat) -> Seq<u8>
    decreases k,
{
    if k == 0 {
        Seq::empty()
    } else {
        spec_hex_rec(n / 16, (k - 1) as nat).push(spec_hex_digit(n % 16))
    }
}

/// `n` as exactly sixteen lowercase hexadecimal digits, zero-padded.
pub open spec fn spec_hex16(n: nat) -> Seq<u8> {
    spec_hex_rec(n, 16)
}

fn hex_rec(n: u64, k: usize) -> (r: Vec<u8>)
    ensures
        r@ == spec_hex_rec(n as nat, k as nat),
    decreases k,
{
    if k == 0 {
        let v: Vec<u8> = Vec::new();
        assert(v@ =~= spec_hex_rec(n as nat, 0));
        v
    } else {
        let mut v = hex_rec(n / 16, k - 1);
        let d: u8 = (n % 16) as u8;
        v.push(if d < 10 { d + 48 } else { d + 87 });
        assert(v@ =~= spec_hex_rec(n as nat, k as nat));
        v
    }
}

/// Renders `n` as exactly sixteen lowercase hexadecimal digits, zero-padded.
pub fn hex16_u64(n: u64) -> (r: Vec<u8>)
    ensures
        r@ == spec_hex16(n as nat),
{
    hex_rec(n, 16)
}

/// Law: every decimal digit byte is an ASCII digit.
pub proof fn lemma_dec_digits_bounds(n: nat)
    ensures
        forall|i: int|
            0 <= i < spec_dec_digits(n).len() ==> 48 <= #[trigger] spec_dec_digits(n)[i] <= 57,
    decreases n,
{
    if n >= 10 {
        lemma_dec_digits_bounds(n / 10);
        let prev = spec_dec_digits(n / 10);
        let whole = spec_dec_digits(n);
        assert(whole == prev.push((n % 10 + 48) as u8));
        assert forall|i: int| 0 <= i < whole.len() implies 48 <= #[trigger] whole[i] <= 57 by {
            if i < prev.len() {
                assert(whole[i] == prev[i]);
            }
        };
    }
}

/// Law: decimal rendering never yields an empty digit string.
pub proof fn lemma_dec_digits_len_pos(n: nat)
    ensures
        spec_dec_digits(n).len() >= 1,
    decreases n,
{
    if n >= 10 {
        lemma_dec_digits_len_pos(n / 10);
    }
}

/// Law: decimal rendering is injective: equal digit strings name equal
/// numbers.
pub proof fn lemma_dec_digits_injective(a: nat, b: nat)
    requires
        spec_dec_digits(a) == spec_dec_digits(b),
    ensures
        a == b,
    decreases a,
{
    let da = spec_dec_digits(a);
    let db = spec_dec_digits(b);
    if a < 10 && b < 10 {
        assert(da[0] == (a + 48) as u8);
        assert(db[0] == (b + 48) as u8);
        assert(a + 48 < 256 && b + 48 < 256);
        assert(a + 48 == b + 48);
    } else if a < 10 {
        lemma_dec_digits_len_pos(b / 10);
        assert(db == spec_dec_digits(b / 10).push((b % 10 + 48) as u8));
        assert(false);
    } else if b < 10 {
        lemma_dec_digits_len_pos(a / 10);
        assert(da == spec_dec_digits(a / 10).push((a % 10 + 48) as u8));
        assert(false);
    } else {
        let pa = spec_dec_digits(a / 10);
        let pb = spec_dec_digits(b / 10);
        assert(da == pa.push((a % 10 + 48) as u8));
        assert(db == pb.push((b % 10 + 48) as u8));
        assert(pa.len() == pb.len());
        assert(pa =~= pb) by {
            assert forall|i: int| 0 <= i < pa.len() implies pa[i] == pb[i] by {
                assert(pa[i] == da[i]);
                assert(pb[i] == db[i]);
            };
        };
        assert(da[da.len() - 1] == (a % 10 + 48) as u8);
        assert(db[db.len() - 1] == (b % 10 + 48) as u8);
        assert(a % 10 < 10 && b % 10 < 10);
        assert(a % 10 + 48 == b % 10 + 48);
        assert(a % 10 == b % 10);
        assert(a / 10 < a) by (nonlinear_arith)
            requires
                a >= 10,
        ;
        lemma_dec_digits_injective(a / 10, b / 10);
        assert(a == 10 * (a / 10) + a % 10) by (nonlinear_arith);
        assert(b == 10 * (b / 10) + b % 10) by (nonlinear_arith);
    }
}

/// Sixteen to the power `k`.
pub open spec fn spec_pow16(k: nat) -> nat
    decreases k,
{
    if k == 0 {
        1
    } else {
        16 * spec_pow16((k - 1) as nat)
    }
}

/// Law: a fixed-width hexadecimal rendering has exactly that width.
pub proof fn lemma_hex_rec_len(n: nat, k: nat)
    ensures
        spec_hex_rec(n, k).len() == k,
    decreases k,
{
    if k > 0 {
        lemma_hex_rec_len(n / 16, (k - 1) as nat);
    }
}

proof fn lemma_hex_digit_injective(d1: nat, d2: nat)
    requires
        d1 < 16,
        d2 < 16,
        spec_hex_digit(d1) == spec_hex_digit(d2),
    ensures
        d1 == d2,
{
    if d1 < 10 && d2 >= 10 {
        assert(spec_hex_digit(d1) <= 57);
        assert(spec_hex_digit(d2) >= 97);
    }
    if d1 >= 10 && d2 < 10 {
        assert(spec_hex_digit(d1) >= 97);
        assert(spec_hex_digit(d2) <= 57);
    }
}

/// Law: a fixed-width hexadecimal rendering is injective on the numbers
/// that fit its width.
pub proof fn lemma_hex_rec_injective(n1: nat, n2: nat, k: nat)
    requires
        spec_hex_rec(n1, k) == spec_hex_rec(n2, k),
        n1 < spec_pow16(k),
        n2 < spec_pow16(k),
    ensures
        n1 == n2,
    decreases k,
{
    if k == 0 {
        assert(spec_pow16(0) == 1);
    } else {
        let p1 = spec_hex_rec(n1 / 16, (k - 1) as nat);
        let p2 = spec_hex_rec(n2 / 16, (k - 1) as nat);
        let w1 = spec_hex_rec(n1, k);
        let w2 = spec_hex_rec(n2, k);
        assert(w1 == p1.push(spec_hex_digit(n1 % 16)));
        assert(w2 == p2.push(spec_hex_digit(n2 % 16)));
        lemma_hex_rec_len(n1 / 16, (k - 1) as nat);
        lemma_hex_rec_len(n2 / 16, (k - 1) as nat);
        assert(p1 =~= p2) by {
            assert forall|i: int| 0 <= i < p1.len() implies p1[i] == p2[i] by {
                assert(p1[i] == w1[i]);
                assert(p2[i] == w2[i]);
            };
        };
        assert(w1[w1.len() - 1] == w2[w2.len() - 1]);
        lemma_hex_digit_injective(n1 % 16, n2 % 16);
        assert(spec_pow16(k) == 16 * spec_pow16((k - 1) as nat));
        assert(n1 / 16 < spec_pow16((k - 1) as nat)) by (nonlinear_arith)
            requires
                n1 < 16 * spec_pow16((k - 1) as nat),
        ;
        assert(n2 / 16 < spec_pow16((k - 1) as nat)) by (nonlinear_arith)
            requires
                n2 < 16 * spec_pow16((k - 1) as nat),
        ;
        lemma_hex_rec_injective(n1 / 16, n2 / 16, (k - 1) as nat);
        assert(n1 == 16 * (n1 / 16) + n1 % 16) by (nonlinear_arith);
        assert(n2 == 16 * (n2 / 16) + n2 % 16) by (nonlinear_arith);
    }
}

proof fn lemma_pow16_width() 
    ensures
        spec_pow16(16) == 0x10000000000000000,
{
    assert(spec_pow16(0) == 1);
    assert(spec_pow16(1) == 16);
    assert(spec_pow16(2) == 0x100);
    assert(spec_pow16(3) == 0x1000);
    assert(spec_pow16(4) == 0x10000);
    assert(spec_pow16(5) == 0x100000);
    assert(spec_pow16(6) == 0x1000000);
    assert(spec_pow16(7) == 0x10000000);
    assert(spec_pow16(8) == 0x100000000);
    assert(spec_pow16(9) == 0x1000000000);
    assert(spec_pow16(10) == 0x10000000000);
    assert(spec_pow16(11) == 0x100000000000);
    assert(spec_pow16(12) == 0x1000000000000);
    assert(spec_pow16(13) == 0x10000000000000);
    assert(spec_pow16(14) == 0x100000000000000);
    assert(spec_pow16(15) == 0x1000000000000000);
    assert(spec_pow16(16) == 0x10000000000000000);
}

/// Law: the sixteen-digit hexadecimal rendering is injective on 64-bit
/// values.
pub proof fn lemma_hex16_injective(h1: u64, h2: u64)
    requires
        spec_hex16(h1 as nat) == spec_hex16(h2 as nat),
    ensures
        h1 == h2,
{
    lemma_pow16_width();
    lemma_hex_rec_injective(h1 as nat, h2 as nat, 16);
}

/// Law: every hexadecimal digit byte is an ASCII digit or a lowercase
/// letter from a to f.
pub proof fn lemma_hex_digits_bounds(n: nat, k: nat)
    ensures
        forall|i: int|
            0 <= i < spec_hex_rec(n, k).len() ==> (48 <= #[trigger] spec_hex_rec(n, k)[i] <= 57
                || 97 <= spec_hex_rec(n, k)[i] <= 102),
    decreases k,
{
    if k > 0 {
        lemma_hex_digits_bounds(n / 16, (k - 1) as nat);
        let prev = spec_hex_rec(n / 16, (k - 1) as nat);
        let whole = spec_hex_rec(n, k);
        assert(whole == prev.push(spec_hex_digit(n % 16)));
        assert forall|i: int|
            0 <= i < whole.len() implies (48 <= #[trigger] whole[i] <= 57 || 97 <= whole[i]
            <= 102) by {
            if i < prev.len() {
                assert(whole[i] == prev[i]);
            }
        };
    }
}

/// Law: a sequence of ASCII bytes is valid UTF-8 (it encodes its own
/// characters).
pub proof fn lemma_ascii_bytes_valid_utf8(b: Seq<u8>)
    requires
        forall|i: int| 0 <= i < b.len() ==> #[trigger] b[i] < 128,
    ensures
        vstd::utf8::valid_utf8(b),
{
    let chars = Seq::new(b.len(), |i: int| b[i] as char);
    assert forall|i: int| 0 <= i < chars.len() implies '\0' <= #[trigger] chars[i] <= '\u{7f}' by {
        assert(b[i] < 128);
    };
    assert(vstd::utf8::is_ascii_chars(chars));
    vstd::utf8::is_ascii_chars_encode_utf8(chars);
    assert(vstd::utf8::encode_utf8(chars) =~= b);
    vstd::utf8::encode_utf8_valid_utf8(chars);
}

/// One step of the DJB2 hash: the running hash times 33 plus the next byte,
/// wrapping at 64 bits.
pub open spec fn spec_djb2_step(h: u64, b: u8) -> u64 {
    vstd::wrapping::u64_specs::wrapping_add(vstd::wrapping::u64_specs::wrapping_mul(h, 33), b as u64)
}

/// The DJB2 hash of `bytes` folded onto the running hash `h`.
pub open spec fn spec_djb2_from(h: u64, bytes: Seq<u8>) -> u64
    decreases bytes.len(),
{
    if bytes.len() == 0 {
        h
    } else {
        spec_djb2_from(spec_djb2_step(h, bytes[0]), bytes.skip(1))
    }
}

/// The DJB2 hash of `bytes`, from the standard starting value.
pub open spec fn spec_djb2(bytes: Seq<u8>) -> u64 {
    spec_djb2_from(5381, bytes)
}

/// Computes the DJB2 hash of the bytes.
pub fn djb2_bytes(bytes: &[u8]) -> (r: u64)
    ensures
        r == spec_djb2(bytes@),
{
    let mut h: u64 = 5381;
    let mut i: usize = 0;
    proof {
        assert(bytes@.skip(0) =~= bytes@);
    }
    while i < bytes.len()
        invariant
            i <= bytes@.len(),
            spec_djb2(bytes@) == spec_djb2_from(h, bytes@.skip(i as int)),
        decreases bytes@.len() - i,
    {
        let b = bytes[i];
        proof {
            assert(bytes@.skip(i as int)[0] == bytes@[i as int]);
            assert(bytes@.skip(i as int).skip(1) =~= bytes@.skip(i as int + 1));
        }
        h = h.wrapping_mul(33).wrapping_add(b as u64);
        i = i + 1;
    }
    proof {
        assert(bytes@.skip(i as int) =~= Seq::<u8>::empty());
    }
    h
}

/// Whether the two byte slices hold the same bytes.
pub fn bytes_eq(a: &[u8], b: &[u8]) -> (r: bool)
    ensures
        r == (a@ == b@),
{
    if a.len() != b.len() {
        return false;
    }
    let mut i: usize = 0;
    while i < a.len()
        invariant
            a@.len() == b@.len(),
            i <= a@.len(),
            forall|j: int| 0 <= j < i ==> a@[j] == b@[j],
        decreases a@.len() - i,
    {
        if a[i] != b[i] {
            return false;
        }
        i = i + 1;
    }
    proof {
        assert(a@ =~= b@);
    }
    true
}

/// Whether `a` begins with `prefix`.
pub fn bytes_starts_with(a: &[u8], prefix: &[u8]) -> (r: bool)
    ensures
        r == (prefix@.len() <= a@.len() && a@.take(prefix@.len() as int) == prefix@),
{
    if prefix.len() > a.len() {
        return false;
    }
    let mut i: usize = 0;
    while i < prefix.len()
        invariant
            prefix@.len() <= a@.len(),
            i <= prefix@.len(),
            forall|j: int| 0 <= j < i ==> a@[j] == prefix@[j],
        decreases prefix@.len() - i,
    {
        if a[i] != prefix[i] {
            assert(a@.take(prefix@.len() as int)[i as int] != prefix@[i as int]);
            return false;
        }
        i = i + 1;
    }
    proof {
        assert(a@.take(prefix@.len() as int) =~= prefix@);
    }
    true
}

/// Appends the bytes of `other` to `v`.
pub fn push_bytes(v: &mut Vec<u8>, other: &[u8])
    ensures
        final(v)@ == old(v)@ + other@,
{
    let mut i: usize = 0;
    proof {
        assert(old(v)@ + other@.take(0) =~= old(v)@);
    }
    while i < other.len()
        invariant
            i <= other@.len(),
            v@ == old(v)@ + other@.take(i as int),
        decreases other@.len() - i,
    {
        v.push(other[i]);
        proof {
            assert(old(v)@ + other@.take(i as int + 1) =~= (old(v)@ + other@.take(i as int)).push(
                other@[i as int],
            ));
        }
        i = i + 1;
    }
    proof {
        assert(other@.take(other@.len() as int) =~= other@);
    }
}

/// Relies on String::from_utf8: a vector of ASCII bytes (always valid
/// UTF-8) becomes the string of exactly those bytes as characters.
#[verifier::external_body]
pub fn ascii_to_string(v: Vec<u8>) -> (r: String)
    requires
        forall|i: int| 0 <= i < v@.len() ==> v@[i] < 128,
    ensures
        r@.len() == v@.len(),
        forall|i: int| 0 <= i < v@.len() ==> r@[i] == v@[i] as char,
        r.is_ascii(),
{
    match String::from_utf8(v) {
        Ok(s) => s,
        Err(_) => String::new(),
    }
}

/// Relies on String::from_utf8: succeeds exactly on valid UTF-8, and the
/// returned string's bytes are the input bytes.
#[verifier::external_body]
pub fn utf8_to_string(v: Vec<u8>) -> (r: Option<String>)
    ensures
        r is Some <==> vstd::utf8::valid_utf8(v@),
        r matches Some(s) ==> vstd::utf8::encode_utf8(s@) == v@,
{
    String::from_utf8(v).ok()
}

} // verus!
