//! MD5 and SHA-256 digests, and the lower-case hex encoding of bytes.

use vstd::prelude::*;

use sha2::Digest;

verus! {

/// The MD5 digest of `data` (`md5::compute`).
pub uninterp spec fn md5_digest(data: Seq<u8>) -> Seq<u8>;

/// The SHA-256 digest of `data` (`sha2::Sha256::digest`).
pub uninterp spec fn sha256_digest(data: Seq<u8>) -> Seq<u8>;

/// Calls `md5::compute`. Trusted: the 16 digest bytes are `md5_digest(data)`.
#[verifier::external_body]
pub(crate) fn md5_compute(data: &[u8]) -> (r: Vec<u8>)
    ensures
        r@ == md5_digest(data@),
        r@.len() == 16,
{
    md5::compute(data).0.to_vec()
}

/// Calls `sha2::Sha256::digest`. Trusted: the 32 digest bytes are
/// `sha256_digest(data)`.
#[verifier::external_body]
pub(crate) fn sha256_compute(data: &[u8]) -> (r: Vec<u8>)
    ensures
        r@ == sha256_digest(data@),
        r@.len() == 32,
{
    sha2::Sha256::digest(data).to_vec()
}

/// The lower-case hex digit of a value below 16.
pub open spec fn hex_char(n: u8) -> char
    recommends
        n < 16,
{
    if n < 10 {
        (48 + n) as char
    } else {
        (87 + n) as char
    }
}

/// Lower-case hex of the bytes, two digits per byte, high nibble first
/// (the `{:x}` form of a digest).
pub open spec fn hex_lower(bytes: Seq<u8>) -> Seq<char>
    decreases bytes.len(),
{
    if bytes.len() == 0 {
        Seq::<char>::empty()
    } else {
        let b = bytes.last();
        hex_lower(bytes.drop_last()) + seq![hex_char(b / 16), hex_char(b % 16)]
    }
}

/// The hex text has two digits per byte.
pub proof fn lemma_hex_len(bytes: Seq<u8>)
    ensures
        hex_lower(bytes).len() == 2 * bytes.len(),
    decreases bytes.len(),
{
    if bytes.len() > 0 {
        lemma_hex_len(bytes.drop_last());
    }
}

/// Each byte becomes two lower-case hex digits, high nibble first, in the
/// order of the bytes.
pub proof fn hex_digits_in_order(bytes: Seq<u8>)
    ensures
        hex_lower(bytes).len() == 2 * bytes.len(),
        forall|i: int|
            0 <= i < bytes.len() ==> hex_lower(bytes)[2 * i] == hex_char(#[trigger] bytes[i] / 16)
                && hex_lower(bytes)[2 * i + 1] == hex_char(bytes[i] % 16),
    decreases bytes.len(),
{
    lemma_hex_len(bytes);
    if bytes.len() > 0 {
        let rest = bytes.drop_last();
        hex_digits_in_order(rest);
        lemma_hex_len(rest);
        assert forall|i: int| 0 <= i < bytes.len() implies hex_lower(bytes)[2 * i] == hex_char(
            #[trigger] bytes[i] / 16,
        ) && hex_lower(bytes)[2 * i + 1] == hex_char(bytes[i] % 16) by {
            if i < rest.len() {
                assert(rest[i] == bytes[i]);
            }
        }
    }
}

/// The hex digits are `0`-`9` for values below ten and `a`-`f` above.
pub proof fn hex_digit_values(n: u8)
    requires
        n < 16,
    ensures
        n < 10 ==> hex_char(n) as u32 == '0' as u32 + n,
        n >= 10 ==> hex_char(n) as u32 == 'a' as u32 + (n - 10),
{
}

proof fn lemma_hex_char_injective(x: u8, y: u8)
    requires
        x < 16,
        y < 16,
        hex_char(x) == hex_char(y),
    ensures
        x == y,
{
    assert((hex_char(x) as u32) == (if x < 10 { 48 + x } else { 87 + x }));
    assert((hex_char(y) as u32) == (if y < 10 { 48 + y } else { 87 + y }));
}

/// Distinct bytes have distinct hex texts.
pub proof fn lemma_hex_injective(a: Seq<u8>, b: Seq<u8>)
    requires
        hex_lower(a) == hex_lower(b),
    ensures
        a == b,
    decreases a.len(),
{
    lemma_hex_len(a);
    lemma_hex_len(b);
    if a.len() > 0 {
        let ha = hex_lower(a);
        let pa = hex_lower(a.drop_last());
        let pb = hex_lower(b.drop_last());
        lemma_hex_len(a.drop_last());
        lemma_hex_len(b.drop_last());
        assert(pa =~= ha.subrange(0, ha.len() - 2));
        assert(pb =~= ha.subrange(0, ha.len() - 2));
        lemma_hex_injective(a.drop_last(), b.drop_last());
        let x = a.last();
        let y = b.last();
        assert(ha[ha.len() - 2] == hex_char(x / 16) && ha[ha.len() - 2] == hex_char(y / 16));
        assert(ha[ha.len() - 1] == hex_char(x % 16) && ha[ha.len() - 1] == hex_char(y % 16));
        lemma_hex_char_injective(x / 16, y / 16);
        lemma_hex_char_injective(x % 16, y % 16);
        assert(x == y);
        assert(a =~= a.drop_last().push(x));
        assert(b =~= b.drop_last().push(y));
    }
}

/// The hex digit of a value below 16, as text.
pub fn hex_digit(n: u8) -> (s: &'static str)
    requires
        n < 16,
    ensures
        s@ == seq![hex_char(n)],
{
    proof {
        reveal_strlit("0");
        reveal_strlit("1");
        reveal_strlit("2");
        reveal_strlit("3");
        reveal_strlit("4");
        reveal_strlit("5");
        reveal_strlit("6");
        reveal_strlit("7");
        reveal_strlit("8");
        reveal_strlit("9");
        reveal_strlit("a");
        reveal_strlit("b");
        reveal_strlit("c");
        reveal_strlit("d");
        reveal_strlit("e");
        reveal_strlit("f");
    }
    let s = match n {
        0 => "0",
        1 => "1",
        2 => "2",
        3 => "3",
        4 => "4",
        5 => "5",
        6 => "6",
        7 => "7",
        8 => "8",
        9 => "9",
        10 => "a",
        11 => "b",
        12 => "c",
        13 => "d",
        14 => "e",
        _ => "f",
    };
    assert(s@ =~= seq![hex_char(n)]);
    s
}

/// Appends the lower-case hex of `bytes` to `out`.
pub fn push_hex(out: &mut String, bytes: &[u8])
    ensures
        final(out)@ == old(out)@ + hex_lower(bytes@),
{
    let n = bytes.len();
    let mut i: usize = 0;
    while i < n
        invariant
            n == bytes@.len(),
            i <= n,
            out@ == old(out)@ + hex_lower(bytes@.take(i as int)),
        decreases n - i,
    {
        let b = bytes[i];
        out.append(hex_digit(b / 16));
        out.append(hex_digit(b % 16));
        assert(bytes@.take(i + 1).drop_last() =~= bytes@.take(i as int));
        assert(bytes@.take(i + 1).last() == b);
        i = i + 1;
    }
    assert(bytes@.take(n as int) =~= bytes@);
}

/// Lower-case hex of `bytes`.
pub fn to_hex(bytes: &[u8]) -> (s: String)
    ensures
        s@ == hex_lower(bytes@),
{
    let mut s = String::new();
    push_hex(&mut s, bytes);
    assert(s@ =~= hex_lower(bytes@));
    s
}

} // verus!
