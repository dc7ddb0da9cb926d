//! Byte-level text helpers: ASCII case folding, whitespace trimming and
//! lowercase hex encoding.  Checksum sidecars are handled as raw bytes, so
//! everything here works on `u8` sequences.

use vstd::prelude::*;

verus! {

/// ASCII whitespace: space, tab, line feed, form feed, carriage return.
pub open spec fn is_ascii_space(b: u8) -> bool {
    b == 32 || b == 9 || b == 10 || b == 12 || b == 13
}

/// ASCII lowercase of a single byte; bytes outside `A..=Z` are unchanged.
pub open spec fn lower_byte(b: u8) -> u8 {
    if 65 <= b && b <= 90 {
        (b + 32) as u8
    } else {
        b
    }
}

/// ASCII lowercase of a byte sequence.
pub open spec fn lower_bytes(s: Seq<u8>) -> Seq<u8> {
    s.map_values(|b: u8| lower_byte(b))
}

/// The sequence without its leading ASCII whitespace.
pub open spec fn drop_leading_space(s: Seq<u8>) -> Seq<u8>
    decreases s.len(),
{
    if s.len() > 0 && is_ascii_space(s[0]) {
        drop_leading_space(s.drop_first())
    } else {
        s
    }
}

/// The longest whitespace-free prefix of the sequence.
pub open spec fn take_until_space(s: Seq<u8>) -> Seq<u8>
    decreases s.len(),
{
    if s.len() > 0 && !is_ascii_space(s[0]) {
        seq![s[0]] + take_until_space(s.drop_first())
    } else {
        Seq::empty()
    }
}

/// The first whitespace-delimited token of the sequence (empty if the
/// sequence is empty or all whitespace).
pub open spec fn first_token(s: Seq<u8>) -> Seq<u8> {
    take_until_space(drop_leading_space(s))
}

/// Value of the low hex digit for `n < 16`: `0..=9` then `a..=f`.
pub open spec fn hex_digit(n: u8) -> u8
    recommends
        n < 16,
{
    if n < 10 {
        (48 + n) as u8
    } else {
        (87 + n) as u8
    }
}

/// Lowercase hex encoding of a byte sequence, two digits per byte.
pub open spec fn hex_of(s: Seq<u8>) -> Seq<u8>
    decreases s.len(),
{
    if s.len() == 0 {
        Seq::empty()
    } else {
        seq![hex_digit(s[0] / 16), hex_digit(s[0] % 16)] + hex_of(s.drop_first())
    }
}

/// `hex_of` distributes over concatenation.
pub proof fn lemma_hex_of_append(a: Seq<u8>, b: Seq<u8>)
    ensures
        hex_of(a + b) == hex_of(a) + hex_of(b),
    decreases a.len(),
{
    if a.len() == 0 {
        assert(a + b =~= b);
        assert(hex_of(a) + hex_of(b) =~= hex_of(b));
    } else {
        assert((a + b).drop_first() =~= a.drop_first() + b);
        lemma_hex_of_append(a.drop_first(), b);
        assert(hex_of(a + b) =~= hex_of(a) + hex_of(b));
    }
}

/// Lowercase hex encoding of a byte slice.
pub fn hex_encode(s: &[u8]) -> (r: Vec<u8>)
    ensures
        r@ == hex_of(s@),
{
    let mut out: Vec<u8> = Vec::new();
    let mut i: usize = 0;
    while i < s.len()
        invariant
            i <= s@.len(),
            out@ == hex_of(s@.subrange(0, i as int)),
        decreases s@.len() - i,
    {
        let b = s[i];
        out.push(if b / 16 < 10 { 48 + b / 16 } else { 87 + b / 16 });
        out.push(if b % 16 < 10 { 48 + b % 16 } else { 87 + b % 16 });
        proof {
            let pre = s@.subrange(0, i as int);
            let one = seq![s@[i as int]];
            lemma_hex_of_append(pre, one);
            assert(one.drop_first() =~= Seq::<u8>::empty());
            assert(hex_of(Seq::<u8>::empty()) == Seq::<u8>::empty());
            assert(hex_of(one) =~= seq![hex_digit(s@[i as int] / 16), hex_digit(s@[i as int] % 16)]);
            assert(s@.subrange(0, i + 1) =~= pre + one);
            assert(out@ =~= hex_of(s@.subrange(0, i + 1)));
        }
        i = i + 1;
    }
    proof {
        assert(s@.subrange(0, s@.len() as int) =~= s@);
    }
    out
}

/// ASCII lowercase of a byte slice.
pub fn lowercase(s: &[u8]) -> (r: Vec<u8>)
    ensures
        r@ == lower_bytes(s@),
{
    let mut out: Vec<u8> = Vec::new();
    let mut i: usize = 0;
    while i < s.len()
        invariant
            i <= s@.len(),
            out@.len() == i,
            forall|k: int| 0 <= k < i ==> out@[k] == lower_byte(s@[k]),
        decreases s@.len() - i,
    {
        let b = s[i];
        out.push(if 65 <= b && b <= 90 { b + 32 } else { b });
        i = i + 1;
    }
    proof {
        assert(out@ =~= lower_bytes(s@));
    }
    out
}

/// Byte-slice equality.
pub fn bytes_eq(a: &[u8], b: &[u8]) -> (r: bool)
    ensures
        r == (a@ == b@),
{
    if a.len() != b.len() {
        return false;
    }
    let mut i: usize = 0;
    while i < a.len()
        invariant
            i <= a@.len(),
            a@.len() == b@.len(),
            forall|k: int| 0 <= k < i ==> a@[k] == b@[k],
        decreases a@.len() - i,
    {
        if a[i] != b[i] {
            return false;
        }
        i = i + 1;
    }
    proof {
        assert(a@ =~= b@);
    }
    true
}

/// If every byte before `i` is whitespace and the byte at `i` (when present)
/// is not, dropping the leading whitespace yields the suffix from `i`.
pub proof fn lemma_drop_leading_space_at(s: Seq<u8>, i: int)
    requires
        0 <= i <= s.len(),
        forall|k: int| 0 <= k < i ==> is_ascii_space(s[k]),
        i < s.len() ==> !is_ascii_space(s[i]),
    ensures
        drop_leading_space(s) == s.subrange(i, s.len() as int),
    decreases i,
{
    if i == 0 {
        if s.len() > 0 && is_ascii_space(s[0]) {
            assert(false);
        }
        assert(s.subrange(0, s.len() as int) =~= s);
    } else {
        assert(is_ascii_space(s[0]));
        let t = s.drop_first();
        assert(forall|k: int| 0 <= k < i - 1 ==> t[k] == s[k + 1] && is_ascii_space(t[k]));
        lemma_drop_leading_space_at(t, i - 1);
        assert(t.subrange(i - 1, t.len() as int) =~= s.subrange(i, s.len() as int));
    }
}

/// If no byte before `j` is whitespace and the byte at `j` (when present)
/// is, the whitespace-free prefix is exactly the first `j` bytes.
pub proof fn lemma_take_until_space_at(s: Seq<u8>, j: int)
    requires
        0 <= j <= s.len(),
        forall|k: int| 0 <= k < j ==> !is_ascii_space(s[k]),
        j < s.len() ==> is_ascii_space(s[j]),
    ensures
        take_until_space(s) == s.subrange(0, j),
    decreases j,
{
    if j == 0 {
        assert(take_until_space(s) =~= s.subrange(0, 0));
    } else {
        assert(!is_ascii_space(s[0]));
        let t = s.drop_first();
        assert(forall|k: int| 0 <= k < j - 1 ==> t[k] == s[k + 1] && !is_ascii_space(t[k]));
        lemma_take_until_space_at(t, j - 1);
        assert(seq![s[0]] + t.subrange(0, j - 1) =~= s.subrange(0, j));
    }
}

/// The first whitespace-delimited token of a byte slice.
pub fn first_token_of(s: &[u8]) -> (r: Vec<u8>)
    ensures
        r@ == first_token(s@),
{
    let n = s.len();
    let mut i: usize = 0;
    while i < n && is_space(s[i])
        invariant
            i <= n,
            n == s@.len(),
            forall|k: int| 0 <= k < i ==> is_ascii_space(s@[k]),
        decreases n - i,
    {
        i = i + 1;
    }
    let mut j: usize = i;
    let mut out: Vec<u8> = Vec::new();
    while j < n && !is_space(s[j])
        invariant
            i <= j <= n,
            n == s@.len(),
            forall|k: int| i <= k < j ==> !is_ascii_space(s@[k]),
            out@ == s@.subrange(i as int, j as int),
        decreases n - j,
    {
        out.push(s[j]);
        proof {
            assert(out@ =~= s@.subrange(i as int, j + 1));
        }
        j = j + 1;
    }
    proof {
        lemma_drop_leading_space_at(s@, i as int);
        let t = s@.subrange(i as int, s@.len() as int);
        assert(forall|k: int| 0 <= k < j - i ==> t[k] == s@[k + i] && !is_ascii_space(t[k]));
        lemma_take_until_space_at(t, j - i);
        assert(t.subrange(0, j - i) =~= s@.subrange(i as int, j as int));
    }
    out
}

/// Whether a byte is ASCII whitespace.
pub fn is_space(b: u8) -> (r: bool)
    ensures
        r == is_ascii_space(b),
{
    b == 32 || b == 9 || b == 10 || b == 12 || b == 13
}

} // verus!
