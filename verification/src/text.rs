//! Text building blocks: decimal and hexadecimal rendering, joining lines,
//! and shortening long identifiers for display.

use vstd::prelude::*;

verus! {

// ---------------------------------------------------------------------------
// Characters and decimal numbers
// ---------------------------------------------------------------------------

/// The ASCII digit for `d` (`d < 10`).
pub open spec fn digit_char(d: nat) -> char {
    (48 + d) as char
}

/// The decimal rendering of `n`, without sign or leading zeros.
pub open spec fn dec(n: nat) -> Seq<char>
    decreases n,
{
    if n < 10 {
        seq![digit_char(n)]
    } else {
        dec(n / 10).push(digit_char(n % 10))
    }
}

/// Calls `String::push`.
#[verifier::external_body]
pub fn push_char(s: &mut String, c: char)
    ensures
        final(s)@ == old(s)@.push(c),
{
    s.push(c);
}

fn digit(d: u64) -> (c: char)
    requires
        d < 10,
    ensures
        c == digit_char(d as nat),
{
    match d {
        0 => '0',
        1 => '1',
        2 => '2',
        3 => '3',
        4 => '4',
        5 => '5',
        6 => '6',
        7 => '7',
        8 => '8',
        _ => '9',
    }
}

/// Appends the decimal rendering of `n` to `s`.
pub fn push_decimal(s: &mut String, n: u64)
    ensures
        final(s)@ == old(s)@ + dec(n as nat),
    decreases n,
{
    if n >= 10 {
        push_decimal(s, n / 10);
    }
    push_char(s, digit(n % 10));
    proof {
        if n >= 10 {
            assert(dec(n as nat) == dec((n / 10) as nat).push(digit_char((n % 10) as nat)));
        }
    }
}

/// The decimal rendering of `n`.
pub fn u64_to_decimal(n: u64) -> (s: String)
    ensures
        s@ == dec(n as nat),
{
    let mut s = String::new();
    push_decimal(&mut s, n);
    assert(s@ =~= dec(n as nat));
    s
}

// ---------------------------------------------------------------------------
// Hexadecimal
// ---------------------------------------------------------------------------

/// The lowercase hexadecimal digit for `n` (`n < 16`).
pub open spec fn nibble_char(n: nat) -> char {
    if n < 10 {
        (48 + n) as char
    } else {
        (87 + n) as char
    }
}

/// The lowercase hexadecimal rendering of `bytes`, two digits per byte,
/// most significant nibble first.
pub open spec fn hex_lower(bytes: Seq<u8>) -> Seq<char>
    decreases bytes.len(),
{
    if bytes.len() == 0 {
        seq![]
    } else {
        seq![nibble_char((bytes[0] / 16) as nat), nibble_char((bytes[0] % 16) as nat)] + hex_lower(
            bytes.drop_first(),
        )
    }
}

/// Calls `hex::encode`, which renders every byte as two lowercase
/// hexadecimal digits, high nibble first, from the table `0123456789abcdef`.
#[verifier::external_body]
pub fn hex_encode(data: &[u8]) -> (s: String)
    ensures
        s@ == hex_lower(data@),
{
    hex::encode(data)
}

/// `0x` followed by the lowercase hexadecimal rendering of `bytes`.
pub open spec fn prefixed_hex(bytes: Seq<u8>) -> Seq<char> {
    "0x"@ + hex_lower(bytes)
}

/// Renders `bytes` as `0x` followed by lowercase hexadecimal digits.
pub fn to_prefixed_hex(bytes: &[u8]) -> (s: String)
    ensures
        s@ == prefixed_hex(bytes@),
{
    let mut s = String::from_str("0x");
    let h = hex_encode(bytes);
    s.append(h.as_str());
    s
}

// ---------------------------------------------------------------------------
// Joining
// ---------------------------------------------------------------------------

/// The views of a sequence of strings.
pub open spec fn views(parts: Seq<String>) -> Seq<Seq<char>> {
    parts.map_values(|p: String| p@)
}

/// `parts` joined with `sep` between neighbours.
pub open spec fn join(parts: Seq<Seq<char>>, sep: Seq<char>) -> Seq<char>
    decreases parts.len(),
{
    if parts.len() == 0 {
        seq![]
    } else if parts.len() == 1 {
        parts[0]
    } else {
        join(parts.drop_last(), sep) + sep + parts.last()
    }
}

/// Joins `parts` with `sep` between neighbours.
pub fn join_strings(parts: &Vec<String>, sep: &str) -> (s: String)
    ensures
        s@ == join(views(parts@), sep@),
{
    let ghost vs = views(parts@);
    let mut s = String::new();
    let n = parts.len();
    let mut i: usize = 0;
    while i < n
        invariant
            n == parts@.len(),
            vs == views(parts@),
            i <= n,
            s@ == join(vs.take(i as int), sep@),
        decreases n - i,
    {
        assert(vs.take(i + 1).drop_last() =~= vs.take(i as int));
        if i > 0 {
            s.append(sep);
        }
        s.append(parts[i].as_str());
        assert(vs.take(i + 1).last() == parts@[i as int]@);
        i = i + 1;
    }
    assert(vs.take(n as int) =~= vs);
    s
}

// ---------------------------------------------------------------------------
// Comparing
// ---------------------------------------------------------------------------

/// Whether two string slices hold the same characters.
pub fn str_eq(a: &str, b: &str) -> (r: bool)
    ensures
        r == (a@ == b@),
{
    let x = String::from_str(a);
    let y = String::from_str(b);
    x == y
}

// ---------------------------------------------------------------------------
// Shortening identifiers
// ---------------------------------------------------------------------------

/// The number of bytes of the UTF-8 encoding of `c`.
pub open spec fn utf8_width(c: char) -> nat {
    if (c as u32) < 0x80 {
        1
    } else if (c as u32) < 0x800 {
        2
    } else if (c as u32) < 0x10000 {
        3
    } else {
        4
    }
}

/// The number of bytes of the UTF-8 encoding of `s`.
pub open spec fn utf8_len(s: Seq<char>) -> nat
    decreases s.len(),
{
    if s.len() == 0 {
        0
    } else {
        utf8_width(s[0]) + utf8_len(s.drop_first())
    }
}

/// The longest prefix of `s` whose UTF-8 encoding takes at most `budget`
/// bytes.
pub open spec fn byte_prefix(s: Seq<char>, budget: nat) -> Seq<char>
    decreases s.len(),
{
    if s.len() == 0 || utf8_width(s[0]) > budget {
        seq![]
    } else {
        seq![s[0]] + byte_prefix(s.drop_first(), (budget - utf8_width(s[0])) as nat)
    }
}

/// Whether the first `n` bytes of the UTF-8 encoding of `s` end on a
/// character boundary.
pub open spec fn cuts_at_boundary(s: Seq<char>, n: nat) -> bool {
    utf8_len(byte_prefix(s, n)) == n
}

/// An identifier shortened for display: the first `n` bytes followed by
/// `...` when it is longer than `n` bytes, else the identifier itself.
pub open spec fn shorten(s: Seq<char>, n: nat) -> Seq<char> {
    if utf8_len(s) > n {
        byte_prefix(s, n) + "..."@
    } else {
        s
    }
}

/// The first `n` bytes of `s`, or all of `s` when it is not longer.
pub open spec fn head(s: Seq<char>, n: nat) -> Seq<char> {
    if utf8_len(s) > n {
        byte_prefix(s, n)
    } else {
        s
    }
}

fn char_width(c: char) -> (w: usize)
    ensures
        w == utf8_width(c),
{
    let u = c as u32;
    if u < 0x80 {
        1
    } else if u < 0x800 {
        2
    } else if u < 0x10000 {
        3
    } else {
        4
    }
}

proof fn lemma_utf8_len_take(s: Seq<char>, i: int)
    requires
        0 <= i < s.len(),
    ensures
        utf8_len(s.take(i + 1)) == utf8_len(s.take(i)) + utf8_width(s[i]),
    decreases i,
{
    if i == 0 {
        assert(s.take(1).drop_first() =~= seq![]);
        assert(s.take(0) =~= seq![]);
    } else {
        let t = s.drop_first();
        lemma_utf8_len_take(t, i - 1);
        assert(s.take(i + 1).drop_first() =~= t.take(i));
        assert(s.take(i).drop_first() =~= t.take(i - 1));
    }
}

proof fn lemma_byte_prefix_take(s: Seq<char>, n: nat, i: int)
    requires
        0 <= i <= s.len(),
        utf8_len(s.take(i)) <= n,
        i == s.len() || utf8_len(s.take(i)) + utf8_width(s[i]) > n,
    ensures
        byte_prefix(s, n) == s.take(i),
    decreases i,
{
    if i == 0 {
        assert(s.take(0) =~= seq![]);
    } else {
        let t = s.drop_first();
        assert(s.take(i).drop_first() =~= t.take(i - 1));
        if i < s.len() {
            assert(t[i - 1] == s[i]);
        }
        lemma_byte_prefix_take(t, (n - utf8_width(s[0])) as nat, i - 1);
        assert(seq![s[0]] + t.take(i - 1) =~= s.take(i));
    }
}

/// How many leading characters of `s` fit in `budget` bytes, and the byte
/// length of those characters.
fn fitting_prefix(s: &str, budget: usize) -> (r: (usize, usize))
    ensures
        r.0 <= s@.len(),
        s@.take(r.0 as int) == byte_prefix(s@, budget as nat),
        r.1 == utf8_len(s@.take(r.0 as int)),
        r.1 <= budget,
{
    let n = s.unicode_len();
    let mut i: usize = 0;
    let mut used: usize = 0;
    while i < n
        invariant
            n == s@.len(),
            i <= n,
            used == utf8_len(s@.take(i as int)),
            used <= budget,
        decreases n - i,
    {
        let c = s.get_char(i);
        let w = char_width(c);
        if w > budget - used {
            proof {
                lemma_byte_prefix_take(s@, budget as nat, i as int);
            }
            return (i, used);
        }
        proof {
            lemma_utf8_len_take(s@, i as int);
        }
        used = used + w;
        i = i + 1;
    }
    proof {
        lemma_byte_prefix_take(s@, budget as nat, i as int);
    }
    (i, used)
}

/// The byte length of `s`, counted by characters.
fn utf8_length(s: &str) -> (r: u128)
    ensures
        r == utf8_len(s@),
{
    let n = s.unicode_len();
    let mut i: usize = 0;
    let mut total: u128 = 0;
    while i < n
        invariant
            n == s@.len(),
            i <= n,
            total == utf8_len(s@.take(i as int)),
            total <= 4 * i,
        decreases n - i,
    {
        proof {
            lemma_utf8_len_take(s@, i as int);
        }
        total = total + char_width(s.get_char(i)) as u128;
        i = i + 1;
    }
    assert(s@.take(n as int) =~= s@);
    total
}

/// Shortens an identifier for display: its first `n` bytes followed by
/// `...` when it is longer than `n` bytes, else the identifier itself.
/// Cutting inside a character is not allowed.
pub fn shorten_id(s: &str, n: usize) -> (r: String)
    requires
        utf8_len(s@) > n ==> cuts_at_boundary(s@, n as nat),
    ensures
        r@ == shorten(s@, n as nat),
{
    let total = utf8_length(s);
    if total > n as u128 {
        let (k, _) = fitting_prefix(s, n);
        let head = s.substring_char(0, k);
        let mut r = String::from_str(head);
        r.append("...");
        assert(s@.subrange(0, k as int) =~= s@.take(k as int));
        r
    } else {
        String::from_str(s)
    }
}

/// The first `n` bytes of `s`, or all of `s` when it is not longer.
/// Cutting inside a character is not allowed.
pub fn head_bytes(s: &str, n: usize) -> (r: String)
    requires
        utf8_len(s@) > n ==> cuts_at_boundary(s@, n as nat),
    ensures
        r@ == head(s@, n as nat),
{
    let total = utf8_length(s);
    if total > n as u128 {
        let (k, _) = fitting_prefix(s, n);
        let h = s.substring_char(0, k);
        assert(s@.subrange(0, k as int) =~= s@.take(k as int));
        String::from_str(h)
    } else {
        String::from_str(s)
    }
}

} // verus!
