//! Character- and byte-level building blocks: decimal rendering, hex
//! rendering, JSON string escaping, and percent-encoding for query values.

use vstd::prelude::*;
use vstd::string::*;

verus! {

/// Relies on `String::push`: appends exactly the one character `c` at the end.
#[verifier::external_body]
pub(crate) fn push_char(s: &mut String, c: char)
    ensures
        final(s)@ == old(s)@ + seq![c],
{
    s.push(c);
}

pub open spec fn is_digit_char(c: char) -> bool {
    48 <= (c as u32) <= 57
}

pub open spec fn is_alnum_char(c: char) -> bool {
    ||| is_digit_char(c)
    ||| 65 <= (c as u32) <= 90
    ||| 97 <= (c as u32) <= 122
}

pub open spec fn is_upper_hex_char(c: char) -> bool {
    ||| is_digit_char(c)
    ||| 65 <= (c as u32) <= 70
}

/// The characters `str::trim` removes: the Unicode `White_Space` set.
pub open spec fn is_trimmable_char(c: char) -> bool {
    ||| 9 <= (c as u32) <= 13
    ||| (c as u32) == 32
    ||| (c as u32) == 0x85
    ||| (c as u32) == 0xA0
    ||| (c as u32) == 0x1680
    ||| 0x2000 <= (c as u32) <= 0x200A
    ||| (c as u32) == 0x2028
    ||| (c as u32) == 0x2029
    ||| (c as u32) == 0x202F
    ||| (c as u32) == 0x205F
    ||| (c as u32) == 0x3000
}

pub open spec fn is_alnum_byte(b: u8) -> bool {
    ||| 48 <= b <= 57
    ||| 65 <= b <= 90
    ||| 97 <= b <= 122
}

// ---------------------------------------------------------------------------
// Decimal rendering
// ---------------------------------------------------------------------------

pub open spec fn dec_digit(n: int) -> char {
    if n == 0 {
        '0'
    } else if n == 1 {
        '1'
    } else if n == 2 {
        '2'
    } else if n == 3 {
        '3'
    } else if n == 4 {
        '4'
    } else if n == 5 {
        '5'
    } else if n == 6 {
        '6'
    } else if n == 7 {
        '7'
    } else if n == 8 {
        '8'
    } else {
        '9'
    }
}

/// The usual decimal numeral of `n`, most significant digit first, without
/// leading zeros (`0` itself is the single digit `'0'`).
pub open spec fn dec_nat(n: nat) -> Seq<char>
    decreases n,
{
    if n < 10 {
        seq![dec_digit(n as int)]
    } else {
        dec_nat(n / 10) + seq![dec_digit((n % 10) as int)]
    }
}

/// Decimal numeral of a possibly negative number: a leading `'-'` before the
/// numeral of the magnitude.
pub open spec fn dec_int(n: int) -> Seq<char> {
    if n < 0 {
        seq!['-'] + dec_nat((-n) as nat)
    } else {
        dec_nat(n as nat)
    }
}

pub proof fn lemma_dec_nat_chars(n: nat)
    ensures
        dec_nat(n).len() >= 1,
        forall|i: int| 0 <= i < dec_nat(n).len() ==> is_digit_char(#[trigger] dec_nat(n)[i]),
    decreases n,
{
    if n >= 10 {
        lemma_dec_nat_chars(n / 10);
    }
}

pub proof fn lemma_dec_int_chars(n: int)
    ensures
        dec_int(n).len() >= 1,
        forall|i: int|
            0 <= i < dec_int(n).len() ==> is_digit_char(#[trigger] dec_int(n)[i]) || dec_int(
                n,
            )[i] == '-',
{
    if n < 0 {
        lemma_dec_nat_chars((-n) as nat);
    } else {
        lemma_dec_nat_chars(n as nat);
    }
}

/// Two numbers with the same numeral are the same number.
pub proof fn lemma_dec_nat_injective(a: nat, b: nat)
    requires
        dec_nat(a) == dec_nat(b),
    ensures
        a == b,
    decreases a,
{
    lemma_dec_nat_chars(a);
    lemma_dec_nat_chars(b);
    if a < 10 && b < 10 {
        assert(dec_nat(a)[0] == dec_digit(a as int));
        assert(dec_nat(b)[0] == dec_digit(b as int));
    } else if a < 10 && b >= 10 {
        lemma_dec_nat_chars(b / 10);
        assert(dec_nat(b).len() >= 2);
    } else if a >= 10 && b < 10 {
        lemma_dec_nat_chars(a / 10);
        assert(dec_nat(a).len() >= 2);
    } else {
        let la = dec_nat(a).len();
        assert(dec_nat(a)[la - 1] == dec_digit((a % 10) as int));
        assert(dec_nat(b)[la - 1] == dec_digit((b % 10) as int));
        assert(a % 10 == b % 10);
        assert(dec_nat(a / 10) =~= dec_nat(a).subrange(0, la - 1));
        assert(dec_nat(b / 10) =~= dec_nat(b).subrange(0, la - 1));
        lemma_dec_nat_injective(a / 10, b / 10);
        assert(a == (a / 10) * 10 + a % 10);
        assert(b == (b / 10) * 10 + b % 10);
    }
}

/// The signed numeral is injective as well.
pub proof fn lemma_dec_int_injective(a: int, b: int)
    requires
        dec_int(a) == dec_int(b),
    ensures
        a == b,
{
    lemma_dec_nat_chars(if a < 0 {
        (-a) as nat
    } else {
        a as nat
    });
    lemma_dec_nat_chars(if b < 0 {
        (-b) as nat
    } else {
        b as nat
    });
    if a < 0 && b < 0 {
        assert(dec_nat((-a) as nat) =~= dec_int(a).drop_first());
        assert(dec_nat((-b) as nat) =~= dec_int(b).drop_first());
        lemma_dec_nat_injective((-a) as nat, (-b) as nat);
    } else if a >= 0 && b >= 0 {
        lemma_dec_nat_injective(a as nat, b as nat);
    } else if a < 0 {
        assert(dec_int(a)[0] == '-');
        assert(is_digit_char(dec_int(b)[0]));
    } else {
        assert(dec_int(b)[0] == '-');
        assert(is_digit_char(dec_int(a)[0]));
    }
}

fn dec_digit_char(d: u64) -> (c: char)
    requires
        d < 10,
    ensures
        c == dec_digit(d as int),
{
    match d {
        0 => '0',
        1 => '1',
        2 => '2',
        3 => '3',
        4 => '4',
        5 => '5',
        6 => '6',
        7 => '7',
        8 => '8',
        _ => '9',
    }
}

/// Renders `n` in decimal.
pub fn u64_dec(n: u64) -> (r: String)
    ensures
        r@ == dec_nat(n as nat),
    decreases n,
{
    if n < 10 {
        let mut s = String::new();
        push_char(&mut s, dec_digit_char(n));
        assert(s@ =~= dec_nat(n as nat));
        s
    } else {
        let mut s = u64_dec(n / 10);
        push_char(&mut s, dec_digit_char(n % 10));
        assert(s@ =~= dec_nat(n as nat));
        s
    }
}

/// Renders `n` in decimal, with a `'-'` sign when negative.
pub fn i64_dec(n: i64) -> (r: String)
    ensures
        r@ == dec_int(n as int),
{
    if n >= 0 {
        u64_dec(n as u64)
    } else {
        let mag: u64 = ((-(n + 1)) as u64) + 1;
        assert(mag as int == -(n as int));
        let head = String::from_str("-");
        let tail = u64_dec(mag);
        let r = head.concat(tail.as_str());
        proof {
            reveal_strlit("-");
        }
        assert(r@ =~= dec_int(n as int));
        r
    }
}

// ---------------------------------------------------------------------------
// Hex rendering
// ---------------------------------------------------------------------------

pub open spec fn hex_upper_digit(n: int) -> char {
    if n < 10 {
        dec_digit(n)
    } else if n == 10 {
        'A'
    } else if n == 11 {
        'B'
    } else if n == 12 {
        'C'
    } else if n == 13 {
        'D'
    } else if n == 14 {
        'E'
    } else {
        'F'
    }
}

pub open spec fn hex_lower_digit(n: int) -> char {
    if n < 10 {
        dec_digit(n)
    } else if n == 10 {
        'a'
    } else if n == 11 {
        'b'
    } else if n == 12 {
        'c'
    } else if n == 13 {
        'd'
    } else if n == 14 {
        'e'
    } else {
        'f'
    }
}

/// Upper-case hex rendering of a byte string, two digits per byte.
pub open spec fn hex_upper(bytes: Seq<u8>) -> Seq<char>
    decreases bytes.len(),
{
    if bytes.len() == 0 {
        Seq::empty()
    } else {
        seq![
            hex_upper_digit(bytes[0] as int / 16),
            hex_upper_digit(bytes[0] as int % 16),
        ] + hex_upper(bytes.drop_first())
    }
}

pub proof fn lemma_hex_upper_shape(bytes: Seq<u8>)
    ensures
        hex_upper(bytes).len() == 2 * bytes.len(),
        forall|i: int|
            0 <= i < hex_upper(bytes).len() ==> is_upper_hex_char(#[trigger] hex_upper(bytes)[i]),
    decreases bytes.len(),
{
    if bytes.len() > 0 {
        lemma_hex_upper_shape(bytes.drop_first());
    }
}

fn hex_upper_digit_char(d: u8) -> (c: char)
    requires
        d < 16,
    ensures
        c == hex_upper_digit(d as int),
{
    match d {
        0 => '0',
        1 => '1',
        2 => '2',
        3 => '3',
        4 => '4',
        5 => '5',
        6 => '6',
        7 => '7',
        8 => '8',
        9 => '9',
        10 => 'A',
        11 => 'B',
        12 => 'C',
        13 => 'D',
        14 => 'E',
        _ => 'F',
    }
}

fn hex_lower_digit_char(d: u8) -> (c: char)
    requires
        d < 16,
    ensures
        c == hex_lower_digit(d as int),
{
    match d {
        0 => '0',
        1 => '1',
        2 => '2',
        3 => '3',
        4 => '4',
        5 => '5',
        6 => '6',
        7 => '7',
        8 => '8',
        9 => '9',
        10 => 'a',
        11 => 'b',
        12 => 'c',
        13 => 'd',
        14 => 'e',
        _ => 'f',
    }
}

/// Renders a byte string as upper-case hex, two digits per byte.
pub fn to_hex_upper(bytes: &[u8]) -> (r: String)
    ensures
        r@ == hex_upper(bytes@),
{
    let mut out = String::new();
    let n = bytes.len();
    let mut i: usize = 0;
    assert(bytes@.skip(0) == bytes@);
    while i < n
        invariant
            n == bytes@.len(),
            i <= n,
            out@ + hex_upper(bytes@.skip(i as int)) == hex_upper(bytes@),
        decreases n - i,
    {
        let b = bytes[i];
        assert(bytes@.skip(i as int)[0] == bytes@[i as int]);
        assert(bytes@.skip(i as int).drop_first() == bytes@.skip(i as int + 1));
        push_char(&mut out, hex_upper_digit_char(b / 16));
        push_char(&mut out, hex_upper_digit_char(b % 16));
        i = i + 1;
    }
    assert(bytes@.skip(n as int) =~= Seq::<u8>::empty());
    assert(out@ =~= hex_upper(bytes@));
    out
}

// ---------------------------------------------------------------------------
// JSON string escaping
// ---------------------------------------------------------------------------

/// How one character is written inside a JSON string literal: quote and
/// backslash get a backslash escape, the named control characters get their
/// short escapes, any other control character gets a `\u00..` escape, and
/// everything else stands for itself.
pub open spec fn json_escape_char(c: char) -> Seq<char> {
    if c == '"' {
        seq!['\\', '"']
    } else if c == '\\' {
        seq!['\\', '\\']
    } else if (c as u32) == 8 {
        seq!['\\', 'b']
    } else if (c as u32) == 9 {
        seq!['\\', 't']
    } else if (c as u32) == 10 {
        seq!['\\', 'n']
    } else if (c as u32) == 12 {
        seq!['\\', 'f']
    } else if (c as u32) == 13 {
        seq!['\\', 'r']
    } else if (c as u32) < 32 {
        seq![
            '\\',
            'u',
            '0',
            '0',
            hex_lower_digit((c as u32) as int / 16),
            hex_lower_digit((c as u32) as int % 16),
        ]
    } else {
        seq![c]
    }
}

/// The body of a JSON string literal holding exactly the characters of `s`.
pub open spec fn json_escaped(s: Seq<char>) -> Seq<char>
    decreases s.len(),
{
    if s.len() == 0 {
        Seq::empty()
    } else {
        json_escape_char(s[0]) + json_escaped(s.drop_first())
    }
}

/// Appends the escaped form of `s` to `out`.
pub fn append_json_escaped(out: &mut String, s: &str)
    ensures
        final(out)@ == old(out)@ + json_escaped(s@),
{
    let n = s.unicode_len();
    let mut i: usize = 0;
    assert(s@.skip(0) == s@);
    while i < n
        invariant
            n == s@.len(),
            i <= n,
            out@ + json_escaped(s@.skip(i as int)) == old(out)@ + json_escaped(s@),
        decreases n - i,
    {
        let c = s.get_char(i);
        assert(s@.skip(i as int)[0] == s@[i as int]);
        assert(s@.skip(i as int).drop_first() == s@.skip(i as int + 1));
        if c == '"' {
            push_char(out, '\\');
            push_char(out, '"');
        } else if c == '\\' {
            push_char(out, '\\');
            push_char(out, '\\');
        } else if (c as u32) == 8 {
            push_char(out, '\\');
            push_char(out, 'b');
        } else if (c as u32) == 9 {
            push_char(out, '\\');
            push_char(out, 't');
        } else if (c as u32) == 10 {
            push_char(out, '\\');
            push_char(out, 'n');
        } else if (c as u32) == 12 {
            push_char(out, '\\');
            push_char(out, 'f');
        } else if (c as u32) == 13 {
            push_char(out, '\\');
            push_char(out, 'r');
        } else if (c as u32) < 32 {
            let code = c as u32;
            push_char(out, '\\');
            push_char(out, 'u');
            push_char(out, '0');
            push_char(out, '0');
            push_char(out, hex_lower_digit_char((code / 16) as u8));
            push_char(out, hex_lower_digit_char((code % 16) as u8));
        } else {
            push_char(out, c);
        }
        i = i + 1;
    }
    assert(s@.skip(n as int) =~= Seq::<char>::empty());
    assert(out@ =~= old(out)@ + json_escaped(s@));
}

// ---------------------------------------------------------------------------
// Percent-encoding for query-string values
// ---------------------------------------------------------------------------

/// Percent-escaping of the three base64 characters that are not safe in a
/// URL query value; every other character stands for itself.  This is meant
/// for values drawn from the base64 alphabet, where nothing else needs an
/// escape.
pub open spec fn pct_escape_char(c: char) -> Seq<char> {
    if c == '+' {
        seq!['%', '2', 'B']
    } else if c == '/' {
        seq!['%', '2', 'F']
    } else if c == '=' {
        seq!['%', '3', 'D']
    } else {
        seq![c]
    }
}

pub open spec fn pct_encoded(s: Seq<char>) -> Seq<char>
    decreases s.len(),
{
    if s.len() == 0 {
        Seq::empty()
    } else {
        pct_escape_char(s[0]) + pct_encoded(s.drop_first())
    }
}

/// Appends the percent-encoded form of `s` to `out`.
pub fn append_pct_encoded(out: &mut String, s: &str)
    ensures
        final(out)@ == old(out)@ + pct_encoded(s@),
{
    let n = s.unicode_len();
    let mut i: usize = 0;
    assert(s@.skip(0) == s@);
    while i < n
        invariant
            n == s@.len(),
            i <= n,
            out@ + pct_encoded(s@.skip(i as int)) == old(out)@ + pct_encoded(s@),
        decreases n - i,
    {
        let c = s.get_char(i);
        assert(s@.skip(i as int)[0] == s@[i as int]);
        assert(s@.skip(i as int).drop_first() == s@.skip(i as int + 1));
        if c == '+' {
            push_char(out, '%');
            push_char(out, '2');
            push_char(out, 'B');
        } else if c == '/' {
            push_char(out, '%');
            push_char(out, '2');
            push_char(out, 'F');
        } else if c == '=' {
            push_char(out, '%');
            push_char(out, '3');
            push_char(out, 'D');
        } else {
            push_char(out, c);
        }
        i = i + 1;
    }
    assert(s@.skip(n as int) =~= Seq::<char>::empty());
    assert(out@ =~= old(out)@ + pct_encoded(s@));
}

// ---------------------------------------------------------------------------
// ASCII bytes and strings
// ---------------------------------------------------------------------------

pub open spec fn upper_byte(b: u8) -> u8 {
    if 97 <= b <= 122 {
        (b - 32) as u8
    } else {
        b
    }
}

/// Upper-cases the ASCII letters of a byte string.
pub fn ascii_upper(v: &[u8]) -> (r: Vec<u8>)
    ensures
        r@.len() == v@.len(),
        forall|i: int| 0 <= i < v@.len() ==> r@[i] == upper_byte(#[trigger] v@[i]),
{
    let mut out: Vec<u8> = Vec::new();
    let n = v.len();
    let mut i: usize = 0;
    while i < n
        invariant
            n == v@.len(),
            i <= n,
            out@.len() == i,
            forall|j: int| 0 <= j < i ==> out@[j] == upper_byte(#[trigger] v@[j]),
        decreases n - i,
    {
        let b = v[i];
        if 97 <= b && b <= 122 {
            out.push(b - 32);
        } else {
            out.push(b);
        }
        i = i + 1;
    }
    out
}

/// Turns a string of ASCII bytes into the string of the same characters.
pub fn ascii_string(v: &[u8]) -> (r: String)
    requires
        forall|i: int| 0 <= i < v@.len() ==> #[trigger] v@[i] < 128,
    ensures
        r@.len() == v@.len(),
        forall|i: int| 0 <= i < v@.len() ==> r@[i] == #[trigger] v@[i] as char,
{
    let mut out = String::new();
    let n = v.len();
    let mut i: usize = 0;
    while i < n
        invariant
            n == v@.len(),
            i <= n,
            out@.len() == i,
            forall|j: int| 0 <= j < v@.len() ==> #[trigger] v@[j] < 128,
            forall|j: int| 0 <= j < i ==> out@[j] == #[trigger] v@[j] as char,
        decreases n - i,
    {
        let b = v[i];
        push_char(&mut out, b as char);
        i = i + 1;
    }
    out
}

/// Character-for-character string equality.
pub fn str_eq(a: &str, b: &str) -> (r: bool)
    ensures
        r == (a@ == b@),
{
    let na = a.unicode_len();
    let nb = b.unicode_len();
    if na != nb {
        return false;
    }
    let mut i: usize = 0;
    while i < na
        invariant
            na == a@.len(),
            na == b@.len(),
            i <= na,
            forall|j: int| 0 <= j < i ==> a@[j] == b@[j],
        decreases na - i,
    {
        if a.get_char(i) != b.get_char(i) {
            return false;
        }
        i = i + 1;
    }
    assert(a@ =~= b@);
    true
}

/// Whether `c` occurs in `s`.
pub fn str_contains_char(s: &str, c: char) -> (r: bool)
    ensures
        r == s@.contains(c),
{
    let n = s.unicode_len();
    let mut i: usize = 0;
    while i < n
        invariant
            n == s@.len(),
            i <= n,
            forall|j: int| 0 <= j < i ==> s@[j] != c,
        decreases n - i,
    {
        if s.get_char(i) == c {
            assert(s@.contains(c));
            return true;
        }
        i = i + 1;
    }
    assert(!s@.contains(c));
    false
}

} // verus!
