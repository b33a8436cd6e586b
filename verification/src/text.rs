use vstd::prelude::*;
use vstd::string::*;

verus! {

/// The decimal digit character for `n` (for `n < 10`; saturates at `'9'`).
pub open spec fn digit_char(n: nat) -> char {
    if n == 0 {
        '0'
    } else if n == 1 {
        '1'
    } else if n == 2 {
        '2'
    } else if n == 3 {
        '3'
    } else if n == 4 {
        '4'
    } else if n == 5 {
        '5'
    } else if n == 6 {
        '6'
    } else if n == 7 {
        '7'
    } else if n == 8 {
        '8'
    } else {
        '9'
    }
}

/// The decimal rendering of `n`, without sign and without leading zeros
/// (a single `'0'` for zero).
pub open spec fn dec_seq(n: nat) -> Seq<char>
    decreases n,
{
    if n < 10 {
        seq![digit_char(n)]
    } else {
        dec_seq(n / 10) + seq![digit_char(n % 10)]
    }
}

/// The JSON rendering of a boolean.
pub open spec fn bool_lit(b: bool) -> Seq<char> {
    if b {
        "true"@
    } else {
        "false"@
    }
}

/// The JSON escape of one character inside a string literal: quote and
/// backslash are escaped, control characters use the short escapes where
/// JSON has them and `\u00XX` otherwise, and every other character stands
/// for itself.
pub open spec fn esc_char(c: char) -> Seq<char> {
    if c == '"' {
        seq!['\\', '"']
    } else if c == '\\' {
        seq!['\\', '\\']
    } else if c == '\u{8}' {
        seq!['\\', 'b']
    } else if c == '\t' {
        seq!['\\', 't']
    } else if c == '\n' {
        seq!['\\', 'n']
    } else if c == '\u{c}' {
        seq!['\\', 'f']
    } else if c == '\r' {
        seq!['\\', 'r']
    } else if (c as u32) < 32 {
        seq!['\\', 'u', '0', '0', digit_char((c as u32 / 16) as nat), hex_char((c as u32 % 16) as nat)]
    } else {
        seq![c]
    }
}

/// The hexadecimal digit character for `n` (for `n < 16`; saturates at `'f'`).
pub open spec fn hex_char(n: nat) -> char {
    if n < 10 {
        digit_char(n)
    } else if n == 10 {
        'a'
    } else if n == 11 {
        'b'
    } else if n == 12 {
        'c'
    } else if n == 13 {
        'd'
    } else if n == 14 {
        'e'
    } else {
        'f'
    }
}

/// The escape of the suffix of `s` that starts at index `i`.
pub open spec fn esc_from(s: Seq<char>, i: int) -> Seq<char>
    decreases s.len() - i,
{
    if i < 0 || i >= s.len() {
        Seq::empty()
    } else {
        esc_char(s[i]) + esc_from(s, i + 1)
    }
}

/// The escape of a whole character sequence.
pub open spec fn esc_seq(s: Seq<char>) -> Seq<char> {
    esc_from(s, 0)
}

/// The JSON string literal that denotes `s`: quoted and escaped.
pub open spec fn text_lit(s: Seq<char>) -> Seq<char> {
    seq!['"'] + esc_seq(s) + seq!['"']
}

/// The decimal digit character for `n`, executably.
pub fn exec_digit(n: u32) -> (c: char)
    requires
        n < 10,
    ensures
        c == digit_char(n as nat),
{
    if n == 0 {
        '0'
    } else if n == 1 {
        '1'
    } else if n == 2 {
        '2'
    } else if n == 3 {
        '3'
    } else if n == 4 {
        '4'
    } else if n == 5 {
        '5'
    } else if n == 6 {
        '6'
    } else if n == 7 {
        '7'
    } else if n == 8 {
        '8'
    } else {
        '9'
    }
}

/// Appends the decimal rendering of `n` to `out`.
pub fn push_dec(out: &mut Vec<char>, n: u32)
    ensures
        final(out)@ == old(out)@ + dec_seq(n as nat),
    decreases n,
{
    if n < 10 {
        let c = exec_digit(n);
        out.push(c);
        assert(out@ =~= old(out)@ + dec_seq(n as nat));
    } else {
        push_dec(out, n / 10);
        let c = exec_digit(n % 10);
        out.push(c);
        assert(out@ =~= old(out)@ + dec_seq(n as nat));
    }
}

/// Appends the characters of `s` to `out`, unchanged.
pub fn push_chars(out: &mut Vec<char>, s: &str)
    ensures
        final(out)@ == old(out)@ + s@,
{
    let n = s.unicode_len();
    let mut i: usize = 0;
    while i < n
        invariant
            n == s@.len(),
            i <= n,
            out@ == old(out)@ + s@.take(i as int),
        decreases n - i,
    {
        let c = s.get_char(i);
        out.push(c);
        assert(s@.take(i + 1) =~= s@.take(i as int) + seq![s@[i as int]]);
        i = i + 1;
    }
    assert(s@.take(n as int) =~= s@);
}

/// Appends the JSON escape of one character to `out`.
pub fn push_esc_char(out: &mut Vec<char>, c: char)
    ensures
        final(out)@ == old(out)@ + esc_char(c),
{
    if c == '"' {
        out.push('\\');
        out.push('"');
    } else if c == '\\' {
        out.push('\\');
        out.push('\\');
    } else if c == '\u{8}' {
        out.push('\\');
        out.push('b');
    } else if c == '\t' {
        out.push('\\');
        out.push('t');
    } else if c == '\n' {
        out.push('\\');
        out.push('n');
    } else if c == '\u{c}' {
        out.push('\\');
        out.push('f');
    } else if c == '\r' {
        out.push('\\');
        out.push('r');
    } else if (c as u32) < 32 {
        out.push('\\');
        out.push('u');
        out.push('0');
        out.push('0');
        let hi = exec_digit((c as u32) / 16);
        out.push(hi);
        let lo = exec_hex((c as u32) % 16);
        out.push(lo);
    } else {
        out.push(c);
    }
    assert(out@ =~= old(out)@ + esc_char(c));
}

/// The hexadecimal digit character for `n`, executably.
pub fn exec_hex(n: u32) -> (c: char)
    requires
        n < 16,
    ensures
        c == hex_char(n as nat),
{
    if n < 10 {
        exec_digit(n)
    } else if n == 10 {
        'a'
    } else if n == 11 {
        'b'
    } else if n == 12 {
        'c'
    } else if n == 13 {
        'd'
    } else if n == 14 {
        'e'
    } else {
        'f'
    }
}

/// Appends the JSON string literal denoting `s` (quoted, escaped) to `out`.
pub fn push_text_lit(out: &mut Vec<char>, s: &str)
    ensures
        final(out)@ == old(out)@ + text_lit(s@),
{
    out.push('"');
    let n = s.unicode_len();
    let ghost base = out@;
    let mut i: usize = 0;
    while i < n
        invariant
            n == s@.len(),
            i <= n,
            out@ == base + prefix_esc(s@, i as int),
        decreases n - i,
    {
        let c = s.get_char(i);
        push_esc_char(out, c);
        proof {
            lemma_prefix_esc_step(s@, i as int);
        }
        i = i + 1;
    }
    proof {
        lemma_prefix_esc_all(s@);
    }
    out.push('"');
    assert(out@ =~= old(out)@ + text_lit(s@));
}

/// The escape of the prefix of `s` that ends before index `i`.
pub open spec fn prefix_esc(s: Seq<char>, i: int) -> Seq<char>
    decreases i,
{
    if i <= 0 {
        Seq::empty()
    } else {
        prefix_esc(s, i - 1) + esc_char(s[i - 1])
    }
}

proof fn lemma_prefix_esc_step(s: Seq<char>, i: int)
    requires
        0 <= i < s.len(),
    ensures
        prefix_esc(s, i + 1) == prefix_esc(s, i) + esc_char(s[i]),
{
}

proof fn lemma_prefix_esc_all(s: Seq<char>)
    ensures
        prefix_esc(s, s.len() as int) == esc_from(s, 0),
{
    lemma_prefix_esc_from(s, 0);
}

proof fn lemma_prefix_esc_from(s: Seq<char>, i: int)
    requires
        0 <= i <= s.len(),
    ensures
        prefix_esc(s, s.len() as int) == prefix_esc(s, i) + esc_from(s, i),
    decreases s.len() - i,
{
    if i == s.len() {
        assert(prefix_esc(s, s.len() as int) =~= prefix_esc(s, i) + esc_from(s, i));
    } else {
        lemma_prefix_esc_from(s, i + 1);
        assert(prefix_esc(s, i + 1) == prefix_esc(s, i) + esc_char(s[i]));
        assert(prefix_esc(s, i) + esc_from(s, i) =~= (prefix_esc(s, i) + esc_char(s[i])) + esc_from(
            s,
            i + 1,
        ));
    }
}

/// Relies on `String: FromIterator<char>`: collecting characters yields the
/// string of exactly those characters in order.
#[verifier::external_body]
pub fn string_from_chars(v: Vec<char>) -> (r: String)
    ensures
        r@ == v@,
{
    v.into_iter().collect()
}

} // verus!
