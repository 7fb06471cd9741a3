//! Text primitives shared by validation, error messages and redaction:
//! whitespace trimming, decimal rendering of integers, and building strings
//! one character at a time. Lengths here are always counted in characters.

use vstd::prelude::*;

verus! {

/// Whether `c` has the Unicode `White_Space` property, the definition of
/// whitespace that `str::trim` and `char::is_whitespace` use: U+0009 to
/// U+000D, U+0020, U+0085, U+00A0, U+1680, U+2000 to U+200A, U+2028, U+2029,
/// U+202F, U+205F and U+3000.
pub open spec fn is_white_space(c: char) -> bool {
    let u = c as u32;
    ||| 0x09 <= u <= 0x0D
    ||| u == 0x20
    ||| u == 0x85
    ||| u == 0xA0
    ||| u == 0x1680
    ||| 0x2000 <= u <= 0x200A
    ||| u == 0x2028
    ||| u == 0x2029
    ||| u == 0x202F
    ||| u == 0x205F
    ||| u == 0x3000
}

/// `s` without its leading whitespace.
pub open spec fn trim_start_chars(s: Seq<char>) -> Seq<char>
    decreases s.len(),
{
    if s.len() > 0 && is_white_space(s[0]) {
        trim_start_chars(s.drop_first())
    } else {
        s
    }
}

/// `s` without its trailing whitespace.
pub open spec fn trim_end_chars(s: Seq<char>) -> Seq<char>
    decreases s.len(),
{
    if s.len() > 0 && is_white_space(s.last()) {
        trim_end_chars(s.drop_last())
    } else {
        s
    }
}

/// `s` without its leading and trailing whitespace.
pub open spec fn trimmed(s: Seq<char>) -> Seq<char> {
    trim_end_chars(trim_start_chars(s))
}

/// `pat` occurs in `s` as a contiguous run, as `str::contains` decides.
pub open spec fn contains_chars(s: Seq<char>, pat: Seq<char>) -> bool {
    exists|i: int| 0 <= i && i + pat.len() <= s.len() && #[trigger] s.subrange(i, i + pat.len()) == pat
}

proof fn lemma_trim_start_shape(s: Seq<char>)
    ensures
        trim_start_chars(s).len() <= s.len(),
        trim_start_chars(s) == s.skip(s.len() - trim_start_chars(s).len()),
        trim_start_chars(s).len() > 0 ==> !is_white_space(trim_start_chars(s)[0]),
        forall|i: int| 0 <= i < s.len() - trim_start_chars(s).len() ==> is_white_space(#[trigger] s[i]),
    decreases s.len(),
{
    if s.len() > 0 && is_white_space(s[0]) {
        lemma_trim_start_shape(s.drop_first());
        let t = trim_start_chars(s.drop_first());
        assert(s.drop_first().skip(s.drop_first().len() - t.len()) =~= s.skip(s.len() - t.len()));
        assert forall|i: int| 0 <= i < s.len() - t.len() implies is_white_space(#[trigger] s[i]) by {
            if i > 0 {
                assert(s[i] == s.drop_first()[i - 1]);
            }
        }
    } else {
        assert(s.skip(0) =~= s);
    }
}

proof fn lemma_trim_end_shape(s: Seq<char>)
    ensures
        trim_end_chars(s).len() <= s.len(),
        trim_end_chars(s) == s.take(trim_end_chars(s).len() as int),
        trim_end_chars(s).len() > 0 ==> !is_white_space(trim_end_chars(s).last()),
        forall|i: int| trim_end_chars(s).len() <= i < s.len() ==> is_white_space(#[trigger] s[i]),
    decreases s.len(),
{
    if s.len() > 0 && is_white_space(s.last()) {
        lemma_trim_end_shape(s.drop_last());
        let t = trim_end_chars(s.drop_last());
        assert(s.drop_last().take(t.len() as int) =~= s.take(t.len() as int));
        assert forall|i: int| t.len() <= i < s.len() implies is_white_space(#[trigger] s[i]) by {
            if i < s.len() - 1 {
                assert(s[i] == s.drop_last()[i]);
            }
        }
    } else {
        assert(s.take(s.len() as int) =~= s);
    }
}

/// A trimmed text is either empty or starts and ends with a character
/// that is not whitespace.
pub proof fn lemma_trimmed_edges(s: Seq<char>)
    ensures
        trimmed(s).len() > 0 ==> !is_white_space(trimmed(s)[0]) && !is_white_space(trimmed(s).last()),
        trimmed(s).len() <= s.len(),
{
    let u = trim_start_chars(s);
    lemma_trim_start_shape(s);
    lemma_trim_end_shape(u);
    let t = trim_end_chars(u);
    if t.len() > 0 {
        assert(t[0] == u[0]);
    }
}

/// Trimming removes whitespace at the two ends and nothing else: the result
/// is a contiguous run `s[a..b]` of the input, every character before `a`
/// and from `b` on is whitespace, and a non-empty result starts and ends
/// with a character that is not whitespace.
pub proof fn law_trim_removes_only_edge_whitespace(s: Seq<char>)
    ensures
        exists|a: int, b: int|
            {
                &&& 0 <= a <= b <= s.len()
                &&& trimmed(s) == s.subrange(a, b)
                &&& forall|i: int| 0 <= i < a ==> is_white_space(#[trigger] s[i])
                &&& forall|i: int| b <= i < s.len() ==> is_white_space(#[trigger] s[i])
                &&& a < b ==> !is_white_space(s[a]) && !is_white_space(s[b - 1])
            },
{
    let u = trim_start_chars(s);
    lemma_trim_start_shape(s);
    lemma_trim_end_shape(u);
    let t = trim_end_chars(u);
    let a = s.len() - u.len();
    let b = a + t.len();
    assert(t =~= s.subrange(a, b));
    assert forall|i: int| b <= i < s.len() implies is_white_space(#[trigger] s[i]) by {
        assert(s[i] == u[i - a]);
    }
    if a < b {
        assert(s[a] == t[0]);
        assert(s[b - 1] == t.last());
        assert(s[a] == u[0]);
    }
}

/// Trimming twice is trimming once.
pub proof fn lemma_trimmed_idempotent(s: Seq<char>)
    ensures
        trimmed(trimmed(s)) == trimmed(s),
{
    let t = trimmed(s);
    lemma_trimmed_edges(s);
    assert(trim_start_chars(t) == t);
    assert(trim_end_chars(t) == t);
}

/// Calls `str::trim`, which returns the slice of `s` that remains once the
/// leading and trailing `White_Space` characters (`is_white_space`) are
/// removed. The contract claims exactly that.
#[verifier::external_body]
fn str_trim(s: &str) -> (r: &str)
    ensures
        r@ == trimmed(s@),
{
    s.trim()
}

/// Calls `String::push`, which appends one character at the end of the string.
#[verifier::external_body]
pub(crate) fn push_char(s: &mut String, c: char)
    ensures
        final(s)@ == old(s)@.push(c),
{
    s.push(c);
}

/// A trimmed owned copy of `s`.
pub fn trim_to_owned(s: &str) -> (r: String)
    ensures
        r@ == trimmed(s@),
{
    str_trim(s).to_owned()
}

/// The ASCII digit for `d`, where `0 <= d < 10`.
pub open spec fn digit_char(d: nat) -> char {
    (d + 48) as char
}

/// Decimal digits of `n`, most significant first, without leading zeros.
pub open spec fn decimal_nat(n: nat) -> Seq<char>
    decreases n,
{
    if n < 10 {
        seq![digit_char(n)]
    } else {
        decimal_nat(n / 10).push(digit_char(n % 10))
    }
}

/// The decimal form of `n`, as `i64`'s `Display` writes it.
pub open spec fn decimal(n: int) -> Seq<char> {
    if n < 0 {
        seq!['-'] + decimal_nat((-n) as nat)
    } else {
        decimal_nat(n as nat)
    }
}

/// The number that a run of ASCII digits denotes.
pub open spec fn digits_value(s: Seq<char>) -> int
    decreases s.len(),
{
    if s.len() == 0 {
        0
    } else {
        digits_value(s.drop_last()) * 10 + (s.last() as int - 48)
    }
}

/// Decimal rendering reads back: every character of `decimal_nat(n)` is a
/// digit, the digits denote `n`, and there is no leading zero.
pub proof fn law_decimal_reads_back(n: nat)
    ensures
        decimal_nat(n).len() >= 1,
        forall|i: int| 0 <= i < decimal_nat(n).len() ==> '0' <= #[trigger] decimal_nat(n)[i] <= '9',
        digits_value(decimal_nat(n)) == n,
        n > 0 ==> decimal_nat(n)[0] != '0',
    decreases n,
{
    if n >= 10 {
        law_decimal_reads_back(n / 10);
        let d = decimal_nat(n);
        let h = decimal_nat(n / 10);
        assert(d.drop_last() =~= h);
        assert forall|i: int| 0 <= i < d.len() implies '0' <= #[trigger] d[i] <= '9' by {
            if i < h.len() {
                assert(d[i] == h[i]);
            }
        }
        vstd::arithmetic::div_mod::lemma_fundamental_div_mod(n as int, 10);
        assert(d.last() as int == n % 10 + 48);
        assert(digits_value(d) == digits_value(h) * 10 + (d.last() as int - 48));
        assert(d[0] == h[0]);
    } else {
        let d = decimal_nat(n);
        assert(d.last() as int == n + 48);
        assert(d.drop_last() =~= Seq::<char>::empty());
        assert(digits_value(d) == digits_value(d.drop_last()) * 10 + (d.last() as int - 48));
    }
}

/// A negative number is written as `-` and the decimal digits of its
/// magnitude; any other number as its decimal digits alone.
pub proof fn law_decimal_sign(n: int)
    ensures
        n < 0 ==> decimal(n)[0] == '-' && decimal(n).drop_first() == decimal_nat((-n) as nat),
        n >= 0 ==> decimal(n) == decimal_nat(n as nat),
{
    if n < 0 {
        assert(decimal(n).drop_first() =~= decimal_nat((-n) as nat));
    }
}

fn push_decimal_u64(s: &mut String, m: u64)
    ensures
        final(s)@ == old(s)@ + decimal_nat(m as nat),
    decreases m,
{
    if m >= 10 {
        push_decimal_u64(s, m / 10);
    }
    let d: u8 = (m % 10) as u8;
    push_char(s, (d + 48u8) as char);
}

/// Renders `n` in decimal.
pub fn decimal_string(n: i64) -> (r: String)
    ensures
        r@ == decimal(n as int),
{
    let mut s = String::new();
    if n < 0 {
        push_char(&mut s, '-');
        let m: u64 = ((-(n + 1)) as u64) + 1;
        push_decimal_u64(&mut s, m);
    } else {
        push_decimal_u64(&mut s, n as u64);
    }
    s
}

} // verus!
