//! What may be written to the logs: masking of secret values and detection
//! of field names that look like they hold secrets.

use std::borrow::Cow;

use vstd::prelude::*;

use crate::text::{contains_chars, push_char};

verus! {

/// `s` masked for logging. Empty stays empty; up to four characters become
/// as many `*`; longer values keep their first two and last two characters
/// around `***`.
pub open spec fn redacted(s: Seq<char>) -> Seq<char> {
    if s.len() == 0 {
        Seq::empty()
    } else if s.len() <= 4 {
        Seq::new(s.len(), |i: int| '*')
    } else {
        s.take(2) + seq!['*', '*', '*'] + s.skip(s.len() - 2)
    }
}

/// Masks a value that may be secret, counting characters (not bytes).
/// Keeping both ends lets two log lines be compared ("same token?")
/// without revealing the value.
pub fn redact(raw: &str) -> (out: String)
    ensures
        out@ == redacted(raw@),
{
    let len = raw.unicode_len();
    if len == 0 {
        return String::new();
    }
    if len <= 4 {
        // Any kept character of so short a value could give it away.
        let mut masked = String::new();
        let mut i: usize = 0;
        while i < len
            invariant
                i <= len,
                masked@ =~= Seq::new(i as nat, |k: int| '*'),
            decreases len - i,
        {
            push_char(&mut masked, '*');
            i = i + 1;
        }
        return masked;
    }
    let head = raw.substring_char(0, 2);
    let tail = raw.substring_char(len - 2, len);
    let mut out = String::from_str(head);
    push_char(&mut out, '*');
    push_char(&mut out, '*');
    push_char(&mut out, '*');
    let out = out.concat(tail);
    proof {
        assert(out@ =~= redacted(raw@));
    }
    out
}

/// Redaction shows nothing but the length of a short value, and of a value
/// longer than four characters only its first two and last two characters:
/// two such values that agree on those are masked alike, whatever their
/// middles and their lengths.
pub proof fn law_redact_hides_the_middle(a: Seq<char>, b: Seq<char>)
    requires
        (a.len() <= 4 && a.len() == b.len()) || (a.len() > 4 && b.len() > 4 && a.take(2) == b.take(2)
            && a.skip(a.len() - 2) == b.skip(b.len() - 2)),
    ensures
        redacted(a) == redacted(b),
{
    if a.len() <= 4 && a.len() > 0 {
        assert(redacted(a) =~= redacted(b));
    }
}

/// What redaction keeps, character by character: nothing of an empty value;
/// for one of one to four characters, as many `*`; for a longer one, its
/// own first two characters, then `***`, then its own last two characters.
pub proof fn law_redact_keeps_only_the_edges(s: Seq<char>)
    ensures
        s.len() == 0 ==> redacted(s).len() == 0,
        1 <= s.len() <= 4 ==> redacted(s).len() == s.len() && forall|i: int|
            0 <= i < s.len() ==> #[trigger] redacted(s)[i] == '*',
        s.len() > 4 ==> {
            &&& redacted(s).len() == 7
            &&& redacted(s)[0] == s[0]
            &&& redacted(s)[1] == s[1]
            &&& redacted(s)[2] == '*'
            &&& redacted(s)[3] == '*'
            &&& redacted(s)[4] == '*'
            &&& redacted(s)[5] == s[s.len() - 2]
            &&& redacted(s)[6] == s[s.len() - 1]
        },
{
}

/// A redacted value of more than four characters is always seven
/// characters long; a shorter one keeps its length.
pub proof fn law_redact_length(s: Seq<char>)
    ensures
        s.len() > 4 ==> redacted(s).len() == 7,
        s.len() <= 4 ==> redacted(s).len() == s.len(),
{
}

/// `c` with an ASCII upper-case letter mapped to lower case.
pub open spec fn ascii_lower(c: char) -> char {
    if 'A' <= c && c <= 'Z' {
        ((c as int) + 32) as char
    } else {
        c
    }
}

/// `s` with every ASCII upper-case letter mapped to lower case, as
/// `str::to_ascii_lowercase` does.
pub open spec fn ascii_lowercase(s: Seq<char>) -> Seq<char> {
    s.map_values(|c: char| ascii_lower(c))
}

/// Words that mark a field name as sensitive.
pub open spec fn sensitive_key_hints() -> Seq<Seq<char>> {
    seq!["password"@, "passwd"@, "token"@, "secret"@, "authorization"@, "apikey"@]
}

/// A field name is sensitive when, ignoring ASCII case, it contains one of
/// the hint words.
pub open spec fn is_sensitive(key: Seq<char>) -> bool {
    exists|j: int|
        0 <= j < sensitive_key_hints().len() && contains_chars(
            ascii_lowercase(key),
            #[trigger] sensitive_key_hints()[j],
        )
}

/// Sensitivity ignores ASCII case: two names that are equal once lowered
/// (such as `PASSWORD` and `password`) are judged alike.
pub proof fn law_sensitivity_ignores_ascii_case(a: Seq<char>, b: Seq<char>)
    requires
        ascii_lowercase(a) == ascii_lowercase(b),
    ensures
        is_sensitive(a) == is_sensitive(b),
{
}

/// ASCII lower-casing maps each letter `A` to `Z` to its lower-case letter
/// (the code point plus 32) and leaves every other character as it is,
/// keeping the length.
pub proof fn law_ascii_lowercase_maps_letters(s: Seq<char>)
    ensures
        ascii_lowercase(s).len() == s.len(),
        forall|i: int|
            0 <= i < s.len() ==> #[trigger] ascii_lowercase(s)[i] == (if 'A' <= s[i] && s[i] <= 'Z' {
                ((s[i] as int) + 32) as char
            } else {
                s[i]
            }),
{
}

/// A field name is sensitive exactly when its ASCII lower-case form
/// contains `password`, `passwd`, `token`, `secret`, `authorization` or
/// `apikey`.
pub proof fn law_sensitive_iff_contains_a_hint(key: Seq<char>)
    ensures
        is_sensitive(key) == (contains_chars(ascii_lowercase(key), "password"@) || contains_chars(
            ascii_lowercase(key),
            "passwd"@,
        ) || contains_chars(ascii_lowercase(key), "token"@) || contains_chars(
            ascii_lowercase(key),
            "secret"@,
        ) || contains_chars(ascii_lowercase(key), "authorization"@) || contains_chars(
            ascii_lowercase(key),
            "apikey"@,
        )),
{
    let l = ascii_lowercase(key);
    let h = sensitive_key_hints();
    assert(h[0] == "password"@);
    assert(h[1] == "passwd"@);
    assert(h[2] == "token"@);
    assert(h[3] == "secret"@);
    assert(h[4] == "authorization"@);
    assert(h[5] == "apikey"@);
}

/// A field name equal to a hint word in any mix of ASCII case (such as
/// `AUTHORIZATION` or `ApiKey`) is sensitive.
pub proof fn law_hint_in_any_case_is_sensitive(key: Seq<char>)
    requires
        ascii_lowercase(key) == "password"@ || ascii_lowercase(key) == "passwd"@ || ascii_lowercase(key)
            == "token"@ || ascii_lowercase(key) == "secret"@ || ascii_lowercase(key)
            == "authorization"@ || ascii_lowercase(key) == "apikey"@,
    ensures
        is_sensitive(key),
{
    let l = ascii_lowercase(key);
    law_sensitive_iff_contains_a_hint(key);
    assert(l.subrange(0, 0 + l.len() as int) =~= l);
    assert(contains_chars(l, l));
}

/// Lowering ASCII case twice is lowering it once, so a name and its lower
/// case form are judged alike.
pub proof fn law_lowercase_idempotent(s: Seq<char>)
    ensures
        ascii_lowercase(ascii_lowercase(s)) == ascii_lowercase(s),
        is_sensitive(ascii_lowercase(s)) == is_sensitive(s),
{
    assert(ascii_lowercase(ascii_lowercase(s)) =~= ascii_lowercase(s));
}

fn chars_of(s: &str) -> (v: Vec<char>)
    ensures
        v@ == s@,
{
    let n = s.unicode_len();
    let mut v: Vec<char> = Vec::new();
    let mut i: usize = 0;
    while i < n
        invariant
            n == s@.len(),
            i <= n,
            v@ =~= s@.take(i as int),
        decreases n - i,
    {
        v.push(s.get_char(i));
        i = i + 1;
    }
    proof {
        assert(s@.take(n as int) =~= s@);
    }
    v
}

fn lowercase_chars(s: &str) -> (v: Vec<char>)
    ensures
        v@ == ascii_lowercase(s@),
{
    let chars = chars_of(s);
    let mut v: Vec<char> = Vec::new();
    let mut i: usize = 0;
    while i < chars.len()
        invariant
            chars@ == s@,
            i <= chars.len(),
            v@ =~= ascii_lowercase(s@).take(i as int),
        decreases chars.len() - i,
    {
        let c = chars[i];
        let lower = if 'A' <= c && c <= 'Z' {
            ((c as u8) + 32u8) as char
        } else {
            c
        };
        v.push(lower);
        i = i + 1;
    }
    proof {
        assert(ascii_lowercase(s@).take(chars.len() as int) =~= ascii_lowercase(s@));
    }
    v
}

fn contains_run(hay: &Vec<char>, pat: &Vec<char>) -> (r: bool)
    ensures
        r == contains_chars(hay@, pat@),
{
    if pat.len() > hay.len() {
        return false;
    }
    let last = hay.len() - pat.len();
    let mut i: usize = 0;
    while i <= last
        invariant
            last == hay.len() - pat.len(),
            pat.len() <= hay.len(),
            i <= last + 1,
            forall|k: int| 0 <= k < i ==> #[trigger] hay@.subrange(k, k + pat.len()) != pat@,
        decreases last + 1 - i,
    {
        let mut j: usize = 0;
        let mut same = true;
        while j < pat.len()
            invariant
                i <= last,
                last == hay.len() - pat.len(),
                j <= pat.len(),
                same == (forall|t: int| 0 <= t < j ==> hay@[i + t] == pat@[t]),
            decreases pat.len() - j,
        {
            if hay[i + j] != pat[j] {
                same = false;
            }
            j = j + 1;
        }
        if same {
            assert(hay@.subrange(i as int, i + pat.len()) =~= pat@);
            return true;
        }
        assert(hay@.subrange(i as int, i + pat.len()) != pat@) by {
            let t = choose|t: int| 0 <= t < pat.len() && hay@[i + t] != pat@[t];
            assert(hay@.subrange(i as int, i + pat.len())[t] == hay@[i + t]);
        }
        i = i + 1;
    }
    false
}

/// Whether a field name looks like it holds a secret: ignoring ASCII case,
/// it contains `password`, `passwd`, `token`, `secret`, `authorization` or
/// `apikey`.
pub fn is_sensitive_key(key: &str) -> (r: bool)
    ensures
        r == is_sensitive(key@),
{
    let lower = lowercase_chars(key);
    let hints: [&'static str; 6] = ["password", "passwd", "token", "secret", "authorization", "apikey"];
    let mut j: usize = 0;
    while j < 6
        invariant
            lower@ == ascii_lowercase(key@),
            hints@.map_values(|h: &'static str| h@) == sensitive_key_hints(),
            j <= 6,
            forall|k: int| 0 <= k < j ==> !contains_chars(lower@, #[trigger] sensitive_key_hints()[k]),
        decreases 6 - j,
    {
        let hint = chars_of(hints[j]);
        assert(hint@ == sensitive_key_hints()[j as int]);
        if contains_run(&lower, &hint) {
            return true;
        }
        j = j + 1;
    }
    false
}

/// A value ready for a log line: masked when the field name is sensitive,
/// otherwise the value itself, borrowed without a copy.
pub fn field<'a>(key: &str, value: &'a str) -> (out: Cow<'a, str>)
    ensures
        is_sensitive(key@) ==> (out matches Cow::Owned(masked) && masked@ == redacted(value@)),
        !is_sensitive(key@) ==> (out matches Cow::Borrowed(v) && v == value),
{
    if is_sensitive_key(key) {
        Cow::Owned(redact(value))
    } else {
        Cow::Borrowed(value)
    }
}

} // verus!
