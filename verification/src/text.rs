//! Characters and strings: the character classes that origin URLs are read
//! with, scanning helpers, decimal formatting and trimming.

use vstd::prelude::*;

verus! {

/// Whether `c` is white space as Unicode defines it (`White_Space`).
pub open spec fn is_space(c: char) -> bool {
    let u = c as u32;
    ||| 0x09 <= u <= 0x0D
    ||| u == 0x20
    ||| u == 0x85
    ||| u == 0xA0
    ||| u == 0x1680
    ||| 0x2000 <= u <= 0x200A
    ||| u == 0x2028
    ||| u == 0x2029
    ||| u == 0x202F
    ||| u == 0x205F
    ||| u == 0x3000
}

/// Whether `c` ends a host name: a colon or a slash.
pub open spec fn is_sep(c: char) -> bool {
    c == ':' || c == '/'
}

/// Whether `c` is an ASCII letter, an ASCII digit or an underscore.
pub open spec fn is_ascii_word(c: char) -> bool {
    ||| 'a' <= c <= 'z'
    ||| 'A' <= c <= 'Z'
    ||| '0' <= c <= '9'
    ||| c == '_'
}

/// What `regex::Regex::is_match` answers for a pattern and a haystack:
/// `None` where the pattern does not compile.
pub uninterp spec fn regex_is_match(pattern: Seq<char>, haystack: Seq<char>) -> Option<bool>;

/// The pattern that a single Unicode word character matches.
pub open spec fn word_pattern() -> Seq<char> {
    "^\\w$"@
}

/// Whether `c` is a word character: for ASCII a letter, a digit or an
/// underscore, beyond ASCII whatever the `regex` crate classes as `\w`.
pub open spec fn is_word(c: char) -> bool {
    if (c as u32) < 0x80 {
        is_ascii_word(c)
    } else {
        regex_is_match(word_pattern(), seq![c]) == Some(true)
    }
}

/// Calls `regex::Regex::new` on `pattern` and `Regex::is_match` on the
/// one-character string that holds `c`. The contract only names the answer:
/// it is the crate's answer for this pattern and this haystack, and `None`
/// where the crate rejects the pattern.
#[verifier::external_body]
fn regex_matches_char(pattern: &str, c: char) -> (r: Option<bool>)
    ensures
        r == regex_is_match(pattern@, seq![c]),
{
    let mut buf = [0u8; 4];
    match regex::Regex::new(pattern) {
        Ok(re) => Some(re.is_match(c.encode_utf8(&mut buf))),
        Err(_) => None,
    }
}

/// Whether `c` is white space.
pub fn is_space_char(c: char) -> (b: bool)
    ensures
        b == is_space(c),
{
    let u: u32 = c as u32;
    (0x09 <= u && u <= 0x0D) || u == 0x20 || u == 0x85 || u == 0xA0 || u == 0x1680 || (0x2000 <= u
        && u <= 0x200A) || u == 0x2028 || u == 0x2029 || u == 0x202F || u == 0x205F || u == 0x3000
}

/// Whether `c` is a colon or a slash.
pub fn is_sep_char(c: char) -> (b: bool)
    ensures
        b == is_sep(c),
{
    c == ':' || c == '/'
}

/// Whether `c` is a word character, given what the pattern for word
/// characters answered for it. The answer counts beyond ASCII only, and no
/// answer counts as a refusal.
pub fn word_char_from(c: char, answer: Option<bool>) -> (b: bool)
    ensures
        b == if (c as u32) < 0x80 {
            is_ascii_word(c)
        } else {
            answer == Some(true)
        },
{
    let u: u32 = c as u32;
    if u < 0x80 {
        ('a' <= c && c <= 'z') || ('A' <= c && c <= 'Z') || ('0' <= c && c <= '9') || c == '_'
    } else {
        match answer {
            Some(b) => b,
            None => false,
        }
    }
}

/// Whether `c` is a word character.
pub fn is_word_char(c: char) -> (b: bool)
    ensures
        b == is_word(c),
{
    let u: u32 = c as u32;
    let answer: Option<bool> = if u < 0x80 {
        None
    } else {
        regex_matches_char("^\\w$", c)
    };
    word_char_from(c, answer)
}

/// The characters of `s`, in order.
pub(crate) fn chars_of(s: &str) -> (v: Vec<char>)
    ensures
        v@ == s@,
{
    let mut v: Vec<char> = Vec::new();
    for c in it: s.chars()
        invariant
            v@ == it.seq().take(it.index() as int),
    {
        v.push(c);
    }
    v
}

/// Whether no character of `s` from `from` up to, not including, `to` is
/// white space.
pub open spec fn no_space(s: Seq<char>, from: int, to: int) -> bool {
    forall|j: int| from <= j < to ==> !is_space(#[trigger] s[j])
}

/// Whether `c` may stand in a scheme, a namespace or a name: it is no white
/// space, no colon, no slash and no `@`.
pub open spec fn is_plain(c: char) -> bool {
    !is_space(c) && !is_sep(c) && c != '@'
}

/// Whether every character of `s` from `from` up to, not including, `to` is
/// plain.
pub open spec fn all_plain(s: Seq<char>, from: int, to: int) -> bool {
    forall|j: int| from <= j < to ==> is_plain(#[trigger] s[j])
}

/// Whether every character of `s` from `from` up to, not including, `to` is a
/// word character.
pub open spec fn all_word(s: Seq<char>, from: int, to: int) -> bool {
    forall|j: int| from <= j < to ==> is_word(#[trigger] s[j])
}

/// The last index below `end` at which `s` holds `c`, or -1 where there is
/// none.
pub open spec fn last_index(s: Seq<char>, c: char, end: int) -> int
    decreases end,
{
    if end <= 0 {
        -1
    } else if s[end - 1] == c {
        end - 1
    } else {
        last_index(s, c, end - 1)
    }
}

/// The first index from `from` on at which `s` holds `c`, or the length of
/// `s` where there is none.
pub open spec fn first_index(s: Seq<char>, c: char, from: int) -> int
    decreases s.len() - from,
{
    if from >= s.len() {
        s.len() as int
    } else if 0 <= from && s[from] == c {
        from
    } else {
        first_index(s, c, from + 1)
    }
}

/// `first_index` stops at an occurrence or at the end, and passes none.
pub proof fn lemma_first_index(s: Seq<char>, c: char, from: int)
    requires
        0 <= from <= s.len(),
    ensures
        from <= first_index(s, c, from) <= s.len(),
        first_index(s, c, from) < s.len() ==> s[first_index(s, c, from)] == c,
        forall|j: int| from <= j < first_index(s, c, from) ==> #[trigger] s[j] != c,
    decreases s.len() - from,
{
    if from < s.len() && s[from] != c {
        lemma_first_index(s, c, from + 1);
    }
}

/// An occurrence with none before it from `from` on, or the end where there
/// is none at all, is where `first_index` stops.
pub proof fn lemma_first_index_is(s: Seq<char>, c: char, from: int, i: int)
    requires
        0 <= from <= i <= s.len(),
        i < s.len() ==> s[i] == c,
        forall|j: int| from <= j < i ==> #[trigger] s[j] != c,
    ensures
        first_index(s, c, from) == i,
    decreases i - from,
{
    if from < i {
        lemma_first_index_is(s, c, from + 1, i);
    }
}

/// Where `c` does not occur below `end`, `last_index` is -1.
pub proof fn lemma_last_index_none(s: Seq<char>, c: char, end: int)
    requires
        forall|j: int| 0 <= j < end ==> #[trigger] s[j] != c,
    ensures
        last_index(s, c, end) == -1,
    decreases end,
{
    if end > 0 {
        lemma_last_index_none(s, c, end - 1);
    }
}

/// `last_index` finds an occurrence, and none lies between it and `end`.
pub proof fn lemma_last_index(s: Seq<char>, c: char, end: int)
    ensures
        -1 <= last_index(s, c, end),
        end > 0 ==> last_index(s, c, end) < end,
        last_index(s, c, end) >= 0 ==> s[last_index(s, c, end)] == c,
        forall|j: int| last_index(s, c, end) < j < end && 0 <= j ==> #[trigger] s[j] != c,
    decreases end,
{
    if end > 0 && s[end - 1] != c {
        lemma_last_index(s, c, end - 1);
    }
}

/// An occurrence with none after it is the one that `last_index` finds.
pub proof fn lemma_last_index_is(s: Seq<char>, c: char, end: int, i: int)
    requires
        0 <= i < end,
        s[i] == c,
        forall|j: int| i < j < end ==> #[trigger] s[j] != c,
    ensures
        last_index(s, c, end) == i,
    decreases end,
{
    if end - 1 > i {
        lemma_last_index_is(s, c, end - 1, i);
    }
}

/// The last index below `end` at which `v` holds `c`.
pub(crate) fn find_last(v: &Vec<char>, c: char, end: usize) -> (r: Option<usize>)
    requires
        end <= v.len(),
    ensures
        match r {
            Some(i) => i < end && i as int == last_index(v@, c, end as int),
            None => last_index(v@, c, end as int) == -1,
        },
{
    let mut k: usize = end;
    while k > 0
        invariant
            k <= end <= v.len(),
            last_index(v@, c, end as int) == last_index(v@, c, k as int),
        decreases k,
    {
        if v[k - 1] == c {
            return Some(k - 1);
        }
        k = k - 1;
    }
    None
}

/// The first index from `from` on at which `v` holds `c`, or the length of
/// `v`.
pub(crate) fn find_first(v: &Vec<char>, c: char, from: usize) -> (r: usize)
    requires
        from <= v.len(),
    ensures
        r as int == first_index(v@, c, from as int),
        from <= r <= v.len(),
{
    let mut k: usize = from;
    while k < v.len()
        invariant
            from <= k <= v.len(),
            first_index(v@, c, from as int) == first_index(v@, c, k as int),
        decreases v.len() - k,
    {
        if v[k] == c {
            return k;
        }
        k = k + 1;
    }
    k
}

/// Whether `v` holds plain characters only from `from` up to `to`.
pub(crate) fn is_all_plain(v: &Vec<char>, from: usize, to: usize) -> (b: bool)
    requires
        from <= to <= v.len(),
    ensures
        b == all_plain(v@, from as int, to as int),
{
    let mut k: usize = from;
    while k < to
        invariant
            from <= k <= to <= v.len(),
            all_plain(v@, from as int, k as int),
        decreases to - k,
    {
        let c: char = v[k];
        if is_space_char(c) || is_sep_char(c) || c == '@' {
            return false;
        }
        k = k + 1;
    }
    true
}

/// Whether `v` holds no white space from `from` up to `to`.
pub(crate) fn has_no_space(v: &Vec<char>, from: usize, to: usize) -> (b: bool)
    requires
        from <= to <= v.len(),
    ensures
        b == no_space(v@, from as int, to as int),
{
    let mut k: usize = from;
    while k < to
        invariant
            from <= k <= to <= v.len(),
            no_space(v@, from as int, k as int),
        decreases to - k,
    {
        if is_space_char(v[k]) {
            return false;
        }
        k = k + 1;
    }
    true
}

/// Whether `v` holds word characters only from `from` up to `to`.
pub(crate) fn is_all_word(v: &Vec<char>, from: usize, to: usize) -> (b: bool)
    requires
        from <= to <= v.len(),
    ensures
        b == all_word(v@, from as int, to as int),
{
    let mut k: usize = from;
    while k < to
        invariant
            from <= k <= to <= v.len(),
            all_word(v@, from as int, k as int),
        decreases to - k,
    {
        if !is_word_char(v[k]) {
            return false;
        }
        k = k + 1;
    }
    true
}

/// The views of an optional string.
pub open spec fn view_of(o: Option<String>) -> Option<Seq<char>> {
    match o {
        Some(s) => Some(s@),
        None => None,
    }
}

/// The part of `s` from `from` up to, not including, `to`, as a string of
/// its own.
pub(crate) fn slice_string(s: &str, from: usize, to: usize) -> (r: String)
    requires
        from <= to <= s@.len(),
    ensures
        r@ == s@.subrange(from as int, to as int),
{
    String::from_str(s.substring_char(from, to))
}

/// The decimal digit that stands for `d`, which lies below ten.
pub open spec fn digit(d: int) -> char {
    if d == 0 {
        '0'
    } else if d == 1 {
        '1'
    } else if d == 2 {
        '2'
    } else if d == 3 {
        '3'
    } else if d == 4 {
        '4'
    } else if d == 5 {
        '5'
    } else if d == 6 {
        '6'
    } else if d == 7 {
        '7'
    } else if d == 8 {
        '8'
    } else {
        '9'
    }
}

/// The decimal digits of `n`, the most significant first, with no leading
/// zero but for zero itself.
pub open spec fn digits(n: nat) -> Seq<char>
    decreases n,
{
    if n < 10 {
        seq![digit(n as int)]
    } else {
        digits(n / 10).push(digit((n % 10) as int))
    }
}

/// `n` in decimal, with a minus sign before it where it is negative.
pub open spec fn decimal(n: int) -> Seq<char> {
    if n < 0 {
        seq!['-'] + digits((-n) as nat)
    } else {
        digits(n as nat)
    }
}

/// A number has at least one digit.
pub proof fn lemma_digits_nonempty(n: nat)
    ensures
        digits(n).len() > 0,
    decreases n,
{
    if n >= 10 {
        lemma_digits_nonempty(n / 10);
    }
}

/// The decimal form of a number is never empty.
pub proof fn lemma_decimal_nonempty(n: int)
    ensures
        decimal(n).len() > 0,
{
    if n < 0 {
        lemma_digits_nonempty((-n) as nat);
    } else {
        lemma_digits_nonempty(n as nat);
    }
}

fn digit_str(d: u64) -> (s: &'static str)
    requires
        d < 10,
    ensures
        s@ == seq![digit(d as int)],
{
    proof {
        reveal_strlit("0");
        reveal_strlit("1");
        reveal_strlit("2");
        reveal_strlit("3");
        reveal_strlit("4");
        reveal_strlit("5");
        reveal_strlit("6");
        reveal_strlit("7");
        reveal_strlit("8");
        reveal_strlit("9");
    }
    let s: &'static str = if d == 0 {
        "0"
    } else if d == 1 {
        "1"
    } else if d == 2 {
        "2"
    } else if d == 3 {
        "3"
    } else if d == 4 {
        "4"
    } else if d == 5 {
        "5"
    } else if d == 6 {
        "6"
    } else if d == 7 {
        "7"
    } else if d == 8 {
        "8"
    } else {
        "9"
    };
    assert(s@ =~= seq![digit(d as int)]);
    s
}

/// `n` written in decimal.
pub fn decimal_string(n: i64) -> (s: String)
    ensures
        s@ == decimal(n as int),
{
    let total: u64 = if n < 0 {
        (-(n as i128)) as u64
    } else {
        n as u64
    };
    let mut out: String = String::from_str(digit_str(total % 10));
    let mut m: u64 = total / 10;
    while m > 0
        invariant
            if m > 0 {
                digits(total as nat) == digits(m as nat) + out@
            } else {
                digits(total as nat) == out@
            },
        decreases m,
    {
        let mut longer: String = String::from_str(digit_str(m % 10));
        longer.append(out.as_str());
        proof {
            let d = seq![digit((m % 10) as int)];
            if m >= 10 {
                assert(digits(m as nat) == digits((m / 10) as nat).push(digit((m % 10) as int)));
                assert(digits((m / 10) as nat).push(digit((m % 10) as int)) + out@ =~= digits(
                    (m / 10) as nat,
                ) + (d + out@));
            } else {
                assert(digits(m as nat) =~= d);
            }
        }
        out = longer;
        m = m / 10;
    }
    if n < 0 {
        proof {
            reveal_strlit("-");
            assert("-"@ =~= seq!['-']);
        }
        let mut signed: String = String::from_str("-");
        signed.append(out.as_str());
        signed
    } else {
        out
    }
}

/// The first index from `k` on at which `s` holds no white space, or the
/// length of `s` where there is none.
pub open spec fn skip_space(s: Seq<char>, k: int) -> int
    decreases s.len() - k,
{
    if k >= s.len() {
        s.len() as int
    } else if !is_space(s[k]) {
        k
    } else {
        skip_space(s, k + 1)
    }
}

/// The least index not below `from` such that `s` holds only white space
/// from it up to `k`.
pub open spec fn drop_space(s: Seq<char>, from: int, k: int) -> int
    decreases k - from,
{
    if k <= from {
        from
    } else if !is_space(s[k - 1]) {
        k
    } else {
        drop_space(s, from, k - 1)
    }
}

/// `s` without the white space at its start and at its end.
pub open spec fn trimmed(s: Seq<char>) -> Seq<char> {
    let a = skip_space(s, 0);
    s.subrange(a, drop_space(s, a, s.len() as int))
}

/// `s` without the white space at its start and at its end.
pub fn trim(s: &str) -> (r: String)
    ensures
        r@ == trimmed(s@),
{
    let v = chars_of(s);
    let n: usize = v.len();
    let mut a: usize = 0;
    while a < n && is_space_char(v[a])
        invariant
            a <= n,
            n == v.len(),
            skip_space(v@, 0) == skip_space(v@, a as int),
        decreases n - a,
    {
        a = a + 1;
    }
    let mut b: usize = n;
    while b > a && is_space_char(v[b - 1])
        invariant
            a <= b <= n,
            n == v.len(),
            drop_space(v@, a as int, n as int) == drop_space(v@, a as int, b as int),
        decreases b - a,
    {
        b = b - 1;
    }
    slice_string(s, a, b)
}

/// `a` followed by `b`.
pub(crate) fn concat(a: &str, b: &str) -> (r: String)
    ensures
        r@ == a@ + b@,
{
    let mut r: String = String::from_str(a);
    r.append(b);
    r
}

} // verus!
