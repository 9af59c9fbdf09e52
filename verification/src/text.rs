//! Building message text: prefixes, decimal numbers, and the text of I/O
//! errors.

use vstd::prelude::*;

verus! {

broadcast use vstd::string::to_string_from_display_ensures_for_str;

/// A decimal digit.
pub open spec fn digit_char(d: int) -> char {
    ('0' as int + d) as char
}

/// The decimal form of a number, without leading zeros ("0" for zero).
pub open spec fn decimal(n: nat) -> Seq<char>
    decreases n,
{
    if n < 10 {
        seq![digit_char(n as int)]
    } else {
        decimal(n / 10) + seq![digit_char((n % 10) as int)]
    }
}

/// One decimal digit.
fn digit_str(d: u64) -> (r: &'static str)
    requires
        d < 10,
    ensures
        r@ == seq![digit_char(d as int)],
{
    proof {
        reveal_strlit("0");
        reveal_strlit("1");
        reveal_strlit("2");
        reveal_strlit("3");
        reveal_strlit("4");
        reveal_strlit("5");
        reveal_strlit("6");
        reveal_strlit("7");
        reveal_strlit("8");
        reveal_strlit("9");
    }
    match d {
        0 => "0",
        1 => "1",
        2 => "2",
        3 => "3",
        4 => "4",
        5 => "5",
        6 => "6",
        7 => "7",
        8 => "8",
        _ => "9",
    }
}

/// The decimal form of a number.
pub fn decimal_string(n: u64) -> (r: String)
    ensures
        r@ == decimal(n as nat),
    decreases n,
{
    if n < 10 {
        digit_str(n).to_string()
    } else {
        let mut r = decimal_string(n / 10);
        r.append(digit_str(n % 10));
        r
    }
}

/// `prefix` followed by `m`.
pub fn prefixed(prefix: &str, m: &String) -> (r: String)
    ensures
        r@ == prefix@ + m@,
{
    let mut r = prefix.to_string();
    r.append(m.as_str());
    r
}

/// `Display` of `std::io::Error`: its text, which comes from the operating
/// system. Nothing is promised of it.
#[verifier::external_body]
pub(crate) fn io_error_text(e: &std::io::Error) -> String {
    format!("{}", e)
}

/// Whether a character has Unicode's White_Space property (the test that
/// `char::is_whitespace` makes): tab, line feed, vertical tab, form feed,
/// carriage return, space, next line, no-break space, ogham space mark,
/// the spaces U+2000 to U+200A, line and paragraph separators, narrow
/// no-break space, medium mathematical space and ideographic space.
pub open spec fn unicode_white_space(c: char) -> bool {
    let v = c as u32;
    ||| 0x09 <= v <= 0x0D
    ||| v == 0x20
    ||| v == 0x85
    ||| v == 0xA0
    ||| v == 0x1680
    ||| 0x2000 <= v <= 0x200A
    ||| v == 0x2028
    ||| v == 0x2029
    ||| v == 0x202F
    ||| v == 0x205F
    ||| v == 0x3000
}

/// Whether a character is white space, in Unicode's sense.
pub(crate) fn is_whitespace(c: char) -> (r: bool)
    ensures
        r == unicode_white_space(c),
{
    let v = c as u32;
    (0x09 <= v && v <= 0x0D) || v == 0x20 || v == 0x85 || v == 0xA0 || v == 0x1680 || (0x2000 <= v && v
        <= 0x200A) || v == 0x2028 || v == 0x2029 || v == 0x202F || v == 0x205F || v == 0x3000
}

/// `s` without its leading white space.
pub open spec fn trim_start(s: Seq<char>) -> Seq<char>
    decreases s.len(),
{
    if s.len() > 0 && unicode_white_space(s[0]) {
        trim_start(s.drop_first())
    } else {
        s
    }
}

/// `s` without its trailing white space.
pub open spec fn trim_end(s: Seq<char>) -> Seq<char>
    decreases s.len(),
{
    if s.len() > 0 && unicode_white_space(s.last()) {
        trim_end(s.drop_last())
    } else {
        s
    }
}

/// `s` without its leading and trailing white space.
pub open spec fn trimmed(s: Seq<char>) -> Seq<char> {
    trim_end(trim_start(s))
}

/// The characters of `s` before its first white space.
pub open spec fn leading_word(s: Seq<char>) -> Seq<char>
    decreases s.len(),
{
    if s.len() > 0 && !unicode_white_space(s[0]) {
        seq![s[0]] + leading_word(s.drop_first())
    } else {
        Seq::empty()
    }
}

/// Whether `s` begins with `p`.
pub open spec fn has_prefix(s: Seq<char>, p: Seq<char>) -> bool {
    p.len() <= s.len() && s.subrange(0, p.len() as int) == p
}

/// What `trim_start` gives begins with no white space.
proof fn lemma_trim_start_head(s: Seq<char>)
    ensures
        trim_start(s).len() == 0 || !unicode_white_space(trim_start(s)[0]),
        trim_start(trim_start(s)) == trim_start(s),
    decreases s.len(),
{
    if s.len() > 0 && unicode_white_space(s[0]) {
        lemma_trim_start_head(s.drop_first());
    }
}

/// What `trim_end` gives ends with no white space.
proof fn lemma_trim_end_tail(s: Seq<char>)
    ensures
        trim_end(s).len() == 0 || !unicode_white_space(trim_end(s).last()),
        trim_end(trim_end(s)) == trim_end(s),
    decreases s.len(),
{
    if s.len() > 0 && unicode_white_space(s.last()) {
        lemma_trim_end_tail(s.drop_last());
    }
}

/// `trim_end` keeps a first character that is not white space.
proof fn lemma_trim_end_head(s: Seq<char>)
    requires
        s.len() == 0 || !unicode_white_space(s[0]),
    ensures
        trim_end(s).len() == 0 || !unicode_white_space(trim_end(s)[0]),
    decreases s.len(),
{
    if s.len() > 0 && unicode_white_space(s.last()) {
        let t = s.drop_last();
        if t.len() > 0 {
            assert(t[0] == s[0]);
        }
        lemma_trim_end_head(t);
    }
}

/// Trimming twice trims no more than trimming once.
pub proof fn lemma_trimmed_idempotent(s: Seq<char>)
    ensures
        trimmed(trimmed(s)) == trimmed(s),
{
    let t = trim_start(s);
    lemma_trim_start_head(s);
    lemma_trim_end_head(t);
    let u = trim_end(t);
    assert(trim_start(u) == u);
    lemma_trim_end_tail(t);
}

/// Leading white space is all that `trim_start` drops.
proof fn lemma_trim_start_skip(s: Seq<char>, k: int)
    requires
        0 <= k <= s.len(),
        forall|j: int| 0 <= j < k ==> unicode_white_space(#[trigger] s[j]),
        k == s.len() || !unicode_white_space(s[k]),
    ensures
        trim_start(s) == s.skip(k),
    decreases k,
{
    if k == 0 {
        assert(s.skip(0) =~= s);
    } else {
        let t = s.drop_first();
        assert forall|j: int| 0 <= j < k - 1 implies unicode_white_space(#[trigger] t[j]) by {
            assert(t[j] == s[j + 1]);
        }
        if k - 1 < t.len() {
            assert(t[k - 1] == s[k]);
        }
        lemma_trim_start_skip(t, k - 1);
        assert(t.skip(k - 1) =~= s.skip(k));
    }
}

/// Trailing white space is all that `trim_end` drops.
proof fn lemma_trim_end_take(s: Seq<char>, k: int)
    requires
        0 <= k <= s.len(),
        forall|j: int| k <= j < s.len() ==> unicode_white_space(#[trigger] s[j]),
        k == 0 || !unicode_white_space(s[k - 1]),
    ensures
        trim_end(s) == s.take(k),
    decreases s.len() - k,
{
    if k == s.len() {
        assert(s.take(k) =~= s);
        if s.len() > 0 {
            assert(s.last() == s[k - 1]);
        }
    } else {
        let t = s.drop_last();
        assert(unicode_white_space(s[s.len() - 1]));
        assert forall|j: int| k <= j < t.len() implies unicode_white_space(#[trigger] t[j]) by {
            assert(t[j] == s[j]);
        }
        if k > 0 {
            assert(t[k - 1] == s[k - 1]);
        }
        lemma_trim_end_take(t, k);
        assert(t.take(k) =~= s.take(k));
    }
}

/// The leading word ends at the first white space.
proof fn lemma_leading_word(s: Seq<char>, k: int)
    requires
        0 <= k <= s.len(),
        forall|j: int| 0 <= j < k ==> !unicode_white_space(#[trigger] s[j]),
        k == s.len() || unicode_white_space(s[k]),
    ensures
        leading_word(s) == s.take(k),
    decreases k,
{
    if k == 0 {
        assert(s.take(0) =~= Seq::<char>::empty());
    } else {
        let t = s.drop_first();
        assert forall|j: int| 0 <= j < k - 1 implies !unicode_white_space(#[trigger] t[j]) by {
            assert(t[j] == s[j + 1]);
        }
        if k - 1 < t.len() {
            assert(t[k - 1] == s[k]);
        }
        assert(!unicode_white_space(s[0]));
        lemma_leading_word(t, k - 1);
        assert(seq![s[0]] + t.take(k - 1) =~= s.take(k));
    }
}

/// The index of the first character of `s` at or after `from` that is not
/// white space (the length of `s` if there is none).
fn skip_white(s: &str, from: usize, n: usize) -> (r: usize)
    requires
        n == s@.len(),
        from <= n,
    ensures
        from <= r <= n,
        forall|j: int| from <= j < r ==> unicode_white_space(#[trigger] s@[j]),
        r == n || !unicode_white_space(s@[r as int]),
{
    let mut i = from;
    while i < n && is_whitespace(s.get_char(i))
        invariant
            from <= i <= n,
            n == s@.len(),
            forall|j: int| from <= j < i ==> unicode_white_space(#[trigger] s@[j]),
        decreases n - i,
    {
        i = i + 1;
    }
    i
}

/// `s` without its leading and trailing white space.
pub fn trim(s: &str) -> (r: &str)
    ensures
        r@ == trimmed(s@),
{
    let n = s.unicode_len();
    let i = skip_white(s, 0, n);
    let mut j = n;
    while j > i && is_whitespace(s.get_char(j - 1))
        invariant
            i <= j <= n,
            n == s@.len(),
            forall|k: int| j <= k < n ==> unicode_white_space(#[trigger] s@[k]),
        decreases j,
    {
        j = j - 1;
    }
    proof {
        lemma_trim_start_skip(s@, i as int);
        let t = s@.skip(i as int);
        assert forall|k: int| j - i <= k < t.len() implies unicode_white_space(#[trigger] t[k]) by {
            assert(t[k] == s@[k + i]);
        }
        if j > i {
            assert(t[j - i - 1] == s@[j - 1]);
        }
        lemma_trim_end_take(t, j - i);
        assert(t.take(j - i) =~= s@.subrange(i as int, j as int));
    }
    s.substring_char(i, j)
}

/// Whether `s` begins with `p`.
pub fn starts_with(s: &str, p: &str) -> (r: bool)
    ensures
        r == has_prefix(s@, p@),
{
    let n = s.unicode_len();
    let m = p.unicode_len();
    if m > n {
        return false;
    }
    let mut i: usize = 0;
    while i < m
        invariant
            i <= m <= n,
            n == s@.len(),
            m == p@.len(),
            forall|j: int| 0 <= j < i ==> s@[j] == p@[j],
        decreases m - i,
    {
        if s.get_char(i) != p.get_char(i) {
            assert(s@.subrange(0, m as int)[i as int] != p@[i as int]);
            return false;
        }
        i = i + 1;
    }
    assert(s@.subrange(0, m as int) =~= p@);
    true
}

/// The first word of `s` (after any white space) and what follows it.
pub fn split_word(s: &str) -> (r: (&str, &str))
    ensures
        r.0@ == leading_word(trim_start(s@)),
        r.1@ == trim_start(s@).skip(r.0@.len() as int),
{
    let n = s.unicode_len();
    let i = skip_white(s, 0, n);
    let mut k = i;
    while k < n && !is_whitespace(s.get_char(k))
        invariant
            i <= k <= n,
            n == s@.len(),
            forall|j: int| i <= j < k ==> !unicode_white_space(#[trigger] s@[j]),
        decreases n - k,
    {
        k = k + 1;
    }
    proof {
        lemma_trim_start_skip(s@, i as int);
        let t = s@.skip(i as int);
        assert forall|j: int| 0 <= j < k - i implies !unicode_white_space(#[trigger] t[j]) by {
            assert(t[j] == s@[j + i]);
        }
        if k < n {
            assert(t[k - i] == s@[k as int]);
        }
        lemma_leading_word(t, k - i);
        assert(t.take(k - i) =~= s@.subrange(i as int, k as int));
        assert(t.skip(k - i) =~= s@.subrange(k as int, n as int));
    }
    (s.substring_char(i, k), s.substring_char(k, n))
}

} // verus!
