//! The body of a JSON string, as bytes: escaping (quote, backslash and
//! control bytes) and reading back up to the closing quote.

use vstd::prelude::*;

verus! {

/// `"`
pub const QUOTE: u8 = 0x22;

/// `\`
pub const BACKSLASH: u8 = 0x5C;

/// The lower-case hexadecimal digit of a value below 16.
pub open spec fn hex_digit(n: u8) -> u8 {
    if n < 10 {
        (0x30 + n) as u8
    } else {
        (0x61 + n - 10) as u8
    }
}

/// The value of a lower-case hexadecimal digit.
pub open spec fn hex_value(c: u8) -> Option<u8> {
    if 0x30 <= c <= 0x39 {
        Some((c - 0x30) as u8)
    } else if 0x61 <= c <= 0x66 {
        Some((c - 0x61 + 10) as u8)
    } else {
        None
    }
}

/// How one byte is written inside a JSON string: a quote or a backslash
/// behind a backslash, a control byte as `\u00` and two hexadecimal digits,
/// any other byte as itself.
pub open spec fn escape_byte(c: u8) -> Seq<u8> {
    if c == QUOTE || c == BACKSLASH {
        seq![BACKSLASH, c]
    } else if c < 0x20 {
        seq![BACKSLASH, 0x75u8, 0x30u8, 0x30u8, hex_digit(c / 16), hex_digit(c % 16)]
    } else {
        seq![c]
    }
}

/// The bytes written inside a JSON string for `b`.
pub open spec fn json_escaped(b: Seq<u8>) -> Seq<u8>
    decreases b.len(),
{
    if b.len() == 0 {
        Seq::empty()
    } else {
        escape_byte(b[0]) + json_escaped(b.drop_first())
    }
}

/// Reads the body of a JSON string up to its closing quote: the bytes it
/// stands for and the number of bytes before the quote; `None` when there
/// is no closing quote, a control byte stands unescaped, or an escape is
/// not one that `escape_byte` writes.
pub open spec fn unescape(s: Seq<u8>) -> Option<(Seq<u8>, int)>
    decreases s.len(),
{
    if s.len() == 0 {
        None
    } else if s[0] == QUOTE {
        Some((Seq::empty(), 0))
    } else if s[0] == BACKSLASH {
        if s.len() >= 2 && (s[1] == QUOTE || s[1] == BACKSLASH) {
            match unescape(s.skip(2)) {
                Some((d, k)) => Some((seq![s[1]] + d, k + 2)),
                None => None,
            }
        } else if s.len() >= 6 && s[1] == 0x75 && s[2] == 0x30 && s[3] == 0x30 && hex_value(s[4]) is Some
            && hex_value(s[5]) is Some && hex_value(s[4])->0 * 16 + hex_value(s[5])->0 < 0x20 {
            match unescape(s.skip(6)) {
                Some((d, k)) => Some((seq![(hex_value(s[4])->0 * 16 + hex_value(s[5])->0) as u8] + d, k + 6)),
                None => None,
            }
        } else {
            None
        }
    } else if s[0] < 0x20 {
        None
    } else {
        match unescape(s.skip(1)) {
            Some((d, k)) => Some((seq![s[0]] + d, k + 1)),
            None => None,
        }
    }
}

/// Escaping distributes over concatenation.
pub proof fn lemma_escaped_concat(x: Seq<u8>, y: Seq<u8>)
    ensures
        json_escaped(x + y) == json_escaped(x) + json_escaped(y),
    decreases x.len(),
{
    if x.len() == 0 {
        assert(x + y =~= y);
    } else {
        assert((x + y).drop_first() =~= x.drop_first() + y);
        lemma_escaped_concat(x.drop_first(), y);
        assert(json_escaped(x + y) =~= json_escaped(x) + json_escaped(y));
    }
}

/// Reading back what escaping wrote, followed by the closing quote, gives
/// the bytes back, and stops just before that quote.
pub proof fn lemma_unescape_escaped(b: Seq<u8>, tail: Seq<u8>)
    ensures
        unescape(json_escaped(b) + seq![QUOTE] + tail) == Some((b, json_escaped(b).len() as int)),
    decreases b.len(),
{
    let s = json_escaped(b) + seq![QUOTE] + tail;
    if b.len() == 0 {
        assert(s[0] == QUOTE);
    } else {
        let c = b[0];
        let e = escape_byte(c);
        let rest = json_escaped(b.drop_first()) + seq![QUOTE] + tail;
        assert(s =~= e + rest);
        assert(s.skip(e.len() as int) =~= rest);
        lemma_unescape_escaped(b.drop_first(), tail);
        assert(seq![c] + b.drop_first() =~= b);
        if c == QUOTE || c == BACKSLASH {
            assert(s[0] == BACKSLASH && s[1] == c);
        } else if c < 0x20 {
            assert(s[0] == BACKSLASH && s[1] == 0x75 && s[2] == 0x30 && s[3] == 0x30);
            assert(s[4] == hex_digit(c / 16) && s[5] == hex_digit(c % 16));
            assert(hex_value(s[4]) == Some((c / 16) as u8));
            assert(hex_value(s[5]) == Some((c % 16) as u8));
            assert((c / 16) * 16 + c % 16 == c);
        } else {
            assert(s[0] == c);
        }
    }
}

/// `unescape` stops at a closing quote that lies within its input.
pub proof fn lemma_unescape_stops(s: Seq<u8>)
    ensures
        unescape(s) matches Some((d, k)) ==> 0 <= k < s.len() && s[k] == QUOTE,
    decreases s.len(),
{
    if s.len() > 0 && s[0] != QUOTE {
        if s[0] == BACKSLASH {
            if s.len() >= 2 && (s[1] == QUOTE || s[1] == BACKSLASH) {
                lemma_unescape_stops(s.skip(2));
            } else if s.len() >= 6 {
                lemma_unescape_stops(s.skip(6));
            }
        } else if s[0] >= 0x20 {
            lemma_unescape_stops(s.skip(1));
        }
    }
}

/// The lower-case hexadecimal digit of a value below 16.
fn hex_digit_of(n: u8) -> (r: u8)
    requires
        n < 16,
    ensures
        r == hex_digit(n),
{
    if n < 10 {
        0x30 + n
    } else {
        0x61 + n - 10
    }
}

/// The value of a lower-case hexadecimal digit.
fn hex_value_of(c: u8) -> (r: Option<u8>)
    ensures
        r == hex_value(c),
{
    if 0x30 <= c && c <= 0x39 {
        Some(c - 0x30)
    } else if 0x61 <= c && c <= 0x66 {
        Some(c - 0x61 + 10)
    } else {
        None
    }
}

/// Appends the JSON-escaped form of `b` to `out`.
pub fn push_escaped(out: &mut Vec<u8>, b: &[u8])
    ensures
        final(out)@ == old(out)@ + json_escaped(b@),
{
    let ghost start = out@;
    let mut i: usize = 0;
    while i < b.len()
        invariant
            i <= b@.len(),
            out@ == start + json_escaped(b@.take(i as int)),
        decreases b@.len() - i,
    {
        let c = b[i];
        proof {
            lemma_escaped_concat(b@.take(i as int), seq![c]);
            assert(b@.take(i + 1) =~= b@.take(i as int) + seq![c]);
            assert(seq![c].drop_first() =~= Seq::<u8>::empty());
            assert(seq![c][0] == c);
            assert(json_escaped(Seq::<u8>::empty()) =~= Seq::<u8>::empty());
            assert(escape_byte(c) + Seq::<u8>::empty() =~= escape_byte(c));
            assert(json_escaped(seq![c]) =~= escape_byte(c));
        }
        let ghost before = out@;
        if c == QUOTE || c == BACKSLASH {
            out.push(BACKSLASH);
            out.push(c);
        } else if c < 0x20 {
            out.push(BACKSLASH);
            out.push(0x75);
            out.push(0x30);
            out.push(0x30);
            out.push(hex_digit_of(c / 16));
            out.push(hex_digit_of(c % 16));
        } else {
            out.push(c);
        }
        assert(out@ =~= before + escape_byte(c));
        i = i + 1;
    }
    assert(b@.take(b@.len() as int) =~= b@);
}

/// Reads the body of a JSON string that starts at `start` in `s`, up to its
/// closing quote: what `unescape` gives, the count being that of the bytes
/// before the quote.
pub fn read_escaped(s: &[u8], start: usize) -> (r: Option<(Vec<u8>, usize)>)
    requires
        start <= s@.len(),
    ensures
        match unescape(s@.skip(start as int)) {
            Some((d, k)) => r matches Some((v, n)) && v@ == d && n == k,
            None => r is None,
        },
{
    let mut out: Vec<u8> = Vec::new();
    let mut i: usize = start;
    loop
        invariant
            start <= i <= s@.len(),
            unescape(s@.skip(start as int)) == match unescape(s@.skip(i as int)) {
                Some((d, k)) => Some((out@ + d, k + (i - start))),
                None => None::<(Seq<u8>, int)>,
            },
        decreases s@.len() - i,
    {
        let ghost t = s@.skip(i as int);
        if i >= s.len() {
            return None;
        }
        let c = s[i];
        assert(t[0] == c);
        if c == QUOTE {
            assert(out@ + Seq::<u8>::empty() =~= out@);
            return Some((out, i - start));
        }
        if c == BACKSLASH {
            if s.len() - i > 1 && (s[i + 1] == QUOTE || s[i + 1] == BACKSLASH) {
                let x = s[i + 1];
                assert(t[1] == x);
                assert(t.skip(2) =~= s@.skip(i + 2));
                let ghost o = out@;
                out.push(x);
                proof {
                    match unescape(s@.skip(i + 2)) {
                        Some((d, k)) => {
                            assert(o + (seq![x] + d) =~= out@ + d);
                        },
                        None => {},
                    }
                }
                i = i + 2;
            } else if s.len() - i > 5 && s[i + 1] == 0x75 && s[i + 2] == 0x30 && s[i + 3] == 0x30 {
                let hi = hex_value_of(s[i + 4]);
                let lo = hex_value_of(s[i + 5]);
                assert(t[1] == s@[i + 1] && t[2] == s@[i + 2] && t[3] == s@[i + 3]);
                assert(t[4] == s@[i + 4] && t[5] == s@[i + 5]);
                match (hi, lo) {
                    (Some(h), Some(l)) => {
                        if (h as u16) * 16 + (l as u16) >= 0x20 {
                            return None;
                        }
                        let x: u8 = h * 16 + l;
                        assert(t.skip(6) =~= s@.skip(i + 6));
                        let ghost o = out@;
                        out.push(x);
                        proof {
                            match unescape(s@.skip(i + 6)) {
                                Some((d, k)) => {
                                    assert(o + (seq![x] + d) =~= out@ + d);
                                },
                                None => {},
                            }
                        }
                        i = i + 6;
                    },
                    _ => {
                        return None;
                    },
                }
            } else {
                return None;
            }
        } else if c < 0x20 {
            return None;
        } else {
            assert(t.skip(1) =~= s@.skip(i + 1));
            let ghost o = out@;
            out.push(c);
            proof {
                match unescape(s@.skip(i + 1)) {
                    Some((d, k)) => {
                        assert(o + (seq![c] + d) =~= out@ + d);
                    },
                    None => {},
                }
            }
            i = i + 1;
        }
    }
}

} // verus!
