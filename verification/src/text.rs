//! Character-level facts about strings: UTF-8 widths, the lines of a text as
//! `str::lines` splits it, and decimal rendering of integers.
use vstd::prelude::*;

verus! {

broadcast use vstd::string::group_string_axioms;

use vstd::std_specs::iter::IteratorSpec;

/// Number of bytes that `c` takes in UTF-8 (what `char::len_utf8` returns).
pub open spec fn char_width(c: char) -> nat {
    let v = c as u32;
    if v < 0x80 {
        1
    } else if v < 0x800 {
        2
    } else if v < 0x10000 {
        3
    } else {
        4
    }
}

/// Number of bytes of the UTF-8 encoding of `s` (what `str::len` returns).
pub open spec fn byte_len(s: Seq<char>) -> nat
    decreases s.len(),
{
    if s.len() == 0 {
        0
    } else {
        byte_len(s.drop_last()) + char_width(s.last())
    }
}

/// The characters after the last newline of `s` (all of `s` when it has none).
pub open spec fn tail_line(s: Seq<char>) -> Seq<char>
    decreases s.len(),
{
    if s.len() == 0 {
        s
    } else if s.last() == '\n' {
        Seq::empty()
    } else {
        tail_line(s.drop_last()).push(s.last())
    }
}

/// The last item that `str::lines` yields for `s`: lines end at `\n` or at
/// `\r\n`, the final line ending is optional, and an empty text has no lines.
pub open spec fn last_line(s: Seq<char>) -> Option<Seq<char>> {
    if s.len() == 0 {
        None
    } else if s.last() == '\n' {
        let l = tail_line(s.drop_last());
        if l.len() > 0 && l.last() == '\r' {
            Some(l.drop_last())
        } else {
            Some(l)
        }
    } else {
        Some(tail_line(s))
    }
}

/// Number of newline characters in `s`.
pub open spec fn newline_count(s: Seq<char>) -> nat
    decreases s.len(),
{
    if s.len() == 0 {
        0
    } else {
        newline_count(s.drop_last()) + if s.last() == '\n' {
            1nat
        } else {
            0nat
        }
    }
}

/// Number of items that `str::lines` yields for `s`.
pub open spec fn line_count(s: Seq<char>) -> nat {
    if s.len() == 0 {
        0
    } else if s.last() == '\n' {
        newline_count(s)
    } else {
        newline_count(s) + 1
    }
}

pub proof fn lemma_byte_len_push(s: Seq<char>, c: char)
    ensures
        byte_len(s.push(c)) == byte_len(s) + char_width(c),
{
    assert(s.push(c).drop_last() =~= s);
}

/// Appends `c` to `s` by `String::push`. Claimed of it: the characters of
/// `s` become the old ones followed by `c`. Required: the UTF-8 length stays
/// within `isize::MAX` bytes, past which the allocation panics.
#[verifier::external_body]
pub(crate) fn push_char(s: &mut String, c: char)
    requires
        byte_len(old(s)@) + char_width(c) <= isize::MAX,
    ensures
        final(s)@ == old(s)@.push(c),
{
    s.push(c)
}

/// Removes the last character of `s` by `String::pop`. Claimed of it: an
/// empty string stays empty and gives `None`; otherwise the last character
/// is given and the others stay.
#[verifier::external_body]
pub(crate) fn pop_char(s: &mut String) -> (r: Option<char>)
    ensures
        old(s)@.len() == 0 ==> r is None && final(s)@ == old(s)@,
        old(s)@.len() > 0 ==> r == Some(old(s)@.last()) && final(s)@ == old(s)@.drop_last(),
{
    s.pop()
}

pub proof fn lemma_tail_line_bytes(s: Seq<char>)
    ensures
        byte_len(tail_line(s)) <= byte_len(s),
    decreases s.len(),
{
    if s.len() > 0 && s.last() != '\n' {
        lemma_tail_line_bytes(s.drop_last());
        lemma_byte_len_push(tail_line(s.drop_last()), s.last());
    }
}

pub proof fn lemma_last_line_bytes(s: Seq<char>)
    ensures
        last_line(s) matches Some(l) ==> byte_len(l) <= byte_len(s),
{
    if s.len() > 0 {
        if s.last() == '\n' {
            let t = s.drop_last();
            lemma_tail_line_bytes(t);
            lemma_byte_len_push(t, '\n');
            assert(t.push('\n') =~= s);
            let l = tail_line(t);
            if l.len() > 0 {
                lemma_byte_len_push(l.drop_last(), l.last());
                assert(l.drop_last().push(l.last()) =~= l);
            }
        } else {
            lemma_tail_line_bytes(s);
        }
    }
}

pub proof fn lemma_byte_len_prefix(s: Seq<char>, n: int)
    requires
        0 <= n <= s.len(),
    ensures
        byte_len(s.take(n)) <= byte_len(s),
    decreases s.len() - n,
{
    if n < s.len() {
        lemma_byte_len_prefix(s, n + 1);
        assert(s.take(n).push(s[n]) =~= s.take(n + 1));
        lemma_byte_len_push(s.take(n), s[n]);
    } else {
        assert(s.take(n) =~= s);
    }
}

/// Number of bytes that `c` takes in UTF-8.
pub fn char_len_utf8(c: char) -> (r: usize)
    ensures
        r == char_width(c),
{
    let v = c as u32;
    if v < 0x80 {
        1
    } else if v < 0x800 {
        2
    } else if v < 0x10000 {
        3
    } else {
        4
    }
}

/// Byte length of the last line of `s`, as `s.lines().last().map(str::len)`.
pub fn last_line_len(s: &String) -> (r: Option<usize>)
    requires
        byte_len(s@) <= usize::MAX,
    ensures
        r == (match last_line(s@) {
            Some(l) => Some(byte_len(l) as usize),
            None => None,
        }),
{
    let mut cur: usize = 0;
    let mut cur_cr: bool = false;
    let mut seen_any: bool = false;
    let mut last_nl: bool = false;
    let mut prev: usize = 0;
    let ghost mut h: Seq<char> = Seq::empty();
    let mut chars = s.chars();
    loop
        invariant
            byte_len(s@) <= usize::MAX,
            chars.obeys_prophetic_iter_laws(),
            h.len() <= s@.len(),
            h == s@.take(h.len() as int),
            chars.remaining() == s@.skip(h.len() as int),
            cur == byte_len(tail_line(h)),
            cur_cr == (tail_line(h).len() > 0 && tail_line(h).last() == '\r'),
            seen_any == (h.len() > 0),
            last_nl == (h.len() > 0 && h.last() == '\n'),
            last_nl ==> (last_line(h) is Some && prev == byte_len(last_line(h)->0)),
        ensures
            h == s@,
            cur == byte_len(tail_line(h)),
            cur_cr == (tail_line(h).len() > 0 && tail_line(h).last() == '\r'),
            seen_any == (h.len() > 0),
            last_nl == (h.len() > 0 && h.last() == '\n'),
            last_nl ==> (last_line(h) is Some && prev == byte_len(last_line(h)->0)),
        decreases s@.len() - h.len(),
    {
        let next = chars.next();
        let c = match next {
            Some(c) => c,
            None => {
                assert(h =~= s@);
                break;
            },
        };
        let ghost h2 = h.push(c);
        proof {
            assert(h2.drop_last() =~= h);
            assert(h2 =~= s@.take(h.len() as int + 1));
            lemma_byte_len_prefix(s@, h.len() as int + 1);
            lemma_tail_line_bytes(h2);
            lemma_byte_len_push(tail_line(h), c);
        }
        if c == '\n' {
            prev = if cur_cr {
                cur - 1
            } else {
                cur
            };
            cur = 0;
            cur_cr = false;
            last_nl = true;
        } else {
            cur = cur + char_len_utf8(c);
            cur_cr = c == '\r';
            last_nl = false;
        }
        seen_any = true;
        proof {
            h = h2;
        }
    }
    assert(h == s@);
    if !seen_any {
        None
    } else if last_nl {
        Some(prev)
    } else {
        Some(cur)
    }
}


pub proof fn lemma_byte_len_bound(s: Seq<char>)
    ensures
        byte_len(s) <= 4 * s.len(),
    decreases s.len(),
{
    if s.len() > 0 {
        lemma_byte_len_bound(s.drop_last());
    }
}

/// The decimal digit `d` as a character.
pub open spec fn digit_char(d: int) -> char {
    if d == 0 {
        '0'
    } else if d == 1 {
        '1'
    } else if d == 2 {
        '2'
    } else if d == 3 {
        '3'
    } else if d == 4 {
        '4'
    } else if d == 5 {
        '5'
    } else if d == 6 {
        '6'
    } else if d == 7 {
        '7'
    } else if d == 8 {
        '8'
    } else {
        '9'
    }
}

/// The decimal digits of `n`, most significant first, without leading zeros.
pub open spec fn decimal_digits(n: nat) -> Seq<char>
    decreases n,
{
    if n < 10 {
        seq![digit_char(n as int)]
    } else {
        decimal_digits(n / 10).push(digit_char((n % 10) as int))
    }
}

/// `n` written in decimal, with a leading minus sign when it is negative
/// (what `Display` writes for an integer).
pub open spec fn decimal(n: int) -> Seq<char> {
    if n < 0 {
        seq!['-'] + decimal_digits((-n) as nat)
    } else {
        decimal_digits(n as nat)
    }
}

fn digit_to_char(d: u64) -> (r: char)
    requires
        d < 10,
    ensures
        r == digit_char(d as int),
{
    if d == 0 {
        '0'
    } else if d == 1 {
        '1'
    } else if d == 2 {
        '2'
    } else if d == 3 {
        '3'
    } else if d == 4 {
        '4'
    } else if d == 5 {
        '5'
    } else if d == 6 {
        '6'
    } else if d == 7 {
        '7'
    } else if d == 8 {
        '8'
    } else {
        '9'
    }
}

pub proof fn lemma_digit_width(d: int)
    ensures
        char_width(digit_char(d)) == 1,
{
    assert(('9' as u32) < 0x80);
}

/// `10` to the power `k`.
pub open spec fn pow10(k: nat) -> nat
    decreases k,
{
    if k == 0 {
        1
    } else {
        10 * pow10((k - 1) as nat)
    }
}

pub proof fn lemma_digits_width(n: nat)
    ensures
        byte_len(decimal_digits(n)) == decimal_digits(n).len(),
        decimal_digits(n).len() >= 1,
    decreases n,
{
    lemma_digit_width((n % 10) as int);
    lemma_digit_width(n as int);
    if n >= 10 {
        lemma_digits_width(n / 10);
        lemma_byte_len_push(decimal_digits(n / 10), digit_char((n % 10) as int));
    } else {
        lemma_byte_len_push(Seq::<char>::empty(), digit_char(n as int));
        assert(Seq::<char>::empty().push(digit_char(n as int)) =~= seq![digit_char(n as int)]);
    }
}

pub proof fn lemma_digits_len(n: nat, k: nat)
    requires
        k >= 1,
        n < pow10(k),
    ensures
        decimal_digits(n).len() <= k,
    decreases n,
{
    if n >= 10 {
        assert(pow10(k) == 10 * pow10((k - 1) as nat));
        if k == 1 {
            assert(pow10(0) == 1);
        } else {
            lemma_digits_len(n / 10, (k - 1) as nat);
        }
    }
}

/// Writes `n` in decimal.
pub fn decimal_string(n: i32) -> (r: String)
    ensures
        r@ == decimal(n as int),
{
    let neg = n < 0;
    let orig: u64 = if neg {
        (-(n as i64)) as u64
    } else {
        n as u64
    };
    proof {
        reveal_with_fuel(pow10, 11);
        lemma_digits_len(orig as nat, 10);
    }
    let mut m: u64 = orig;
    let mut digits: Vec<char> = Vec::new();
    loop
        invariant_except_break
            m > 0 ==> decimal_digits(orig as nat) == decimal_digits(m as nat) + digits@.reverse(),
            m == 0 ==> digits@.len() == 0,
            decimal_digits(orig as nat).len() <= 10,
            digits@.len() == 0 ==> m == orig,
        ensures
            decimal_digits(orig as nat) == digits@.reverse(),
            digits@.len() <= 10,
        decreases m,
    {
        let d = m % 10;
        let c = digit_to_char(d);
        let ghost old_digits = digits@;
        proof {
            lemma_digits_width(m as nat);
        }
        digits.push(c);
        proof {
            assert(digits@.reverse() =~= seq![c] + old_digits.reverse());
            if m >= 10 {
                assert(decimal_digits(m as nat) == decimal_digits((m / 10) as nat).push(c));
            }
        }
        m = m / 10;
        if m == 0 {
            break;
        }
    }
    let mut out = String::new();
    if neg {
        proof {
            lemma_byte_len_push(out@, '-');
            assert(('-' as u32) < 0x80);
        }
        push_char(&mut out, '-');
    }
    proof {
        lemma_byte_len_bound(out@);
    }
    let ghost prefix = out@;
    let mut i = digits.len();
    while i > 0
        invariant
            i <= digits@.len(),
            digits@.len() <= 10,
            out@ == prefix + digits@.reverse().take((digits@.len() - i) as int),
            prefix.len() <= 1,
            byte_len(prefix) <= 4,
        decreases i,
    {
        i = i - 1;
        proof {
            lemma_byte_len_bound(out@);
        }
        push_char(&mut out, digits[i]);
        proof {
            assert(digits@.reverse().take((digits@.len() - i) as int) =~= digits@.reverse().take(
                (digits@.len() - i - 1) as int,
            ).push(digits@[i as int]));
        }
    }
    proof {
        assert(digits@.reverse().take(digits@.len() as int) =~= digits@.reverse());
        if neg {
            assert(prefix =~= seq!['-']);
        } else {
            assert(prefix =~= Seq::<char>::empty());
        }
    }
    out
}

} // verus!
