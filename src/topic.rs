//! The dotted text form of PubSub topics: `<name>.<id>.<id>`, where each id
//! is an unsigned 32-bit decimal number.
use vstd::prelude::*;

use crate::text::str_eq;

verus! {

pub open spec fn is_digit(c: char) -> bool {
    '0' <= c && c <= '9'
}

pub open spec fn digit_value(c: char) -> nat {
    (c as u32 - '0' as u32) as nat
}

pub open spec fn digit_char(d: nat) -> char {
    ((d + 48) as u32) as char
}

/// The shortest decimal text of `n`.
pub open spec fn decimal(n: nat) -> Seq<char>
    decreases n,
{
    if n < 10 {
        seq![digit_char(n)]
    } else {
        decimal(n / 10).push(digit_char(n % 10))
    }
}

/// The number that a run of digits stands for.
pub open spec fn digits_value(s: Seq<char>) -> nat
    decreases s.len(),
{
    if s.len() == 0 {
        0
    } else {
        digits_value(s.drop_last()) * 10 + digit_value(s.last())
    }
}

pub open spec fn all_digits(s: Seq<char>) -> bool {
    forall|i: int| 0 <= i < s.len() ==> is_digit(#[trigger] s[i])
}

/// The digits of an unsigned number's text: an optional leading `+` is skipped.
pub open spec fn unsigned_digits(s: Seq<char>) -> Seq<char> {
    if s.len() > 0 && s[0] == '+' {
        s.drop_first()
    } else {
        s
    }
}

/// What parsing `s` as a `u32` yields: one or more digits after an optional
/// `+`, with a value that fits.
pub open spec fn u32_of_text(s: Seq<char>) -> Option<u32> {
    let d = unsigned_digits(s);
    if d.len() > 0 && all_digits(d) && digits_value(d) <= u32::MAX {
        Some(digits_value(d) as u32)
    } else {
        None
    }
}

proof fn lemma_value_grows(s: Seq<char>, i: int)
    requires
        0 <= i <= s.len(),
    ensures
        digits_value(s.take(i)) <= digits_value(s),
    decreases s.len() - i,
{
    if i == s.len() {
        assert(s.take(i) == s);
    } else {
        lemma_value_grows(s, i + 1);
        assert(s.take(i + 1).drop_last() == s.take(i));
    }
}

/// Parses a `u32` from its decimal text.
pub fn parse_u32(s: &str) -> (r: Option<u32>)
    ensures
        r == u32_of_text(s@),
{
    let n = s.unicode_len();
    let d = if n > 0 && s.get_char(0) == '+' {
        s.substring_char(1, n)
    } else {
        s.substring_char(0, n)
    };
    proof {
        assert(s@.subrange(0, n as int) == s@);
        assert(s@.subrange(1, n as int) == s@.drop_first());
    }
    let len = d.unicode_len();
    if len == 0 {
        return None;
    }
    let mut acc: u64 = 0;
    let mut over = false;
    let mut i: usize = 0;
    while i < len
        invariant
            d@ == unsigned_digits(s@),
            len == d@.len(),
            i <= len,
            all_digits(d@.take(i as int)),
            !over ==> acc == digits_value(d@.take(i as int)),
            over ==> digits_value(d@.take(i as int)) > u32::MAX,
            acc <= u32::MAX,
        decreases len - i,
    {
        let c = d.get_char(i);
        assert(d@.take(i + 1).drop_last() == d@.take(i as int));
        assert(d@.take(i + 1).last() == c);
        if !('0' <= c && c <= '9') {
            assert(!all_digits(d@));
            return None;
        }
        assert(all_digits(d@.take(i + 1))) by {
            assert forall|k: int| 0 <= k < i + 1 implies is_digit(#[trigger] d@.take(i + 1)[k]) by {
                if k < i {
                    assert(d@.take(i + 1)[k] == d@.take(i as int)[k]);
                }
            }
        }
        let v = (c as u32 - '0' as u32) as u64;
        if !over {
            let next = acc * 10 + v;
            if next > u32::MAX as u64 {
                over = true;
            } else {
                acc = next;
            }
        }
        i = i + 1;
    }
    assert(d@.take(len as int) == d@);
    if over {
        None
    } else {
        Some(acc as u32)
    }
}

/// Returns the digit `d` as a one-character string.
fn digit_text(d: u32) -> (r: &'static str)
    requires
        d < 10,
    ensures
        r@ == seq![digit_char(d as nat)],
{
    proof {
        reveal_strlit("0");
        reveal_strlit("1");
        reveal_strlit("2");
        reveal_strlit("3");
        reveal_strlit("4");
        reveal_strlit("5");
        reveal_strlit("6");
        reveal_strlit("7");
        reveal_strlit("8");
        reveal_strlit("9");
    }
    if d == 0 {
        "0"
    } else if d == 1 {
        "1"
    } else if d == 2 {
        "2"
    } else if d == 3 {
        "3"
    } else if d == 4 {
        "4"
    } else if d == 5 {
        "5"
    } else if d == 6 {
        "6"
    } else if d == 7 {
        "7"
    } else if d == 8 {
        "8"
    } else {
        "9"
    }
}

/// Appends the decimal text of `n`.
pub fn push_decimal(out: &mut String, n: u32)
    ensures
        final(out)@ == old(out)@ + decimal(n as nat),
    decreases n,
{
    if n >= 10 {
        push_decimal(out, n / 10);
        out.append(digit_text(n % 10));
        assert(old(out)@ + decimal(n as nat) == old(out)@ + decimal((n / 10) as nat) + seq![digit_char((n % 10) as nat)]);
    } else {
        out.append(digit_text(n));
    }
}

/// Parsing the decimal text of `n` gives `n` back.
pub proof fn lemma_decimal_parses(n: u32)
    ensures
        u32_of_text(decimal(n as nat)) == Some(n),
{
    lemma_decimal_digits(n as nat);
    assert(unsigned_digits(decimal(n as nat)) == decimal(n as nat));
}

proof fn lemma_decimal_digits(n: nat)
    ensures
        decimal(n).len() > 0,
        all_digits(decimal(n)),
        digits_value(decimal(n)) == n,
        decimal(n)[0] != '+',
    decreases n,
{
    if n < 10 {
        assert(decimal(n) == seq![digit_char(n)]);
        assert(seq![digit_char(n)].drop_last() == Seq::<char>::empty());
        assert(digits_value(decimal(n)) == digits_value(Seq::<char>::empty()) * 10 + digit_value(digit_char(n)));
    } else {
        lemma_decimal_digits(n / 10);
        let p = decimal(n / 10);
        assert(decimal(n) == p.push(digit_char(n % 10)));
        assert(decimal(n).drop_last() == p);
        assert(digit_value(digit_char(n % 10)) == n % 10);
        assert((n / 10) * 10 + n % 10 == n) by (nonlinear_arith);
        assert(decimal(n).last() == digit_char(n % 10));
        assert(digits_value(decimal(n)) == digits_value(p) * 10 + digit_value(digit_char(n % 10)));
        assert(all_digits(decimal(n))) by {
            assert forall|k: int| 0 <= k < decimal(n).len() implies is_digit(#[trigger] decimal(n)[k]) by {
                if k < p.len() {
                    assert(decimal(n)[k] == p[k]);
                }
            }
        }
    }
}

/// The index of the first `.` at or after `i`, or the length when there is none.
pub open spec fn find_dot(s: Seq<char>, i: int) -> int
    decreases s.len() - i,
{
    if i >= s.len() {
        s.len() as int
    } else if s[i] == '.' {
        i
    } else {
        find_dot(s, i + 1)
    }
}

pub open spec fn dot_free(s: Seq<char>) -> bool {
    forall|i: int| 0 <= i < s.len() ==> #[trigger] s[i] != '.'
}

/// The text of a topic with two ids.
pub open spec fn topic_text(name: Seq<char>, first: u32, second: u32) -> Seq<char> {
    name + seq!['.'] + decimal(first as nat) + seq!['.'] + decimal(second as nat)
}

/// What reading `s` as the topic `name` with two ids yields: exactly three
/// dot-separated segments, the first equal to `name`, the others `u32` texts.
pub open spec fn topic_ids(s: Seq<char>, name: Seq<char>) -> Option<(u32, u32)> {
    let d1 = find_dot(s, 0);
    let d2 = find_dot(s, d1 + 1);
    if d1 < s.len() && d2 < s.len() && find_dot(s, d2 + 1) == s.len() && s.take(d1) == name {
        match (u32_of_text(s.subrange(d1 + 1, d2)), u32_of_text(s.subrange(d2 + 1, s.len() as int))) {
            (Some(a), Some(b)) => Some((a, b)),
            _ => None,
        }
    } else {
        None
    }
}

fn next_dot(s: &str, start: usize) -> (r: usize)
    requires
        start <= s@.len(),
    ensures
        r as int == find_dot(s@, start as int),
        start <= r <= s@.len(),
{
    let n = s.unicode_len();
    let mut i = start;
    while i < n
        invariant
            n == s@.len(),
            start <= i <= n,
            find_dot(s@, start as int) == find_dot(s@, i as int),
        decreases n - i,
    {
        if s.get_char(i) == '.' {
            return i;
        }
        i = i + 1;
    }
    i
}

/// Writes the text of the topic `name` with ids `first` and `second`.
pub fn encode_topic(name: &str, first: u32, second: u32) -> (r: String)
    ensures
        r@ == topic_text(name@, first, second),
{
    let mut out = String::from_str(name);
    proof { reveal_strlit("."); }
    out.append(".");
    push_decimal(&mut out, first);
    out.append(".");
    push_decimal(&mut out, second);
    out
}

/// Reads the two ids of the topic `name` from `s`.
pub fn decode_topic(s: &str, name: &str) -> (r: Option<(u32, u32)>)
    ensures
        r == topic_ids(s@, name@),
{
    let n = s.unicode_len();
    let d1 = next_dot(s, 0);
    if d1 >= n {
        return None;
    }
    let d2 = next_dot(s, d1 + 1);
    if d2 >= n {
        return None;
    }
    let d3 = next_dot(s, d2 + 1);
    if d3 < n {
        return None;
    }
    let head = s.substring_char(0, d1);
    assert(head@ == s@.take(d1 as int));
    if !str_eq(head, name) {
        return None;
    }
    let a = parse_u32(s.substring_char(d1 + 1, d2));
    let b = parse_u32(s.substring_char(d2 + 1, n));
    match (a, b) {
        (Some(x), Some(y)) => Some((x, y)),
        _ => None,
    }
}

proof fn lemma_find_dot_skips(s: Seq<char>, i: int, k: int)
    requires
        0 <= i <= k <= s.len(),
        forall|j: int| i <= j < k ==> s[j] != '.',
        k == s.len() || s[k] == '.',
    ensures
        find_dot(s, i) == k,
    decreases k - i,
{
    if i < k {
        lemma_find_dot_skips(s, i + 1, k);
    }
}

/// Reading back the text of a topic gives its ids, for any dot-free name.
pub proof fn lemma_topic_round_trip(name: Seq<char>, first: u32, second: u32)
    requires
        dot_free(name),
    ensures
        topic_ids(topic_text(name, first, second), name) == Some((first, second)),
        find_dot(topic_text(name, first, second), 0) == name.len(),
        topic_text(name, first, second).take(name.len() as int) == name,
{
    let a = decimal(first as nat);
    let b = decimal(second as nat);
    lemma_decimal_digits(first as nat);
    lemma_decimal_digits(second as nat);
    lemma_decimal_parses(first);
    lemma_decimal_parses(second);
    let s = topic_text(name, first, second);
    let d1 = name.len() as int;
    let d2 = d1 + 1 + a.len();
    assert(s.len() == d2 + 1 + b.len());
    assert forall|j: int| 0 <= j < d1 implies s[j] != '.' by {
        assert(s[j] == name[j]);
    }
    assert(s[d1] == '.');
    lemma_find_dot_skips(s, 0, d1);
    assert forall|j: int| d1 + 1 <= j < d2 implies s[j] != '.' by {
        assert(s[j] == a[j - d1 - 1]);
        assert(is_digit(a[j - d1 - 1]));
    }
    assert(s[d2] == '.');
    lemma_find_dot_skips(s, d1 + 1, d2);
    assert forall|j: int| d2 + 1 <= j < s.len() implies s[j] != '.' by {
        assert(s[j] == b[j - d2 - 1]);
        assert(is_digit(b[j - d2 - 1]));
    }
    lemma_find_dot_skips(s, d2 + 1, s.len() as int);
    assert(s.take(d1) == name);
    assert(s.subrange(d1 + 1, d2) == a);
    assert(s.subrange(d2 + 1, s.len() as int) == b);
}

} // verus!
