//! Text primitives shared by the whole crate.
//!
//! Every string is modelled by its sequence of characters (`Seq<char>`),
//! and positions are counted in characters.

use vstd::prelude::*;
use vstd::string::*;

verus! {

/// The upper-case form of a text, as `str::to_uppercase` computes it.
pub uninterp spec fn uppercase(s: Seq<char>) -> Seq<char>;

/// The lower-case form of a text, as `str::to_lowercase` computes it.
pub uninterp spec fn lowercase(s: Seq<char>) -> Seq<char>;

/// Whether a character has the Unicode property `White_Space`, as
/// `char::is_whitespace` decides it.
pub uninterp spec fn is_whitespace(c: char) -> bool;

/// Calls `str::to_uppercase`. The result is a function of the characters
/// alone (the Unicode upper-case mapping), which is all that is claimed.
#[verifier::external_body]
pub(crate) fn to_uppercase(s: &str) -> (r: String)
    ensures
        r@ == uppercase(s@),
{
    s.to_uppercase()
}

/// Calls `str::to_lowercase`. The result is a function of the characters
/// alone (the Unicode lower-case mapping), which is all that is claimed.
#[verifier::external_body]
pub(crate) fn to_lowercase(s: &str) -> (r: String)
    ensures
        r@ == lowercase(s@),
{
    s.to_lowercase()
}

/// Calls `char::is_whitespace`; the answer depends on the character alone.
#[verifier::external_body]
pub(crate) fn char_is_whitespace(c: char) -> (r: bool)
    ensures
        r == is_whitespace(c),
{
    c.is_whitespace()
}

/// Calls `String::push`, which appends one character to the end.
#[verifier::external_body]
pub(crate) fn push_char(s: &mut String, c: char)
    ensures
        final(s)@ == old(s)@.push(c),
{
    s.push(c)
}

/// The characters of a string, in order.
pub fn chars_of(s: &str) -> (r: Vec<char>)
    ensures
        r@ == s@,
{
    let mut v: Vec<char> = Vec::new();
    for c in it: s.chars()
        invariant
            v@ == it.seq().take(it.index() as int),
            it.seq() == s@,
    {
        v.push(c);
    }
    v
}

/// Appends the characters `v[from..to]` to `buf`.
pub fn append_chars(buf: &mut String, v: &Vec<char>, from: usize, to: usize)
    requires
        from <= to <= v.len(),
    ensures
        final(buf)@ == old(buf)@ + v@.subrange(from as int, to as int),
{
    let mut i: usize = from;
    while i < to
        invariant
            from <= i <= to <= v.len(),
            buf@ == old(buf)@ + v@.subrange(from as int, i as int),
        decreases to - i,
    {
        push_char(buf, v[i]);
        i += 1;
        assert(buf@ =~= old(buf)@ + v@.subrange(from as int, i as int));
    }
    assert(buf@ =~= old(buf)@ + v@.subrange(from as int, to as int));
}

/// The string made of the characters `v[from..to]`.
pub fn string_of(v: &Vec<char>, from: usize, to: usize) -> (r: String)
    requires
        from <= to <= v.len(),
    ensures
        r@ == v@.subrange(from as int, to as int),
{
    let mut s = String::new();
    append_chars(&mut s, v, from, to);
    assert(s@ =~= v@.subrange(from as int, to as int));
    s
}

/// Whether two strings hold the same characters.
pub fn same_text(a: &str, b: &str) -> (r: bool)
    ensures
        r == (a@ == b@),
{
    let x = chars_of(a);
    let y = chars_of(b);
    if x.len() != y.len() {
        return false;
    }
    let mut i: usize = 0;
    while i < x.len()
        invariant
            x@ == a@,
            y@ == b@,
            x.len() == y.len(),
            i <= x.len(),
            forall|j: int| 0 <= j < i ==> x@[j] == y@[j],
        decreases x.len() - i,
    {
        if x[i] != y[i] {
            return false;
        }
        i += 1;
    }
    assert(x@ =~= y@);
    true
}

/// The views of a sequence of strings.
pub open spec fn views(list: Seq<String>) -> Seq<Seq<char>> {
    list.map_values(|s: String| s@)
}

/// The view of an optional string.
pub open spec fn opt_view(s: Option<String>) -> Option<Seq<char>> {
    match s {
        Some(t) => Some(t@),
        None => None,
    }
}

/// `parts` written one after another with `sep` between neighbours.
pub open spec fn join(parts: Seq<Seq<char>>, sep: Seq<char>) -> Seq<char>
    decreases parts.len(),
{
    if parts.len() == 0 {
        Seq::empty()
    } else if parts.len() == 1 {
        parts[0]
    } else {
        join(parts.drop_last(), sep) + sep + parts.last()
    }
}

/// Joins the strings of `list` with `sep` between neighbours.
pub fn join_strings(list: &Vec<String>, sep: &str) -> (r: String)
    ensures
        r@ == join(views(list@), sep@),
{
    let mut out = String::new();
    let ghost parts = views(list@);
    let mut i: usize = 0;
    while i < list.len()
        invariant
            i <= list.len(),
            parts == views(list@),
            out@ == join(parts.take(i as int), sep@),
        decreases list.len() - i,
    {
        if i > 0 {
            out.append(sep);
        }
        out.append(list[i].as_str());
        proof {
            let next = parts.take(i + 1);
            assert(next.drop_last() =~= parts.take(i as int));
            assert(next.last() == list@[i as int]@);
            assert(out@ =~= join(next, sep@));
        }
        i += 1;
    }
    assert(parts.take(list.len() as int) =~= parts);
    out
}

/// The decimal digit `d` as a character.
pub open spec fn digit_char(d: int) -> char {
    if d == 0 {
        '0'
    } else if d == 1 {
        '1'
    } else if d == 2 {
        '2'
    } else if d == 3 {
        '3'
    } else if d == 4 {
        '4'
    } else if d == 5 {
        '5'
    } else if d == 6 {
        '6'
    } else if d == 7 {
        '7'
    } else if d == 8 {
        '8'
    } else {
        '9'
    }
}

/// The value of a decimal digit character, if it is one.
pub open spec fn digit_value(c: char) -> Option<int> {
    if c == '0' {
        Some(0)
    } else if c == '1' {
        Some(1)
    } else if c == '2' {
        Some(2)
    } else if c == '3' {
        Some(3)
    } else if c == '4' {
        Some(4)
    } else if c == '5' {
        Some(5)
    } else if c == '6' {
        Some(6)
    } else if c == '7' {
        Some(7)
    } else if c == '8' {
        Some(8)
    } else if c == '9' {
        Some(9)
    } else {
        None
    }
}

/// A natural number in decimal, without sign or leading zeros.
pub open spec fn nat_decimal(n: nat) -> Seq<char>
    decreases n,
{
    if n < 10 {
        seq![digit_char(n as int)]
    } else {
        nat_decimal(n / 10).push(digit_char((n % 10) as int))
    }
}

/// An integer in decimal, with `-` in front of a negative one.
pub open spec fn int_decimal(i: int) -> Seq<char> {
    if i < 0 {
        seq!['-'] + nat_decimal((-i) as nat)
    } else {
        nat_decimal(i as nat)
    }
}

fn digit_to_char(d: u8) -> (c: char)
    requires
        d < 10,
    ensures
        c == digit_char(d as int),
{
    if d == 0 {
        '0'
    } else if d == 1 {
        '1'
    } else if d == 2 {
        '2'
    } else if d == 3 {
        '3'
    } else if d == 4 {
        '4'
    } else if d == 5 {
        '5'
    } else if d == 6 {
        '6'
    } else if d == 7 {
        '7'
    } else if d == 8 {
        '8'
    } else {
        '9'
    }
}

fn char_to_digit(c: char) -> (d: Option<u8>)
    ensures
        match d {
            Some(v) => digit_value(c) == Some(v as int),
            None => digit_value(c) is None,
        },
{
    if c == '0' {
        Some(0)
    } else if c == '1' {
        Some(1)
    } else if c == '2' {
        Some(2)
    } else if c == '3' {
        Some(3)
    } else if c == '4' {
        Some(4)
    } else if c == '5' {
        Some(5)
    } else if c == '6' {
        Some(6)
    } else if c == '7' {
        Some(7)
    } else if c == '8' {
        Some(8)
    } else if c == '9' {
        Some(9)
    } else {
        None
    }
}

/// Appends the decimal form of `n` to `buf`.
fn push_decimal(buf: &mut String, n: u128)
    ensures
        final(buf)@ == old(buf)@ + nat_decimal(n as nat),
{
    let mut digits: Vec<char> = Vec::new();
    digits.push(digit_to_char((n % 10) as u8));
    let mut rest: u128 = n / 10;
    while rest > 0
        invariant
            digits.len() > 0,
            nat_decimal(n as nat) == (if rest > 0 {
                nat_decimal(rest as nat)
            } else {
                Seq::<char>::empty()
            }) + digits@.reverse(),
        decreases rest,
    {
        let ghost before = digits@;
        digits.push(digit_to_char((rest % 10) as u8));
        proof {
            let d = digit_char((rest % 10) as int);
            assert(digits@.reverse() =~= seq![d] + before.reverse());
            if rest < 10 {
                assert(nat_decimal(rest as nat) =~= seq![d]);
            } else {
                assert(nat_decimal(rest as nat) =~= nat_decimal((rest / 10) as nat) + seq![d]);
            }
        }
        rest = rest / 10;
    }
    let mut i: usize = digits.len();
    while i > 0
        invariant
            i <= digits.len(),
            buf@ == old(buf)@ + digits@.reverse().subrange(0, digits.len() - i),
        decreases i,
    {
        i -= 1;
        push_char(buf, digits[i]);
        assert(buf@ =~= old(buf)@ + digits@.reverse().subrange(0, digits.len() - i));
    }
    assert(digits@.reverse().subrange(0, digits.len() as int) =~= digits@.reverse());
}

/// A `usize` in decimal.
pub fn usize_to_string(n: usize) -> (r: String)
    ensures
        r@ == nat_decimal(n as nat),
{
    let mut out = String::new();
    push_decimal(&mut out, n as u128);
    assert(out@ =~= nat_decimal(n as nat));
    out
}

/// An `isize` in decimal, with `-` in front of a negative one.
pub fn isize_to_string(n: isize) -> (r: String)
    ensures
        r@ == int_decimal(n as int),
{
    let mut out = String::new();
    if n < 0 {
        push_char(&mut out, '-');
        let wide: i128 = n as i128;
        push_decimal(&mut out, (-wide) as u128);
        assert(out@ =~= int_decimal(n as int));
    } else {
        push_decimal(&mut out, n as u128);
        assert(out@ =~= int_decimal(n as int));
    }
    out
}

/// The number that a run of decimal digits denotes; a character that is
/// no digit counts as zero.
pub open spec fn digits_value(s: Seq<char>) -> nat
    decreases s.len(),
{
    if s.len() == 0 {
        0
    } else {
        let d = match digit_value(s.last()) {
            Some(v) => v as nat,
            None => 0,
        };
        digits_value(s.drop_last()) * 10 + d
    }
}

/// Whether every character is a decimal digit.
pub open spec fn all_digits(s: Seq<char>) -> bool {
    forall|i: int| 0 <= i < s.len() ==> digit_value(#[trigger] s[i]) is Some
}

/// The integer that a text denotes: an optional `+` or `-`, then one or
/// more decimal digits and nothing else.
pub open spec fn parse_int(s: Seq<char>) -> Option<int> {
    if s.len() == 0 {
        None
    } else {
        let negative = s[0] == '-';
        let body = if negative || s[0] == '+' {
            s.subrange(1, s.len() as int)
        } else {
            s
        };
        if body.len() == 0 || !all_digits(body) {
            None
        } else if negative {
            Some(-(digits_value(body) as int))
        } else {
            Some(digits_value(body) as int)
        }
    }
}

/// The `isize` that a text denotes, if it denotes an integer in range.
pub open spec fn parse_isize_spec(s: Seq<char>) -> Option<isize> {
    match parse_int(s) {
        Some(v) => if isize::MIN <= v <= isize::MAX {
            Some(v as isize)
        } else {
            None
        },
        None => None,
    }
}

/// Two numbers that are written the same in decimal are the same.
pub proof fn lemma_nat_decimal_tells_apart(n: nat, m: nat)
    requires
        nat_decimal(n) == nat_decimal(m),
    ensures
        n == m,
    decreases n,
{
    if n < 10 && m < 10 {
        assert(nat_decimal(n) == seq![digit_char(n as int)]);
        assert(nat_decimal(m) == seq![digit_char(m as int)]);
        assert(seq![digit_char(n as int)][0] == seq![digit_char(m as int)][0]);
        assert(digit_char(n as int) == digit_char(m as int));
    } else if n < 10 {
        lemma_nat_decimal_is_written(m / 10);
        assert(nat_decimal(n) == seq![digit_char(n as int)]);
        assert(nat_decimal(n).len() == 1);
        assert(nat_decimal(m) == nat_decimal(m / 10).push(digit_char((m % 10) as int)));
        assert(nat_decimal(m).len() == nat_decimal(m / 10).len() + 1);
    } else if m < 10 {
        lemma_nat_decimal_is_written(n / 10);
        assert(nat_decimal(m) == seq![digit_char(m as int)]);
        assert(nat_decimal(m).len() == 1);
        assert(nat_decimal(n) == nat_decimal(n / 10).push(digit_char((n % 10) as int)));
        assert(nat_decimal(n).len() == nat_decimal(n / 10).len() + 1);
    } else {
        let a = nat_decimal(n / 10);
        let b = nat_decimal(m / 10);
        let x = digit_char((n % 10) as int);
        let y = digit_char((m % 10) as int);
        assert(a.push(x) == b.push(y));
        assert(a.push(x).len() == a.len() + 1);
        assert(a.push(x).last() == x);
        assert(b.push(y).last() == y);
        assert(a.push(x).drop_last() =~= a);
        assert(b.push(y).drop_last() =~= b);
        assert(a == b);
        assert(x == y);
        lemma_nat_decimal_tells_apart(n / 10, m / 10);
        assert(n / 10 == m / 10);
        assert(n % 10 == m % 10);
        assert(n == 10 * (n / 10) + n % 10);
        assert(m == 10 * (m / 10) + m % 10);
    }
}

/// The decimal form of a number has at least one digit.
pub proof fn lemma_nat_decimal_is_written(n: nat)
    ensures
        nat_decimal(n).len() >= 1,
    decreases n,
{
    if n >= 10 {
        lemma_nat_decimal_is_written(n / 10);
    }
}

proof fn lemma_digits_value_grows(s: Seq<char>, i: int)
    requires
        0 <= i <= s.len(),
    ensures
        digits_value(s.take(i)) <= digits_value(s),
    decreases s.len() - i,
{
    if i < s.len() {
        lemma_digits_value_grows(s, i + 1);
        assert(s.take(i + 1).drop_last() =~= s.take(i));
    } else {
        assert(s.take(i) =~= s);
    }
}

/// Reads a decimal integer: an optional sign, then digits only. `None`
/// where the text is not of that form or the number does not fit.
pub fn parse_isize(text: &str) -> (r: Option<isize>)
    ensures
        r == parse_isize_spec(text@),
{
    let v = chars_of(text);
    if v.len() == 0 {
        return None;
    }
    let negative = v[0] == '-';
    let first: usize = if negative || v[0] == '+' {
        1
    } else {
        0
    };
    if first == v.len() {
        return None;
    }
    let ghost body = v@.subrange(first as int, v.len() as int);
    let limit: u128 = if negative {
        isize::MAX as u128 + 1
    } else {
        isize::MAX as u128
    };
    let mut acc: u128 = 0;
    let mut i: usize = first;
    proof {
        if first == 0 {
            assert(body =~= v@);
        }
    }
    while i < v.len()
        invariant
            v@ == text@,
            v.len() > 0,
            negative == (v@[0] == '-'),
            first < v.len(),
            first == (if negative || v@[0] == '+' {
                1int
            } else {
                0int
            }),
            first <= i <= v.len(),
            body == v@.subrange(first as int, v.len() as int),
            first == 0 ==> body == v@,
            all_digits(body.take(i - first)),
            acc == digits_value(body.take(i - first)),
            acc <= limit,
            limit == (if negative {
                isize::MAX + 1
            } else {
                isize::MAX as int
            }),
        decreases v.len() - i,
    {
        match char_to_digit(v[i]) {
            None => {
                proof {
                    assert(body[i - first] == v@[i as int]);
                    assert(!all_digits(body));
                }
                return None;
            },
            Some(d) => {
                proof {
                    let next = body.take(i - first + 1);
                    assert(next.drop_last() =~= body.take(i - first));
                    assert(next.last() == v@[i as int]);
                    assert forall|j: int| 0 <= j < next.len() implies digit_value(
                        #[trigger] next[j],
                    ) is Some by {
                        if j < i - first {
                            assert(next[j] == body.take(i - first)[j]);
                        }
                    }
                }
                acc = acc * 10 + d as u128;
                if acc > limit {
                    proof {
                        lemma_digits_value_grows(body, i - first + 1);
                    }
                    return None;
                }
            },
        }
        i += 1;
    }
    proof {
        assert(body.take(v.len() - first) =~= body);
    }
    if negative {
        let wide: i128 = -(acc as i128);
        Some(wide as isize)
    } else {
        Some(acc as isize)
    }
}

/// The first position at or after `i` that holds no white space, or the
/// length where there is none.
pub open spec fn skip_whitespace(s: Seq<char>, i: int) -> int
    decreases s.len() - i,
{
    if 0 <= i < s.len() && is_whitespace(s[i]) {
        skip_whitespace(s, i + 1)
    } else {
        i
    }
}

/// The end of the text before `j` once the white space just before it is
/// left out.
pub open spec fn drop_whitespace(s: Seq<char>, j: int) -> int
    decreases j,
{
    if 0 < j <= s.len() && is_whitespace(s[j - 1]) {
        drop_whitespace(s, j - 1)
    } else {
        j
    }
}

/// A text without the white space at its two ends.
pub open spec fn trimmed(s: Seq<char>) -> Seq<char> {
    let from = skip_whitespace(s, 0);
    if from >= s.len() {
        Seq::empty()
    } else {
        s.subrange(from, drop_whitespace(s, s.len() as int))
    }
}

/// Removes the white space at the two ends of a text.
pub fn trim(text: &str) -> (r: String)
    ensures
        r@ == trimmed(text@),
{
    let v = chars_of(text);
    let mut from: usize = 0;
    while from < v.len() && char_is_whitespace(v[from])
        invariant
            from <= v.len(),
            skip_whitespace(v@, 0) == skip_whitespace(v@, from as int),
        decreases v.len() - from,
    {
        from += 1;
    }
    if from >= v.len() {
        return String::new();
    }
    let mut to: usize = v.len();
    while to > from + 1 && char_is_whitespace(v[to - 1])
        invariant
            from < to <= v.len(),
            !is_whitespace(v@[from as int]),
            drop_whitespace(v@, v.len() as int) == drop_whitespace(v@, to as int),
        decreases to,
    {
        to -= 1;
    }
    string_of(&v, from, to)
}

/// Each text of a list without the white space at its two ends.
pub open spec fn trimmed_all(parts: Seq<Seq<char>>) -> Seq<Seq<char>> {
    parts.map_values(|p: Seq<char>| trimmed(p))
}

/// Removes the white space at the two ends of each text of a list.
pub fn trim_all(list: &Vec<String>) -> (r: Vec<String>)
    ensures
        views(r@) == trimmed_all(views(list@)),
{
    let ghost all = trimmed_all(views(list@));
    let mut out: Vec<String> = Vec::new();
    let mut i: usize = 0;
    while i < list.len()
        invariant
            i <= list.len(),
            all == trimmed_all(views(list@)),
            views(out@) == all.take(i as int),
        decreases list.len() - i,
    {
        let ghost before = out@;
        let piece = trim(list[i].as_str());
        out.push(piece);
        proof {
            assert(views(out@) =~= views(before).push(piece@));
            assert(views(out@) =~= all.take(i + 1));
        }
        i += 1;
    }
    assert(all.take(list.len() as int) =~= all);
    out
}

/// The position of the first `c` in `s`, or the length where there is none.
pub open spec fn index_of(s: Seq<char>, c: char) -> int
    decreases s.len(),
{
    if s.len() == 0 {
        0
    } else if s[0] == c {
        0
    } else {
        1 + index_of(s.drop_first(), c)
    }
}

/// The pieces of `s` between occurrences of `c`; a text without `c` is
/// one piece, the empty text included.
pub open spec fn split(s: Seq<char>, c: char) -> Seq<Seq<char>>
    decreases s.len(),
{
    let i = index_of(s, c);
    if 0 <= i < s.len() {
        seq![s.subrange(0, i)] + split(s.subrange(i + 1, s.len() as int), c)
    } else {
        seq![s]
    }
}

proof fn lemma_index_of(s: Seq<char>, c: char)
    ensures
        0 <= index_of(s, c) <= s.len(),
        forall|j: int| 0 <= j < index_of(s, c) ==> s[j] != c,
        index_of(s, c) < s.len() ==> s[index_of(s, c)] == c,
    decreases s.len(),
{
    if s.len() > 0 && s[0] != c {
        let t = s.drop_first();
        lemma_index_of(t, c);
        assert forall|j: int| 0 <= j < index_of(s, c) implies s[j] != c by {
            if j > 0 {
                assert(s[j] == t[j - 1]);
            }
        }
        if index_of(s, c) < s.len() {
            assert(s[index_of(s, c)] == t[index_of(t, c)]);
        }
    }
}

/// A text always splits into at least one piece.
pub proof fn lemma_split_has_a_piece(s: Seq<char>, c: char)
    ensures
        split(s, c).len() >= 1,
{
}

proof fn lemma_index_of_is(s: Seq<char>, c: char, i: int)
    requires
        0 <= i <= s.len(),
        forall|j: int| 0 <= j < i ==> s[j] != c,
        i < s.len() ==> s[i] == c,
    ensures
        index_of(s, c) == i,
{
    lemma_index_of(s, c);
}

/// Cuts a text at every `c`.
pub fn split_at(text: &str, c: char) -> (r: Vec<String>)
    ensures
        views(r@) == split(text@, c),
{
    let v = chars_of(text);
    let mut out: Vec<String> = Vec::new();
    let mut start: usize = 0;
    let mut i: usize = 0;
    proof {
        assert(v@.subrange(0, v.len() as int) =~= v@);
        assert(views(out@) + split(v@, c) =~= split(v@, c));
    }
    while i < v.len()
        invariant
            v@ == text@,
            start <= i <= v.len(),
            forall|j: int| start <= j < i ==> v@[j] != c,
            split(v@, c) == views(out@) + split(v@.subrange(start as int, v.len() as int), c),
        decreases v.len() - i,
    {
        if v[i] == c {
            let piece = string_of(&v, start, i);
            proof {
                let rest = v@.subrange(start as int, v.len() as int);
                lemma_index_of_is(rest, c, i - start);
                assert(rest.subrange(0, i - start) =~= v@.subrange(start as int, i as int));
                assert(rest.subrange(i - start + 1, rest.len() as int) =~= v@.subrange(
                    i + 1,
                    v.len() as int,
                ));
                assert(views(out@.push(piece)) =~= views(out@) + seq![piece@]);
            }
            out.push(piece);
            start = i + 1;
        }
        i += 1;
    }
    let piece = string_of(&v, start, v.len());
    proof {
        let rest = v@.subrange(start as int, v.len() as int);
        lemma_index_of_is(rest, c, rest.len() as int);
        assert(views(out@.push(piece)) =~= views(out@) + seq![piece@]);
    }
    out.push(piece);
    out
}

/// Whether `s` begins with `p`.
pub open spec fn starts_with(s: Seq<char>, p: Seq<char>) -> bool {
    p.len() <= s.len() && s.subrange(0, p.len() as int) == p
}

/// Whether `s` ends with `p`.
pub open spec fn ends_with(s: Seq<char>, p: Seq<char>) -> bool {
    p.len() <= s.len() && s.subrange(s.len() - p.len(), s.len() as int) == p
}

fn matches_at(s: &Vec<char>, at: usize, p: &Vec<char>) -> (r: bool)
    requires
        at + p.len() <= s.len(),
    ensures
        r == (s@.subrange(at as int, at + p.len()) == p@),
{
    let mut i: usize = 0;
    while i < p.len()
        invariant
            i <= p.len(),
            at + p.len() <= s.len(),
            forall|j: int| 0 <= j < i ==> s@[at + j] == p@[j],
        decreases p.len() - i,
    {
        if s[at + i] != p[i] {
            proof {
                assert(s@.subrange(at as int, at + p.len())[i as int] == s@[at + i]);
            }
            return false;
        }
        i += 1;
    }
    assert(s@.subrange(at as int, at + p.len()) =~= p@);
    true
}

/// Whether `text` begins with `prefix`.
pub fn has_prefix(text: &str, prefix: &str) -> (r: bool)
    ensures
        r == starts_with(text@, prefix@),
{
    let s = chars_of(text);
    let p = chars_of(prefix);
    if p.len() > s.len() {
        return false;
    }
    matches_at(&s, 0, &p)
}

/// Whether `text` ends with `suffix`.
pub fn has_suffix(text: &str, suffix: &str) -> (r: bool)
    ensures
        r == ends_with(text@, suffix@),
{
    let s = chars_of(text);
    let p = chars_of(suffix);
    if p.len() > s.len() {
        return false;
    }
    matches_at(&s, s.len() - p.len(), &p)
}

/// Whether `c` occurs in `text`.
pub fn contains_char(text: &str, c: char) -> (r: bool)
    ensures
        r == text@.contains(c),
{
    let v = chars_of(text);
    let mut i: usize = 0;
    while i < v.len()
        invariant
            i <= v.len(),
            v@ == text@,
            forall|j: int| 0 <= j < i ==> v@[j] != c,
        decreases v.len() - i,
    {
        if v[i] == c {
            return true;
        }
        i += 1;
    }
    false
}

/// Whether two texts are the same once both are put in upper case.
pub open spec fn same_ignoring_case(a: Seq<char>, b: Seq<char>) -> bool {
    uppercase(a) == uppercase(b)
}

/// Compares two texts by their upper-case forms.
pub fn eq_ignoring_case(a: &str, b: &str) -> (r: bool)
    ensures
        r == same_ignoring_case(a@, b@),
{
    let x = to_uppercase(a);
    let y = to_uppercase(b);
    same_text(x.as_str(), y.as_str())
}

/// A copy of a list of strings.
pub fn copy_strings(list: &Vec<String>) -> (r: Vec<String>)
    ensures
        views(r@) == views(list@),
{
    let mut out: Vec<String> = Vec::new();
    let mut i: usize = 0;
    while i < list.len()
        invariant
            i <= list.len(),
            views(out@) == views(list@).take(i as int),
        decreases list.len() - i,
    {
        let ghost before = out@;
        let item = list[i].clone();
        out.push(item);
        proof {
            assert(out@ == before.push(item));
            assert(views(out@) =~= views(before).push(item@));
            assert(views(list@).take(i + 1) =~= views(list@).take(i as int).push(list@[i as int]@));
        }
        i += 1;
    }
    assert(views(list@).take(list.len() as int) =~= views(list@));
    out
}

/// Whether two lists hold the same texts in the same order.
pub fn same_strings(a: &Vec<String>, b: &Vec<String>) -> (r: bool)
    ensures
        r == (views(a@) == views(b@)),
{
    if a.len() != b.len() {
        assert(views(a@).len() != views(b@).len());
        return false;
    }
    let mut i: usize = 0;
    while i < a.len()
        invariant
            a.len() == b.len(),
            i <= a.len(),
            forall|j: int| 0 <= j < i ==> a@[j]@ == b@[j]@,
        decreases a.len() - i,
    {
        if !same_text(a[i].as_str(), b[i].as_str()) {
            assert(views(a@)[i as int] != views(b@)[i as int]);
            return false;
        }
        i += 1;
    }
    assert(views(a@) =~= views(b@));
    true
}

/// Whether `list` holds the text `item`.
pub fn has_string(list: &Vec<String>, item: &str) -> (r: bool)
    ensures
        r == views(list@).contains(item@),
{
    let mut i: usize = 0;
    while i < list.len()
        invariant
            i <= list.len(),
            forall|j: int| 0 <= j < i ==> views(list@)[j] != item@,
        decreases list.len() - i,
    {
        if same_text(list[i].as_str(), item) {
            assert(views(list@)[i as int] == item@);
            return true;
        }
        i += 1;
    }
    false
}

} // verus!
