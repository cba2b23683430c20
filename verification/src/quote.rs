//! Identifier quoting.
//!
//! An identifier such as `schema.table` or `name AS alias` is cut into
//! words at periods and spaces. Each word loses the quote marks it came
//! with and gets the dialect's marks where the policy asks for them.

use vstd::prelude::*;
use vstd::string::*;
use crate::text::{
    append_chars, chars_of, copy_strings, eq_ignoring_case, join, push_char, same_ignoring_case,
    same_text, string_of, trim, trimmed, views,
};

verus! {

/// Which words get quote marks.
#[derive(Clone, Copy, Debug, PartialEq, Eq)]
pub enum QuotePolicy {
    /// Every word.
    QuotePolicyAlways,
    /// No word.
    QuotePolicyNone,
    /// The words that the quoter holds as reserved.
    QuotePolicyReserved,
}

/// The neutral quote mark, a backtick.
pub const COMMAN_QUOTE_MARK: u8 = 96;

/// The predicate that reserves no word.
pub fn always_no_reserve(_str: &String) -> (r: bool)
    ensures
        !r,
{
    false
}

/// The predicate that reserves every word.
pub fn always_reserve(_str: &String) -> (r: bool)
    ensures
        r,
{
    true
}

/// The quote marks of a dialect, its policy, and the words that it
/// reserves.
#[derive(Debug)]
pub struct Quoter {
    prefix: u8,
    suffix: u8,
    policy: QuotePolicy,
    reserved: Vec<String>,
}

/// What a quoter is made of.
pub struct QuoterView {
    pub prefix: u8,
    pub suffix: u8,
    pub policy: QuotePolicy,
    pub reserved: Seq<Seq<char>>,
}

impl View for Quoter {
    type V = QuoterView;

    closed spec fn view(&self) -> QuoterView {
        QuoterView {
            prefix: self.prefix,
            suffix: self.suffix,
            policy: self.policy,
            reserved: views(self.reserved@),
        }
    }
}

impl Clone for Quoter {
    fn clone(&self) -> (r: Self)
        ensures
            r@ == self@,
    {
        Quoter {
            prefix: self.prefix,
            suffix: self.suffix,
            policy: self.policy,
            reserved: copy_strings(&self.reserved),
        }
    }
}

/// Whether a word is among some words, whatever the case of the letters.
pub open spec fn is_listed(words: Seq<Seq<char>>, word: Seq<char>) -> bool {
    exists|k: int| 0 <= k < words.len() && same_ignoring_case(#[trigger] words[k], word)
}

/// Whether a quoter reserves a word: every word, no word, or the
/// words that it holds as reserved, as its policy says.
pub open spec fn reserves(q: QuoterView, word: Seq<char>) -> bool {
    match q.policy {
        QuotePolicy::QuotePolicyAlways => true,
        QuotePolicy::QuotePolicyNone => false,
        QuotePolicy::QuotePolicyReserved => is_listed(q.reserved, word),
    }
}

/// A quoter without marks writes words as they are.
pub open spec fn has_no_marks(q: QuoterView) -> bool {
    q.prefix == 0 && q.suffix == 0
}

/// Whether a word of two or more characters stands between `open` and `close`.
pub open spec fn is_wrapped(w: Seq<char>, open: char, close: char) -> bool {
    w.len() >= 2 && w[0] == open && w.last() == close
}

/// A word without the marks around it: backticks, or the quoter's own.
pub open spec fn bare_word(q: QuoterView, w: Seq<char>) -> Seq<char> {
    if is_wrapped(w, COMMAN_QUOTE_MARK as char, COMMAN_QUOTE_MARK as char) || is_wrapped(
        w,
        q.prefix as char,
        q.suffix as char,
    ) {
        w.subrange(1, w.len() - 1)
    } else {
        w
    }
}

/// The wildcard, which never gets marks.
pub open spec fn wildcard() -> Seq<char> {
    seq!['*']
}

/// One word as the quoter writes it.
pub open spec fn quoted_word(q: QuoterView, w: Seq<char>) -> Seq<char> {
    let word = bare_word(q, w);
    if !has_no_marks(q) && reserves(q, word) && word != wildcard() {
        seq![q.prefix as char] + word + seq![q.suffix as char]
    } else {
        word
    }
}

/// The first period or space at or after `i`, or the length.
pub open spec fn next_separator(v: Seq<char>, i: int) -> int
    decreases v.len() - i,
{
    if 0 <= i < v.len() && v[i] != '.' && v[i] != ' ' {
        next_separator(v, i + 1)
    } else {
        i
    }
}

/// The first position at or after `i` that holds no space, or the length.
pub open spec fn skip_spaces(v: Seq<char>, i: int) -> int
    decreases v.len() - i,
{
    if 0 <= i < v.len() && v[i] == ' ' {
        skip_spaces(v, i + 1)
    } else {
        i
    }
}

/// Whether the two characters at `k` spell `AS`, in either case.
pub open spec fn is_alias_keyword(v: Seq<char>, k: int) -> bool {
    0 <= k && k + 1 < v.len() && (v[k] == 'A' || v[k] == 'a') && (v[k + 1] == 'S' || v[k + 1]
        == 's')
}

/// Where the next word begins, seen from `start`: behind a period, at a
/// character that is no space, or behind a run of spaces and an `AS`
/// that follows them.
pub open spec fn word_start(v: Seq<char>, start: int) -> int {
    if start < 0 || start >= v.len() {
        v.len() as int
    } else if v[start] == '.' {
        start + 1
    } else if v[start] != ' ' {
        start
    } else {
        let k = skip_spaces(v, start);
        if k >= v.len() {
            v.len() as int
        } else if is_alias_keyword(v, k) {
            skip_spaces(v, k + 2)
        } else {
            k
        }
    }
}

/// The identifier from position `n` on, as the quoter writes it.
pub open spec fn quoted_from(q: QuoterView, v: Seq<char>, n: int) -> Seq<char>
    decreases v.len() - n,
{
    if n < 0 || n >= v.len() {
        Seq::empty()
    } else {
        let start = word_start(v, n);
        let lead = v.subrange(n, start);
        if start >= v.len() {
            lead
        } else {
            let end = next_separator(v, start);
            proof {
                lemma_scan(v, n);
            }
            lead + quoted_word(q, v.subrange(start, end)) + quoted_from(q, v, end)
        }
    }
}

/// A whole identifier as the quoter writes it.
pub open spec fn quoted(q: QuoterView, v: Seq<char>) -> Seq<char> {
    quoted_from(q, v, 0)
}

/// A text without the `c`s at its beginning.
pub open spec fn strip_leading(s: Seq<char>, c: char) -> Seq<char>
    decreases s.len(),
{
    if s.len() > 0 && s[0] == c {
        strip_leading(s.drop_first(), c)
    } else {
        s
    }
}

/// A text without the `c`s at its end.
pub open spec fn strip_trailing(s: Seq<char>, c: char) -> Seq<char>
    decreases s.len(),
{
    if s.len() > 0 && s.last() == c {
        strip_trailing(s.drop_last(), c)
    } else {
        s
    }
}

/// A text of two or more characters without the quoter's marks at its ends.
pub open spec fn unquoted(q: QuoterView, s: Seq<char>) -> Seq<char> {
    if s.len() < 2 {
        s
    } else {
        strip_trailing(strip_leading(s, q.prefix as char), q.suffix as char)
    }
}

/// The first backtick at or after `i`, or the length.
pub open spec fn next_mark(v: Seq<char>, i: int) -> int
    decreases v.len() - i,
{
    if 0 <= i < v.len() && v[i] != COMMAN_QUOTE_MARK as char {
        next_mark(v, i + 1)
    } else {
        i
    }
}

/// A word that stood between backticks, with the quoter's marks where
/// the policy reserves it.
pub open spec fn marked_word(q: QuoterView, word: Seq<char>) -> Seq<char> {
    if reserves(q, word) {
        seq![q.prefix as char] + word + seq![q.suffix as char]
    } else {
        word
    }
}

/// A statement from position `i` on with backtick quotes turned into the
/// quoter's marks. `in_literal` says whether `i` lies inside a string
/// literal between single quotes, where backticks stay.
pub open spec fn replaced_from(q: QuoterView, v: Seq<char>, i: int, in_literal: bool) -> Seq<char>
    decreases v.len() + 1 - i,
{
    if i < 0 || i >= v.len() {
        Seq::empty()
    } else if !in_literal && v[i] == COMMAN_QUOTE_MARK as char {
        let j = next_mark(v, i + 1);
        proof {
            lemma_next_mark(v, i + 1);
        }
        marked_word(q, v.subrange(i + 1, j)) + replaced_from(q, v, j + 1, false)
    } else {
        let flipped = if v[i] == '\'' {
            !in_literal
        } else {
            in_literal
        };
        seq![v[i]] + replaced_from(q, v, i + 1, flipped)
    }
}

/// A statement with backtick quotes turned into the quoter's marks.
pub open spec fn replaced(q: QuoterView, v: Seq<char>) -> Seq<char> {
    if has_no_marks(q) {
        v
    } else {
        replaced_from(q, v, 0, false)
    }
}

/// The quoted forms of the trimmed items, with `sep` between neighbours.
pub open spec fn quoted_list(q: QuoterView, items: Seq<Seq<char>>, sep: Seq<char>) -> Seq<char> {
    join(items.map_values(|s: Seq<char>| quoted(q, trimmed(s))), sep)
}

pub proof fn lemma_next_separator(v: Seq<char>, i: int)
    requires
        0 <= i <= v.len(),
    ensures
        i <= next_separator(v, i) <= v.len(),
        i < v.len() && v[i] != '.' && v[i] != ' ' ==> i < next_separator(v, i),
    decreases v.len() - i,
{
    if i < v.len() && v[i] != '.' && v[i] != ' ' {
        lemma_next_separator(v, i + 1);
    }
}

pub proof fn lemma_skip_spaces(v: Seq<char>, i: int)
    requires
        0 <= i <= v.len(),
    ensures
        i <= skip_spaces(v, i) <= v.len(),
        i < v.len() && v[i] == ' ' ==> i < skip_spaces(v, i),
        skip_spaces(v, i) < v.len() ==> v[skip_spaces(v, i)] != ' ',
    decreases v.len() - i,
{
    if i < v.len() && v[i] == ' ' {
        lemma_skip_spaces(v, i + 1);
    }
}

pub proof fn lemma_next_mark(v: Seq<char>, i: int)
    requires
        0 <= i <= v.len(),
    ensures
        i <= next_mark(v, i) <= v.len(),
    decreases v.len() - i,
{
    if i < v.len() && v[i] != COMMAN_QUOTE_MARK as char {
        lemma_next_mark(v, i + 1);
    }
}

/// A word begins at or after the place it is looked for from, and a
/// step of the scan always moves on.
pub proof fn lemma_scan(v: Seq<char>, n: int)
    requires
        0 <= n < v.len(),
    ensures
        n <= word_start(v, n) <= v.len(),
        word_start(v, n) < v.len() ==> word_start(v, n) <= next_separator(v, word_start(v, n))
            <= v.len(),
        word_start(v, n) < v.len() ==> n < next_separator(v, word_start(v, n)),
{
    lemma_skip_spaces(v, n);
    let k = skip_spaces(v, n);
    if k < v.len() && is_alias_keyword(v, k) {
        lemma_skip_spaces(v, k + 2);
    }
    let start = word_start(v, n);
    if start < v.len() {
        lemma_next_separator(v, start);
    }
}

impl Quoter {
    /// A quoter with the given marks and policy, which holds no word
    /// as reserved.
    pub fn new(prefix: u8, suffix: u8, policy: QuotePolicy) -> (r: Self)
        ensures
            r@ == (QuoterView { prefix, suffix, policy, reserved: Seq::empty() }),
    {
        let r = Self { prefix, suffix, policy, reserved: Vec::new() };
        assert(r@.reserved =~= Seq::<Seq<char>>::empty());
        r
    }

    /// A quoter with the given marks that writes them round the words
    /// of `reserved`, whatever the case of their letters, and round no
    /// other word.
    pub fn with_reserved_words(prefix: u8, suffix: u8, reserved: Vec<String>) -> (r: Self)
        ensures
            r@ == (QuoterView {
                prefix,
                suffix,
                policy: QuotePolicy::QuotePolicyReserved,
                reserved: views(reserved@),
            }),
    {
        Self { prefix, suffix, policy: QuotePolicy::QuotePolicyReserved, reserved }
    }

    /// The quoter of the neutral convention: backticks round every word.
    pub fn common_quoter() -> (r: Self)
        ensures
            r@ == (QuoterView {
                prefix: COMMAN_QUOTE_MARK,
                suffix: COMMAN_QUOTE_MARK,
                policy: QuotePolicy::QuotePolicyAlways,
                reserved: Seq::empty(),
            }),
    {
        Quoter::new(COMMAN_QUOTE_MARK, COMMAN_QUOTE_MARK, QuotePolicy::QuotePolicyAlways)
    }

    /// Whether the quoter has no marks.
    pub fn is_empty(&self) -> (r: bool)
        ensures
            r == has_no_marks(self@),
    {
        self.prefix == 0 && self.suffix == 0
    }

    /// Whether the quoter reserves `word`.
    pub fn is_reserved(&self, word: &String) -> (r: bool)
        ensures
            r == reserves(self@, word@),
    {
        match self.policy {
            QuotePolicy::QuotePolicyNone => always_no_reserve(word),
            QuotePolicy::QuotePolicyAlways => always_reserve(word),
            QuotePolicy::QuotePolicyReserved => {
                let ghost words = views(self.reserved@);
                let mut i: usize = 0;
                while i < self.reserved.len()
                    invariant
                        i <= self.reserved.len(),
                        words == views(self.reserved@),
                        self@.reserved == words,
                        self@.policy == QuotePolicy::QuotePolicyReserved,
                        forall|k: int| 0 <= k < i ==> !same_ignoring_case(#[trigger] words[k], word@),
                    decreases self.reserved.len() - i,
                {
                    assert(words[i as int] == self.reserved@[i as int]@);
                    if eq_ignoring_case(self.reserved[i].as_str(), word.as_str()) {
                        assert(same_ignoring_case(words[i as int], word@));
                        return true;
                    }
                    i += 1;
                }
                false
            },
        }
    }

    /// The identifier `s` with its words quoted.
    pub fn quote(&self, s: &String) -> (r: String)
        ensures
            r@ == quoted(self@, s@),
    {
        let mut buf = String::new();
        self.quote_to(&mut buf, s);
        assert(buf@ =~= quoted(self@, s@));
        buf
    }

    /// The items of `a`, trimmed and quoted, with `sep` between neighbours.
    pub fn join(&self, a: Vec<String>, sep: &String) -> (r: String)
        ensures
            r@ == quoted_list(self@, views(a@), sep@),
    {
        let mut buf = String::new();
        self.join_write(&mut buf, a, sep);
        assert(buf@ =~= quoted_list(self@, views(a@), sep@));
        buf
    }

    /// Appends to `b` the items of `a`, trimmed and quoted, with `sep`
    /// between neighbours.
    pub fn join_write(&self, b: &mut String, a: Vec<String>, sep: &String)
        ensures
            final(b)@ == old(b)@ + quoted_list(self@, views(a@), sep@),
    {
        let ghost items = views(a@).map_values(|s: Seq<char>| quoted(self@, trimmed(s)));
        let mut n: usize = 0;
        proof {
            assert(b@ =~= old(b)@ + join(items.take(0), sep@));
        }
        while n < a.len()
            invariant
                n <= a.len(),
                items == views(a@).map_values(|s: Seq<char>| quoted(self@, trimmed(s))),
                b@ == old(b)@ + join(items.take(n as int), sep@),
            decreases a.len() - n,
        {
            if n > 0 {
                b.append(sep.as_str());
            }
            let item = trim(a[n].as_str());
            self.quote_to(b, &item);
            proof {
                let next = items.take(n + 1);
                assert(next.drop_last() =~= items.take(n as int));
                assert(next.last() == quoted(self@, trimmed(a@[n as int]@)));
                assert(b@ =~= old(b)@ + join(next, sep@));
            }
            n += 1;
        }
        proof {
            assert(items.take(a.len() as int) =~= items);
        }
    }

    /// Removes the quoter's marks from the two ends of `s`; a text of
    /// fewer than two characters is returned as it is.
    pub fn trim(&self, s: String) -> (r: String)
        ensures
            r@ == unquoted(self@, s@),
    {
        let v = chars_of(s.as_str());
        if v.len() < 2 {
            return s;
        }
        let open = self.prefix as char;
        let close = self.suffix as char;
        let mut from: usize = 0;
        proof {
            assert(v@.subrange(0, v.len() as int) =~= v@);
        }
        while from < v.len() && v[from] == open
            invariant
                from <= v.len(),
                strip_leading(v@, open) == strip_leading(v@.subrange(from as int, v.len() as int), open),
            decreases v.len() - from,
        {
            proof {
                let rest = v@.subrange(from as int, v.len() as int);
                assert(rest.drop_first() =~= v@.subrange(from + 1, v.len() as int));
            }
            from += 1;
        }
        let ghost kept = v@.subrange(from as int, v.len() as int);
        proof {
            if from < v.len() {
                assert(kept[0] == v@[from as int]);
            }
            assert(strip_leading(v@, open) == kept);
            assert(kept.subrange(0, kept.len() as int) =~= kept);
        }
        let mut to: usize = v.len();
        while to > from && v[to - 1] == close
            invariant
                from <= to <= v.len(),
                kept == v@.subrange(from as int, v.len() as int),
                strip_trailing(kept, close) == strip_trailing(kept.subrange(0, to - from), close),
            decreases to,
        {
            proof {
                let rest = kept.subrange(0, to - from);
                assert(rest.last() == v@[to - 1]);
                assert(rest.drop_last() =~= kept.subrange(0, to - from - 1));
            }
            to -= 1;
        }
        proof {
            let rest = kept.subrange(0, to - from);
            if to > from {
                assert(rest.last() == v@[to - 1]);
            }
            assert(rest =~= v@.subrange(from as int, to as int));
        }
        string_of(&v, from, to)
    }

    /// Appends to `buf` the identifier `value` with its words quoted.
    pub fn quote_to(&self, buf: &mut String, value: &String)
        ensures
            final(buf)@ == old(buf)@ + quoted(self@, value@),
    {
        let v = chars_of(value.as_str());
        let mut n: usize = 0;
        proof {
            assert(buf@ + quoted_from(self@, v@, 0) =~= old(buf)@ + quoted(self@, value@));
        }
        while n < v.len()
            invariant
                n <= v.len(),
                v@ == value@,
                buf@ + quoted_from(self@, v@, n as int) == old(buf)@ + quoted(self@, value@),
            decreases v.len() - n,
        {
            proof {
                lemma_scan(v@, n as int);
            }
            let ghost before = buf@;
            let start = Quoter::find_start(&v, n);
            if start > n {
                append_chars(buf, &v, n, start);
            }
            proof {
                assert(buf@ =~= before + v@.subrange(n as int, start as int));
            }
            if start == v.len() {
                proof {
                    assert(buf@ =~= old(buf)@ + quoted(self@, value@));
                }
                return ;
            }
            let next_end = Quoter::find_word(&v, start);
            let word = string_of(&v, start, next_end);
            self.quote_word_to(buf, &word);
            proof {
                assert(buf@ + quoted_from(self@, v@, next_end as int) =~= before + quoted_from(
                    self@,
                    v@,
                    n as int,
                ));
            }
            n = next_end;
        }
        proof {
            assert(buf@ =~= old(buf)@ + quoted(self@, value@));
        }
    }

    /// Where the word that begins at `start` ends.
    fn find_word(v: &Vec<char>, start: usize) -> (r: usize)
        requires
            start <= v.len(),
        ensures
            r == next_separator(v@, start as int),
            start <= r <= v.len(),
    {
        let mut n: usize = start;
        while n < v.len() && v[n] != '.' && v[n] != ' '
            invariant
                start <= n <= v.len(),
                next_separator(v@, start as int) == next_separator(v@, n as int),
            decreases v.len() - n,
        {
            n += 1;
        }
        n
    }

    /// The first position at or after `k` that holds no space.
    fn find_non_space(v: &Vec<char>, k: usize) -> (r: usize)
        requires
            k <= v.len(),
        ensures
            r == skip_spaces(v@, k as int),
            k <= r <= v.len(),
    {
        let mut n: usize = k;
        while n < v.len() && v[n] == ' '
            invariant
                k <= n <= v.len(),
                skip_spaces(v@, k as int) == skip_spaces(v@, n as int),
            decreases v.len() - n,
        {
            n += 1;
        }
        n
    }

    /// Where the next word begins, seen from `start`.
    fn find_start(v: &Vec<char>, start: usize) -> (r: usize)
        requires
            start <= v.len(),
        ensures
            r == word_start(v@, start as int),
            start <= r <= v.len(),
    {
        if start >= v.len() {
            return v.len();
        }
        let ch = v[start];
        if ch == '.' {
            return start + 1;
        }
        if ch != ' ' {
            return start;
        }
        let mut k = Quoter::find_non_space(v, start);
        if k >= v.len() {
            return v.len();
        }
        if k + 1 < v.len() && (v[k] == 'A' || v[k] == 'a') && (v[k + 1] == 'S' || v[k + 1] == 's') {
            k += 2;
            return Quoter::find_non_space(v, k);
        }
        k
    }

    /// Appends one word to `buf`: without the marks it came with, and
    /// with the quoter's marks where the policy reserves it. The wildcard
    /// `*` never gets marks.
    fn quote_word_to(&self, buf: &mut String, word: &String)
        ensures
            final(buf)@ == old(buf)@ + quoted_word(self@, word@),
    {
        let w = chars_of(word.as_str());
        let mark = COMMAN_QUOTE_MARK as char;
        let open = self.prefix as char;
        let close = self.suffix as char;
        let len = w.len();
        let wrapped = len >= 2 && ((w[0] == mark && w[len - 1] == mark) || (w[0] == open && w[len
            - 1] == close));
        let real_word = if wrapped {
            string_of(&w, 1, len - 1)
        } else {
            string_of(&w, 0, len)
        };
        proof {
            assert(w@.subrange(0, len as int) =~= w@);
            assert(real_word@ == bare_word(self@, word@));
            reveal_strlit("*");
            assert("*"@ =~= wildcard());
        }
        if self.is_empty() {
            buf.append(real_word.as_str());
            return ;
        }
        let marks = self.is_reserved(&real_word) && !same_text(real_word.as_str(), "*");
        if marks {
            push_char(buf, open);
        }
        buf.append(real_word.as_str());
        if marks {
            push_char(buf, close);
        }
        proof {
            assert(final(buf)@ =~= old(buf)@ + quoted_word(self@, word@));
        }
    }

    /// Turns the backtick quotes of a statement into the quoter's marks.
    /// Backticks inside a string literal between single quotes stay.
    pub fn replace(&self, sql: &String) -> (r: String)
        ensures
            r@ == replaced(self@, sql@),
    {
        if self.is_empty() {
            return sql.clone();
        }
        let mark = COMMAN_QUOTE_MARK as char;
        let v = chars_of(sql.as_str());
        let mut buf = String::new();
        let mut begin_single_quote: bool = false;
        let mut n: usize = 0;
        proof {
            assert(buf@ + replaced_from(self@, v@, 0, false) =~= replaced(self@, sql@));
        }
        while n < v.len()
            invariant
                n <= v.len(),
                v@ == sql@,
                mark == COMMAN_QUOTE_MARK as char,
                !has_no_marks(self@),
                buf@ + replaced_from(self@, v@, n as int, begin_single_quote) == replaced(
                    self@,
                    sql@,
                ),
            decreases v.len() - n,
        {
            let ch = v[n];
            let ghost before = buf@;
            if !begin_single_quote && ch == mark {
                let mut j: usize = n + 1;
                while j < v.len() && v[j] != mark
                    invariant
                        n + 1 <= j <= v.len(),
                        mark == COMMAN_QUOTE_MARK as char,
                        next_mark(v@, n + 1) == next_mark(v@, j as int),
                    decreases v.len() - j,
                {
                    j += 1;
                }
                let word = string_of(&v, n + 1, j);
                let is_reserved = self.is_reserved(&word);
                if is_reserved {
                    push_char(&mut buf, self.prefix as char);
                }
                buf.append(word.as_str());
                if is_reserved {
                    push_char(&mut buf, self.suffix as char);
                }
                proof {
                    assert(buf@ =~= before + marked_word(self@, word@));
                    assert(buf@ + replaced_from(self@, v@, j + 1, false) =~= before
                        + replaced_from(self@, v@, n as int, begin_single_quote));
                }
                if j >= v.len() {
                    return buf;
                }
                n = j + 1;
            } else {
                let ghost was = begin_single_quote;
                if ch == '\'' {
                    begin_single_quote = !begin_single_quote;
                }
                push_char(&mut buf, ch);
                proof {
                    assert(buf@ + replaced_from(self@, v@, n + 1, begin_single_quote) =~= before
                        + replaced_from(self@, v@, n as int, was));
                }
                n += 1;
            }
        }
        proof {
            assert(buf@ =~= replaced(self@, sql@));
        }
        buf
    }
}

} // verus!
