//! Quoting is idempotent: an identifier that was quoted once comes out
//! of the quoter unchanged.

use vstd::prelude::*;
use crate::quote::{
    bare_word, has_no_marks, is_alias_keyword, is_wrapped, lemma_scan, next_separator, quoted,
    quoted_from, quoted_word, reserves, skip_spaces, wildcard, word_start, QuoterView,
};

verus! {

/// Whether a character parts the words of an identifier.
pub open spec fn parts_words(c: char) -> bool {
    c == '.' || c == ' '
}

/// Whether a character can stand at the head of a written word
/// without being taken for something else: it parts no words, and no
/// `AS` begins with it.
pub open spec fn heads_a_word(c: char) -> bool {
    !parts_words(c) && c != 'A' && c != 'a'
}

/// Whether the quoter writes its marks round every word, and the marks
/// cannot be taken for anything but marks.
pub open spec fn marks_every_word(q: QuoterView) -> bool {
    &&& !has_no_marks(q)
    &&& q.policy is QuotePolicyAlways
    &&& heads_a_word(q.prefix as char)
    &&& !parts_words(q.suffix as char)
}

/// A word that the quoter has written with its marks is written the
/// same again.
pub proof fn law_quoted_word_is_stable(q: QuoterView, w: Seq<char>)
    requires
        !has_no_marks(q),
        reserves(q, bare_word(q, w)),
    ensures
        quoted_word(q, quoted_word(q, w)) == quoted_word(q, w),
{
    let word = bare_word(q, w);
    let once = quoted_word(q, w);
    if word == wildcard() {
        assert(once == word);
        assert(bare_word(q, once) == once);
    } else {
        let open = q.prefix as char;
        let close = q.suffix as char;
        assert(once == seq![open] + word + seq![close]);
        assert(once.len() == word.len() + 2);
        assert(once[0] == open);
        assert(once.last() == close);
        assert(is_wrapped(once, open, close));
        assert(once.subrange(1, once.len() - 1) =~= word);
        assert(bare_word(q, once) == word);
    }
}

proof fn lemma_next_separator_stops(v: Seq<char>, i: int)
    requires
        0 <= i <= v.len(),
    ensures
        i <= next_separator(v, i) <= v.len(),
        forall|j: int| i <= j < next_separator(v, i) ==> !parts_words(#[trigger] v[j]),
        next_separator(v, i) < v.len() ==> parts_words(v[next_separator(v, i)]),
    decreases v.len() - i,
{
    if i < v.len() && v[i] != '.' && v[i] != ' ' {
        lemma_next_separator_stops(v, i + 1);
    }
}

proof fn lemma_skip_spaces_stops(v: Seq<char>, i: int)
    requires
        0 <= i <= v.len(),
    ensures
        i <= skip_spaces(v, i) <= v.len(),
        forall|j: int| i <= j < skip_spaces(v, i) ==> (#[trigger] v[j]) == ' ',
        skip_spaces(v, i) < v.len() ==> v[skip_spaces(v, i)] != ' ',
    decreases v.len() - i,
{
    if i < v.len() && v[i] == ' ' {
        lemma_skip_spaces_stops(v, i + 1);
    }
}

proof fn lemma_next_separator_is(u: Seq<char>, i: int, j: int)
    requires
        0 <= i <= j <= u.len(),
        forall|k: int| i <= k < j ==> !parts_words(#[trigger] u[k]),
        j < u.len() ==> parts_words(u[j]),
    ensures
        next_separator(u, i) == j,
    decreases j - i,
{
    if i < j {
        assert(!parts_words(u[i]));
        lemma_next_separator_is(u, i + 1, j);
    }
}

proof fn lemma_skip_spaces_is(u: Seq<char>, i: int, j: int)
    requires
        0 <= i <= j <= u.len(),
        forall|k: int| i <= k < j ==> (#[trigger] u[k]) == ' ',
        j < u.len() ==> u[j] != ' ',
    ensures
        skip_spaces(u, i) == j,
    decreases j - i,
{
    if i < j {
        assert(u[i] == ' ');
        lemma_skip_spaces_is(u, i + 1, j);
    }
}

/// A written word is not empty, begins with a character that can head
/// a word, and holds no character that parts words, where the word it
/// was written from held none.
proof fn lemma_written_word(q: QuoterView, w: Seq<char>)
    requires
        marks_every_word(q),
        forall|j: int| 0 <= j < w.len() ==> !parts_words(#[trigger] w[j]),
    ensures
        quoted_word(q, w).len() > 0,
        heads_a_word(quoted_word(q, w)[0]),
        forall|j: int| 0 <= j < quoted_word(q, w).len() ==> !parts_words(#[trigger] quoted_word(q, w)[j]),
{
    let word = bare_word(q, w);
    let once = quoted_word(q, w);
    assert forall|j: int| 0 <= j < word.len() implies !parts_words(#[trigger] word[j]) by {
        if word != w {
            assert(word[j] == w[j + 1]);
        }
    }
    if word == wildcard() {
        assert(once == word);
        assert(once[0] == '*');
    } else {
        let open = q.prefix as char;
        let close = q.suffix as char;
        assert(once == seq![open] + word + seq![close]);
        assert(once[0] == open);
        assert forall|j: int| 0 <= j < once.len() implies !parts_words(#[trigger] once[j]) by {
            if j == 0 {
            } else if j <= word.len() {
                assert(once[j] == word[j - 1]);
            } else {
                assert(once[j] == close);
            }
        }
    }
}

/// Where the lead in front of a word of `v` is copied into `u` at
/// `base`, and what follows it in `u` can head a word, the word in `u`
/// begins right behind the copy.
proof fn lemma_word_start_of_copy(v: Seq<char>, n: int, u: Seq<char>, base: int)
    requires
        0 <= n < v.len(),
        n == 0 || parts_words(v[n]),
        0 <= base,
        base + (word_start(v, n) - n) <= u.len(),
        forall|j: int| 0 <= j < word_start(v, n) - n ==> (#[trigger] u[base + j]) == v[n + j],
        base + (word_start(v, n) - n) < u.len() ==> heads_a_word(u[base + (word_start(v, n) - n)]),
        word_start(v, n) == n ==> base < u.len(),
    ensures
        word_start(u, base) == base + (word_start(v, n) - n),
{
    lemma_scan(v, n);
    let start = word_start(v, n);
    let len = start - n;
    if v[n] == '.' {
        assert(u[base + 0] == v[n + 0]);
    } else if v[n] != ' ' {
        assert(len == 0);
        assert(heads_a_word(u[base]));
    } else {
        lemma_skip_spaces_stops(v, n);
        let k = skip_spaces(v, n);
        assert(u[base + 0] == v[n + 0]);
        if k >= v.len() {
            assert(len == v.len() - n);
            assert forall|j: int| base <= j < base + len implies (#[trigger] u[j]) == ' ' by {
                assert(u[base + (j - base)] == v[n + (j - base)]);
            }
            lemma_skip_spaces_is(u, base, base + len);
        } else if is_alias_keyword(v, k) {
            lemma_skip_spaces_stops(v, k + 2);
            assert(k + 2 <= start);
            assert forall|j: int| base <= j < base + (k - n) implies (#[trigger] u[j]) == ' ' by {
                assert(u[base + (j - base)] == v[n + (j - base)]);
            }
            assert(u[base + (k - n)] == v[n + (k - n)]);
            assert(u[base + (k + 1 - n)] == v[n + (k + 1 - n)]);
            lemma_skip_spaces_is(u, base, base + (k - n));
            assert(is_alias_keyword(u, base + (k - n)));
            assert forall|j: int| base + (k - n) + 2 <= j < base + len implies (#[trigger] u[j])
                == ' ' by {
                assert(u[base + (j - base)] == v[n + (j - base)]);
            }
            lemma_skip_spaces_is(u, base + (k - n) + 2, base + len);
        } else {
            assert(start == k);
            assert forall|j: int| base <= j < base + len implies (#[trigger] u[j]) == ' ' by {
                assert(u[base + (j - base)] == v[n + (j - base)]);
            }
            lemma_skip_spaces_is(u, base, base + len);
            assert(!is_alias_keyword(u, base + len));
        }
    }
}

/// What the quoter writes from a place where a word may begin starts
/// with the character that stands there, if anything is written.
proof fn lemma_written_head(q: QuoterView, v: Seq<char>, n: int)
    requires
        0 <= n <= v.len(),
        n < v.len() ==> parts_words(v[n]),
    ensures
        n >= v.len() ==> quoted_from(q, v, n).len() == 0,
        n < v.len() ==> quoted_from(q, v, n).len() > 0 && parts_words(quoted_from(q, v, n)[0]),
{
    if n < v.len() {
        lemma_scan(v, n);
        let start = word_start(v, n);
        lemma_skip_spaces_stops(v, n);
        assert(start > n);
        let lead = v.subrange(n, start);
        assert(lead[0] == v[n]);
        if start < v.len() {
            let end = next_separator(v, start);
            assert(quoted_from(q, v, n) == lead + quoted_word(q, v.subrange(start, end))
                + quoted_from(q, v, end));
            assert((lead + quoted_word(q, v.subrange(start, end)) + quoted_from(q, v, end))[0]
                == lead[0]);
        }
    }
}

/// What the quoter wrote from the place `n` of `v` on is written the
/// same again, whatever stands in front of it.
proof fn lemma_written_again(q: QuoterView, v: Seq<char>, n: int, front: Seq<char>)
    requires
        marks_every_word(q),
        0 <= n <= v.len(),
        n == 0 || n == v.len() || parts_words(v[n]),
    ensures
        quoted_from(q, front + quoted_from(q, v, n), front.len() as int) == quoted_from(q, v, n),
    decreases v.len() - n,
{
    let written = quoted_from(q, v, n);
    let u = front + written;
    let base = front.len() as int;
    if n >= v.len() {
        assert(u =~= front);
        assert(quoted_from(q, u, base) =~= written);
    } else {
        lemma_scan(v, n);
        let start = word_start(v, n);
        let lead = v.subrange(n, start);
        let len = start - n;
        if start >= v.len() {
            assert(written == lead);
            assert(u.len() == base + len);
            assert forall|j: int| 0 <= j < len implies (#[trigger] u[base + j]) == v[n + j] by {
                assert(u[base + j] == lead[j]);
            }
            lemma_word_start_of_copy(v, n, u, base);
            assert(u.subrange(base, u.len() as int) =~= lead);
            assert(quoted_from(q, u, base) == lead);
        } else {
            let end = next_separator(v, start);
            lemma_next_separator_stops(v, start);
            let w = v.subrange(start, end);
            let word = quoted_word(q, w);
            let rest = quoted_from(q, v, end);
            assert(written == lead + word + rest);
            assert forall|j: int| 0 <= j < w.len() implies !parts_words(#[trigger] w[j]) by {
                assert(w[j] == v[start + j]);
            }
            lemma_written_word(q, w);
            lemma_written_head(q, v, end);
            assert forall|j: int| 0 <= j < len implies (#[trigger] u[base + j]) == v[n + j] by {
                assert(u[base + j] == lead[j]);
            }
            assert(u[base + len] == word[0]);
            lemma_word_start_of_copy(v, n, u, base);
            assert(word_start(u, base) == base + len);
            assert forall|k: int| base + len <= k < base + len + word.len() implies !parts_words(
                #[trigger] u[k],
            ) by {
                assert(u[k] == word[k - base - len]);
            }
            if rest.len() > 0 {
                assert(u[base + len + word.len()] == rest[0]);
            }
            lemma_next_separator_is(u, base + len, base + len + word.len());
            assert(u.subrange(base, base + len) =~= lead);
            assert(u.subrange(base + len, base + len + word.len()) =~= word);
            law_quoted_word_is_stable(q, w);
            let longer = front + lead + word;
            lemma_written_again(q, v, end, longer);
            assert(longer + rest =~= u);
            assert(quoted_from(q, u, base + len + word.len()) == rest);
            assert(quoted_from(q, u, base) == lead + word + rest);
        }
    }
}

/// Quoting is idempotent. Where the quoter writes its marks round
/// every word, and its marks part no words and begin no `AS`, an
/// identifier that it has quoted is quoted the same again.
pub proof fn law_quoting_is_idempotent(q: QuoterView, v: Seq<char>)
    requires
        marks_every_word(q),
    ensures
        quoted(q, quoted(q, v)) == quoted(q, v),
{
    lemma_written_again(q, v, 0, Seq::empty());
    assert(Seq::<char>::empty() + quoted(q, v) =~= quoted(q, v));
}

} // verus!
