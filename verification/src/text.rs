//! Character-level text handling: reading the characters of a string and
//! trimming runs of characters from its ends.

use vstd::prelude::*;

verus! {

/// The character that may surround a path typed or pasted at a prompt.
pub const QUOTE: char = '"';

/// Whether `c` is white space: one of the code points that carry the Unicode
/// property `White_Space`, which are the ones that `char::is_whitespace`
/// accepts.
pub open spec fn is_white_space(c: char) -> bool {
    ||| '\u{9}' <= c <= '\u{d}'
    ||| c == ' '
    ||| c == '\u{85}'
    ||| c == '\u{a0}'
    ||| c == '\u{1680}'
    ||| '\u{2000}' <= c <= '\u{200a}'
    ||| c == '\u{2028}'
    ||| c == '\u{2029}'
    ||| c == '\u{202f}'
    ||| c == '\u{205f}'
    ||| c == '\u{3000}'
}

/// A set of characters that can be trimmed from the ends of a text.
#[derive(Clone, Copy, Debug, PartialEq, Eq, Structural)]
pub enum CharClass {
    /// The double quote alone.
    Quote,
    /// Every white-space character.
    Whitespace,
}

impl CharClass {
    /// Whether `c` belongs to the class.
    pub open spec fn has(self, c: char) -> bool {
        match self {
            CharClass::Quote => c == QUOTE,
            CharClass::Whitespace => is_white_space(c),
        }
    }

    /// Whether `c` belongs to the class.
    pub fn contains(self, c: char) -> (found: bool)
        ensures
            found == self.has(c),
    {
        match self {
            CharClass::Quote => c == QUOTE,
            CharClass::Whitespace => {
                ('\u{9}' <= c && c <= '\u{d}') || c == ' ' || c == '\u{85}' || c == '\u{a0}' || c
                    == '\u{1680}' || ('\u{2000}' <= c && c <= '\u{200a}') || c == '\u{2028}' || c
                    == '\u{2029}' || c == '\u{202f}' || c == '\u{205f}' || c == '\u{3000}'
            },
        }
    }
}

/// `s` without its longest prefix made of characters of `class`.
pub open spec fn strip_leading(s: Seq<char>, class: CharClass) -> Seq<char>
    decreases s.len(),
{
    if s.len() > 0 && class.has(s[0]) {
        strip_leading(s.drop_first(), class)
    } else {
        s
    }
}

/// `s` without its longest suffix made of characters of `class`.
pub open spec fn strip_trailing(s: Seq<char>, class: CharClass) -> Seq<char>
    decreases s.len(),
{
    if s.len() > 0 && class.has(s.last()) {
        strip_trailing(s.drop_last(), class)
    } else {
        s
    }
}

/// `s` with the characters of `class` removed from both ends.
pub open spec fn strip_both(s: Seq<char>, class: CharClass) -> Seq<char> {
    strip_trailing(strip_leading(s, class), class)
}

/// `s` without the double quotes at its ends.
pub open spec fn unquoted(s: Seq<char>) -> Seq<char> {
    strip_both(s, CharClass::Quote)
}

/// `s` without the white space at its ends.
pub open spec fn trimmed(s: Seq<char>) -> Seq<char> {
    strip_both(s, CharClass::Whitespace)
}

/// Whether `s` ends with `suffix`.
pub open spec fn ends_with(s: Seq<char>, suffix: Seq<char>) -> bool {
    suffix.len() <= s.len() && s.subrange(s.len() - suffix.len(), s.len() as int) == suffix
}

/// Whether `s` begins with `prefix`.
pub open spec fn starts_with(s: Seq<char>, prefix: Seq<char>) -> bool {
    prefix.len() <= s.len() && s.subrange(0, prefix.len() as int) == prefix
}

/// `s` with `suffix` removed from its end as many times as it stands there.
pub open spec fn strip_suffix_repeated(s: Seq<char>, suffix: Seq<char>) -> Seq<char>
    decreases s.len(),
{
    if suffix.len() > 0 && ends_with(s, suffix) {
        strip_suffix_repeated(s.subrange(0, s.len() - suffix.len()), suffix)
    } else {
        s
    }
}

/// Skipping `k` leading characters of the class does not change what is
/// left after stripping.
proof fn lemma_strip_leading_skips(s: Seq<char>, class: CharClass, k: int)
    requires
        0 <= k <= s.len(),
        forall|i: int| 0 <= i < k ==> class.has(s[i]),
    ensures
        strip_leading(s, class) == strip_leading(s.subrange(k, s.len() as int), class),
    decreases k,
{
    if k == 0 {
        assert(s.subrange(0, s.len() as int) =~= s);
    } else {
        lemma_strip_leading_skips(s.drop_first(), class, k - 1);
        assert(s.drop_first().subrange(k - 1, s.len() - 1) =~= s.subrange(k, s.len() as int));
    }
}

/// Dropping the trailing characters from `k` on, all of the class, does not
/// change what is left after stripping.
proof fn lemma_strip_trailing_skips(s: Seq<char>, class: CharClass, k: int)
    requires
        0 <= k <= s.len(),
        forall|i: int| k <= i < s.len() ==> class.has(s[i]),
    ensures
        strip_trailing(s, class) == strip_trailing(s.subrange(0, k), class),
    decreases s.len() - k,
{
    if k == s.len() {
        assert(s.subrange(0, k) =~= s);
    } else {
        lemma_strip_trailing_skips(s.drop_last(), class, k);
        assert(s.drop_last().subrange(0, k) =~= s.subrange(0, k));
    }
}

/// What stripping both ends leaves is a stretch of the text that neither
/// begins nor ends with a character of the class, and everything outside of
/// it belongs to the class.
pub proof fn lemma_strip_both_is_the_core(s: Seq<char>, class: CharClass) -> (bounds: (int, int))
    ensures
        0 <= bounds.0 <= bounds.1 <= s.len(),
        strip_both(s, class) == s.subrange(bounds.0, bounds.1),
        forall|i: int| 0 <= i < bounds.0 ==> class.has(s[i]),
        forall|i: int| bounds.1 <= i < s.len() ==> class.has(s[i]),
        bounds.0 < bounds.1 ==> !class.has(s[bounds.0]) && !class.has(s[bounds.1 - 1]),
    decreases s.len(),
{
    if s.len() > 0 && class.has(s[0]) {
        let inner = lemma_strip_both_is_the_core(s.drop_first(), class);
        let bounds = (inner.0 + 1, inner.1 + 1);
        assert(s.drop_first().subrange(inner.0, inner.1) =~= s.subrange(bounds.0, bounds.1));
        assert forall|i: int| 0 <= i < bounds.0 implies class.has(s[i]) by {
            if i > 0 {
                assert(s[i] == s.drop_first()[i - 1]);
            }
        }
        assert forall|i: int| bounds.1 <= i < s.len() implies class.has(s[i]) by {
            assert(s[i] == s.drop_first()[i - 1]);
        }
        bounds
    } else if s.len() > 0 && class.has(s.last()) {
        assert(strip_leading(s, class) == s);
        let inner = lemma_strip_both_is_the_core(s.drop_last(), class);
        assert(strip_leading(s.drop_last(), class) == s.drop_last()) by {
            if s.drop_last().len() > 0 {
                assert(s.drop_last()[0] == s[0]);
            }
        }
        assert(s.drop_last().subrange(inner.0, inner.1) =~= s.subrange(inner.0, inner.1));
        assert forall|i: int| inner.1 <= i < s.len() implies class.has(s[i]) by {
            if i < s.len() - 1 {
                assert(s[i] == s.drop_last()[i]);
            }
        }
        inner
    } else {
        assert(s.subrange(0, s.len() as int) =~= s);
        (0, s.len() as int)
    }
}

/// The characters of `s`, in order.
pub fn to_chars(s: &str) -> (chars: Vec<char>)
    ensures
        chars@ == s@,
{
    let mut chars: Vec<char> = Vec::new();
    for c in it: s.chars()
        invariant
            it.seq() == s@,
            chars@ == s@.take(it.index() as int),
    {
        chars.push(c);
        assert(s@.take(it.index() + 1) =~= s@.take(it.index() as int).push(c));
    }
    assert(s@.take(s@.len() as int) =~= s@);
    chars
}

/// Removes the characters of `class` from both ends of `text`.
pub fn strip<'a>(text: &'a str, class: CharClass) -> (stripped: &'a str)
    ensures
        stripped@ == strip_both(text@, class),
{
    let chars = to_chars(text);
    let n: usize = chars.len();
    let mut from: usize = 0;
    while from < n && class.contains(chars[from])
        invariant
            from <= n,
            n == text@.len(),
            chars@ == text@,
            forall|i: int| 0 <= i < from ==> class.has(text@[i]),
        decreases n - from,
    {
        from += 1;
    }
    let mut to: usize = n;
    while to > from && class.contains(chars[to - 1])
        invariant
            from <= to <= n,
            n == text@.len(),
            chars@ == text@,
            forall|i: int| to <= i < n ==> class.has(text@[i]),
        decreases to,
    {
        to -= 1;
    }
    proof {
        let rest = text@.subrange(from as int, n as int);
        lemma_strip_leading_skips(text@, class, from as int);
        assert(strip_leading(text@, class) == rest);
        lemma_strip_trailing_skips(rest, class, to - from);
        assert(rest.subrange(0, to - from) =~= text@.subrange(from as int, to as int));
    }
    text.substring_char(from, to)
}

/// Removes every double quote from both ends of `path`.
pub fn strip_quotes(path: &str) -> (stripped: &str)
    ensures
        stripped@ == unquoted(path@),
{
    strip(path, CharClass::Quote)
}

/// Removes the white space from both ends of `line`.
pub fn trim(line: &str) -> (stripped: &str)
    ensures
        stripped@ == trimmed(line@),
{
    strip(line, CharClass::Whitespace)
}

/// Removes `suffix` from the end of `text` as many times as it stands there.
pub fn strip_suffix<'a>(text: &'a str, suffix: &str) -> (stripped: &'a str)
    ensures
        stripped@ == strip_suffix_repeated(text@, suffix@),
{
    let chars = to_chars(text);
    let tail = to_chars(suffix);
    let m: usize = tail.len();
    let mut end: usize = chars.len();
    if m == 0 {
        return text;
    }
    assert(text@.subrange(0, end as int) =~= text@);
    loop
        invariant
            0 < m == suffix@.len(),
            end <= text@.len(),
            chars@ == text@,
            tail@ == suffix@,
            strip_suffix_repeated(text@, suffix@) == strip_suffix_repeated(
                text@.subrange(0, end as int),
                suffix@,
            ),
        ensures
            !ends_with(text@.subrange(0, end as int), suffix@),
        decreases end,
    {
        let ghost head = text@.subrange(0, end as int);
        if end < m {
            break;
        }
        let start: usize = end - m;
        let mut k: usize = 0;
        while k < m && chars[start + k] == tail[k]
            invariant
                k <= m,
                m == tail@.len(),
                start + m == end <= chars@.len(),
                forall|j: int| 0 <= j < k ==> chars@[start + j] == tail@[j],
            decreases m - k,
        {
            k += 1;
        }
        if k < m {
            assert(head.subrange(head.len() - m, head.len() as int)[k as int] != suffix@[k as int]);
            break;
        }
        assert(head.subrange(head.len() - m, head.len() as int) =~= suffix@);
        assert(head.subrange(0, head.len() - m) =~= text@.subrange(0, start as int));
        end = start;
    }
    text.substring_char(0, end)
}

} // verus!
