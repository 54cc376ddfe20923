//! Whitespace-delimited text: trimming a text and taking its first token.
//!
//! Text is modelled as `Seq<char>`. What counts as white space is decided by
//! `char::is_whitespace`; everything else here is proved on top of that.

use vstd::prelude::*;
use vstd::std_specs::iter::IteratorSpec;

verus! {

/// Whether a character beyond ASCII has the Unicode `White_Space` property.
pub uninterp spec fn unicode_white_space(c: char) -> bool;

/// Whether a character is white space. Of the ASCII characters these are
/// the space and the five from tab to carriage return; beyond ASCII it is
/// what the Unicode `White_Space` property says.
pub open spec fn is_white_space(c: char) -> bool {
    if (c as u32) < 0x80 {
        c == ' ' || 0x09 <= (c as u32) <= 0x0d
    } else {
        unicode_white_space(c)
    }
}

/// `char::is_whitespace` reports whether the character has the Unicode
/// `White_Space` property. Believed, not proved: that the answer depends on
/// the character alone, and that among the ASCII characters exactly the
/// space, tab, line feed, vertical tab, form feed and carriage return have
/// the property. Of no character beyond ASCII is anything claimed.
pub assume_specification[ char::is_whitespace ](c: char) -> (b: bool)
    ensures
        b == is_white_space(c),
        (c as u32) >= 0x80 ==> b == unicode_white_space(c),
;

/// Length of the longest prefix of `s` made of white space only.
pub open spec fn text_start(s: Seq<char>) -> nat
    decreases s.len(),
{
    if s.len() == 0 || !is_white_space(s[0]) {
        0
    } else {
        1 + text_start(s.drop_first())
    }
}

/// Length of `s` without its longest suffix made of white space only.
pub open spec fn text_end(s: Seq<char>) -> nat
    decreases s.len(),
{
    if s.len() == 0 {
        0
    } else if !is_white_space(s.last()) {
        s.len()
    } else {
        text_end(s.drop_last())
    }
}

/// `s` without leading and trailing white space.
pub open spec fn trimmed(s: Seq<char>) -> Seq<char> {
    if text_start(s) < text_end(s) {
        s.subrange(text_start(s) as int, text_end(s) as int)
    } else {
        Seq::empty()
    }
}

/// Length of the longest prefix of `s` that holds no white space.
pub open spec fn word_len(s: Seq<char>) -> nat
    decreases s.len(),
{
    if s.len() == 0 || is_white_space(s[0]) {
        0
    } else {
        1 + word_len(s.drop_first())
    }
}

/// The first token of `s`, if it has one.
pub open spec fn first_token(s: Seq<char>) -> Option<Seq<char>> {
    let rest = s.skip(text_start(s) as int);
    if rest.len() == 0 {
        None
    } else {
        Some(rest.take(word_len(rest) as int))
    }
}

/// A word is no longer than the text it starts, and not empty where the text
/// starts with something other than white space.
pub proof fn lemma_word_len_bounds(s: Seq<char>)
    ensures
        word_len(s) <= s.len(),
        s.len() > 0 && !is_white_space(s[0]) ==> word_len(s) >= 1,
    decreases s.len(),
{
    if s.len() > 0 && !is_white_space(s[0]) {
        lemma_word_len_bounds(s.drop_first());
    }
}

/// The leading white space is no longer than the text, and ends either at
/// the end of the text or before a character that is not white space.
pub proof fn lemma_text_start_bounds(s: Seq<char>)
    ensures
        text_start(s) <= s.len(),
        text_start(s) < s.len() ==> !is_white_space(s[text_start(s) as int]),
        forall|k: int| 0 <= k < text_start(s) ==> is_white_space(#[trigger] s[k]),
    decreases s.len(),
{
    if s.len() > 0 && is_white_space(s[0]) {
        let rest = s.drop_first();
        lemma_text_start_bounds(rest);
        assert forall|k: int| 0 <= k < text_start(s) implies is_white_space(#[trigger] s[k]) by {
            if k > 0 {
                assert(s[k] == rest[k - 1]);
            }
        }
        if text_start(s) < s.len() {
            assert(s[text_start(s) as int] == rest[text_start(rest) as int]);
        }
    }
}

/// The trailing white space begins within the text, and what follows its
/// beginning is white space, while what stands before it is not.
pub proof fn lemma_text_end_bounds(s: Seq<char>)
    ensures
        text_end(s) <= s.len(),
        text_end(s) > 0 ==> !is_white_space(s[text_end(s) - 1]),
        forall|k: int| text_end(s) <= k < s.len() ==> is_white_space(#[trigger] s[k]),
    decreases s.len(),
{
    if s.len() > 0 && is_white_space(s.last()) {
        let rest = s.drop_last();
        lemma_text_end_bounds(rest);
        assert forall|k: int| text_end(s) <= k < s.len() implies is_white_space(#[trigger] s[k]) by {
            if k < s.len() - 1 {
                assert(s[k] == rest[k]);
            }
        }
        if text_end(s) > 0 {
            assert(s[text_end(s) - 1] == rest[text_end(rest) - 1]);
        }
    }
}

/// What is left after trimming neither begins nor ends with white space, and
/// only white space was cut off at both ends.
pub proof fn lemma_trimmed_is_trim(s: Seq<char>)
    ensures
        trimmed(s).len() > 0 ==> !is_white_space(trimmed(s).first()) && !is_white_space(
            trimmed(s).last(),
        ),
        trimmed(s).len() == 0 ==> forall|k: int| 0 <= k < s.len() ==> is_white_space(#[trigger] s[k]),
        trimmed(s).len() > 0 ==> s == s.take(text_start(s) as int) + trimmed(s) + s.skip(
            text_end(s) as int,
        ),
{
    lemma_text_start_bounds(s);
    lemma_text_end_bounds(s);
    if trimmed(s).len() > 0 {
        assert(s =~= s.take(text_start(s) as int) + trimmed(s) + s.skip(text_end(s) as int));
    } else {
        assert forall|k: int| 0 <= k < s.len() implies is_white_space(#[trigger] s[k]) by {
            if text_start(s) < s.len() && text_end(s) > text_start(s) {
                assert(trimmed(s).len() == text_end(s) - text_start(s));
            }
        }
    }
}

/// The first `word_len(s)` characters of `s` are not white space.
pub proof fn lemma_word_has_no_space(s: Seq<char>)
    ensures
        word_len(s) <= s.len(),
        forall|k: int| 0 <= k < word_len(s) ==> !is_white_space(#[trigger] s[k]),
    decreases s.len(),
{
    if s.len() > 0 && !is_white_space(s[0]) {
        let rest = s.drop_first();
        lemma_word_has_no_space(rest);
        assert forall|k: int| 0 <= k < word_len(s) implies !is_white_space(#[trigger] s[k]) by {
            if k > 0 {
                assert(s[k] == rest[k - 1]);
            }
        }
    }
}

/// A text that is not empty and holds no white space.
pub open spec fn is_word(t: Seq<char>) -> bool {
    t.len() > 0 && forall|k: int| 0 <= k < t.len() ==> !is_white_space(#[trigger] t[k])
}

/// The first token is a word, and only white space stands before it. A
/// text has no first token exactly where it holds nothing but white space.
pub proof fn lemma_first_token_is_word(s: Seq<char>)
    ensures
        first_token(s) matches Some(token) ==> is_word(token) && s.subrange(
            text_start(s) as int,
            (text_start(s) + token.len()) as int,
        ) == token,
        first_token(s) is None <==> forall|k: int| 0 <= k < s.len() ==> is_white_space(#[trigger] s[k]),
        forall|k: int| 0 <= k < text_start(s) ==> is_white_space(#[trigger] s[k]),
{
    lemma_text_start_bounds(s);
    let rest = s.skip(text_start(s) as int);
    lemma_word_len_bounds(rest);
    lemma_word_has_no_space(rest);
    if rest.len() > 0 {
        assert(rest[0] == s[text_start(s) as int]);
        let token = rest.take(word_len(rest) as int);
        assert(token =~= s.subrange(text_start(s) as int, (text_start(s) + token.len()) as int));
        assert forall|k: int| 0 <= k < token.len() implies !is_white_space(#[trigger] token[k]) by {
            assert(token[k] == rest[k]);
        }
    }
}

/// The characters of `s`, in order.
pub fn to_chars(s: &str) -> (chars: Vec<char>)
    ensures
        chars@ == s@,
{
    let mut chars: Vec<char> = Vec::new();
    for c in it: s.chars()
        invariant
            it.seq() == s@,
            chars@ == s@.take(it.index() as int),
    {
        chars.push(c);
    }
    chars
}

/// Index of the first character at or after `from` that is not white space.
fn skip_space(chars: &Vec<char>, from: usize) -> (at: usize)
    requires
        from <= chars.len(),
    ensures
        from <= at <= chars.len(),
        at - from == text_start(chars@.skip(from as int)),
{
    let mut at: usize = from;
    while at < chars.len() && chars[at].is_whitespace()
        invariant
            from <= at <= chars.len(),
            text_start(chars@.skip(from as int)) == (at - from) + text_start(
                chars@.skip(at as int),
            ),
        decreases chars.len() - at,
    {
        proof {
            assert(chars@.skip(at as int).drop_first() =~= chars@.skip(at + 1));
        }
        at = at + 1;
    }
    at
}

/// Index of the first white-space character at or after `from`.
fn skip_word(chars: &Vec<char>, from: usize) -> (at: usize)
    requires
        from <= chars.len(),
    ensures
        from <= at <= chars.len(),
        at - from == word_len(chars@.skip(from as int)),
{
    let mut at: usize = from;
    while at < chars.len() && !chars[at].is_whitespace()
        invariant
            from <= at <= chars.len(),
            word_len(chars@.skip(from as int)) == (at - from) + word_len(chars@.skip(at as int)),
        decreases chars.len() - at,
    {
        proof {
            assert(chars@.skip(at as int).drop_first() =~= chars@.skip(at + 1));
        }
        at = at + 1;
    }
    at
}

/// One past the index of the last character that is not white space.
fn text_end_of(chars: &Vec<char>) -> (at: usize)
    ensures
        at == text_end(chars@),
        at <= chars.len(),
{
    let mut at: usize = chars.len();
    proof {
        assert(chars@.take(at as int) =~= chars@);
    }
    while at > 0 && chars[at - 1].is_whitespace()
        invariant
            at <= chars.len(),
            text_end(chars@) == text_end(chars@.take(at as int)),
        decreases at,
    {
        proof {
            assert(chars@.take(at as int).drop_last() =~= chars@.take(at - 1));
        }
        at = at - 1;
    }
    at
}

/// Removes leading and trailing white space.
pub fn trim(s: &str) -> (r: String)
    ensures
        r@ == trimmed(s@),
{
    let chars = to_chars(s);
    let start = skip_space(&chars, 0);
    let end = text_end_of(&chars);
    proof {
        assert(chars@.skip(0) =~= chars@);
    }
    if start < end {
        s.substring_char(start, end).to_owned()
    } else {
        String::new()
    }
}

/// The first whitespace-delimited token of `s`, or `None` where `s` holds
/// nothing but white space.
pub fn first_word(s: &str) -> (r: Option<String>)
    ensures
        r.deep_view() == first_token(s@),
{
    let chars = to_chars(s);
    let start = skip_space(&chars, 0);
    proof {
        assert(chars@.skip(0) =~= chars@);
    }
    if start == chars.len() {
        None
    } else {
        let end = skip_word(&chars, start);
        proof {
            let rest = s@.skip(start as int);
            assert(rest.take(end - start) =~= s@.subrange(start as int, end as int));
        }
        Some(s.substring_char(start, end).to_owned())
    }
}

/// Whether two texts hold the same characters.
pub fn same_text(a: &str, b: &str) -> (r: bool)
    ensures
        r == (a@ == b@),
{
    let x = a.to_owned();
    let y = b.to_owned();
    x == y
}

} // verus!
