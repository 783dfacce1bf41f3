//! Text helpers around names and filenames: sanitising a filename for disk
//! and deriving avatar initials from a display name.

use vstd::prelude::*;

use crate::text::{chars_to_string, is_space, push_char, str_to_chars, trim_spaces, trimmed};

verus! {

/// Whether a character is a control character.
pub open spec fn is_control(c: char) -> bool {
    (c as u32) < 0x20 || (0x7F <= (c as u32) && (c as u32) < 0xA0)
}

/// A filename character made safe: path separators, shell metacharacters and
/// control characters become underscores.
pub open spec fn sanitize_char(c: char) -> char {
    if c == '/' || c == '\\' || c == ':' || c == '*' || c == '?' || c == '"' || c == '<' || c
        == '>' || c == '|' {
        '_'
    } else if is_control(c) {
        '_'
    } else {
        c
    }
}

/// A filename made safe: every character sanitised, then surrounding white
/// space removed.
pub open spec fn sanitized(s: Seq<char>) -> Seq<char> {
    trimmed(s.map_values(|c: char| sanitize_char(c)))
}

fn sanitize_char_at(c: char) -> (r: char)
    ensures
        r == sanitize_char(c),
{
    if c == '/' || c == '\\' || c == ':' || c == '*' || c == '?' || c == '"' || c == '<' || c
        == '>' || c == '|' {
        '_'
    } else if (c as u32) < 0x20 || (0x7F <= (c as u32) && (c as u32) < 0xA0) {
        '_'
    } else {
        c
    }
}

/// Sanitize a filename: dangerous characters become underscores and
/// surrounding white space is removed.
#[verifier::loop_isolation(false)]
pub fn sanitize_filename(filename: &str) -> (r: String)
    ensures
        r@ == sanitized(filename@),
{
    let chars = str_to_chars(filename);
    let mut mapped: Vec<char> = Vec::new();
    let mut i: usize = 0;
    while i < chars.len()
        invariant
            i <= chars@.len(),
            mapped@ =~= chars@.take(i as int).map_values(|c: char| sanitize_char(c)),
        decreases chars@.len() - i,
    {
        mapped.push(sanitize_char_at(chars[i]));
        i = i + 1;
        proof {
            assert(mapped@ =~= chars@.take(i as int).map_values(|c: char| sanitize_char(c)));
        }
    }
    proof {
        assert(chars@.take(chars@.len() as int) =~= chars@);
        assert(mapped@ =~= filename@.map_values(|c: char| sanitize_char(c)));
    }
    let len = mapped.len();
    let joined = chars_to_string(&mapped, 0, len);
    proof {
        assert(joined@ =~= mapped@);
    }
    trim_spaces(joined.as_str())
}

/// The number of characters before the first white space, or the whole
/// length when there is none.
pub open spec fn word_end(s: Seq<char>) -> int
    decreases s.len(),
{
    if s.len() == 0 {
        0
    } else if is_space(s[0]) {
        0
    } else {
        1 + word_end(s.drop_first())
    }
}

proof fn lemma_word_end(s: Seq<char>)
    ensures
        0 <= word_end(s) <= s.len(),
        forall|k: int| 0 <= k < word_end(s) ==> !is_space(s[k]),
        word_end(s) < s.len() ==> is_space(s[word_end(s)]),
    decreases s.len(),
{
    if s.len() == 0 {
    } else if is_space(s[0]) {
    } else {
        let t = s.drop_first();
        lemma_word_end(t);
        assert forall|k: int| 0 <= k < word_end(s) implies !is_space(s[k]) by {
            if k > 0 {
                assert(t[k - 1] == s[k]);
            }
        }
        if word_end(s) < s.len() {
            assert(t[word_end(t)] == s[word_end(s)]);
        }
    }
}

/// The white-space-separated words of a string, in order.
pub open spec fn words(s: Seq<char>) -> Seq<Seq<char>>
    decreases s.len(),
{
    if s.len() == 0 {
        Seq::empty()
    } else if is_space(s[0]) {
        words(s.drop_first())
    } else {
        let e = word_end(s);
        if 1 <= e <= s.len() {
            seq![s.take(e)] + words(s.skip(e))
        } else {
            Seq::empty()
        }
    }
}

/// The uppercase form of an ASCII letter; every other character is kept.
pub open spec fn ascii_upper(c: char) -> char {
    if c == 'a' {
        'A'
    } else if c == 'b' {
        'B'
    } else if c == 'c' {
        'C'
    } else if c == 'd' {
        'D'
    } else if c == 'e' {
        'E'
    } else if c == 'f' {
        'F'
    } else if c == 'g' {
        'G'
    } else if c == 'h' {
        'H'
    } else if c == 'i' {
        'I'
    } else if c == 'j' {
        'J'
    } else if c == 'k' {
        'K'
    } else if c == 'l' {
        'L'
    } else if c == 'm' {
        'M'
    } else if c == 'n' {
        'N'
    } else if c == 'o' {
        'O'
    } else if c == 'p' {
        'P'
    } else if c == 'q' {
        'Q'
    } else if c == 'r' {
        'R'
    } else if c == 's' {
        'S'
    } else if c == 't' {
        'T'
    } else if c == 'u' {
        'U'
    } else if c == 'v' {
        'V'
    } else if c == 'w' {
        'W'
    } else if c == 'x' {
        'X'
    } else if c == 'y' {
        'Y'
    } else if c == 'z' {
        'Z'
    } else {
        c
    }
}

fn ascii_upper_at(c: char) -> (r: char)
    ensures
        r == ascii_upper(c),
{
    if c == 'a' {
        'A'
    } else if c == 'b' {
        'B'
    } else if c == 'c' {
        'C'
    } else if c == 'd' {
        'D'
    } else if c == 'e' {
        'E'
    } else if c == 'f' {
        'F'
    } else if c == 'g' {
        'G'
    } else if c == 'h' {
        'H'
    } else if c == 'i' {
        'I'
    } else if c == 'j' {
        'J'
    } else if c == 'k' {
        'K'
    } else if c == 'l' {
        'L'
    } else if c == 'm' {
        'M'
    } else if c == 'n' {
        'N'
    } else if c == 'o' {
        'O'
    } else if c == 'p' {
        'P'
    } else if c == 'q' {
        'Q'
    } else if c == 'r' {
        'R'
    } else if c == 's' {
        'S'
    } else if c == 't' {
        'T'
    } else if c == 'u' {
        'U'
    } else if c == 'v' {
        'V'
    } else if c == 'w' {
        'W'
    } else if c == 'x' {
        'X'
    } else if c == 'y' {
        'Y'
    } else if c == 'z' {
        'Z'
    } else {
        c
    }
}

/// The position of the first `@`, or the whole length when there is none.
pub open spec fn at_split(s: Seq<char>) -> int
    decreases s.len(),
{
    if s.len() == 0 {
        0
    } else if s[0] == '@' {
        0
    } else {
        1 + at_split(s.drop_first())
    }
}

proof fn lemma_at_split(s: Seq<char>)
    ensures
        0 <= at_split(s) <= s.len(),
        forall|k: int| 0 <= k < at_split(s) ==> s[k] != '@',
        at_split(s) < s.len() ==> s[at_split(s)] == '@',
    decreases s.len(),
{
    if s.len() == 0 {
    } else if s[0] == '@' {
    } else {
        let t = s.drop_first();
        lemma_at_split(t);
        assert forall|k: int| 0 <= k < at_split(s) implies s[k] != '@' by {
            if k > 0 {
                assert(t[k - 1] == s[k]);
            }
        }
        if at_split(s) < s.len() {
            assert(t[at_split(t)] == s[at_split(s)]);
        }
    }
}

/// The initials shown in an avatar, derived from a display name: the name is
/// trimmed; for an email address only the part before the first `@` counts;
/// two or more words give the first letter of the first two words, one word
/// gives its first two letters (or one, for a one-letter word), and no word
/// at all gives a question mark. ASCII letters are uppercased.
pub open spec fn initials(name: Seq<char>) -> Seq<char> {
    let t = trimmed(name);
    if t.len() == 0 {
        "?"@
    } else {
        let d = if at_split(t) < t.len() {
            t.take(at_split(t))
        } else {
            t
        };
        let w = words(d);
        if w.len() == 0 {
            "?"@
        } else if w.len() == 1 {
            if w[0].len() >= 2 {
                seq![ascii_upper(w[0][0]), ascii_upper(w[0][1])]
            } else {
                seq![ascii_upper(w[0][0])]
            }
        } else {
            seq![ascii_upper(w[0][0]), ascii_upper(w[1][0])]
        }
    }
}

proof fn lemma_words_skip_space(s: Seq<char>, b: int)
    requires
        0 <= b <= s.len(),
        forall|k: int| 0 <= k < b ==> is_space(s[k]),
    ensures
        words(s) == words(s.skip(b)),
    decreases b,
{
    if b > 0 {
        assert(is_space(s[0]));
        assert(words(s) == words(s.drop_first()));
        assert(s.drop_first() =~= s.skip(1));
        assert forall|k: int| 0 <= k < b - 1 implies is_space(s.skip(1)[k]) by {
            assert(s.skip(1)[k] == s[k + 1]);
        }
        lemma_words_skip_space(s.skip(1), b - 1);
        assert(s.skip(1).skip(b - 1) =~= s.skip(b));
    } else {
        assert(s.skip(0) =~= s);
    }
}

/// Compute the avatar initials of a display name.
#[verifier::loop_isolation(false)]
#[verifier::rlimit(60)]
pub fn get_initials(name: &str) -> (r: String)
    ensures
        r@ == initials(name@),
{
    let t = trim_spaces(name);
    let tc = str_to_chars(t.as_str());
    if tc.len() == 0 {
        return "?".to_owned();
    }
    // cut at the first `@`, if any
    let mut a: usize = 0;
    while a < tc.len() && tc[a] != '@'
        invariant
            a <= tc@.len(),
            forall|k: int| 0 <= k < a ==> tc@[k] != '@',
        decreases tc@.len() - a,
    {
        a = a + 1;
    }
    proof {
        lemma_at_split(tc@);
        assert(at_split(tc@) == a) by {
            if at_split(tc@) < a {
                assert(tc@[at_split(tc@)] != '@');
            } else if a < at_split(tc@) {
                assert(tc@[a as int] == '@');
            }
        }
    }
    let ghost d = if a < tc@.len() {
        tc@.take(a as int)
    } else {
        tc@
    };
    proof {
        if a == tc@.len() {
            assert(tc@.take(a as int) =~= tc@);
        }
    }
    // first word
    let mut b: usize = 0;
    while b < a && is_space_at(&tc, b)
        invariant
            b <= a <= tc@.len(),
            forall|k: int| 0 <= k < b ==> is_space(tc@[k]),
        decreases a - b,
    {
        b = b + 1;
    }
    proof {
        assert(d.len() == a);
        assert forall|k: int| 0 <= k < b implies is_space(d[k]) by {
            assert(d[k] == tc@[k]);
        }
        lemma_words_skip_space(d, b as int);
    }
    if b == a {
        proof {
            assert(d.skip(b as int).len() == 0);
        }
        return "?".to_owned();
    }
    let ghost rest1 = d.skip(b as int);
    let mut e: usize = b;
    while e < a && !is_space_at(&tc, e)
        invariant
            b <= e <= a,
            forall|k: int| b <= k < e ==> !is_space(tc@[k]),
        decreases a - e,
    {
        e = e + 1;
    }
    proof {
        lemma_word_end(rest1);
        assert(rest1.len() == a - b);
        assert forall|k: int| 0 <= k < e - b implies !is_space(rest1[k]) by {
            assert(rest1[k] == tc@[b + k]);
        }
        if e < a {
            assert(rest1[e - b] == tc@[e as int]);
        }
        assert(word_end(rest1) == e - b) by {
            if word_end(rest1) < e - b {
                assert(!is_space(rest1[word_end(rest1)]));
            } else if e - b < word_end(rest1) {
                assert(!is_space(rest1[e - b]));
            }
        }
        assert(!is_space(rest1[0]));
        assert(words(rest1) == seq![rest1.take(e - b)] + words(rest1.skip(e - b)));
        assert(rest1.take(e - b) =~= tc@.subrange(b as int, e as int));
        assert(rest1.skip(e - b) =~= d.skip(e as int));
    }
    // second word, if any
    let mut b2: usize = e;
    while b2 < a && is_space_at(&tc, b2)
        invariant
            e <= b2 <= a,
            forall|k: int| e <= k < b2 ==> is_space(tc@[k]),
        decreases a - b2,
    {
        b2 = b2 + 1;
    }
    proof {
        let rest2 = d.skip(e as int);
        assert(rest2.len() == a - e);
        assert forall|k: int| 0 <= k < b2 - e implies is_space(rest2[k]) by {
            assert(rest2[k] == tc@[e + k]);
        }
        lemma_words_skip_space(rest2, b2 - e);
        assert(rest2.skip(b2 - e) =~= d.skip(b2 as int));
    }
    if b2 == a {
        // a single word: its first two characters, uppercased
        proof {
            assert(d.skip(b2 as int).len() == 0);
            assert(words(d).len() == 1);
            assert(words(d)[0] == tc@.subrange(b as int, e as int));
        }
        let mut r = String::new();
        push_char(&mut r, ascii_upper_at(tc[b]));
        if e - b >= 2 {
            push_char(&mut r, ascii_upper_at(tc[b + 1]));
            proof {
                assert(r@ =~= initials(name@));
            }
        } else {
            proof {
                assert(r@ =~= initials(name@));
            }
        }
        r
    } else {
        // two or more words: the first character of each of the first two
        proof {
            let rest3 = d.skip(b2 as int);
            assert(rest3.len() > 0);
            assert(!is_space(rest3[0])) by {
                assert(rest3[0] == tc@[b2 as int]);
            }
            lemma_word_end(rest3);
            assert(word_end(rest3) >= 1);
            assert(words(rest3) == seq![rest3.take(word_end(rest3))] + words(
                rest3.skip(word_end(rest3)),
            ));
            assert(words(d).len() >= 2);
            assert(words(d)[0] == tc@.subrange(b as int, e as int));
            assert(words(d)[1] == rest3.take(word_end(rest3)));
            assert(words(d)[1][0] == tc@[b2 as int]);
        }
        let mut r = String::new();
        push_char(&mut r, ascii_upper_at(tc[b]));
        push_char(&mut r, ascii_upper_at(tc[b2]));
        proof {
            assert(r@ =~= initials(name@));
        }
        r
    }
}

fn is_space_at(v: &Vec<char>, i: usize) -> (r: bool)
    requires
        i < v@.len(),
    ensures
        r == is_space(v@[i as int]),
{
    let c = v[i];
    c == ' ' || c == '\t' || c == '\n' || c == '\r' || c == '\u{0B}' || c == '\u{0C}' || c
        == '\u{85}' || c == '\u{A0}' || c == '\u{1680}' || c == '\u{2000}' || c == '\u{2001}' || c
        == '\u{2002}' || c == '\u{2003}' || c == '\u{2004}' || c == '\u{2005}' || c == '\u{2006}'
        || c == '\u{2007}' || c == '\u{2008}' || c == '\u{2009}' || c == '\u{200A}' || c
        == '\u{2028}' || c == '\u{2029}' || c == '\u{202F}' || c == '\u{205F}' || c == '\u{3000}'
}

} // verus!
