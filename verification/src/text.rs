//! Low-level string building and text helpers shared across the library.

use vstd::prelude::*;
use vstd::string::StrSliceExecFns;

verus! {

/// Relies on std's `String::push`: appends one character to the string.
#[verifier::external_body]
pub fn push_char(s: &mut String, c: char)
    ensures
        final(s)@ == old(s)@.push(c),
{
    s.push(c);
}

/// Copy the characters `v[from..to]` into a fresh string.
#[verifier::loop_isolation(false)]
pub fn chars_to_string(v: &Vec<char>, from: usize, to: usize) -> (r: String)
    requires
        from <= to <= v@.len(),
    ensures
        r@ == v@.subrange(from as int, to as int),
{
    let mut r = String::new();
    let mut i: usize = from;
    while i < to
        invariant
            from <= i <= to <= v@.len(),
            r@ == v@.subrange(from as int, i as int),
        decreases to - i,
    {
        push_char(&mut r, v[i]);
        i = i + 1;
        proof {
            assert(v@.subrange(from as int, i as int) =~= v@.subrange(
                from as int,
                i - 1,
            ).push(v@[i - 1]));
        }
    }
    r
}

/// The characters of a string slice, in order.
pub fn str_to_chars(s: &str) -> (r: Vec<char>)
    ensures
        r@ == s@,
{
    let n = s.unicode_len();
    let mut r: Vec<char> = Vec::new();
    let mut i: usize = 0;
    while i < n
        invariant
            i <= n,
            n == s@.len(),
            r@ =~= s@.take(i as int),
        decreases n - i,
    {
        r.push(s.get_char(i));
        i = i + 1;
    }
    proof {
        assert(r@ =~= s@);
    }
    r
}

/// A string with its trailing slashes removed.
pub open spec fn trimmed_slashes(s: Seq<char>) -> Seq<char>
    decreases s.len(),
{
    if s.len() > 0 && s.last() == '/' {
        trimmed_slashes(s.drop_last())
    } else {
        s
    }
}

/// Remove every trailing slash from a string.
#[verifier::loop_isolation(false)]
pub fn trim_trailing_slashes(s: &str) -> (r: String)
    ensures
        r@ == trimmed_slashes(s@),
{
    let chars = str_to_chars(s);
    let mut e: usize = chars.len();
    proof {
        assert(chars@.take(e as int) =~= chars@);
    }
    while e > 0 && chars[e - 1] == '/'
        invariant
            e <= chars@.len(),
            trimmed_slashes(s@) == trimmed_slashes(chars@.take(e as int)),
        decreases e,
    {
        proof {
            assert(chars@.take(e as int).last() == chars@[e - 1]);
            assert(chars@.take(e as int).drop_last() =~= chars@.take(e - 1));
        }
        e = e - 1;
    }
    proof {
        assert(trimmed_slashes(chars@.take(e as int)) == chars@.take(e as int));
    }
    chars_to_string(&chars, 0, e)
}

/// The characters Rust's trim removes: the Unicode white-space set.
pub open spec fn is_space(c: char) -> bool {
    ||| c == ' '
    ||| c == '\t'
    ||| c == '\n'
    ||| c == '\r'
    ||| c == '\u{0B}'
    ||| c == '\u{0C}'
    ||| c == '\u{85}'
    ||| c == '\u{A0}'
    ||| c == '\u{1680}'
    ||| c == '\u{2000}'
    ||| c == '\u{2001}'
    ||| c == '\u{2002}'
    ||| c == '\u{2003}'
    ||| c == '\u{2004}'
    ||| c == '\u{2005}'
    ||| c == '\u{2006}'
    ||| c == '\u{2007}'
    ||| c == '\u{2008}'
    ||| c == '\u{2009}'
    ||| c == '\u{200A}'
    ||| c == '\u{2028}'
    ||| c == '\u{2029}'
    ||| c == '\u{202F}'
    ||| c == '\u{205F}'
    ||| c == '\u{3000}'
}

fn is_space_char(c: char) -> (r: bool)
    ensures
        r == is_space(c),
{
    c == ' ' || c == '\t' || c == '\n' || c == '\r' || c == '\u{0B}' || c == '\u{0C}' || c
        == '\u{85}' || c == '\u{A0}' || c == '\u{1680}' || c == '\u{2000}' || c == '\u{2001}'
        || c == '\u{2002}' || c == '\u{2003}' || c == '\u{2004}' || c == '\u{2005}' || c
        == '\u{2006}' || c == '\u{2007}' || c == '\u{2008}' || c == '\u{2009}' || c
        == '\u{200A}' || c == '\u{2028}' || c == '\u{2029}' || c == '\u{202F}' || c
        == '\u{205F}' || c == '\u{3000}'
}

/// A string with its leading white space removed.
pub open spec fn trim_start_spec(s: Seq<char>) -> Seq<char>
    decreases s.len(),
{
    if s.len() > 0 && is_space(s[0]) {
        trim_start_spec(s.drop_first())
    } else {
        s
    }
}

/// A string with its trailing white space removed.
pub open spec fn trim_end_spec(s: Seq<char>) -> Seq<char>
    decreases s.len(),
{
    if s.len() > 0 && is_space(s.last()) {
        trim_end_spec(s.drop_last())
    } else {
        s
    }
}

/// A string with its leading and trailing white space removed.
pub open spec fn trimmed(s: Seq<char>) -> Seq<char> {
    trim_end_spec(trim_start_spec(s))
}

/// Remove leading and trailing white space from a string.
#[verifier::loop_isolation(false)]
pub fn trim_spaces(s: &str) -> (r: String)
    ensures
        r@ == trimmed(s@),
{
    let chars = str_to_chars(s);
    let n = chars.len();
    let mut b: usize = 0;
    proof {
        assert(chars@.skip(0) =~= chars@);
    }
    while b < n && is_space_char(chars[b])
        invariant
            b <= n,
            n == chars@.len(),
            trim_start_spec(s@) == trim_start_spec(chars@.skip(b as int)),
        decreases n - b,
    {
        proof {
            assert(chars@.skip(b as int)[0] == chars@[b as int]);
            assert(chars@.skip(b as int).drop_first() =~= chars@.skip(b + 1));
        }
        b = b + 1;
    }
    proof {
        if b < n {
            assert(chars@.skip(b as int)[0] == chars@[b as int]);
        }
        assert(trim_start_spec(chars@.skip(b as int)) == chars@.skip(b as int));
    }
    let ghost x = chars@.skip(b as int);
    let mut e: usize = n;
    proof {
        assert(x.take(n - b) =~= x);
    }
    while e > b && is_space_char(chars[e - 1])
        invariant
            b <= e <= n,
            trim_end_spec(x) == trim_end_spec(x.take(e - b)),
        decreases e,
    {
        proof {
            assert(x.take(e - b).last() == chars@[e - 1]);
            assert(x.take(e - b).drop_last() =~= x.take(e - 1 - b));
        }
        e = e - 1;
    }
    proof {
        if e > b {
            assert(x.take(e - b).last() == chars@[e - 1]);
        }
        assert(trim_end_spec(x.take(e - b)) == x.take(e - b));
        assert(x.take(e - b) =~= chars@.subrange(b as int, e as int));
    }
    chars_to_string(&chars, b, e)
}

} // verus!
