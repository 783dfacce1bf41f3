//! Decimal rendering of integers and the human-readable number and size
//! labels shown in the interface.

use vstd::prelude::*;

use crate::text::{chars_to_string, push_char};

verus! {

/// The character for one decimal digit value.
pub open spec fn digit_to_char(d: int) -> char {
    if d == 0 {
        '0'
    } else if d == 1 {
        '1'
    } else if d == 2 {
        '2'
    } else if d == 3 {
        '3'
    } else if d == 4 {
        '4'
    } else if d == 5 {
        '5'
    } else if d == 6 {
        '6'
    } else if d == 7 {
        '7'
    } else if d == 8 {
        '8'
    } else {
        '9'
    }
}

/// The decimal digits of a non-negative integer, most significant first.
pub open spec fn dec_digits(n: nat) -> Seq<char>
    decreases n,
{
    if n < 10 {
        seq![digit_to_char(n as int)]
    } else {
        dec_digits(n / 10) + seq![digit_to_char((n % 10) as int)]
    }
}

/// The decimal rendering of an integer, with a leading minus sign when
/// negative.
pub open spec fn int_str(n: int) -> Seq<char> {
    if n >= 0 {
        dec_digits(n as nat)
    } else {
        seq!['-'] + dec_digits((-n) as nat)
    }
}

/// Commas inserted between groups of three characters, counted from the
/// right end of the sequence.
pub open spec fn with_commas(ds: Seq<char>) -> Seq<char>
    decreases ds.len(),
{
    if ds.len() <= 3 {
        ds
    } else {
        with_commas(ds.take(ds.len() - 3)) + seq![','] + ds.skip(ds.len() - 3)
    }
}

fn digit_char(d: u64) -> (r: char)
    requires
        d < 10,
    ensures
        r == digit_to_char(d as int),
{
    if d == 0 {
        '0'
    } else if d == 1 {
        '1'
    } else if d == 2 {
        '2'
    } else if d == 3 {
        '3'
    } else if d == 4 {
        '4'
    } else if d == 5 {
        '5'
    } else if d == 6 {
        '6'
    } else if d == 7 {
        '7'
    } else if d == 8 {
        '8'
    } else {
        '9'
    }
}

/// The digit characters collected least-significant-first, read back
/// most-significant-first.
spec fn chars_of_rev(ds: Seq<u8>) -> Seq<char> {
    Seq::new(ds.len(), |i: int| digit_to_char(ds[ds.len() - 1 - i] as int))
}

proof fn lemma_chars_of_rev_push(ds: Seq<u8>, d: u8)
    ensures
        chars_of_rev(ds.push(d)) =~= seq![digit_to_char(d as int)] + chars_of_rev(ds),
{
}

/// The decimal digit characters of `n`, most significant first.
pub fn u64_to_chars(n: u64) -> (r: Vec<char>)
    ensures
        r@ == dec_digits(n as nat),
{
    if n == 0 {
        let mut r: Vec<char> = Vec::new();
        r.push('0');
        proof {
            assert(r@ =~= dec_digits(0));
        }
        return r;
    }
    let mut digits: Vec<u8> = Vec::new();
    let mut m: u64 = n;
    proof {
        assert(dec_digits(n as nat) + chars_of_rev(digits@) =~= dec_digits(n as nat));
    }
    loop
        invariant
            dec_digits(n as nat) == if m == 0 {
                chars_of_rev(digits@)
            } else {
                dec_digits(m as nat) + chars_of_rev(digits@)
            },
            m == 0 ==> digits@.len() > 0,
            forall|j: int| 0 <= j < digits@.len() ==> digits@[j] < 10,
        ensures
            dec_digits(n as nat) == chars_of_rev(digits@),
            forall|j: int| 0 <= j < digits@.len() ==> digits@[j] < 10,
        decreases m + if digits@.len() == 0 { 1int } else { 0int },
    {
        if m == 0 && digits.len() > 0 {
            break;
        }
        let d: u64 = m % 10;
        let next: u64 = m / 10;
        proof {
            if m >= 10 {
                assert(dec_digits(m as nat) == dec_digits((m as nat) / 10) + seq![
                    digit_to_char(((m as nat) % 10) as int),
                ]);
            } else {
                assert(dec_digits(m as nat) == seq![digit_to_char(m as int)]);
            }
            lemma_chars_of_rev_push(digits@, d as u8);
            assert(dec_digits(m as nat) + chars_of_rev(digits@) == (if next == 0 {
                chars_of_rev(digits@.push(d as u8))
            } else {
                dec_digits(next as nat) + chars_of_rev(digits@.push(d as u8))
            })) by {
                if next == 0 {
                    assert(dec_digits(m as nat) + chars_of_rev(digits@) =~= chars_of_rev(
                        digits@.push(d as u8),
                    ));
                } else {
                    assert(dec_digits(m as nat) + chars_of_rev(digits@) =~= dec_digits(next as nat)
                        + chars_of_rev(digits@.push(d as u8)));
                }
            }
        }
        digits.push(d as u8);
        m = next;
    }
    proof {
        assert(dec_digits(n as nat) == chars_of_rev(digits@));
    }
    let mut r: Vec<char> = Vec::new();
    let total: usize = digits.len();
    let mut i: usize = 0;
    while i < total
        invariant
            total == digits@.len(),
            i <= total,
            forall|j: int| 0 <= j < total ==> digits@[j] < 10,
            r@ =~= chars_of_rev(digits@).take(i as int),
        decreases total - i,
    {
        let d: u8 = digits[total - 1 - i];
        r.push(digit_char(d as u64));
        i = i + 1;
        proof {
            assert(r@ =~= chars_of_rev(digits@).take(i as int));
        }
    }
    proof {
        assert(r@ =~= chars_of_rev(digits@));
    }
    r
}

/// The decimal character rendering of `n`, sign included.
pub fn i64_to_chars(n: i64) -> (r: Vec<char>)
    ensures
        r@ == int_str(n as int),
{
    if n >= 0 {
        u64_to_chars(n as u64)
    } else {
        let magnitude: u64 = ((-(n + 1)) as u64) + 1;
        assert(magnitude == -(n as int));
        let digits = u64_to_chars(magnitude);
        let mut r: Vec<char> = Vec::new();
        r.push('-');
        let mut i: usize = 0;
        while i < digits.len()
            invariant
                i <= digits@.len(),
                r@ =~= seq!['-'] + digits@.take(i as int),
            decreases digits@.len() - i,
        {
            r.push(digits[i]);
            i = i + 1;
        }
        proof {
            assert(r@ =~= seq!['-'] + digits@);
        }
        r
    }
}

/// The plain decimal rendering of `n` as a string.
pub fn i64_to_string(n: i64) -> (r: String)
    ensures
        r@ == int_str(n as int),
{
    let chars = i64_to_chars(n);
    let len = chars.len();
    chars_to_string(&chars, 0, len)
}

/// Render `chars[..end]` with commas between groups of three characters
/// counted from the right.
fn commas_of(chars: &Vec<char>, end: usize) -> (r: String)
    requires
        end <= chars@.len(),
    ensures
        r@ == with_commas(chars@.take(end as int)),
    decreases end,
{
    if end <= 3 {
        chars_to_string(chars, 0, end)
    } else {
        let mut head = commas_of(chars, end - 3);
        push_char(&mut head, ',');
        let tail = chars_to_string(chars, end - 3, end);
        let r = head.concat(tail.as_str());
        proof {
            assert(chars@.take(end as int).take(end - 3) =~= chars@.take(end - 3));
            assert(chars@.take(end as int).skip(end - 3) =~= chars@.subrange(end - 3, end as int));
            assert(r@ =~= with_commas(chars@.take(end as int)));
        }
        r
    }
}

/// Format a number with thousands separators; a leading minus sign counts
/// as a character when the groups are laid out.
pub fn format_number(n: i64) -> (r: String)
    ensures
        r@ == with_commas(int_str(n as int)),
{
    let chars = i64_to_chars(n);
    let len = chars.len();
    proof {
        assert(chars@.take(len as int) =~= chars@);
    }
    commas_of(&chars, len)
}

pub const KB: i64 = 1024;

pub const MB: i64 = 1024 * 1024;

pub const GB: i64 = 1024 * 1024 * 1024;

/// The value scaled down by `unit` and rendered with one decimal place,
/// rounding half upward.
pub open spec fn scaled_tenths(v: int, unit: int) -> Seq<char>
    recommends
        0 < unit <= v,
{
    let whole = v / unit;
    let frac = v % unit;
    let tenth = (frac * 10 + unit / 2) / unit;
    if tenth == 10 {
        dec_digits((whole + 1) as nat) + seq!['.', '0']
    } else {
        dec_digits(whole as nat) + seq!['.', digit_to_char(tenth)]
    }
}

/// The human-readable size label for a byte count.
pub open spec fn bytes_label(bytes: int) -> Seq<char> {
    if bytes >= GB {
        scaled_tenths(bytes, GB as int) + " GB"@
    } else if bytes >= MB {
        scaled_tenths(bytes, MB as int) + " MB"@
    } else if bytes >= KB {
        scaled_tenths(bytes, KB as int) + " KB"@
    } else {
        int_str(bytes) + " B"@
    }
}

fn scaled_string(v: i64, unit: i64) -> (r: String)
    requires
        1024 <= unit <= v,
        unit <= GB,
    ensures
        r@ == scaled_tenths(v as int, unit as int),
{
    let whole: i64 = v / unit;
    let frac: i64 = v % unit;
    let tenth: i64 = (frac * 10 + unit / 2) / unit;
    proof {
        let f = frac as int;
        let u = unit as int;
        let t = tenth as int;
        assert(0 <= f < u);
        assert(f * 10 + u / 2 < 11 * u) by (nonlinear_arith)
            requires
                0 <= f < u,
                0 < u,
        ;
        assert(t <= 10) by (nonlinear_arith)
            requires
                0 <= f * 10 + u / 2 < 11 * u,
                0 < u,
                t == (f * 10 + u / 2) / u,
        ;
        assert(0 <= t);
        let w = whole as int;
        let v_i = v as int;
        assert(w * u <= v_i) by (nonlinear_arith)
            requires
                w == v_i / u,
                0 < u,
                0 <= v_i,
        ;
        assert(w * 1024 <= w * u) by (nonlinear_arith)
            requires
                0 <= w,
                1024 <= u,
        ;
        assert(w <= v_i / 1024) by (nonlinear_arith)
            requires
                w * 1024 <= v_i,
                0 <= w,
        ;
    }
    if tenth == 10 {
        let mut r = i64_to_string(whole + 1);
        push_char(&mut r, '.');
        push_char(&mut r, '0');
        proof {
            assert(r@ =~= scaled_tenths(v as int, unit as int));
        }
        r
    } else {
        let mut r = i64_to_string(whole);
        push_char(&mut r, '.');
        push_char(&mut r, digit_char(tenth as u64));
        proof {
            assert(r@ =~= scaled_tenths(v as int, unit as int));
        }
        r
    }
}

/// Format a byte count as a human-readable size with one decimal place.
pub fn format_bytes(bytes: i64) -> (r: String)
    ensures
        r@ == bytes_label(bytes as int),
{
    if bytes >= GB {
        let r = scaled_string(bytes, GB).concat(" GB");
        r
    } else if bytes >= MB {
        let r = scaled_string(bytes, MB).concat(" MB");
        r
    } else if bytes >= KB {
        let r = scaled_string(bytes, KB).concat(" KB");
        r
    } else {
        let r = i64_to_string(bytes).concat(" B");
        r
    }
}

/// Format a count: numbers below one thousand stay plain, larger ones get
/// thousands separators.
pub fn format_count(n: i64) -> (r: String)
    ensures
        n < 1000 ==> r@ == int_str(n as int),
        n >= 1000 ==> r@ == with_commas(int_str(n as int)),
{
    if n < 1000 {
        i64_to_string(n)
    } else {
        format_number(n)
    }
}

} // verus!
