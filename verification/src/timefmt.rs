//! The playback clock label: `MM:SS/MM:SS | Playing - <name>`, with
//! zero-padded two-digit minutes and seconds for elapsed and total time and
//! the file's display name — the path's last `/`-separated segment —
//! right-justified in a ten-character field.

use vstd::prelude::*;
use vstd::string::{StrSliceExecFns, StringExecFns};

verus! {

/// The character of one decimal digit.
pub open spec fn digit_char(d: int) -> char {
    if d == 1 {
        '1'
    } else if d == 2 {
        '2'
    } else if d == 3 {
        '3'
    } else if d == 4 {
        '4'
    } else if d == 5 {
        '5'
    } else if d == 6 {
        '6'
    } else if d == 7 {
        '7'
    } else if d == 8 {
        '8'
    } else if d == 9 {
        '9'
    } else {
        '0'
    }
}

/// Decimal representation of a non-negative number, most significant digit
/// first, without leading zeros (a single zero for 0).
pub open spec fn dec_rep(n: int) -> Seq<char>
    decreases n,
{
    if n <= 9 {
        seq![digit_char(n)]
    } else {
        dec_rep(n / 10).push(digit_char(n % 10))
    }
}

/// Decimal representation padded with a leading zero to at least two digits.
pub open spec fn two_digits(n: int) -> Seq<char> {
    if n < 10 {
        seq!['0'] + dec_rep(n)
    } else {
        dec_rep(n)
    }
}

/// `k` spaces.
pub open spec fn spaces(k: int) -> Seq<char> {
    Seq::new(k as nat, |i: int| ' ')
}

/// The name right-justified in a field of ten characters: shorter names are
/// left-padded with spaces, longer ones kept whole.
pub open spec fn pad_name(name: Seq<char>) -> Seq<char> {
    if name.len() >= 10 {
        name
    } else {
        spaces(10 - name.len()) + name
    }
}

/// The fixed text between the clock and the name field.
pub open spec fn separator() -> Seq<char> {
    seq![' ', '|', ' ', 'P', 'l', 'a', 'y', 'i', 'n', 'g', ' ', '-', ' ']
}

/// The whole label for `e` elapsed seconds of `t` total seconds:
/// minutes and seconds of each as two-digit fields, then the separator,
/// then the padded name.
pub open spec fn spec_clock_text(e: int, t: int, name: Seq<char>) -> Seq<char> {
    two_digits(e / 60) + seq![':'] + two_digits(e % 60) + seq!['/'] + two_digits(t / 60)
        + seq![':'] + two_digits(t % 60) + separator() + pad_name(name)
}

/// Relies on `String::push`: appends exactly the given character.
#[verifier::external_body]
fn push_char(s: &mut String, c: char)
    ensures
        final(s)@ == old(s)@.push(c),
{
    s.push(c);
}

/// The character of digit `d`.
fn digit(d: u64) -> (c: char)
    requires
        d < 10,
    ensures
        c == digit_char(d as int),
{
    match d {
        1 => '1',
        2 => '2',
        3 => '3',
        4 => '4',
        5 => '5',
        6 => '6',
        7 => '7',
        8 => '8',
        9 => '9',
        _ => '0',
    }
}

/// Append the decimal representation of `n`.
fn push_decimal(out: &mut String, n: u64)
    ensures
        final(out)@ == old(out)@ + dec_rep(n as int),
    decreases n,
{
    if n <= 9 {
        push_char(out, digit(n));
        proof {
            assert(out@ =~= old(out)@ + dec_rep(n as int));
        }
    } else {
        push_decimal(out, n / 10);
        push_char(out, digit(n % 10));
        proof {
            assert(out@ =~= old(out)@ + dec_rep(n as int));
        }
    }
}

/// Append `n` as at least two digits, zero-padded.
fn push_two_digits(out: &mut String, n: u64)
    ensures
        final(out)@ == old(out)@ + two_digits(n as int),
{
    if n < 10 {
        push_char(out, '0');
        push_char(out, digit(n));
        proof {
            assert(out@ =~= old(out)@ + two_digits(n as int));
        }
    } else {
        push_decimal(out, n);
    }
}

/// Split a second count into whole minutes and leftover seconds.
pub fn s_to_m_and_s(s: u64) -> (r: (u64, u64))
    ensures
        r.0 == s as int / 60,
        r.1 == s as int % 60,
{
    (s / 60, s % 60)
}

/// The playback clock label for `elapsed_s` of `total_s` seconds of the
/// file named `name`: exactly the minutes and seconds of both times as
/// two-digit zero-padded fields, the fixed separator, and the name
/// right-justified in a ten-character field.
pub fn formatted_text(elapsed_s: u64, total_s: u64, name: &str) -> (r: String)
    ensures
        r@ == spec_clock_text(elapsed_s as int, total_s as int, name@),
{
    let mut out = String::new();
    let (m_played, s_played) = s_to_m_and_s(elapsed_s);
    let (m_total, s_total) = s_to_m_and_s(total_s);
    push_two_digits(&mut out, m_played);
    push_char(&mut out, ':');
    push_two_digits(&mut out, s_played);
    push_char(&mut out, '/');
    push_two_digits(&mut out, m_total);
    push_char(&mut out, ':');
    push_two_digits(&mut out, s_total);
    let ghost clock = two_digits(elapsed_s as int / 60) + seq![':'] + two_digits(
        elapsed_s as int % 60,
    ) + seq!['/'] + two_digits(total_s as int / 60) + seq![':'] + two_digits(total_s as int % 60);
    proof {
        assert(out@ =~= clock);
    }
    out.append(" | Playing - ");
    proof {
        reveal_strlit(" | Playing - ");
        assert((" | Playing - ")@ =~= separator());
        assert(out@ =~= clock + separator());
    }
    let name_len = name.unicode_len();
    if name_len < 10 {
        let mut k: usize = name_len;
        while k < 10
            invariant
                name_len <= k <= 10,
                name_len == name@.len(),
                name@.len() < 10,
                out@ == clock + separator() + spaces(k as int - name_len as int),
            decreases 10 - k,
        {
            push_char(&mut out, ' ');
            proof {
                assert(out@ =~= clock + separator() + spaces(
                    (k + 1) as int - name_len as int,
                ));
            }
            k = k + 1;
        }
    }
    out.append(name);
    proof {
        assert(out@ =~= spec_clock_text(elapsed_s as int, total_s as int, name@));
    }
    out
}

/// The last `/`-separated segment of a path: the whole path if it holds no
/// `/`, and empty if it ends in one.
pub open spec fn basename_of(s: Seq<char>) -> Seq<char>
    decreases s.len(),
{
    if s.len() == 0 {
        Seq::empty()
    } else if s.last() == '/' {
        Seq::empty()
    } else {
        basename_of(s.drop_last()).push(s.last())
    }
}

/// The file's display name: the part of the path after its last `/`.
pub fn display_name(path: &str) -> (r: String)
    ensures
        r@ == basename_of(path@),
{
    let len = path.unicode_len();
    let mut out = String::new();
    proof {
        assert(out@ =~= basename_of(path@.take(0)));
    }
    let mut i: usize = 0;
    while i < len
        invariant
            i <= len,
            len == path@.len(),
            out@ == basename_of(path@.take(i as int)),
        decreases len - i,
    {
        let c = path.get_char(i);
        proof {
            assert(path@.take((i + 1) as int).drop_last() =~= path@.take(i as int));
            assert(path@.take((i + 1) as int).last() == path@[i as int]);
        }
        if c == '/' {
            out = String::new();
            proof {
                assert(out@ =~= basename_of(path@.take((i + 1) as int)));
            }
        } else {
            push_char(&mut out, c);
        }
        i = i + 1;
    }
    proof {
        assert(path@.take(len as int) =~= path@);
    }
    out
}

} // verus!
