//! Text building blocks: decimal and hexadecimal digit sequences and the
//! executable routines that append them to a `String`.
//!
//! Every serializer of the crate states its output as a `Seq<char>` built
//! from the spec functions of this module, and the executable builders are
//! proved to produce exactly those sequences.

use vstd::prelude::*;
use vstd::string::StringExecFns;

verus! {

/// The character for one decimal digit.
pub open spec fn digit_char(d: nat) -> char {
    if d == 0 {
        '0'
    } else if d == 1 {
        '1'
    } else if d == 2 {
        '2'
    } else if d == 3 {
        '3'
    } else if d == 4 {
        '4'
    } else if d == 5 {
        '5'
    } else if d == 6 {
        '6'
    } else if d == 7 {
        '7'
    } else if d == 8 {
        '8'
    } else {
        '9'
    }
}

/// Decimal digit sequence of a natural number, most significant digit first.
pub open spec fn dec_digits(n: nat) -> Seq<char>
    decreases n,
{
    if n < 10 {
        seq![digit_char(n)]
    } else {
        dec_digits(n / 10) + seq![digit_char(n % 10)]
    }
}

/// Decimal rendering of an integer: a leading `-` for negative values.
pub open spec fn dec_int(n: int) -> Seq<char> {
    if n < 0 {
        seq!['-'] + dec_digits((-n) as nat)
    } else {
        dec_digits(n as nat)
    }
}

/// The character for one hexadecimal digit, upper case.
pub open spec fn hex_char(d: nat) -> char {
    if d < 10 {
        digit_char(d)
    } else if d == 10 {
        'A'
    } else if d == 11 {
        'B'
    } else if d == 12 {
        'C'
    } else if d == 13 {
        'D'
    } else if d == 14 {
        'E'
    } else {
        'F'
    }
}

/// Hexadecimal digit sequence of a natural number, no leading zeroes.
pub open spec fn hex_digits(n: nat) -> Seq<char>
    decreases n,
{
    if n < 16 {
        seq![hex_char(n)]
    } else {
        hex_digits(n / 16) + seq![hex_char(n % 16)]
    }
}

/// Text of a boolean, as JSON spells it.
pub open spec fn bool_text(b: bool) -> Seq<char> {
    if b {
        "true"@
    } else {
        "false"@
    }
}

fn digit_str(d: u64) -> (r: &'static str)
    requires
        d < 10,
    ensures
        r@ == seq![digit_char(d as nat)],
{
    proof {
        reveal_strlit("0");
        reveal_strlit("1");
        reveal_strlit("2");
        reveal_strlit("3");
        reveal_strlit("4");
        reveal_strlit("5");
        reveal_strlit("6");
        reveal_strlit("7");
        reveal_strlit("8");
        reveal_strlit("9");
    }
    match d {
        0 => "0",
        1 => "1",
        2 => "2",
        3 => "3",
        4 => "4",
        5 => "5",
        6 => "6",
        7 => "7",
        8 => "8",
        _ => "9",
    }
}

fn hex_digit_str(d: u64) -> (r: &'static str)
    requires
        d < 16,
    ensures
        r@ == seq![hex_char(d as nat)],
{
    if d < 10 {
        digit_str(d)
    } else {
        proof {
            reveal_strlit("A");
            reveal_strlit("B");
            reveal_strlit("C");
            reveal_strlit("D");
            reveal_strlit("E");
            reveal_strlit("F");
        }
        match d {
            10 => "A",
            11 => "B",
            12 => "C",
            13 => "D",
            14 => "E",
            _ => "F",
        }
    }
}

/// Appends the decimal digits of `n`.
pub fn push_dec_u64(s: &mut String, n: u64)
    ensures
        final(s)@ == old(s)@ + dec_digits(n as nat),
    decreases n,
{
    if n < 10 {
        s.append(digit_str(n));
    } else {
        push_dec_u64(s, n / 10);
        s.append(digit_str(n % 10));
        assert(final(s)@ =~= old(s)@ + dec_digits(n as nat));
    }
}

/// Appends the decimal rendering of `n`, sign included.
pub fn push_dec_i32(s: &mut String, n: i32)
    ensures
        final(s)@ == old(s)@ + dec_int(n as int),
{
    if n < 0 {
        proof {
            reveal_strlit("-");
        }
        s.append("-");
        let m: u64 = (-(n as i64)) as u64;
        push_dec_u64(s, m);
        assert(final(s)@ =~= old(s)@ + dec_int(n as int));
    } else {
        push_dec_u64(s, n as u64);
    }
}

/// Appends the hexadecimal digits of `n`, upper case.
pub fn push_hex_u8(s: &mut String, n: u8)
    ensures
        final(s)@ == old(s)@ + hex_digits(n as nat),
{
    if n < 16 {
        s.append(hex_digit_str(n as u64));
    } else {
        s.append(hex_digit_str((n / 16) as u64));
        s.append(hex_digit_str((n % 16) as u64));
        assert(hex_digits((n / 16) as nat) == seq![hex_char((n / 16) as nat)]);
        assert(final(s)@ =~= old(s)@ + hex_digits(n as nat));
    }
}

/// Appends the JSON spelling of a boolean.
pub fn push_bool(s: &mut String, b: bool)
    ensures
        final(s)@ == old(s)@ + bool_text(b),
{
    if b {
        s.append("true");
    } else {
        s.append("false");
    }
}

/// The views of a sequence of strings.
pub open spec fn texts_view(v: Seq<String>) -> Seq<Seq<char>> {
    Seq::new(v.len(), |i: int| v[i]@)
}

/// The given texts joined by a separator.
pub open spec fn join_texts(ss: Seq<Seq<char>>, sep: Seq<char>) -> Seq<char>
    decreases ss.len(),
{
    if ss.len() == 0 {
        Seq::<char>::empty()
    } else if ss.len() == 1 {
        ss[0]
    } else {
        ss[0] + sep + join_texts(ss.subrange(1, ss.len() as int), sep)
    }
}

fn push_join_from(s: &mut String, items: &Vec<String>, sep: &str, from: usize)
    requires
        from <= items@.len(),
    ensures
        final(s)@ == old(s)@ + join_texts(
            texts_view(items@).subrange(from as int, items@.len() as int),
            sep@,
        ),
    decreases items@.len() - from,
{
    let ghost whole = texts_view(items@);
    let ghost rest = whole.subrange(from as int, items@.len() as int);
    if from < items.len() {
        s.append(items[from].as_str());
        proof {
            assert(rest[0] == whole[from as int]);
        }
        if from + 1 < items.len() {
            s.append(sep);
            push_join_from(s, items, sep, from + 1);
            proof {
                assert(rest.subrange(1, rest.len() as int) =~= whole.subrange(
                    from as int + 1,
                    items@.len() as int,
                ));
                assert(final(s)@ =~= old(s)@ + join_texts(rest, sep@));
            }
        } else {
            proof {
                assert(rest.len() == 1);
            }
        }
    } else {
        proof {
            assert(rest =~= Seq::<Seq<char>>::empty());
        }
    }
}

/// Appends the given texts joined by a separator.
pub fn push_join(s: &mut String, items: &Vec<String>, sep: &str)
    ensures
        final(s)@ == old(s)@ + join_texts(texts_view(items@), sep@),
{
    push_join_from(s, items, sep, 0);
    proof {
        assert(texts_view(items@).subrange(0, items@.len() as int) =~= texts_view(items@));
    }
}

/// Relies on `String::push` of std: appends exactly the one character.
#[verifier::external_body]
pub fn push_char(s: &mut String, c: char)
    ensures
        final(s)@ == old(s)@ + seq![c],
{
    s.push(c);
}

/// Renders a whole number on its own, decimal.
pub fn render_u64(n: u64) -> (r: String)
    ensures
        r@ == dec_digits(n as nat),
{
    let mut s = String::new();
    push_dec_u64(&mut s, n);
    assert(s@ =~= dec_digits(n as nat));
    s
}

} // verus!
