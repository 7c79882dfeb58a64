//! Parsing an `(r, g, b, a)` colour text into a `#RRGGBBAA` hex string.
//!
//! The input is stripped of surrounding parentheses and split on commas;
//! each piece is trimmed of whitespace and read as a byte, any unreadable
//! piece counting as zero; each byte renders as two uppercase hex digits.

use vstd::prelude::*;
use vstd::string::StrSliceExecFns;

use crate::labels::is_dec_digit;

verus! {

/// The characters stripped from the ends of the colour text.
pub open spec fn is_paren(c: char) -> bool {
    c == '(' || c == ')'
}

/// Whitespace, as the piece trimming understands it.
pub open spec fn is_space(c: char) -> bool {
    c == ' ' || c == '\t' || c == '\n' || c == '\u{b}' || c == '\u{c}' || c == '\r' || c == '\u{85}'
        || c == '\u{a0}' || c == '\u{1680}' || c == '\u{2000}' || c == '\u{2001}' || c == '\u{2002}'
        || c == '\u{2003}' || c == '\u{2004}' || c == '\u{2005}' || c == '\u{2006}'
        || c == '\u{2007}' || c == '\u{2008}' || c == '\u{2009}' || c == '\u{200a}'
        || c == '\u{2028}' || c == '\u{2029}' || c == '\u{202f}' || c == '\u{205f}'
        || c == '\u{3000}'
}

/// The text with all leading and trailing parentheses removed.
pub open spec fn trim_parens(s: Seq<char>) -> Seq<char>
    decreases s.len(),
{
    if s.len() > 0 && is_paren(s[0]) {
        trim_parens(s.skip(1))
    } else if s.len() > 0 && is_paren(s.last()) {
        trim_parens(s.drop_last())
    } else {
        s
    }
}

/// The text with all leading and trailing whitespace removed.
pub open spec fn trim_spaces(s: Seq<char>) -> Seq<char>
    decreases s.len(),
{
    if s.len() > 0 && is_space(s[0]) {
        trim_spaces(s.skip(1))
    } else if s.len() > 0 && is_space(s.last()) {
        trim_spaces(s.drop_last())
    } else {
        s
    }
}

/// The text split on commas; always at least one piece, commas included in
/// none.
pub open spec fn split_commas(s: Seq<char>) -> Seq<Seq<char>>
    decreases s.len(),
{
    if s.len() == 0 {
        seq![Seq::empty()]
    } else {
        let rest = split_commas(s.drop_last());
        if s.last() == ',' {
            rest.push(Seq::empty())
        } else {
            rest.update(rest.len() - 1, rest.last().push(s.last()))
        }
    }
}

pub proof fn lemma_split_commas_nonempty(s: Seq<char>)
    ensures
        split_commas(s).len() >= 1,
    decreases s.len(),
{
    if s.len() > 0 {
        lemma_split_commas_nonempty(s.drop_last());
    }
}

/// The value of one decimal digit character.
pub open spec fn digit_val(c: char) -> nat
    recommends
        is_dec_digit(c),
{
    if c == '0' {
        0
    } else if c == '1' {
        1
    } else if c == '2' {
        2
    } else if c == '3' {
        3
    } else if c == '4' {
        4
    } else if c == '5' {
        5
    } else if c == '6' {
        6
    } else if c == '7' {
        7
    } else if c == '8' {
        8
    } else {
        9
    }
}

/// The value of a digit string, most significant digit first.
pub open spec fn digits_val(s: Seq<char>) -> nat
    decreases s.len(),
{
    if s.len() == 0 {
        0
    } else {
        digits_val(s.drop_last()) * 10 + digit_val(s.last())
    }
}

pub open spec fn all_digits(s: Seq<char>) -> bool {
    forall|i: int| 0 <= i < s.len() ==> is_dec_digit(#[trigger] s[i])
}

/// A piece read as a byte the way the standard integer parser reads one: an
/// optional leading plus sign, then at least one digit, valuing at most 255;
/// anything else counts as zero.
pub open spec fn parse_u8_or_zero(s: Seq<char>) -> u8 {
    let t = if s.len() > 0 && s[0] == '+' {
        s.skip(1)
    } else {
        s
    };
    if t.len() > 0 && all_digits(t) && digits_val(t) <= 255 {
        digits_val(t) as u8
    } else {
        0
    }
}

/// One uppercase hex digit.
pub open spec fn hex_digit(d: nat) -> char {
    if d == 0 {
        '0'
    } else if d == 1 {
        '1'
    } else if d == 2 {
        '2'
    } else if d == 3 {
        '3'
    } else if d == 4 {
        '4'
    } else if d == 5 {
        '5'
    } else if d == 6 {
        '6'
    } else if d == 7 {
        '7'
    } else if d == 8 {
        '8'
    } else if d == 9 {
        '9'
    } else if d == 10 {
        'A'
    } else if d == 11 {
        'B'
    } else if d == 12 {
        'C'
    } else if d == 13 {
        'D'
    } else if d == 14 {
        'E'
    } else {
        'F'
    }
}

/// A byte as exactly two uppercase hex digits.
pub open spec fn hex_byte(b: u8) -> Seq<char> {
    seq![hex_digit(b as nat / 16), hex_digit(b as nat % 16)]
}

/// One comma-separated piece rendered: trimmed, read as a byte, in hex.
pub open spec fn piece_hex(p: Seq<char>) -> Seq<char> {
    hex_byte(parse_u8_or_zero(trim_spaces(p)))
}

/// All pieces rendered in order.
pub open spec fn pieces_hex(ps: Seq<Seq<char>>) -> Seq<char>
    decreases ps.len(),
{
    if ps.len() == 0 {
        Seq::empty()
    } else {
        pieces_hex(ps.drop_last()) + piece_hex(ps.last())
    }
}

/// The full rendering of an `(r, g, b, a)` colour text.
pub open spec fn rgba_hex(s: Seq<char>) -> Seq<char> {
    seq!['#'] + pieces_hex(split_commas(trim_parens(s)))
}

/// The characters of a string, in order.
fn str_chars(s: &str) -> (r: Vec<char>)
    ensures
        r@ == s@,
{
    let n = s.unicode_len();
    let mut r: Vec<char> = Vec::new();
    for i in 0..n
        invariant
            n == s@.len(),
            r@ == s@.take(i as int),
    {
        r.push(s.get_char(i));
        proof {
            assert(r@ =~= s@.take(i + 1));
        }
    }
    proof {
        assert(s@.take(n as int) =~= s@);
    }
    r
}

/// Whether the character is trimmed from a piece's ends.
fn is_space_char(c: char) -> (r: bool)
    ensures
        r == is_space(c),
{
    c == ' ' || c == '\t' || c == '\n' || c == '\u{b}' || c == '\u{c}' || c == '\r' || c == '\u{85}'
        || c == '\u{a0}' || c == '\u{1680}' || c == '\u{2000}' || c == '\u{2001}' || c == '\u{2002}'
        || c == '\u{2003}' || c == '\u{2004}' || c == '\u{2005}' || c == '\u{2006}'
        || c == '\u{2007}' || c == '\u{2008}' || c == '\u{2009}' || c == '\u{200a}'
        || c == '\u{2028}' || c == '\u{2029}' || c == '\u{202f}' || c == '\u{205f}'
        || c == '\u{3000}'
}

/// The value of a decimal digit character, or nothing for any other.
fn digit_value(c: char) -> (r: Option<u8>)
    ensures
        r is Some <==> is_dec_digit(c),
        r matches Some(d) ==> d == digit_val(c),
{
    match c {
        '0' => Some(0),
        '1' => Some(1),
        '2' => Some(2),
        '3' => Some(3),
        '4' => Some(4),
        '5' => Some(5),
        '6' => Some(6),
        '7' => Some(7),
        '8' => Some(8),
        '9' => Some(9),
        _ => None,
    }
}

/// The text of one uppercase hex digit.
fn hex_digit_str(d: u8) -> (r: &'static str)
    requires
        d < 16,
    ensures
        r@ == seq![hex_digit(d as nat)],
{
    proof {
        reveal_strlit("0");
        reveal_strlit("1");
        reveal_strlit("2");
        reveal_strlit("3");
        reveal_strlit("4");
        reveal_strlit("5");
        reveal_strlit("6");
        reveal_strlit("7");
        reveal_strlit("8");
        reveal_strlit("9");
        reveal_strlit("A");
        reveal_strlit("B");
        reveal_strlit("C");
        reveal_strlit("D");
        reveal_strlit("E");
        reveal_strlit("F");
    }
    match d {
        0 => "0",
        1 => "1",
        2 => "2",
        3 => "3",
        4 => "4",
        5 => "5",
        6 => "6",
        7 => "7",
        8 => "8",
        9 => "9",
        10 => "A",
        11 => "B",
        12 => "C",
        13 => "D",
        14 => "E",
        _ => "F",
    }
}

/// Appends a byte as two uppercase hex digits.
fn push_hex(out: &mut String, b: u8)
    ensures
        final(out)@ == old(out)@ + hex_byte(b),
{
    let high = hex_digit_str(b / 16);
    out.append(high);
    let low = hex_digit_str(b % 16);
    out.append(low);
    proof {
        assert(out@ =~= old(out)@ + hex_byte(b));
    }
}

/// Reads one comma-separated piece as a byte: trimmed of whitespace, an
/// optional plus sign, then digits valuing at most 255; else zero.
fn parse_component(piece: &Vec<char>) -> (r: u8)
    ensures
        r == parse_u8_or_zero(trim_spaces(piece@)),
{
    let mut lo: usize = 0;
    let mut hi: usize = piece.len();
    proof {
        assert(piece@.subrange(0, piece.len() as int) =~= piece@);
    }
    while lo < hi && is_space_char(piece[lo])
        invariant
            lo <= hi <= piece.len(),
            trim_spaces(piece@) == trim_spaces(piece@.subrange(lo as int, hi as int)),
        decreases hi - lo,
    {
        proof {
            assert(piece@.subrange(lo as int, hi as int).skip(1) =~= piece@.subrange(
                lo as int + 1,
                hi as int,
            ));
        }
        lo = lo + 1;
    }
    while lo < hi && is_space_char(piece[hi - 1])
        invariant
            lo <= hi <= piece.len(),
            trim_spaces(piece@) == trim_spaces(piece@.subrange(lo as int, hi as int)),
            lo < hi ==> !is_space(piece@[lo as int]),
        decreases hi - lo,
    {
        proof {
            assert(piece@.subrange(lo as int, hi as int).drop_last() =~= piece@.subrange(
                lo as int,
                hi as int - 1,
            ));
        }
        hi = hi - 1;
    }
    let ghost ts = trim_spaces(piece@);
    proof {
        assert(ts == piece@.subrange(lo as int, hi as int));
    }
    let mut i = lo;
    if i < hi && piece[i] == '+' {
        i = i + 1;
    }
    let ghost t = piece@.subrange(i as int, hi as int);
    proof {
        if ts.len() > 0 && ts[0] == '+' {
            assert(t =~= ts.skip(1));
        } else {
            assert(t =~= ts);
        }
    }
    if i >= hi {
        return 0;
    }
    let mut acc: u32 = 0;
    let mut j = i;
    while j < hi
        invariant
            lo <= i <= j <= hi <= piece.len(),
            ts == trim_spaces(piece@),
            t == (if ts.len() > 0 && ts[0] == '+' {
                ts.skip(1)
            } else {
                ts
            }),
            t == piece@.subrange(i as int, hi as int),
            t.len() == hi - i,
            all_digits(t.take(j - i)),
            digits_val(t.take(j - i)) <= 255 ==> acc == digits_val(t.take(j - i)),
            digits_val(t.take(j - i)) > 255 ==> acc == 256,
            acc <= 256,
        decreases hi - j,
    {
        let c = piece[j];
        proof {
            assert(t[j - i] == c);
        }
        match digit_value(c) {
            None => {
                proof {
                    assert(!is_dec_digit(t[j - i]));
                    assert(!all_digits(t));
                }
                return 0;
            },
            Some(d) => {
                acc = acc * 10 + d as u32;
                if acc > 255 {
                    acc = 256;
                }
            },
        }
        proof {
            assert(t.take(j - i + 1).drop_last() =~= t.take(j - i));
            assert(t.take(j - i + 1).last() == t[j - i]);
            assert(digits_val(t.take(j - i + 1)) == digits_val(t.take(j - i)) * 10 + digit_val(c));
        }
        j = j + 1;
    }
    proof {
        assert(t.take(hi - i) =~= t);
    }
    if acc <= 255 {
        acc as u8
    } else {
        0
    }
}

/// Renders an `(r, g, b, a)` colour text as `#` followed by two uppercase
/// hex digits per component; an unreadable component counts as zero.
pub fn from_str_to_hex(rgba_string: &str) -> (r: String)
    ensures
        r@ == rgba_hex(rgba_string@),
{
    let chars = str_chars(rgba_string);
    let mut lo: usize = 0;
    let mut hi: usize = chars.len();
    proof {
        assert(chars@.subrange(0, chars.len() as int) =~= chars@);
    }
    while lo < hi && (chars[lo] == '(' || chars[lo] == ')')
        invariant
            lo <= hi <= chars.len(),
            chars@ == rgba_string@,
            trim_parens(rgba_string@) == trim_parens(chars@.subrange(lo as int, hi as int)),
        decreases hi - lo,
    {
        proof {
            assert(chars@.subrange(lo as int, hi as int).skip(1) =~= chars@.subrange(
                lo as int + 1,
                hi as int,
            ));
        }
        lo = lo + 1;
    }
    while lo < hi && (chars[hi - 1] == '(' || chars[hi - 1] == ')')
        invariant
            lo <= hi <= chars.len(),
            chars@ == rgba_string@,
            trim_parens(rgba_string@) == trim_parens(chars@.subrange(lo as int, hi as int)),
            lo < hi ==> !is_paren(chars@[lo as int]),
        decreases hi - lo,
    {
        proof {
            assert(chars@.subrange(lo as int, hi as int).drop_last() =~= chars@.subrange(
                lo as int,
                hi as int - 1,
            ));
        }
        hi = hi - 1;
    }
    let ghost tv = trim_parens(rgba_string@);
    proof {
        assert(tv == chars@.subrange(lo as int, hi as int));
        lemma_split_commas_nonempty(tv.take(0));
    }
    proof {
        reveal_strlit("#");
    }
    let mut out: String = "#".to_owned();
    let mut cur: Vec<char> = Vec::new();
    let mut k = lo;
    while k < hi
        invariant
            lo <= k <= hi <= chars.len(),
            chars@ == rgba_string@,
            tv == chars@.subrange(lo as int, hi as int),
            tv.len() == hi - lo,
            split_commas(tv.take(k - lo)).len() >= 1,
            cur@ == split_commas(tv.take(k - lo)).last(),
            out@ == seq!['#'] + pieces_hex(split_commas(tv.take(k - lo)).drop_last()),
        decreases hi - k,
    {
        let ghost pieces = split_commas(tv.take(k - lo));
        let c = chars[k];
        proof {
            assert(tv[k - lo] == c);
            assert(tv.take(k - lo + 1).drop_last() =~= tv.take(k - lo));
            assert(tv.take(k - lo + 1).last() == c);
        }
        if c == ',' {
            let b = parse_component(&cur);
            push_hex(&mut out, b);
            cur = Vec::new();
            proof {
                let pieces2 = split_commas(tv.take(k - lo + 1));
                assert(pieces2 == pieces.push(Seq::empty()));
                assert(pieces2.drop_last() =~= pieces);
                assert(pieces_hex(pieces) == pieces_hex(pieces.drop_last()) + piece_hex(
                    pieces.last(),
                ));
            }
        } else {
            cur.push(c);
            proof {
                let pieces2 = split_commas(tv.take(k - lo + 1));
                assert(pieces2 == pieces.update(pieces.len() - 1, pieces.last().push(c)));
                assert(pieces2.drop_last() =~= pieces.drop_last());
                assert(pieces2.last() == pieces.last().push(c));
            }
        }
        k = k + 1;
    }
    proof {
        assert(tv.take(hi - lo) =~= tv);
    }
    let b = parse_component(&cur);
    push_hex(&mut out, b);
    proof {
        let pieces = split_commas(tv);
        assert(pieces_hex(pieces) == pieces_hex(pieces.drop_last()) + piece_hex(pieces.last()));
        assert(out@ =~= rgba_hex(rgba_string@));
    }
    out
}

} // verus!
