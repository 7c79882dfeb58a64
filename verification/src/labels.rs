//! Deterministic, collision-free naming of filter-graph pads.
//!
//! A stream's unprocessed input is named by the decimal rendering of its id;
//! the result of the `k`-th filter applied to that stream is named
//! `r<id><k>`.  Distinct versions of one stream never share a label, and
//! streams with distinct single-digit ids never share a label either.

use vstd::prelude::*;

verus! {

/// The character for one decimal digit.
pub open spec fn digit_char(d: nat) -> char {
    if d == 0 {
        '0'
    } else if d == 1 {
        '1'
    } else if d == 2 {
        '2'
    } else if d == 3 {
        '3'
    } else if d == 4 {
        '4'
    } else if d == 5 {
        '5'
    } else if d == 6 {
        '6'
    } else if d == 7 {
        '7'
    } else if d == 8 {
        '8'
    } else {
        '9'
    }
}

/// The decimal rendering of a natural number, most significant digit first.
pub open spec fn dec_str(n: nat) -> Seq<char>
    decreases n,
{
    if n < 10 {
        seq![digit_char(n)]
    } else {
        dec_str(n / 10).push(digit_char(n % 10))
    }
}

/// True of the ten decimal digit characters.
pub open spec fn is_dec_digit(c: char) -> bool {
    c == '0' || c == '1' || c == '2' || c == '3' || c == '4' || c == '5' || c == '6' || c == '7'
        || c == '8' || c == '9'
}

/// The pad name of a stream's unprocessed input.
pub open spec fn initial_label(id: u32) -> Seq<char> {
    dec_str(id as nat)
}

/// The pad name of the result of the `k`-th filter applied to stream `id`.
pub open spec fn result_label(id: u32, k: nat) -> Seq<char> {
    seq!['r'] + dec_str(id as nat) + dec_str(k)
}

pub proof fn lemma_dec_str_len(n: nat)
    ensures
        dec_str(n).len() >= 1,
        n >= 10 ==> dec_str(n).len() >= 2,
    decreases n,
{
    if n >= 10 {
        lemma_dec_str_len(n / 10);
    }
}

pub proof fn lemma_digit_char_injective(a: nat, b: nat)
    requires
        a < 10,
        b < 10,
        digit_char(a) == digit_char(b),
    ensures
        a == b,
{
}

pub proof fn lemma_dec_str_digits(n: nat)
    ensures
        forall|i: int| 0 <= i < dec_str(n).len() ==> is_dec_digit(#[trigger] dec_str(n)[i]),
    decreases n,
{
    if n < 10 {
        assert(dec_str(n)[0] == digit_char(n));
    } else {
        lemma_dec_str_digits(n / 10);
        let prefix = dec_str(n / 10);
        assert(dec_str(n) == prefix.push(digit_char(n % 10)));
        assert forall|i: int| 0 <= i < dec_str(n).len() implies is_dec_digit(
            #[trigger] dec_str(n)[i],
        ) by {
            if i < prefix.len() {
                assert(dec_str(n)[i] == prefix[i]);
            } else {
                assert(dec_str(n)[i] == digit_char(n % 10));
            }
        }
    }
}

/// Two distinct numbers never render to the same decimal text.
pub proof fn lemma_dec_str_injective(a: nat, b: nat)
    requires
        dec_str(a) == dec_str(b),
    ensures
        a == b,
    decreases a,
{
    lemma_dec_str_len(a);
    lemma_dec_str_len(b);
    if a < 10 && b < 10 {
        assert(dec_str(a)[0] == digit_char(a));
        assert(dec_str(b)[0] == digit_char(b));
        lemma_digit_char_injective(a, b);
    } else if a >= 10 && b >= 10 {
        let pa = dec_str(a / 10);
        let pb = dec_str(b / 10);
        assert(dec_str(a) == pa.push(digit_char(a % 10)));
        assert(dec_str(b) == pb.push(digit_char(b % 10)));
        assert(pa.len() == pb.len());
        assert(dec_str(a).last() == digit_char(a % 10));
        assert(dec_str(b).last() == digit_char(b % 10));
        lemma_digit_char_injective(a % 10, b % 10);
        assert forall|i: int| 0 <= i < pa.len() implies pa[i] == pb[i] by {
            assert(dec_str(a)[i] == pa[i]);
            assert(dec_str(b)[i] == pb[i]);
        }
        assert(pa =~= pb);
        lemma_dec_str_injective(a / 10, b / 10);
    } else if a < 10 {
        assert(dec_str(a).len() == 1 && dec_str(b).len() >= 2);
    } else {
        assert(dec_str(b).len() == 1 && dec_str(a).len() >= 2);
    }
}

/// For a fixed stream id, successive versions never repeat a prior label.
pub proof fn lemma_result_label_version_injective(id: u32, k1: nat, k2: nat)
    requires
        result_label(id, k1) == result_label(id, k2),
    ensures
        k1 == k2,
{
    let p = 1 + dec_str(id as nat).len();
    lemma_dec_str_len(id as nat);
    lemma_dec_str_len(k1);
    lemma_dec_str_len(k2);
    assert(result_label(id, k1).len() == p + dec_str(k1).len());
    assert(result_label(id, k2).len() == p + dec_str(k2).len());
    assert(result_label(id, k1).subrange(p as int, result_label(id, k1).len() as int)
        =~= dec_str(k1));
    assert(result_label(id, k2).subrange(p as int, result_label(id, k2).len() as int)
        =~= dec_str(k2));
    lemma_dec_str_injective(k1, k2);
}

/// Labels of two streams with distinct single-digit ids never collide.
pub proof fn lemma_result_label_distinct_ids(id1: u32, k1: nat, id2: u32, k2: nat)
    requires
        id1 != id2,
        id1 < 10,
        id2 < 10,
    ensures
        result_label(id1, k1) != result_label(id2, k2),
{
    assert(result_label(id1, k1)[1] == digit_char(id1 as nat));
    assert(result_label(id2, k2)[1] == digit_char(id2 as nat));
}

/// A stream's initial label is never a filter's result label.
pub proof fn lemma_initial_label_not_result_label(id1: u32, id2: u32, k: nat)
    ensures
        initial_label(id1) != result_label(id2, k),
{
    lemma_dec_str_len(id1 as nat);
    lemma_dec_str_digits(id1 as nat);
    assert(result_label(id2, k)[0] == 'r');
    assert(is_dec_digit(initial_label(id1)[0]));
}

/// The decimal rendering of an integer, with a leading minus sign when negative.
pub open spec fn sdec_str(n: int) -> Seq<char> {
    if n < 0 {
        seq!['-'] + dec_str((-n) as nat)
    } else {
        dec_str(n as nat)
    }
}

/// The text of one decimal digit.
pub(crate) fn digit_str(d: u64) -> (r: &'static str)
    requires
        d < 10,
    ensures
        r@ == seq![digit_char(d as nat)],
{
    proof {
        reveal_strlit("0");
        reveal_strlit("1");
        reveal_strlit("2");
        reveal_strlit("3");
        reveal_strlit("4");
        reveal_strlit("5");
        reveal_strlit("6");
        reveal_strlit("7");
        reveal_strlit("8");
        reveal_strlit("9");
    }
    match d {
        0 => "0",
        1 => "1",
        2 => "2",
        3 => "3",
        4 => "4",
        5 => "5",
        6 => "6",
        7 => "7",
        8 => "8",
        _ => "9",
    }
}

/// Renders a number in decimal, matching `dec_str`.
pub fn u64_to_string(n: u64) -> (r: String)
    ensures
        r@ == dec_str(n as nat),
    decreases n,
{
    if n < 10 {
        let d: &str = digit_str(n);
        d.to_owned()
    } else {
        let mut s = u64_to_string(n / 10);
        let d: &str = digit_str(n % 10);
        s.append(d);
        assert(s@ =~= dec_str(n as nat));
        s
    }
}

/// Renders a signed number in decimal, matching `sdec_str`.
pub fn i64_to_string(n: i64) -> (r: String)
    requires
        n > i64::MIN,
    ensures
        r@ == sdec_str(n as int),
{
    if n < 0 {
        proof {
            reveal_strlit("-");
        }
        let mut s: String = "-".to_owned();
        let rest = u64_to_string((-n) as u64);
        s.append(rest.as_str());
        assert(s@ =~= sdec_str(n as int));
        s
    } else {
        u64_to_string(n as u64)
    }
}

} // verus!
