//! Text helpers over `String`, whose view is the sequence of its characters:
//! joining, decimal numerals, and the standard library's text functions that
//! the commands rely on.

use vstd::prelude::*;

verus! {

/// The text of `a` followed by the text of `b`.
pub fn concat2(a: &str, b: &str) -> (res: String)
    ensures
        res@ == a@ + b@,
{
    let mut s = String::from_str(a);
    s.append(b);
    s
}

/// The text of `a`, `b` and `c`, one after another.
pub fn concat3(a: &str, b: &str, c: &str) -> (res: String)
    ensures
        res@ == a@ + b@ + c@,
{
    let mut s = concat2(a, b);
    s.append(c);
    s
}

/// The items of `list` with `sep` between each two neighbours.
pub open spec fn joined(list: Seq<Seq<char>>, sep: Seq<char>) -> Seq<char>
    decreases list.len(),
{
    if list.len() == 0 {
        Seq::empty()
    } else if list.len() == 1 {
        list[0]
    } else {
        joined(list.drop_last(), sep) + sep + list.last()
    }
}

/// Joins the texts of `list` with `sep` between each two neighbours.
pub fn join_with(list: &Vec<String>, sep: &str) -> (res: String)
    ensures
        res@ == joined(list.deep_view(), sep@),
{
    let mut res = String::new();
    let ghost items = list.deep_view();
    let n: usize = list.len();
    for i in 0..n
        invariant
            n == list.len(),
            items == list.deep_view(),
            res@ == joined(items.take(i as int), sep@),
    {
        assert(items.take(i + 1).drop_last() =~= items.take(i as int));
        assert(items.take(i + 1).last() == list[i as int]@);
        if i != 0 {
            res.append(sep);
        }
        res.append(list[i].as_str());
        if i == 0 {
            assert(items.take(1).len() == 1);
        }
    }
    assert(items.take(n as int) =~= items);
    res
}

/// The ten decimal digits, in order of value.
pub const DIGITS: &'static str = "0123456789";

/// The decimal numeral of a natural number, without leading zeros.
pub open spec fn decimal_digits(n: nat) -> Seq<char>
    decreases n,
{
    if n < 10 {
        seq![DIGITS@[n as int]]
    } else {
        decimal_digits(n / 10).push(DIGITS@[(n % 10) as int])
    }
}

/// The decimal numeral of an integer, with a leading `-` when it is negative.
pub open spec fn decimal_text(v: int) -> Seq<char> {
    if v < 0 {
        seq!['-'] + decimal_digits((-v) as nat)
    } else {
        decimal_digits(v as nat)
    }
}

/// The decimal numeral of `n`.
pub fn decimal_of_u64(n: u64) -> (res: String)
    ensures
        res@ == decimal_digits(n as nat),
    decreases n,
{
    proof {
        reveal_strlit("0123456789");
    }
    let d: usize = (n % 10) as usize;
    let digit = DIGITS.substring_char(d, d + 1);
    assert(digit@ =~= seq![DIGITS@[d as int]]);
    if n < 10 {
        String::from_str(digit)
    } else {
        let mut s = decimal_of_u64(n / 10);
        s.append(digit);
        assert(s@ =~= decimal_digits((n / 10) as nat).push(DIGITS@[(n % 10) as int]));
        s
    }
}

/// The decimal numeral of `v`, as `Display` writes an `i32`.
pub fn decimal_of_i32(v: i32) -> (res: String)
    ensures
        res@ == decimal_text(v as int),
{
    if v < 0 {
        let magnitude: u64 = (-(v as i64)) as u64;
        let digits = decimal_of_u64(magnitude);
        let res = concat2("-", digits.as_str());
        proof {
            reveal_strlit("-");
        }
        assert(res@ =~= seq!['-'] + decimal_digits((-v) as nat));
        res
    } else {
        decimal_of_u64(v as u64)
    }
}

} // verus!
