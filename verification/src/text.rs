//! Small text utilities: sequence views of string collections and the
//! decimal rendering of counters, used when repository options are turned
//! into command-line tokens.

use vstd::prelude::*;
use vstd::string::StringExecFns;

verus! {

/// The character sequences of a sequence of strings.
pub open spec fn views_of(s: Seq<String>) -> Seq<Seq<char>> {
    s.map_values(|x: String| x@)
}

/// The view of an optional string.
pub open spec fn opt_view(o: Option<String>) -> Option<Seq<char>> {
    match o {
        Some(s) => Some(s@),
        None => None,
    }
}

pub proof fn lemma_views_of_push(s: Seq<String>, x: String)
    ensures
        views_of(s.push(x)) == views_of(s).push(x@),
{
    assert(views_of(s.push(x)) =~= views_of(s).push(x@));
}

pub proof fn lemma_views_of_add(a: Seq<String>, b: Seq<String>)
    ensures
        views_of(a + b) == views_of(a) + views_of(b),
{
    assert(views_of(a + b) =~= views_of(a) + views_of(b));
}

/// The character for one decimal digit.
pub open spec fn decimal_digit(d: nat) -> char {
    if d == 0 {
        '0'
    } else if d == 1 {
        '1'
    } else if d == 2 {
        '2'
    } else if d == 3 {
        '3'
    } else if d == 4 {
        '4'
    } else if d == 5 {
        '5'
    } else if d == 6 {
        '6'
    } else if d == 7 {
        '7'
    } else if d == 8 {
        '8'
    } else {
        '9'
    }
}

/// The usual decimal rendering of a natural number: no sign, no leading
/// zeros (except for the number zero itself).
pub open spec fn decimal(n: nat) -> Seq<char>
    decreases n,
{
    if n < 10 {
        seq![decimal_digit(n)]
    } else {
        decimal(n / 10).push(decimal_digit(n % 10))
    }
}

fn digit_str(d: u64) -> (r: &'static str)
    requires
        d < 10,
    ensures
        r@ == seq![decimal_digit(d as nat)],
{
    proof {
        reveal_strlit("0");
        reveal_strlit("1");
        reveal_strlit("2");
        reveal_strlit("3");
        reveal_strlit("4");
        reveal_strlit("5");
        reveal_strlit("6");
        reveal_strlit("7");
        reveal_strlit("8");
        reveal_strlit("9");
    }
    let r: &'static str = match d {
        0 => "0",
        1 => "1",
        2 => "2",
        3 => "3",
        4 => "4",
        5 => "5",
        6 => "6",
        7 => "7",
        8 => "8",
        _ => "9",
    };
    proof {
        assert(r@ =~= seq![decimal_digit(d as nat)]);
    }
    r
}

/// Render a counter in decimal, as it appears on a command line.
pub fn u64_to_string(n: u64) -> (r: String)
    ensures
        r@ == decimal(n as nat),
    decreases n,
{
    if n < 10 {
        digit_str(n).to_owned()
    } else {
        proof {
            assert(n / 10 < n);
        }
        let mut r = u64_to_string(n / 10);
        r.append(digit_str(n % 10));
        proof {
            assert(r@ =~= decimal(n as nat));
        }
        r
    }
}

/// Relies on `char`'s `ToString` implementation: the returned string
/// contains exactly this one character.
#[verifier::external_body]
pub fn char_to_string(c: char) -> (r: String)
    ensures
        r@ == seq![c],
{
    c.to_string()
}

} // verus!
