//! Rendering of request parameter values: decimal numbers and comma-joined lists.

use vstd::prelude::*;
use vstd::string::*;

verus! {

/// The character that writes the decimal digit `d`.
pub open spec fn digit_char(d: nat) -> char {
    seq!['0', '1', '2', '3', '4', '5', '6', '7', '8', '9'][d as int]
}

/// The canonical decimal form of `n`: no sign, no leading zeros.
pub open spec fn decimal(n: nat) -> Seq<char>
    decreases n,
{
    if n < 10 {
        seq![digit_char(n)]
    } else {
        decimal(n / 10).push(digit_char(n % 10))
    }
}

/// The values of `parts`, in order, separated by commas.
pub open spec fn join_comma(parts: Seq<Seq<char>>) -> Seq<char>
    decreases parts.len(),
{
    if parts.len() == 0 {
        Seq::empty()
    } else if parts.len() == 1 {
        parts[0]
    } else {
        join_comma(parts.drop_last()) + seq![','] + parts.last()
    }
}

fn digit_str(d: u32) -> (r: &'static str)
    requires
        d < 10,
    ensures
        r@ == seq![digit_char(d as nat)],
{
    proof {
        reveal_strlit("0");
        reveal_strlit("1");
        reveal_strlit("2");
        reveal_strlit("3");
        reveal_strlit("4");
        reveal_strlit("5");
        reveal_strlit("6");
        reveal_strlit("7");
        reveal_strlit("8");
        reveal_strlit("9");
    }
    match d {
        0 => "0",
        1 => "1",
        2 => "2",
        3 => "3",
        4 => "4",
        5 => "5",
        6 => "6",
        7 => "7",
        8 => "8",
        _ => "9",
    }
}

/// Writes `n` in decimal, as a query parameter or a payload field carries it.
pub fn decimal_string(n: u32) -> (r: String)
    ensures
        r@ == decimal(n as nat),
    decreases n,
{
    if n < 10 {
        String::from_str(digit_str(n))
    } else {
        let mut s = decimal_string(n / 10);
        s.append(digit_str(n % 10));
        s
    }
}

/// Joins `parts` with commas, in order: the form in which a multi-valued
/// filter travels to the service.
pub fn join_values(parts: &Vec<String>) -> (r: String)
    ensures
        r@ == join_comma(parts.deep_view()),
{
    let mut s = String::new();
    let n = parts.len();
    let mut i: usize = 0;
    proof {
        assert(parts.deep_view().take(0) =~= Seq::<Seq<char>>::empty());
    }
    while i < n
        invariant
            n == parts.len(),
            i <= n,
            s@ == join_comma(parts.deep_view().take(i as int)),
        decreases n - i,
    {
        let ghost prev = parts.deep_view().take(i as int);
        let ghost next = parts.deep_view().take(i as int + 1);
        let ghost before = s@;
        if i > 0 {
            s.append(",");
            proof {
                reveal_strlit(",");
            }
            assert(s@ =~= before + seq![',']);
        }
        let ghost mid = s@;
        s.append(parts[i].as_str());
        assert(s@ == mid + parts[i as int]@);
        proof {
            assert(next.len() == i + 1);
            assert(next.drop_last() =~= prev);
            assert(next.last() == parts[i as int]@);
            if i == 0 {
                assert(s@ =~= next[0]);
            } else {
                assert(join_comma(next) == join_comma(prev) + seq![','] + next.last());
                assert(s@ =~= join_comma(next));
            }
        }
        i = i + 1;
    }
    proof {
        assert(parts.deep_view().take(n as int) =~= parts.deep_view());
    }
    s
}

} // verus!
