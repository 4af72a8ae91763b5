//! Decimal rendering of indices and of index chains, and names.

use vstd::prelude::*;
use vstd::string::*;

verus! {

/// The character of a decimal digit.
pub open spec fn digit_char(d: nat) -> char {
    if d == 0 { '0' }
    else if d == 1 { '1' }
    else if d == 2 { '2' }
    else if d == 3 { '3' }
    else if d == 4 { '4' }
    else if d == 5 { '5' }
    else if d == 6 { '6' }
    else if d == 7 { '7' }
    else if d == 8 { '8' }
    else { '9' }
}

/// The decimal rendering of a natural number, without leading zeros.
pub open spec fn decimal(n: nat) -> Seq<char>
    decreases n,
{
    if n < 10 {
        seq![digit_char(n)]
    } else {
        decimal(n / 10).push(digit_char(n % 10))
    }
}

fn digit_str(d: usize) -> (s: &'static str)
    requires
        d < 10,
    ensures
        s@ == seq![digit_char(d as nat)],
{
    proof {
        reveal_strlit("0");
        reveal_strlit("1");
        reveal_strlit("2");
        reveal_strlit("3");
        reveal_strlit("4");
        reveal_strlit("5");
        reveal_strlit("6");
        reveal_strlit("7");
        reveal_strlit("8");
        reveal_strlit("9");
    }
    if d == 0 { "0" }
    else if d == 1 { "1" }
    else if d == 2 { "2" }
    else if d == 3 { "3" }
    else if d == 4 { "4" }
    else if d == 5 { "5" }
    else if d == 6 { "6" }
    else if d == 7 { "7" }
    else if d == 8 { "8" }
    else { "9" }
}

/// Renders an index in decimal, as an item without a value of its own is named.
pub fn usize_to_string(n: usize) -> (s: String)
    ensures
        s@ == decimal(n as nat),
    decreases n,
{
    if n < 10 {
        String::from_str(digit_str(n))
    } else {
        let head = usize_to_string(n / 10);
        let tail = digit_str(n % 10);
        head.concat(tail)
    }
}

/// A decimal rendering is never empty.
pub proof fn lemma_decimal_nonempty(n: nat)
    ensures
        decimal(n).len() > 0,
    decreases n,
{
    if n >= 10 {
        lemma_decimal_nonempty(n / 10);
    }
}

/// Index chains joined by underscores: `[2, 1]` becomes `"2_1"`.
pub open spec fn chain_name(chain: Seq<usize>) -> Seq<char>
    decreases chain.len(),
{
    if chain.len() == 0 {
        Seq::empty()
    } else if chain.len() == 1 {
        decimal(chain[0] as nat)
    } else {
        chain_name(chain.drop_last()) + seq!['_'] + decimal(chain.last() as nat)
    }
}

/// Joins the decimal renderings of an index chain with underscores.
pub fn join_chain(chain: &Vec<usize>) -> (s: String)
    ensures
        s@ == chain_name(chain@),
{
    let mut s = String::new();
    let mut i: usize = 0;
    proof { reveal_strlit("_"); }
    while i < chain.len()
        invariant
            i <= chain.len(),
            s@ == chain_name(chain@.take(i as int)),
        decreases chain.len() - i,
    {
        let part = usize_to_string(chain[i]);
        let ghost before = s@;
        if i > 0 {
            s.append("_");
        }
        s.append(part.as_str());
        proof {
            reveal_strlit("_");
            let t = chain@.take(i + 1);
            assert(t.drop_last() =~= chain@.take(i as int));
            assert(t.last() == chain@[i as int]);
            if i == 0 {
                assert(t.len() == 1);
                assert(before =~= Seq::<char>::empty());
                assert(s@ =~= decimal(t[0] as nat));
            } else {
                assert(s@ =~= before + seq!['_'] + decimal(t.last() as nat));
            }
        }
        i = i + 1;
    }
    assert(chain@.take(chain.len() as int) =~= chain@);
    s
}

/// Whether a string is the given name.
pub fn is_named(s: &String, name: &str) -> (r: bool)
    ensures
        r == (s@ == name@),
{
    let n = name.to_owned();
    *s == n
}

} // verus!
