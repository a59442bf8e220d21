//! Decimal text of integers and the bracketed text of integer lists, as they
//! appear in query strings.
use vstd::prelude::*;

verus! {

/// The character of a decimal digit.
pub open spec fn digit_char(d: nat) -> char {
    if d == 0 { '0' } else if d == 1 { '1' } else if d == 2 { '2' } else if d == 3 { '3' }
    else if d == 4 { '4' } else if d == 5 { '5' } else if d == 6 { '6' } else if d == 7 { '7' }
    else if d == 8 { '8' } else { '9' }
}

/// The decimal digits of `n`, without leading zeros.
pub open spec fn digits(n: nat) -> Seq<char>
    decreases n,
{
    if n < 10 {
        seq![digit_char(n)]
    } else {
        digits(n / 10) + seq![digit_char(n % 10)]
    }
}

/// The decimal text of `n`, with a leading `-` when it is negative.
pub open spec fn int_text(n: int) -> Seq<char> {
    if n < 0 {
        seq!['-'] + digits((-n) as nat)
    } else {
        digits(n as nat)
    }
}

/// The items' decimal texts, separated by `", "`.
pub open spec fn joined(items: Seq<i64>) -> Seq<char>
    decreases items.len(),
{
    if items.len() == 0 {
        Seq::empty()
    } else if items.len() == 1 {
        int_text(items[0] as int)
    } else {
        joined(items.drop_last()) + seq![',', ' '] + int_text(items.last() as int)
    }
}

/// A list of integers as `[1, 2, 3]`; the empty list is `[]`.
pub open spec fn list_text(items: Seq<i64>) -> Seq<char> {
    seq!['['] + joined(items) + seq![']']
}

fn digit_str(d: u64) -> (r: &'static str)
    requires
        d < 10,
    ensures
        r@ == seq![digit_char(d as nat)],
{
    if d == 0 { proof { reveal_strlit("0"); } "0" }
    else if d == 1 { proof { reveal_strlit("1"); } "1" }
    else if d == 2 { proof { reveal_strlit("2"); } "2" }
    else if d == 3 { proof { reveal_strlit("3"); } "3" }
    else if d == 4 { proof { reveal_strlit("4"); } "4" }
    else if d == 5 { proof { reveal_strlit("5"); } "5" }
    else if d == 6 { proof { reveal_strlit("6"); } "6" }
    else if d == 7 { proof { reveal_strlit("7"); } "7" }
    else if d == 8 { proof { reveal_strlit("8"); } "8" }
    else { proof { reveal_strlit("9"); } "9" }
}

/// Appends the decimal digits of `n`.
pub fn push_nat(out: &mut String, n: u64)
    ensures
        final(out)@ == old(out)@ + digits(n as nat),
    decreases n,
{
    if n >= 10 {
        push_nat(out, n / 10);
    }
    out.append(digit_str(n % 10));
    proof {
        if n >= 10 {
            assert(old(out)@ + digits(n as nat) =~= old(out)@ + digits((n / 10) as nat) + seq![digit_char((n % 10) as nat)]);
        } else {
            assert(n % 10 == n);
        }
    }
}

/// Appends the decimal text of `n`.
pub fn push_int(out: &mut String, n: i64)
    ensures
        final(out)@ == old(out)@ + int_text(n as int),
{
    if n < 0 {
        out.append("-");
        proof { reveal_strlit("-"); }
        let m: i128 = -(n as i128);
        push_nat(out, m as u64);
        proof {
            assert(final(out)@ =~= old(out)@ + int_text(n as int));
        }
    } else {
        push_nat(out, n as u64);
    }
}

/// The decimal text of `n`.
pub fn int_string(n: i64) -> (r: String)
    ensures
        r@ == int_text(n as int),
{
    let mut out = String::new();
    push_int(&mut out, n);
    proof { assert(out@ =~= int_text(n as int)); }
    out
}

/// Appends `items` as `[1, 2, 3]`.
pub fn push_list(out: &mut String, items: &Vec<i64>)
    ensures
        final(out)@ == old(out)@ + list_text(items@),
{
    let ghost start = old(out)@;
    out.append("[");
    proof { reveal_strlit("["); reveal_strlit(", "); reveal_strlit("]"); }
    let mut i: usize = 0;
    while i < items.len()
        invariant
            i <= items@.len(),
            out@ == start + seq!['['] + joined(items@.subrange(0, i as int)),
        decreases items@.len() - i,
    {
        let ghost before = items@.subrange(0, i as int);
        let ghost after = items@.subrange(0, i + 1);
        assert(after.drop_last() =~= before);
        if i > 0 {
            out.append(", ");
        }
        push_int(out, items[i]);
        proof {
            assert(after.last() == items@[i as int]);
            reveal_strlit(", ");
            assert(", "@ =~= seq![',', ' ']);
            assert(out@ =~= start + seq!['['] + joined(after));
        }
        i = i + 1;
    }
    out.append("]");
    proof {
        reveal_strlit("]");
        assert(items@.subrange(0, items@.len() as int) =~= items@);
        assert(out@ =~= start + list_text(items@));
    }
}

} // verus!
