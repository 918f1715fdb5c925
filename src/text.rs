//! Building diagnostic and response text.
use vstd::prelude::*;

verus! {

/// Relies on `String::push`: the character is appended at the end.
#[verifier::external_body]
pub(crate) fn push_char(s: &mut String, c: char)
    ensures
        final(s)@ == old(s)@.push(c),
{
    s.push(c)
}

/// The decimal digit of a value below ten.
pub open spec fn digit(d: nat) -> char {
    if d == 0 { '0' }
    else if d == 1 { '1' }
    else if d == 2 { '2' }
    else if d == 3 { '3' }
    else if d == 4 { '4' }
    else if d == 5 { '5' }
    else if d == 6 { '6' }
    else if d == 7 { '7' }
    else if d == 8 { '8' }
    else { '9' }
}

/// The decimal form of `n`, without leading zeros.
pub open spec fn decimal(n: nat) -> Seq<char>
    decreases n,
{
    if n < 10 {
        seq![digit(n)]
    } else {
        decimal(n / 10).push(digit(n % 10))
    }
}

/// The decimal forms of `args`, separated by semicolons.
pub open spec fn joined(args: Seq<u32>) -> Seq<char>
    decreases args.len(),
{
    if args.len() == 0 {
        Seq::empty()
    } else if args.len() == 1 {
        decimal(args[0] as nat)
    } else {
        joined(args.drop_last()) + seq![';'] + decimal(args.last() as nat)
    }
}

fn digit_char(d: u32) -> (r: char)
    requires
        d < 10,
    ensures
        r == digit(d as nat),
{
    match d {
        0 => '0',
        1 => '1',
        2 => '2',
        3 => '3',
        4 => '4',
        5 => '5',
        6 => '6',
        7 => '7',
        8 => '8',
        _ => '9',
    }
}

/// Appends the decimal form of `n`.
pub fn push_decimal(s: &mut String, n: u32)
    ensures
        final(s)@ == old(s)@ + decimal(n as nat),
    decreases n,
{
    if n >= 10 {
        push_decimal(s, n / 10);
    }
    push_char(s, digit_char(n % 10));
    assert(s@ =~= old(s)@ + decimal(n as nat));
}

/// Appends the decimal forms of `args`, separated by semicolons.
pub fn push_joined(s: &mut String, args: &Vec<u32>)
    ensures
        final(s)@ == old(s)@ + joined(args@),
{
    let ghost start = s@;
    let mut i: usize = 0;
    while i < args.len()
        invariant
            i <= args.len(),
            s@ == start + joined(args@.take(i as int)),
        decreases args.len() - i,
    {
        if i > 0 {
            push_char(s, ';');
        }
        push_decimal(s, args[i]);
        proof {
            let next = args@.take(i + 1);
            assert(next.drop_last() =~= args@.take(i as int));
            assert(next.last() == args@[i as int]);
            if i == 0 {
                assert(args@.take(0) =~= Seq::<u32>::empty());
            }
            assert(s@ =~= start + joined(next));
        }
        i = i + 1;
    }
    assert(args@.take(args.len() as int) =~= args@);
}

} // verus!
