//! The usage bar: a run of `#`, centred between two brackets.

use vstd::prelude::*;
use crate::percentage::Percentage;

verus! {

/// The width between the brackets that the bar is centred in.
pub const BAR_WIDTH: u128 = 50;

/// `String::push` of std puts one character at the end of the string and
/// leaves the rest as it was.
pub assume_specification[ String::push ](s: &mut String, ch: char)
    ensures
        final(s)@ == old(s)@.push(ch),
;

/// `count` times the character `c`.
pub open spec fn run_of(c: char, count: nat) -> Seq<char> {
    Seq::new(count, |i: int| c)
}

/// How many `#` the bar of a percentage holds: one for every two percent,
/// rounded down.
pub open spec fn bar_fill(p: Percentage) -> nat {
    p.floor_div(2)
}

/// The blanks that centre a run of `fill` characters in `BAR_WIDTH`: none
/// where the run is as wide or wider.
pub open spec fn bar_padding(fill: nat) -> nat {
    if fill < BAR_WIDTH {
        (BAR_WIDTH - fill) as nat
    } else {
        0
    }
}

/// The bar with `fill` characters `#`: an opening bracket, the run centred
/// in `BAR_WIDTH` (of an odd number of blanks, the right side gets one
/// more), a closing bracket.
pub open spec fn bar_of(fill: nat) -> Seq<char> {
    seq!['['] + run_of(' ', bar_padding(fill) / 2) + run_of('#', fill) + run_of(
        ' ',
        (bar_padding(fill) + 1) / 2,
    ) + seq![']']
}

/// Puts `count` times the character `c` at the end of `out`.
pub fn push_run(out: &mut String, c: char, count: u128)
    ensures
        final(out)@ == old(out)@ + run_of(c, count as nat),
{
    let mut i: u128 = 0;
    assert(out@ =~= old(out)@ + run_of(c, 0));
    while i < count
        invariant
            i <= count,
            out@ == old(out)@ + run_of(c, i as nat),
        decreases count - i,
    {
        let ghost before = out@;
        out.push(c);
        assert(before.push(c) =~= old(out)@ + run_of(c, (i + 1) as nat));
        i += 1;
    }
}

/// The usage bar of a memory percentage.
pub fn usage_bar(p: Percentage) -> (bar: String)
    ensures
        bar@ == bar_of(bar_fill(p)),
{
    let fill: u128 = p.floor_of_quotient(2);
    let padding: u128 = if fill < BAR_WIDTH {
        BAR_WIDTH - fill
    } else {
        0
    };
    let mut bar = String::new();
    bar.push('[');
    assert(bar@ =~= seq!['[']);
    push_run(&mut bar, ' ', padding / 2);
    push_run(&mut bar, '#', fill);
    push_run(&mut bar, ' ', (padding + 1) / 2);
    bar.push(']');
    assert(bar@ =~= bar_of(bar_fill(p)));
    bar
}

} // verus!
