//! Money formatting: the player's balance is jokingly shown in £sd —
//! pounds, shillings, pence and farthings.

use vstd::prelude::*;
use crate::codec::{spec_digits, u64_to_dec};

verus! {

/// The £sd rendering of an amount in milli currency units: pounds of 240,
/// shillings of 12, the leftover pence, and quarters of the fractional
/// part as farthings, as UTF-8 bytes in the shape
/// `£{l} {s}s {d}d {f}/4 f`.
pub open spec fn spec_lsd(milli: int) -> Seq<u8> {
    let whole = milli / 1000;
    seq![194u8, 163u8] + spec_digits(whole / 240) + seq![32u8]
        + spec_digits((whole % 240) / 12) + seq![115u8, 32u8]
        + spec_digits(whole % 12) + seq![100u8, 32u8]
        + spec_digits((milli % 1000) * 4 / 1000) + seq![47u8, 52u8, 32u8, 102u8]
}

/// Renders an amount of milli currency units as £sd text: pounds,
/// shillings, pence and farthings.
pub fn to_lsd(milli: u64) -> (out: Vec<u8>)
    ensures
        out@ == spec_lsd(milli as int),
{
    let whole = milli / 1000;
    let frac = milli % 1000;
    let mut out: Vec<u8> = Vec::new();
    out.push(194);
    out.push(163);
    let l = u64_to_dec(whole / 240);
    out.extend_from_slice(l.as_slice());
    out.push(32);
    let s = u64_to_dec((whole % 240) / 12);
    out.extend_from_slice(s.as_slice());
    out.push(115);
    out.push(32);
    let d = u64_to_dec(whole % 12);
    out.extend_from_slice(d.as_slice());
    out.push(100);
    out.push(32);
    let f = u64_to_dec(frac * 4 / 1000);
    out.extend_from_slice(f.as_slice());
    out.push(47);
    out.push(52);
    out.push(32);
    out.push(102);
    proof {
        assert(out@ =~= spec_lsd(milli as int));
    }
    out
}

} // verus!
