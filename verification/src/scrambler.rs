//! The scrambling code that a cell's bursts are scrambled with.

use vstd::prelude::*;

verus! {

/// The initial value of the scrambling register: the 10 low bits of the mobile
/// country code, the 14 low bits of the mobile network code and the 6 low bits
/// of the colour code, in that order from the top, followed by two set bits.
pub open spec fn scramb_init(mcc: u16, mnc: u16, colour: u8) -> int {
    (((mcc % 1024) * 16384 + (mnc % 16384)) * 64 + (colour % 64)) * 4 + 3
}

/// The initial value of the scrambling register for a cell.
pub fn tetra_scramb_get_init(mcc: u16, mnc: u16, colour: u8) -> (code: u32)
    ensures
        code == scramb_init(mcc, mnc, colour),
        code % 4 == 3,
{
    let mcc: u32 = (mcc % 1024) as u32;
    let mnc: u32 = (mnc % 16384) as u32;
    let colour: u32 = (colour % 64) as u32;
    ((mcc * 16384 + mnc) * 64 + colour) * 4 + 3
}

} // verus!
