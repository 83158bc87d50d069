//! Device numbers of the NSFe `mixe` chunk.
use vstd::prelude::*;

verus! {

pub const APU_SQUARES: u8 = 0;
pub const APU_TND: u8 = 1;
pub const VRC6: u8 = 2;
pub const VRC7: u8 = 3;
pub const FDS: u8 = 4;
pub const MMC5: u8 = 5;
pub const N163: u8 = 6;
pub const S5B: u8 = 7;

} // verus!
