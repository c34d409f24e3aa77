//! TH04 item kinds (`item_type_t`, `th04/main/item/item.hpp`).

use vstd::prelude::*;

verus! {

pub const POWER: u8 = 0;
pub const POINT: u8 = 1;
pub const DREAM: u8 = 2;
pub const BIGPOWER: u8 = 3;
pub const BOMB: u8 = 4;
pub const ONEUP: u8 = 5;
pub const FULLPOWER: u8 = 6;

} // verus!
