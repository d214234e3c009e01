//! The data-length code (DLC) of a flexible-data-rate CAN frame encodes the
//! payload size non-linearly: codes 0 through 8 mean that many bytes, while
//! the codes above 8 select one of the larger size classes up to 64 bytes.

use vstd::prelude::*;

verus! {

/// Payload length, in bytes, selected by a data-length code.
pub open spec fn dlc_len(dlc: u8) -> nat {
    if dlc <= 8 {
        dlc as nat
    } else if dlc == 9 {
        12
    } else if dlc == 10 {
        16
    } else if dlc == 11 {
        20
    } else if dlc == 12 {
        24
    } else if dlc == 13 {
        32
    } else if dlc == 14 {
        48
    } else {
        64
    }
}

/// The largest payload a data-length code can select.
pub proof fn lemma_dlc_len_bounded(dlc: u8)
    ensures
        dlc_len(dlc) <= 64,
{
}

/// Number of payload bytes carried by a frame with the given data-length
/// code: codes 0 to 8 map to themselves, the codes above 8 to the
/// flexible-data-rate size classes 12, 16, 20, 24, 32, 48 and 64.
pub fn can_dlc_to_len(dlc: u8) -> (len: usize)
    ensures
        len == dlc_len(dlc),
        len <= 64,
{
    match dlc {
        0..=8 => dlc as usize,
        9 => 12,
        10 => 16,
        11 => 20,
        12 => 24,
        13 => 32,
        14 => 48,
        _ => 64,
    }
}

} // verus!
