//! The note period table.
use vstd::prelude::*;

verus! {

/// The hardware period of note `n` (0..64) of the period table.
pub open spec fn note_period(n: u8) -> u16 {
    match n {
        0 => 0x6AE,
        1 => 0x64E,
        2 => 0x5F4,
        3 => 0x59E,
        4 => 0x54D,
        5 => 0x501,
        6 => 0x4B9,
        7 => 0x475,
        8 => 0x435,
        9 => 0x3F9,
        10 => 0x3C0,
        11 => 0x38C,
        12 => 0x358,
        13 => 0x32A,
        14 => 0x2FC,
        15 => 0x2D0,
        16 => 0x2A8,
        17 => 0x282,
        18 => 0x25E,
        19 => 0x23B,
        20 => 0x21B,
        21 => 0x1FD,
        22 => 0x1E0,
        23 => 0x1C6,
        24 => 0x1AC,
        25 => 0x194,
        26 => 0x17D,
        27 => 0x168,
        28 => 0x154,
        29 => 0x140,
        30 => 0x12F,
        31 => 0x11E,
        32 => 0x10E,
        33 => 0x0FE,
        34 => 0x0F0,
        35 => 0x0E3,
        36 => 0x0D6,
        37 => 0x0CA,
        38 => 0x0BF,
        39 => 0x0B4,
        40 => 0x0AA,
        41 => 0x0A0,
        42 => 0x097,
        43 => 0x08F,
        44 => 0x087,
        45 => 0x07F,
        46 => 0x078,
        47 => 0x071,
        48 => 0x0D6,
        49 => 0x0CA,
        50 => 0x0BF,
        51 => 0x0B4,
        52 => 0x0AA,
        53 => 0x0A0,
        54 => 0x097,
        55 => 0x08F,
        56 => 0x087,
        57 => 0x07F,
        58 => 0x078,
        59 => 0x071,
        60 => 0x0D6,
        61 => 0x0CA,
        62 => 0x0BF,
        _ => 0x0B4,
    }
}

/// Looks a note up in the period table.
pub fn noteval(n: u8) -> (r: u16)
    requires
        n < 64,
    ensures
        r == note_period(n),
        r <= 0x6ae,
{
    match n {
        0 => 0x6AE,
        1 => 0x64E,
        2 => 0x5F4,
        3 => 0x59E,
        4 => 0x54D,
        5 => 0x501,
        6 => 0x4B9,
        7 => 0x475,
        8 => 0x435,
        9 => 0x3F9,
        10 => 0x3C0,
        11 => 0x38C,
        12 => 0x358,
        13 => 0x32A,
        14 => 0x2FC,
        15 => 0x2D0,
        16 => 0x2A8,
        17 => 0x282,
        18 => 0x25E,
        19 => 0x23B,
        20 => 0x21B,
        21 => 0x1FD,
        22 => 0x1E0,
        23 => 0x1C6,
        24 => 0x1AC,
        25 => 0x194,
        26 => 0x17D,
        27 => 0x168,
        28 => 0x154,
        29 => 0x140,
        30 => 0x12F,
        31 => 0x11E,
        32 => 0x10E,
        33 => 0x0FE,
        34 => 0x0F0,
        35 => 0x0E3,
        36 => 0x0D6,
        37 => 0x0CA,
        38 => 0x0BF,
        39 => 0x0B4,
        40 => 0x0AA,
        41 => 0x0A0,
        42 => 0x097,
        43 => 0x08F,
        44 => 0x087,
        45 => 0x07F,
        46 => 0x078,
        47 => 0x071,
        48 => 0x0D6,
        49 => 0x0CA,
        50 => 0x0BF,
        51 => 0x0B4,
        52 => 0x0AA,
        53 => 0x0A0,
        54 => 0x097,
        55 => 0x08F,
        56 => 0x087,
        57 => 0x07F,
        58 => 0x078,
        59 => 0x071,
        60 => 0x0D6,
        61 => 0x0CA,
        62 => 0x0BF,
        _ => 0x0B4,
    }
}

} // verus!
