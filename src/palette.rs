//! The fixed colour lookup from a 6-bit palette entry to RGBA.

use vstd::prelude::*;

verus! {

pub const COLORS: [[u8; 4]; 64] = [
    [0x80, 0x80, 0x80, 0xFF], [0x00, 0x3D, 0xA6, 0xFF], [0x00, 0x12, 0xB0, 0xFF], [0x44, 0x00, 0x96, 0xFF],
    [0xA1, 0x00, 0x5E, 0xFF], [0xC7, 0x00, 0x28, 0xFF], [0xBA, 0x06, 0x00, 0xFF], [0x8C, 0x17, 0x00, 0xFF],
    [0x5C, 0x2F, 0x00, 0xFF], [0x10, 0x45, 0x00, 0xFF], [0x05, 0x4A, 0x00, 0xFF], [0x00, 0x47, 0x2E, 0xFF],
    [0x00, 0x41, 0x66, 0xFF], [0x00, 0x00, 0x00, 0xFF], [0x05, 0x05, 0x05, 0xFF], [0x05, 0x05, 0x05, 0xFF],
    [0xC7, 0xC7, 0xC7, 0xFF], [0x00, 0x77, 0xFF, 0xFF], [0x21, 0x55, 0xFF, 0xFF], [0x82, 0x37, 0xFA, 0xFF],
    [0xEB, 0x2F, 0xB5, 0xFF], [0xFF, 0x29, 0x50, 0xFF], [0xFF, 0x22, 0x00, 0xFF], [0xD6, 0x32, 0x00, 0xFF],
    [0xC4, 0x62, 0x00, 0xFF], [0x35, 0x80, 0x00, 0xFF], [0x05, 0x8F, 0x00, 0xFF], [0x00, 0x8A, 0x55, 0xFF],
    [0x00, 0x99, 0xCC, 0xFF], [0x21, 0x21, 0x21, 0xFF], [0x09, 0x09, 0x09, 0xFF], [0x09, 0x09, 0x09, 0xFF],
    [0xFF, 0xFF, 0xFF, 0xFF], [0x0F, 0xD7, 0xFF, 0xFF], [0x69, 0xA2, 0xFF, 0xFF], [0xD4, 0x80, 0xFF, 0xFF],
    [0xFF, 0x45, 0xF3, 0xFF], [0xFF, 0x61, 0x8B, 0xFF], [0xFF, 0x88, 0x33, 0xFF], [0xFF, 0x9C, 0x12, 0xFF],
    [0xFA, 0xBC, 0x20, 0xFF], [0x9F, 0xE3, 0x0E, 0xFF], [0x2B, 0xF0, 0x35, 0xFF], [0x0C, 0xF0, 0xA4, 0xFF],
    [0x05, 0xFB, 0xFF, 0xFF], [0x5E, 0x5E, 0x5E, 0xFF], [0x0D, 0x0D, 0x0D, 0xFF], [0x0D, 0x0D, 0x0D, 0xFF],
    [0xFF, 0xFF, 0xFF, 0xFF], [0xA6, 0xFC, 0xFF, 0xFF], [0xB3, 0xEC, 0xFF, 0xFF], [0xDA, 0xAB, 0xEB, 0xFF],
    [0xFF, 0xA8, 0xF9, 0xFF], [0xFF, 0xAB, 0xB3, 0xFF], [0xFF, 0xD2, 0xB0, 0xFF], [0xFF, 0xEF, 0xA6, 0xFF],
    [0xFF, 0xF7, 0x9C, 0xFF], [0xD7, 0xE8, 0x95, 0xFF], [0xA6, 0xED, 0xAF, 0xFF], [0xA2, 0xF2, 0xDA, 0xFF],
    [0x99, 0xFF, 0xFC, 0xFF], [0xDD, 0xDD, 0xDD, 0xFF], [0x11, 0x11, 0x11, 0xFF], [0x11, 0x11, 0x11, 0xFF],
];

/// The RGBA value of palette entry `value`; only its low six bits count.
pub open spec fn spec_rgba(value: u8) -> [u8; 4] {
    COLORS[(value % 64) as int]
}

pub fn rgba(value: u8) -> (r: [u8; 4])
    ensures
        r == spec_rgba(value),
{
    COLORS[(value % 64) as usize]
}

} // verus!
