//! The catalog: which signals each ZIA row can select, per density, and the
//! fuse patterns of the 16-bit rows.
//!
//! The tables were found by observing real parts. They are data: a new density
//! needs new tables and nothing else.

use vstd::prelude::*;

use crate::zia::XC2ZIAInput;
use crate::zia_model::{zia_catalog, zia_is_narrow};
use crate::{XC2Device, INPUTS_PER_ANDTERM};

verus! {

/// Kind of a table entry: input buffer `[IB, ibuf, 0]`.
pub const IB: u32 = 0;

/// Kind of a table entry: macrocell feedback `[MC, fb, ff]`.
pub const MC: u32 = 1;

/// Kind of a table entry: the dedicated input pin `[DI, 0, 0]`.
pub const DI: u32 = 2;

/// Choices per row on 32-macrocell parts.
pub const ZIA_CHOICES_32: usize = 6;

/// Choices per row on 64-macrocell parts.
pub const ZIA_CHOICES_64: usize = 12;

/// The connections that exist within the ZIA of 32-macrocell parts: for each row,
/// the signal behind each of its six choices, as `[kind, a, b]`.
pub const ZIA_MAP_32: [[[u32; 3]; 6]; INPUTS_PER_ANDTERM] = [
    // Row 0
    [[IB, 0, 0], [IB, 10, 0], [IB, 21, 0], [MC, 0, 1], [MC, 0, 13], [MC, 1, 9]],
    [[IB, 1, 0], [IB, 11, 0], [IB, 22, 0], [MC, 0, 8], [MC, 0, 15], [MC, 1, 12]],
    [[IB, 2, 0], [IB, 12, 0], [IB, 29, 0], [MC, 0, 2], [MC, 1, 4], [MC, 1, 11]],
    [[IB, 3, 0], [IB, 13, 0], [IB, 25, 0], [MC, 0, 9], [MC, 0, 14], [MC, 1, 6]],
    [[IB, 4, 0], [IB, 14, 0], [IB, 27, 0], [MC, 0, 5], [MC, 0, 11], [MC, 1, 10]],
    // Row 5
    [[IB, 5, 0], [IB, 15, 0], [IB, 30, 0], [MC, 0, 7], [MC, 1, 1], [MC, 1, 7]],
    [[IB, 6, 0], [DI, 0, 0], [IB, 20, 0], [MC, 0, 0], [MC, 1, 3], [MC, 1, 13]],
    [[IB, 7, 0], [IB, 16, 0], [IB, 26, 0], [IB, 31, 0], [MC, 0, 12], [MC, 1, 15]],
    [[IB, 8, 0], [IB, 17, 0], [IB, 24, 0], [MC, 0, 6], [MC, 0, 10], [MC, 1, 8]],
    [[IB, 9, 0], [IB, 18, 0], [IB, 23, 0], [MC, 0, 4], [MC, 1, 2], [MC, 1, 5]],
    // Row 10
    [[IB, 7, 0], [IB, 19, 0], [IB, 28, 0], [MC, 0, 3], [MC, 1, 0], [MC, 1, 14]],
    [[IB, 0, 0], [IB, 11, 0], [IB, 22, 0], [MC, 0, 2], [MC, 0, 14], [MC, 1, 10]],
    [[IB, 1, 0], [IB, 12, 0], [IB, 28, 0], [MC, 0, 4], [MC, 1, 1], [MC, 1, 15]],
    [[IB, 2, 0], [IB, 18, 0], [IB, 23, 0], [MC, 0, 9], [MC, 1, 0], [MC, 1, 13]],
    [[IB, 3, 0], [IB, 15, 0], [IB, 30, 0], [MC, 0, 3], [MC, 0, 11], [MC, 1, 12]],
    // Row 15
    [[IB, 4, 0], [IB, 16, 0], [IB, 21, 0], [MC, 0, 0], [MC, 0, 15], [MC, 1, 7]],
    [[IB, 5, 0], [IB, 19, 0], [IB, 28, 0], [MC, 0, 6], [MC, 0, 12], [MC, 1, 11]],
    [[IB, 6, 0], [IB, 10, 0], [IB, 21, 0], [MC, 0, 8], [MC, 1, 2], [MC, 1, 8]],
    [[IB, 7, 0], [DI, 0, 0], [IB, 20, 0], [MC, 0, 1], [MC, 1, 4], [MC, 1, 14]],
    [[IB, 8, 0], [IB, 14, 0], [IB, 27, 0], [IB, 31, 0], [MC, 0, 13], [MC, 1, 6]],
    // Row 20
    [[IB, 9, 0], [IB, 13, 0], [IB, 25, 0], [MC, 0, 7], [MC, 0, 10], [MC, 1, 9]],
    [[IB, 8, 0], [IB, 17, 0], [IB, 24, 0], [MC, 0, 5], [MC, 1, 3], [MC, 1, 5]],
    [[IB, 0, 0], [IB, 12, 0], [IB, 23, 0], [MC, 0, 3], [MC, 0, 15], [MC, 1, 11]],
    [[IB, 1, 0], [IB, 18, 0], [IB, 25, 0], [MC, 0, 6], [MC, 1, 4], [MC, 1, 5]],
    [[IB, 2, 0], [IB, 13, 0], [IB, 30, 0], [MC, 0, 5], [MC, 1, 2], [MC, 1, 6]],
    // Row 25
    [[IB, 3, 0], [IB, 19, 0], [IB, 24, 0], [MC, 0, 0], [MC, 1, 1], [MC, 1, 14]],
    [[IB, 4, 0], [DI, 0, 0], [IB, 21, 0], [MC, 0, 4], [MC, 0, 12], [MC, 1, 13]],
    [[IB, 5, 0], [IB, 17, 0], [IB, 27, 0], [MC, 0, 1], [MC, 1, 0], [MC, 1, 8]],
    [[IB, 6, 0], [IB, 11, 0], [IB, 29, 0], [MC, 0, 7], [MC, 0, 13], [MC, 1, 12]],
    [[IB, 7, 0], [IB, 10, 0], [IB, 22, 0], [MC, 0, 9], [MC, 1, 3], [MC, 1, 9]],
    // Row 30
    [[IB, 8, 0], [IB, 16, 0], [IB, 20, 0], [MC, 0, 2], [MC, 0, 11], [MC, 1, 15]],
    [[IB, 9, 0], [IB, 15, 0], [IB, 28, 0], [IB, 31, 0], [MC, 0, 14], [MC, 1, 7]],
    [[IB, 9, 0], [IB, 14, 0], [IB, 21, 0], [MC, 0, 8], [MC, 0, 10], [MC, 1, 10]],
    [[IB, 0, 0], [IB, 13, 0], [IB, 24, 0], [MC, 0, 4], [MC, 1, 0], [MC, 1, 12]],
    [[IB, 1, 0], [IB, 15, 0], [IB, 27, 0], [MC, 0, 9], [MC, 0, 10], [MC, 1, 11]],
    // Row 35
    [[IB, 2, 0], [IB, 19, 0], [IB, 21, 0], [MC, 0, 7], [MC, 0, 11], [MC, 1, 5]],
    [[IB, 3, 0], [IB, 14, 0], [IB, 21, 0], [MC, 0, 6], [MC, 1, 3], [MC, 1, 7]],
    [[IB, 4, 0], [IB, 11, 0], [IB, 25, 0], [MC, 0, 1], [MC, 1, 2], [MC, 1, 15]],
    [[IB, 5, 0], [IB, 16, 0], [IB, 22, 0], [MC, 0, 5], [MC, 0, 13], [MC, 1, 14]],
    [[IB, 6, 0], [IB, 18, 0], [IB, 28, 0], [MC, 0, 2], [MC, 1, 1], [MC, 1, 9]],
];

/// The connections that exist within the ZIA of 64-macrocell parts: for each row,
/// the signal behind each of its twelve choices, as `[kind, a, b]`.
///
/// The wiring of these parts has not been mapped yet. Every entry still holds the
/// same stand-in, input buffer 0, so every row lists one signal twelve times.
pub const ZIA_MAP_64: [[[u32; 3]; 12]; INPUTS_PER_ANDTERM] = [
    // Row 0
    [
        [IB, 0, 0], [IB, 0, 0], [IB, 0, 0], [IB, 0, 0], [IB, 0, 0], [IB, 0, 0],
        [IB, 0, 0], [IB, 0, 0], [IB, 0, 0], [IB, 0, 0], [IB, 0, 0], [IB, 0, 0],
    ],
    [
        [IB, 0, 0], [IB, 0, 0], [IB, 0, 0], [IB, 0, 0], [IB, 0, 0], [IB, 0, 0],
        [IB, 0, 0], [IB, 0, 0], [IB, 0, 0], [IB, 0, 0], [IB, 0, 0], [IB, 0, 0],
    ],
    [
        [IB, 0, 0], [IB, 0, 0], [IB, 0, 0], [IB, 0, 0], [IB, 0, 0], [IB, 0, 0],
        [IB, 0, 0], [IB, 0, 0], [IB, 0, 0], [IB, 0, 0], [IB, 0, 0], [IB, 0, 0],
    ],
    [
        [IB, 0, 0], [IB, 0, 0], [IB, 0, 0], [IB, 0, 0], [IB, 0, 0], [IB, 0, 0],
        [IB, 0, 0], [IB, 0, 0], [IB, 0, 0], [IB, 0, 0], [IB, 0, 0], [IB, 0, 0],
    ],
    [
        [IB, 0, 0], [IB, 0, 0], [IB, 0, 0], [IB, 0, 0], [IB, 0, 0], [IB, 0, 0],
        [IB, 0, 0], [IB, 0, 0], [IB, 0, 0], [IB, 0, 0], [IB, 0, 0], [IB, 0, 0],
    ],
    // Row 5
    [
        [IB, 0, 0], [IB, 0, 0], [IB, 0, 0], [IB, 0, 0], [IB, 0, 0], [IB, 0, 0],
        [IB, 0, 0], [IB, 0, 0], [IB, 0, 0], [IB, 0, 0], [IB, 0, 0], [IB, 0, 0],
    ],
    [
        [IB, 0, 0], [IB, 0, 0], [IB, 0, 0], [IB, 0, 0], [IB, 0, 0], [IB, 0, 0],
        [IB, 0, 0], [IB, 0, 0], [IB, 0, 0], [IB, 0, 0], [IB, 0, 0], [IB, 0, 0],
    ],
    [
        [IB, 0, 0], [IB, 0, 0], [IB, 0, 0], [IB, 0, 0], [IB, 0, 0], [IB, 0, 0],
        [IB, 0, 0], [IB, 0, 0], [IB, 0, 0], [IB, 0, 0], [IB, 0, 0], [IB, 0, 0],
    ],
    [
        [IB, 0, 0], [IB, 0, 0], [IB, 0, 0], [IB, 0, 0], [IB, 0, 0], [IB, 0, 0],
        [IB, 0, 0], [IB, 0, 0], [IB, 0, 0], [IB, 0, 0], [IB, 0, 0], [IB, 0, 0],
    ],
    [
        [IB, 0, 0], [IB, 0, 0], [IB, 0, 0], [IB, 0, 0], [IB, 0, 0], [IB, 0, 0],
        [IB, 0, 0], [IB, 0, 0], [IB, 0, 0], [IB, 0, 0], [IB, 0, 0], [IB, 0, 0],
    ],
    // Row 10
    [
        [IB, 0, 0], [IB, 0, 0], [IB, 0, 0], [IB, 0, 0], [IB, 0, 0], [IB, 0, 0],
        [IB, 0, 0], [IB, 0, 0], [IB, 0, 0], [IB, 0, 0], [IB, 0, 0], [IB, 0, 0],
    ],
    [
        [IB, 0, 0], [IB, 0, 0], [IB, 0, 0], [IB, 0, 0], [IB, 0, 0], [IB, 0, 0],
        [IB, 0, 0], [IB, 0, 0], [IB, 0, 0], [IB, 0, 0], [IB, 0, 0], [IB, 0, 0],
    ],
    [
        [IB, 0, 0], [IB, 0, 0], [IB, 0, 0], [IB, 0, 0], [IB, 0, 0], [IB, 0, 0],
        [IB, 0, 0], [IB, 0, 0], [IB, 0, 0], [IB, 0, 0], [IB, 0, 0], [IB, 0, 0],
    ],
    [
        [IB, 0, 0], [IB, 0, 0], [IB, 0, 0], [IB, 0, 0], [IB, 0, 0], [IB, 0, 0],
        [IB, 0, 0], [IB, 0, 0], [IB, 0, 0], [IB, 0, 0], [IB, 0, 0], [IB, 0, 0],
    ],
    [
        [IB, 0, 0], [IB, 0, 0], [IB, 0, 0], [IB, 0, 0], [IB, 0, 0], [IB, 0, 0],
        [IB, 0, 0], [IB, 0, 0], [IB, 0, 0], [IB, 0, 0], [IB, 0, 0], [IB, 0, 0],
    ],
    // Row 15
    [
        [IB, 0, 0], [IB, 0, 0], [IB, 0, 0], [IB, 0, 0], [IB, 0, 0], [IB, 0, 0],
        [IB, 0, 0], [IB, 0, 0], [IB, 0, 0], [IB, 0, 0], [IB, 0, 0], [IB, 0, 0],
    ],
    [
        [IB, 0, 0], [IB, 0, 0], [IB, 0, 0], [IB, 0, 0], [IB, 0, 0], [IB, 0, 0],
        [IB, 0, 0], [IB, 0, 0], [IB, 0, 0], [IB, 0, 0], [IB, 0, 0], [IB, 0, 0],
    ],
    [
        [IB, 0, 0], [IB, 0, 0], [IB, 0, 0], [IB, 0, 0], [IB, 0, 0], [IB, 0, 0],
        [IB, 0, 0], [IB, 0, 0], [IB, 0, 0], [IB, 0, 0], [IB, 0, 0], [IB, 0, 0],
    ],
    [
        [IB, 0, 0], [IB, 0, 0], [IB, 0, 0], [IB, 0, 0], [IB, 0, 0], [IB, 0, 0],
        [IB, 0, 0], [IB, 0, 0], [IB, 0, 0], [IB, 0, 0], [IB, 0, 0], [IB, 0, 0],
    ],
    [
        [IB, 0, 0], [IB, 0, 0], [IB, 0, 0], [IB, 0, 0], [IB, 0, 0], [IB, 0, 0],
        [IB, 0, 0], [IB, 0, 0], [IB, 0, 0], [IB, 0, 0], [IB, 0, 0], [IB, 0, 0],
    ],
    // Row 20
    [
        [IB, 0, 0], [IB, 0, 0], [IB, 0, 0], [IB, 0, 0], [IB, 0, 0], [IB, 0, 0],
        [IB, 0, 0], [IB, 0, 0], [IB, 0, 0], [IB, 0, 0], [IB, 0, 0], [IB, 0, 0],
    ],
    [
        [IB, 0, 0], [IB, 0, 0], [IB, 0, 0], [IB, 0, 0], [IB, 0, 0], [IB, 0, 0],
        [IB, 0, 0], [IB, 0, 0], [IB, 0, 0], [IB, 0, 0], [IB, 0, 0], [IB, 0, 0],
    ],
    [
        [IB, 0, 0], [IB, 0, 0], [IB, 0, 0], [IB, 0, 0], [IB, 0, 0], [IB, 0, 0],
        [IB, 0, 0], [IB, 0, 0], [IB, 0, 0], [IB, 0, 0], [IB, 0, 0], [IB, 0, 0],
    ],
    [
        [IB, 0, 0], [IB, 0, 0], [IB, 0, 0], [IB, 0, 0], [IB, 0, 0], [IB, 0, 0],
        [IB, 0, 0], [IB, 0, 0], [IB, 0, 0], [IB, 0, 0], [IB, 0, 0], [IB, 0, 0],
    ],
    [
        [IB, 0, 0], [IB, 0, 0], [IB, 0, 0], [IB, 0, 0], [IB, 0, 0], [IB, 0, 0],
        [IB, 0, 0], [IB, 0, 0], [IB, 0, 0], [IB, 0, 0], [IB, 0, 0], [IB, 0, 0],
    ],
    // Row 25
    [
        [IB, 0, 0], [IB, 0, 0], [IB, 0, 0], [IB, 0, 0], [IB, 0, 0], [IB, 0, 0],
        [IB, 0, 0], [IB, 0, 0], [IB, 0, 0], [IB, 0, 0], [IB, 0, 0], [IB, 0, 0],
    ],
    [
        [IB, 0, 0], [IB, 0, 0], [IB, 0, 0], [IB, 0, 0], [IB, 0, 0], [IB, 0, 0],
        [IB, 0, 0], [IB, 0, 0], [IB, 0, 0], [IB, 0, 0], [IB, 0, 0], [IB, 0, 0],
    ],
    [
        [IB, 0, 0], [IB, 0, 0], [IB, 0, 0], [IB, 0, 0], [IB, 0, 0], [IB, 0, 0],
        [IB, 0, 0], [IB, 0, 0], [IB, 0, 0], [IB, 0, 0], [IB, 0, 0], [IB, 0, 0],
    ],
    [
        [IB, 0, 0], [IB, 0, 0], [IB, 0, 0], [IB, 0, 0], [IB, 0, 0], [IB, 0, 0],
        [IB, 0, 0], [IB, 0, 0], [IB, 0, 0], [IB, 0, 0], [IB, 0, 0], [IB, 0, 0],
    ],
    [
        [IB, 0, 0], [IB, 0, 0], [IB, 0, 0], [IB, 0, 0], [IB, 0, 0], [IB, 0, 0],
        [IB, 0, 0], [IB, 0, 0], [IB, 0, 0], [IB, 0, 0], [IB, 0, 0], [IB, 0, 0],
    ],
    // Row 30
    [
        [IB, 0, 0], [IB, 0, 0], [IB, 0, 0], [IB, 0, 0], [IB, 0, 0], [IB, 0, 0],
        [IB, 0, 0], [IB, 0, 0], [IB, 0, 0], [IB, 0, 0], [IB, 0, 0], [IB, 0, 0],
    ],
    [
        [IB, 0, 0], [IB, 0, 0], [IB, 0, 0], [IB, 0, 0], [IB, 0, 0], [IB, 0, 0],
        [IB, 0, 0], [IB, 0, 0], [IB, 0, 0], [IB, 0, 0], [IB, 0, 0], [IB, 0, 0],
    ],
    [
        [IB, 0, 0], [IB, 0, 0], [IB, 0, 0], [IB, 0, 0], [IB, 0, 0], [IB, 0, 0],
        [IB, 0, 0], [IB, 0, 0], [IB, 0, 0], [IB, 0, 0], [IB, 0, 0], [IB, 0, 0],
    ],
    [
        [IB, 0, 0], [IB, 0, 0], [IB, 0, 0], [IB, 0, 0], [IB, 0, 0], [IB, 0, 0],
        [IB, 0, 0], [IB, 0, 0], [IB, 0, 0], [IB, 0, 0], [IB, 0, 0], [IB, 0, 0],
    ],
    [
        [IB, 0, 0], [IB, 0, 0], [IB, 0, 0], [IB, 0, 0], [IB, 0, 0], [IB, 0, 0],
        [IB, 0, 0], [IB, 0, 0], [IB, 0, 0], [IB, 0, 0], [IB, 0, 0], [IB, 0, 0],
    ],
    // Row 35
    [
        [IB, 0, 0], [IB, 0, 0], [IB, 0, 0], [IB, 0, 0], [IB, 0, 0], [IB, 0, 0],
        [IB, 0, 0], [IB, 0, 0], [IB, 0, 0], [IB, 0, 0], [IB, 0, 0], [IB, 0, 0],
    ],
    [
        [IB, 0, 0], [IB, 0, 0], [IB, 0, 0], [IB, 0, 0], [IB, 0, 0], [IB, 0, 0],
        [IB, 0, 0], [IB, 0, 0], [IB, 0, 0], [IB, 0, 0], [IB, 0, 0], [IB, 0, 0],
    ],
    [
        [IB, 0, 0], [IB, 0, 0], [IB, 0, 0], [IB, 0, 0], [IB, 0, 0], [IB, 0, 0],
        [IB, 0, 0], [IB, 0, 0], [IB, 0, 0], [IB, 0, 0], [IB, 0, 0], [IB, 0, 0],
    ],
    [
        [IB, 0, 0], [IB, 0, 0], [IB, 0, 0], [IB, 0, 0], [IB, 0, 0], [IB, 0, 0],
        [IB, 0, 0], [IB, 0, 0], [IB, 0, 0], [IB, 0, 0], [IB, 0, 0], [IB, 0, 0],
    ],
    [
        [IB, 0, 0], [IB, 0, 0], [IB, 0, 0], [IB, 0, 0], [IB, 0, 0], [IB, 0, 0],
        [IB, 0, 0], [IB, 0, 0], [IB, 0, 0], [IB, 0, 0], [IB, 0, 0], [IB, 0, 0],
    ],
];

/// The fuse patterns of a 16-bit row, one per choice: a row selects choice `k` when
/// its sixteen fuses equal `ZIA_64_PATTERNS[k]`. The encoding follows no rule;
/// the patterns are recorded as they were read from the parts.
pub const ZIA_64_PATTERNS: [[bool; 16]; 12] = [
    [true, true, true, true, true, true, true, false, true, true, true, true, false, true, true, false],
    [true, true, true, true, true, true, true, false, true, true, true, true, false, true, false, true],
    [true, true, true, true, true, true, true, false, true, true, true, true, false, false, true, true],
    [true, true, true, true, true, true, true, false, true, true, true, false, false, true, true, true],
    [true, true, true, true, true, true, true, false, true, true, false, true, false, true, true, true],
    [true, true, true, true, true, true, true, false, true, false, true, true, false, true, true, true],
    [true, true, true, false, true, true, false, false, true, true, true, true, true, true, true, true],
    [true, true, true, false, true, false, true, false, true, true, true, true, true, true, true, true],
    [true, true, true, false, false, true, true, false, true, true, true, true, true, true, true, true],
    [true, true, false, false, true, true, true, false, true, true, true, true, true, true, true, true],
    [true, false, true, false, true, true, true, false, true, true, true, true, true, true, true, true],
    [false, true, true, false, true, true, true, false, true, true, true, true, true, true, true, true],
];

/// The 16-bit row that selects constant one: every fuse true.
pub const ZIA_64_ONE: [bool; 16] = [
    true, true, true, true, true, true, true, true, true, true, true, true, true, true, true, true,
];

/// The 16-bit row taken to select constant zero.
///
/// Unconfirmed: this pattern is a guess that has not been checked against a real
/// part. It is kept as it stands so that reading and writing agree with each other.
pub const ZIA_64_ZERO: [bool; 16] = [
    true, true, true, true, true, true, true, false, false, true, true, true, true, true, true, true,
];

/// The signal that a table entry `[kind, a, b]` stands for.
pub open spec fn input_of_entry(e: [u32; 3]) -> XC2ZIAInput {
    if e[0] == MC {
        XC2ZIAInput::Macrocell { fb: e[1], ff: e[2] }
    } else if e[0] == IB {
        XC2ZIAInput::IBuf { ibuf: e[1] }
    } else {
        XC2ZIAInput::DedicatedInput
    }
}

/// The choices of one row, in order, as signals.
pub open spec fn catalog_row(entries: Seq<[u32; 3]>) -> Seq<XC2ZIAInput> {
    Seq::new(entries.len(), |i: int| input_of_entry(entries[i]))
}

/// The catalog of 32-macrocell parts: forty rows of six choices.
pub open spec fn zia_catalog_32() -> Seq<Seq<XC2ZIAInput>> {
    Seq::new(INPUTS_PER_ANDTERM as nat, |row: int| catalog_row(ZIA_MAP_32[row]@))
}

/// The catalog of 64-macrocell parts: forty rows of twelve choices.
pub open spec fn zia_catalog_64() -> Seq<Seq<XC2ZIAInput>> {
    Seq::new(INPUTS_PER_ANDTERM as nat, |row: int| catalog_row(ZIA_MAP_64[row]@))
}

/// The pattern table as sequences.
pub open spec fn wide_patterns() -> Seq<Seq<bool>> {
    Seq::new(12, |k: int| ZIA_64_PATTERNS[k]@)
}

/// Turns a table entry into the signal it stands for.
pub fn entry_input(e: &[u32; 3]) -> (r: XC2ZIAInput)
    ensures
        r == input_of_entry(*e),
{
    if e[0] == MC {
        XC2ZIAInput::Macrocell { fb: e[1], ff: e[2] }
    } else if e[0] == IB {
        XC2ZIAInput::IBuf { ibuf: e[1] }
    } else {
        XC2ZIAInput::DedicatedInput
    }
}

/// The signal behind choice `idx` of row `row` on 32-macrocell parts.
pub fn zia_choice_32(row: usize, idx: usize) -> (r: XC2ZIAInput)
    requires
        row < INPUTS_PER_ANDTERM,
        idx < ZIA_CHOICES_32,
    ensures
        r == zia_catalog_32()[row as int][idx as int],
{
    entry_input(&ZIA_MAP_32[row][idx])
}

/// The signal behind choice `idx` of row `row` on 64-macrocell parts.
pub fn zia_choice_64(row: usize, idx: usize) -> (r: XC2ZIAInput)
    requires
        row < INPUTS_PER_ANDTERM,
        idx < ZIA_CHOICES_64,
    ensures
        r == zia_catalog_64()[row as int][idx as int],
{
    entry_input(&ZIA_MAP_64[row][idx])
}

/// Number of choices that each row of `device` has.
pub fn zia_choices_per_row(device: XC2Device) -> (n: usize)
    ensures
        n == (if zia_is_narrow(device) {
            ZIA_CHOICES_32
        } else {
            ZIA_CHOICES_64
        }),
        forall|row: int|
            0 <= row < INPUTS_PER_ANDTERM ==> (#[trigger] zia_catalog(device)[row]).len() == n,
{
    match device {
        XC2Device::XC2C32 | XC2Device::XC2C32A => ZIA_CHOICES_32,
        XC2Device::XC2C64 | XC2Device::XC2C64A => ZIA_CHOICES_64,
    }
}

/// The signal behind choice `idx` of row `row` on `device`.
pub fn zia_choice(device: XC2Device, row: usize, idx: usize) -> (r: XC2ZIAInput)
    requires
        row < INPUTS_PER_ANDTERM,
        idx < zia_catalog(device)[row as int].len(),
    ensures
        r == zia_catalog(device)[row as int][idx as int],
{
    match device {
        XC2Device::XC2C32 | XC2Device::XC2C32A => zia_choice_32(row, idx),
        XC2Device::XC2C64 | XC2Device::XC2C64A => zia_choice_64(row, idx),
    }
}

/// Scans one row of a table for `choice` and returns the lowest index that holds
/// it, or `None` when the row does not hold it.
pub fn find_choice(entries: &[[u32; 3]], choice: XC2ZIAInput) -> (r: Option<usize>)
    ensures
        match r {
            Some(k) => k < entries@.len() && catalog_row(entries@).index_of_first(choice) == Some(
                k as int,
            ),
            None => catalog_row(entries@).index_of_first(choice) is None,
        },
{
    let ghost row = catalog_row(entries@);
    let mut i: usize = 0;
    while i < entries.len()
        invariant
            i <= entries.len(),
            row == catalog_row(entries@),
            forall|j: int| 0 <= j < i ==> row[j] != choice,
        decreases entries.len() - i,
    {
        if entry_input(&entries[i]) == choice {
            proof {
                assert(row[i as int] == choice);
                assert(row.contains(choice));
                row.index_of_first_ensures(choice);
            }
            return Some(i);
        }
        i += 1;
    }
    proof {
        row.index_of_first_ensures(choice);
    }
    None
}

} // verus!
