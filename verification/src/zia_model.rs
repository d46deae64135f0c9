//! What a row of fuses means, stated over sequences of bits.
//!
//! A *stored* row is the run of fuses as it lies in the fuse array. There are two
//! formats:
//!
//! * 8-bit rows (32-macrocell parts) mark one of eight positions. Positions 0 to 5
//!   are the six choices of the row, position 6 is constant zero and position 7 is
//!   constant one.
//! * 16-bit rows (64-macrocell parts) hold one of a fixed set of patterns.

use vstd::prelude::*;

use crate::zia::{XC2ZIAError, XC2ZIAInput, XC2ZIARowPiece};
use crate::zia_tables::{
    wide_patterns, zia_catalog_32, zia_catalog_64, ZIA_64_ONE, ZIA_64_ZERO,
};
use crate::XC2Device;

verus! {

/// Whether the rows of `device` are 8 bits wide; the others are 16 bits wide.
pub open spec fn zia_is_narrow(device: XC2Device) -> bool {
    device == XC2Device::XC2C32 || device == XC2Device::XC2C32A
}

/// The catalog of `device`: for each row, the inputs behind its choices.
pub open spec fn zia_catalog(device: XC2Device) -> Seq<Seq<XC2ZIAInput>> {
    if zia_is_narrow(device) {
        zia_catalog_32()
    } else {
        zia_catalog_64()
    }
}

/// Number of fuses in one row of `device`.
pub open spec fn zia_row_width(device: XC2Device) -> nat {
    if zia_is_narrow(device) {
        8
    } else {
        16
    }
}

/// The fuses of a stored 8-bit row brought into position order.
///
/// The row is stored back to front: stored fuse `i` belongs to position `7 - i`.
/// The fuse of position 7 has the opposite polarity of the other seven and is
/// complemented. After this a position is marked when its bit is false.
pub open spec fn narrow_normalized(stored: Seq<bool>) -> Seq<bool> {
    Seq::new(
        8,
        |p: int|
            if p == 7 {
                !stored[0]
            } else {
                stored[7 - p]
            },
    )
}

/// Whether a stored 8-bit row marks position `p`.
pub open spec fn narrow_active(stored: Seq<bool>, p: int) -> bool {
    0 <= p < 8 && !narrow_normalized(stored)[p]
}

/// The input that position `p` of row `row` stands for in an 8-bit row.
pub open spec fn narrow_selection(row: int, p: int) -> XC2ZIAInput {
    if p == 6 {
        XC2ZIAInput::Zero
    } else if p == 7 {
        XC2ZIAInput::One
    } else {
        zia_catalog_32()[row][p]
    }
}

/// The meaning of a stored 8-bit row: the input of the one position it marks.
/// A row that marks no position, or more than one, has no meaning.
pub open spec fn decode_narrow_row(row: int, stored: Seq<bool>) -> Result<
    XC2ZIARowPiece,
    XC2ZIAError,
> {
    if forall|p: int| !narrow_active(stored, p) {
        Err(XC2ZIAError::NoSelection)
    } else if exists|p: int, q: int|
        p != q && narrow_active(stored, p) && narrow_active(stored, q) {
        Err(XC2ZIAError::AmbiguousSelection)
    } else {
        Ok(
            XC2ZIARowPiece {
                selected: narrow_selection(row, choose|p: int| narrow_active(stored, p)),
            },
        )
    }
}

/// The 8-bit pattern, in position order, that marks position `k`: false at `k`
/// and at position 7, true everywhere else.
pub open spec fn narrow_pattern(k: int) -> Seq<bool> {
    Seq::new(8, |p: int| p != k && p != 7)
}

/// The 8-bit pattern, in position order, for constant one: all true.
pub open spec fn narrow_one() -> Seq<bool> {
    Seq::new(8, |p: int| true)
}

/// The 8-bit pattern, in position order, for constant zero: false at positions 6
/// and 7, true everywhere else.
pub open spec fn narrow_zero() -> Seq<bool> {
    Seq::new(8, |p: int| p != 6 && p != 7)
}

/// The 8-bit pattern, in position order, that selects `choice` on a row whose
/// choices are `choices`.
///
/// The constants have patterns of their own on every row. Any other input takes
/// the lowest choice of the row that is wired to it, and has no pattern when the
/// row has no such choice.
pub open spec fn narrow_pattern_for(choices: Seq<XC2ZIAInput>, choice: XC2ZIAInput) -> Option<
    Seq<bool>,
> {
    if choice == XC2ZIAInput::One {
        Some(narrow_one())
    } else if choice == XC2ZIAInput::Zero {
        Some(narrow_zero())
    } else {
        match choices.index_of_first(choice) {
            Some(k) => Some(narrow_pattern(k)),
            None => None,
        }
    }
}

/// The 8-bit pattern, in position order, that selects `choice` on row `row` of
/// 32-macrocell parts.
pub open spec fn encode_narrow_choice(row: int, choice: XC2ZIAInput) -> Option<Seq<bool>> {
    narrow_pattern_for(zia_catalog_32()[row], choice)
}

/// An 8-bit pattern in position order as it is stored: back to front.
pub open spec fn narrow_stored(pattern: Seq<bool>) -> Seq<bool> {
    pattern.reverse()
}

/// Whether a stored 16-bit row is pattern `k` of the pattern table.
pub open spec fn wide_matches(stored: Seq<bool>, k: int) -> bool {
    0 <= k < 12 && stored == wide_patterns()[k]
}

/// The meaning of a stored 16-bit row: constant one or zero for their two
/// patterns, choice `k` of the row for pattern `k` of the table, and none for any
/// other row.
pub open spec fn decode_wide_row(row: int, stored: Seq<bool>) -> Result<
    XC2ZIARowPiece,
    XC2ZIAError,
> {
    if stored == ZIA_64_ONE@ {
        Ok(XC2ZIARowPiece { selected: XC2ZIAInput::One })
    } else if stored == ZIA_64_ZERO@ {
        Ok(XC2ZIARowPiece { selected: XC2ZIAInput::Zero })
    } else if exists|k: int| wide_matches(stored, k) {
        Ok(
            XC2ZIARowPiece {
                selected: zia_catalog_64()[row][choose|k: int| wide_matches(stored, k)],
            },
        )
    } else {
        Err(XC2ZIAError::UnknownPattern)
    }
}

/// The 16-bit row that selects `choice` on a row whose choices are `choices`.
///
/// The constants have patterns of their own on every row. Any other input takes
/// the pattern of the lowest choice of the row that is wired to it, and has no
/// pattern when the row has no such choice.
pub open spec fn wide_pattern_for(choices: Seq<XC2ZIAInput>, choice: XC2ZIAInput) -> Option<
    Seq<bool>,
> {
    if choice == XC2ZIAInput::One {
        Some(ZIA_64_ONE@)
    } else if choice == XC2ZIAInput::Zero {
        Some(ZIA_64_ZERO@)
    } else {
        match choices.index_of_first(choice) {
            Some(k) => Some(wide_patterns()[k]),
            None => None,
        }
    }
}

/// The 16-bit row that selects `choice` on row `row` of 64-macrocell parts.
pub open spec fn encode_wide_choice(row: int, choice: XC2ZIAInput) -> Option<Seq<bool>> {
    wide_pattern_for(zia_catalog_64()[row], choice)
}

/// The fuses to store on `device` so that row `row` selects `choice`, if the row
/// can select it.
pub open spec fn zia_stored_row(device: XC2Device, row: int, choice: XC2ZIAInput) -> Option<
    Seq<bool>,
> {
    if zia_is_narrow(device) {
        match encode_narrow_choice(row, choice) {
            Some(pattern) => Some(narrow_stored(pattern)),
            None => None,
        }
    } else {
        encode_wide_choice(row, choice)
    }
}

/// The meaning on `device` of the stored fuses of row `row`.
pub open spec fn zia_decoded_row(device: XC2Device, row: int, stored: Seq<bool>) -> Result<
    XC2ZIARowPiece,
    XC2ZIAError,
> {
    if zia_is_narrow(device) {
        decode_narrow_row(row, stored)
    } else {
        decode_wide_row(row, stored)
    }
}

} // verus!
