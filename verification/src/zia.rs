//! The ZIA row codec: reading the selection of one row out of a fuse array, and
//! producing the fuses for a selection.

use vstd::prelude::*;

use crate::zia_laws::lemma_wide_patterns_distinct;
use crate::zia_model::{
    decode_narrow_row, decode_wide_row, encode_narrow_choice, encode_wide_choice, narrow_active,
    narrow_normalized, narrow_one, narrow_pattern, narrow_stored, narrow_zero, wide_matches,
    zia_decoded_row, zia_row_width, zia_stored_row,
};
use crate::zia_tables::{
    find_choice, zia_choice_32, zia_choice_64, ZIA_64_ONE, ZIA_64_PATTERNS,
    ZIA_64_ZERO, ZIA_MAP_32, ZIA_MAP_64,
};
use crate::{XC2Device, INPUTS_PER_ANDTERM};

verus! {

/// One input to the ZIA. The ZIA takes inputs from every part of the chip and can
/// also output a constant zero or one.
#[derive(Copy, Clone, PartialEq, Eq, Structural, Debug)]
pub enum XC2ZIAInput {
    /// Feedback from macrocell `ff` of function block `fb`.
    Macrocell { fb: u32, ff: u32 },
    /// The input buffer of pin `ibuf`.
    IBuf { ibuf: u32 },
    /// The dedicated input pin.
    DedicatedInput,
    /// Constant zero.
    Zero,
    /// Constant one.
    One,
}

impl Default for XC2ZIAInput {
    /// The selection of a row that nothing has been said about: constant one.
    fn default() -> (r: XC2ZIAInput)
        ensures
            r == XC2ZIAInput::One,
    {
        XC2ZIAInput::One
    }
}

/// One output of the ZIA: what one row feeds to one function block.
#[derive(Copy, Clone, PartialEq, Eq, Structural, Debug)]
pub struct XC2ZIARowPiece {
    pub selected: XC2ZIAInput,
}

impl Default for XC2ZIARowPiece {
    /// A row that selects the default input, constant one.
    fn default() -> (r: XC2ZIARowPiece)
        ensures
            r.selected == XC2ZIAInput::One,
    {
        XC2ZIARowPiece { selected: XC2ZIAInput::One }
    }
}

/// Why a row could not be decoded or a choice could not be encoded.
#[derive(Copy, Clone, PartialEq, Eq, Structural, Debug)]
pub enum XC2ZIAError {
    /// An 8-bit row marks more than one position.
    AmbiguousSelection,
    /// An 8-bit row marks no position.
    NoSelection,
    /// A 16-bit row holds a pattern that is not in the pattern table.
    UnknownPattern,
    /// The row has no choice that is wired to the requested input.
    UnrepresentableChoice,
}

/// Reads the piece of the ZIA that belongs to one function block and one row, on
/// 32-macrocell parts.
///
/// The row is the eight fuses from `block_idx + row_idx * 8` on. They are stored
/// back to front, and the fuse of position 7 is active-high where the others are
/// active-low. A row must mark exactly one position: one that marks none is
/// reported as [`XC2ZIAError::NoSelection`], one that marks several as
/// [`XC2ZIAError::AmbiguousSelection`].
///
/// The row has to lie inside `fuses`. A caller that the verifier has not seen and
/// that breaks this is stopped by the bounds check of the slice.
pub fn read_32_zia_fb_row_logical(fuses: &[bool], block_idx: usize, row_idx: usize) -> (res:
    Result<XC2ZIARowPiece, XC2ZIAError>)
    requires
        row_idx < INPUTS_PER_ANDTERM,
        block_idx + row_idx * 8 + 8 <= fuses.len(),
    ensures
        res == decode_narrow_row(
            row_idx as int,
            fuses@.subrange(block_idx + row_idx * 8, block_idx + row_idx * 8 + 8),
        ),
{
    let base = block_idx + row_idx * 8;
    let ghost stored = fuses@.subrange(base as int, base + 8);
    let mut zia_row_fuses = [false;8];
    let mut i: usize = 0;
    while i < 8
        invariant
            i <= 8,
            base + 8 <= fuses.len(),
            stored == fuses@.subrange(base as int, base + 8),
            forall|j: int| 0 <= j < i ==> zia_row_fuses@[7 - j] == stored[j],
        decreases 8 - i,
    {
        zia_row_fuses[7 - i] = fuses[base + i];
        i += 1;
    }

    // The fuse of position 7 is active-high, unlike the rest.
    zia_row_fuses[7] = !zia_row_fuses[7];
    assert(zia_row_fuses@ =~= narrow_normalized(stored));

    let mut active_bit: usize = 8;
    let mut p: usize = 0;
    while p < 8
        invariant
            p <= 8,
            active_bit <= 8,
            stored == fuses@.subrange(block_idx + row_idx * 8, block_idx + row_idx * 8 + 8),
            zia_row_fuses@ == narrow_normalized(stored),
            active_bit == 8 ==> forall|q: int| 0 <= q < p ==> !narrow_active(stored, q),
            active_bit < 8 ==> active_bit < p && narrow_active(stored, active_bit as int),
            forall|q: int| 0 <= q < p && q != active_bit ==> !narrow_active(stored, q),
        decreases 8 - p,
    {
        if !zia_row_fuses[p] {
            assert(narrow_active(stored, p as int));
            if active_bit != 8 {
                return Err(XC2ZIAError::AmbiguousSelection);
            }
            active_bit = p;
        }
        p += 1;
    }

    if active_bit == 8 {
        return Err(XC2ZIAError::NoSelection);
    }
    Ok(
        XC2ZIARowPiece {
            selected: if active_bit == 6 {
                XC2ZIAInput::Zero
            } else if active_bit == 7 {
                XC2ZIAInput::One
            } else {
                zia_choice_32(row_idx, active_bit)
            },
        },
    )
}

/// Takes a ZIA row and an input and returns the eight bits, in position order,
/// that make the row select it, on 32-macrocell parts.
///
/// Constant one is all bits true. Constant zero is false at positions 6 and 7.
/// Any other input is looked for among the choices of the row; the result is
/// false at the lowest choice that is wired to it and at position 7, and true
/// elsewhere. An input that the row is not wired to is reported as
/// [`XC2ZIAError::UnrepresentableChoice`].
///
/// The fuse array holds a row back to front: bit `p` of the result belongs in
/// fuse `7 - p` of the row.
pub fn encode_32_zia_choice(row: u32, choice: XC2ZIAInput) -> (res: Result<[bool; 8], XC2ZIAError>)
    requires
        row < INPUTS_PER_ANDTERM,
    ensures
        match res {
            Ok(bits) => encode_narrow_choice(row as int, choice) == Some(bits@),
            Err(e) => e == XC2ZIAError::UnrepresentableChoice && encode_narrow_choice(
                row as int,
                choice,
            ) is None,
        },
{
    if choice == XC2ZIAInput::One {
        let ret = [true, true, true, true, true, true, true, true];
        assert(ret@ =~= narrow_one());
        Ok(ret)
    } else if choice == XC2ZIAInput::Zero {
        let ret = [true, true, true, true, true, true, false, false];
        assert(ret@ =~= narrow_zero());
        Ok(ret)
    } else {
        match find_choice(ZIA_MAP_32[row as usize].as_slice(), choice) {
            Some(found_bit) => {
                let mut ret = [true;8];
                // The fuse of position 7 is active-high, unlike the rest.
                ret[7] = false;
                ret[found_bit] = false;
                assert(ret@ =~= narrow_pattern(found_bit as int));
                Ok(ret)
            },
            None => Err(XC2ZIAError::UnrepresentableChoice),
        }
    }
}

/// Whether the sixteen fuses from `base` on equal `pattern`.
fn row_matches(fuses: &[bool], base: usize, pattern: &[bool; 16]) -> (r: bool)
    requires
        base + 16 <= fuses.len(),
    ensures
        r == (fuses@.subrange(base as int, base + 16) == pattern@),
{
    let ghost stored = fuses@.subrange(base as int, base + 16);
    let mut i: usize = 0;
    while i < 16
        invariant
            i <= 16,
            base + 16 <= fuses.len(),
            stored == fuses@.subrange(base as int, base + 16),
            forall|j: int| 0 <= j < i ==> stored[j] == pattern@[j],
        decreases 16 - i,
    {
        if fuses[base + i] != pattern[i] {
            assert(stored[i as int] != pattern@[i as int]);
            return false;
        }
        i += 1;
    }
    assert(stored =~= pattern@);
    true
}

/// Reads the piece of the ZIA that belongs to one function block and one row, on
/// 64-macrocell parts.
///
/// The row is the sixteen fuses from `block_idx + row_idx * 16` on. They are looked
/// up in the pattern table; a row that is not in the table is reported as
/// [`XC2ZIAError::UnknownPattern`].
///
/// The row has to lie inside `fuses`. A caller that the verifier has not seen and
/// that breaks this is stopped by the bounds check of the slice.
pub fn read_64_zia_fb_row_logical(fuses: &[bool], block_idx: usize, row_idx: usize) -> (res:
    Result<XC2ZIARowPiece, XC2ZIAError>)
    requires
        row_idx < INPUTS_PER_ANDTERM,
        block_idx + row_idx * 16 + 16 <= fuses.len(),
    ensures
        res == decode_wide_row(
            row_idx as int,
            fuses@.subrange(block_idx + row_idx * 16, block_idx + row_idx * 16 + 16),
        ),
{
    let base = block_idx + row_idx * 16;
    let ghost stored = fuses@.subrange(base as int, base + 16);
    if row_matches(fuses, base, &ZIA_64_ONE) {
        return Ok(XC2ZIARowPiece { selected: XC2ZIAInput::One });
    }
    if row_matches(fuses, base, &ZIA_64_ZERO) {
        return Ok(XC2ZIARowPiece { selected: XC2ZIAInput::Zero });
    }
    let mut k: usize = 0;
    while k < 12
        invariant
            k <= 12,
            row_idx < INPUTS_PER_ANDTERM,
            base == block_idx + row_idx * 16,
            base + 16 <= fuses.len(),
            stored == fuses@.subrange(base as int, base + 16),
            stored != ZIA_64_ONE@,
            stored != ZIA_64_ZERO@,
            forall|j: int| 0 <= j < k ==> !wide_matches(stored, j),
        decreases 12 - k,
    {
        if row_matches(fuses, base, &ZIA_64_PATTERNS[k]) {
            proof {
                lemma_wide_patterns_distinct();
                assert(wide_matches(stored, k as int));
            }
            return Ok(XC2ZIARowPiece { selected: zia_choice_64(row_idx, k) });
        }
        k += 1;
    }
    Err(XC2ZIAError::UnknownPattern)
}

/// Takes a ZIA row and an input and returns the sixteen fuses that make the row
/// select it, on 64-macrocell parts.
///
/// Constant one and constant zero have a pattern of their own. Any other input is
/// looked for among the choices of the row, and the pattern of the lowest choice
/// that is wired to it is returned. An input that the row is not wired to is
/// reported as [`XC2ZIAError::UnrepresentableChoice`].
pub fn encode_64_zia_choice(row: u32, choice: XC2ZIAInput) -> (res: Result<
    [bool; 16],
    XC2ZIAError,
>)
    requires
        row < INPUTS_PER_ANDTERM,
    ensures
        match res {
            Ok(bits) => encode_wide_choice(row as int, choice) == Some(bits@),
            Err(e) => e == XC2ZIAError::UnrepresentableChoice && encode_wide_choice(
                row as int,
                choice,
            ) is None,
        },
{
    if choice == XC2ZIAInput::One {
        Ok(ZIA_64_ONE)
    } else if choice == XC2ZIAInput::Zero {
        Ok(ZIA_64_ZERO)
    } else {
        match find_choice(ZIA_MAP_64[row as usize].as_slice(), choice) {
            Some(k) => Ok(ZIA_64_PATTERNS[k]),
            None => Err(XC2ZIAError::UnrepresentableChoice),
        }
    }
}

/// Reads the piece of the ZIA that belongs to one function block and one row of
/// `device`.
///
/// The row is the fuses from `block_idx + row_idx * width` on, `width` being the
/// row width of the device. It has to lie inside `fuses`.
pub fn read_zia_fb_row_logical(
    device: XC2Device,
    fuses: &[bool],
    block_idx: usize,
    row_idx: usize,
) -> (res: Result<XC2ZIARowPiece, XC2ZIAError>)
    requires
        row_idx < INPUTS_PER_ANDTERM,
        block_idx + row_idx * zia_row_width(device) + zia_row_width(device) <= fuses.len(),
    ensures
        res == zia_decoded_row(
            device,
            row_idx as int,
            fuses@.subrange(
                block_idx + row_idx * zia_row_width(device),
                block_idx + row_idx * zia_row_width(device) + zia_row_width(device),
            ),
        ),
{
    match device {
        XC2Device::XC2C32 | XC2Device::XC2C32A => read_32_zia_fb_row_logical(
            fuses,
            block_idx,
            row_idx,
        ),
        XC2Device::XC2C64 | XC2Device::XC2C64A => read_64_zia_fb_row_logical(
            fuses,
            block_idx,
            row_idx,
        ),
    }
}

/// Takes a ZIA row and an input and returns the fuses that make the row select it
/// on `device`, in the order in which they lie in the fuse array.
///
/// The result is as long as a row of the device and can be copied as it is to the
/// place that [`read_zia_fb_row_logical`] reads the row from. The bits of an 8-bit
/// row are turned back to front for this. An input that the row is not wired to
/// is reported as [`XC2ZIAError::UnrepresentableChoice`].
pub fn encode_zia_choice(device: XC2Device, row: u32, choice: XC2ZIAInput) -> (res: Result<
    Vec<bool>,
    XC2ZIAError,
>)
    requires
        row < INPUTS_PER_ANDTERM,
    ensures
        match res {
            Ok(stored) => zia_stored_row(device, row as int, choice) == Some(stored@),
            Err(e) => e == XC2ZIAError::UnrepresentableChoice && zia_stored_row(
                device,
                row as int,
                choice,
            ) is None,
        },
{
    let mut stored: Vec<bool> = Vec::new();
    match device {
        XC2Device::XC2C32 | XC2Device::XC2C32A => {
            let bits = match encode_32_zia_choice(row, choice) {
                Ok(bits) => bits,
                Err(e) => {
                    return Err(e);
                },
            };
            let mut i: usize = 0;
            while i < 8
                invariant
                    i <= 8,
                    stored@.len() == i,
                    forall|j: int| 0 <= j < i ==> stored@[j] == bits@[7 - j],
                decreases 8 - i,
            {
                stored.push(bits[7 - i]);
                i += 1;
            }
            assert(stored@ =~= narrow_stored(bits@));
        },
        XC2Device::XC2C64 | XC2Device::XC2C64A => {
            let bits = match encode_64_zia_choice(row, choice) {
                Ok(bits) => bits,
                Err(e) => {
                    return Err(e);
                },
            };
            let mut i: usize = 0;
            while i < 16
                invariant
                    i <= 16,
                    stored@.len() == i,
                    forall|j: int| 0 <= j < i ==> stored@[j] == bits@[j],
                decreases 16 - i,
            {
                stored.push(bits[i]);
                i += 1;
            }
            assert(stored@ =~= bits@);
        },
    }
    Ok(stored)
}

/// Returns the width in bits of one row of the ZIA.
pub fn zia_get_row_width(device: XC2Device) -> (width: usize)
    ensures
        width == zia_row_width(device),
{
    match device {
        XC2Device::XC2C32 | XC2Device::XC2C32A => 8,
        XC2Device::XC2C64 | XC2Device::XC2C64A => 16,
    }
}

} // verus!
