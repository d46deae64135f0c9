//! What holds of the codec as a whole: reading gives back what was written, the
//! malformed rows are exactly the ones that are reported, and a choice that a row
//! lists twice is always written the same way.

use vstd::prelude::*;

use crate::zia::{XC2ZIAError, XC2ZIAInput, XC2ZIARowPiece};
use crate::zia_model::{
    decode_narrow_row, decode_wide_row, encode_narrow_choice, encode_wide_choice, narrow_active,
    narrow_one, narrow_pattern, narrow_pattern_for, narrow_selection, narrow_stored, narrow_zero,
    wide_matches, wide_pattern_for, zia_catalog, zia_decoded_row, zia_is_narrow, zia_row_width,
    zia_stored_row,
};
use crate::zia_tables::{
    wide_patterns, zia_catalog_32, zia_catalog_64, ZIA_64_ONE, ZIA_64_ZERO,
};
use crate::{XC2Device, INPUTS_PER_ANDTERM};

verus! {

/// The position at which pattern `k` of the pattern table, and no other pattern
/// of it, is false.
spec fn wide_mark(k: int) -> int {
    if k < 3 {
        15 - k
    } else if k < 6 {
        14 - k
    } else if k < 9 {
        12 - k
    } else {
        11 - k
    }
}

/// Both catalogs have a row for every AND-term input, six choices wide on
/// 32-macrocell parts and twelve wide on 64-macrocell parts.
pub proof fn lemma_catalog_shape(device: XC2Device)
    ensures
        zia_catalog(device).len() == INPUTS_PER_ANDTERM,
        forall|row: int|
            0 <= row < INPUTS_PER_ANDTERM ==> (#[trigger] zia_catalog(device)[row]).len() == (
            if zia_is_narrow(device) {
                6int
            } else {
                12int
            }),
{
}

/// Each of the twelve patterns belongs to one choice only, and none of them is
/// the pattern of a constant.
pub proof fn lemma_wide_patterns_distinct()
    ensures
        forall|i: int, j: int|
            0 <= i < 12 && 0 <= j < 12 && i != j ==> #[trigger] wide_patterns()[i]
                != #[trigger] wide_patterns()[j],
        forall|k: int| 0 <= k < 12 ==> #[trigger] wide_patterns()[k] != ZIA_64_ONE@,
        forall|k: int| 0 <= k < 12 ==> #[trigger] wide_patterns()[k] != ZIA_64_ZERO@,
        ZIA_64_ONE@ != ZIA_64_ZERO@,
{
    assert forall|i: int, j: int| 0 <= i < 12 && 0 <= j < 12 implies #[trigger] wide_patterns()[i][wide_mark(
        j,
    )] == (i != j) by {}
    assert forall|k: int| 0 <= k < 12 implies ZIA_64_ONE@[wide_mark(k)] && ZIA_64_ZERO@[wide_mark(
        k,
    )] by {}
    assert(!ZIA_64_ZERO@[8]);
    assert(ZIA_64_ONE@[8]);
}

/// An 8-bit row that marks exactly one position decodes to the input of that
/// position.
pub proof fn lemma_narrow_single_mark(row: int, stored: Seq<bool>, p: int)
    requires
        narrow_active(stored, p),
        forall|q: int| q != p ==> !narrow_active(stored, q),
    ensures
        decode_narrow_row(row, stored) == Ok::<XC2ZIARowPiece, XC2ZIAError>(
            XC2ZIARowPiece { selected: narrow_selection(row, p) },
        ),
{
    let found = choose|q: int| narrow_active(stored, q);
    assert(found == p);
}

/// An 8-bit row fails to decode in two ways only, and each has its own error:
/// no position marked, or more than one.
pub proof fn lemma_narrow_errors(row: int, stored: Seq<bool>)
    ensures
        decode_narrow_row(row, stored) == Err::<XC2ZIARowPiece, XC2ZIAError>(
            XC2ZIAError::NoSelection,
        ) <==> (forall|p: int| 0 <= p < 8 ==> !narrow_active(stored, p)),
        decode_narrow_row(row, stored) == Err::<XC2ZIARowPiece, XC2ZIAError>(
            XC2ZIAError::AmbiguousSelection,
        ) <==> (exists|p: int, q: int|
            0 <= p < q < 8 && narrow_active(stored, p) && narrow_active(stored, q)),
        decode_narrow_row(row, stored) is Err ==> decode_narrow_row(row, stored)
            == Err::<XC2ZIARowPiece, XC2ZIAError>(XC2ZIAError::NoSelection) || decode_narrow_row(
            row,
            stored,
        ) == Err::<XC2ZIARowPiece, XC2ZIAError>(XC2ZIAError::AmbiguousSelection),
{
    if exists|p: int, q: int| p != q && narrow_active(stored, p) && narrow_active(stored, q) {
        let (p, q) = choose|p: int, q: int|
            p != q && narrow_active(stored, p) && narrow_active(stored, q);
        if p < q {
            assert(0 <= p < q < 8 && narrow_active(stored, p) && narrow_active(stored, q));
        } else {
            assert(0 <= q < p < 8 && narrow_active(stored, q) && narrow_active(stored, p));
        }
    }
}

/// A row with two marked positions is ambiguous, whatever else it holds.
pub proof fn lemma_narrow_two_marks(row: int, stored: Seq<bool>, p: int, q: int)
    requires
        p != q,
        narrow_active(stored, p),
        narrow_active(stored, q),
    ensures
        decode_narrow_row(row, stored) == Err::<XC2ZIARowPiece, XC2ZIAError>(
            XC2ZIAError::AmbiguousSelection,
        ),
{
}

/// On 32-macrocell parts constant one is written as eight true bits and constant
/// zero as true bits with positions 6 and 7 false, on every row, and both are
/// read back from the fuses so written.
pub proof fn lemma_narrow_constants(row: int)
    ensures
        encode_narrow_choice(row, XC2ZIAInput::One) == Some(
            seq![true, true, true, true, true, true, true, true],
        ),
        decode_narrow_row(row, seq![true, true, true, true, true, true, true, true]) == Ok::<
            XC2ZIARowPiece,
            XC2ZIAError,
        >(XC2ZIARowPiece { selected: XC2ZIAInput::One }),
        encode_narrow_choice(row, XC2ZIAInput::Zero) == Some(
            seq![true, true, true, true, true, true, false, false],
        ),
        narrow_stored(seq![true, true, true, true, true, true, false, false])
            == seq![false, false, true, true, true, true, true, true],
        decode_narrow_row(row, seq![false, false, true, true, true, true, true, true]) == Ok::<
            XC2ZIARowPiece,
            XC2ZIAError,
        >(XC2ZIARowPiece { selected: XC2ZIAInput::Zero }),
{
    let ones = seq![true, true, true, true, true, true, true, true];
    let zero = seq![true, true, true, true, true, true, false, false];
    let zero_stored = seq![false, false, true, true, true, true, true, true];
    assert(narrow_one() =~= ones);
    assert(narrow_zero() =~= zero);
    assert(narrow_stored(zero) =~= zero_stored);
    lemma_narrow_single_mark(row, ones, 7);
    lemma_narrow_single_mark(row, zero_stored, 6);
}

/// Reading back on 32-macrocell parts: the fuses written for an input decode to
/// that input.
pub proof fn lemma_narrow_round_trip(row: int, choice: XC2ZIAInput)
    requires
        0 <= row < INPUTS_PER_ANDTERM,
        encode_narrow_choice(row, choice) is Some,
    ensures
        encode_narrow_choice(row, choice)->0.len() == 8,
        decode_narrow_row(row, narrow_stored(encode_narrow_choice(row, choice)->0)) == Ok::<
            XC2ZIARowPiece,
            XC2ZIAError,
        >(XC2ZIARowPiece { selected: choice }),
{
    let pattern = encode_narrow_choice(row, choice)->0;
    let stored = narrow_stored(pattern);
    if choice == XC2ZIAInput::One {
        lemma_narrow_single_mark(row, stored, 7);
    } else if choice == XC2ZIAInput::Zero {
        lemma_narrow_single_mark(row, stored, 6);
    } else {
        let choices = zia_catalog_32()[row];
        choices.index_of_first_ensures(choice);
        let k = choices.index_of_first(choice)->0;
        assert(0 <= k < 6);
        lemma_narrow_single_mark(row, stored, k);
    }
}

/// Decoding the pattern table: on every row, pattern `k` reads as choice `k` of
/// the row.
pub proof fn lemma_wide_table_exact(row: int, k: int)
    requires
        0 <= row < INPUTS_PER_ANDTERM,
        0 <= k < 12,
    ensures
        decode_wide_row(row, wide_patterns()[k]) == Ok::<XC2ZIARowPiece, XC2ZIAError>(
            XC2ZIARowPiece { selected: zia_catalog_64()[row][k] },
        ),
{
    lemma_wide_patterns_distinct();
    let stored = wide_patterns()[k];
    assert(wide_matches(stored, k));
    let found = choose|j: int| wide_matches(stored, j);
    assert(wide_patterns()[found] == wide_patterns()[k]);
}

/// Decoding the two constant patterns of 16-bit rows: sixteen true bits read as
/// constant one, and the pattern kept for constant zero reads as constant zero.
pub proof fn lemma_wide_constants(row: int)
    ensures
        ZIA_64_ONE@ == Seq::new(16, |i: int| true),
        decode_wide_row(row, ZIA_64_ONE@) == Ok::<XC2ZIARowPiece, XC2ZIAError>(
            XC2ZIARowPiece { selected: XC2ZIAInput::One },
        ),
        ZIA_64_ZERO@ == Seq::new(16, |i: int| i != 7 && i != 8),
        decode_wide_row(row, ZIA_64_ZERO@) == Ok::<XC2ZIARowPiece, XC2ZIAError>(
            XC2ZIARowPiece { selected: XC2ZIAInput::Zero },
        ),
{
    lemma_wide_patterns_distinct();
    assert(ZIA_64_ONE@ =~= Seq::new(16, |i: int| true));
    assert(ZIA_64_ZERO@ =~= Seq::new(16, |i: int| i != 7 && i != 8));
}

/// A 16-bit row fails to decode exactly when it is none of the fourteen known
/// patterns, and the error is then always the same.
pub proof fn lemma_wide_errors(row: int, stored: Seq<bool>)
    ensures
        decode_wide_row(row, stored) is Err <==> stored != ZIA_64_ONE@ && stored != ZIA_64_ZERO@
            && forall|k: int| 0 <= k < 12 ==> stored != #[trigger] wide_patterns()[k],
        decode_wide_row(row, stored) is Err ==> decode_wide_row(row, stored) == Err::<
            XC2ZIARowPiece,
            XC2ZIAError,
        >(XC2ZIAError::UnknownPattern),
{
    if exists|k: int| wide_matches(stored, k) {
        let k = choose|k: int| wide_matches(stored, k);
        assert(stored == wide_patterns()[k]);
    } else {
        assert forall|k: int| 0 <= k < 12 implies stored != #[trigger] wide_patterns()[k] by {
            assert(!wide_matches(stored, k));
        }
    }
}

/// Sixteen false bits are not a pattern of the table.
pub proof fn lemma_wide_all_false_unknown(row: int)
    ensures
        decode_wide_row(row, Seq::new(16, |i: int| false)) == Err::<XC2ZIARowPiece, XC2ZIAError>(
            XC2ZIAError::UnknownPattern,
        ),
{
    let stored = Seq::new(16, |i: int| false);
    assert(stored[0] != ZIA_64_ONE@[0]);
    assert(stored[0] != ZIA_64_ZERO@[0]);
    assert forall|k: int| 0 <= k < 12 implies stored != #[trigger] wide_patterns()[k] by {
        assert(stored[7] == wide_patterns()[k][7]);
        assert(stored[8] != wide_patterns()[k][8]);
    }
    lemma_wide_errors(row, stored);
}

/// Reading back on 64-macrocell parts: the fuses written for an input decode to
/// that input.
pub proof fn lemma_wide_round_trip(row: int, choice: XC2ZIAInput)
    requires
        0 <= row < INPUTS_PER_ANDTERM,
        encode_wide_choice(row, choice) is Some,
    ensures
        encode_wide_choice(row, choice)->0.len() == 16,
        decode_wide_row(row, encode_wide_choice(row, choice)->0) == Ok::<
            XC2ZIARowPiece,
            XC2ZIAError,
        >(XC2ZIARowPiece { selected: choice }),
{
    lemma_wide_patterns_distinct();
    if choice == XC2ZIAInput::One {
    } else if choice == XC2ZIAInput::Zero {
    } else {
        let choices = zia_catalog_64()[row];
        choices.index_of_first_ensures(choice);
        let k = choices.index_of_first(choice)->0;
        assert(0 <= k < 12);
        lemma_wide_table_exact(row, k);
    }
}

/// Every input that a row of the catalog lists, and each of the two constants,
/// can be written on that row.
pub proof fn lemma_listed_choice_is_encodable(device: XC2Device, row: int, idx: int)
    requires
        0 <= row < INPUTS_PER_ANDTERM,
        0 <= idx < zia_catalog(device)[row].len(),
    ensures
        zia_stored_row(device, row, zia_catalog(device)[row][idx]) is Some,
        zia_stored_row(device, row, XC2ZIAInput::One) is Some,
        zia_stored_row(device, row, XC2ZIAInput::Zero) is Some,
{
    let choices = zia_catalog(device)[row];
    let choice = choices[idx];
    assert(choices.contains(choice));
    choices.index_of_first_ensures(choice);
}

/// Round trip: on every device and row, the fuses written for an input are as
/// wide as the rows of the device and decode to the input they were written for.
pub proof fn lemma_round_trip(device: XC2Device, row: int, choice: XC2ZIAInput)
    requires
        0 <= row < INPUTS_PER_ANDTERM,
        zia_stored_row(device, row, choice) is Some,
    ensures
        zia_stored_row(device, row, choice)->0.len() == zia_row_width(device),
        zia_decoded_row(device, row, zia_stored_row(device, row, choice)->0) == Ok::<
            XC2ZIARowPiece,
            XC2ZIAError,
        >(XC2ZIARowPiece { selected: choice }),
{
    if zia_is_narrow(device) {
        lemma_narrow_round_trip(row, choice);
    } else {
        lemma_wide_round_trip(row, choice);
    }
}

/// A row that lists an input twice always writes it as the lowest choice that
/// holds it. With the input at choices `i < j` of an 8-bit row, the pattern
/// written is that of a choice no higher than `i`, of `i` itself when no lower
/// choice holds the input, and never that of `j`.
pub proof fn lemma_narrow_lowest_index_wins(
    choices: Seq<XC2ZIAInput>,
    choice: XC2ZIAInput,
    i: int,
    j: int,
)
    requires
        choices.len() <= 6,
        0 <= i < j < choices.len(),
        choice != XC2ZIAInput::One,
        choice != XC2ZIAInput::Zero,
        choices[i] == choice,
        choices[j] == choice,
    ensures
        choices.index_of_first(choice) is Some,
        0 <= choices.index_of_first(choice)->0 <= i,
        narrow_pattern_for(choices, choice) == Some(
            narrow_pattern(choices.index_of_first(choice)->0),
        ),
        (forall|m: int| 0 <= m < i ==> choices[m] != choice) ==> narrow_pattern_for(choices, choice)
            == Some(narrow_pattern(i)),
        narrow_pattern_for(choices, choice) != Some(narrow_pattern(j)),
{
    assert(choices.contains(choice));
    choices.index_of_first_ensures(choice);
    let k = choices.index_of_first(choice)->0;
    assert(narrow_pattern(k)[k] != narrow_pattern(j)[k]);
}

/// The same for 16-bit rows: an input at choices `i < j` is written with the
/// pattern of a choice no higher than `i`, of `i` itself when no lower choice
/// holds the input, and never with that of `j`.
pub proof fn lemma_wide_lowest_index_wins(
    choices: Seq<XC2ZIAInput>,
    choice: XC2ZIAInput,
    i: int,
    j: int,
)
    requires
        choices.len() <= 12,
        0 <= i < j < choices.len(),
        choice != XC2ZIAInput::One,
        choice != XC2ZIAInput::Zero,
        choices[i] == choice,
        choices[j] == choice,
    ensures
        choices.index_of_first(choice) is Some,
        0 <= choices.index_of_first(choice)->0 <= i,
        wide_pattern_for(choices, choice) == Some(
            wide_patterns()[choices.index_of_first(choice)->0],
        ),
        (forall|m: int| 0 <= m < i ==> choices[m] != choice) ==> wide_pattern_for(choices, choice)
            == Some(wide_patterns()[i]),
        wide_pattern_for(choices, choice) != Some(wide_patterns()[j]),
{
    assert(choices.contains(choice));
    choices.index_of_first_ensures(choice);
    lemma_wide_patterns_distinct();
}

/// An input is refused exactly when it is no constant and the row does not list
/// it: there is then nothing to write, on either kind of device.
pub proof fn lemma_unrepresentable(device: XC2Device, row: int, choice: XC2ZIAInput)
    requires
        0 <= row < INPUTS_PER_ANDTERM,
    ensures
        zia_stored_row(device, row, choice) is None <==> choice != XC2ZIAInput::One && choice
            != XC2ZIAInput::Zero && forall|idx: int|
            0 <= idx < zia_catalog(device)[row].len() ==> zia_catalog(device)[row][idx] != choice,
{
    let choices = zia_catalog(device)[row];
    choices.index_of_first_ensures(choice);
}

} // verus!
