// Rows of 32-macrocell parts: eight fuses, stored back to front, one marked position.

use xc2bit::zia::{
    encode_32_zia_choice, read_32_zia_fb_row_logical, XC2ZIAError, XC2ZIAInput, XC2ZIARowPiece,
};
use xc2bit::zia_tables::{find_choice, zia_choice_32, ZIA_MAP_32};
use xc2bit::INPUTS_PER_ANDTERM;

const T: bool = true;
const F: bool = false;

fn mc(fb: u32, ff: u32) -> XC2ZIAInput {
    XC2ZIAInput::Macrocell { fb, ff }
}

fn ibuf(ibuf: u32) -> XC2ZIAInput {
    XC2ZIAInput::IBuf { ibuf }
}

/// An encoded row as it lies in the fuse array: back to front.
fn stored(bits: [bool; 8]) -> Vec<bool> {
    bits.iter().rev().copied().collect()
}

fn decode(row: usize, fuses: &[bool]) -> Result<XC2ZIAInput, XC2ZIAError> {
    read_32_zia_fb_row_logical(fuses, 0, row).map(|piece| piece.selected)
}

#[test]
fn default_selection_is_constant_one() {
    assert_eq!(XC2ZIAInput::default(), XC2ZIAInput::One);
    assert_eq!(XC2ZIARowPiece::default().selected, XC2ZIAInput::One);
}

#[test]
fn inputs_compare_by_value() {
    assert_eq!(mc(1, 9), mc(1, 9));
    assert_ne!(mc(1, 9), mc(9, 1));
    assert_ne!(mc(0, 0), ibuf(0));
    assert_ne!(ibuf(3), ibuf(4));
    assert_eq!(XC2ZIAInput::DedicatedInput, XC2ZIAInput::DedicatedInput);
    assert_ne!(XC2ZIAInput::Zero, XC2ZIAInput::One);
}

#[test]
fn catalog_32_first_and_last_rows() {
    let first = [ibuf(0), ibuf(10), ibuf(21), mc(0, 1), mc(0, 13), mc(1, 9)];
    let last = [ibuf(6), ibuf(18), ibuf(28), mc(0, 2), mc(1, 1), mc(1, 9)];
    for idx in 0..6 {
        assert_eq!(zia_choice_32(0, idx), first[idx]);
        assert_eq!(zia_choice_32(39, idx), last[idx]);
    }
}

#[test]
fn catalog_32_spot_checks() {
    assert_eq!(zia_choice_32(1, 5), mc(1, 12));
    assert_eq!(zia_choice_32(2, 2), ibuf(29));
    assert_eq!(zia_choice_32(7, 3), ibuf(31));
    assert_eq!(zia_choice_32(35, 0), ibuf(2));
    assert_eq!(zia_choice_32(35, 5), mc(1, 5));
    assert_eq!(zia_choice_32(36, 4), mc(1, 3));
    assert_eq!(zia_choice_32(38, 1), ibuf(16));
}

#[test]
fn catalog_32_dedicated_input_rows() {
    let mut found = Vec::new();
    for row in 0..INPUTS_PER_ANDTERM {
        for idx in 0..6 {
            if zia_choice_32(row, idx) == XC2ZIAInput::DedicatedInput {
                found.push((row, idx));
            }
        }
    }
    assert_eq!(found, vec![(6, 1), (18, 1), (26, 1)]);
}

#[test]
fn catalog_32_counts_by_kind() {
    let mut ibufs = 0;
    let mut macrocells = 0;
    let mut constants = 0;
    for row in 0..INPUTS_PER_ANDTERM {
        for idx in 0..6 {
            match zia_choice_32(row, idx) {
                XC2ZIAInput::IBuf { ibuf } => {
                    assert!(ibuf < 32);
                    ibufs += 1;
                }
                XC2ZIAInput::Macrocell { fb, ff } => {
                    assert!(fb < 2);
                    assert!(ff < 16);
                    macrocells += 1;
                }
                XC2ZIAInput::DedicatedInput => {}
                XC2ZIAInput::Zero | XC2ZIAInput::One => constants += 1,
            }
        }
    }
    assert_eq!(ibufs, 120);
    assert_eq!(macrocells, 117);
    assert_eq!(constants, 0);
}

#[test]
fn find_choice_returns_lowest_index() {
    assert_eq!(find_choice(&ZIA_MAP_32[0], ibuf(0)), Some(0));
    assert_eq!(find_choice(&ZIA_MAP_32[0], mc(1, 9)), Some(5));
    assert_eq!(find_choice(&ZIA_MAP_32[0], mc(9, 1)), None);
    let doubled = [[1, 0, 3], [0, 7, 0], [1, 0, 3], [0, 7, 0]];
    assert_eq!(find_choice(&doubled, ibuf(7)), Some(1));
    assert_eq!(find_choice(&doubled, mc(0, 3)), Some(0));
    assert_eq!(find_choice(&[], ibuf(7)), None);
}

#[test]
fn decode_32_each_position_of_row_0() {
    // Stored fuse i belongs to position 7 - i. Position 7 is marked by a true fuse,
    // the others by a false one.
    assert_eq!(decode(0, &[F, T, T, T, T, T, T, F]), Ok(ibuf(0)));
    assert_eq!(decode(0, &[F, T, T, T, T, T, F, T]), Ok(ibuf(10)));
    assert_eq!(decode(0, &[F, T, T, T, T, F, T, T]), Ok(ibuf(21)));
    assert_eq!(decode(0, &[F, T, T, T, F, T, T, T]), Ok(mc(0, 1)));
    assert_eq!(decode(0, &[F, T, T, F, T, T, T, T]), Ok(mc(0, 13)));
    assert_eq!(decode(0, &[F, T, F, T, T, T, T, T]), Ok(mc(1, 9)));
    assert_eq!(decode(0, &[F, F, T, T, T, T, T, T]), Ok(XC2ZIAInput::Zero));
    assert_eq!(decode(0, &[T, T, T, T, T, T, T, T]), Ok(XC2ZIAInput::One));
}

#[test]
fn decode_32_all_true_is_constant_one() {
    for row in 0..INPUTS_PER_ANDTERM {
        let mut fuses = vec![F; row * 8];
        fuses.extend([T; 8]);
        assert_eq!(decode(row, &fuses), Ok(XC2ZIAInput::One));
    }
}

#[test]
fn decode_32_no_selection() {
    // Nothing marked: fuse 0 false (position 7), the rest true.
    assert_eq!(decode(0, &[F, T, T, T, T, T, T, T]), Err(XC2ZIAError::NoSelection));
    assert_eq!(
        read_32_zia_fb_row_logical(&[F, T, T, T, T, T, T, T], 0, 0).map(|p| p.selected),
        Err(XC2ZIAError::NoSelection)
    );
}

#[test]
fn decode_32_ambiguous_selection() {
    // Positions 0 and 1.
    assert_eq!(decode(0, &[F, T, T, T, T, T, F, F]), Err(XC2ZIAError::AmbiguousSelection));
    // Positions 6 and 7.
    assert_eq!(decode(0, &[T, F, T, T, T, T, T, T]), Err(XC2ZIAError::AmbiguousSelection));
    // Positions 3 and 7.
    assert_eq!(decode(0, &[T, T, T, T, F, T, T, T]), Err(XC2ZIAError::AmbiguousSelection));
    // Every position.
    assert_eq!(decode(0, &[T, F, F, F, F, F, F, F]), Err(XC2ZIAError::AmbiguousSelection));
    // All fuses false: positions 0 to 6.
    assert_eq!(decode(0, &[F; 8]), Err(XC2ZIAError::AmbiguousSelection));
}

#[test]
fn decode_32_every_pair_of_marks_is_ambiguous() {
    for p in 0..8 {
        for q in (p + 1)..8 {
            let mut fuses = [F, T, T, T, T, T, T, T];
            for pos in [p, q] {
                fuses[7 - pos] = pos == 7;
            }
            assert_eq!(decode(0, &fuses), Err(XC2ZIAError::AmbiguousSelection), "{p} {q}");
        }
    }
}

#[test]
fn decode_32_reads_at_block_and_row_offset() {
    // Three fuses of something else, then rows 0, 1 and 2 of a block.
    let mut fuses = vec![F, F, F];
    fuses.extend([T, T, T, T, T, T, T, T]); // row 0: constant one
    fuses.extend([F, T, T, T, T, T, F, T]); // row 1: choice 1
    fuses.extend([F, T, F, T, T, T, T, T]); // row 2: choice 5
    let read = |row| read_32_zia_fb_row_logical(&fuses, 3, row).map(|p| p.selected);
    assert_eq!(read(0), Ok(XC2ZIAInput::One));
    assert_eq!(read(1), Ok(ibuf(11)));
    assert_eq!(read(2), Ok(mc(1, 11)));
}

#[test]
fn encode_32_constants() {
    assert_eq!(encode_32_zia_choice(0, XC2ZIAInput::One), Ok([T, T, T, T, T, T, T, T]));
    assert_eq!(encode_32_zia_choice(0, XC2ZIAInput::Zero), Ok([T, T, T, T, T, T, F, F]));
    assert_eq!(encode_32_zia_choice(39, XC2ZIAInput::One), Ok([T; 8]));
    assert_eq!(encode_32_zia_choice(39, XC2ZIAInput::Zero), Ok([T, T, T, T, T, T, F, F]));
}

#[test]
fn encode_32_constants_read_back() {
    let one = encode_32_zia_choice(5, XC2ZIAInput::One).unwrap();
    assert_eq!(stored(one), vec![T; 8]);
    assert_eq!(decode(0, &stored(one)), Ok(XC2ZIAInput::One));
    let zero = encode_32_zia_choice(5, XC2ZIAInput::Zero).unwrap();
    assert_eq!(stored(zero), vec![F, F, T, T, T, T, T, T]);
    assert_eq!(decode(0, &stored(zero)), Ok(XC2ZIAInput::Zero));
}

#[test]
fn encode_32_choices_of_row_0() {
    assert_eq!(encode_32_zia_choice(0, ibuf(0)), Ok([F, T, T, T, T, T, T, F]));
    assert_eq!(encode_32_zia_choice(0, ibuf(10)), Ok([T, F, T, T, T, T, T, F]));
    assert_eq!(encode_32_zia_choice(0, ibuf(21)), Ok([T, T, F, T, T, T, T, F]));
    assert_eq!(encode_32_zia_choice(0, mc(0, 1)), Ok([T, T, T, F, T, T, T, F]));
    assert_eq!(encode_32_zia_choice(0, mc(0, 13)), Ok([T, T, T, T, F, T, T, F]));
    assert_eq!(encode_32_zia_choice(0, mc(1, 9)), Ok([T, T, T, T, T, F, T, F]));
}

#[test]
fn encode_32_dedicated_input() {
    assert_eq!(
        encode_32_zia_choice(6, XC2ZIAInput::DedicatedInput),
        Ok([T, F, T, T, T, T, T, F])
    );
    assert_eq!(
        encode_32_zia_choice(0, XC2ZIAInput::DedicatedInput),
        Err(XC2ZIAError::UnrepresentableChoice)
    );
}

#[test]
fn encode_32_unrepresentable_choice() {
    // Input buffer 11 is wired to row 1, not to row 0.
    assert_eq!(encode_32_zia_choice(0, ibuf(11)), Err(XC2ZIAError::UnrepresentableChoice));
    assert_eq!(encode_32_zia_choice(1, ibuf(11)), Ok([T, F, T, T, T, T, T, F]));
    // Same indices, other kind.
    assert_eq!(encode_32_zia_choice(0, mc(0, 0)), Err(XC2ZIAError::UnrepresentableChoice));
    assert_eq!(encode_32_zia_choice(0, mc(1, 0)), Err(XC2ZIAError::UnrepresentableChoice));
    assert_eq!(encode_32_zia_choice(0, ibuf(1000)), Err(XC2ZIAError::UnrepresentableChoice));
}

#[test]
fn encode_32_is_repeatable() {
    for row in 0..INPUTS_PER_ANDTERM as u32 {
        for idx in 0..6 {
            let choice = zia_choice_32(row as usize, idx);
            assert_eq!(encode_32_zia_choice(row, choice), encode_32_zia_choice(row, choice));
        }
    }
}

#[test]
fn round_trip_32_every_row_and_choice() {
    for row in 0..INPUTS_PER_ANDTERM {
        for idx in 0..6 {
            let choice = zia_choice_32(row, idx);
            let bits = encode_32_zia_choice(row as u32, choice).unwrap();
            let mut fuses = vec![T; 5 + INPUTS_PER_ANDTERM * 8];
            for i in 0..8 {
                fuses[5 + row * 8 + i] = bits[7 - i];
            }
            let piece = read_32_zia_fb_row_logical(&fuses, 5, row).unwrap();
            assert_eq!(piece.selected, choice, "row {row} choice {idx}");
        }
        for constant in [XC2ZIAInput::Zero, XC2ZIAInput::One] {
            let bits = encode_32_zia_choice(row as u32, constant).unwrap();
            assert_eq!(decode(0, &stored(bits)), Ok(constant));
        }
    }
}

#[test]
fn encoded_32_rows_mark_one_position() {
    for row in 0..INPUTS_PER_ANDTERM {
        for idx in 0..6 {
            let bits = encode_32_zia_choice(row as u32, zia_choice_32(row, idx)).unwrap();
            let mut expected = [T; 8];
            expected[idx] = F;
            expected[7] = F;
            assert_eq!(bits, expected);
        }
    }
}
