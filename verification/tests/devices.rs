// The codec by device: the same calls for every part, the row format chosen by the
// device.

use xc2bit::zia::{
    encode_32_zia_choice, encode_64_zia_choice, encode_zia_choice, read_32_zia_fb_row_logical,
    read_64_zia_fb_row_logical, read_zia_fb_row_logical, zia_get_row_width, XC2ZIAError,
    XC2ZIAInput,
};
use xc2bit::zia_tables::{
    entry_input, zia_choice, zia_choice_32, zia_choice_64, zia_choices_per_row, DI, IB, MC,
};
use xc2bit::{XC2Device, INPUTS_PER_ANDTERM};

const T: bool = true;
const F: bool = false;

const DEVICES: [XC2Device; 4] =
    [XC2Device::XC2C32, XC2Device::XC2C32A, XC2Device::XC2C64, XC2Device::XC2C64A];

#[test]
fn forty_rows_per_function_block() {
    assert_eq!(INPUTS_PER_ANDTERM, 40);
}

#[test]
fn table_entries_by_kind() {
    assert_eq!(entry_input(&[IB, 21, 0]), XC2ZIAInput::IBuf { ibuf: 21 });
    assert_eq!(entry_input(&[MC, 1, 9]), XC2ZIAInput::Macrocell { fb: 1, ff: 9 });
    assert_eq!(entry_input(&[DI, 0, 0]), XC2ZIAInput::DedicatedInput);
}

#[test]
fn choices_per_row_by_device() {
    assert_eq!(zia_choices_per_row(XC2Device::XC2C32), 6);
    assert_eq!(zia_choices_per_row(XC2Device::XC2C32A), 6);
    assert_eq!(zia_choices_per_row(XC2Device::XC2C64), 12);
    assert_eq!(zia_choices_per_row(XC2Device::XC2C64A), 12);
}

#[test]
fn catalog_by_device_is_the_catalog_of_its_density() {
    for row in 0..INPUTS_PER_ANDTERM {
        for idx in 0..6 {
            assert_eq!(zia_choice(XC2Device::XC2C32, row, idx), zia_choice_32(row, idx));
            assert_eq!(zia_choice(XC2Device::XC2C32A, row, idx), zia_choice_32(row, idx));
        }
        for idx in 0..12 {
            assert_eq!(zia_choice(XC2Device::XC2C64, row, idx), zia_choice_64(row, idx));
            assert_eq!(zia_choice(XC2Device::XC2C64A, row, idx), zia_choice_64(row, idx));
        }
    }
    assert_eq!(zia_choice(XC2Device::XC2C32A, 6, 1), XC2ZIAInput::DedicatedInput);
}

#[test]
fn encoded_rows_are_as_wide_as_the_rows_of_the_device() {
    for device in DEVICES {
        for constant in [XC2ZIAInput::Zero, XC2ZIAInput::One] {
            let stored = encode_zia_choice(device, 3, constant).unwrap();
            assert_eq!(stored.len(), zia_get_row_width(device));
        }
        let stored = encode_zia_choice(device, 3, zia_choice(device, 3, 0)).unwrap();
        assert_eq!(stored.len(), zia_get_row_width(device));
    }
}

#[test]
fn encode_by_device_gives_fuse_order() {
    // 8-bit rows are turned back to front.
    assert_eq!(
        encode_zia_choice(XC2Device::XC2C32, 0, XC2ZIAInput::Zero),
        Ok(vec![F, F, T, T, T, T, T, T])
    );
    assert_eq!(encode_zia_choice(XC2Device::XC2C32A, 0, XC2ZIAInput::One), Ok(vec![T; 8]));
    assert_eq!(
        encode_zia_choice(XC2Device::XC2C32, 0, XC2ZIAInput::IBuf { ibuf: 10 }),
        Ok(vec![F, T, T, T, T, T, F, T])
    );
    assert_eq!(
        encode_zia_choice(XC2Device::XC2C32, 0, XC2ZIAInput::Macrocell { fb: 1, ff: 9 }),
        Ok(vec![F, T, F, T, T, T, T, T])
    );
    // 16-bit rows are stored as the pattern table has them.
    assert_eq!(
        encode_zia_choice(XC2Device::XC2C64, 0, XC2ZIAInput::Zero),
        Ok(vec![T, T, T, T, T, T, T, F, F, T, T, T, T, T, T, T])
    );
    assert_eq!(
        encode_zia_choice(XC2Device::XC2C64A, 0, XC2ZIAInput::IBuf { ibuf: 0 }),
        Ok(vec![T, T, T, T, T, T, T, F, T, T, T, T, F, T, T, F])
    );
}

#[test]
fn encode_by_device_agrees_with_encode_by_density() {
    for row in 0..INPUTS_PER_ANDTERM as u32 {
        for idx in 0..6 {
            let choice = zia_choice_32(row as usize, idx);
            let mut bits = encode_32_zia_choice(row, choice).unwrap();
            bits.reverse();
            assert_eq!(encode_zia_choice(XC2Device::XC2C32, row, choice), Ok(bits.to_vec()));
        }
        let choice = zia_choice_64(row as usize, 0);
        let bits = encode_64_zia_choice(row, choice).unwrap();
        assert_eq!(encode_zia_choice(XC2Device::XC2C64, row, choice), Ok(bits.to_vec()));
    }
}

#[test]
fn encode_by_device_unrepresentable_choice() {
    let refused = Err(XC2ZIAError::UnrepresentableChoice);
    for device in DEVICES {
        let absent = XC2ZIAInput::Macrocell { fb: 7, ff: 99 };
        assert_eq!(encode_zia_choice(device, 0, absent), refused);
    }
    // Wired on 32-macrocell parts, absent from the stand-in table of the others.
    let choice = XC2ZIAInput::IBuf { ibuf: 10 };
    assert!(encode_zia_choice(XC2Device::XC2C32, 0, choice).is_ok());
    assert_eq!(encode_zia_choice(XC2Device::XC2C64, 0, choice), refused);
}

#[test]
fn read_by_device_agrees_with_read_by_density() {
    let mut fuses = vec![T; 64];
    fuses[16] = F;
    fuses[22] = F;
    fuses[40] = F;
    for row in 0..3 {
        assert_eq!(
            read_zia_fb_row_logical(XC2Device::XC2C32, &fuses, 16, row),
            read_32_zia_fb_row_logical(&fuses, 16, row)
        );
        assert_eq!(
            read_zia_fb_row_logical(XC2Device::XC2C64A, &fuses, 16, row),
            read_64_zia_fb_row_logical(&fuses, 16, row)
        );
    }
    let selected = |device, row| read_zia_fb_row_logical(device, &fuses, 16, row).map(|p| p.selected);
    assert_eq!(selected(XC2Device::XC2C32, 0), Ok(XC2ZIAInput::IBuf { ibuf: 10 }));
    assert_eq!(selected(XC2Device::XC2C32, 1), Ok(XC2ZIAInput::One));
    assert_eq!(selected(XC2Device::XC2C32, 3), Err(XC2ZIAError::NoSelection));
    assert_eq!(selected(XC2Device::XC2C64, 0), Err(XC2ZIAError::UnknownPattern));
    assert_eq!(selected(XC2Device::XC2C64, 2), Ok(XC2ZIAInput::One));
}

#[test]
fn round_trip_every_device_row_and_choice() {
    for device in DEVICES {
        let width = zia_get_row_width(device);
        for row in 0..INPUTS_PER_ANDTERM {
            let mut choices: Vec<XC2ZIAInput> =
                (0..zia_choices_per_row(device)).map(|idx| zia_choice(device, row, idx)).collect();
            choices.push(XC2ZIAInput::Zero);
            choices.push(XC2ZIAInput::One);
            for choice in choices {
                let stored = encode_zia_choice(device, row as u32, choice).unwrap();
                let mut fuses = vec![F; 11 + INPUTS_PER_ANDTERM * width];
                let at = 11 + row * width;
                fuses[at..at + width].copy_from_slice(&stored);
                let piece = read_zia_fb_row_logical(device, &fuses, 11, row).unwrap();
                assert_eq!(piece.selected, choice);
            }
        }
    }
}
