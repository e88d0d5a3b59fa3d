use posify::barcode::{Barcode, BarcodeType, Font, SupportedPrinters, TextPosition};
use posify::error::PrinterError;

fn barcode_for(printer: SupportedPrinters, width: u8) -> Barcode {
    Barcode {
        printer,
        width,
        height: 162,
        font: Font::Standard,
        kind: BarcodeType::EAN13,
        position: TextPosition::Below,
    }
}

#[test]
fn snbc_width_in_range_is_sent_as_given() {
    for w in 2u8..=6 {
        let mut bc = barcode_for(SupportedPrinters::SNBC, w);
        assert_eq!(bc.set_width(), Ok([0x1d, 0x77, w]));
    }
}

#[test]
fn snbc_width_out_of_range_becomes_two() {
    for w in [0u8, 1, 7, 255] {
        let mut bc = barcode_for(SupportedPrinters::SNBC, w);
        assert_eq!(bc.set_width(), Ok([0x1d, 0x77, 0x02]));
    }
}

#[test]
fn p3_width_in_range_is_sent_as_given() {
    for w in 1u8..=6 {
        let mut bc = barcode_for(SupportedPrinters::P3, w);
        assert_eq!(bc.set_width(), Ok([0x1d, 0x77, w]));
    }
}

#[test]
fn p3_width_out_of_range_becomes_three() {
    for w in [0u8, 7, 128, 255] {
        let mut bc = barcode_for(SupportedPrinters::P3, w);
        assert_eq!(bc.set_width(), Ok([0x1d, 0x77, 0x03]));
    }
}

#[test]
fn every_width_resolves_into_the_dialect_range() {
    for w in 0u8..=255 {
        let mut a = barcode_for(SupportedPrinters::SNBC, w);
        let sent = a.set_width().unwrap()[2];
        assert!((2..=6).contains(&sent));
        let mut b = barcode_for(SupportedPrinters::P3, w);
        let sent = b.set_width().unwrap()[2];
        assert!((1..=6).contains(&sent));
    }
}

#[test]
fn unknown_dialect_has_no_width_command() {
    let mut bc = barcode_for(SupportedPrinters::Unknown, 3);
    assert_eq!(bc.set_width(), Err(PrinterError::UnsupportedOperation));
}

#[test]
fn set_width_leaves_the_barcode_unchanged() {
    let mut bc = barcode_for(SupportedPrinters::SNBC, 200);
    let _ = bc.set_width();
    assert_eq!(bc.width, 200);
    assert_eq!(bc.height, 162);
    assert_eq!(bc.printer, SupportedPrinters::SNBC);
}

#[test]
fn height_is_sent_unclamped() {
    for h in [0u8, 1, 162, 255] {
        let mut bc = barcode_for(SupportedPrinters::P3, 3);
        bc.height = h;
        assert_eq!(bc.set_height(), [0x1d, 0x68, h]);
    }
}

#[test]
fn text_position_bytes() {
    let cases = [
        (TextPosition::Off, 0x00u8),
        (TextPosition::Above, 0x01),
        (TextPosition::Below, 0x02),
        (TextPosition::Both, 0x03),
    ];
    for (position, byte) in cases {
        for printer in [SupportedPrinters::SNBC, SupportedPrinters::P3, SupportedPrinters::Unknown] {
            let mut bc = barcode_for(printer, 3);
            bc.position = position;
            assert_eq!(bc.set_text_position(), [0x1d, 0x48, byte]);
        }
    }
}

#[test]
fn font_bytes() {
    let cases = [
        (Font::Standard, 0x00u8),
        (Font::FontA, 0x00),
        (Font::Compressed, 0x01),
        (Font::FontB, 0x01),
    ];
    for (font, byte) in cases {
        let mut bc = barcode_for(SupportedPrinters::SNBC, 3);
        bc.font = font;
        assert_eq!(bc.set_font(), [0x1d, 0x66, byte]);
    }
}

#[test]
fn only_code128_has_a_type_byte_of_its_own() {
    let all = [
        BarcodeType::UPCA,
        BarcodeType::UPCE,
        BarcodeType::EAN13,
        BarcodeType::EAN8,
        BarcodeType::CODE39,
        BarcodeType::ITF,
        BarcodeType::Code93,
        BarcodeType::Codabar,
        BarcodeType::Code128,
        BarcodeType::PDF417,
        BarcodeType::QRCode,
        BarcodeType::Maxicode,
        BarcodeType::GS1,
    ];
    for kind in all {
        let mut bc = barcode_for(SupportedPrinters::P3, 3);
        bc.kind = kind;
        let expected = if kind == BarcodeType::Code128 { 0x08 } else { 0x02 };
        assert_eq!(bc.set_barcode_type(), [0x1d, 0x6b, expected]);
    }
}
