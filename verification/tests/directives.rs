use posify::error::PrinterError;
use posify::printer::{BarcodeType, Font, Printer, SupportedPrinters, TextPosition};
use posify::text::{Codec, Trap};

fn session(printer: SupportedPrinters) -> Printer {
    Printer::new(None, None, printer)
}

#[test]
fn new_session_has_nothing_pending() {
    let mut p = session(SupportedPrinters::SNBC);
    assert_eq!(p.flush(), Vec::<u8>::new());
}

#[test]
fn round_trip_on_snbc() {
    let mut p = session(SupportedPrinters::SNBC);
    assert_eq!(p.hwinit(), Ok(2));
    assert_eq!(p.enable(), Ok(3));
    assert_eq!(p.print("hello"), Ok(5));
    assert_eq!(p.feed(1), Ok(1));
    assert_eq!(p.partial_cut(), Ok(6));
    let mut expected = vec![0x1b, 0x40, 0x1b, 0x3d, 0x01];
    expected.extend_from_slice(b"hello");
    expected.push(0x0a);
    expected.extend_from_slice(&[0x0a, 0x0a, 0x0a, 0x1d, 0x56, 0x01]);
    assert_eq!(p.flush(), expected);
}

#[test]
fn round_trip_chained() {
    let mut p = session(SupportedPrinters::SNBC);
    p.chain_hwinit()
        .unwrap()
        .chain_enable()
        .unwrap()
        .chain_print("hello")
        .unwrap()
        .chain_feed(1)
        .unwrap()
        .chain_partial_cut()
        .unwrap();
    let mut expected = vec![0x1b, 0x40, 0x1b, 0x3d, 0x01];
    expected.extend_from_slice(b"hello");
    expected.push(0x0a);
    expected.extend_from_slice(&[0x0a, 0x0a, 0x0a, 0x1d, 0x56, 0x01]);
    assert_eq!(p.flush(), expected);
}

#[test]
fn flush_empties_the_pending_output() {
    let mut p = session(SupportedPrinters::P3);
    p.hwinit().unwrap();
    assert_eq!(p.flush(), vec![0x1b, 0x40]);
    assert_eq!(p.flush(), Vec::<u8>::new());
    p.feed(2).unwrap();
    assert_eq!(p.flush(), vec![0x0a, 0x0a]);
}

#[test]
fn raw_writes() {
    let mut p = session(SupportedPrinters::P3);
    assert_eq!(p.write(&[1, 2, 3]), Ok(3));
    assert_eq!(p.write(&[]), Ok(0));
    assert_eq!(p.write_u8(0xfe), Ok(1));
    p.chain_write_u8(0xff).unwrap().chain_write_u8(0x00).unwrap();
    assert_eq!(p.flush(), vec![1, 2, 3, 0xfe, 0xff, 0x00]);
}

#[test]
fn hwinit_is_the_same_in_every_dialect() {
    for printer in [SupportedPrinters::SNBC, SupportedPrinters::P3, SupportedPrinters::Unknown] {
        let mut p = session(printer);
        assert_eq!(p.hwinit(), Ok(2));
        assert_eq!(p.flush(), vec![0x1b, 0x40]);
    }
}

#[test]
fn enable_and_disable_by_dialect() {
    let mut a = session(SupportedPrinters::SNBC);
    assert_eq!(a.enable(), Ok(3));
    assert_eq!(a.disable(), Ok(3));
    assert_eq!(a.flush(), vec![0x1b, 0x3d, 0x01, 0x1b, 0x3d, 0x00]);
    let mut b = session(SupportedPrinters::P3);
    assert_eq!(b.enable(), Ok(3));
    assert_eq!(b.disable(), Ok(3));
    assert_eq!(b.flush(), vec![0x1b, 0x3d, 0x01, 0x1b, 0x3d, 0x02]);
}

#[test]
fn enable_and_disable_are_unsupported_without_a_dialect() {
    let mut p = session(SupportedPrinters::Unknown);
    assert_eq!(p.enable(), Err(PrinterError::UnsupportedOperation));
    assert_eq!(p.disable(), Err(PrinterError::UnsupportedOperation));
    assert!(matches!(p.chain_enable(), Err(PrinterError::UnsupportedOperation)));
    assert!(matches!(p.chain_disable(), Err(PrinterError::UnsupportedOperation)));
    assert_eq!(p.flush(), Vec::<u8>::new());
}

#[test]
fn feed_of_zero_advances_one_line() {
    let mut p = session(SupportedPrinters::SNBC);
    assert_eq!(p.feed(0), Ok(1));
    assert_eq!(p.flush(), vec![0x0a]);
    assert_eq!(p.feed(usize::MIN), Ok(1));
    assert_eq!(p.flush(), vec![0x0a]);
}

#[test]
fn feed_of_three_advances_three_lines() {
    let mut p = session(SupportedPrinters::SNBC);
    assert_eq!(p.feed(3), Ok(3));
    assert_eq!(p.flush(), vec![0x0a, 0x0a, 0x0a]);
    assert_eq!(p.feed(1), Ok(1));
    assert_eq!(p.flush(), vec![0x0a]);
}

#[test]
fn underline_modes() {
    let cases: [(Option<&str>, u8); 8] = [
        (Some("OFF"), 0x00),
        (Some("ON"), 0x01),
        (Some("THICK"), 0x02),
        (Some("on"), 0x01),
        (Some("Thick"), 0x02),
        (Some(""), 0x00),
        (Some("ON "), 0x00),
        (None, 0x00),
    ];
    for (mode, byte) in cases {
        let mut p = session(SupportedPrinters::P3);
        assert_eq!(p.underline_mode(mode), Ok(3));
        assert_eq!(p.flush(), vec![0x1b, 0x2d, byte]);
    }
}

#[test]
fn unknown_underline_mode_behaves_as_off() {
    let mut bogus = session(SupportedPrinters::SNBC);
    let mut off = session(SupportedPrinters::SNBC);
    assert_eq!(bogus.underline_mode(Some("bogus")), off.underline_mode(Some("OFF")));
    let sent = bogus.flush();
    assert_eq!(sent, off.flush());
    assert_eq!(sent, vec![0x1b, 0x2d, 0x00]);
}

#[test]
fn line_spacing_in_range_is_explicit() {
    for n in [0i32, 1, 30, 255] {
        let mut p = session(SupportedPrinters::SNBC);
        assert_eq!(p.line_space(n), Ok(3));
        assert_eq!(p.flush(), vec![0x1b, 0x33, n as u8]);
    }
}

#[test]
fn line_spacing_out_of_range_resets_to_default() {
    for n in [-1i32, 256, i32::MIN, i32::MAX] {
        let mut p = session(SupportedPrinters::SNBC);
        assert_eq!(p.line_space(n), Ok(2));
        assert_eq!(p.flush(), vec![0x1b, 0x32]);
    }
}

#[test]
fn control_codes() {
    let cases = [("LF", 0x0au8), ("FF", 0x0c), ("CR", 0x0d), ("HT", 0x09), ("VT", 0x0b)];
    for (code, byte) in cases {
        let mut p = session(SupportedPrinters::SNBC);
        assert_eq!(p.control(code), Ok(1));
        assert_eq!(p.control(&code.to_lowercase()), Ok(1));
        assert_eq!(p.flush(), vec![byte, byte]);
    }
}

#[test]
fn unknown_control_code_is_invalid() {
    let mut p = session(SupportedPrinters::SNBC);
    for code in ["", "XX", "L", "LFF", " LF", "NUL"] {
        assert_eq!(p.control(code), Err(PrinterError::InvalidArgument));
        assert!(matches!(p.chain_control(code), Err(PrinterError::InvalidArgument)));
    }
    assert_eq!(p.flush(), Vec::<u8>::new());
}

#[test]
fn keyword_upper_case_is_that_of_the_whole_string() {
    // U+FB00, the ligature of two small f, has the upper-case form "FF".
    let mut p = session(SupportedPrinters::SNBC);
    assert_eq!(p.control("\u{fb00}"), Ok(1));
    assert_eq!(p.flush(), vec![0x0c]);
}

#[test]
fn alignments() {
    let cases = [("LT", 0x00u8), ("CT", 0x01), ("RT", 0x02), ("lt", 0x00), ("Ct", 0x01)];
    for (word, byte) in cases {
        let mut p = session(SupportedPrinters::P3);
        assert_eq!(p.align(word), Ok(3));
        assert_eq!(p.flush(), vec![0x1b, 0x61, byte]);
    }
}

#[test]
fn unknown_alignment_is_invalid() {
    let mut p = session(SupportedPrinters::P3);
    for word in ["", "LEFT", "CENTER", "RIGHT", "L", "XX"] {
        assert_eq!(p.align(word), Err(PrinterError::InvalidArgument));
        assert!(matches!(p.chain_align(word), Err(PrinterError::InvalidArgument)));
    }
    assert_eq!(p.flush(), Vec::<u8>::new());
}

#[test]
fn font_families() {
    let cases = [("A", 0x00u8), ("B", 0x01), ("C", 0x02), ("a", 0x00), ("c", 0x02)];
    for (word, byte) in cases {
        let mut p = session(SupportedPrinters::P3);
        assert_eq!(p.font(word), Ok(3));
        assert_eq!(p.flush(), vec![0x1b, 0x4d, byte]);
    }
}

#[test]
fn unknown_font_family_is_invalid() {
    let mut p = session(SupportedPrinters::P3);
    for word in ["", "D", "AB", "FONTA"] {
        assert_eq!(p.font(word), Err(PrinterError::InvalidArgument));
        assert!(matches!(p.chain_font(word), Err(PrinterError::InvalidArgument)));
    }
    assert_eq!(p.flush(), Vec::<u8>::new());
}

#[test]
fn styles_send_bold_then_underline() {
    let cases = [
        ("B", 0x01u8, 0x00u8),
        ("U", 0x00, 0x01),
        ("U2", 0x00, 0x02),
        ("BU", 0x01, 0x01),
        ("BU2", 0x01, 0x02),
        ("NORMAL", 0x00, 0x00),
        ("bu2", 0x01, 0x02),
        ("", 0x00, 0x00),
        ("bogus", 0x00, 0x00),
    ];
    for (kind, bold, underline) in cases {
        let mut p = session(SupportedPrinters::SNBC);
        assert_eq!(p.style(kind), Ok(6));
        assert_eq!(p.flush(), vec![0x1b, 0x45, bold, 0x1b, 0x2d, underline]);
    }
}

#[test]
fn size_two_by_two_sends_three_blocks() {
    let mut p = session(SupportedPrinters::SNBC);
    assert_eq!(p.size(2, 2), Ok(9));
    assert_eq!(p.flush(), vec![0x1b, 0x21, 0x00, 0x1b, 0x21, 0x20, 0x1b, 0x21, 0x10]);
}

#[test]
fn size_one_by_one_sends_only_the_reset() {
    let mut p = session(SupportedPrinters::SNBC);
    assert_eq!(p.size(1, 1), Ok(3));
    assert_eq!(p.flush(), vec![0x1b, 0x21, 0x00]);
}

#[test]
fn size_ignores_every_value_but_two() {
    let mut p = session(SupportedPrinters::P3);
    assert_eq!(p.size(2, 1), Ok(6));
    assert_eq!(p.flush(), vec![0x1b, 0x21, 0x00, 0x1b, 0x21, 0x20]);
    assert_eq!(p.size(0, 2), Ok(6));
    assert_eq!(p.flush(), vec![0x1b, 0x21, 0x00, 0x1b, 0x21, 0x10]);
    assert_eq!(p.size(3, usize::MAX), Ok(3));
    assert_eq!(p.flush(), vec![0x1b, 0x21, 0x00]);
    p.chain_size(0, 0).unwrap();
    assert_eq!(p.flush(), vec![0x1b, 0x21, 0x00]);
}

#[test]
fn cash_drawer_pulses() {
    let mut p = session(SupportedPrinters::SNBC);
    assert_eq!(p.cashdraw(5), Ok(3));
    let five = p.flush();
    assert_eq!(five, vec![0x1b, 0x70, 0x01]);
    for pin in [2i32, 0, -1, 4, 6, i32::MAX, i32::MIN] {
        assert_eq!(p.cashdraw(pin), Ok(3));
        let other = p.flush();
        assert_eq!(other, vec![0x1b, 0x70, 0x00]);
        assert_ne!(other, five);
    }
}

#[test]
fn cash_drawer_pulse_repeats() {
    let mut p = session(SupportedPrinters::P3);
    p.cashdraw(5).unwrap();
    p.cashdraw(5).unwrap();
    p.chain_cashdraw(2).unwrap().chain_cashdraw(2).unwrap();
    assert_eq!(
        p.flush(),
        vec![0x1b, 0x70, 0x01, 0x1b, 0x70, 0x01, 0x1b, 0x70, 0x00, 0x1b, 0x70, 0x00]
    );
}

#[test]
fn cuts_by_dialect() {
    let mut a = session(SupportedPrinters::SNBC);
    assert_eq!(a.full_cut(), Ok(6));
    assert_eq!(a.flush(), vec![0x0a, 0x0a, 0x0a, 0x1d, 0x56, 0x00]);
    assert_eq!(a.partial_cut(), Ok(6));
    assert_eq!(a.flush(), vec![0x0a, 0x0a, 0x0a, 0x1d, 0x56, 0x01]);
    let mut b = session(SupportedPrinters::P3);
    assert_eq!(b.full_cut(), Err(PrinterError::UnsupportedOperation));
    assert_eq!(b.flush(), Vec::<u8>::new());
    assert_eq!(b.partial_cut(), Ok(5));
    assert_eq!(b.flush(), vec![0x0a, 0x0a, 0x0a, 0x1b, 0x6d]);
    let mut c = session(SupportedPrinters::Unknown);
    assert_eq!(c.full_cut(), Err(PrinterError::UnsupportedOperation));
    assert_eq!(c.partial_cut(), Err(PrinterError::UnsupportedOperation));
    assert!(matches!(c.chain_full_cut(), Err(PrinterError::UnsupportedOperation)));
    assert!(matches!(c.chain_partial_cut(), Err(PrinterError::UnsupportedOperation)));
    assert_eq!(c.flush(), Vec::<u8>::new());
}

#[test]
fn a_failed_directive_in_a_chain_leaves_what_was_written() {
    let mut p = session(SupportedPrinters::P3);
    let r = p.chain_hwinit().unwrap().chain_full_cut();
    assert!(matches!(r, Err(PrinterError::UnsupportedOperation)));
    assert_eq!(p.flush(), vec![0x1b, 0x40]);
}

#[test]
fn barcode_code128_has_the_code_set_selector_before_the_code() {
    let mut p = session(SupportedPrinters::SNBC);
    let r = p.barcode("ABC-123", BarcodeType::Code128, TextPosition::Below, Font::FontB, 3, 80);
    assert_eq!(r, Ok(15));
    let mut expected = vec![
        0x1d, 0x77, 0x03, 0x1d, 0x68, 80, 0x1d, 0x48, 0x02, 0x1d, 0x66, 0x01, 0x1d, 0x6b, 0x08,
        0x7b, 0x42,
    ];
    expected.extend_from_slice(b"ABC-123");
    expected.push(0x00);
    assert_eq!(p.flush(), expected);
}

#[test]
fn barcode_of_any_other_symbology_has_no_selector() {
    let others = [
        BarcodeType::UPCA,
        BarcodeType::UPCE,
        BarcodeType::EAN13,
        BarcodeType::EAN8,
        BarcodeType::CODE39,
        BarcodeType::ITF,
        BarcodeType::Code93,
        BarcodeType::Codabar,
        BarcodeType::PDF417,
        BarcodeType::QRCode,
        BarcodeType::Maxicode,
        BarcodeType::GS1,
    ];
    for kind in others {
        for height in [0u8, 0x7b, 0x42, 255] {
            let mut p = session(SupportedPrinters::P3);
            let r = p.barcode("4006381333931", kind, TextPosition::Off, Font::Standard, 0, height);
            assert_eq!(r, Ok(15));
            let mut expected = vec![
                0x1d, 0x77, 0x03, 0x1d, 0x68, height, 0x1d, 0x48, 0x00, 0x1d, 0x66, 0x00, 0x1d,
                0x6b, 0x02,
            ];
            expected.extend_from_slice(b"4006381333931");
            expected.push(0x00);
            let sent = p.flush();
            assert_eq!(sent, expected);
            assert!(!sent.windows(2).any(|w| w == [0x7b, 0x42]));
        }
    }
}

#[test]
fn barcode_width_reaches_the_wire_resolved() {
    for w in 0u8..=255 {
        let mut a = session(SupportedPrinters::SNBC);
        a.barcode("1", BarcodeType::EAN13, TextPosition::Off, Font::FontA, w, 1).unwrap();
        let expected = if (2..=6).contains(&w) { w } else { 2 };
        assert_eq!(a.flush()[..3], [0x1d, 0x77, expected]);
        let mut b = session(SupportedPrinters::P3);
        b.chain_barcode("1", BarcodeType::EAN13, TextPosition::Off, Font::FontA, w, 1).unwrap();
        let expected = if (1..=6).contains(&w) { w } else { 3 };
        assert_eq!(b.flush()[..3], [0x1d, 0x77, expected]);
    }
}

#[test]
fn barcode_without_a_dialect_writes_nothing() {
    let mut p = session(SupportedPrinters::Unknown);
    let r = p.barcode("123", BarcodeType::Code128, TextPosition::Both, Font::Compressed, 3, 50);
    assert_eq!(r, Err(PrinterError::UnsupportedOperation));
    let r = p.chain_barcode("123", BarcodeType::EAN13, TextPosition::Both, Font::Compressed, 3, 50);
    assert!(matches!(r, Err(PrinterError::UnsupportedOperation)));
    assert_eq!(p.flush(), Vec::<u8>::new());
}

#[test]
fn barcode_with_an_empty_code() {
    let mut p = session(SupportedPrinters::SNBC);
    assert_eq!(p.barcode("", BarcodeType::EAN13, TextPosition::Above, Font::FontA, 6, 1), Ok(15));
    assert_eq!(
        p.flush(),
        vec![
            0x1d, 0x77, 0x06, 0x1d, 0x68, 0x01, 0x1d, 0x48, 0x01, 0x1d, 0x66, 0x00, 0x1d, 0x6b,
            0x02, 0x00
        ]
    );
}

#[test]
fn qr_code_command() {
    let mut p = session(SupportedPrinters::SNBC);
    assert_eq!(p.qrcode("hi", None, "m", None), Ok(12));
    assert_eq!(
        p.flush(),
        vec![0x1d, 0x5a, 0x02, 0x1b, 0x5a, 3, 0x4d, 3, 0x02, 0x00, b'h', b'i']
    );
    assert_eq!(p.qrcode("", Some(7), "bogus", Some(-1)), Ok(10));
    assert_eq!(p.flush(), vec![0x1d, 0x5a, 0x02, 0x1b, 0x5a, 7, 0x4c, 0xff, 0x00, 0x00]);
    p.chain_qrcode("x", Some(256 + 4), "H", Some(i32::MIN)).unwrap();
    assert_eq!(p.flush(), vec![0x1d, 0x5a, 0x02, 0x1b, 0x5a, 4, 0x48, 0, 0x01, 0x00, b'x']);
    p.qrcode("x", Some(1), "q", Some(2)).unwrap();
    assert_eq!(p.flush(), vec![0x1d, 0x5a, 0x02, 0x1b, 0x5a, 1, 0x51, 2, 0x01, 0x00, b'x']);
}

#[test]
fn qr_image_writes_nothing() {
    let mut p = session(SupportedPrinters::SNBC);
    assert_eq!(p.qrimage(), Ok(0));
    assert!(p.chain_qrimage().is_ok());
    assert_eq!(p.flush(), Vec::<u8>::new());
}

#[test]
fn set_paper_end_limit_command() {
    let mut p = session(SupportedPrinters::P3);
    assert_eq!(p.set_paper_end_limit(), Ok(()));
    assert_eq!(p.flush(), vec![0x1d, 0xe6, 0x00, 0x00]);
}

#[test]
fn text_policy_defaults() {
    let mut p = Printer::new(None, None, SupportedPrinters::SNBC);
    assert_eq!(p.print("h\u{e9}llo \u{20ac}"), Ok(10));
    assert_eq!(p.flush(), "h\u{e9}llo \u{20ac}".as_bytes().to_vec());
    let mut q = Printer::new(Some(Codec::Ascii), None, SupportedPrinters::SNBC);
    assert_eq!(q.print("a\u{e9}b"), Ok(3));
    assert_eq!(q.flush(), b"a?b".to_vec());
    let mut r = Printer::new(None, Some(Trap::Strict), SupportedPrinters::SNBC);
    assert_eq!(r.print("\u{e9}"), Ok(2));
    assert_eq!(r.flush(), vec![0xc3, 0xa9]);
}
