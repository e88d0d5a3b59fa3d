//! The bytes of each directive, as functions of its arguments and the
//! dialect, and what holds of them in general.

use vstd::prelude::*;
use crate::barcode::{Barcode, BarcodeType, SupportedPrinters};
use crate::consts::{
    CD_KICK_2, CD_KICK_5, CODE2D, CODE_SET_B, LINE_SPACE_DEFAULT, S_RASTER_N, TXT_2HEIGHT,
    TXT_2WIDTH, TXT_NORMAL, TXT_UNDERL_OFF, TYPE_QR,
};
use crate::error::PrinterError;
use crate::img::Image;
use crate::keyword::{
    qr_level_bytes, raster_header_bytes, style_bold_bytes, style_underline_bytes,
    underline_bytes, Density,
};
use crate::text::uppercase;
use crate::wire::{low16, low8, u16_le};

verus! {

/// The enable command of a dialect.
pub open spec fn enable_command(printer: SupportedPrinters) -> Result<Seq<u8>, PrinterError> {
    match printer {
        SupportedPrinters::SNBC => Ok(seq![0x1bu8, 0x3du8, 0x01u8]),
        SupportedPrinters::P3 => Ok(seq![0x1bu8, 0x3du8, 0x01u8]),
        SupportedPrinters::Unknown => Err(PrinterError::UnsupportedOperation),
    }
}

/// The disable command of a dialect.
pub open spec fn disable_command(printer: SupportedPrinters) -> Result<Seq<u8>, PrinterError> {
    match printer {
        SupportedPrinters::SNBC => Ok(seq![0x1bu8, 0x3du8, 0x00u8]),
        SupportedPrinters::P3 => Ok(seq![0x1bu8, 0x3du8, 0x02u8]),
        SupportedPrinters::Unknown => Err(PrinterError::UnsupportedOperation),
    }
}

/// The bytes of printed text: its encoding under the session's policy, or an
/// encoding error where the policy cannot encode it.
pub open spec fn text_command(encoded: Option<Seq<u8>>) -> Result<Seq<u8>, PrinterError> {
    match encoded {
        Some(bytes) => Ok(bytes),
        None => Err(PrinterError::Encoding),
    }
}

/// The text of a printed line: the content and one line terminator.
pub open spec fn line_of(content: Seq<char>) -> Seq<char> {
    content.push('\n')
}

/// The underline command for an optional mode word. No word means OFF.
pub open spec fn underline_mode_command(mode: Option<&str>) -> Seq<u8> {
    match mode {
        Some(word) => underline_bytes(uppercase(word@)),
        None => TXT_UNDERL_OFF@,
    }
}

/// The line spacing command: the explicit one where `n` fits a byte, the
/// reset to the default spacing otherwise.
pub open spec fn line_space_command(n: i32) -> Seq<u8> {
    if 0 <= n <= 255 {
        seq![0x1bu8, 0x33u8, n as u8]
    } else {
        LINE_SPACE_DEFAULT@
    }
}

/// The number of lines that a feed of `n` advances: at least one.
pub open spec fn feed_lines(n: usize) -> nat {
    if n < 1 {
        1
    } else {
        n as nat
    }
}

/// The feed command: one line terminator for each line.
pub open spec fn feed_command(n: usize) -> Seq<u8> {
    Seq::new(feed_lines(n), |i: int| 0x0au8)
}

/// A keyword command or, where the word selects none, an invalid argument.
pub open spec fn keyword_command(selected: Option<Seq<u8>>) -> Result<Seq<u8>, PrinterError> {
    match selected {
        Some(bytes) => Ok(bytes),
        None => Err(PrinterError::InvalidArgument),
    }
}

/// The two commands of a style: bold state, then underline state.
pub open spec fn style_command(upper: Seq<char>) -> Seq<u8> {
    style_bold_bytes(upper) + style_underline_bytes(upper)
}

/// The size commands: the reset to normal size, then double width where the
/// width is 2, then double height where the height is 2.
pub open spec fn size_command(width: usize, height: usize) -> Seq<u8> {
    TXT_NORMAL@ + (if width == 2 {
        TXT_2WIDTH@
    } else {
        Seq::<u8>::empty()
    }) + (if height == 2 {
        TXT_2HEIGHT@
    } else {
        Seq::<u8>::empty()
    })
}

/// The code set selector that precedes a barcode's data: code set B for
/// CODE128, nothing for any other symbology.
pub open spec fn code_set_selector(kind: BarcodeType) -> Seq<u8> {
    if kind == BarcodeType::Code128 {
        CODE_SET_B@
    } else {
        Seq::<u8>::empty()
    }
}

/// The whole barcode command: prologue, code set selector, the data, and a
/// null byte.
pub open spec fn barcode_command(bc: Barcode, data: Seq<u8>) -> Result<Seq<u8>, PrinterError> {
    match bc.prologue() {
        Ok(prologue) => Ok(prologue + code_set_selector(bc.kind) + data + seq![0x00u8]),
        Err(e) => Err(e),
    }
}

/// The pulse that opens the cash drawer: one sequence for pin 5, another for
/// any other pin.
pub open spec fn cashdraw_command(pin: i32) -> Seq<u8> {
    if pin == 5 {
        CD_KICK_5@
    } else {
        CD_KICK_2@
    }
}

/// The full cut command of a dialect.
pub open spec fn full_cut_command(printer: SupportedPrinters) -> Result<Seq<u8>, PrinterError> {
    match printer {
        SupportedPrinters::SNBC => Ok(seq![0x0au8, 0x0au8, 0x0au8, 0x1du8, 0x56u8, 0x00u8]),
        _ => Err(PrinterError::UnsupportedOperation),
    }
}

/// The partial cut command of a dialect.
pub open spec fn partial_cut_command(printer: SupportedPrinters) -> Result<Seq<u8>, PrinterError> {
    match printer {
        SupportedPrinters::SNBC => Ok(seq![0x0au8, 0x0au8, 0x0au8, 0x1du8, 0x56u8, 0x01u8]),
        SupportedPrinters::P3 => Ok(seq![0x0au8, 0x0au8, 0x0au8, 0x1bu8, 0x6du8]),
        SupportedPrinters::Unknown => Err(PrinterError::UnsupportedOperation),
    }
}

/// The density that an optional word selects. No word means D24.
pub open spec fn density_of(density: Option<&str>) -> Density {
    match density {
        Some(word) => Density::of(uppercase(word@)),
        None => Density::D24,
    }
}

/// One row of a bit image: the density header, the row's length in bytes as
/// a sixteen-bit field, the row, and a line feed.
pub open spec fn bit_image_row(header: Seq<u8>, row: Seq<u8>) -> Seq<u8> {
    header + u16_le(low16(row.len() as int)) + row + seq![0x0au8]
}

/// The rows of a bit image, first row first.
pub open spec fn bit_image_rows(header: Seq<u8>, rows: Seq<Seq<u8>>) -> Seq<u8>
    decreases rows.len(),
{
    if rows.len() == 0 {
        Seq::<u8>::empty()
    } else {
        bit_image_rows(header, rows.drop_last()) + bit_image_row(header, rows.last())
    }
}

/// The bit image command: line spacing set to zero, then the rows.
pub open spec fn bit_image_command(image: Image, density: Density) -> Seq<u8> {
    line_space_command(0) + bit_image_rows(density.header_bytes(), image.rows(density))
}

/// The raster header that an optional mode word selects. No word means the
/// normal size.
pub open spec fn raster_mode_header(mode: Option<&str>) -> Seq<u8> {
    match mode {
        Some(word) => raster_header_bytes(uppercase(word@)),
        None => S_RASTER_N@,
    }
}

/// The width of a raster line in bytes: the width in dots over eight,
/// rounded up.
pub open spec fn width_in_bytes(width: u32) -> int {
    (width + 7) / 8
}

/// The raster command: the mode header, the width in bytes and the height
/// in dots as sixteen-bit fields, and the raster bytes.
pub open spec fn raster_command(header: Seq<u8>, image: Image) -> Seq<u8> {
    header + u16_le(low16(width_in_bytes(image.width))) + u16_le(low16(image.height as int))
        + image.raster@
}

/// A one-byte field of a QR code: the low byte of the value, or 3 where no
/// value is given.
pub open spec fn qr_field(value: Option<i32>) -> u8 {
    match value {
        Some(v) => low8(v as int),
        None => 3u8,
    }
}

/// The QR code command: the code type, the two-dimensional code command,
/// the version, the error correction level, the module size, the length of
/// the data as a sixteen-bit field, and the data.
pub open spec fn qrcode_command(
    data: Seq<u8>,
    version: Option<i32>,
    level: Seq<char>,
    size: Option<i32>,
) -> Seq<u8> {
    TYPE_QR@ + CODE2D@ + seq![qr_field(version)] + qr_level_bytes(level) + seq![qr_field(size)]
        + u16_le(low16(data.len() as int)) + data
}

/// Whether the byte pair that selects code set B occurs in `bytes`.
pub open spec fn has_code_set_selector(bytes: Seq<u8>) -> bool {
    exists|i: int| 0 <= i && i + 1 < bytes.len() && bytes[i] == 0x7b && #[trigger] bytes[i + 1] == 0x42
}

/// A barcode begins with the width command. It carries the requested width
/// where the dialect accepts it, which is from 2 to 6 for SNBC and from 1 to
/// 6 for P3, and the dialect's default, 2 for SNBC and 3 for P3, otherwise:
/// no width outside the dialect's range reaches the wire.
pub proof fn lemma_barcode_width_field(bc: Barcode, data: Seq<u8>)
    requires
        bc.printer != SupportedPrinters::Unknown,
    ensures
        barcode_command(bc, data) is Ok,
        barcode_command(bc, data)->Ok_0.len() == 16 + code_set_selector(bc.kind).len() + data.len(),
        barcode_command(bc, data)->Ok_0[0] == 0x1d,
        barcode_command(bc, data)->Ok_0[1] == 0x77,
        bc.printer == SupportedPrinters::SNBC ==> barcode_command(bc, data)->Ok_0[2] == (if 2
            <= bc.width <= 6 {
            bc.width
        } else {
            2u8
        }),
        bc.printer == SupportedPrinters::P3 ==> barcode_command(bc, data)->Ok_0[2] == (if 1
            <= bc.width <= 6 {
            bc.width
        } else {
            3u8
        }),
        bc.printer == SupportedPrinters::SNBC ==> 2 <= barcode_command(bc, data)->Ok_0[2] <= 6,
        bc.printer == SupportedPrinters::P3 ==> 1 <= barcode_command(bc, data)->Ok_0[2] <= 6,
{
}

/// The data of a CODE128 barcode stands right behind the selector of code
/// set B, which stands right behind the prologue. The data of any other
/// symbology stands right behind the prologue, and unless the data itself
/// holds the selector's two bytes, the selector occurs nowhere in the command.
pub proof fn lemma_code_set_selector(bc: Barcode, data: Seq<u8>)
    requires
        bc.printer != SupportedPrinters::Unknown,
    ensures
        barcode_command(bc, data) is Ok,
        bc.kind == BarcodeType::Code128 ==> {
            &&& barcode_command(bc, data)->Ok_0.subrange(15, 17) == seq![0x7bu8, 0x42u8]
            &&& barcode_command(bc, data)->Ok_0.subrange(17, 17 + data.len() as int) == data
        },
        bc.kind != BarcodeType::Code128 ==> {
            &&& barcode_command(bc, data)->Ok_0.subrange(15, 15 + data.len() as int) == data
            &&& !has_code_set_selector(data) ==> !has_code_set_selector(
                barcode_command(bc, data)->Ok_0,
            )
        },
{
    let bytes = barcode_command(bc, data)->Ok_0;
    if bc.kind != BarcodeType::Code128 && !has_code_set_selector(data) {
        assert forall|i: int| 0 <= i && i + 1 < bytes.len() implies !(bytes[i] == 0x7b
            && #[trigger] bytes[i + 1] == 0x42) by {
            if 15 <= i && i + 1 < 15 + data.len() {
                assert(bytes[i + 1] == data[(i - 15) + 1]);
            }
        }
    }
}

/// A feed advances as many lines as asked for, and one line where none were
/// asked for: its command is that many line terminators and nothing else.
pub proof fn lemma_feed_lines(n: usize)
    ensures
        feed_command(n).len() == (if n == 0 {
            1
        } else {
            n as int
        }),
        forall|i: int| 0 <= i < feed_command(n).len() ==> feed_command(n)[i] == 0x0a,
        feed_command(0) == feed_command(1),
{
}

/// A size other than 2 in both dimensions sends the reset to normal size
/// and nothing else; with a 2 in either, the reset still comes first.
pub proof fn lemma_size_starts_with_reset(width: usize, height: usize)
    ensures
        size_command(width, height).subrange(0, 3) == TXT_NORMAL@,
        width != 2 && height != 2 ==> size_command(width, height) == TXT_NORMAL@,
        width == 2 && height == 2 ==> size_command(width, height) == TXT_NORMAL@ + TXT_2WIDTH@
            + TXT_2HEIGHT@,
{
}

/// The cash drawer is opened by one of two pulses, which differ: the pulse
/// of pin 5 for a pin of 5, the pulse of pin 2 for every other pin. The
/// pulse depends on the pin alone, so a repeated call sends it again.
pub proof fn lemma_cashdraw_pulses(pin: i32)
    ensures
        cashdraw_command(pin) == CD_KICK_5@ || cashdraw_command(pin) == CD_KICK_2@,
        cashdraw_command(pin) == CD_KICK_5@ <==> pin == 5,
        CD_KICK_5@ != CD_KICK_2@,
{
}

/// A word that names no underline mode selects what OFF selects.
pub proof fn lemma_unknown_underline_is_off(upper: Seq<char>)
    requires
        upper != "ON"@,
        upper != "THICK"@,
    ensures
        underline_bytes(upper) == underline_bytes("OFF"@),
        underline_bytes(upper) == TXT_UNDERL_OFF@,
{
    reveal_strlit("ON");
    reveal_strlit("OFF");
    reveal_strlit("THICK");
    assert("OFF"@.len() != "THICK"@.len());
}

/// The width field of a raster command counts the bytes of one line: the
/// least number of bytes that hold `width` dots.
pub proof fn lemma_width_in_bytes(width: u32)
    ensures
        8 * width_in_bytes(width) >= width,
        8 * (width_in_bytes(width) - 1) < width,
        width_in_bytes(9) == 2,
{
}

/// The fields of a raster command follow its header: two bytes of width,
/// then two bytes of height, then the raster.
pub proof fn lemma_raster_fields(header: Seq<u8>, image: Image)
    ensures
        ({
            let cmd = raster_command(header, image);
            let n = header.len() as int;
            &&& cmd.subrange(0, n) == header
            &&& cmd.subrange(n, n + 2) == u16_le(low16(width_in_bytes(image.width)))
            &&& cmd.subrange(n + 2, n + 4) == u16_le(low16(image.height as int))
            &&& cmd.subrange(n + 4, n + 4 + image.raster@.len() as int) == image.raster@
        }),
{
}

} // verus!
