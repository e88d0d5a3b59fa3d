//! The command facade: one printer session. Each directive appends the bytes
//! of its command to the session's pending output, in call order; `flush`
//! hands the pending bytes over for sending.

use vstd::prelude::*;
use vstd::utf8::encode_utf8;
use crate::command::{
    barcode_command, bit_image_command, bit_image_rows, cashdraw_command, density_of,
    disable_command, enable_command, feed_command, full_cut_command, keyword_command, line_of,
    line_space_command, partial_cut_command, qrcode_command, raster_command,
    raster_mode_header, size_command, style_command, text_command, underline_mode_command,
};
use crate::consts::{
    CD_KICK_2, CD_KICK_5, CODE2D, CODE_SET_B, HW_INIT, LINE_SPACE_DEFAULT, PAPER_END_LIMIT,
    QUERY_CUT_COUNT, QUERY_OFFLINE_STATUS, QUERY_PAPER_SENSOR, QUERY_POWER_COUNT,
    QUERY_PRINTED_LENGTH, QUERY_REMAINING_PAPER, QUERY_ROM_VERSION, QUERY_SERIAL, S_RASTER_N,
    TXT_2HEIGHT, TXT_2WIDTH, TXT_NORMAL, TXT_UNDERL_OFF, TYPE_QR,
};
use crate::error::PrinterError;
use crate::img::{rows_of, Image};
use crate::keyword::{
    align_bytes, align_command, control_bytes, control_command, font_bytes, font_command,
    qr_level_command, raster_header, style_commands, underline_command, Density,
};
use crate::status::{
    buffer_text, is_text, paper_present, paper_reply, reply_buffer, status_label, status_reply,
    text_reply, Query,
};
use crate::text::{bytes_of, encode_text, policy_text, to_upper, uppercase, Codec, Trap};
use crate::wire::{low_byte, u16_le, u16_le_bytes};

pub use crate::barcode::{Barcode, BarcodeType, Font, SupportedPrinters, TextPosition};

verus! {

/// A printer session.
pub struct Printer {
    out: Vec<u8>,
    codec: Codec,
    trap: Trap,
    printer: SupportedPrinters,
}

/// What a session consists of: the bytes written and not yet handed over,
/// the text policy, and the dialect.
pub struct PrinterState {
    pub pending: Seq<u8>,
    pub codec: Codec,
    pub trap: Trap,
    pub printer: SupportedPrinters,
}

impl PrinterState {
    /// The session after `bytes` were written.
    pub open spec fn wrote(self, bytes: Seq<u8>) -> PrinterState {
        PrinterState { pending: self.pending + bytes, ..self }
    }
}

/// Directives append in call order: writing `first` and then `second`
/// leaves what writing the two joined leaves.
pub proof fn lemma_wrote_in_order(state: PrinterState, first: Seq<u8>, second: Seq<u8>)
    ensures
        state.wrote(first).wrote(second) == state.wrote(first + second),
        state.wrote(Seq::<u8>::empty()) == state,
{
    assert(state.wrote(first).wrote(second).pending =~= state.wrote(first + second).pending);
    assert(state.wrote(Seq::<u8>::empty()).pending =~= state.pending);
}

impl View for Printer {
    type V = PrinterState;

    closed spec fn view(&self) -> PrinterState {
        PrinterState {
            pending: self.out@,
            codec: self.codec,
            trap: self.trap,
            printer: self.printer,
        }
    }
}

/// The outcome of a directive whose command is `cmd`: the command is written
/// whole and its length returned, or, where there is no command, the error is
/// returned and nothing is written.
pub open spec fn sends(
    before: PrinterState,
    after: PrinterState,
    r: Result<usize, PrinterError>,
    cmd: Result<Seq<u8>, PrinterError>,
) -> bool {
    match cmd {
        Ok(bytes) => after == before.wrote(bytes) && r == Ok::<usize, PrinterError>(
            bytes.len() as usize,
        ),
        Err(e) => after == before && r == Err::<usize, PrinterError>(e),
    }
}

/// Success of the chained form of a directive, which returns the session in
/// place of the length: `now` is the session as returned, with the command
/// written.
pub open spec fn chained(
    before: PrinterState,
    now: PrinterState,
    cmd: Result<Seq<u8>, PrinterError>,
) -> bool {
    cmd matches Ok(bytes) && now == before.wrote(bytes)
}

/// Failure of a directive with error `e`: there is no command, and nothing
/// was written.
pub open spec fn refused(
    before: PrinterState,
    after: PrinterState,
    e: PrinterError,
    cmd: Result<Seq<u8>, PrinterError>,
) -> bool {
    cmd == Err::<Seq<u8>, PrinterError>(e) && after == before
}

impl Printer {
    /// A session with nothing written. The code page defaults to UTF-8 and
    /// the trap to replacement.
    pub fn new(codec: Option<Codec>, trap: Option<Trap>, printer: SupportedPrinters) -> (p: Printer)
        ensures
            p@ == (PrinterState {
                pending: Seq::<u8>::empty(),
                codec: match codec {
                    Some(c) => c,
                    None => Codec::Utf8,
                },
                trap: match trap {
                    Some(t) => t,
                    None => Trap::Replace,
                },
                printer: printer,
            }),
    {
        Printer {
            out: Vec::new(),
            codec: match codec {
                Some(c) => c,
                None => Codec::Utf8,
            },
            trap: match trap {
                Some(t) => t,
                None => Trap::Replace,
            },
            printer,
        }
    }

    /// Appends `buf` to the pending output.
    fn emit(&mut self, buf: &[u8]) -> (n: usize)
        ensures
            final(self)@ == old(self)@.wrote(buf@),
            n == buf@.len(),
    {
        self.out.extend_from_slice(buf);
        assert(self.out@ =~= old(self).out@ + buf@);
        buf.len()
    }

    /// Writes raw bytes.
    pub fn write(&mut self, buf: &[u8]) -> (r: Result<usize, PrinterError>)
        ensures
            sends(old(self)@, final(self)@, r, Ok(buf@)),
    {
        Ok(self.emit(buf))
    }

    /// Writes one raw byte.
    pub fn write_u8(&mut self, n: u8) -> (r: Result<usize, PrinterError>)
        ensures
            sends(old(self)@, final(self)@, r, Ok(seq![n])),
    {
        let buf: [u8; 1] = [n];
        assert(buf@ =~= seq![n]);
        Ok(self.emit(&buf))
    }

    /// The chained form of `write_u8`: returns the session in place of the length.
    pub fn chain_write_u8(&mut self, n: u8) -> (r: Result<&mut Self, PrinterError>)
        ensures
            match r {
                Ok(p) => chained(old(self)@, p@, Ok(seq![n])) && *final(p) == *final(self),
                Err(e) => refused(old(self)@, final(self)@, e, Ok(seq![n])),
            },
    {
        match self.write_u8(n) {
            Ok(_) => Ok(self),
            Err(e) => Err(e),
        }
    }

    /// Writes a sixteen-bit field, low byte first.
    fn write_u16le(&mut self, n: u16) -> (written: usize)
        ensures
            final(self)@ == old(self)@.wrote(u16_le(n)),
            written == 2,
    {
        let buf: [u8; 2] = u16_le_bytes(n);
        self.emit(&buf)
    }

    /// Hands over the pending output, which is then empty.
    pub fn flush(&mut self) -> (bytes: Vec<u8>)
        ensures
            bytes@ == old(self)@.pending,
            final(self)@ == (PrinterState { pending: Seq::<u8>::empty(), ..old(self)@ }),
    {
        let mut bytes: Vec<u8> = Vec::new();
        core::mem::swap(&mut self.out, &mut bytes);
        bytes
    }

    /// Initialises the printer: `1B 40` in every dialect.
    pub fn hwinit(&mut self) -> (r: Result<usize, PrinterError>)
        ensures
            sends(old(self)@, final(self)@, r, Ok(HW_INIT@)),
    {
        Ok(self.emit(&HW_INIT))
    }

    /// The chained form of `hwinit`: returns the session in place of the length.
    pub fn chain_hwinit(&mut self) -> (r: Result<&mut Self, PrinterError>)
        ensures
            match r {
                Ok(p) => chained(old(self)@, p@, Ok(HW_INIT@)) && *final(p) == *final(self),
                Err(e) => refused(old(self)@, final(self)@, e, Ok(HW_INIT@)),
            },
    {
        match self.hwinit() {
            Ok(_) => Ok(self),
            Err(e) => Err(e),
        }
    }

    /// Enables the printer.
    pub fn enable(&mut self) -> (r: Result<usize, PrinterError>)
        ensures
            sends(old(self)@, final(self)@, r, enable_command(old(self)@.printer)),
    {
        match self.printer {
            SupportedPrinters::SNBC => Ok(self.emit(&[0x1b, 0x3d, 0x01])),
            SupportedPrinters::P3 => Ok(self.emit(&[0x1b, 0x3d, 0x01])),
            SupportedPrinters::Unknown => Err(PrinterError::UnsupportedOperation),
        }
    }

    /// The chained form of `enable`: returns the session in place of the length.
    pub fn chain_enable(&mut self) -> (r: Result<&mut Self, PrinterError>)
        ensures
            match r {
                Ok(p) => chained(old(self)@, p@, enable_command(old(self)@.printer)) && *final(p)
                    == *final(self),
                Err(e) => refused(old(self)@, final(self)@, e, enable_command(old(self)@.printer)),
            },
    {
        match self.enable() {
            Ok(_) => Ok(self),
            Err(e) => Err(e),
        }
    }
}

impl Printer {
    /// Prints a bit image row by row. The line spacing is first set to zero,
    /// so that the rows join; each row is sent under the header of the
    /// density, with its length in bytes before it and a line feed after it.
    /// Returns the number of bytes written.
    pub fn bit_image(&mut self, image: &Image, density: Option<&str>) -> (r: Result<
        usize,
        PrinterError,
    >)
        ensures
            sends(
                old(self)@,
                final(self)@,
                r,
                Ok(bit_image_command(*image, density_of(density))),
            ),
    {
        let d: Density = match density {
            Some(word) => Density::from_keyword(to_upper(word).as_str()),
            None => Density::D24,
        };
        let header: [u8; 3] = d.header();
        let lines = image.bitimage_lines(d);
        let start: usize = self.out.len();
        let spacing: [u8; 3] = [0x1b, 0x33, 0x00];
        self.emit(&spacing);
        let ghost rows = rows_of(*lines);
        let mut i: usize = 0;
        while i < lines.len()
            invariant
                i <= lines@.len(),
                rows == rows_of(*lines),
                self@ == old(self)@.wrote(
                    line_space_command(0) + bit_image_rows(header@, rows.take(i as int)),
                ),
            decreases lines@.len() - i,
        {
            let line = &lines[i];
            let count: u16 = (line.len() % 0x10000) as u16;
            self.emit(&header);
            self.write_u16le(count);
            self.emit(line.as_slice());
            self.emit(&[0x0a]);
            proof {
                let next = rows.take(i + 1);
                assert(next.drop_last() =~= rows.take(i as int));
                assert(self@.pending =~= old(self)@.pending + (line_space_command(0)
                    + bit_image_rows(header@, next)));
            }
            i += 1;
        }
        assert(rows.take(i as int) =~= rows);
        let end: usize = self.out.len();
        Ok(end - start)
    }

    /// The chained form of `bit_image`: returns the session in place of the length.
    pub fn chain_bit_image(&mut self, image: &Image, density: Option<&str>) -> (r: Result<
        &mut Self,
        PrinterError,
    >)
        ensures
            match r {
                Ok(p) => chained(
                    old(self)@,
                    p@,
                    Ok(bit_image_command(*image, density_of(density))),
                ) && *final(p) == *final(self),
                Err(e) => refused(
                    old(self)@,
                    final(self)@,
                    e,
                    Ok(bit_image_command(*image, density_of(density))),
                ),
            },
    {
        match self.bit_image(image, density) {
            Ok(_) => Ok(self),
            Err(e) => Err(e),
        }
    }
}

impl Printer {
    /// Prints a barcode: the five commands of the prologue, the code set
    /// selector where the symbology is CODE128, the code's bytes and a null
    /// byte. Nothing is written where the dialect has no width command.
    /// Returns the length of the prologue.
    pub fn barcode(
        &mut self,
        code: &str,
        kind: BarcodeType,
        position: TextPosition,
        font: Font,
        width: u8,
        height: u8,
    ) -> (r: Result<usize, PrinterError>)
        ensures
            match barcode_command(
                (Barcode { printer: old(self)@.printer, width, height, font, kind, position }),
                encode_utf8(code@),
            ) {
                Ok(bytes) => final(self)@ == old(self)@.wrote(bytes) && r == Ok::<
                    usize,
                    PrinterError,
                >(15),
                Err(e) => final(self)@ == old(self)@ && r == Err::<usize, PrinterError>(e),
            },
    {
        let mut bc = Barcode { printer: self.printer, width, height, position, font, kind };
        let ghost spec = bc;
        let mut n: usize = 0;
        let w = match bc.set_width() {
            Ok(cmd) => cmd,
            Err(e) => {
                return Err(e);
            },
        };
        n += self.emit(&w);
        n += self.emit(&bc.set_height());
        n += self.emit(&bc.set_text_position());
        n += self.emit(&bc.set_font());
        n += self.emit(&bc.set_barcode_type());
        match kind {
            BarcodeType::Code128 => {
                self.emit(&CODE_SET_B);
            },
            _ => {},
        }
        self.emit(code.as_bytes());
        self.emit(&[0x00]);
        assert(self@.pending =~= old(self)@.pending + barcode_command(
            spec,
            encode_utf8(code@),
        )->Ok_0);
        Ok(n)
    }

    /// The chained form of `barcode`: returns the session in place of the length.
    pub fn chain_barcode(
        &mut self,
        code: &str,
        kind: BarcodeType,
        position: TextPosition,
        font: Font,
        width: u8,
        height: u8,
    ) -> (r: Result<&mut Self, PrinterError>)
        ensures
            match r {
                Ok(p) => chained(
                    old(self)@,
                    p@,
                    barcode_command(
                        (Barcode {
                            printer: old(self)@.printer,
                            width,
                            height,
                            font,
                            kind,
                            position,
                        }),
                        encode_utf8(code@),
                    ),
                ) && *final(p) == *final(self),
                Err(e) => refused(
                    old(self)@,
                    final(self)@,
                    e,
                    barcode_command(
                        (Barcode {
                            printer: old(self)@.printer,
                            width,
                            height,
                            font,
                            kind,
                            position,
                        }),
                        encode_utf8(code@),
                    ),
                ),
            },
    {
        match self.barcode(code, kind, position, font, width, height) {
            Ok(_) => Ok(self),
            Err(e) => Err(e),
        }
    }

    /// Prints a raster image in one command: the header of the mode, the
    /// width in bytes, the height in dots, and the raster bytes. Returns the
    /// number of bytes written.
    pub fn raster(&mut self, image: &Image, mode: Option<&str>) -> (r: Result<usize, PrinterError>)
        ensures
            sends(
                old(self)@,
                final(self)@,
                r,
                Ok(raster_command(raster_mode_header(mode), *image)),
            ),
    {
        let header: [u8; 4] = match mode {
            Some(word) => raster_header(to_upper(word).as_str()),
            None => S_RASTER_N,
        };
        let start: usize = self.out.len();
        let across: u32 = image.width / 8 + (if image.width % 8 != 0 { 1u32 } else { 0u32 });
        self.emit(&header);
        self.write_u16le((across % 0x10000) as u16);
        self.write_u16le((image.height % 0x10000) as u16);
        self.emit(image.get_raster().as_slice());
        assert(self@.pending =~= old(self)@.pending + raster_command(
            raster_mode_header(mode),
            *image,
        ));
        let end: usize = self.out.len();
        Ok(end - start)
    }

    /// The chained form of `raster`: returns the session in place of the length.
    pub fn chain_raster(&mut self, image: &Image, mode: Option<&str>) -> (r: Result<
        &mut Self,
        PrinterError,
    >)
        ensures
            match r {
                Ok(p) => chained(
                    old(self)@,
                    p@,
                    Ok(raster_command(raster_mode_header(mode), *image)),
                ) && *final(p) == *final(self),
                Err(e) => refused(
                    old(self)@,
                    final(self)@,
                    e,
                    Ok(raster_command(raster_mode_header(mode), *image)),
                ),
            },
    {
        match self.raster(image, mode) {
            Ok(_) => Ok(self),
            Err(e) => Err(e),
        }
    }
}

impl Printer {
    /// Disables the printer.
    pub fn disable(&mut self) -> (r: Result<usize, PrinterError>)
        ensures
            sends(old(self)@, final(self)@, r, disable_command(old(self)@.printer)),
    {
        match self.printer {
            SupportedPrinters::SNBC => Ok(self.emit(&[0x1b, 0x3d, 0x00])),
            SupportedPrinters::P3 => Ok(self.emit(&[0x1b, 0x3d, 0x02])),
            SupportedPrinters::Unknown => Err(PrinterError::UnsupportedOperation),
        }
    }

    /// The chained form of `disable`: returns the session in place of the length.
    pub fn chain_disable(&mut self) -> (r: Result<&mut Self, PrinterError>)
        ensures
            match r {
                Ok(p) => chained(old(self)@, p@, disable_command(old(self)@.printer)) && *final(p) == *final(self),
                Err(e) => refused(old(self)@, final(self)@, e, disable_command(old(self)@.printer)),
            },
    {
        match self.disable() {
            Ok(_) => Ok(self),
            Err(e) => Err(e),
        }
    }

    /// Encodes `content` under the session's text policy.
    fn encode(&mut self, content: &str) -> (r: Option<Vec<u8>>)
        ensures
            final(self)@ == old(self)@,
            bytes_of(r) == policy_text(old(self)@.codec, old(self)@.trap, content@),
    {
        encode_text(self.codec, self.trap, content)
    }

    /// Writes text that was encoded already: the bytes, or an encoding error
    /// where there are none.
    pub fn print_encoded(&mut self, encoded: Option<Vec<u8>>) -> (r: Result<usize, PrinterError>)
        ensures
            sends(old(self)@, final(self)@, r, text_command(bytes_of(encoded))),
    {
        match encoded {
            Some(bytes) => Ok(self.emit(bytes.as_slice())),
            None => Err(PrinterError::Encoding),
        }
    }

    /// Prints text, encoded under the session's text policy. Nothing is
    /// written where the text cannot be encoded.
    pub fn print(&mut self, content: &str) -> (r: Result<usize, PrinterError>)
        ensures
            sends(
                old(self)@,
                final(self)@,
                r,
                text_command(policy_text(old(self)@.codec, old(self)@.trap, content@)),
            ),
    {
        let encoded = self.encode(content);
        self.print_encoded(encoded)
    }

    /// The chained form of `print`: returns the session in place of the length.
    pub fn chain_print(&mut self, content: &str) -> (r: Result<&mut Self, PrinterError>)
        ensures
            match r {
                Ok(p) => chained(old(self)@, p@, text_command(policy_text(old(self)@.codec, old(self)@.trap, content@))) && *final(p) == *final(self),
                Err(e) => refused(old(self)@, final(self)@, e, text_command(policy_text(old(self)@.codec, old(self)@.trap, content@))),
            },
    {
        match self.print(content) {
            Ok(_) => Ok(self),
            Err(e) => Err(e),
        }
    }

    /// Prints text and one line terminator, encoded together.
    pub fn println(&mut self, content: &str) -> (r: Result<usize, PrinterError>)
        ensures
            sends(
                old(self)@,
                final(self)@,
                r,
                text_command(policy_text(old(self)@.codec, old(self)@.trap, line_of(content@))),
            ),
    {
        let mut line = content.to_owned();
        line.append("\n");
        proof {
            reveal_strlit("\n");
            assert(line@ =~= line_of(content@));
        }
        self.print(line.as_str())
    }

    /// The chained form of `println`: returns the session in place of the length.
    pub fn chain_println(&mut self, content: &str) -> (r: Result<&mut Self, PrinterError>)
        ensures
            match r {
                Ok(p) => chained(old(self)@, p@, text_command(policy_text(old(self)@.codec, old(self)@.trap, line_of(content@)))) && *final(p) == *final(self),
                Err(e) => refused(old(self)@, final(self)@, e, text_command(policy_text(old(self)@.codec, old(self)@.trap, line_of(content@)))),
            },
    {
        match self.println(content) {
            Ok(_) => Ok(self),
            Err(e) => Err(e),
        }
    }

    /// Prints a line of text; the same as `println`.
    pub fn text(&mut self, content: &str) -> (r: Result<usize, PrinterError>)
        ensures
            sends(
                old(self)@,
                final(self)@,
                r,
                text_command(policy_text(old(self)@.codec, old(self)@.trap, line_of(content@))),
            ),
    {
        self.println(content)
    }

    /// The chained form of `text`: returns the session in place of the length.
    pub fn chain_text(&mut self, content: &str) -> (r: Result<&mut Self, PrinterError>)
        ensures
            match r {
                Ok(p) => chained(old(self)@, p@, text_command(policy_text(old(self)@.codec, old(self)@.trap, line_of(content@)))) && *final(p) == *final(self),
                Err(e) => refused(old(self)@, final(self)@, e, text_command(policy_text(old(self)@.codec, old(self)@.trap, line_of(content@)))),
            },
    {
        match self.text(content) {
            Ok(_) => Ok(self),
            Err(e) => Err(e),
        }
    }

    /// Sets the underline mode: ON, THICK or OFF. A missing or unknown word
    /// means OFF.
    pub fn underline_mode(&mut self, mode: Option<&str>) -> (r: Result<usize, PrinterError>)
        ensures
            sends(old(self)@, final(self)@, r, Ok(underline_mode_command(mode))),
    {
        let cmd: [u8; 3] = match mode {
            Some(word) => underline_command(to_upper(word).as_str()),
            None => TXT_UNDERL_OFF,
        };
        Ok(self.emit(&cmd))
    }

    /// The chained form of `underline_mode`: returns the session in place of the length.
    pub fn chain_underline_mode(&mut self, mode: Option<&str>) -> (r: Result<&mut Self, PrinterError>)
        ensures
            match r {
                Ok(p) => chained(old(self)@, p@, Ok(underline_mode_command(mode))) && *final(p) == *final(self),
                Err(e) => refused(old(self)@, final(self)@, e, Ok(underline_mode_command(mode))),
            },
    {
        match self.underline_mode(mode) {
            Ok(_) => Ok(self),
            Err(e) => Err(e),
        }
    }

    /// Sets the line spacing to `n` where `n` fits a byte, and back to the
    /// default where it does not.
    pub fn line_space(&mut self, n: i32) -> (r: Result<usize, PrinterError>)
        ensures
            sends(old(self)@, final(self)@, r, Ok(line_space_command(n))),
    {
        if 0 <= n && n <= 255 {
            let cmd: [u8; 3] = [0x1b, 0x33, n as u8];
            Ok(self.emit(&cmd))
        } else {
            Ok(self.emit(&LINE_SPACE_DEFAULT))
        }
    }

    /// The chained form of `line_space`: returns the session in place of the length.
    pub fn chain_line_space(&mut self, n: i32) -> (r: Result<&mut Self, PrinterError>)
        ensures
            match r {
                Ok(p) => chained(old(self)@, p@, Ok(line_space_command(n))) && *final(p) == *final(self),
                Err(e) => refused(old(self)@, final(self)@, e, Ok(line_space_command(n))),
            },
    {
        match self.line_space(n) {
            Ok(_) => Ok(self),
            Err(e) => Err(e),
        }
    }

    /// Feeds `n` lines, and one line where `n` is zero.
    pub fn feed(&mut self, n: usize) -> (r: Result<usize, PrinterError>)
        ensures
            sends(old(self)@, final(self)@, r, Ok(feed_command(n))),
    {
        let lines: usize = if n < 1 { 1 } else { n };
        let mut i: usize = 0;
        while i < lines
            invariant
                i <= lines,
                self@ == old(self)@.wrote(Seq::new(i as nat, |k: int| 0x0au8)),
            decreases lines - i,
        {
            self.out.push(0x0a);
            i += 1;
            assert(self@.pending =~= old(self)@.pending + Seq::new(i as nat, |k: int| 0x0au8));
        }
        Ok(lines)
    }

    /// The chained form of `feed`: returns the session in place of the length.
    pub fn chain_feed(&mut self, n: usize) -> (r: Result<&mut Self, PrinterError>)
        ensures
            match r {
                Ok(p) => chained(old(self)@, p@, Ok(feed_command(n))) && *final(p) == *final(self),
                Err(e) => refused(old(self)@, final(self)@, e, Ok(feed_command(n))),
            },
    {
        match self.feed(n) {
            Ok(_) => Ok(self),
            Err(e) => Err(e),
        }
    }

    /// Sends one control byte: LF, FF, CR, HT or VT.
    pub fn control(&mut self, ctrl: &str) -> (r: Result<usize, PrinterError>)
        ensures
            sends(
                old(self)@,
                final(self)@,
                r,
                keyword_command(control_bytes(uppercase(ctrl@))),
            ),
    {
        match control_command(to_upper(ctrl).as_str()) {
            Some(cmd) => Ok(self.emit(&cmd)),
            None => Err(PrinterError::InvalidArgument),
        }
    }

    /// The chained form of `control`: returns the session in place of the length.
    pub fn chain_control(&mut self, ctrl: &str) -> (r: Result<&mut Self, PrinterError>)
        ensures
            match r {
                Ok(p) => chained(old(self)@, p@, keyword_command(control_bytes(uppercase(ctrl@)))) && *final(p) == *final(self),
                Err(e) => refused(old(self)@, final(self)@, e, keyword_command(control_bytes(uppercase(ctrl@)))),
            },
    {
        match self.control(ctrl) {
            Ok(_) => Ok(self),
            Err(e) => Err(e),
        }
    }

    /// Sets the alignment: LT, CT or RT.
    pub fn align(&mut self, alignment: &str) -> (r: Result<usize, PrinterError>)
        ensures
            sends(
                old(self)@,
                final(self)@,
                r,
                keyword_command(align_bytes(uppercase(alignment@))),
            ),
    {
        match align_command(to_upper(alignment).as_str()) {
            Some(cmd) => Ok(self.emit(&cmd)),
            None => Err(PrinterError::InvalidArgument),
        }
    }

    /// The chained form of `align`: returns the session in place of the length.
    pub fn chain_align(&mut self, alignment: &str) -> (r: Result<&mut Self, PrinterError>)
        ensures
            match r {
                Ok(p) => chained(old(self)@, p@, keyword_command(align_bytes(uppercase(alignment@)))) && *final(p) == *final(self),
                Err(e) => refused(old(self)@, final(self)@, e, keyword_command(align_bytes(uppercase(alignment@)))),
            },
    {
        match self.align(alignment) {
            Ok(_) => Ok(self),
            Err(e) => Err(e),
        }
    }

    /// Selects the font family: A, B or C.
    pub fn font(&mut self, family: &str) -> (r: Result<usize, PrinterError>)
        ensures
            sends(
                old(self)@,
                final(self)@,
                r,
                keyword_command(font_bytes(uppercase(family@))),
            ),
    {
        match font_command(to_upper(family).as_str()) {
            Some(cmd) => Ok(self.emit(&cmd)),
            None => Err(PrinterError::InvalidArgument),
        }
    }

    /// The chained form of `font`: returns the session in place of the length.
    pub fn chain_font(&mut self, family: &str) -> (r: Result<&mut Self, PrinterError>)
        ensures
            match r {
                Ok(p) => chained(old(self)@, p@, keyword_command(font_bytes(uppercase(family@)))) && *final(p) == *final(self),
                Err(e) => refused(old(self)@, final(self)@, e, keyword_command(font_bytes(uppercase(family@)))),
            },
    {
        match self.font(family) {
            Ok(_) => Ok(self),
            Err(e) => Err(e),
        }
    }

    /// Sets the text style: B, U, U2, BU, BU2, and normal for any other
    /// word. The bold state is sent first, the underline state second.
    pub fn style(&mut self, kind: &str) -> (r: Result<usize, PrinterError>)
        ensures
            sends(old(self)@, final(self)@, r, Ok(style_command(uppercase(kind@)))),
    {
        let (bold, underline) = style_commands(to_upper(kind).as_str());
        let n: usize = self.emit(&bold);
        let m: usize = self.emit(&underline);
        assert(self@.pending =~= old(self)@.pending + style_command(uppercase(kind@)));
        Ok(n + m)
    }

    /// The chained form of `style`: returns the session in place of the length.
    pub fn chain_style(&mut self, kind: &str) -> (r: Result<&mut Self, PrinterError>)
        ensures
            match r {
                Ok(p) => chained(old(self)@, p@, Ok(style_command(uppercase(kind@)))) && *final(p) == *final(self),
                Err(e) => refused(old(self)@, final(self)@, e, Ok(style_command(uppercase(kind@)))),
            },
    {
        match self.style(kind) {
            Ok(_) => Ok(self),
            Err(e) => Err(e),
        }
    }

    /// Sets the character size. The size is first reset to normal; a width
    /// of 2 then doubles the width and a height of 2 the height. Any other
    /// value leaves that dimension normal.
    pub fn size(&mut self, width: usize, height: usize) -> (r: Result<usize, PrinterError>)
        ensures
            sends(old(self)@, final(self)@, r, Ok(size_command(width, height))),
    {
        let mut n: usize = self.emit(&TXT_NORMAL);
        if width == 2 {
            n += self.emit(&TXT_2WIDTH);
        }
        if height == 2 {
            n += self.emit(&TXT_2HEIGHT);
        }
        assert(self@.pending =~= old(self)@.pending + size_command(width, height));
        Ok(n)
    }

    /// The chained form of `size`: returns the session in place of the length.
    pub fn chain_size(&mut self, width: usize, height: usize) -> (r: Result<&mut Self, PrinterError>)
        ensures
            match r {
                Ok(p) => chained(old(self)@, p@, Ok(size_command(width, height))) && *final(p) == *final(self),
                Err(e) => refused(old(self)@, final(self)@, e, Ok(size_command(width, height))),
            },
    {
        match self.size(width, height) {
            Ok(_) => Ok(self),
            Err(e) => Err(e),
        }
    }

    /// Opens the cash drawer with a pulse on pin 5, or on pin 2 for any
    /// other value of `pin`.
    pub fn cashdraw(&mut self, pin: i32) -> (r: Result<usize, PrinterError>)
        ensures
            sends(old(self)@, final(self)@, r, Ok(cashdraw_command(pin))),
    {
        let cmd: [u8; 3] = if pin == 5 { CD_KICK_5 } else { CD_KICK_2 };
        Ok(self.emit(&cmd))
    }

    /// The chained form of `cashdraw`: returns the session in place of the length.
    pub fn chain_cashdraw(&mut self, pin: i32) -> (r: Result<&mut Self, PrinterError>)
        ensures
            match r {
                Ok(p) => chained(old(self)@, p@, Ok(cashdraw_command(pin))) && *final(p) == *final(self),
                Err(e) => refused(old(self)@, final(self)@, e, Ok(cashdraw_command(pin))),
            },
    {
        match self.cashdraw(pin) {
            Ok(_) => Ok(self),
            Err(e) => Err(e),
        }
    }

    /// Feeds three lines and cuts the paper through.
    pub fn full_cut(&mut self) -> (r: Result<usize, PrinterError>)
        ensures
            sends(old(self)@, final(self)@, r, full_cut_command(old(self)@.printer)),
    {
        match self.printer {
            SupportedPrinters::SNBC => Ok(self.emit(&[0x0a, 0x0a, 0x0a, 0x1d, 0x56, 0x00])),
            _ => Err(PrinterError::UnsupportedOperation),
        }
    }

    /// The chained form of `full_cut`: returns the session in place of the length.
    pub fn chain_full_cut(&mut self) -> (r: Result<&mut Self, PrinterError>)
        ensures
            match r {
                Ok(p) => chained(old(self)@, p@, full_cut_command(old(self)@.printer)) && *final(p) == *final(self),
                Err(e) => refused(old(self)@, final(self)@, e, full_cut_command(old(self)@.printer)),
            },
    {
        match self.full_cut() {
            Ok(_) => Ok(self),
            Err(e) => Err(e),
        }
    }

    /// Feeds three lines and cuts the paper, leaving it attached at one point.
    pub fn partial_cut(&mut self) -> (r: Result<usize, PrinterError>)
        ensures
            sends(old(self)@, final(self)@, r, partial_cut_command(old(self)@.printer)),
    {
        match self.printer {
            SupportedPrinters::SNBC => Ok(self.emit(&[0x0a, 0x0a, 0x0a, 0x1d, 0x56, 0x01])),
            SupportedPrinters::P3 => Ok(self.emit(&[0x0a, 0x0a, 0x0a, 0x1b, 0x6d])),
            SupportedPrinters::Unknown => Err(PrinterError::UnsupportedOperation),
        }
    }

    /// The chained form of `partial_cut`: returns the session in place of the length.
    pub fn chain_partial_cut(&mut self) -> (r: Result<&mut Self, PrinterError>)
        ensures
            match r {
                Ok(p) => chained(old(self)@, p@, partial_cut_command(old(self)@.printer)) && *final(p) == *final(self),
                Err(e) => refused(old(self)@, final(self)@, e, partial_cut_command(old(self)@.printer)),
            },
    {
        match self.partial_cut() {
            Ok(_) => Ok(self),
            Err(e) => Err(e),
        }
    }
}

impl Printer {
    /// Reserved for printing a QR code as an image: writes nothing.
    pub fn qrimage(&mut self) -> (r: Result<usize, PrinterError>)
        ensures
            final(self)@ == old(self)@,
            r == Ok::<usize, PrinterError>(0),
    {
        Ok(0)
    }

    /// The chained form of `qrimage`: returns the session in place of the length.
    pub fn chain_qrimage(&mut self) -> (r: Result<&mut Self, PrinterError>)
        ensures
            r matches Ok(p) && p@ == old(self)@ && *final(p) == *final(self),
    {
        match self.qrimage() {
            Ok(_) => Ok(self),
            Err(e) => Err(e),
        }
    }

    /// Prints a QR code of `code`. The version and the module size default
    /// to 3; the error correction level is L, M, Q or H, and L for any other
    /// word. Returns the number of bytes written.
    pub fn qrcode(&mut self, code: &str, version: Option<i32>, level: &str, size: Option<i32>) -> (r:
        Result<usize, PrinterError>)
        ensures
            sends(
                old(self)@,
                final(self)@,
                r,
                Ok(qrcode_command(encode_utf8(code@), version, uppercase(level@), size)),
            ),
    {
        let level_value: [u8; 1] = qr_level_command(to_upper(level).as_str());
        let v: u8 = match version {
            Some(x) => low_byte(x),
            None => 3,
        };
        let s: u8 = match size {
            Some(x) => low_byte(x),
            None => 3,
        };
        let data = code.as_bytes();
        let start: usize = self.out.len();
        self.emit(&TYPE_QR);
        self.emit(&CODE2D);
        self.emit(&[v]);
        self.emit(&level_value);
        self.emit(&[s]);
        self.write_u16le((data.len() % 0x10000) as u16);
        self.emit(data);
        assert(self@.pending =~= old(self)@.pending + qrcode_command(
            encode_utf8(code@),
            version,
            uppercase(level@),
            size,
        ));
        let end: usize = self.out.len();
        Ok(end - start)
    }

    /// The chained form of `qrcode`: returns the session in place of the length.
    pub fn chain_qrcode(
        &mut self,
        code: &str,
        version: Option<i32>,
        level: &str,
        size: Option<i32>,
    ) -> (r: Result<&mut Self, PrinterError>)
        ensures
            match r {
                Ok(p) => chained(
                    old(self)@,
                    p@,
                    Ok(qrcode_command(encode_utf8(code@), version, uppercase(level@), size)),
                ) && *final(p) == *final(self),
                Err(e) => refused(
                    old(self)@,
                    final(self)@,
                    e,
                    Ok(qrcode_command(encode_utf8(code@), version, uppercase(level@), size)),
                ),
            },
    {
        match self.qrcode(code, version, level, size) {
            Ok(_) => Ok(self),
            Err(e) => Err(e),
        }
    }
}

/// Status queries. A query writes its command; the device answers with a
/// fixed number of bytes. The caller sends the command, reads the answer and
/// passes what it read as `reply`: the receive buffer holds the reply's first
/// bytes, and zeros where the reply is shorter than the buffer.
impl Printer {
    /// Queries the serial number: a reply of 16 bytes, read as text.
    pub fn get_serial(&mut self, reply: &[u8]) -> (r: Result<String, PrinterError>)
        ensures
            final(self)@ == old(self)@.wrote(QUERY_SERIAL@),
            is_text(r, buffer_text(reply_buffer(reply@, 16))),
    {
        self.emit(Query::Serial.command().as_slice());
        text_reply(Query::Serial, reply)
    }

    /// Queries the number of cuts: a reply of 16 bytes, read as text.
    pub fn get_cut_count(&mut self, reply: &[u8]) -> (r: Result<String, PrinterError>)
        ensures
            final(self)@ == old(self)@.wrote(QUERY_CUT_COUNT@),
            is_text(r, buffer_text(reply_buffer(reply@, 16))),
    {
        self.emit(Query::CutCount.command().as_slice());
        text_reply(Query::CutCount, reply)
    }

    /// Queries the ROM version: a reply of 4 bytes, read as text.
    pub fn get_rom_version(&mut self, reply: &[u8]) -> (r: Result<String, PrinterError>)
        ensures
            final(self)@ == old(self)@.wrote(QUERY_ROM_VERSION@),
            is_text(r, buffer_text(reply_buffer(reply@, 4))),
    {
        self.emit(Query::RomVersion.command().as_slice());
        text_reply(Query::RomVersion, reply)
    }

    /// Queries the number of power cycles: a reply of 8 bytes, read as text.
    pub fn get_power_count(&mut self, reply: &[u8]) -> (r: Result<String, PrinterError>)
        ensures
            final(self)@ == old(self)@.wrote(QUERY_POWER_COUNT@),
            is_text(r, buffer_text(reply_buffer(reply@, 8))),
    {
        self.emit(Query::PowerCount.command().as_slice());
        text_reply(Query::PowerCount, reply)
    }

    /// Queries the length printed so far: a reply of 8 bytes, read as text.
    pub fn get_printed_length(&mut self, reply: &[u8]) -> (r: Result<String, PrinterError>)
        ensures
            final(self)@ == old(self)@.wrote(QUERY_PRINTED_LENGTH@),
            is_text(r, buffer_text(reply_buffer(reply@, 8))),
    {
        self.emit(Query::PrintedLength.command().as_slice());
        text_reply(Query::PrintedLength, reply)
    }

    /// Queries the paper that remains: a reply of 8 bytes, read as text.
    pub fn get_remaining_paper(&mut self, reply: &[u8]) -> (r: Result<String, PrinterError>)
        ensures
            final(self)@ == old(self)@.wrote(QUERY_REMAINING_PAPER@),
            is_text(r, buffer_text(reply_buffer(reply@, 8))),
    {
        self.emit(Query::RemainingPaper.command().as_slice());
        text_reply(Query::RemainingPaper, reply)
    }

    /// Sets the paper end limit to zero centimetres.
    pub fn set_paper_end_limit(&mut self) -> (r: Result<(), PrinterError>)
        ensures
            final(self)@ == old(self)@.wrote(PAPER_END_LIMIT@),
            r is Ok,
    {
        self.emit(&PAPER_END_LIMIT);
        Ok(())
    }

    /// Queries the paper sensor: a reply of one byte, which is zero while
    /// paper is loaded.
    pub fn paper_loaded(&mut self, reply: &[u8]) -> (r: Result<bool, PrinterError>)
        ensures
            final(self)@ == old(self)@.wrote(QUERY_PAPER_SENSOR@),
            r == Ok::<bool, PrinterError>(paper_present(reply_buffer(reply@, 1)[0])),
    {
        self.emit(Query::PaperSensor.command().as_slice());
        Ok(paper_reply(reply))
    }

    /// Queries the off-line status: a reply of one byte, of which bit 2
    /// tells whether the cover is open.
    pub fn get_status(&mut self, reply: &[u8]) -> (r: Result<String, PrinterError>)
        ensures
            final(self)@ == old(self)@.wrote(QUERY_OFFLINE_STATUS@),
            r matches Ok(label) && label@ == status_label(reply_buffer(reply@, 1)[0]),
    {
        self.emit(Query::OfflineStatus.command().as_slice());
        Ok(status_reply(reply))
    }
}

} // verus!
