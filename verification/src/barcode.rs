//! The barcode prologue: width, height, text position, font and symbology,
//! each a three-byte command.

use vstd::prelude::*;
use crate::error::PrinterError;

verus! {

/// Where the human-readable text is printed relative to the bars.
#[derive(Clone, Copy, Debug, PartialEq, Eq, Structural)]
pub enum TextPosition {
    Off,
    Above,
    Below,
    Both,
}

/// Barcode symbology.
#[derive(Clone, Copy, Debug, PartialEq, Eq, Structural)]
pub enum BarcodeType {
    UPCA,
    UPCE,
    EAN13,
    EAN8,
    CODE39,
    ITF,
    Code93,
    Codabar,
    Code128,
    PDF417,
    QRCode,
    Maxicode,
    GS1,
}

/// Font of the human-readable text. `Compressed` and `FontB` are two vendors'
/// names for the same setting, as are `Standard` and `FontA`.
#[derive(Clone, Copy, Debug, PartialEq, Eq, Structural)]
pub enum Font {
    Standard,
    Compressed,
    FontA,
    FontB,
}

/// The command dialect of the attached printer.
#[derive(Clone, Copy, Debug, PartialEq, Eq, Structural)]
pub enum SupportedPrinters {
    SNBC,
    P3,
    Unknown,
}

/// Parameters of one barcode.
pub struct Barcode {
    pub printer: SupportedPrinters,
    pub width: u8,
    pub height: u8,
    pub font: Font,
    pub kind: BarcodeType,
    pub position: TextPosition,
}

/// The module width that reaches the wire: the requested one where the
/// dialect accepts it, the dialect's default otherwise. `None` where the
/// dialect has no barcode width command.
pub open spec fn resolved_width(printer: SupportedPrinters, width: u8) -> Option<u8> {
    match printer {
        SupportedPrinters::SNBC => Some(if 2 <= width <= 6 { width } else { 2u8 }),
        SupportedPrinters::P3 => Some(if 1 <= width <= 6 { width } else { 3u8 }),
        SupportedPrinters::Unknown => None,
    }
}

/// The byte that selects a text position.
pub open spec fn position_byte(position: TextPosition) -> u8 {
    match position {
        TextPosition::Off => 0x00,
        TextPosition::Above => 0x01,
        TextPosition::Below => 0x02,
        TextPosition::Both => 0x03,
    }
}

/// The byte that selects a font.
pub open spec fn font_byte(font: Font) -> u8 {
    if font == Font::Compressed || font == Font::FontB { 0x01 } else { 0x00 }
}

/// The byte that selects a symbology. Only CODE128 has a byte of its own;
/// every other symbology is sent as EAN13.
pub open spec fn kind_byte(kind: BarcodeType) -> u8 {
    if kind == BarcodeType::Code128 { 0x08 } else { 0x02 }
}

impl Barcode {
    /// The width command, or `UnsupportedOperation` for a dialect without one.
    pub open spec fn width_command(&self) -> Result<Seq<u8>, PrinterError> {
        match resolved_width(self.printer, self.width) {
            Some(w) => Ok(seq![0x1du8, 0x77u8, w]),
            None => Err(PrinterError::UnsupportedOperation),
        }
    }

    /// The height command. The height is sent as given.
    pub open spec fn height_command(&self) -> Seq<u8> {
        seq![0x1du8, 0x68u8, self.height]
    }

    /// The text position command.
    pub open spec fn position_command(&self) -> Seq<u8> {
        seq![0x1du8, 0x48u8, position_byte(self.position)]
    }

    /// The font command.
    pub open spec fn font_command(&self) -> Seq<u8> {
        seq![0x1du8, 0x66u8, font_byte(self.font)]
    }

    /// The symbology command.
    pub open spec fn kind_command(&self) -> Seq<u8> {
        seq![0x1du8, 0x6bu8, kind_byte(self.kind)]
    }

    /// The five commands in the order in which they are sent.
    pub open spec fn prologue(&self) -> Result<Seq<u8>, PrinterError> {
        match self.width_command() {
            Ok(w) => Ok(
                w + self.height_command() + self.position_command() + self.font_command()
                    + self.kind_command(),
            ),
            Err(e) => Err(e),
        }
    }

    /// Barcode module width: `1D 77 n`.
    pub fn set_width(&mut self) -> (r: Result<[u8; 3], PrinterError>)
        ensures
            *final(self) == *old(self),
            match r {
                Ok(cmd) => old(self).width_command() == Ok::<Seq<u8>, PrinterError>(cmd@),
                Err(e) => old(self).width_command() == Err::<Seq<u8>, PrinterError>(e),
            },
    {
        match self.printer {
            SupportedPrinters::SNBC => {
                let w: u8 = if self.width >= 2 && self.width <= 6 { self.width } else { 0x02 };
                let cmd: [u8; 3] = [0x1d, 0x77, w];
                Ok(cmd)
            },
            SupportedPrinters::P3 => {
                let w: u8 = if self.width >= 1 && self.width <= 6 { self.width } else { 0x03 };
                let cmd: [u8; 3] = [0x1d, 0x77, w];
                Ok(cmd)
            },
            SupportedPrinters::Unknown => Err(PrinterError::UnsupportedOperation),
        }
    }

    /// Barcode height in dots: `1D 68 n`.
    pub fn set_height(&mut self) -> (cmd: [u8; 3])
        ensures
            *final(self) == *old(self),
            cmd@ == old(self).height_command(),
    {
        let cmd: [u8; 3] = [0x1d, 0x68, self.height];
        cmd
    }

    /// Position of the human-readable text: `1D 48 n`.
    pub fn set_text_position(&mut self) -> (cmd: [u8; 3])
        ensures
            *final(self) == *old(self),
            cmd@ == old(self).position_command(),
    {
        let n: u8 = match self.position {
            TextPosition::Off => 0x00,
            TextPosition::Above => 0x01,
            TextPosition::Below => 0x02,
            TextPosition::Both => 0x03,
        };
        let cmd: [u8; 3] = [0x1d, 0x48, n];
        cmd
    }

    /// Font of the human-readable text: `1D 66 n`.
    pub fn set_font(&mut self) -> (cmd: [u8; 3])
        ensures
            *final(self) == *old(self),
            cmd@ == old(self).font_command(),
    {
        let n: u8 = match self.font {
            Font::Compressed => 0x01,
            Font::FontB => 0x01,
            _ => 0x00,
        };
        let cmd: [u8; 3] = [0x1d, 0x66, n];
        cmd
    }

    /// Symbology: `1D 6B n`.
    pub fn set_barcode_type(&mut self) -> (cmd: [u8; 3])
        ensures
            *final(self) == *old(self),
            cmd@ == old(self).kind_command(),
    {
        let n: u8 = match self.kind {
            BarcodeType::Code128 => 0x08,
            _ => 0x02,
        };
        let cmd: [u8; 3] = [0x1d, 0x6b, n];
        cmd
    }
}

} // verus!
