//! Keyword arguments. A directive takes its mode as a word ("ON", "CT",
//! "BU2"); the functions here say which command each word selects. They take
//! the word in upper case.

use vstd::prelude::*;
use crate::consts::{
    BITMAP_D24, BITMAP_D8, BITMAP_S24, BITMAP_S8, CTL_CR, CTL_FF, CTL_HT, CTL_LF, CTL_VT,
    QR_LEVEL_H, QR_LEVEL_L, QR_LEVEL_M, QR_LEVEL_Q, S_RASTER_2H, S_RASTER_2W, S_RASTER_N, S_RASTER_Q, TXT_ALIGN_CT, TXT_ALIGN_LT, TXT_ALIGN_RT,
    TXT_BOLD_OFF, TXT_BOLD_ON, TXT_FONT_A, TXT_FONT_B, TXT_FONT_C, TXT_UNDERL2_ON,
    TXT_UNDERL_OFF, TXT_UNDERL_ON,
};
use crate::text::same_text;

verus! {

/// The underline command for a mode: ON, THICK, and OFF for any other word.
pub open spec fn underline_bytes(upper: Seq<char>) -> Seq<u8> {
    if upper == "ON"@ {
        TXT_UNDERL_ON@
    } else if upper == "THICK"@ {
        TXT_UNDERL2_ON@
    } else {
        TXT_UNDERL_OFF@
    }
}

/// The underline command that a word selects.
pub fn underline_command(upper: &str) -> (cmd: [u8; 3])
    ensures
        cmd@ == underline_bytes(upper@),
{
    if same_text(upper, "ON") {
        TXT_UNDERL_ON
    } else if same_text(upper, "THICK") {
        TXT_UNDERL2_ON
    } else {
        TXT_UNDERL_OFF
    }
}

/// The control byte for LF, FF, CR, HT or VT; `None` for any other word.
pub open spec fn control_bytes(upper: Seq<char>) -> Option<Seq<u8>> {
    if upper == "LF"@ {
        Some(CTL_LF@)
    } else if upper == "FF"@ {
        Some(CTL_FF@)
    } else if upper == "CR"@ {
        Some(CTL_CR@)
    } else if upper == "HT"@ {
        Some(CTL_HT@)
    } else if upper == "VT"@ {
        Some(CTL_VT@)
    } else {
        None
    }
}

/// The control byte that a word selects, if any.
pub fn control_command(upper: &str) -> (r: Option<[u8; 1]>)
    ensures
        match r {
            Some(cmd) => control_bytes(upper@) == Some(cmd@),
            None => control_bytes(upper@) is None,
        },
{
    if same_text(upper, "LF") {
        Some(CTL_LF)
    } else if same_text(upper, "FF") {
        Some(CTL_FF)
    } else if same_text(upper, "CR") {
        Some(CTL_CR)
    } else if same_text(upper, "HT") {
        Some(CTL_HT)
    } else if same_text(upper, "VT") {
        Some(CTL_VT)
    } else {
        None
    }
}

/// The alignment command for LT, CT or RT; `None` for any other word.
pub open spec fn align_bytes(upper: Seq<char>) -> Option<Seq<u8>> {
    if upper == "LT"@ {
        Some(TXT_ALIGN_LT@)
    } else if upper == "CT"@ {
        Some(TXT_ALIGN_CT@)
    } else if upper == "RT"@ {
        Some(TXT_ALIGN_RT@)
    } else {
        None
    }
}

/// The alignment command that a word selects, if any.
pub fn align_command(upper: &str) -> (r: Option<[u8; 3]>)
    ensures
        match r {
            Some(cmd) => align_bytes(upper@) == Some(cmd@),
            None => align_bytes(upper@) is None,
        },
{
    if same_text(upper, "LT") {
        Some(TXT_ALIGN_LT)
    } else if same_text(upper, "CT") {
        Some(TXT_ALIGN_CT)
    } else if same_text(upper, "RT") {
        Some(TXT_ALIGN_RT)
    } else {
        None
    }
}

/// The font family command for A, B or C; `None` for any other word.
pub open spec fn font_bytes(upper: Seq<char>) -> Option<Seq<u8>> {
    if upper == "A"@ {
        Some(TXT_FONT_A@)
    } else if upper == "B"@ {
        Some(TXT_FONT_B@)
    } else if upper == "C"@ {
        Some(TXT_FONT_C@)
    } else {
        None
    }
}

/// The font family command that a word selects, if any.
pub fn font_command(upper: &str) -> (r: Option<[u8; 3]>)
    ensures
        match r {
            Some(cmd) => font_bytes(upper@) == Some(cmd@),
            None => font_bytes(upper@) is None,
        },
{
    if same_text(upper, "A") {
        Some(TXT_FONT_A)
    } else if same_text(upper, "B") {
        Some(TXT_FONT_B)
    } else if same_text(upper, "C") {
        Some(TXT_FONT_C)
    } else {
        None
    }
}

/// Whether a style word asks for bold: B, BU and BU2 do.
pub open spec fn style_is_bold(upper: Seq<char>) -> bool {
    upper == "B"@ || upper == "BU"@ || upper == "BU2"@
}

/// The bold command of a style.
pub open spec fn style_bold_bytes(upper: Seq<char>) -> Seq<u8> {
    if style_is_bold(upper) {
        TXT_BOLD_ON@
    } else {
        TXT_BOLD_OFF@
    }
}

/// The underline command of a style: one dot for U and BU, two dots for U2
/// and BU2, off for any other word.
pub open spec fn style_underline_bytes(upper: Seq<char>) -> Seq<u8> {
    if upper == "U"@ || upper == "BU"@ {
        TXT_UNDERL_ON@
    } else if upper == "U2"@ || upper == "BU2"@ {
        TXT_UNDERL2_ON@
    } else {
        TXT_UNDERL_OFF@
    }
}

/// The two commands of a style: bold state first, underline state second.
/// A word that names no style selects the normal one.
pub fn style_commands(upper: &str) -> (r: ([u8; 3], [u8; 3]))
    ensures
        r.0@ == style_bold_bytes(upper@),
        r.1@ == style_underline_bytes(upper@),
{
    let b = same_text(upper, "B");
    let u = same_text(upper, "U");
    let u2 = same_text(upper, "U2");
    let bu = same_text(upper, "BU");
    let bu2 = same_text(upper, "BU2");
    let bold: [u8; 3] = if b || bu || bu2 { TXT_BOLD_ON } else { TXT_BOLD_OFF };
    let underline: [u8; 3] = if u || bu {
        TXT_UNDERL_ON
    } else if u2 || bu2 {
        TXT_UNDERL2_ON
    } else {
        TXT_UNDERL_OFF
    };
    (bold, underline)
}

/// Dot density of a bit image.
#[derive(Clone, Copy, Debug, PartialEq, Eq, Structural)]
pub enum Density {
    S8,
    D8,
    S24,
    D24,
}

impl Density {
    /// The density that a word selects: S8, D8, S24, and D24 for any other
    /// word.
    pub open spec fn of(upper: Seq<char>) -> Density {
        if upper == "S8"@ {
            Density::S8
        } else if upper == "D8"@ {
            Density::D8
        } else if upper == "S24"@ {
            Density::S24
        } else {
            Density::D24
        }
    }

    /// The command that opens a row of the image.
    pub open spec fn header_bytes(self) -> Seq<u8> {
        match self {
            Density::S8 => BITMAP_S8@,
            Density::D8 => BITMAP_D8@,
            Density::S24 => BITMAP_S24@,
            Density::D24 => BITMAP_D24@,
        }
    }

    /// The height of a row in dots.
    pub open spec fn dots(self) -> u32 {
        match self {
            Density::S8 | Density::D8 => 8,
            Density::S24 | Density::D24 => 24,
        }
    }

    /// The density that a word selects.
    pub fn from_keyword(upper: &str) -> (d: Density)
        ensures
            d == Density::of(upper@),
    {
        if same_text(upper, "S8") {
            Density::S8
        } else if same_text(upper, "D8") {
            Density::D8
        } else if same_text(upper, "S24") {
            Density::S24
        } else {
            Density::D24
        }
    }

    /// The command that opens a row of the image.
    pub fn header(self) -> (cmd: [u8; 3])
        ensures
            cmd@ == self.header_bytes(),
    {
        match self {
            Density::S8 => BITMAP_S8,
            Density::D8 => BITMAP_D8,
            Density::S24 => BITMAP_S24,
            Density::D24 => BITMAP_D24,
        }
    }

    /// The height of a row in dots.
    pub fn chunk_height(self) -> (h: u32)
        ensures
            h == self.dots(),
    {
        match self {
            Density::S8 | Density::D8 => 8,
            Density::S24 | Density::D24 => 24,
        }
    }
}

/// The raster header for a mode: DW (double width), DH (double height), QD
/// (both), and the normal size for any other word.
pub open spec fn raster_header_bytes(upper: Seq<char>) -> Seq<u8> {
    if upper == "DW"@ {
        S_RASTER_2W@
    } else if upper == "DH"@ {
        S_RASTER_2H@
    } else if upper == "QD"@ {
        S_RASTER_Q@
    } else {
        S_RASTER_N@
    }
}

/// The raster header that a word selects.
pub fn raster_header(upper: &str) -> (cmd: [u8; 4])
    ensures
        cmd@ == raster_header_bytes(upper@),
{
    if same_text(upper, "DW") {
        S_RASTER_2W
    } else if same_text(upper, "DH") {
        S_RASTER_2H
    } else if same_text(upper, "QD") {
        S_RASTER_Q
    } else {
        S_RASTER_N
    }
}

/// The error correction level of a QR code: M, Q, H, and L for any other
/// word.
pub open spec fn qr_level_bytes(upper: Seq<char>) -> Seq<u8> {
    if upper == "M"@ {
        QR_LEVEL_M@
    } else if upper == "Q"@ {
        QR_LEVEL_Q@
    } else if upper == "H"@ {
        QR_LEVEL_H@
    } else {
        QR_LEVEL_L@
    }
}

/// The error correction level that a word selects.
pub fn qr_level_command(upper: &str) -> (cmd: [u8; 1])
    ensures
        cmd@ == qr_level_bytes(upper@),
{
    if same_text(upper, "M") {
        QR_LEVEL_M
    } else if same_text(upper, "Q") {
        QR_LEVEL_Q
    } else if same_text(upper, "H") {
        QR_LEVEL_H
    } else {
        QR_LEVEL_L
    }
}

} // verus!
