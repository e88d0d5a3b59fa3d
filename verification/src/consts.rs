//! Command bytes that are the same in every dialect.

use vstd::prelude::*;

verus! {

// Feed control
pub const CTL_LF: [u8; 1] = [0x0a];
pub const CTL_FF: [u8; 1] = [0x0c];
pub const CTL_CR: [u8; 1] = [0x0d];
pub const CTL_HT: [u8; 1] = [0x09];
pub const CTL_VT: [u8; 1] = [0x0b];

// Hardware
pub const HW_INIT: [u8; 2] = [0x1b, 0x40];

// Cash drawer
pub const CD_KICK_2: [u8; 3] = [0x1b, 0x70, 0x00];
pub const CD_KICK_5: [u8; 3] = [0x1b, 0x70, 0x01];

// Character size
pub const TXT_NORMAL: [u8; 3] = [0x1b, 0x21, 0x00];
pub const TXT_2HEIGHT: [u8; 3] = [0x1b, 0x21, 0x10];
pub const TXT_2WIDTH: [u8; 3] = [0x1b, 0x21, 0x20];

// Underline and bold
pub const TXT_UNDERL_OFF: [u8; 3] = [0x1b, 0x2d, 0x00];
pub const TXT_UNDERL_ON: [u8; 3] = [0x1b, 0x2d, 0x01];
pub const TXT_UNDERL2_ON: [u8; 3] = [0x1b, 0x2d, 0x02];
pub const TXT_BOLD_OFF: [u8; 3] = [0x1b, 0x45, 0x00];
pub const TXT_BOLD_ON: [u8; 3] = [0x1b, 0x45, 0x01];

// Font family
pub const TXT_FONT_A: [u8; 3] = [0x1b, 0x4d, 0x00];
pub const TXT_FONT_B: [u8; 3] = [0x1b, 0x4d, 0x01];
pub const TXT_FONT_C: [u8; 3] = [0x1b, 0x4d, 0x02];

// Alignment
pub const TXT_ALIGN_LT: [u8; 3] = [0x1b, 0x61, 0x00];
pub const TXT_ALIGN_CT: [u8; 3] = [0x1b, 0x61, 0x01];
pub const TXT_ALIGN_RT: [u8; 3] = [0x1b, 0x61, 0x02];

// Line spacing
pub const LINE_SPACE_DEFAULT: [u8; 2] = [0x1b, 0x32];

// Code set B of CODE128
pub const CODE_SET_B: [u8; 2] = [0x7b, 0x42];

// Bit image, by density
pub const BITMAP_S8: [u8; 3] = [0x1b, 0x2a, 0x00];
pub const BITMAP_D8: [u8; 3] = [0x1b, 0x2a, 0x01];
pub const BITMAP_S24: [u8; 3] = [0x1b, 0x2a, 0x20];
pub const BITMAP_D24: [u8; 3] = [0x1b, 0x2a, 0x21];

// Raster image, by mode
pub const S_RASTER_N: [u8; 4] = [0x1d, 0x76, 0x30, 0x00];
pub const S_RASTER_2W: [u8; 4] = [0x1d, 0x76, 0x30, 0x01];
pub const S_RASTER_2H: [u8; 4] = [0x1d, 0x76, 0x30, 0x02];
pub const S_RASTER_Q: [u8; 4] = [0x1d, 0x76, 0x30, 0x03];

// Two-dimensional codes
pub const TYPE_QR: [u8; 3] = [0x1d, 0x5a, 0x02];
pub const CODE2D: [u8; 2] = [0x1b, 0x5a];
pub const QR_LEVEL_L: [u8; 1] = [0x4c];
pub const QR_LEVEL_M: [u8; 1] = [0x4d];
pub const QR_LEVEL_Q: [u8; 1] = [0x51];
pub const QR_LEVEL_H: [u8; 1] = [0x48];

// Status queries
pub const QUERY_SERIAL: [u8; 3] = [0x1c, 0xea, 0x52];
pub const QUERY_CUT_COUNT: [u8; 2] = [0x1d, 0xe2];
pub const QUERY_ROM_VERSION: [u8; 3] = [0x1d, 0x49, 0x03];
pub const QUERY_POWER_COUNT: [u8; 2] = [0x1d, 0xe5];
pub const QUERY_PRINTED_LENGTH: [u8; 2] = [0x1d, 0xe3];
pub const QUERY_REMAINING_PAPER: [u8; 2] = [0x1d, 0xe1];
pub const QUERY_PAPER_SENSOR: [u8; 3] = [0x1d, 0x72, 0x01];
pub const QUERY_OFFLINE_STATUS: [u8; 3] = [0x10, 0x04, 0x02];

// Paper end limit, in centimetres: high byte, then low byte
pub const PAPER_END_LIMIT: [u8; 4] = [0x1d, 0xe6, 0x00, 0x00];

} // verus!
