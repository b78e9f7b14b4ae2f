use vstd::prelude::*;

verus! {

/// Width in bytes of one glyph in the 5x6 font table.
pub const FONT_5X6_WIDTH: usize = 5;

/// Fixed-width 5x6 bitmap font covering printable ASCII (0x20 through 0x7F).
///
/// Each glyph occupies `FONT_5X6_WIDTH` consecutive column bytes; bit `k` of a
/// column byte is the pixel `k` rows below the glyph's top edge. The glyph
/// for code point `c` starts at index `(c - 0x20) * FONT_5X6_WIDTH`.
pub const FONT_5X6: [u8; 480] = [
    0x00, 0x00, 0x00, 0x00, 0x00,  // ' '
    0x00, 0x00, 0x17, 0x00, 0x00,  // '!'
    0x00, 0x03, 0x00, 0x03, 0x00,  // '"'
    0x0A, 0x1F, 0x0A, 0x1F, 0x0A,  // '#'
    0x20, 0x2E, 0x2B, 0x3A, 0x02,  // '$'
    0x11, 0x08, 0x04, 0x02, 0x11,  // '%'
    0x0A, 0x15, 0x15, 0x0A, 0x10,  // '&'
    0x00, 0x00, 0x03, 0x00, 0x00,  // "'"
    0x00, 0x00, 0x0E, 0x11, 0x00,  // '('
    0x00, 0x11, 0x0E, 0x00, 0x00,  // ')'
    0x00, 0x0A, 0x04, 0x0A, 0x00,  // '*'
    0x00, 0x04, 0x0E, 0x04, 0x00,  // '+'
    0x00, 0x20, 0x18, 0x00, 0x00,  // ','
    0x00, 0x04, 0x04, 0x04, 0x00,  // '-'
    0x00, 0x00, 0x10, 0x00, 0x00,  // '.'
    0x10, 0x08, 0x04, 0x02, 0x01,  // '/'
    0x0E, 0x19, 0x15, 0x13, 0x0E,  // '0'
    0x00, 0x12, 0x1F, 0x10, 0x00,  // '1'
    0x12, 0x19, 0x15, 0x15, 0x12,  // '2'
    0x11, 0x11, 0x15, 0x15, 0x0A,  // '3'
    0x07, 0x04, 0x04, 0x1F, 0x04,  // '4'
    0x17, 0x15, 0x15, 0x15, 0x09,  // '5'
    0x0E, 0x15, 0x15, 0x15, 0x08,  // '6'
    0x01, 0x19, 0x05, 0x03, 0x01,  // '7'
    0x0A, 0x15, 0x15, 0x15, 0x0A,  // '8'
    0x02, 0x15, 0x15, 0x15, 0x0E,  // '9'
    0x00, 0x00, 0x0A, 0x00, 0x00,  // ':'
    0x00, 0x10, 0x0A, 0x00, 0x00,  // ';'
    0x00, 0x04, 0x0A, 0x11, 0x00,  // '<'
    0x00, 0x0A, 0x0A, 0x0A, 0x00,  // '='
    0x00, 0x11, 0x0A, 0x04, 0x00,  // '>'
    0x02, 0x01, 0x15, 0x05, 0x02,  // '?'
    0x0E, 0x11, 0x15, 0x15, 0x06,  // '@'
    0x1E, 0x05, 0x05, 0x05, 0x1E,  // 'A'
    0x1F, 0x15, 0x15, 0x15, 0x0A,  // 'B'
    0x0E, 0x11, 0x11, 0x11, 0x11,  // 'C'
    0x1F, 0x11, 0x11, 0x11, 0x0E,  // 'D'
    0x1F, 0x15, 0x15, 0x15, 0x11,  // 'E'
    0x1F, 0x05, 0x05, 0x05, 0x01,  // 'F'
    0x0E, 0x11, 0x15, 0x15, 0x0D,  // 'G'
    0x1F, 0x04, 0x04, 0x04, 0x1F,  // 'H'
    0x00, 0x11, 0x1F, 0x11, 0x00,  // 'I'
    0x08, 0x10, 0x11, 0x0F, 0x01,  // 'J'
    0x1F, 0x04, 0x04, 0x0A, 0x11,  // 'K'
    0x1F, 0x10, 0x10, 0x10, 0x10,  // 'L'
    0x1F, 0x02, 0x04, 0x02, 0x1F,  // 'M'
    0x1F, 0x02, 0x04, 0x08, 0x1F,  // 'N'
    0x0E, 0x11, 0x11, 0x11, 0x0E,  // 'O'
    0x1F, 0x05, 0x05, 0x05, 0x02,  // 'P'
    0x0E, 0x11, 0x15, 0x09, 0x16,  // 'Q'
    0x1F, 0x05, 0x05, 0x0D, 0x12,  // 'R'
    0x12, 0x15, 0x15, 0x15, 0x09,  // 'S'
    0x01, 0x01, 0x1F, 0x01, 0x01,  // 'T'
    0x0F, 0x10, 0x10, 0x10, 0x0F,  // 'U'
    0x07, 0x08, 0x10, 0x08, 0x07,  // 'V'
    0x1F, 0x08, 0x04, 0x08, 0x1F,  // 'W'
    0x11, 0x0A, 0x04, 0x0A, 0x11,  // 'X'
    0x01, 0x02, 0x1C, 0x02, 0x01,  // 'Y'
    0x11, 0x19, 0x15, 0x13, 0x11,  // 'Z'
    0x00, 0x00, 0x1F, 0x11, 0x00,  // '['
    0x01, 0x02, 0x04, 0x08, 0x10,  // '\'
    0x00, 0x11, 0x1F, 0x00, 0x00,  // ']'
    0x00, 0x02, 0x01, 0x02, 0x00,  // '^'
    0x10, 0x10, 0x10, 0x10, 0x10,  // '_'
    0x00, 0x01, 0x02, 0x00, 0x00,  // '`'
    0x1E, 0x05, 0x05, 0x05, 0x1E,  // 'a'
    0x1F, 0x15, 0x15, 0x15, 0x0A,  // 'b'
    0x0E, 0x11, 0x11, 0x11, 0x11,  // 'c'
    0x1F, 0x11, 0x11, 0x11, 0x0E,  // 'd'
    0x1F, 0x15, 0x15, 0x15, 0x11,  // 'e'
    0x1F, 0x05, 0x05, 0x05, 0x01,  // 'f'
    0x0E, 0x11, 0x15, 0x15, 0x0D,  // 'g'
    0x1F, 0x04, 0x04, 0x04, 0x1F,  // 'h'
    0x00, 0x11, 0x1F, 0x11, 0x00,  // 'i'
    0x08, 0x10, 0x11, 0x0F, 0x01,  // 'j'
    0x1F, 0x04, 0x04, 0x0A, 0x11,  // 'k'
    0x1F, 0x10, 0x10, 0x10, 0x10,  // 'l'
    0x1F, 0x02, 0x04, 0x02, 0x1F,  // 'm'
    0x1F, 0x02, 0x04, 0x08, 0x1F,  // 'n'
    0x0E, 0x11, 0x11, 0x11, 0x0E,  // 'o'
    0x1F, 0x05, 0x05, 0x05, 0x02,  // 'p'
    0x0E, 0x11, 0x15, 0x09, 0x16,  // 'q'
    0x1F, 0x05, 0x05, 0x0D, 0x12,  // 'r'
    0x12, 0x15, 0x15, 0x15, 0x09,  // 's'
    0x01, 0x01, 0x1F, 0x01, 0x01,  // 't'
    0x0F, 0x10, 0x10, 0x10, 0x0F,  // 'u'
    0x07, 0x08, 0x10, 0x08, 0x07,  // 'v'
    0x1F, 0x08, 0x04, 0x08, 0x1F,  // 'w'
    0x11, 0x0A, 0x04, 0x0A, 0x11,  // 'x'
    0x01, 0x02, 0x1C, 0x02, 0x01,  // 'y'
    0x11, 0x19, 0x15, 0x13, 0x11,  // 'z'
    0x00, 0x04, 0x0E, 0x11, 0x00,  // '{'
    0x00, 0x00, 0x1F, 0x00, 0x00,  // '|'
    0x00, 0x11, 0x0E, 0x04, 0x00,  // '}'
    0x04, 0x02, 0x02, 0x04, 0x02,  // '~'
    0x1F, 0x11, 0x11, 0x11, 0x1F,  // DEL
];

} // verus!
