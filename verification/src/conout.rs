//! The text console: what is written to the serial port for a text, and
//! the control strings that move the cursor and set the colours.

use vstd::prelude::*;

verus! {

/// The escape character, which starts every control string.
pub const ESC: u8 = 0x1B;

/// The index of the digit for brightness in the attribute string.
pub const BRIGHT_CONTROL_OFFSET: usize = 2;

/// The index of the first digit of the foreground colour in the attribute
/// string.
pub const FOREGROUND_CONTROL_OFFSET: usize = 6;

/// The index of the first digit of the background colour in the attribute
/// string.
pub const BACKGROUND_CONTROL_OFFSET: usize = 11;

/// The index of the first digit of the row in the cursor string.
pub const ROW_OFFSET: usize = 2;

/// The index of the first digit of the column in the cursor string.
pub const COLUMN_OFFSET: usize = 5;

/// What is written to the port for `byte`: a carriage return before a
/// line feed, else the byte alone.
pub open spec fn byte_output(byte: u8) -> Seq<u8> {
    if byte == 0x0a {
        seq![0x0du8, 0x0au8]
    } else {
        seq![byte]
    }
}

/// The byte that stands for the character `c` on the port: the low byte
/// of its number.
pub open spec fn port_byte(c: char) -> u8 {
    (c as u32 % 256) as u8
}

/// What is written to the port for `text`.
pub open spec fn text_output(text: Seq<char>) -> Seq<u8>
    decreases text.len(),
{
    if text.len() == 0 {
        Seq::empty()
    } else {
        text_output(text.drop_last()) + byte_output(port_byte(text.last()))
    }
}

/// The code of the colour with number `color` as a foreground, and ten
/// less than its code as a background.
pub open spec fn color_code(color: usize) -> usize {
    if color == 0 {
        30
    } else if color == 1 {
        34
    } else if color == 2 {
        32
    } else if color == 3 {
        36
    } else if color == 4 {
        31
    } else if color == 5 {
        35
    } else if color == 6 {
        33
    } else {
        37
    }
}

/// The character of the digit `digit`.
pub open spec fn digit_char(digit: int) -> u8 {
    ((0x30 + digit) % 256) as u8
}

/// The attribute string for the attribute `attribute`: brightness,
/// foreground and background, each as decimal digits at its place.
pub open spec fn attribute_string(before: [u8; 15], attribute: usize) -> Seq<u8> {
    let foreground = color_code(attribute & 0x7) as int;
    let background = color_code((attribute >> 4) & 0x7) + 10;
    before@.update(BRIGHT_CONTROL_OFFSET as int, digit_char(((attribute >> 3) & 1) as int)).update(
        FOREGROUND_CONTROL_OFFSET as int,
        digit_char(foreground / 10),
    ).update(FOREGROUND_CONTROL_OFFSET + 1, digit_char(foreground % 10)).update(
        BACKGROUND_CONTROL_OFFSET as int,
        digit_char(background / 10),
    ).update(BACKGROUND_CONTROL_OFFSET + 1, digit_char(background % 10))
}

/// The cursor string for the place `column`, `row`, both counted from
/// zero: row and column counted from one, each as two decimal digits at
/// its place.
pub open spec fn cursor_string(before: [u8; 9], column: usize, row: usize) -> Seq<u8> {
    before@.update(ROW_OFFSET as int, digit_char((row + 1) / 10)).update(
        ROW_OFFSET + 1,
        digit_char((row + 1) % 10),
    ).update(COLUMN_OFFSET as int, digit_char((column + 1) / 10)).update(
        COLUMN_OFFSET + 1,
        digit_char((column + 1) % 10),
    )
}

/// The bytes written to the port for `byte`.
pub fn write_byte(byte: u8) -> (output: Vec<u8>)
    ensures
        output@ == byte_output(byte),
{
    let mut output: Vec<u8> = Vec::new();
    if byte == 0x0a {
        output.push(0x0d);
    }
    output.push(byte);
    proof {
        assert(output@ =~= byte_output(byte));
    }
    output
}

/// The bytes written to the port for `s`.
pub fn write_string(s: &str) -> (output: Vec<u8>)
    ensures
        output@ == text_output(s@),
{
    let mut output: Vec<u8> = Vec::new();
    let count = s.unicode_len();
    let mut i: usize = 0;
    proof {
        assert(s@.subrange(0, 0) =~= Seq::<char>::empty());
    }
    while i < count
        invariant
            i <= count,
            count == s@.len(),
            output@ == text_output(s@.subrange(0, i as int)),
        decreases count - i,
    {
        let c = s.get_char(i);
        let byte = (c as u32 % 256) as u8;
        let ghost before = output@;
        if byte == 0x0a {
            output.push(0x0d);
        }
        output.push(byte);
        proof {
            let next = s@.subrange(0, i as int + 1);
            assert(next.drop_last() =~= s@.subrange(0, i as int));
            assert(next.last() == c);
            assert(output@ =~= before + byte_output(byte));
        }
        i += 1;
    }
    proof {
        assert(s@.subrange(0, count as int) =~= s@);
    }
    output
}

/// The console for text output.
#[derive(Clone, Copy, Debug)]
pub struct ConOut {
    pub set_mode_string: [u8; 6],
    pub set_attribute_string: [u8; 15],
    pub clear_screen_string: [u8; 5],
    pub set_cursor_position_string: [u8; 9],
    pub cursor_forward_string: [u8; 6],
    pub cursor_backward_string: [u8; 6],
}

impl ConOut {
    /// The console with its control strings as they are at the start.
    pub fn new() -> (conout: ConOut)
        ensures
            conout.set_mode_string@ == seq![ESC, 0x5bu8, 0x3du8, 0x33u8, 0x68u8, 0u8],
            conout.set_attribute_string@ == seq![
                ESC,
                0x5bu8,
                0x30u8,
                0x6du8,
                ESC,
                0x5bu8,
                0x34u8,
                0x30u8,
                0x6du8,
                ESC,
                0x5bu8,
                0x34u8,
                0x30u8,
                0x6du8,
                0u8,
            ],
            conout.clear_screen_string@ == seq![ESC, 0x5bu8, 0x32u8, 0x4au8, 0u8],
            conout.set_cursor_position_string@ == seq![
                ESC,
                0x5bu8,
                0x30u8,
                0x30u8,
                0x3bu8,
                0x30u8,
                0x30u8,
                0x48u8,
                0u8,
            ],
            conout.cursor_forward_string@ == seq![ESC, 0x5bu8, 0x30u8, 0x30u8, 0x43u8, 0u8],
            conout.cursor_backward_string@ == seq![ESC, 0x5bu8, 0x30u8, 0x30u8, 0x44u8, 0u8],
    {
        let conout = ConOut {
            set_mode_string: [ESC, 0x5b, 0x3d, 0x33, 0x68, 0],
            set_attribute_string: [
                ESC,
                0x5b,
                0x30,
                0x6d,
                ESC,
                0x5b,
                0x34,
                0x30,
                0x6d,
                ESC,
                0x5b,
                0x34,
                0x30,
                0x6d,
                0,
            ],
            clear_screen_string: [ESC, 0x5b, 0x32, 0x4a, 0],
            set_cursor_position_string: [ESC, 0x5b, 0x30, 0x30, 0x3b, 0x30, 0x30, 0x48, 0],
            cursor_forward_string: [ESC, 0x5b, 0x30, 0x30, 0x43, 0],
            cursor_backward_string: [ESC, 0x5b, 0x30, 0x30, 0x44, 0],
        };
        proof {
            assert(conout.set_mode_string@ =~= seq![ESC, 0x5bu8, 0x3du8, 0x33u8, 0x68u8, 0u8]);
            assert(conout.set_attribute_string@ =~= seq![
                ESC,
                0x5bu8,
                0x30u8,
                0x6du8,
                ESC,
                0x5bu8,
                0x34u8,
                0x30u8,
                0x6du8,
                ESC,
                0x5bu8,
                0x34u8,
                0x30u8,
                0x6du8,
                0u8,
            ]);
            assert(conout.clear_screen_string@ =~= seq![ESC, 0x5bu8, 0x32u8, 0x4au8, 0u8]);
            assert(conout.set_cursor_position_string@ =~= seq![
                ESC,
                0x5bu8,
                0x30u8,
                0x30u8,
                0x3bu8,
                0x30u8,
                0x30u8,
                0x48u8,
                0u8,
            ]);
            assert(conout.cursor_forward_string@ =~= seq![ESC, 0x5bu8, 0x30u8, 0x30u8, 0x43u8, 0u8]);
            assert(conout.cursor_backward_string@ =~= seq![
                ESC,
                0x5bu8,
                0x30u8,
                0x30u8,
                0x44u8,
                0u8,
            ]);
        }
        conout
    }

    /// The bytes written to the port for `byte`.
    pub fn write_byte(&self, byte: u8) -> (output: Vec<u8>)
        ensures
            output@ == byte_output(byte),
    {
        write_byte(byte)
    }

    /// The bytes written to the port for `s`.
    pub fn write_string(&self, s: &str) -> (output: Vec<u8>)
        ensures
            output@ == text_output(s@),
    {
        write_string(s)
    }

    /// Moves the cursor to `column`, `row`: the cursor string takes the
    /// place, and the bytes written to the port are returned, which are a
    /// carriage return for the first place of the first row and none
    /// otherwise.
    pub fn set_cursor_position(&mut self, column: usize, row: usize) -> (output: Vec<u8>)
        requires
            column < usize::MAX,
            row < usize::MAX,
        ensures
            final(self).set_cursor_position_string@ == cursor_string(
                old(self).set_cursor_position_string,
                column,
                row,
            ),
            output@ == if column == 0 && row == 0 {
                seq![0x0du8]
            } else {
                Seq::<u8>::empty()
            },
            final(self).set_mode_string == old(self).set_mode_string,
            final(self).set_attribute_string == old(self).set_attribute_string,
            final(self).clear_screen_string == old(self).clear_screen_string,
            final(self).cursor_forward_string == old(self).cursor_forward_string,
            final(self).cursor_backward_string == old(self).cursor_backward_string,
    {
        let mut string = self.set_cursor_position_string;
        string[ROW_OFFSET] = ((0x30 + ((row + 1) / 10)) % 256) as u8;
        string[ROW_OFFSET + 1] = ((0x30 + ((row + 1) % 10)) % 256) as u8;
        string[COLUMN_OFFSET] = ((0x30 + ((column + 1) / 10)) % 256) as u8;
        string[COLUMN_OFFSET + 1] = ((0x30 + ((column + 1) % 10)) % 256) as u8;
        proof {
            assert(string@ =~= cursor_string(self.set_cursor_position_string, column, row));
        }
        self.set_cursor_position_string = string;
        let mut output: Vec<u8> = Vec::new();
        if column == 0 && row == 0 {
            output.push(0x0d);
            proof {
                assert(output@ =~= seq![0x0du8]);
            }
        }
        output
    }

    /// Sets the colours: an attribute with a bit above the seven low ones
    /// is ignored; for any other the attribute string takes brightness,
    /// foreground and background.
    pub fn set_attribute(&mut self, attribute: usize)
        ensures
            final(self).set_attribute_string@ == if (attribute | 0x7f) != 0x7f {
                old(self).set_attribute_string@
            } else {
                attribute_string(old(self).set_attribute_string, attribute)
            },
            final(self).set_mode_string == old(self).set_mode_string,
            final(self).clear_screen_string == old(self).clear_screen_string,
            final(self).set_cursor_position_string == old(self).set_cursor_position_string,
            final(self).cursor_forward_string == old(self).cursor_forward_string,
            final(self).cursor_backward_string == old(self).cursor_backward_string,
    {
        if (attribute | 0x7f) != 0x7f {
            return ;
        }
        let foreground_control = color_control(attribute & 0x7);
        let bright_control: usize = (attribute >> 3) & 1;
        let background_control = color_control((attribute >> 4) & 0x7) + 10;
        assert(bright_control <= 1) by (bit_vector)
            requires
                bright_control == (attribute >> 3) & 1,
        ;
        let mut string = self.set_attribute_string;
        string[BRIGHT_CONTROL_OFFSET] = ((0x30 + bright_control) % 256) as u8;
        string[FOREGROUND_CONTROL_OFFSET] = ((0x30 + (foreground_control / 10)) % 256) as u8;
        string[FOREGROUND_CONTROL_OFFSET + 1] = ((0x30 + (foreground_control % 10)) % 256) as u8;
        string[BACKGROUND_CONTROL_OFFSET] = ((0x30 + (background_control / 10)) % 256) as u8;
        string[BACKGROUND_CONTROL_OFFSET + 1] = ((0x30 + (background_control % 10)) % 256) as u8;
        proof {
            assert(string@ =~= attribute_string(self.set_attribute_string, attribute));
        }
        self.set_attribute_string = string;
    }

    /// Clearing the screen writes nothing to the port.
    pub fn clear_screen(&self) -> (output: Vec<u8>)
        ensures
            output@ == Seq::<u8>::empty(),
    {
        Vec::new()
    }
}

/// The code of the colour with number `color` as a foreground.
fn color_control(color: usize) -> (code: usize)
    ensures
        code == color_code(color),
        30 <= code <= 37,
{
    match color {
        0 => 30,
        1 => 34,
        2 => 32,
        3 => 36,
        4 => 31,
        5 => 35,
        6 => 33,
        _ => 37,
    }
}

} // verus!
