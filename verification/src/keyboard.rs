//! Scancode translation and the console input line.
//!
//! The keyboard hands the kernel raw set-1 scancodes; this module turns
//! them into edits of the input line.  The question mark doubles as the
//! sentinel for keys outside the printable map, so such keys are never
//! echoed or stored.  The line holds at most `INPUT_CAPACITY` bytes;
//! keys arriving on a full line are dropped rather than stored.

use vstd::prelude::*;

verus! {

/// Most bytes an input line holds.
pub const INPUT_CAPACITY: usize = 128;

/// The character a scancode produces, unshifted or shifted; `?` stands
/// for every key outside the printable map.
pub open spec fn spec_key_char(scancode: u8, shifted: bool) -> char {
    if shifted {
        match scancode {
            2 => '!',
            3 => '@',
            4 => '#',
            5 => '$',
            6 => '%',
            7 => '^',
            8 => '&',
            9 => '*',
            10 => '(',
            11 => ')',
            12 => '_',
            13 => '+',
            16 => 'Q',
            17 => 'W',
            18 => 'E',
            19 => 'R',
            20 => 'T',
            21 => 'Y',
            22 => 'U',
            23 => 'I',
            24 => 'O',
            25 => 'P',
            26 => '{',
            27 => '}',
            30 => 'A',
            31 => 'S',
            32 => 'D',
            33 => 'F',
            34 => 'G',
            35 => 'H',
            36 => 'J',
            37 => 'K',
            38 => 'L',
            39 => ':',
            40 => '"',
            41 => '~',
            43 => '|',
            44 => 'Z',
            45 => 'X',
            46 => 'C',
            47 => 'V',
            48 => 'B',
            49 => 'N',
            50 => 'M',
            51 => '<',
            52 => '>',
            57 => ' ',
            _ => '?',
        }
    } else {
        match scancode {
            2 => '1',
            3 => '2',
            4 => '3',
            5 => '4',
            6 => '5',
            7 => '6',
            8 => '7',
            9 => '8',
            10 => '9',
            11 => '0',
            12 => '-',
            13 => '=',
            16 => 'q',
            17 => 'w',
            18 => 'e',
            19 => 'r',
            20 => 't',
            21 => 'y',
            22 => 'u',
            23 => 'i',
            24 => 'o',
            25 => 'p',
            26 => '[',
            27 => ']',
            30 => 'a',
            31 => 's',
            32 => 'd',
            33 => 'f',
            34 => 'g',
            35 => 'h',
            36 => 'j',
            37 => 'k',
            38 => 'l',
            39 => ';',
            40 => '\'',
            41 => '`',
            43 => '\\',
            44 => 'z',
            45 => 'x',
            46 => 'c',
            47 => 'v',
            48 => 'b',
            49 => 'n',
            50 => 'm',
            51 => ',',
            52 => '.',
            53 => '/',
            57 => ' ',
            _ => '?',
        }
    }
}

/// Whether the character is a lowercase ASCII letter.
pub open spec fn spec_is_lower(c: char) -> bool {
    97 <= c as u32 <= 122
}

/// The character as caps lock presents it: lowercase letters rise.
pub open spec fn spec_caps_char(c: char, caps: bool) -> char {
    if caps && spec_is_lower(c) {
        ((c as u8) - 32) as char
    } else {
        c
    }
}

/// The byte a key press contributes to the line.
pub open spec fn spec_key_byte(scancode: u8, shifted: bool, caps: bool) -> u8 {
    spec_caps_char(spec_key_char(scancode, shifted), caps) as u8
}

/// The character a scancode produces; executable mirror of the map.
pub fn key_char(scancode: u8, shifted: bool) -> (r: char)
    ensures
        r == spec_key_char(scancode, shifted),
{
    if shifted {
        match scancode {
            2 => '!',
            3 => '@',
            4 => '#',
            5 => '$',
            6 => '%',
            7 => '^',
            8 => '&',
            9 => '*',
            10 => '(',
            11 => ')',
            12 => '_',
            13 => '+',
            16 => 'Q',
            17 => 'W',
            18 => 'E',
            19 => 'R',
            20 => 'T',
            21 => 'Y',
            22 => 'U',
            23 => 'I',
            24 => 'O',
            25 => 'P',
            26 => '{',
            27 => '}',
            30 => 'A',
            31 => 'S',
            32 => 'D',
            33 => 'F',
            34 => 'G',
            35 => 'H',
            36 => 'J',
            37 => 'K',
            38 => 'L',
            39 => ':',
            40 => '"',
            41 => '~',
            43 => '|',
            44 => 'Z',
            45 => 'X',
            46 => 'C',
            47 => 'V',
            48 => 'B',
            49 => 'N',
            50 => 'M',
            51 => '<',
            52 => '>',
            57 => ' ',
            _ => '?',
        }
    } else {
        match scancode {
            2 => '1',
            3 => '2',
            4 => '3',
            5 => '4',
            6 => '5',
            7 => '6',
            8 => '7',
            9 => '8',
            10 => '9',
            11 => '0',
            12 => '-',
            13 => '=',
            16 => 'q',
            17 => 'w',
            18 => 'e',
            19 => 'r',
            20 => 't',
            21 => 'y',
            22 => 'u',
            23 => 'i',
            24 => 'o',
            25 => 'p',
            26 => '[',
            27 => ']',
            30 => 'a',
            31 => 's',
            32 => 'd',
            33 => 'f',
            34 => 'g',
            35 => 'h',
            36 => 'j',
            37 => 'k',
            38 => 'l',
            39 => ';',
            40 => '\'',
            41 => '`',
            43 => '\\',
            44 => 'z',
            45 => 'x',
            46 => 'c',
            47 => 'v',
            48 => 'b',
            49 => 'n',
            50 => 'm',
            51 => ',',
            52 => '.',
            53 => '/',
            57 => ' ',
            _ => '?',
        }
    }
}

/// What one key press did to the input line.
#[derive(Debug, PartialEq, Eq)]
pub enum KeyEvent {
    /// Nothing visible happened.
    Nothing,
    /// This byte was appended and should be echoed.
    Echo(u8),
    /// The last byte was removed.
    Backspace,
    /// Enter: the finished line, already cleared from the buffer.
    Submit(Vec<u8>),
}

/// The console input line with its modifier state.
pub struct InputLine {
    pub bytes: Vec<u8>,
    pub shift: bool,
    pub caps: bool,
}

impl InputLine {
    /// The line never outgrows its capacity.
    pub open spec fn wf(&self) -> bool {
        self.bytes@.len() <= INPUT_CAPACITY
    }

    /// An empty line with no modifiers held.
    pub fn new() -> (r: InputLine)
        ensures
            r.wf(),
            r.bytes@.len() == 0,
            !r.shift,
            !r.caps,
    {
        InputLine { bytes: Vec::new(), shift: false, caps: false }
    }

    /// Applies one scancode: modifier keys toggle state, backspace
    /// shortens the line, enter submits and clears it, and a printable
    /// key appends its byte — unless the key is unmapped or the line is
    /// full, in which case it is dropped.  Any non-modifier printable
    /// key also releases the one-shot shift.
    pub fn handle_input(&mut self, scancode: u8) -> (ev: KeyEvent)
        requires
            old(self).wf(),
        ensures
            final(self).wf(),
            scancode == 0x3A ==> final(self).caps == !old(self).caps
                && final(self).shift == old(self).shift
                && final(self).bytes@ == old(self).bytes@ && ev == KeyEvent::Nothing,
            scancode == 0x2A || scancode == 0x36 ==> final(self).shift
                && final(self).caps == old(self).caps
                && final(self).bytes@ == old(self).bytes@ && ev == KeyEvent::Nothing,
            scancode == 0xAA || scancode == 0xB6 ==> !final(self).shift
                && final(self).caps == old(self).caps
                && final(self).bytes@ == old(self).bytes@ && ev == KeyEvent::Nothing,
            scancode == 0x0E ==> final(self).shift == old(self).shift
                && final(self).caps == old(self).caps
                && (old(self).bytes@.len() > 0 ==> final(self).bytes@
                    == old(self).bytes@.drop_last() && ev == KeyEvent::Backspace)
                && (old(self).bytes@.len() == 0 ==> final(self).bytes@ == old(self).bytes@
                    && ev == KeyEvent::Nothing),
            scancode == 0x1C ==> final(self).shift == old(self).shift
                && final(self).caps == old(self).caps && final(self).bytes@.len() == 0
                && (ev matches KeyEvent::Submit(line) && line@ == old(self).bytes@),
            is_printable_code(scancode) ==> ({
                let b = spec_key_byte(scancode, old(self).shift, old(self).caps);
                &&& !final(self).shift
                &&& final(self).caps == old(self).caps
                &&& (spec_key_char(scancode, old(self).shift) != '?'
                        && old(self).bytes@.len() < INPUT_CAPACITY ==> final(self).bytes@
                        == old(self).bytes@.push(b) && ev == KeyEvent::Echo(b))
                &&& (!(spec_key_char(scancode, old(self).shift) != '?'
                        && old(self).bytes@.len() < INPUT_CAPACITY) ==> final(self).bytes@
                        == old(self).bytes@ && ev == KeyEvent::Nothing)
            }),
            scancode >= 128 && scancode != 0xAA && scancode != 0xB6 ==> final(self).bytes@
                == old(self).bytes@ && final(self).shift == old(self).shift
                && final(self).caps == old(self).caps && ev == KeyEvent::Nothing,
    {
        if scancode == 0x3A {
            self.caps = !self.caps;
            KeyEvent::Nothing
        } else if scancode == 0x2A || scancode == 0x36 {
            self.shift = true;
            KeyEvent::Nothing
        } else if scancode == 0xAA || scancode == 0xB6 {
            self.shift = false;
            KeyEvent::Nothing
        } else if scancode == 0x0E {
            if self.bytes.len() > 0 {
                self.bytes.pop();
                KeyEvent::Backspace
            } else {
                KeyEvent::Nothing
            }
        } else if scancode == 0x1C {
            let mut line: Vec<u8> = Vec::new();
            core::mem::swap(&mut line, &mut self.bytes);
            KeyEvent::Submit(line)
        } else if scancode < 128 {
            let c = key_char(scancode, self.shift);
            let b = apply_caps(c, self.caps);
            self.shift = false;
            if c != '?' && self.bytes.len() < INPUT_CAPACITY {
                self.bytes.push(b);
                KeyEvent::Echo(b)
            } else {
                KeyEvent::Nothing
            }
        } else {
            KeyEvent::Nothing
        }
    }
}

/// A scancode handled by the printable map rather than a control key.
pub open spec fn is_printable_code(scancode: u8) -> bool {
    &&& scancode < 128
    &&& scancode != 0x3A
    &&& scancode != 0x2A
    &&& scancode != 0x36
    &&& scancode != 0x0E
    &&& scancode != 0x1C
}

/// The byte a character contributes under caps lock.
fn apply_caps(c: char, caps: bool) -> (r: u8)
    requires
        (c as u32) < 128,
    ensures
        r == spec_caps_char(c, caps) as u8,
{
    let code = c as u8;
    if caps && code >= 97 && code <= 122 {
        code - 32
    } else {
        code
    }
}

} // verus!
