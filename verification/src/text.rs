//! Lines of text for the diagnostics sink, built in a fixed buffer: no heap
//! is needed to report a fault.

use vstd::prelude::*;
use vstd::slice::slice_subrange;
use vstd::string::StringSliceAdditionalSpecFns;

verus! {

/// The most bytes a line can hold.
pub const LINE_CAPACITY: usize = 128;

/// The byte of one digit: '0'-'9', then 'a'-'f'.
pub open spec fn digit_byte(digit: int) -> u8 {
    if digit < 10 {
        (0x30 + digit) as u8
    } else {
        (0x57 + digit) as u8
    }
}

/// A number in decimal, without leading zeros.
pub open spec fn decimal_text(number: nat) -> Seq<u8>
    decreases number,
{
    if number < 10 {
        seq![digit_byte(number as int)]
    } else {
        decimal_text(number / 10).push(digit_byte((number % 10) as int))
    }
}

/// The hexadecimal digit of `value` at `position`, counted from the most
/// significant of its sixteen digits.
pub open spec fn hex_digit(value: u64, position: int) -> int {
    ((value >> ((60 - 4 * position) as u64)) & 0xF) as int
}

/// A 64-bit value as sixteen hexadecimal digits, most significant first.
pub open spec fn hex_text(value: u64) -> Seq<u8> {
    Seq::new(16, |position: int| digit_byte(hex_digit(value, position)))
}

/// What a line keeps of a text: all of it if it fits, else its first
/// `LINE_CAPACITY` bytes.
pub open spec fn clipped(text: Seq<u8>) -> Seq<u8> {
    if text.len() <= LINE_CAPACITY {
        text
    } else {
        text.take(LINE_CAPACITY as int)
    }
}

/// Clipping a text that was clipped before more was appended is clipping the
/// whole.
pub proof fn lemma_clipped_append(first: Seq<u8>, second: Seq<u8>)
    ensures
        clipped(clipped(first) + second) == clipped(first + second),
{
    assert(clipped(clipped(first) + second) =~= clipped(first + second));
}

/// A line of at most `LINE_CAPACITY` bytes.
#[derive(Clone, Copy, Debug)]
pub struct Line {
    bytes: [u8; LINE_CAPACITY],
    len: usize,
}

impl View for Line {
    type V = Seq<u8>;

    closed spec fn view(&self) -> Seq<u8> {
        self.bytes@.take(self.len as int)
    }
}

impl Line {
    /// The line is no longer than its buffer.
    #[verifier::type_invariant]
    pub closed spec fn well_formed(self) -> bool {
        self.len <= LINE_CAPACITY
    }

    /// The empty line.
    pub fn new() -> (line: Self)
        ensures
            line@ == Seq::<u8>::empty(),
            line.well_formed(),
    {
        let line = Line { bytes: [0u8;LINE_CAPACITY], len: 0 };
        assert(line@ =~= Seq::<u8>::empty());
        line
    }

    /// Number of bytes in the line.
    pub fn len(&self) -> (len: usize)
        ensures
            len == self@.len(),
            len <= LINE_CAPACITY,
    {
        proof {
            use_type_invariant(self);
        }
        self.len
    }

    /// The bytes of the line.
    pub fn as_bytes(&self) -> (bytes: &[u8])
        ensures
            bytes@ == self@,
    {
        proof {
            use_type_invariant(self);
        }
        let bytes = slice_subrange(self.bytes.as_slice(), 0, self.len);
        assert(bytes@ =~= self@);
        bytes
    }

    /// Appends one byte, unless the line is full.
    pub fn push_byte(&mut self, byte: u8)
        ensures
            final(self)@ == clipped(old(self)@.push(byte)),
            final(self).well_formed(),
    {
        proof {
            use_type_invariant(&*self);
        }
        if self.len < LINE_CAPACITY {
            self.bytes[self.len] = byte;
            self.len += 1;
        }
        assert(self@ =~= clipped(old(self)@.push(byte)));
    }

    /// Appends bytes, as far as the line has room.
    pub fn push_bytes(&mut self, bytes: &[u8])
        ensures
            final(self)@ == clipped(old(self)@ + bytes@),
            final(self).well_formed(),
    {
        proof {
            use_type_invariant(&*self);
            assert(old(self)@ + bytes@.take(0) =~= old(self)@);
        }
        let mut done: usize = 0;
        while done < bytes.len()
            invariant
                done <= bytes.len(),
                self.well_formed(),
                self@ == clipped(old(self)@ + bytes@.take(done as int)),
            decreases bytes.len() - done,
        {
            let ghost before = old(self)@ + bytes@.take(done as int);
            self.push_byte(bytes[done]);
            proof {
                lemma_clipped_append(before, seq![bytes@[done as int]]);
                assert(before.push(bytes@[done as int]) =~= before + seq![bytes@[done as int]]);
                assert(clipped(before).push(bytes@[done as int]) =~= clipped(before)
                    + seq![bytes@[done as int]]);
                assert(before + seq![bytes@[done as int]] =~= old(self)@ + bytes@.take(
                    done as int + 1,
                ));
            }
            done += 1;
        }
        assert(bytes@.take(bytes@.len() as int) =~= bytes@);
    }

    /// Appends a text, as far as the line has room.
    pub fn push_text(&mut self, text: &str)
        ensures
            final(self)@ == clipped(old(self)@ + text.spec_bytes()),
            final(self).well_formed(),
    {
        self.push_bytes(text.as_bytes());
    }

    /// Appends `number` in decimal, as far as the line has room.
    pub fn push_decimal(&mut self, number: u8)
        ensures
            final(self)@ == clipped(old(self)@ + decimal_text(number as nat)),
            final(self).well_formed(),
    {
        proof {
            use_type_invariant(&*self);
            reveal_with_fuel(decimal_text, 3);
        }
        let ghost start = self@;
        assert(start.len() <= LINE_CAPACITY);
        if number >= 100 {
            self.push_byte(digit(number / 100));
        }
        let ghost hundreds: Seq<u8> = if number >= 100 {
            seq![digit_byte(number as int / 100)]
        } else {
            Seq::empty()
        };
        assert(self@ == clipped(start + hundreds)) by {
            assert(start + hundreds =~= if number >= 100 {
                start.push(digit_byte(number as int / 100))
            } else {
                start
            });
        }
        if number >= 10 {
            self.push_byte(digit((number / 10) % 10));
        }
        let ghost tens: Seq<u8> = if number >= 10 {
            hundreds.push(digit_byte((number as int / 10) % 10))
        } else {
            hundreds
        };
        assert(self@ == clipped(start + tens)) by {
            if number >= 10 {
                lemma_clipped_append(start + hundreds, seq![digit_byte((number as int / 10) % 10)]);
                assert(clipped(start + hundreds).push(digit_byte((number as int / 10) % 10))
                    =~= clipped(start + hundreds) + seq![digit_byte((number as int / 10) % 10)]);
                assert((start + hundreds) + seq![digit_byte((number as int / 10) % 10)] =~= start
                    + tens);
            }
        }
        self.push_byte(digit(number % 10));
        proof {
            let last = digit_byte(number as int % 10);
            lemma_clipped_append(start + tens, seq![last]);
            assert(clipped(start + tens).push(last) =~= clipped(start + tens) + seq![last]);
            assert((start + tens) + seq![last] =~= start + decimal_text(number as nat));
        }
    }

    /// Appends `value` as sixteen hexadecimal digits, as far as the line has
    /// room.
    pub fn push_hex(&mut self, value: u64)
        ensures
            final(self)@ == clipped(old(self)@ + hex_text(value)),
            final(self).well_formed(),
    {
        proof {
            use_type_invariant(&*self);
            assert(old(self)@ + hex_text(value).take(0) =~= old(self)@);
        }
        let mut position: u8 = 0;
        while position < 16
            invariant
                position <= 16,
                self.well_formed(),
                self@ == clipped(old(self)@ + hex_text(value).take(position as int)),
            decreases 16 - position,
        {
            let shift: u64 = 60 - 4 * (position as u64);
            let nibble: u64 = (value >> shift) & 0xF;
            assert((value >> shift) & 0xF < 16) by (bit_vector);
            let ghost before = old(self)@ + hex_text(value).take(position as int);
            let ghost next = digit_byte(hex_digit(value, position as int));
            self.push_byte(digit(nibble as u8));
            proof {
                lemma_clipped_append(before, seq![next]);
                assert(clipped(before).push(next) =~= clipped(before) + seq![next]);
                assert(before + seq![next] =~= old(self)@ + hex_text(value).take(
                    position as int + 1,
                ));
            }
            position += 1;
        }
        assert(hex_text(value).take(16) =~= hex_text(value));
    }
}

/// The byte of one digit.
pub fn digit(value: u8) -> (byte: u8)
    requires
        value < 16,
    ensures
        byte == digit_byte(value as int),
{
    if value < 10 {
        0x30 + value
    } else {
        0x57 + value
    }
}

} // verus!
