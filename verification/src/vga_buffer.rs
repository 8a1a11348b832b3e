//! The text screen: 25 rows of 80 coloured characters, a cursor, and a
//! writer that scrolls the screen up when the last row is full.

use vstd::prelude::*;
use vstd::string::StringSliceAdditionalSpecFns;

verus! {

/// Number of rows on the screen.
pub const SCREEN_HEIGHT: usize = 25;

/// Number of columns on the screen.
pub const SCREEN_WIDTH: usize = 80;

/// Byte of a line feed.
pub const LINE_FEED: u8 = 0x0A;

/// Character shown in place of a byte that cannot be printed.
pub const UNPRINTABLE: u8 = 0xFE;

/// Character of a cell that holds nothing.
pub const BLANK: u8 = 0x20;

/// Colour of a character.
#[derive(Debug, Clone, Copy, PartialEq, Eq, Structural)]
pub enum FontColor {
    Black,
    Blue,
    Green,
    Cyan,
    Red,
    Magenta,
    Brown,
    LightGray,
    DarkGray,
    LightBlue,
    LightGreen,
    LightCyan,
    LightRed,
    Pink,
    Yellow,
    White,
}

/// Colour behind a character.
#[derive(Debug, Clone, Copy, PartialEq, Eq, Structural)]
pub enum BackgroundColor {
    Black,
    Blue,
    Green,
    Cyan,
    Red,
    Magenta,
    Brown,
    LightGray,
}

impl FontColor {
    /// The colour's number in the hardware palette.
    pub open spec fn spec_code(self) -> u8 {
        match self {
            FontColor::Black => 0x0,
            FontColor::Blue => 0x1,
            FontColor::Green => 0x2,
            FontColor::Cyan => 0x3,
            FontColor::Red => 0x4,
            FontColor::Magenta => 0x5,
            FontColor::Brown => 0x6,
            FontColor::LightGray => 0x7,
            FontColor::DarkGray => 0x8,
            FontColor::LightBlue => 0x9,
            FontColor::LightGreen => 0xa,
            FontColor::LightCyan => 0xb,
            FontColor::LightRed => 0xc,
            FontColor::Pink => 0xd,
            FontColor::Yellow => 0xe,
            FontColor::White => 0xf,
        }
    }

    /// The colour's number in the hardware palette.
    pub fn code(self) -> (code: u8)
        ensures
            code == self.spec_code(),
            code <= 0xf,
    {
        match self {
            FontColor::Black => 0x0,
            FontColor::Blue => 0x1,
            FontColor::Green => 0x2,
            FontColor::Cyan => 0x3,
            FontColor::Red => 0x4,
            FontColor::Magenta => 0x5,
            FontColor::Brown => 0x6,
            FontColor::LightGray => 0x7,
            FontColor::DarkGray => 0x8,
            FontColor::LightBlue => 0x9,
            FontColor::LightGreen => 0xa,
            FontColor::LightCyan => 0xb,
            FontColor::LightRed => 0xc,
            FontColor::Pink => 0xd,
            FontColor::Yellow => 0xe,
            FontColor::White => 0xf,
        }
    }
}

impl BackgroundColor {
    /// The colour's number in the hardware palette.
    pub open spec fn spec_code(self) -> u8 {
        match self {
            BackgroundColor::Black => 0x0,
            BackgroundColor::Blue => 0x1,
            BackgroundColor::Green => 0x2,
            BackgroundColor::Cyan => 0x3,
            BackgroundColor::Red => 0x4,
            BackgroundColor::Magenta => 0x5,
            BackgroundColor::Brown => 0x6,
            BackgroundColor::LightGray => 0x7,
        }
    }

    /// The colour's number in the hardware palette.
    pub fn code(self) -> (code: u8)
        ensures
            code == self.spec_code(),
            code <= 0x7,
    {
        match self {
            BackgroundColor::Black => 0x0,
            BackgroundColor::Blue => 0x1,
            BackgroundColor::Green => 0x2,
            BackgroundColor::Cyan => 0x3,
            BackgroundColor::Red => 0x4,
            BackgroundColor::Magenta => 0x5,
            BackgroundColor::Brown => 0x6,
            BackgroundColor::LightGray => 0x7,
        }
    }
}

/// The attribute byte of a cell: the character's colour in bits 0-3, the
/// colour behind it in bits 4-6.
#[derive(Debug, Copy, Clone, Eq, PartialEq, Structural)]
pub struct ColorCode {
    code: u8,
}

impl ColorCode {
    /// The attribute byte.
    pub closed spec fn spec_code(self) -> u8 {
        self.code
    }

    /// The attribute byte of two colours.
    pub open spec fn pack(ft_color: FontColor, bg_color: BackgroundColor) -> u8 {
        ft_color.spec_code() | (bg_color.spec_code() << 4)
    }

    /// The colour code of a character colour on a background colour.
    pub fn new(ft_color: FontColor, bg_color: BackgroundColor) -> (color: Self)
        ensures
            color.spec_code() == Self::pack(ft_color, bg_color),
    {
        Self { code: ft_color.code() | (bg_color.code() << 4) }
    }

    /// The attribute byte.
    pub fn code(&self) -> (code: u8)
        ensures
            code == self.spec_code(),
    {
        self.code
    }
}

/// Both colours can be read back from the attribute byte.
pub proof fn lemma_pack_keeps_both_colors(ft_color: FontColor, bg_color: BackgroundColor)
    ensures
        ColorCode::pack(ft_color, bg_color) & 0x0F == ft_color.spec_code(),
        ColorCode::pack(ft_color, bg_color) >> 4 == bg_color.spec_code(),
{
    let ft: u8 = ft_color.spec_code();
    let bg: u8 = bg_color.spec_code();
    assert(ft <= 0xf && bg <= 0x7 ==> (ft | (bg << 4)) & 0x0F == ft && (ft | (bg << 4)) >> 4 == bg)
        by (bit_vector);
}

/// One cell of the screen.
#[derive(Debug, Copy, Clone, Eq, PartialEq, Structural)]
pub struct VGAChar {
    /// The character's code.
    pub character: u8,
    /// Its colours.
    pub color_code: ColorCode,
}

/// The byte printed for a byte of text: itself where it is a line feed or
/// a printable character, the place-holder otherwise.
pub open spec fn printable(byte: u8) -> u8 {
    if byte == LINE_FEED || 0x20 <= byte <= 0x7e {
        byte
    } else {
        UNPRINTABLE
    }
}

/// The screen and the cursor as values.
pub struct ScreenView {
    /// The cells, row by row.
    pub cells: Seq<Seq<VGAChar>>,
    /// Colours of the characters to come.
    pub color: ColorCode,
    /// Row of the cursor.
    pub row: int,
    /// Column of the cursor.
    pub column: int,
}

impl ScreenView {
    /// The screen has 25 rows of 80 cells and the cursor is on it.
    pub open spec fn well_formed(self) -> bool {
        &&& self.cells.len() == SCREEN_HEIGHT
        &&& forall|row: int| 0 <= row < SCREEN_HEIGHT ==> (#[trigger] self.cells[row]).len()
            == SCREEN_WIDTH
        &&& 0 <= self.row < SCREEN_HEIGHT
        &&& 0 <= self.column < SCREEN_WIDTH
    }

    /// A cell that holds nothing, in the current colours.
    pub open spec fn blank(self) -> VGAChar {
        VGAChar { character: BLANK, color_code: self.color }
    }

    /// Every row moves up by one; the first row is lost and the last row is
    /// blank. The cursor stays.
    pub open spec fn shifted_up(self) -> ScreenView {
        ScreenView {
            cells: Seq::new(
                SCREEN_HEIGHT as nat,
                |row: int|
                    if row < SCREEN_HEIGHT - 1 {
                        self.cells[row + 1]
                    } else {
                        Seq::new(SCREEN_WIDTH as nat, |column: int| self.blank())
                    },
            ),
            ..self
        }
    }

    /// The cursor goes to the start of the next row; on the last row the
    /// screen scrolls up instead.
    pub open spec fn after_new_line(self) -> ScreenView {
        if self.row + 1 >= SCREEN_HEIGHT {
            (ScreenView { column: 0, ..self }).shifted_up()
        } else {
            ScreenView { row: self.row + 1, column: 0, ..self }
        }
    }

    /// The cell under the cursor holds `character` in the current colours.
    pub open spec fn with_char(self, character: u8) -> ScreenView {
        ScreenView {
            cells: self.cells.update(
                self.row,
                self.cells[self.row].update(
                    self.column,
                    VGAChar { character, color_code: self.color },
                ),
            ),
            ..self
        }
    }

    /// A line feed starts a new line. Any other character is written under
    /// the cursor, which then moves right, or to a new line past the last
    /// column.
    pub open spec fn after_char(self, character: u8) -> ScreenView {
        if character == LINE_FEED {
            self.after_new_line()
        } else if self.column >= SCREEN_WIDTH - 1 {
            self.with_char(character).after_new_line()
        } else {
            ScreenView { column: self.column + 1, ..self.with_char(character) }
        }
    }

    /// The bytes are printed one after the other, each as `printable` gives
    /// it.
    pub open spec fn after_bytes(self, bytes: Seq<u8>) -> ScreenView
        decreases bytes.len(),
    {
        if bytes.len() == 0 {
            self
        } else {
            self.after_bytes(bytes.drop_last()).after_char(printable(bytes.last()))
        }
    }

    /// The cells above and left of the cursor hold character 0 in the
    /// current colours, and the cursor is at the top left.
    pub open spec fn cleaned(self) -> ScreenView {
        ScreenView {
            cells: Seq::new(
                SCREEN_HEIGHT as nat,
                |row: int|
                    Seq::new(
                        SCREEN_WIDTH as nat,
                        |column: int|
                            if row < self.row && column < self.column {
                                VGAChar { character: 0, color_code: self.color }
                            } else {
                                self.cells[row][column]
                            },
                    ),
            ),
            color: self.color,
            row: 0,
            column: 0,
        }
    }
}

/// Printing keeps the screen well formed: 25 rows of 80 cells, with the
/// cursor on one of them.
pub proof fn lemma_printing_keeps_screen_well_formed(screen: ScreenView, bytes: Seq<u8>)
    requires
        screen.well_formed(),
    ensures
        screen.after_bytes(bytes).well_formed(),
    decreases bytes.len(),
{
    if bytes.len() > 0 {
        lemma_printing_keeps_screen_well_formed(screen, bytes.drop_last());
    }
}

/// Printing a text in two parts gives the same screen as printing it whole.
pub proof fn lemma_printing_in_two_parts(screen: ScreenView, first: Seq<u8>, second: Seq<u8>)
    ensures
        screen.after_bytes(first + second) == screen.after_bytes(first).after_bytes(second),
    decreases second.len(),
{
    if second.len() == 0 {
        assert(first + second =~= first);
    } else {
        lemma_printing_in_two_parts(screen, first, second.drop_last());
        assert((first + second).drop_last() =~= first + second.drop_last());
        assert((first + second).last() == second.last());
    }
}

/// The writer of the text screen.
pub struct Writer {
    color: ColorCode,
    buffer: [[VGAChar; SCREEN_WIDTH]; SCREEN_HEIGHT],
    colpos: usize,
    rowpos: usize,
}

impl View for Writer {
    type V = ScreenView;

    closed spec fn view(&self) -> ScreenView {
        ScreenView {
            cells: Seq::new(SCREEN_HEIGHT as nat, |row: int| self.buffer@[row]@),
            color: self.color,
            row: self.rowpos as int,
            column: self.colpos as int,
        }
    }
}

impl Writer {
    /// The cursor is on the screen.
    #[verifier::type_invariant]
    pub closed spec fn well_formed(self) -> bool {
        self.rowpos < SCREEN_HEIGHT && self.colpos < SCREEN_WIDTH
    }

    /// A writer that holds its invariant has a well-formed screen.
    pub proof fn lemma_view_well_formed(self)
        requires
            self.well_formed(),
        ensures
            self@.well_formed(),
    {
    }

    /// A blank screen in light gray on black, with the cursor at the top
    /// left.
    pub fn new() -> (writer: Self)
        ensures
            writer.well_formed(),
            writer@.well_formed(),
            writer@.row == 0,
            writer@.column == 0,
            writer@.color.spec_code() == ColorCode::pack(
                FontColor::LightGray,
                BackgroundColor::Black,
            ),
            forall|row: int, column: int|
                0 <= row < SCREEN_HEIGHT && 0 <= column < SCREEN_WIDTH
                    ==> writer@.cells[row][column] == writer@.blank(),
    {
        let color = ColorCode::new(FontColor::LightGray, BackgroundColor::Black);
        let blank = VGAChar { character: BLANK, color_code: color };
        Self { color, buffer: [[blank;SCREEN_WIDTH];SCREEN_HEIGHT], colpos: 0, rowpos: 0 }
    }

    /// Sets the colours of the characters to come. The screen and the cursor
    /// stay as they are.
        pub fn set_color(&mut self, ft_color: FontColor, bg_color: BackgroundColor)
        ensures
            final(self)@.color.spec_code() == ColorCode::pack(ft_color, bg_color),
            final(self)@ == (ScreenView { color: final(self)@.color, ..old(self)@ }),
            final(self).well_formed(),
    {
        proof {
            use_type_invariant(&*self);
        }
        self.color = ColorCode::new(ft_color, bg_color);
        assert(self@.cells =~= old(self)@.cells);
    }

    /// Row of the cursor.
    pub fn row_position(&self) -> (row: usize)
        ensures
            row == self@.row,
            row < SCREEN_HEIGHT,
    {
        proof {
            use_type_invariant(self);
        }
        self.rowpos
    }

    /// Column of the cursor.
    pub fn column_position(&self) -> (column: usize)
        ensures
            column == self@.column,
            column < SCREEN_WIDTH,
    {
        proof {
            use_type_invariant(self);
        }
        self.colpos
    }

    /// Colours of the characters to come.
    pub fn color(&self) -> (color: ColorCode)
        ensures
            color == self@.color,
    {
        self.color
    }

    /// The cell at `row` and `column`.
    pub fn char_at(&self, row: usize, column: usize) -> (cell: VGAChar)
        requires
            row < SCREEN_HEIGHT,
            column < SCREEN_WIDTH,
        ensures
            cell == self@.cells[row as int][column as int],
    {
        self.buffer[row][column]
    }

    /// Starts a new line: the cursor goes to the start of the next row, and
    /// on the last row the screen scrolls up instead.
    pub fn new_line(&mut self)
        ensures
            final(self)@ == old(self)@.after_new_line(),
            final(self).well_formed(),
    {
        proof {
            use_type_invariant(&*self);
        }
        self.colpos = 0;
        if self.rowpos + 1 >= SCREEN_HEIGHT {
            self.shift_up();
        } else {
            self.rowpos += 1;
            assert(self@.cells =~= old(self)@.cells);
        }
    }

    /// Shift the screen upward: every row moves up by one and the last row
    /// becomes blank.
    pub fn shift_up(&mut self)
        ensures
            final(self)@ == old(self)@.shifted_up(),
            final(self).well_formed(),
    {
        proof {
            use_type_invariant(&*self);
        }
        let mut row: usize = 1;
        while row < SCREEN_HEIGHT
            invariant
                1 <= row <= SCREEN_HEIGHT,
                self.well_formed(),
                self@.color == old(self)@.color,
                self@.row == old(self)@.row,
                self@.column == old(self)@.column,
                forall|moved: int|
                    0 <= moved < row - 1 ==> #[trigger] self.buffer@[moved] == old(
                        self,
                    ).buffer@[moved + 1],
                forall|kept: int|
                    row - 1 <= kept < SCREEN_HEIGHT ==> #[trigger] self.buffer@[kept] == old(
                        self,
                    ).buffer@[kept],
            decreases SCREEN_HEIGHT - row,
        {
            self.buffer[row - 1] = self.buffer[row];
            row += 1;
        }
        let blank = VGAChar { character: BLANK, color_code: self.color };
        self.buffer[SCREEN_HEIGHT - 1] = [blank;SCREEN_WIDTH];
        assert(self@.cells =~~= old(self)@.shifted_up().cells);
    }

    /// Print a character at the cursor. A line feed starts a new line; any
    /// other character is written under the cursor, which moves on.
    pub fn print_char(&mut self, c: u8)
        ensures
            final(self)@ == old(self)@.after_char(c),
            final(self).well_formed(),
    {
        proof {
            use_type_invariant(&*self);
        }
        if c == LINE_FEED {
            self.new_line();
        } else {
            self.buffer[self.rowpos][self.colpos] = VGAChar { character: c, color_code: self.color };
            assert(self@.cells =~~= old(self)@.with_char(c).cells);
            if self.colpos >= SCREEN_WIDTH - 1 {
                self.new_line();
            } else {
                self.colpos += 1;
                assert(self@.cells =~~= old(self)@.with_char(c).cells);
            }
        }
    }

    /// Prints bytes of text one after the other. A byte that is neither a
    /// line feed nor a printable character is shown as the place-holder.
    pub fn print_bytes(&mut self, bytes: &[u8])
        ensures
            final(self)@ == old(self)@.after_bytes(bytes@),
            final(self).well_formed(),
    {
        proof {
            use_type_invariant(&*self);
        }
        let mut done: usize = 0;
        while done < bytes.len()
            invariant
                done <= bytes.len(),
                self.well_formed(),
                self@ == old(self)@.after_bytes(bytes@.take(done as int)),
            decreases bytes.len() - done,
        {
            let byte: u8 = bytes[done];
            proof {
                let next = bytes@.take(done as int + 1);
                assert(next.drop_last() =~= bytes@.take(done as int));
                assert(next.last() == byte);
            }
            if byte == LINE_FEED || (0x20 <= byte && byte <= 0x7e) {
                self.print_char(byte);
            } else {
                self.print_char(UNPRINTABLE);
            }
            done += 1;
        }
        assert(bytes@.take(bytes@.len() as int) =~= bytes@);
    }

    /// Print a string at the cursor, byte by byte.
    pub fn print(&mut self, s: &str)
        ensures
            final(self)@ == old(self)@.after_bytes(s.spec_bytes()),
            final(self).well_formed(),
    {
        self.print_bytes(s.as_bytes());
    }

    /// Overwrites the cells above and left of the cursor with character 0
    /// and moves the cursor to the top left.
    pub fn clean_buffer(&mut self)
        ensures
            final(self)@ == old(self)@.cleaned(),
            final(self).well_formed(),
    {
        proof {
            use_type_invariant(&*self);
        }
        let zero = VGAChar { character: 0, color_code: self.color };
        let mut row: usize = 0;
        while row < self.rowpos
            invariant
                row <= self.rowpos,
                self.well_formed(),
                zero == (VGAChar { character: 0, color_code: self.color }),
                self@.color == old(self)@.color,
                self@.row == old(self)@.row,
                self@.column == old(self)@.column,
                forall|r: int, c: int|
                    0 <= r < SCREEN_HEIGHT && 0 <= c < SCREEN_WIDTH ==> #[trigger] self.buffer@[r]@[c]
                        == (if r < row && c < self.colpos {
                        zero
                    } else {
                        old(self).buffer@[r]@[c]
                    }),
            decreases self.rowpos - row,
        {
            let mut col: usize = 0;
            while col < self.colpos
                invariant
                    col <= self.colpos,
                    row < self.rowpos,
                    self.well_formed(),
                    zero == (VGAChar { character: 0, color_code: self.color }),
                    self@.color == old(self)@.color,
                    self@.row == old(self)@.row,
                    self@.column == old(self)@.column,
                    forall|r: int, c: int|
                        0 <= r < SCREEN_HEIGHT && 0 <= c < SCREEN_WIDTH
                            ==> #[trigger] self.buffer@[r]@[c] == (if (r < row && c < self.colpos)
                            || (r == row && c < col) {
                            zero
                        } else {
                            old(self).buffer@[r]@[c]
                        }),
                decreases self.colpos - col,
            {
                self.buffer[row][col] = zero;
                col += 1;
            }
            row += 1;
        }
        self.colpos = 0;
        self.rowpos = 0;
        assert(self@.cells =~~= old(self)@.cleaned().cells);
    }
}

} // verus!
