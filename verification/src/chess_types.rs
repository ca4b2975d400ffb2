//! Core value types of the board: colors, piece kinds, squares and the
//! board aggregate itself, together with the ghost model that the
//! contracts of the move generator and applicator are stated over.

use vstd::prelude::*;

verus! {

/// Piece ownership, and also the whose-turn indicator of a board.
#[derive(Debug, Copy, Clone, PartialEq, Eq, Structural)]
pub enum Color {
    White,
    Black,
}

/// The six chess piece kinds.
#[derive(Debug, Copy, Clone, PartialEq, Eq, Structural)]
pub enum PieceType {
    Pawn,
    Knight,
    Bishop,
    Rook,
    Queen,
    King,
}

/// Phase of the game. Material values are currently identical in every
/// phase; the distinction exists as a type but does not yet differentiate
/// anything.
#[derive(Debug, Copy, Clone, PartialEq, Eq, Structural)]
pub enum GamePhase {
    Opening,
    Middlegame,
    Endgame,
}

/// A board wing, named after the royal piece that starts on it.
#[derive(Debug, Copy, Clone, PartialEq, Eq, Structural)]
pub enum Side {
    King,
    Queen,
}

/// Whether a move lands on an empty square or takes an enemy piece.
#[derive(Debug, Copy, Clone, PartialEq, Eq, Structural)]
pub enum MoveType {
    March,
    Capture,
}

/// How a piece travels: a fixed set of jumps, or a repeated ray walk.
#[derive(Debug, Copy, Clone, PartialEq, Eq, Structural)]
pub enum MoveNature {
    Scalar,
    Vector,
}

impl PieceType {
    /// Material value of the kind; the king carries a sentinel
    /// "infinite" value. The value does not vary by game phase.
    pub open spec fn spec_value(self) -> u32 {
        match self {
            PieceType::Pawn => 1,
            PieceType::Knight => 3,
            PieceType::Bishop => 3,
            PieceType::Rook => 5,
            PieceType::Queen => 9,
            PieceType::King => u32::MAX,
        }
    }

    /// Looks up the material value of the kind. The phase is accepted but
    /// makes no difference to the result.
    pub fn get_value(&self, phase: GamePhase) -> (value: u32)
        ensures
            value == self.spec_value(),
    {
        let value: u32 = match self {
            PieceType::Pawn => 1,
            PieceType::Knight => 3,
            PieceType::Bishop => 3,
            PieceType::Rook => 5,
            PieceType::Queen => 9,
            PieceType::King => u32::MAX,
        };

        match phase {
            GamePhase::Opening => value,
            GamePhase::Middlegame => value,
            GamePhase::Endgame => value,
        }
    }
}

/// A piece: a kind owned by a color. Immutable once placed.
#[derive(Debug, Copy, Clone, PartialEq, Eq, Structural)]
pub struct Piece {
    pub piece_type: PieceType,
    pub color: Color,
}

impl Piece {
    /// The one-character glyph that renders the piece.
    pub open spec fn spec_glyph(self) -> Seq<char> {
        match self.color {
            Color::White => match self.piece_type {
                PieceType::Pawn => "\u{2659}"@,
                PieceType::Knight => "\u{2658}"@,
                PieceType::Bishop => "\u{2657}"@,
                PieceType::Rook => "\u{2656}"@,
                PieceType::Queen => "\u{2655}"@,
                PieceType::King => "\u{2654}"@,
            },
            Color::Black => match self.piece_type {
                PieceType::Pawn => "\u{265F}"@,
                PieceType::Knight => "\u{265E}"@,
                PieceType::Bishop => "\u{265D}"@,
                PieceType::Rook => "\u{265C}"@,
                PieceType::Queen => "\u{265B}"@,
                PieceType::King => "\u{265A}"@,
            },
        }
    }

    /// Renders the piece as its single glyph, one of twelve distinct ones.
    pub fn to_glyph(&self) -> (text: String)
        ensures
            text@ == self.spec_glyph(),
    {
        let glyph: &str = match self.color {
            Color::White => match self.piece_type {
                PieceType::Pawn => "\u{2659}",
                PieceType::Knight => "\u{2658}",
                PieceType::Bishop => "\u{2657}",
                PieceType::Rook => "\u{2656}",
                PieceType::Queen => "\u{2655}",
                PieceType::King => "\u{2654}",
            },
            Color::Black => match self.piece_type {
                PieceType::Pawn => "\u{265F}",
                PieceType::Knight => "\u{265E}",
                PieceType::Bishop => "\u{265D}",
                PieceType::Rook => "\u{265C}",
                PieceType::Queen => "\u{265B}",
                PieceType::King => "\u{265A}",
            },
        };
        String::from_str(glyph)
    }
}

/// Squares per row and column of the board.
pub const ROW_SIZE: u8 = 8;

/// Total number of cells of the board.
pub const CELLS_COUNT: u8 = 64;

/// The error produced when a piece of text is not the algebraic notation
/// of a square.
#[derive(Debug, Copy, Clone, PartialEq, Eq, Structural)]
pub struct ParseAddressError;

/// A square of the board: a zero-based column (file) and row (rank),
/// both strictly below [`ROW_SIZE`].
#[derive(Debug, Copy, Clone, PartialEq, Eq, Structural)]
pub struct Address {
    pub col: u8,
    pub row: u8,
}

/// The column encoded by a file letter, case-insensitively: 'a' or 'A'
/// map to column 0, up to 'h' or 'H' mapping to column 7. Any other
/// character encodes no column.
pub open spec fn spec_col_of_char(c: char) -> Option<u8> {
    let v = c as int;
    if 'a' as int <= v && v <= 'h' as int {
        Some((v - 'a' as int) as u8)
    } else if 'A' as int <= v && v <= 'H' as int {
        Some((v - 'A' as int) as u8)
    } else {
        None
    }
}

/// The row encoded by a rank digit: '1' maps to row 0, up to '8' mapping
/// to row 7. Any other character encodes no row.
pub open spec fn spec_row_of_char(c: char) -> Option<u8> {
    let v = c as int;
    if '1' as int <= v && v <= '8' as int {
        Some((v - '1' as int) as u8)
    } else {
        None
    }
}

/// What parsing a square from text yields: exactly two characters, a
/// file letter (case-insensitive) then a rank digit, and anything else
/// is rejected.
pub open spec fn spec_parse_address(s: Seq<char>) -> Result<Address, ParseAddressError> {
    if s.len() != 2 {
        Err(ParseAddressError)
    } else {
        match (spec_col_of_char(s[0]), spec_row_of_char(s[1])) {
            (Some(col), Some(row)) => Ok(Address { col, row }),
            _ => Err(ParseAddressError),
        }
    }
}

impl Address {
    /// Both coordinates lie on the board.
    pub open spec fn wf(self) -> bool {
        self.col < ROW_SIZE && self.row < ROW_SIZE
    }

    /// The file letter of a column: 'a' for column 0 through 'h' for
    /// column 7.
    pub open spec fn spec_col_name(col: u8) -> char {
        (('a' as int + col) as char)
    }

    /// The rank digit of a row: '1' for row 0 through '8' for row 7.
    pub open spec fn spec_row_name(row: u8) -> char {
        (('1' as int + row) as char)
    }

    /// The two-character algebraic notation of the square.
    pub open spec fn spec_text(self) -> Seq<char> {
        seq![Self::spec_col_name(self.col), Self::spec_row_name(self.row)]
    }

    /// The square translated by the given column and row offsets, or
    /// `None` when the result leaves the board on either axis.
    pub open spec fn spec_shifted(self, col_offset: int, row_offset: int) -> Option<Address> {
        let new_col = self.col + col_offset;
        let new_row = self.row + row_offset;
        if 0 <= new_col < ROW_SIZE as int && 0 <= new_row < ROW_SIZE as int {
            Some(Address { col: new_col as u8, row: new_row as u8 })
        } else {
            None
        }
    }

    /// Constructs a square from raw coordinates; out-of-range
    /// coordinates are a programmer error, ruled out up front.
    pub fn new(col: u8, row: u8) -> (address: Self)
        requires
            col < ROW_SIZE,
            row < ROW_SIZE,
        ensures
            address == (Address { col, row }),
    {
        Address { col, row }
    }

    /// Parses algebraic notation, rejecting any text that is not exactly
    /// a file letter followed by a rank digit.
    pub fn from_str(s: &str) -> (result: Result<Self, ParseAddressError>)
        ensures
            result == spec_parse_address(s@),
    {
        if s.unicode_len() != 2 {
            return Err(ParseAddressError);
        }

        let col_char = s.get_char(0);
        let row_char = s.get_char(1);

        let col_code = col_char as u32;
        let row_code = row_char as u32;

        let col: u8 = if 'a' as u32 <= col_code && col_code <= 'h' as u32 {
            (col_code - 'a' as u32) as u8
        } else if 'A' as u32 <= col_code && col_code <= 'H' as u32 {
            (col_code - 'A' as u32) as u8
        } else {
            return Err(ParseAddressError);
        };

        let row: u8 = if '1' as u32 <= row_code && row_code <= '8' as u32 {
            (row_code - '1' as u32) as u8
        } else {
            return Err(ParseAddressError);
        };

        Ok(Address { col, row })
    }

    /// Parses algebraic notation that is known to be valid; the caller
    /// owes a text that [`Self::from_str`] accepts.
    pub fn parse(s: &str) -> (address: Self)
        requires
            spec_parse_address(s@) is Ok,
        ensures
            Ok::<Address, ParseAddressError>(address) == spec_parse_address(s@),
    {
        Address::from_str(s).unwrap()
    }

    /// The rank digit that names the given row.
    pub fn get_row_name(row: u8) -> (name: char)
        requires
            row < ROW_SIZE,
        ensures
            name == Self::spec_row_name(row),
    {
        ('1' as u8 + row) as char
    }

    /// The file letter that names the given column.
    pub fn get_col_name(col: u8) -> (name: char)
        requires
            col < ROW_SIZE,
        ensures
            name == Self::spec_col_name(col),
    {
        ('a' as u8 + col) as char
    }

    /// The checkerboard tint of the square: equal coordinate parity is
    /// the dark (black) tint. A display property, not a rule input.
    pub open spec fn spec_square_color(self) -> Color {
        if self.col % 2 == self.row % 2 {
            Color::Black
        } else {
            Color::White
        }
    }

    /// Computes the checkerboard tint of the square.
    pub fn get_color(&self) -> (color: Color)
        ensures
            color == self.spec_square_color(),
    {
        let flip = self.row % 2;
        let is_black = (self.col % 2) == flip;

        if is_black {
            Color::Black
        } else {
            Color::White
        }
    }

    /// Translates the square by the given offsets, clipping to the
    /// board: a result off either edge is `None`. Every movement rule
    /// funnels through this single clipping primitive.
    pub fn get_shifted(&self, offset: (i8, i8)) -> (shifted: Option<Address>)
        requires
            self.wf(),
        ensures
            shifted == self.spec_shifted(offset.0 as int, offset.1 as int),
    {
        let col_offset = offset.0;
        let row_offset = offset.1;

        let new_col = (self.col as i16) + (col_offset as i16);
        let new_row = (self.row as i16) + (row_offset as i16);

        if new_row >= 0 && new_row < (ROW_SIZE as i16) && new_col >= 0 && new_col < (ROW_SIZE as i16) {
            Some(Address::new(new_col as u8, new_row as u8))
        } else {
            None
        }
    }

    /// Renders the square as its two-character algebraic notation.
    pub fn to_text(&self) -> (text: String)
        requires
            self.wf(),
        ensures
            text@ == self.spec_text(),
    {
        let mut text = String::new();
        push_char(&mut text, Self::get_col_name(self.col));
        push_char(&mut text, Self::get_row_name(self.row));
        text
    }
}

/// Relies on `String::push`: appends the character to the end of the
/// string.
#[verifier::external_body]
fn push_char(s: &mut String, c: char)
    ensures
        final(s)@ == old(s)@.push(c),
{
    s.push(c)
}

/// The color that moves after the given one.
pub open spec fn spec_other_color(color: Color) -> Color {
    match color {
        Color::White => Color::Black,
        Color::Black => Color::White,
    }
}

/// Linear index of a square in the occupancy grid: `row * 8 + col`,
/// counting from a1 at index 0 to h8 at index 63.
pub open spec fn spec_cell_index(address: Address) -> int {
    address.row * 8 + address.col
}

/// The mathematical state of a board: the 64-cell occupancy grid, the
/// side to move, the display orientation hint, and the two capture
/// lists in capture order.
#[verifier::ext_equal]
pub ghost struct BoardModel {
    pub pieces: Seq<Option<Piece>>,
    pub whose_turn: Color,
    pub flip_board: bool,
    pub white_graveyard: Seq<Piece>,
    pub black_graveyard: Seq<Piece>,
}

impl BoardModel {
    /// The grid has exactly one cell per square.
    pub open spec fn wf(self) -> bool {
        self.pieces.len() == CELLS_COUNT as int
    }

    /// The occupant of a square, if any.
    pub open spec fn cell(self, address: Address) -> Option<Piece> {
        self.pieces[spec_cell_index(address)]
    }

    /// The board after removing whatever occupies the square: the
    /// removed piece is appended to the graveyard of its own color (the
    /// captured piece's color, not the capturer's); an empty square
    /// changes nothing.
    pub open spec fn capture(self, address: Address) -> BoardModel {
        match self.cell(address) {
            Some(piece) => BoardModel {
                pieces: self.pieces.update(spec_cell_index(address), None),
                white_graveyard: if piece.color == Color::White {
                    self.white_graveyard.push(piece)
                } else {
                    self.white_graveyard
                },
                black_graveyard: if piece.color == Color::Black {
                    self.black_graveyard.push(piece)
                } else {
                    self.black_graveyard
                },
                ..self
            },
            None => self,
        }
    }

    /// The board after moving the content of `from` onto `to`: first
    /// whatever occupies `to` is captured, then the source cell is
    /// copied to the destination and emptied. Piece colors are not
    /// consulted here; only the move generator prevents self-capture.
    pub open spec fn relocate(self, from: Address, to: Address) -> BoardModel {
        let killed = self.capture(to);
        BoardModel {
            pieces: killed.pieces.update(
                spec_cell_index(to),
                killed.pieces[spec_cell_index(from)],
            ).update(spec_cell_index(from), None),
            ..killed
        }
    }

    /// The board with the turn handed to the other side.
    pub open spec fn toggle_turn(self) -> BoardModel {
        BoardModel { whose_turn: spec_other_color(self.whose_turn), ..self }
    }
}

/// The piece kind that starts on the given column of a back rank.
pub open spec fn spec_back_rank_kind(col: int) -> PieceType {
    if col == 0 || col == 7 {
        PieceType::Rook
    } else if col == 1 || col == 6 {
        PieceType::Knight
    } else if col == 2 || col == 5 {
        PieceType::Bishop
    } else if col == 3 {
        PieceType::Queen
    } else {
        PieceType::King
    }
}

/// The occupant of a grid cell in the standard starting layout: White's
/// back rank and pawns on rows 0 and 1, Black's mirrored on rows 7 and
/// 6, everything between empty.
pub open spec fn spec_starting_cell(index: int) -> Option<Piece> {
    let row = index / 8;
    let col = index % 8;
    if row == 0 {
        Some(Piece { piece_type: spec_back_rank_kind(col), color: Color::White })
    } else if row == 1 {
        Some(Piece { piece_type: PieceType::Pawn, color: Color::White })
    } else if row == 6 {
        Some(Piece { piece_type: PieceType::Pawn, color: Color::Black })
    } else if row == 7 {
        Some(Piece { piece_type: spec_back_rank_kind(col), color: Color::Black })
    } else {
        None
    }
}

/// A fresh game: the standard starting layout with White to move and
/// nothing captured.
pub open spec fn spec_starting_board() -> BoardModel {
    BoardModel {
        pieces: Seq::new(CELLS_COUNT as nat, |index: int| spec_starting_cell(index)),
        whose_turn: Color::White,
        flip_board: false,
        white_graveyard: Seq::empty(),
        black_graveyard: Seq::empty(),
    }
}

/// An all-empty board with White to move and nothing captured.
pub open spec fn spec_empty_board() -> BoardModel {
    BoardModel {
        pieces: Seq::new(CELLS_COUNT as nat, |index: int| None::<Piece>),
        whose_turn: Color::White,
        flip_board: false,
        white_graveyard: Seq::empty(),
        black_graveyard: Seq::empty(),
    }
}

/// The aggregate root: an 8x8 occupancy grid (row-major from a1), the
/// side to move, a presentation-only orientation hint, and the ordered
/// lists of captured pieces per color. Mutated in place by every
/// operation; no function returns a new board.
pub struct Board {
    pub pieces: Vec<Option<Piece>>,
    pub whose_turn: Color,
    pub flip_board: bool,
    pub white_graveyard: Vec<Piece>,
    pub black_graveyard: Vec<Piece>,
}

impl View for Board {
    type V = BoardModel;

    open spec fn view(&self) -> BoardModel {
        BoardModel {
            pieces: self.pieces@,
            whose_turn: self.whose_turn,
            flip_board: self.flip_board,
            white_graveyard: self.white_graveyard@,
            black_graveyard: self.black_graveyard@,
        }
    }
}

impl Board {
    /// The grid holds exactly one cell per square.
    pub open spec fn wf(self) -> bool {
        self@.wf()
    }

    /// Creates a board in the standard chess starting arrangement.
    pub fn new() -> (board: Self)
        ensures
            board@ == spec_starting_board(),
            board.wf(),
    {
        let mut pieces: Vec<Option<Piece>> = Vec::new();
        let mut index: usize = 0;
        while index < CELLS_COUNT as usize
            invariant
                index <= CELLS_COUNT as usize,
                pieces@.len() == index as int,
                forall|j: int| 0 <= j < index as int ==> pieces@[j] == spec_starting_cell(j),
            decreases CELLS_COUNT as usize - index,
        {
            pieces.push(starting_cell(index));
            index += 1;
        }

        let board = Board {
            pieces,
            whose_turn: Color::White,
            flip_board: false,
            white_graveyard: Vec::new(),
            black_graveyard: Vec::new(),
        };
        proof {
            assert(board@ =~~= spec_starting_board());
        }
        board
    }

    /// Creates a board with every cell empty.
    pub fn new_empty() -> (board: Self)
        ensures
            board@ == spec_empty_board(),
            board.wf(),
    {
        let mut pieces: Vec<Option<Piece>> = Vec::new();
        let mut index: usize = 0;
        while index < CELLS_COUNT as usize
            invariant
                index <= CELLS_COUNT as usize,
                pieces@.len() == index as int,
                forall|j: int| 0 <= j < index as int ==> pieces@[j] == None::<Piece>,
            decreases CELLS_COUNT as usize - index,
        {
            pieces.push(None);
            index += 1;
        }

        let board = Board {
            pieces,
            whose_turn: Color::White,
            flip_board: false,
            white_graveyard: Vec::new(),
            black_graveyard: Vec::new(),
        };
        proof {
            assert(board@ =~~= spec_empty_board());
        }
        board
    }

    /// The linear grid index of a square.
    pub fn get_index(address: Address) -> (index: u8)
        requires
            address.wf(),
        ensures
            index == spec_cell_index(address),
    {
        address.row * ROW_SIZE + address.col
    }

    /// Direct lookup of the cell at a square.
    pub fn get_cell(&self, address: Address) -> (cell: &Option<Piece>)
        requires
            self.wf(),
            address.wf(),
        ensures
            *cell == self@.cell(address),
    {
        &self.pieces[Board::get_index(address) as usize]
    }

    /// Direct mutable access to the cell at a square.
    pub fn get_cell_mut(&mut self, address: Address) -> (cell: &mut Option<Piece>)
        requires
            old(self).wf(),
            address.wf(),
        ensures
            *cell == old(self)@.cell(address),
            final(self)@.pieces == old(self)@.pieces.update(
                spec_cell_index(address),
                *final(cell),
            ),
            final(self)@.whose_turn == old(self)@.whose_turn,
            final(self)@.flip_board == old(self)@.flip_board,
            final(self)@.white_graveyard == old(self)@.white_graveyard,
            final(self)@.black_graveyard == old(self)@.black_graveyard,
    {
        let index = Board::get_index(address) as usize;
        &mut self.pieces[index]
    }

    /// Toggles the display orientation hint.
    pub fn flip_board(&mut self)
        ensures
            final(self)@ == (BoardModel { flip_board: !old(self)@.flip_board, ..old(self)@ }),
    {
        self.flip_board = !self.flip_board;
    }

    /// Sets the display orientation hint to suit the given color.
    pub fn flip_board_for(&mut self, color: Color)
        ensures
            final(self)@ == (BoardModel {
                flip_board: color == Color::Black,
                ..old(self)@
            }),
    {
        self.flip_board = color == Color::Black;
    }

    /// Hands the turn to the other side; nothing else changes.
    pub fn flip_player(&mut self)
        ensures
            final(self)@ == old(self)@.toggle_turn(),
    {
        self.whose_turn = if self.whose_turn == Color::White {
            Color::Black
        } else {
            Color::White
        };
    }

    /// Removes the piece at the square, if any, filing it in the
    /// graveyard of its own color; a no-op on an empty square.
    pub fn kill_piece(&mut self, address: Address)
        requires
            old(self).wf(),
            address.wf(),
        ensures
            final(self)@ == old(self)@.capture(address),
    {
        let index = Board::get_index(address) as usize;
        if let Some(piece) = self.pieces[index] {
            if piece.color == Color::White {
                self.white_graveyard.push(piece)
            } else {
                self.black_graveyard.push(piece)
            }

            self.pieces[index] = None;
        }
        proof {
            assert(self@ =~~= old(self)@.capture(address));
        }
    }

    /// Captures whatever occupies `to`, then moves the content of
    /// `from` there, leaving `from` empty. Colors are not checked here:
    /// callers must have verified that `from` is occupied and the move
    /// permitted.
    pub fn move_piece(&mut self, from: Address, to: Address)
        requires
            old(self).wf(),
            from.wf(),
            to.wf(),
        ensures
            final(self)@ == old(self)@.relocate(from, to),
    {
        self.kill_piece(to);

        let index_from = Board::get_index(from) as usize;
        let index_to = Board::get_index(to) as usize;

        self.pieces[index_to] = self.pieces[index_from];
        self.pieces[index_from] = None;
        proof {
            assert(self@ =~~= old(self)@.relocate(from, to));
        }
    }
}

impl Default for Board {
    /// An all-empty board with White to move.
    fn default() -> (board: Board)
        ensures
            board@ == spec_empty_board(),
    {
        Board::new_empty()
    }
}

/// The occupant of a grid cell in the standard starting layout.
fn starting_cell(index: usize) -> (cell: Option<Piece>)
    requires
        index < CELLS_COUNT as usize,
    ensures
        cell == spec_starting_cell(index as int),
{
    let row = index / 8;
    let col = index % 8;
    if row == 0 || row == 7 {
        let color = if row == 0 { Color::White } else { Color::Black };
        let piece_type = if col == 0 || col == 7 {
            PieceType::Rook
        } else if col == 1 || col == 6 {
            PieceType::Knight
        } else if col == 2 || col == 5 {
            PieceType::Bishop
        } else if col == 3 {
            PieceType::Queen
        } else {
            PieceType::King
        };
        Some(Piece { piece_type, color })
    } else if row == 1 {
        Some(Piece { piece_type: PieceType::Pawn, color: Color::White })
    } else if row == 6 {
        Some(Piece { piece_type: PieceType::Pawn, color: Color::Black })
    } else {
        None
    }
}

/// Law: any square that parsing accepts lies on the board.
pub proof fn lemma_parse_yields_valid_square(s: Seq<char>)
    ensures
        spec_parse_address(s) is Ok ==> spec_parse_address(s)->Ok_0.wf(),
{
}

/// Law: rendering a valid square as text and parsing the text back
/// yields the same square.
pub proof fn lemma_parse_text_round_trip(address: Address)
    requires
        address.wf(),
    ensures
        spec_parse_address(address.spec_text()) == Ok::<Address, ParseAddressError>(address),
{
}

/// Law: a shift that stays on the board is undone exactly by the
/// opposite shift.
pub proof fn lemma_shift_round_trip(address: Address, col_offset: int, row_offset: int)
    requires
        address.wf(),
        address.spec_shifted(col_offset, row_offset) is Some,
    ensures
        address.spec_shifted(col_offset, row_offset)->Some_0.spec_shifted(
            -col_offset,
            -row_offset,
        ) == Some(address),
{
}

} // verus!
