//! Pseudo-legal move generation per piece kind, and validated move
//! application against the generated target set.

use vstd::prelude::*;

use crate::chess_types::{
    Address, Board, BoardModel, Color, ParseAddressError, Piece, PieceType, spec_cell_index,
    spec_other_color, spec_parse_address,
};

verus! {

// Move offsets are (column, row) pairs: negative column is left, positive
// right; negative row is backwards, positive forwards. They are given for
// White; for Black every offset is rotated by 180 degrees.

/// The failures a move request can meet; all are ordinary recoverable
/// results, never a panic.
#[derive(Debug, PartialEq, Eq, Structural)]
pub enum MoveError {
    /// Text did not parse as a square.
    InvalidAddress(ParseAddressError),
    /// The selected square holds no piece.
    NoPiece,
    /// The piece at the source belongs to the side that does not hold
    /// the turn; carries the color that is allowed to move.
    WrongColorTurn(Color),
    /// The destination is not among the generated targets of the source.
    UnreachableMove { from: Address, to: Address },
}

/// The targets generated for a square, or the error met on the way.
pub type MovesResult = Result<Vec<Address>, MoveError>;

/// An offset as rotated for the moving color: kept as given for White,
/// negated on both axes for Black.
pub open spec fn spec_rotated(color: Color, offset: (int, int)) -> (int, int) {
    match color {
        Color::White => offset,
        Color::Black => (-offset.0, -offset.1),
    }
}

/// The rank a pawn of the color starts on (zero-based).
pub open spec fn spec_pawn_initial_row(color: Color) -> int {
    match color {
        Color::White => 1,
        Color::Black => 6,
    }
}

/// The forward direction of a pawn of the color.
pub open spec fn spec_pawn_dir(color: Color) -> int {
    match color {
        Color::White => 1,
        Color::Black => -1,
    }
}

/// A unit step along at most both axes, other than standing still: the
/// shape of every sliding direction.
pub open spec fn spec_is_direction(offset: (i8, i8)) -> bool {
    -1 <= offset.0 <= 1 && -1 <= offset.1 <= 1 && !(offset.0 == 0 && offset.1 == 0)
}

/// The eight L-shaped knight jumps, in emission order.
pub open spec fn spec_knight_offsets() -> Seq<(i8, i8)> {
    seq![
        (-1i8, 2i8),
        (1i8, 2i8),
        (2i8, 1i8),
        (2i8, -1i8),
        (1i8, -2i8),
        (-1i8, -2i8),
        (-2i8, -1i8),
        (-2i8, 1i8),
    ]
}

/// The four diagonal sliding directions, in emission order.
pub open spec fn spec_bishop_offsets() -> Seq<(i8, i8)> {
    seq![(-1i8, -1i8), (-1i8, 1i8), (1i8, -1i8), (1i8, 1i8)]
}

/// The four orthogonal sliding directions, in emission order.
pub open spec fn spec_rook_offsets() -> Seq<(i8, i8)> {
    seq![(-1i8, 0i8), (0i8, 1i8), (1i8, 0i8), (0i8, -1i8)]
}

/// The eight adjacent directions, in emission order: used by the queen
/// for sliding and by the king for single steps.
pub open spec fn spec_king_queen_offsets() -> Seq<(i8, i8)> {
    seq![
        (-1i8, 0i8),
        (0i8, 1i8),
        (1i8, 0i8),
        (0i8, -1i8),
        (-1i8, -1i8),
        (-1i8, 1i8),
        (1i8, -1i8),
        (1i8, 1i8),
    ]
}

/// What one scalar offset contributes: the shifted square, unless it is
/// off the board or occupied by a piece of the moving color.
pub open spec fn spec_scalar_step(
    pieces: Seq<Option<Piece>>,
    address: Address,
    color: Color,
    offset: (i8, i8),
) -> Seq<Address> {
    match address.spec_shifted(offset.0 as int, offset.1 as int) {
        Some(next) => match pieces[spec_cell_index(next)] {
            Some(piece) => if piece.color != color {
                seq![next]
            } else {
                Seq::empty()
            },
            None => seq![next],
        },
        None => Seq::empty(),
    }
}

/// The targets of a scalar (fixed-jump) piece: the contributions of its
/// offsets, concatenated in table order.
pub open spec fn spec_scalar_targets(
    pieces: Seq<Option<Piece>>,
    address: Address,
    color: Color,
    offsets: Seq<(i8, i8)>,
) -> Seq<Address>
    decreases offsets.len(),
{
    if offsets.len() == 0 {
        Seq::empty()
    } else {
        spec_scalar_targets(pieces, address, color, offsets.drop_last()) + spec_scalar_step(
            pieces,
            address,
            color,
            offsets.last(),
        )
    }
}

/// How far a ray can still run before leaving the board along its
/// driving axis; strictly shrinks with every on-board step.
pub open spec fn spec_ray_measure(address: Address, col_offset: int, row_offset: int) -> int {
    if col_offset > 0 {
        7 - address.col
    } else if col_offset < 0 {
        address.col as int
    } else if row_offset > 0 {
        7 - address.row
    } else {
        address.row as int
    }
}

/// The squares a sliding piece reaches along one direction: empty
/// squares up to and excluding the first obstacle, plus the obstacle's
/// square when it holds an enemy piece.
pub open spec fn spec_ray_targets(
    pieces: Seq<Option<Piece>>,
    address: Address,
    color: Color,
    col_offset: int,
    row_offset: int,
) -> Seq<Address>
    decreases spec_ray_measure(address, col_offset, row_offset),
        when -1 <= col_offset <= 1 && -1 <= row_offset <= 1 && !(col_offset == 0 && row_offset
            == 0)
{
    match address.spec_shifted(col_offset, row_offset) {
        Some(next) => match pieces[spec_cell_index(next)] {
            Some(piece) => if piece.color != color {
                seq![next]
            } else {
                Seq::empty()
            },
            None => seq![next] + spec_ray_targets(pieces, next, color, col_offset, row_offset),
        },
        None => Seq::empty(),
    }
}

/// The targets of a vector (sliding) piece: the rays of its directions,
/// concatenated in table order.
pub open spec fn spec_vector_targets(
    pieces: Seq<Option<Piece>>,
    address: Address,
    color: Color,
    offsets: Seq<(i8, i8)>,
) -> Seq<Address>
    decreases offsets.len(),
{
    if offsets.len() == 0 {
        Seq::empty()
    } else {
        spec_vector_targets(pieces, address, color, offsets.drop_last()) + spec_ray_targets(
            pieces,
            address,
            color,
            offsets.last().0 as int,
            offsets.last().1 as int,
        )
    }
}

/// What a pawn march offset contributes: the shifted square, only when
/// it is on the board and empty.
#[verifier::opaque]
pub open spec fn spec_pawn_march_step(
    pieces: Seq<Option<Piece>>,
    address: Address,
    col_offset: int,
    row_offset: int,
) -> Seq<Address> {
    match address.spec_shifted(col_offset, row_offset) {
        Some(next) => if pieces[spec_cell_index(next)] is None {
            seq![next]
        } else {
            Seq::empty()
        },
        None => Seq::empty(),
    }
}

/// What a pawn capture offset contributes: the shifted square, only
/// when it is on the board and holds an enemy piece.
#[verifier::opaque]
pub open spec fn spec_pawn_capture_step(
    pieces: Seq<Option<Piece>>,
    address: Address,
    color: Color,
    col_offset: int,
    row_offset: int,
) -> Seq<Address> {
    match address.spec_shifted(col_offset, row_offset) {
        Some(next) => match pieces[spec_cell_index(next)] {
            Some(piece) => if piece.color != color {
                seq![next]
            } else {
                Seq::empty()
            },
            None => Seq::empty(),
        },
        None => Seq::empty(),
    }
}

/// The targets of a pawn, in emission order: the double step (only from
/// the starting rank, only onto an empty square — the square jumped
/// over is deliberately not consulted), the single step onto an empty
/// square, then the two diagonal captures.
pub open spec fn spec_pawn_targets(
    pieces: Seq<Option<Piece>>,
    address: Address,
    color: Color,
) -> Seq<Address> {
    let dir = spec_pawn_dir(color);
    let long = if address.row == spec_pawn_initial_row(color) {
        spec_pawn_march_step(pieces, address, 0, 2 * dir)
    } else {
        Seq::empty()
    };
    long + spec_pawn_march_step(pieces, address, 0, dir) + spec_pawn_capture_step(
        pieces,
        address,
        color,
        -dir,
        dir,
    ) + spec_pawn_capture_step(pieces, address, color, dir, dir)
}

/// The targets of the piece kind at a square, per the kind's movement
/// rule. The generator never consults whose turn it is.
pub open spec fn spec_piece_targets(
    pieces: Seq<Option<Piece>>,
    address: Address,
    color: Color,
    piece_type: PieceType,
) -> Seq<Address> {
    match piece_type {
        PieceType::Pawn => spec_pawn_targets(pieces, address, color),
        PieceType::Knight => spec_scalar_targets(pieces, address, color, spec_knight_offsets()),
        PieceType::Bishop => spec_vector_targets(pieces, address, color, spec_bishop_offsets()),
        PieceType::Rook => spec_vector_targets(pieces, address, color, spec_rook_offsets()),
        PieceType::Queen => spec_vector_targets(pieces, address, color, spec_king_queen_offsets()),
        PieceType::King => spec_scalar_targets(pieces, address, color, spec_king_queen_offsets()),
    }
}

/// What querying the targets of a square yields: the targets of the
/// occupying piece, or the no-piece error on an empty square.
pub open spec fn spec_piece_moves(board: BoardModel, address: Address) -> Result<
    Seq<Address>,
    MoveError,
> {
    match board.cell(address) {
        Some(piece) => Ok(
            spec_piece_targets(board.pieces, address, piece.color, piece.piece_type),
        ),
        None => Err(MoveError::NoPiece),
    }
}

/// The knight's jump table; every entry verified against the spec table.
fn knight_move_offsets() -> (offsets: Vec<(i8, i8)>)
    ensures
        offsets@ == spec_knight_offsets(),
{
    let mut offsets: Vec<(i8, i8)> = Vec::new();
    offsets.push((-1, 2));
    offsets.push((1, 2));
    offsets.push((2, 1));
    offsets.push((2, -1));
    offsets.push((1, -2));
    offsets.push((-1, -2));
    offsets.push((-2, -1));
    offsets.push((-2, 1));
    proof {
        assert(offsets@ =~= spec_knight_offsets());
    }
    offsets
}

/// The bishop's direction table.
fn bishop_move_offsets() -> (offsets: Vec<(i8, i8)>)
    ensures
        offsets@ == spec_bishop_offsets(),
{
    let mut offsets: Vec<(i8, i8)> = Vec::new();
    offsets.push((-1, -1));
    offsets.push((-1, 1));
    offsets.push((1, -1));
    offsets.push((1, 1));
    proof {
        assert(offsets@ =~= spec_bishop_offsets());
    }
    offsets
}

/// The rook's direction table.
fn rook_move_offsets() -> (offsets: Vec<(i8, i8)>)
    ensures
        offsets@ == spec_rook_offsets(),
{
    let mut offsets: Vec<(i8, i8)> = Vec::new();
    offsets.push((-1, 0));
    offsets.push((0, 1));
    offsets.push((1, 0));
    offsets.push((0, -1));
    proof {
        assert(offsets@ =~= spec_rook_offsets());
    }
    offsets
}

/// The shared king and queen direction table.
fn king_queen_move_offsets() -> (offsets: Vec<(i8, i8)>)
    ensures
        offsets@ == spec_king_queen_offsets(),
{
    let mut offsets: Vec<(i8, i8)> = Vec::new();
    offsets.push((-1, 0));
    offsets.push((0, 1));
    offsets.push((1, 0));
    offsets.push((0, -1));
    offsets.push((-1, -1));
    offsets.push((-1, 1));
    offsets.push((1, -1));
    offsets.push((1, 1));
    proof {
        assert(offsets@ =~= spec_king_queen_offsets());
    }
    offsets
}

/// Rotates an offset for the moving color: Black's moves mirror
/// White's. One shared helper so the pawn clauses cannot diverge.
fn rotate_by_color(color: Color, offset: (i8, i8)) -> (rotated: (i8, i8))
    requires
        -8 <= offset.0 <= 8,
        -8 <= offset.1 <= 8,
    ensures
        (rotated.0 as int, rotated.1 as int) == spec_rotated(
            color,
            (offset.0 as int, offset.1 as int),
        ),
{
    if color == Color::White {
        offset
    } else {
        (-offset.0, -offset.1)
    }
}

/// Appends the contribution of one pawn march offset: the shifted
/// square, when on the board and empty.
fn push_march_target(board: &Board, address: Address, offset: (i8, i8), out: &mut Vec<Address>)
    requires
        board.wf(),
        address.wf(),
    ensures
        final(out)@ == old(out)@ + spec_pawn_march_step(
            board@.pieces,
            address,
            offset.0 as int,
            offset.1 as int,
        ),
{
    if let Some(move_address) = address.get_shifted(offset) {
        if board.get_cell(move_address).is_none() {
            out.push(move_address);
        }
    }
    proof {
        reveal(spec_pawn_march_step);
        assert(out@ =~= old(out)@ + spec_pawn_march_step(
            board@.pieces,
            address,
            offset.0 as int,
            offset.1 as int,
        ));
    }
}

/// Appends the contribution of one pawn capture offset: the shifted
/// square, when on the board and held by an enemy piece.
fn push_capture_target(
    board: &Board,
    address: Address,
    color: Color,
    offset: (i8, i8),
    out: &mut Vec<Address>,
)
    requires
        board.wf(),
        address.wf(),
    ensures
        final(out)@ == old(out)@ + spec_pawn_capture_step(
            board@.pieces,
            address,
            color,
            offset.0 as int,
            offset.1 as int,
        ),
{
    if let Some(move_address) = address.get_shifted(offset) {
        if let Some(piece) = *board.get_cell(move_address) {
            if piece.color != color {
                out.push(move_address);
            }
        }
    }
    proof {
        reveal(spec_pawn_capture_step);
        assert(out@ =~= old(out)@ + spec_pawn_capture_step(
            board@.pieces,
            address,
            color,
            offset.0 as int,
            offset.1 as int,
        ));
    }
}

/// Appends the pawn's targets for the square: double step from the
/// starting rank, single step, then the diagonal captures, every
/// clause direction-rotated for the color by one shared helper.
fn get_pawn_moves(board: &Board, address: Address, color: Color, out: &mut Vec<Address>)
    requires
        board.wf(),
        address.wf(),
    ensures
        final(out)@ == old(out)@ + spec_pawn_targets(board@.pieces, address, color),
{
    let is_initial_row = (color == Color::White && address.row == 1) || (color == Color::Black
        && address.row == 6);

    // double step
    if is_initial_row {
        let long_march = rotate_by_color(color, (0, 2));
        push_march_target(board, address, long_march, out);
    }

    // single step
    let normal_march = rotate_by_color(color, (0, 1));
    push_march_target(board, address, normal_march, out);

    // captures
    let left_capture = rotate_by_color(color, (-1, 1));
    push_capture_target(board, address, color, left_capture, out);
    let right_capture = rotate_by_color(color, (1, 1));
    push_capture_target(board, address, color, right_capture, out);

    proof {
        assert(out@ =~= old(out)@ + spec_pawn_targets(board@.pieces, address, color));
    }
}

/// Appends the targets of a fixed-jump piece: each offset's square,
/// skipped when off the board or held by the moving color.
fn get_scalar_piece_moves(
    scalar_offsets: &Vec<(i8, i8)>,
    board: &Board,
    address: Address,
    color: Color,
    out: &mut Vec<Address>,
)
    requires
        board.wf(),
        address.wf(),
    ensures
        final(out)@ == old(out)@ + spec_scalar_targets(
            board@.pieces,
            address,
            color,
            scalar_offsets@,
        ),
{
    let mut i: usize = 0;
    while i < scalar_offsets.len()
        invariant
            board.wf(),
            address.wf(),
            i <= scalar_offsets@.len(),
            out@ == old(out)@ + spec_scalar_targets(
                board@.pieces,
                address,
                color,
                scalar_offsets@.take(i as int),
            ),
        decreases scalar_offsets@.len() - i,
    {
        let offset = scalar_offsets[i];
        if let Some(move_address) = address.get_shifted(offset) {
            match *board.get_cell(move_address) {
                Some(piece) => if piece.color != color {
                    out.push(move_address);
                },
                None => out.push(move_address),
            }
        }
        proof {
            assert(scalar_offsets@.take(i as int + 1).drop_last() =~= scalar_offsets@.take(
                i as int,
            ));
            assert(out@ =~= old(out)@ + spec_scalar_targets(
                board@.pieces,
                address,
                color,
                scalar_offsets@.take(i as int + 1),
            ));
        }
        i += 1;
    }
    proof {
        assert(scalar_offsets@.take(scalar_offsets@.len() as int) =~= scalar_offsets@);
    }
}

/// Appends the squares of one ray: repeated steps of the direction
/// until the edge, a friendly piece (excluded) or an enemy piece
/// (included) ends the walk.
fn walk_ray(board: &Board, address: Address, color: Color, offset: (i8, i8), out: &mut Vec<
    Address,
>)
    requires
        board.wf(),
        address.wf(),
        spec_is_direction(offset),
    ensures
        final(out)@ == old(out)@ + spec_ray_targets(
            board@.pieces,
            address,
            color,
            offset.0 as int,
            offset.1 as int,
        ),
    decreases spec_ray_measure(address, offset.0 as int, offset.1 as int),
{
    if let Some(move_address) = address.get_shifted(offset) {
        match *board.get_cell(move_address) {
            Some(piece) => if piece.color != color {
                out.push(move_address);
            },
            None => {
                out.push(move_address);
                walk_ray(board, move_address, color, offset, out);
            },
        }
    }
    proof {
        assert(out@ =~= old(out)@ + spec_ray_targets(
            board@.pieces,
            address,
            color,
            offset.0 as int,
            offset.1 as int,
        ));
    }
}

/// Appends the targets of a sliding piece: one ray per direction, in
/// table order.
fn get_vector_piece_moves(
    vector_offsets: &Vec<(i8, i8)>,
    board: &Board,
    address: Address,
    color: Color,
    out: &mut Vec<Address>,
)
    requires
        board.wf(),
        address.wf(),
        forall|k: int|
            0 <= k < vector_offsets@.len() ==> spec_is_direction(#[trigger] vector_offsets@[k]),
    ensures
        final(out)@ == old(out)@ + spec_vector_targets(
            board@.pieces,
            address,
            color,
            vector_offsets@,
        ),
{
    let mut i: usize = 0;
    while i < vector_offsets.len()
        invariant
            board.wf(),
            address.wf(),
            forall|k: int|
                0 <= k < vector_offsets@.len() ==> spec_is_direction(
                    #[trigger] vector_offsets@[k],
                ),
            i <= vector_offsets@.len(),
            out@ == old(out)@ + spec_vector_targets(
                board@.pieces,
                address,
                color,
                vector_offsets@.take(i as int),
            ),
        decreases vector_offsets@.len() - i,
    {
        let offset = vector_offsets[i];
        walk_ray(board, address, color, offset, out);
        proof {
            assert(vector_offsets@.take(i as int + 1).drop_last() =~= vector_offsets@.take(
                i as int,
            ));
            assert(out@ =~= old(out)@ + spec_vector_targets(
                board@.pieces,
                address,
                color,
                vector_offsets@.take(i as int + 1),
            ));
        }
        i += 1;
    }
    proof {
        assert(vector_offsets@.take(vector_offsets@.len() as int) =~= vector_offsets@);
    }
}

/// Appends the knight's targets.
fn get_knight_moves(board: &Board, address: Address, color: Color, out: &mut Vec<Address>)
    requires
        board.wf(),
        address.wf(),
    ensures
        final(out)@ == old(out)@ + spec_piece_targets(
            board@.pieces,
            address,
            color,
            PieceType::Knight,
        ),
{
    let offsets = knight_move_offsets();
    get_scalar_piece_moves(&offsets, board, address, color, out);
}

/// Appends the bishop's targets.
fn get_bishop_moves(board: &Board, address: Address, color: Color, out: &mut Vec<Address>)
    requires
        board.wf(),
        address.wf(),
    ensures
        final(out)@ == old(out)@ + spec_piece_targets(
            board@.pieces,
            address,
            color,
            PieceType::Bishop,
        ),
{
    let offsets = bishop_move_offsets();
    get_vector_piece_moves(&offsets, board, address, color, out);
}

/// Appends the rook's targets.
fn get_rook_moves(board: &Board, address: Address, color: Color, out: &mut Vec<Address>)
    requires
        board.wf(),
        address.wf(),
    ensures
        final(out)@ == old(out)@ + spec_piece_targets(
            board@.pieces,
            address,
            color,
            PieceType::Rook,
        ),
{
    let offsets = rook_move_offsets();
    get_vector_piece_moves(&offsets, board, address, color, out);
}

/// Appends the queen's targets.
fn get_queen_moves(board: &Board, address: Address, color: Color, out: &mut Vec<Address>)
    requires
        board.wf(),
        address.wf(),
    ensures
        final(out)@ == old(out)@ + spec_piece_targets(
            board@.pieces,
            address,
            color,
            PieceType::Queen,
        ),
{
    let offsets = king_queen_move_offsets();
    get_vector_piece_moves(&offsets, board, address, color, out);
}

/// Appends the king's targets.
fn get_king_moves(board: &Board, address: Address, color: Color, out: &mut Vec<Address>)
    requires
        board.wf(),
        address.wf(),
    ensures
        final(out)@ == old(out)@ + spec_piece_targets(
            board@.pieces,
            address,
            color,
            PieceType::King,
        ),
{
    let offsets = king_queen_move_offsets();
    get_scalar_piece_moves(&offsets, board, address, color, out);
}

/// Generates the targets of the piece occupying the square, in the
/// movement rules' deterministic emission order, or reports the
/// no-piece error for an empty square. Whose turn it is plays no part.
pub fn get_piece_moves(board: &Board, address: Address) -> (result: MovesResult)
    requires
        board.wf(),
        address.wf(),
    ensures
        ({
            let model = spec_piece_moves(board@, address);
            match result {
                Ok(moves) => model is Ok && moves@ == model->Ok_0,
                Err(e) => model == Err::<Seq<Address>, MoveError>(e),
            }
        }),
{
    let piece = match *board.get_cell(address) {
        Some(piece) => piece,
        None => {
            return Err(MoveError::NoPiece);
        },
    };

    let mut res = Vec::<Address>::new();

    match piece.piece_type {
        PieceType::Pawn => get_pawn_moves(board, address, piece.color, &mut res),
        PieceType::Knight => get_knight_moves(board, address, piece.color, &mut res),
        PieceType::Bishop => get_bishop_moves(board, address, piece.color, &mut res),
        PieceType::Rook => get_rook_moves(board, address, piece.color, &mut res),
        PieceType::Queen => get_queen_moves(board, address, piece.color, &mut res),
        PieceType::King => get_king_moves(board, address, piece.color, &mut res),
    }
    proof {
        assert(res@ =~= spec_piece_targets(board@.pieces, address, piece.color, piece.piece_type));
    }
    Ok(res)
}

/// What applying one move yields: the no-piece error for an empty
/// source, the wrong-color error (naming the side that holds the turn)
/// for an opponent's piece, the unreachable error (naming both
/// endpoints) for a destination the generator does not offer, and
/// otherwise the board after relocation with the turn handed over.
pub open spec fn spec_make_move(board: BoardModel, from: Address, to: Address) -> Result<
    BoardModel,
    MoveError,
> {
    match board.cell(from) {
        None => Err(MoveError::NoPiece),
        Some(piece) => if piece.color != board.whose_turn {
            Err(MoveError::WrongColorTurn(board.whose_turn))
        } else if !spec_piece_targets(board.pieces, from, piece.color, piece.piece_type).contains(
            to,
        ) {
            Err(MoveError::UnreachableMove { from, to })
        } else {
            Ok(board.relocate(from, to).toggle_turn())
        },
    }
}

/// What applying a batch of textual moves yields: each pair is parsed
/// then applied in order, stopping at the first failure; the board of
/// the outcome retains every move applied before the failing one.
pub open spec fn spec_make_moves<'a>(
    board: BoardModel,
    moves: Seq<(&'a str, &'a str)>,
) -> (BoardModel, Result<(), MoveError>)
    decreases moves.len(),
{
    if moves.len() == 0 {
        (board, Ok(()))
    } else {
        match spec_parse_address(moves[0].0@) {
            Err(e) => (board, Err(MoveError::InvalidAddress(e))),
            Ok(from) => match spec_parse_address(moves[0].1@) {
                Err(e) => (board, Err(MoveError::InvalidAddress(e))),
                Ok(to) => match spec_make_move(board, from, to) {
                    Err(e) => (board, Err(e)),
                    Ok(next) => spec_make_moves(next, moves.drop_first()),
                },
            },
        }
    }
}

/// Whether the target square is among the generated moves.
fn contains_address(moves: &Vec<Address>, target: Address) -> (found: bool)
    ensures
        found == moves@.contains(target),
{
    let mut i: usize = 0;
    while i < moves.len()
        invariant
            i <= moves@.len(),
            forall|k: int| 0 <= k < i as int ==> moves@[k] != target,
        decreases moves@.len() - i,
    {
        if moves[i] == target {
            return true;
        }
        i += 1;
    }
    false
}

/// Validates and applies one move: the source must hold a piece of the
/// side whose turn it is, and the destination must be among the
/// generated targets; then the piece is relocated (capturing whatever
/// stood on the destination) and the turn flips. On any failure the
/// board is left untouched.
pub fn make_move(board: &mut Board, from: Address, to: Address) -> (result: Result<(), MoveError>)
    requires
        old(board).wf(),
        from.wf(),
        to.wf(),
    ensures
        final(board).wf(),
        ({
            let step = spec_make_move(old(board)@, from, to);
            match result {
                Ok(()) => step is Ok && final(board)@ == step->Ok_0,
                Err(e) => step == Err::<BoardModel, MoveError>(e) && final(board)@ == old(
                    board,
                )@,
            }
        }),
{
    if let Some(piece) = *board.get_cell(from) {
        if piece.color != board.whose_turn {
            return Err(MoveError::WrongColorTurn(board.whose_turn));
        }
    }
    let possible_moves = get_piece_moves(board, from)?;

    if contains_address(&possible_moves, to) {
        board.move_piece(from, to);
        board.flip_player();
        Ok(())
    } else {
        Err(MoveError::UnreachableMove { from, to })
    }
}

/// Parses and applies an ordered batch of textual move requests,
/// stopping at the first failing parse or move; the moves applied
/// before the failure stand (no rollback).
pub fn make_moves(board: &mut Board, moves: Vec<(&str, &str)>) -> (result: Result<(), MoveError>)
    requires
        old(board).wf(),
    ensures
        final(board).wf(),
        ({
            let outcome = spec_make_moves(old(board)@, moves@);
            final(board)@ == outcome.0 && result == outcome.1
        }),
{
    proof {
        assert(moves@.skip(0) =~= moves@);
    }
    let mut i: usize = 0;
    while i < moves.len()
        invariant
            board.wf(),
            i <= moves@.len(),
            spec_make_moves(old(board)@, moves@) == spec_make_moves(board@, moves@.skip(i as int)),
        decreases moves@.len() - i,
    {
        let m = moves[i];

        let from = match Address::from_str(m.0) {
            Ok(address) => address,
            Err(parse_error) => {
                return Err(MoveError::InvalidAddress(parse_error));
            },
        };
        let to = match Address::from_str(m.1) {
            Ok(address) => address,
            Err(parse_error) => {
                return Err(MoveError::InvalidAddress(parse_error));
            },
        };

        match make_move(board, from, to) {
            Ok(()) => {},
            Err(move_error) => {
                return Err(move_error);
            },
        }

        proof {
            assert(moves@.skip(i as int).drop_first() =~= moves@.skip(i as int + 1));
        }
        i += 1;
    }
    proof {
        assert(moves@.skip(moves@.len() as int) =~= Seq::<(&str, &str)>::empty());
    }
    Ok(())
}

/// A square strictly past an origin along the moving axes of a
/// direction, and exactly on the origin's line along a still axis.
spec fn spec_beyond(origin: Address, col_offset: int, row_offset: int, t: Address) -> bool {
    &&& (col_offset > 0 ==> t.col > origin.col)
    &&& (col_offset < 0 ==> t.col < origin.col)
    &&& (col_offset == 0 ==> t.col == origin.col)
    &&& (row_offset > 0 ==> t.row > origin.row)
    &&& (row_offset < 0 ==> t.row < origin.row)
    &&& (row_offset == 0 ==> t.row == origin.row)
}

/// Every square of a ray lies strictly beyond its origin along the
/// driving axis of the direction, and exactly on the origin's line
/// along an axis the direction does not move.
proof fn lemma_ray_targets_beyond(
    pieces: Seq<Option<Piece>>,
    address: Address,
    color: Color,
    col_offset: int,
    row_offset: int,
)
    requires
        -1 <= col_offset <= 1,
        -1 <= row_offset <= 1,
        !(col_offset == 0 && row_offset == 0),
    ensures
        forall|k: int|
            0 <= k < spec_ray_targets(pieces, address, color, col_offset, row_offset).len()
                ==> spec_beyond(
                address,
                col_offset,
                row_offset,
                #[trigger] spec_ray_targets(pieces, address, color, col_offset, row_offset)[k],
            ),
    decreases spec_ray_measure(address, col_offset, row_offset),
{
    match address.spec_shifted(col_offset, row_offset) {
        Some(next) => {
            if pieces[spec_cell_index(next)] is None {
                lemma_ray_targets_beyond(pieces, next, color, col_offset, row_offset);
                let whole = spec_ray_targets(pieces, address, color, col_offset, row_offset);
                let rest = spec_ray_targets(pieces, next, color, col_offset, row_offset);
                assert forall|k: int| 0 <= k < whole.len() implies spec_beyond(
                    address,
                    col_offset,
                    row_offset,
                    whole[k],
                ) by {
                    if k == 0 {
                        assert(whole[k] == next);
                    } else {
                        assert(whole[k] == rest[k - 1]);
                        assert(spec_beyond(next, col_offset, row_offset, rest[k - 1]));
                    }
                }
            }
        },
        None => {},
    }
}

/// No ray contains its own origin.
proof fn lemma_ray_targets_exclude_source(
    pieces: Seq<Option<Piece>>,
    address: Address,
    color: Color,
    col_offset: int,
    row_offset: int,
)
    requires
        -1 <= col_offset <= 1,
        -1 <= row_offset <= 1,
        !(col_offset == 0 && row_offset == 0),
    ensures
        !spec_ray_targets(pieces, address, color, col_offset, row_offset).contains(address),
{
    lemma_ray_targets_beyond(pieces, address, color, col_offset, row_offset);
}

/// The concatenated rays of offsets that are all directions never
/// contain the origin square.
proof fn lemma_vector_targets_exclude_source(
    pieces: Seq<Option<Piece>>,
    address: Address,
    color: Color,
    offsets: Seq<(i8, i8)>,
)
    requires
        forall|k: int| 0 <= k < offsets.len() ==> spec_is_direction(#[trigger] offsets[k]),
    ensures
        !spec_vector_targets(pieces, address, color, offsets).contains(address),
    decreases offsets.len(),
{
    if offsets.len() > 0 {
        lemma_vector_targets_exclude_source(pieces, address, color, offsets.drop_last());
        lemma_ray_targets_exclude_source(
            pieces,
            address,
            color,
            offsets.last().0 as int,
            offsets.last().1 as int,
        );
        let whole = spec_vector_targets(pieces, address, color, offsets);
        if whole.contains(address) {
            let k = choose|k: int| 0 <= k < whole.len() && whole[k] == address;
            assert(false);
        }
    }
}

/// A fixed-jump table of offsets that never stand still yields no
/// target equal to the origin square.
proof fn lemma_scalar_targets_exclude_source(
    pieces: Seq<Option<Piece>>,
    address: Address,
    color: Color,
    offsets: Seq<(i8, i8)>,
)
    requires
        forall|k: int|
            0 <= k < offsets.len() ==> !((#[trigger] offsets[k]).0 == 0 && offsets[k].1 == 0),
    ensures
        !spec_scalar_targets(pieces, address, color, offsets).contains(address),
    decreases offsets.len(),
{
    if offsets.len() > 0 {
        lemma_scalar_targets_exclude_source(pieces, address, color, offsets.drop_last());
        let whole = spec_scalar_targets(pieces, address, color, offsets);
        if whole.contains(address) {
            let k = choose|k: int| 0 <= k < whole.len() && whole[k] == address;
            assert(false);
        }
    }
}

/// Law: no movement rule offers a piece its own square.
pub proof fn lemma_targets_exclude_source(
    pieces: Seq<Option<Piece>>,
    address: Address,
    color: Color,
    piece_type: PieceType,
)
    ensures
        !spec_piece_targets(pieces, address, color, piece_type).contains(address),
{
    match piece_type {
        PieceType::Pawn => {
            reveal(spec_pawn_march_step);
            reveal(spec_pawn_capture_step);
            let targets = spec_pawn_targets(pieces, address, color);
            if targets.contains(address) {
                let k = choose|k: int| 0 <= k < targets.len() && targets[k] == address;
                assert(false);
            }
        },
        PieceType::Knight => {
            lemma_scalar_targets_exclude_source(pieces, address, color, spec_knight_offsets());
        },
        PieceType::Bishop => {
            lemma_vector_targets_exclude_source(pieces, address, color, spec_bishop_offsets());
        },
        PieceType::Rook => {
            lemma_vector_targets_exclude_source(pieces, address, color, spec_rook_offsets());
        },
        PieceType::Queen => {
            lemma_vector_targets_exclude_source(
                pieces,
                address,
                color,
                spec_king_queen_offsets(),
            );
        },
        PieceType::King => {
            lemma_scalar_targets_exclude_source(
                pieces,
                address,
                color,
                spec_king_queen_offsets(),
            );
        },
    }
}

/// Law: an accepted move updates the occupancy at both endpoints (the
/// mover lands on the destination, the source empties), appends at most
/// one captured piece — to the graveyard of the captured piece's own
/// color, exactly when the destination was occupied — and flips the
/// turn. The endpoints are necessarily distinct, since no movement
/// rule offers a piece its own square.
pub proof fn lemma_make_move_ok_effects(board: BoardModel, from: Address, to: Address)
    requires
        board.wf(),
        from.wf(),
        to.wf(),
        spec_make_move(board, from, to) is Ok,
    ensures
        ({
            let next = spec_make_move(board, from, to)->Ok_0;
            &&& next.pieces[spec_cell_index(to)] == board.pieces[spec_cell_index(from)]
            &&& next.pieces[spec_cell_index(from)] is None
            &&& next.whose_turn == spec_other_color(board.whose_turn)
            &&& match board.pieces[spec_cell_index(to)] {
                Some(captured) => {
                    &&& captured.color == Color::White ==> next.white_graveyard
                        == board.white_graveyard.push(captured) && next.black_graveyard
                        == board.black_graveyard
                    &&& captured.color == Color::Black ==> next.black_graveyard
                        == board.black_graveyard.push(captured) && next.white_graveyard
                        == board.white_graveyard
                },
                None => next.white_graveyard == board.white_graveyard && next.black_graveyard
                    == board.black_graveyard,
            }
        }),
{
    let piece = board.cell(from)->Some_0;
    lemma_targets_exclude_source(board.pieces, from, piece.color, piece.piece_type);
    assert(from != to);
    assert(spec_cell_index(from) != spec_cell_index(to));
}

/// Law: a pawn standing anywhere but its color's starting rank is
/// never offered the double-step destination, whatever the occupancy.
pub proof fn lemma_pawn_double_step_only_from_initial_row(
    pieces: Seq<Option<Piece>>,
    address: Address,
    color: Color,
    target: Address,
)
    requires
        address.wf(),
        address.row != spec_pawn_initial_row(color),
        address.spec_shifted(0, 2 * spec_pawn_dir(color)) == Some(target),
    ensures
        !spec_pawn_targets(pieces, address, color).contains(target),
{
    reveal(spec_pawn_march_step);
    reveal(spec_pawn_capture_step);
    let dir = spec_pawn_dir(color);
    let targets = spec_pawn_targets(pieces, address, color);
    if targets.contains(target) {
        let k = choose|k: int| 0 <= k < targets.len() && targets[k] == target;
        // off the initial rank the double-step clause contributes
        // nothing, so the witness lies in the single step or a capture
        assert(targets =~= spec_pawn_march_step(pieces, address, 0, dir)
            + spec_pawn_capture_step(pieces, address, color, -dir, dir)
            + spec_pawn_capture_step(pieces, address, color, dir, dir));
        // the single step lands one rank short of the double step, and
        // each capture lands on a neighbouring file; none equals target
        assert(target.row == address.row + 2 * dir);
        assert(target.col == address.col);
        assert(false);
    }
}

} // verus!
